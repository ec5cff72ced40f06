use pullbox::errors::{PullError, SandboxFailure};
use pullbox::sandbox::{
    default_staging_root, launch_decision, sandbox_plan, LaunchOutcome, FALLBACK_EXIT_CODE,
};

#[test]
fn sandbox_plan_derives_every_path_from_the_root() {
    let plan = sandbox_plan("/tmp/root");
    assert_eq!(plan.root, "/tmp/root");
    assert_eq!(plan.home_dir, "/tmp/root/home/tmp");
    assert_eq!(plan.dev_null, "/tmp/root/dev/null");
    assert_eq!(plan.workdir, "/home/tmp");
}

#[test]
fn sandbox_plan_follows_an_explicit_root() {
    let plan = sandbox_plan("/var/stage");
    assert_eq!(plan.home_dir, "/var/stage/home/tmp");
    assert_eq!(plan.dev_null, "/var/stage/dev/null");
    assert_eq!(plan.workdir, "/home/tmp");
}

#[test]
fn the_default_staging_root() {
    assert_eq!(default_staging_root(), "/tmp/root");
}

#[test]
fn an_explicit_exit_code_forwards_stdout() {
    match launch_decision(Some(7)) {
        LaunchOutcome::ForwardStdout { code } => assert_eq!(code, 7),
        _ => panic!("expected standard output to be forwarded"),
    }
}

#[test]
fn a_missing_exit_code_forwards_stderr_with_the_fallback() {
    match launch_decision(None) {
        LaunchOutcome::ForwardStderr { code } => assert_eq!(code, FALLBACK_EXIT_CODE),
        _ => panic!("expected standard error to be forwarded"),
    }
}

#[test]
fn error_messages_name_the_stage() {
    assert_eq!(PullError::NoCompatibleManifest.describe(), "no compatible manifest");
    assert_eq!(
        PullError::Sandbox(SandboxFailure::Privilege).describe(),
        "insufficient privilege to jail the filesystem"
    );
    assert_eq!(
        PullError::BlobFetch { layer_index: 3 }.describe(),
        "failed to fetch a layer blob"
    );
    assert_eq!(PullError::Auth.describe(), "authentication with the registry failed");
}
