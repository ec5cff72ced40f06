//! The sandbox layout and the launch-outcome decision.
//!
//! The plan names every path the jail needs: the working directory and
//! the placeholder device-null entry under the staging root, and the
//! working directory as it reads once the root has changed.  The
//! operating-system calls that realize the plan (directory creation, the
//! root change, the namespace request, the directory change) happen
//! outside the library and abort the run on any failure.

use vstd::prelude::*;
use vstd::string::*;

verus! {

/// The child's exit code when it reports none of its own.
pub const FALLBACK_EXIT_CODE: i32 = 1;

/// Every path the jail setup touches, derived from one staging root.
pub struct SandboxPlan {
    /// The staging root that becomes the process's filesystem root.
    pub root: String,
    /// The working directory to create under the root.
    pub home_dir: String,
    /// The placeholder device-null entry to create under the root.
    pub dev_null: String,
    /// The working directory as resolved after the root change.
    pub workdir: String,
}

/// Derive the jail layout from a staging root.
pub fn sandbox_plan(root: &str) -> (p: SandboxPlan)
    ensures
        p.root@ == root@,
        p.home_dir@ == root@ + "/home/tmp"@,
        p.dev_null@ == root@ + "/dev/null"@,
        p.workdir@ == "/home/tmp"@,
{
    let mut home_dir = root.to_owned();
    home_dir.append("/home/tmp");
    let mut dev_null = root.to_owned();
    dev_null.append("/dev/null");
    SandboxPlan {
        root: root.to_owned(),
        home_dir,
        dev_null,
        workdir: String::from_str("/home/tmp"),
    }
}

/// The staging root used when none is chosen explicitly.
pub fn default_staging_root() -> (r: String)
    ensures
        r@ == "/tmp/root"@,
{
    String::from_str("/tmp/root")
}

/// What of the finished child is forwarded, and with which exit code.
pub enum LaunchOutcome {
    /// The child reported an exit code: forward its standard output and
    /// exit with that code.
    ForwardStdout { code: i32 },
    /// No exit code was obtainable: forward the child's standard error
    /// and exit with the fallback code.
    ForwardStderr { code: i32 },
}

/// Decide how the launched command's outcome is forwarded.
pub fn launch_decision(exit_code: Option<i32>) -> (r: LaunchOutcome)
    ensures
        match exit_code {
            Some(c) => r == (LaunchOutcome::ForwardStdout { code: c }),
            None => r == (LaunchOutcome::ForwardStderr { code: FALLBACK_EXIT_CODE }),
        },
{
    match exit_code {
        Some(c) => LaunchOutcome::ForwardStdout { code: c },
        None => LaunchOutcome::ForwardStderr { code: FALLBACK_EXIT_CODE },
    }
}

} // verus!
