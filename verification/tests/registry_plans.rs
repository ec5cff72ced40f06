use pullbox::auth::{ApiV2Status, AuthParams};
use pullbox::errors::PullError;
use pullbox::manifest::v2::{ManifestDigest, ManifestDigestList, Platform};
use pullbox::manifest::{GetManifestResponse, Layer};
use pullbox::registry::{
    auth_token_url, classify_v2_status, pull_scope, resolve_step, Registry, ResolveOutcome,
    MAX_MANIFEST_HOPS,
};
use pullbox::repository::Repository;

fn index_with(platform_pairs: &[(&str, &str)]) -> GetManifestResponse {
    let manifests = platform_pairs
        .iter()
        .enumerate()
        .map(|(i, (os, arch))| ManifestDigest {
            digest: format!("sha256:{}", i),
            media_type: String::from("application/vnd.docker.distribution.manifest.v2+json"),
            platform: Platform {
                architecture: String::from(*arch),
                os: String::from(*os),
                os_version: None,
                os_features: None,
                variant: None,
                features: None,
            },
            size: 1,
        })
        .collect();
    GetManifestResponse::ManifestDigestList(ManifestDigestList {
        manifests,
        media_type: String::from("application/vnd.docker.distribution.manifest.list.v2+json"),
        schema_version: 2,
    })
}

#[test]
fn pull_scope_format() {
    assert_eq!(pull_scope("library/busybox"), "repository:library/busybox:pull");
}

#[test]
fn auth_token_url_carries_the_query() {
    let params = AuthParams::new(None, None, String::from("repository:library/busybox:pull"));
    assert_eq!(
        auth_token_url(&params),
        "https://auth.docker.io/token?access_type=offline&client_id=dockerengine&scope=repository:library/busybox:pull&service=registry.docker.io"
    );
}

#[test]
fn manifest_request_plan_addresses_and_headers() {
    let registry = Registry::with_token(Repository::new("busybox"), String::from("tok"));
    let plan = registry.manifest_request("library/busybox", "latest", None);
    assert_eq!(plan.url, "https://registry.hub.docker.com/v2/library/busybox/manifests/latest");
    assert_eq!(plan.authorization, "Bearer tok");
    assert_eq!(plan.accept, None);

    let accept = String::from("application/vnd.docker.distribution.manifest.v2+json");
    let plan = registry.manifest_request("library/busybox", "sha256:abc", Some(&accept));
    assert_eq!(
        plan.url,
        "https://registry.hub.docker.com/v2/library/busybox/manifests/sha256:abc"
    );
    assert_eq!(plan.accept.as_deref(), Some(accept.as_str()));
}

#[test]
fn blob_request_plan_addresses_and_headers() {
    let registry = Registry::with_token(Repository::new("busybox"), String::from("tok"));
    let layer = Layer {
        digest: String::from("sha256:l1"),
        media_type: Some(String::from("application/vnd.docker.image.rootfs.diff.tar.gzip")),
    };
    let plan = registry.blob_request(&layer);
    assert_eq!(plan.url, "https://registry.hub.docker.com/v2/library/busybox/blobs/sha256:l1");
    assert_eq!(plan.authorization, "Bearer tok");
    assert_eq!(
        plan.accept.as_deref(),
        Some("application/vnd.docker.image.rootfs.diff.tar.gzip")
    );

    let bare = Layer { digest: String::from("sha256:l2"), media_type: None };
    assert_eq!(registry.blob_request(&bare).accept, None);
}

#[test]
fn resolve_step_recurses_into_the_first_allow_listed_entry() {
    let resp = index_with(&[("windows", "amd64"), ("linux", "arm64"), ("linux", "amd64")]);
    match resolve_step(resp, 0) {
        Ok(ResolveOutcome::Recurse { digest, media_type }) => {
            assert_eq!(digest, "sha256:1");
            assert_eq!(media_type, "application/vnd.docker.distribution.manifest.v2+json");
        }
        _ => panic!("expected one more hop"),
    }
}

#[test]
fn resolve_step_fails_without_a_compatible_platform() {
    let resp = index_with(&[("windows", "amd64"), ("plan9", "mips")]);
    match resolve_step(resp, 0) {
        Err(e) => assert_eq!(e, PullError::NoCompatibleManifest),
        Ok(_) => panic!("expected a failure"),
    }
}

#[test]
fn resolve_step_enforces_the_hop_bound() {
    let resp = index_with(&[("linux", "amd64")]);
    match resolve_step(resp, MAX_MANIFEST_HOPS) {
        Err(e) => assert_eq!(e, PullError::RecursionLimit),
        Ok(_) => panic!("expected the depth bound to fire"),
    }
}

#[test]
fn classify_v2_status_branches() {
    assert!(matches!(classify_v2_status(200, None), Ok(ApiV2Status::Supported)));
    assert!(matches!(classify_v2_status(404, None), Ok(ApiV2Status::NotSupport)));
    match classify_v2_status(401, Some(String::from("Bearer realm=x"))) {
        Ok(ApiV2Status::Unauthorized(h)) => assert_eq!(h.as_deref(), Some("Bearer realm=x")),
        _ => panic!("expected an unauthorized answer"),
    }
    match classify_v2_status(500, None) {
        Err(e) => assert_eq!(e, PullError::Auth),
        Ok(_) => panic!("expected an error"),
    }
}
