use pullbox::errors::PullError;
use pullbox::manifest::v1::{FsLayer, ImageManifestV1};
use pullbox::manifest::v2::{
    Config, ImageManifestV2, Layer as V2Layer, ManifestDigest, ManifestDigestList, Platform,
};
use pullbox::manifest::{parse_manifest_response, GetLayers, GetManifestResponse};

fn platform(os: &str, arch: &str) -> Platform {
    Platform {
        architecture: String::from(arch),
        os: String::from(os),
        os_version: None,
        os_features: None,
        variant: None,
        features: None,
    }
}

fn entry(digest: &str, os: &str, arch: &str) -> ManifestDigest {
    ManifestDigest {
        digest: String::from(digest),
        media_type: String::from("application/vnd.docker.distribution.manifest.v2+json"),
        platform: platform(os, arch),
        size: 527,
    }
}

#[test]
fn platform_allow_list() {
    assert!(platform("linux", "amd64").is_valid());
    assert!(platform("linux", "arm64").is_valid());
    assert!(platform("linux", "arm").is_valid());
    assert!(!platform("windows", "amd64").is_valid());
    assert!(!platform("linux", "ppc64le").is_valid());
}

#[test]
fn first_allow_listed_platform_wins() {
    let list = ManifestDigestList {
        manifests: vec![
            entry("sha256:win", "windows", "amd64"),
            entry("sha256:arm64", "linux", "arm64"),
            entry("sha256:amd64", "linux", "amd64"),
        ],
        media_type: String::from("application/vnd.docker.distribution.manifest.list.v2+json"),
        schema_version: 2,
    };
    let chosen = list.get_one().expect("an allow-listed entry is present");
    assert_eq!(chosen.digest, "sha256:arm64");
}

#[test]
fn a_windows_entry_is_ignored_in_favor_of_linux_arm64() {
    let list = ManifestDigestList {
        manifests: vec![
            entry("sha256:win", "windows", "amd64"),
            entry("sha256:arm64", "linux", "arm64"),
        ],
        media_type: String::from("application/vnd.docker.distribution.manifest.list.v2+json"),
        schema_version: 2,
    };
    let chosen = list.get_one().expect("the linux/arm64 entry qualifies");
    assert_eq!(chosen.digest, "sha256:arm64");
    assert_eq!(chosen.platform.os, "linux");
    assert_eq!(chosen.platform.architecture, "arm64");
}

#[test]
fn no_allow_listed_platform_selects_nothing() {
    let list = ManifestDigestList {
        manifests: vec![entry("sha256:a", "windows", "amd64"), entry("sha256:b", "plan9", "mips")],
        media_type: String::from("application/vnd.docker.distribution.manifest.list.v2+json"),
        schema_version: 2,
    };
    assert!(list.get_one().is_none());
}

#[test]
fn empty_index_selects_nothing() {
    let list = ManifestDigestList {
        manifests: vec![],
        media_type: String::from("application/vnd.docker.distribution.manifest.list.v2+json"),
        schema_version: 2,
    };
    assert!(list.get_one().is_none());
}

#[test]
fn v2_layers_keep_order_and_media_type() {
    let m = ImageManifestV2 {
        media_type: String::from("application/vnd.docker.distribution.manifest.v2+json"),
        schema_version: 2,
        config: Config {
            media_type: String::from("application/vnd.docker.container.image.v1+json"),
            size: 7,
            digest: String::from("sha256:cfg"),
        },
        layers: vec![
            V2Layer {
                media_type: String::from("application/vnd.docker.image.rootfs.diff.tar.gzip"),
                size: 10,
                digest: String::from("sha256:one"),
            },
            V2Layer {
                media_type: String::from("application/vnd.docker.image.rootfs.diff.tar.gzip"),
                size: 20,
                digest: String::from("sha256:two"),
            },
        ],
    };
    let layers = m.get_layers();
    assert_eq!(layers.len(), 2);
    assert_eq!(layers[0].digest, "sha256:one");
    assert_eq!(layers[1].digest, "sha256:two");
    assert_eq!(
        layers[0].media_type.as_deref(),
        Some("application/vnd.docker.image.rootfs.diff.tar.gzip")
    );
}

#[test]
fn v1_layers_keep_order_and_carry_no_media_type() {
    let m = ImageManifestV1 {
        schema_version: 1,
        name: String::from("library/busybox"),
        architecture: String::from("amd64"),
        fs_layers: vec![
            FsLayer { blob_sum: String::from("sha256:first") },
            FsLayer { blob_sum: String::from("sha256:second") },
        ],
        history: vec![],
        signatures: vec![],
    };
    let layers = m.get_layers();
    assert_eq!(layers.len(), 2);
    assert_eq!(layers[0].digest, "sha256:first");
    assert_eq!(layers[1].digest, "sha256:second");
    assert!(layers[0].media_type.is_none());
    assert!(layers[1].media_type.is_none());
}

#[test]
fn an_index_body_classifies_as_a_digest_list() {
    let body = br#"{
        "schemaVersion": 2,
        "mediaType": "application/vnd.docker.distribution.manifest.list.v2+json",
        "manifests": [
            {
                "digest": "sha256:abc",
                "mediaType": "application/vnd.docker.distribution.manifest.v2+json",
                "size": 527,
                "platform": {
                    "architecture": "arm64",
                    "os": "linux",
                    "variant": "v8",
                    "os.version": "5.10",
                    "os.features": ["sse4"],
                    "features": ["aes", "neon"]
                }
            }
        ]
    }"#;
    match parse_manifest_response(body) {
        Ok(GetManifestResponse::ManifestDigestList(list)) => {
            assert_eq!(list.schema_version, 2);
            assert_eq!(list.manifests.len(), 1);
            assert_eq!(list.manifests[0].digest, "sha256:abc");
            assert_eq!(list.manifests[0].size, 527);
            assert_eq!(list.manifests[0].platform.os, "linux");
            assert_eq!(list.manifests[0].platform.variant.as_deref(), Some("v8"));
            assert_eq!(list.manifests[0].platform.os_version.as_deref(), Some("5.10"));
            assert_eq!(
                list.manifests[0].platform.os_features,
                Some(vec![String::from("sse4")])
            );
            assert_eq!(
                list.manifests[0].platform.features,
                Some(vec![String::from("aes"), String::from("neon")])
            );
        }
        _ => panic!("expected an index"),
    }
}

#[test]
fn a_current_schema_body_classifies_as_v2() {
    let body = br#"{
        "schemaVersion": 2,
        "mediaType": "application/vnd.docker.distribution.manifest.v2+json",
        "config": {
            "mediaType": "application/vnd.docker.container.image.v1+json",
            "size": 1469,
            "digest": "sha256:cfg"
        },
        "layers": [
            {
                "mediaType": "application/vnd.docker.image.rootfs.diff.tar.gzip",
                "size": 2479,
                "digest": "sha256:l1"
            },
            {
                "mediaType": "application/vnd.docker.image.rootfs.diff.tar.gzip",
                "size": 100,
                "digest": "sha256:l2"
            }
        ]
    }"#;
    match parse_manifest_response(body) {
        Ok(GetManifestResponse::ImageManifestV2(m)) => {
            assert_eq!(m.schema_version, 2);
            assert_eq!(m.config.digest, "sha256:cfg");
            assert_eq!(m.layers.len(), 2);
            assert_eq!(m.layers[0].digest, "sha256:l1");
            assert_eq!(m.layers[1].digest, "sha256:l2");
        }
        _ => panic!("expected a current-schema manifest"),
    }
}

#[test]
fn a_legacy_body_classifies_as_v1() {
    let body = br#"{
        "schemaVersion": 1,
        "name": "library/busybox",
        "architecture": "amd64",
        "fsLayers": [
            { "blobSum": "sha256:bs1" },
            { "blobSum": "sha256:bs2" }
        ],
        "history": [
            { "v1Compatibility": "{}" }
        ],
        "signatures": [
            {
                "header": {
                    "jwk": { "crv": "P-256", "kid": "K", "kty": "EC", "x": "X", "y": "Y" },
                    "alg": "ES256"
                },
                "signature": "S",
                "protected": "P"
            }
        ]
    }"#;
    match parse_manifest_response(body) {
        Ok(GetManifestResponse::ImageManifestV1(m)) => {
            assert_eq!(m.schema_version, 1);
            assert_eq!(m.name, "library/busybox");
            assert_eq!(m.fs_layers.len(), 2);
            assert_eq!(m.fs_layers[0].blob_sum, "sha256:bs1");
            assert_eq!(m.history.len(), 1);
            assert_eq!(m.signatures.len(), 1);
            assert_eq!(m.signatures[0].header.jwk.kty, "EC");
        }
        _ => panic!("expected a legacy manifest"),
    }
}

#[test]
fn an_unrecognized_body_is_a_decode_error() {
    let body = br#"{ "schemaVersion": 2, "random": true }"#;
    match parse_manifest_response(body) {
        Err(e) => assert_eq!(e, PullError::ManifestDecode),
        Ok(_) => panic!("expected a decode error"),
    }
}

#[test]
fn a_non_json_body_is_a_decode_error() {
    match parse_manifest_response(b"<html>503</html>") {
        Err(e) => assert_eq!(e, PullError::ManifestDecode),
        Ok(_) => panic!("expected a decode error"),
    }
}

#[test]
fn an_oversized_declared_size_is_a_decode_error() {
    let body = br#"{
        "schemaVersion": 2,
        "mediaType": "application/vnd.docker.distribution.manifest.v2+json",
        "config": {
            "mediaType": "application/vnd.docker.container.image.v1+json",
            "size": 99999999999,
            "digest": "sha256:cfg"
        },
        "layers": []
    }"#;
    match parse_manifest_response(body) {
        Err(e) => assert_eq!(e, PullError::ManifestDecode),
        Ok(_) => panic!("expected a decode error"),
    }
}
