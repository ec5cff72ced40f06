//! Manifest documents: the two concrete schema shapes, the
//! multi-architecture index, and the classification of a response body
//! into one of them by its discriminant fields.

pub mod v1;
pub mod v2;

use vstd::prelude::*;
use crate::errors::PullError;
use crate::json::{get_field, parse_json, spec_get, spec_json_of, Json};
use self::v1::{parse_v1_manifest, v1_manifest_matches, ImageManifestV1};
use self::v2::{
    digest_list_matches, parse_digest_list, parse_v2_manifest, v2_manifest_matches,
    ImageManifestV2, ManifestDigestList,
};

verus! {

/// A content-addressed identifier, typically
/// `<algorithm>:<hex-encoded hash>`.
pub type Digest = String;

/// A content-type label, e.g. `application/vnd.oci.image.manifest.v1+json`.
pub type MediaType = String;

/// A declared blob size in bytes.
pub type Size = u32;

/// One filesystem layer: its digest and, for the current schema only, its
/// declared media type.
pub struct Layer {
    pub digest: Digest,
    pub media_type: Option<MediaType>,
}

/// The uniform "get layers" capability of a concrete manifest: the layer
/// list in exactly the declared order.
pub trait GetLayers: Sized {
    /// The ordered layer list this manifest declares.
    spec fn spec_layers(self) -> Seq<Layer>;

    /// Extract the layers, in declared order.
    fn get_layers(self) -> (r: Vec<Layer>)
        ensures
            r@ == self.spec_layers(),
    ;
}

/// A classified manifest response body.
pub enum GetManifestResponse {
    ManifestDigestList(ManifestDigestList),
    ImageManifestV1(ImageManifestV1),
    ImageManifestV2(ImageManifestV2),
}

/// The structural shape of a manifest body.
pub enum ManifestKind {
    /// A multi-architecture index: it lists manifests.
    Index,
    /// The legacy schema: it lists filesystem layers as blob sums.
    Legacy,
    /// The current schema: it lists layers with media types.
    Current,
    /// None of the known shapes.
    Unknown,
}

/// A document's shape, by which discriminant field it carries.
pub open spec fn spec_classify(doc: Json) -> ManifestKind {
    if spec_get(doc, "manifests"@) is Some {
        ManifestKind::Index
    } else if spec_get(doc, "fsLayers"@) is Some {
        ManifestKind::Legacy
    } else if spec_get(doc, "layers"@) is Some {
        ManifestKind::Current
    } else {
        ManifestKind::Unknown
    }
}

/// Classify a body by which discriminant field it carries: a manifest
/// list marks an index, a legacy blob-sum list marks the legacy schema,
/// a layer list marks the current schema, in that order of precedence.
pub fn classify(has_manifests: bool, has_fs_layers: bool, has_layers: bool) -> (k: ManifestKind)
    ensures
        k == (if has_manifests {
            ManifestKind::Index
        } else if has_fs_layers {
            ManifestKind::Legacy
        } else if has_layers {
            ManifestKind::Current
        } else {
            ManifestKind::Unknown
        }),
{
    if has_manifests {
        ManifestKind::Index
    } else if has_fs_layers {
        ManifestKind::Legacy
    } else if has_layers {
        ManifestKind::Current
    } else {
        ManifestKind::Unknown
    }
}

/// `resp` is what the document says: the variant its discriminant field
/// selects, its content field for field.
pub open spec fn manifest_response_matches(resp: GetManifestResponse, doc: Json) -> bool {
    match resp {
        GetManifestResponse::ManifestDigestList(l) => spec_classify(doc) == ManifestKind::Index
            && digest_list_matches(l, doc),
        GetManifestResponse::ImageManifestV1(m) => spec_classify(doc) == ManifestKind::Legacy
            && v1_manifest_matches(m, doc),
        GetManifestResponse::ImageManifestV2(m) => spec_classify(doc) == ManifestKind::Current
            && v2_manifest_matches(m, doc),
    }
}

/// Decode a manifest response body: parse it as JSON, classify it by its
/// discriminant field, then read the classified shape.  Success is owed
/// exactly when the body is valid JSON whose classified shape reads in
/// full, and the result then holds what the body says; everything else is
/// a decode error.
pub fn parse_manifest_response(body: &[u8]) -> (r: Result<GetManifestResponse, PullError>)
    ensures
        match spec_json_of(body@) {
            Some(doc) => match r {
                Ok(resp) => manifest_response_matches(resp, doc),
                Err(e) => e == PullError::ManifestDecode && (forall|resp: GetManifestResponse|
                    !manifest_response_matches(resp, doc)),
            },
            None => r == Err::<GetManifestResponse, PullError>(PullError::ManifestDecode),
        },
{
    let doc = match parse_json(body) {
        Some(doc) => doc,
        None => {
            return Err(PullError::ManifestDecode);
        }
    };
    let has_manifests = get_field(&doc, "manifests").is_some();
    let has_fs_layers = get_field(&doc, "fsLayers").is_some();
    let has_layers = get_field(&doc, "layers").is_some();
    match classify(has_manifests, has_fs_layers, has_layers) {
        ManifestKind::Index => match parse_digest_list(&doc) {
            Some(list) => Ok(GetManifestResponse::ManifestDigestList(list)),
            None => Err(PullError::ManifestDecode),
        },
        ManifestKind::Legacy => match parse_v1_manifest(&doc) {
            Some(m) => Ok(GetManifestResponse::ImageManifestV1(m)),
            None => Err(PullError::ManifestDecode),
        },
        ManifestKind::Current => match parse_v2_manifest(&doc) {
            Some(m) => Ok(GetManifestResponse::ImageManifestV2(m)),
            None => Err(PullError::ManifestDecode),
        },
        ManifestKind::Unknown => Err(PullError::ManifestDecode),
    }
}

} // verus!
