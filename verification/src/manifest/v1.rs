//! The legacy manifest schema: layers expressed as a blob-sum list, plus
//! the history and signature blocks the schema carries.
//!
//! As in the current schema, each reader carries a `..._matches` relation
//! tying the parsed value to the document, and a refusal proves that no
//! value could match.

use vstd::prelude::*;
use crate::json::{
    as_array, get_field, get_string_field, spec_arr_of, spec_get, spec_get_string, Json,
};
use crate::manifest::v2::{spec_schema_version_of, parse_schema_version};
use crate::manifest::{GetLayers, Layer as ImageLayer};

verus! {

/// A legacy blob identifier.
pub type BlobSum = String;

/// The legacy, schema-concrete manifest.
pub struct ImageManifestV1 {
    pub schema_version: u8,
    pub name: String,
    pub architecture: String,
    pub fs_layers: Vec<FsLayer>,
    pub history: Vec<HistoryEntry>,
    pub signatures: Vec<Signature>,
}

/// One legacy layer: a bare blob sum, no media type.
pub struct FsLayer {
    pub blob_sum: BlobSum,
}

/// One history entry of a legacy manifest.
pub struct HistoryEntry {
    pub v1_compatibility: String,
}

/// One signature block of a legacy manifest.
pub struct Signature {
    pub header: Header,
    pub signature: String,
    pub protected: String,
}

/// The header of a signature block.
pub struct Header {
    pub jwk: Jwk,
    pub alg: String,
}

/// The JSON web key of a signature header.
pub struct Jwk {
    pub crv: String,
    pub kid: String,
    pub kty: String,
    pub x: String,
    pub y: String,
}

/// How a legacy layer appears in the uniform list: no media type.
pub open spec fn spec_layer_from_v1(l: FsLayer) -> ImageLayer {
    ImageLayer { digest: l.blob_sum, media_type: None }
}

impl GetLayers for ImageManifestV1 {
    open spec fn spec_layers(self) -> Seq<ImageLayer> {
        self.fs_layers@.map_values(|l: FsLayer| spec_layer_from_v1(l))
    }

    fn get_layers(self) -> (r: Vec<ImageLayer>) {
        let n = self.fs_layers.len();
        let mut out: Vec<ImageLayer> = Vec::new();
        let mut i: usize = 0;
        while i < n
            invariant
                n == self.fs_layers@.len(),
                i <= n,
                out@.len() == i,
                forall|k: int| 0 <= k < i ==> out@[k] == spec_layer_from_v1(self.fs_layers@[k]),
            decreases n - i,
        {
            out.push(
                ImageLayer { digest: self.fs_layers[i].blob_sum.clone(), media_type: None },
            );
            i += 1;
        }
        proof {
            assert(out@ =~= self.spec_layers());
        }
        out
    }
}

/// `l` holds exactly what one legacy layer entry says.
pub open spec fn fs_layer_matches(l: FsLayer, doc: Json) -> bool {
    Some(l.blob_sum) == spec_get_string(doc, "blobSum"@)
}

/// `h` holds exactly what one history entry says.
pub open spec fn history_entry_matches(h: HistoryEntry, doc: Json) -> bool {
    Some(h.v1_compatibility) == spec_get_string(doc, "v1Compatibility"@)
}

/// `j` holds exactly what a JSON web key object says.
pub open spec fn jwk_matches(j: Jwk, doc: Json) -> bool {
    &&& Some(j.crv) == spec_get_string(doc, "crv"@)
    &&& Some(j.kid) == spec_get_string(doc, "kid"@)
    &&& Some(j.kty) == spec_get_string(doc, "kty"@)
    &&& Some(j.x) == spec_get_string(doc, "x"@)
    &&& Some(j.y) == spec_get_string(doc, "y"@)
}

/// `s` holds exactly what one signature block says.
pub open spec fn signature_matches(s: Signature, doc: Json) -> bool {
    &&& match spec_get(doc, "header"@) {
        Some(h) => {
            &&& match spec_get(h, "jwk"@) {
                Some(j) => jwk_matches(s.header.jwk, j),
                None => false,
            }
            &&& Some(s.header.alg) == spec_get_string(h, "alg"@)
        },
        None => false,
    }
    &&& Some(s.signature) == spec_get_string(doc, "signature"@)
    &&& Some(s.protected) == spec_get_string(doc, "protected"@)
}

/// The elements of one named array field, when present and an array.
pub open spec fn spec_array_field(doc: Json, key: Seq<char>) -> Option<Seq<Json>> {
    match spec_get(doc, key) {
        Some(f) => spec_arr_of(f),
        None => None,
    }
}

/// `m` holds exactly what a legacy body's fields say, arrays in order.
pub open spec fn v1_manifest_matches(m: ImageManifestV1, doc: Json) -> bool {
    &&& Some(m.schema_version) == spec_schema_version_of(doc)
    &&& Some(m.name) == spec_get_string(doc, "name"@)
    &&& Some(m.architecture) == spec_get_string(doc, "architecture"@)
    &&& match spec_array_field(doc, "fsLayers"@) {
        Some(arr) => m.fs_layers@.len() == arr.len() && (forall|i: int|
            0 <= i < arr.len() ==> fs_layer_matches(m.fs_layers@[i], arr[i])),
        None => false,
    }
    &&& match spec_array_field(doc, "history"@) {
        Some(arr) => m.history@.len() == arr.len() && (forall|i: int|
            0 <= i < arr.len() ==> history_entry_matches(m.history@[i], arr[i])),
        None => false,
    }
    &&& match spec_array_field(doc, "signatures"@) {
        Some(arr) => m.signatures@.len() == arr.len() && (forall|i: int|
            0 <= i < arr.len() ==> signature_matches(m.signatures@[i], arr[i])),
        None => false,
    }
}

/// No value matches this legacy layer document.
pub open spec fn no_fs_layer_matches(doc: Json) -> bool {
    forall|l: FsLayer| !fs_layer_matches(l, doc)
}

/// No value matches this history entry document.
pub open spec fn no_history_entry_matches(doc: Json) -> bool {
    forall|h: HistoryEntry| !history_entry_matches(h, doc)
}

/// No value matches this signature block document.
pub open spec fn no_signature_matches(doc: Json) -> bool {
    forall|s: Signature| !signature_matches(s, doc)
}

/// Read one legacy layer entry.
pub fn parse_fs_layer(doc: &Json) -> (r: Option<FsLayer>)
    ensures
        match r {
            Some(l) => fs_layer_matches(l, *doc),
            None => forall|l: FsLayer| !fs_layer_matches(l, *doc),
        },
{
    match get_string_field(doc, "blobSum") {
        Some(s) => Some(FsLayer { blob_sum: s }),
        None => None,
    }
}

/// Read one history entry.
pub fn parse_history_entry(doc: &Json) -> (r: Option<HistoryEntry>)
    ensures
        match r {
            Some(h) => history_entry_matches(h, *doc),
            None => forall|h: HistoryEntry| !history_entry_matches(h, *doc),
        },
{
    match get_string_field(doc, "v1Compatibility") {
        Some(s) => Some(HistoryEntry { v1_compatibility: s }),
        None => None,
    }
}

/// Read the JSON web key of a signature header.
pub fn parse_jwk(doc: &Json) -> (r: Option<Jwk>)
    ensures
        match r {
            Some(j) => jwk_matches(j, *doc),
            None => forall|j: Jwk| !jwk_matches(j, *doc),
        },
{
    let crv = match get_string_field(doc, "crv") {
        Some(s) => s,
        None => {
            return None;
        }
    };
    let kid = match get_string_field(doc, "kid") {
        Some(s) => s,
        None => {
            return None;
        }
    };
    let kty = match get_string_field(doc, "kty") {
        Some(s) => s,
        None => {
            return None;
        }
    };
    let x = match get_string_field(doc, "x") {
        Some(s) => s,
        None => {
            return None;
        }
    };
    let y = match get_string_field(doc, "y") {
        Some(s) => s,
        None => {
            return None;
        }
    };
    Some(Jwk { crv, kid, kty, x, y })
}

/// Read one signature block.
pub fn parse_signature(doc: &Json) -> (r: Option<Signature>)
    ensures
        match r {
            Some(s) => signature_matches(s, *doc),
            None => forall|s: Signature| !signature_matches(s, *doc),
        },
{
    let header = match get_field(doc, "header") {
        Some(h) => {
            let jwk = match get_field(h, "jwk") {
                Some(j) => match parse_jwk(j) {
                    Some(j) => j,
                    None => {
                        return None;
                    }
                },
                None => {
                    return None;
                }
            };
            let alg = match get_string_field(h, "alg") {
                Some(s) => s,
                None => {
                    return None;
                }
            };
            Header { jwk, alg }
        }
        None => {
            return None;
        }
    };
    let signature = match get_string_field(doc, "signature") {
        Some(s) => s,
        None => {
            return None;
        }
    };
    let protected = match get_string_field(doc, "protected") {
        Some(s) => s,
        None => {
            return None;
        }
    };
    Some(Signature { header, signature, protected })
}

/// Read every legacy layer entry, in order.
fn parse_fs_layers(arr: &Vec<Json>) -> (r: Option<Vec<FsLayer>>)
    ensures
        match r {
            Some(v) => v@.len() == arr@.len() && (forall|i: int|
                0 <= i < arr@.len() ==> fs_layer_matches(v@[i], arr@[i])),
            None => exists|i: int|
                0 <= i < arr@.len() && no_fs_layer_matches(#[trigger] arr@[i]),
        },
{
    let n = arr.len();
    let mut out: Vec<FsLayer> = Vec::new();
    let mut i: usize = 0;
    while i < n
        invariant
            n == arr@.len(),
            i <= n,
            out@.len() == i,
            forall|j: int| 0 <= j < i ==> fs_layer_matches(out@[j], arr@[j]),
        decreases n - i,
    {
        match parse_fs_layer(&arr[i]) {
            Some(l) => out.push(l),
            None => {
                proof {
                    assert(no_fs_layer_matches(arr@[i as int]));
                }
                return None;
            }
        }
        i += 1;
    }
    Some(out)
}

/// Read every history entry, in order.
fn parse_history(arr: &Vec<Json>) -> (r: Option<Vec<HistoryEntry>>)
    ensures
        match r {
            Some(v) => v@.len() == arr@.len() && (forall|i: int|
                0 <= i < arr@.len() ==> history_entry_matches(v@[i], arr@[i])),
            None => exists|i: int|
                0 <= i < arr@.len() && no_history_entry_matches(#[trigger] arr@[i]),
        },
{
    let n = arr.len();
    let mut out: Vec<HistoryEntry> = Vec::new();
    let mut i: usize = 0;
    while i < n
        invariant
            n == arr@.len(),
            i <= n,
            out@.len() == i,
            forall|j: int| 0 <= j < i ==> history_entry_matches(out@[j], arr@[j]),
        decreases n - i,
    {
        match parse_history_entry(&arr[i]) {
            Some(h) => out.push(h),
            None => {
                proof {
                    assert(no_history_entry_matches(arr@[i as int]));
                }
                return None;
            }
        }
        i += 1;
    }
    Some(out)
}

/// Read every signature block, in order.
fn parse_signatures(arr: &Vec<Json>) -> (r: Option<Vec<Signature>>)
    ensures
        match r {
            Some(v) => v@.len() == arr@.len() && (forall|i: int|
                0 <= i < arr@.len() ==> signature_matches(v@[i], arr@[i])),
            None => exists|i: int|
                0 <= i < arr@.len() && no_signature_matches(#[trigger] arr@[i]),
        },
{
    let n = arr.len();
    let mut out: Vec<Signature> = Vec::new();
    let mut i: usize = 0;
    while i < n
        invariant
            n == arr@.len(),
            i <= n,
            out@.len() == i,
            forall|j: int| 0 <= j < i ==> signature_matches(out@[j], arr@[j]),
        decreases n - i,
    {
        match parse_signature(&arr[i]) {
            Some(s) => out.push(s),
            None => {
                proof {
                    assert(no_signature_matches(arr@[i as int]));
                }
                return None;
            }
        }
        i += 1;
    }
    Some(out)
}

/// Read a legacy manifest body.
pub fn parse_v1_manifest(doc: &Json) -> (r: Option<ImageManifestV1>)
    ensures
        match r {
            Some(m) => v1_manifest_matches(m, *doc),
            None => forall|m: ImageManifestV1| !v1_manifest_matches(m, *doc),
        },
{
    let schema_version = match parse_schema_version(doc) {
        Some(s) => s,
        None => {
            return None;
        }
    };
    let name = match get_string_field(doc, "name") {
        Some(s) => s,
        None => {
            return None;
        }
    };
    let architecture = match get_string_field(doc, "architecture") {
        Some(s) => s,
        None => {
            return None;
        }
    };
    let fs_arr = match get_field(doc, "fsLayers") {
        Some(f) => match as_array(f) {
            Some(a) => a,
            None => {
                return None;
            }
        },
        None => {
            return None;
        }
    };
    let fs_layers = match parse_fs_layers(fs_arr) {
        Some(v) => v,
        None => {
            proof {
                let i = choose|i: int|
                    0 <= i < fs_arr@.len() && no_fs_layer_matches(#[trigger] fs_arr@[i]);
                assert forall|m: ImageManifestV1| !v1_manifest_matches(m, *doc) by {
                    if m.fs_layers@.len() == fs_arr@.len() {
                        assert(!fs_layer_matches(m.fs_layers@[i], fs_arr@[i]));
                    }
                }
            }
            return None;
        }
    };
    let hist_arr = match get_field(doc, "history") {
        Some(f) => match as_array(f) {
            Some(a) => a,
            None => {
                return None;
            }
        },
        None => {
            return None;
        }
    };
    let history = match parse_history(hist_arr) {
        Some(v) => v,
        None => {
            proof {
                let i = choose|i: int|
                    0 <= i < hist_arr@.len() && no_history_entry_matches(#[trigger] hist_arr@[i]);
                assert forall|m: ImageManifestV1| !v1_manifest_matches(m, *doc) by {
                    if m.history@.len() == hist_arr@.len() {
                        assert(!history_entry_matches(m.history@[i], hist_arr@[i]));
                    }
                }
            }
            return None;
        }
    };
    let sig_arr = match get_field(doc, "signatures") {
        Some(f) => match as_array(f) {
            Some(a) => a,
            None => {
                return None;
            }
        },
        None => {
            return None;
        }
    };
    let signatures = match parse_signatures(sig_arr) {
        Some(v) => v,
        None => {
            proof {
                let i = choose|i: int|
                    0 <= i < sig_arr@.len() && no_signature_matches(#[trigger] sig_arr@[i]);
                assert forall|m: ImageManifestV1| !v1_manifest_matches(m, *doc) by {
                    if m.signatures@.len() == sig_arr@.len() {
                        assert(!signature_matches(m.signatures@[i], sig_arr@[i]));
                    }
                }
            }
            return None;
        }
    };
    Some(ImageManifestV1 { schema_version, name, architecture, fs_layers, history, signatures })
}

} // verus!
