//! The current manifest schema and the multi-architecture index, with
//! platform selection against the fixed allow-list.
//!
//! Each reader of a document shape carries a `..._matches` relation: the
//! parsed value holds exactly what the document's fields say, and a
//! reader that refuses a document proves that no value could match it.

use vstd::prelude::*;
use crate::json::{
    as_array, as_string, get_field, get_string_field, get_u64_field, parse_string_array,
    spec_arr_of, spec_get, spec_get_string, spec_get_uint, spec_str_of, spec_string_array_of,
    Json,
};
use crate::manifest::{Digest, GetLayers, Layer as ImageLayer, MediaType, Size};
use crate::text::str_eq;

verus! {

/// A multi-architecture index: one digest per platform-specific manifest.
pub struct ManifestDigestList {
    pub manifests: Vec<ManifestDigest>,
    pub media_type: MediaType,
    pub schema_version: u8,
}

/// A reference to one concrete manifest inside an index.
pub struct ManifestDigest {
    pub digest: Digest,
    pub media_type: MediaType,
    pub platform: Platform,
    pub size: Size,
}

/// The platform tuple a manifest is built for.
pub struct Platform {
    pub architecture: String,
    pub os: String,
    pub os_version: Option<String>,
    pub os_features: Option<Vec<String>>,
    pub variant: Option<String>,
    pub features: Option<Vec<String>>,
}

/// The current, schema-concrete manifest.
pub struct ImageManifestV2 {
    pub media_type: MediaType,
    pub schema_version: u8,
    pub config: Config,
    pub layers: Vec<Layer>,
}

/// The configuration blob reference of a current-schema manifest.
pub struct Config {
    pub media_type: MediaType,
    pub size: Size,
    pub digest: Digest,
}

/// One declared layer of a current-schema manifest.
pub struct Layer {
    pub media_type: MediaType,
    pub size: Size,
    pub digest: Digest,
}

/// The fixed allow-list: linux on amd64, arm64 or arm.
pub open spec fn spec_platform_valid(p: Platform) -> bool {
    p.os@ == "linux"@ && (p.architecture@ == "amd64"@ || p.architecture@ == "arm64"@
        || p.architecture@ == "arm"@)
}

/// `i` is the position of the first allow-listed entry of `s`.
pub open spec fn is_first_valid_index(s: Seq<ManifestDigest>, i: int) -> bool {
    &&& 0 <= i < s.len()
    &&& spec_platform_valid(s[i].platform)
    &&& forall|j: int| 0 <= j < i ==> !spec_platform_valid(s[j].platform)
}

impl Platform {
    /// Whether this platform is on the fixed allow-list.
    pub fn is_valid(&self) -> (r: bool)
        ensures
            r == spec_platform_valid(*self),
    {
        str_eq(self.os.as_str(), "linux") && (str_eq(self.architecture.as_str(), "amd64")
            || str_eq(self.architecture.as_str(), "arm64") || str_eq(
            self.architecture.as_str(),
            "arm",
        ))
    }
}

impl ManifestDigestList {
    /// The first entry in list order whose platform is allow-listed; no
    /// other tie-break, and nothing when no entry qualifies.
    pub fn get_one(self) -> (r: Option<ManifestDigest>)
        ensures
            (r is None) <==> (forall|i: int|
                0 <= i < self.manifests@.len() ==> !spec_platform_valid(
                    self.manifests@[i].platform,
                )),
            forall|i: int|
                is_first_valid_index(self.manifests@, i) ==> r == Some(self.manifests@[i]),
    {
        let ghost orig = self.manifests@;
        let n = self.manifests.len();
        let mut i: usize = 0;
        while i < n
            invariant
                n == orig.len(),
                orig == self.manifests@,
                i <= n,
                forall|j: int| 0 <= j < i ==> !spec_platform_valid(orig[j].platform),
            decreases n - i,
        {
            if self.manifests[i].platform.is_valid() {
                proof {
                    assert(is_first_valid_index(orig, i as int));
                    assert forall|k: int| is_first_valid_index(orig, k) implies k == i as int by {
                        if k < i as int {
                            assert(spec_platform_valid(orig[k].platform));
                        } else if k > i as int {
                            assert(!spec_platform_valid(orig[i as int].platform));
                        }
                    }
                }
                let mut ms = self.manifests;
                let m = ms.remove(i);
                return Some(m);
            }
            i += 1;
        }
        None
    }
}

/// How a declared layer of the current schema appears in the uniform list.
pub open spec fn spec_layer_from_v2(l: Layer) -> ImageLayer {
    ImageLayer { digest: l.digest, media_type: Some(l.media_type) }
}

impl GetLayers for ImageManifestV2 {
    open spec fn spec_layers(self) -> Seq<ImageLayer> {
        self.layers@.map_values(|l: Layer| spec_layer_from_v2(l))
    }

    fn get_layers(self) -> (r: Vec<ImageLayer>) {
        let n = self.layers.len();
        let mut out: Vec<ImageLayer> = Vec::new();
        let mut i: usize = 0;
        while i < n
            invariant
                n == self.layers@.len(),
                i <= n,
                out@.len() == i,
                forall|k: int| 0 <= k < i ==> out@[k] == spec_layer_from_v2(self.layers@[k]),
            decreases n - i,
        {
            out.push(
                ImageLayer {
                    digest: self.layers[i].digest.clone(),
                    media_type: Some(self.layers[i].media_type.clone()),
                },
            );
            i += 1;
        }
        proof {
            assert(out@ =~= self.spec_layers());
        }
        out
    }
}

/// A declared size, when the key holds an integer that fits 32 bits.
pub open spec fn spec_size_of(doc: Json, key: Seq<char>) -> Option<Size> {
    match spec_get_uint(doc, key) {
        Some(u) => if u <= 0xffff_ffff {
            Some(u as u32)
        } else {
            None
        },
        None => None,
    }
}

/// A schema version, when the key holds an integer that fits 8 bits.
pub open spec fn spec_schema_version_of(doc: Json) -> Option<u8> {
    match spec_get_uint(doc, "schemaVersion"@) {
        Some(u) => if u <= 0xff {
            Some(u as u8)
        } else {
            None
        },
        None => None,
    }
}

/// `p` holds exactly what a platform object's fields say: `architecture`
/// and `os` are required strings, the rest are present-and-well-shaped or
/// absent.
pub open spec fn platform_matches(p: Platform, doc: Json) -> bool {
    &&& Some(p.architecture) == spec_get_string(doc, "architecture"@)
    &&& Some(p.os) == spec_get_string(doc, "os"@)
    &&& match spec_get(doc, "os.version"@) {
        Some(f) => p.os_version == spec_str_of(f) && spec_str_of(f) is Some,
        None => p.os_version is None,
    }
    &&& match spec_get(doc, "os.features"@) {
        Some(f) => (p.os_features matches Some(v) && spec_string_array_of(f) == Some(v@)),
        None => p.os_features is None,
    }
    &&& match spec_get(doc, "variant"@) {
        Some(f) => p.variant == spec_str_of(f) && spec_str_of(f) is Some,
        None => p.variant is None,
    }
    &&& match spec_get(doc, "features"@) {
        Some(f) => (p.features matches Some(v) && spec_string_array_of(f) == Some(v@)),
        None => p.features is None,
    }
}

/// `m` holds exactly what one index entry's fields say.
pub open spec fn manifest_digest_matches(m: ManifestDigest, doc: Json) -> bool {
    &&& Some(m.digest) == spec_get_string(doc, "digest"@)
    &&& Some(m.media_type) == spec_get_string(doc, "mediaType"@)
    &&& Some(m.size) == spec_size_of(doc, "size"@)
    &&& match spec_get(doc, "platform"@) {
        Some(p) => platform_matches(m.platform, p),
        None => false,
    }
}

/// `l` holds exactly what an index body's fields say, entry by entry.
pub open spec fn digest_list_matches(l: ManifestDigestList, doc: Json) -> bool {
    &&& Some(l.media_type) == spec_get_string(doc, "mediaType"@)
    &&& Some(l.schema_version) == spec_schema_version_of(doc)
    &&& match spec_get(doc, "manifests"@) {
        Some(f) => match spec_arr_of(f) {
            Some(arr) => l.manifests@.len() == arr.len() && (forall|i: int|
                0 <= i < arr.len() ==> manifest_digest_matches(l.manifests@[i], arr[i])),
            None => false,
        },
        None => false,
    }
}

/// `c` holds exactly what a config reference's fields say.
pub open spec fn config_matches(c: Config, doc: Json) -> bool {
    &&& Some(c.media_type) == spec_get_string(doc, "mediaType"@)
    &&& Some(c.size) == spec_size_of(doc, "size"@)
    &&& Some(c.digest) == spec_get_string(doc, "digest"@)
}

/// `l` holds exactly what one declared layer's fields say.
pub open spec fn layer_matches(l: Layer, doc: Json) -> bool {
    &&& Some(l.media_type) == spec_get_string(doc, "mediaType"@)
    &&& Some(l.size) == spec_size_of(doc, "size"@)
    &&& Some(l.digest) == spec_get_string(doc, "digest"@)
}

/// `m` holds exactly what a current-schema body's fields say.
pub open spec fn v2_manifest_matches(m: ImageManifestV2, doc: Json) -> bool {
    &&& Some(m.media_type) == spec_get_string(doc, "mediaType"@)
    &&& Some(m.schema_version) == spec_schema_version_of(doc)
    &&& match spec_get(doc, "config"@) {
        Some(c) => config_matches(m.config, c),
        None => false,
    }
    &&& match spec_get(doc, "layers"@) {
        Some(f) => match spec_arr_of(f) {
            Some(arr) => m.layers@.len() == arr.len() && (forall|i: int|
                0 <= i < arr.len() ==> layer_matches(m.layers@[i], arr[i])),
            None => false,
        },
        None => false,
    }
}

/// No value matches this index entry document.
pub open spec fn no_manifest_digest_matches(doc: Json) -> bool {
    forall|m: ManifestDigest| !manifest_digest_matches(m, doc)
}

/// No value matches this layer document.
pub open spec fn no_layer_matches(doc: Json) -> bool {
    forall|l: Layer| !layer_matches(l, doc)
}

/// Read a platform object.
pub fn parse_platform(doc: &Json) -> (r: Option<Platform>)
    ensures
        match r {
            Some(p) => platform_matches(p, *doc),
            None => forall|p: Platform| !platform_matches(p, *doc),
        },
{
    let architecture = match get_string_field(doc, "architecture") {
        Some(s) => s,
        None => {
            return None;
        }
    };
    let os = match get_string_field(doc, "os") {
        Some(s) => s,
        None => {
            return None;
        }
    };
    let os_version = match get_field(doc, "os.version") {
        Some(f) => match as_string(f) {
            Some(s) => Some(s),
            None => {
                return None;
            }
        },
        None => None,
    };
    let os_features = match get_field(doc, "os.features") {
        Some(f) => match parse_string_array(f) {
            Some(a) => Some(a),
            None => {
                return None;
            }
        },
        None => None,
    };
    let variant = match get_field(doc, "variant") {
        Some(f) => match as_string(f) {
            Some(s) => Some(s),
            None => {
                return None;
            }
        },
        None => None,
    };
    let features = match get_field(doc, "features") {
        Some(f) => match parse_string_array(f) {
            Some(a) => Some(a),
            None => {
                return None;
            }
        },
        None => None,
    };
    Some(Platform { architecture, os, os_version, os_features, variant, features })
}

/// Read a declared blob size; the registry declares sizes that fit 32 bits.
pub fn parse_size(doc: &Json, key: &str) -> (r: Option<Size>)
    ensures
        r == spec_size_of(*doc, key@),
{
    match get_u64_field(doc, key) {
        Some(s) => {
            if s <= 0xffff_ffff {
                Some(s as u32)
            } else {
                None
            }
        }
        None => None,
    }
}

/// Read a schema version number.
pub fn parse_schema_version(doc: &Json) -> (r: Option<u8>)
    ensures
        r == spec_schema_version_of(*doc),
{
    match get_u64_field(doc, "schemaVersion") {
        Some(s) => {
            if s <= 0xff {
                Some(s as u8)
            } else {
                None
            }
        }
        None => None,
    }
}

/// Read one index entry: digest, media type, size and platform.
pub fn parse_manifest_digest(doc: &Json) -> (r: Option<ManifestDigest>)
    ensures
        match r {
            Some(m) => manifest_digest_matches(m, *doc),
            None => forall|m: ManifestDigest| !manifest_digest_matches(m, *doc),
        },
{
    let digest = match get_string_field(doc, "digest") {
        Some(s) => s,
        None => {
            return None;
        }
    };
    let media_type = match get_string_field(doc, "mediaType") {
        Some(s) => s,
        None => {
            return None;
        }
    };
    let size = match parse_size(doc, "size") {
        Some(s) => s,
        None => {
            return None;
        }
    };
    let platform = match get_field(doc, "platform") {
        Some(p) => match parse_platform(p) {
            Some(p) => p,
            None => {
                return None;
            }
        },
        None => {
            return None;
        }
    };
    Some(ManifestDigest { digest, media_type, platform, size })
}

/// Read every index entry, in order; one bad entry refuses the array.
fn parse_manifest_digests(arr: &Vec<Json>) -> (r: Option<Vec<ManifestDigest>>)
    ensures
        match r {
            Some(v) => v@.len() == arr@.len() && (forall|i: int|
                0 <= i < arr@.len() ==> manifest_digest_matches(v@[i], arr@[i])),
            None => exists|i: int|
                0 <= i < arr@.len() && no_manifest_digest_matches(#[trigger] arr@[i]),
        },
{
    let n = arr.len();
    let mut out: Vec<ManifestDigest> = Vec::new();
    let mut i: usize = 0;
    while i < n
        invariant
            n == arr@.len(),
            i <= n,
            out@.len() == i,
            forall|j: int| 0 <= j < i ==> manifest_digest_matches(out@[j], arr@[j]),
        decreases n - i,
    {
        match parse_manifest_digest(&arr[i]) {
            Some(m) => out.push(m),
            None => {
                proof {
                    assert(no_manifest_digest_matches(arr@[i as int]));
                }
                return None;
            }
        }
        i += 1;
    }
    Some(out)
}

/// Read a multi-architecture index body.
pub fn parse_digest_list(doc: &Json) -> (r: Option<ManifestDigestList>)
    ensures
        match r {
            Some(l) => digest_list_matches(l, *doc),
            None => forall|l: ManifestDigestList| !digest_list_matches(l, *doc),
        },
{
    let media_type = match get_string_field(doc, "mediaType") {
        Some(s) => s,
        None => {
            return None;
        }
    };
    let schema_version = match parse_schema_version(doc) {
        Some(s) => s,
        None => {
            return None;
        }
    };
    let arr = match get_field(doc, "manifests") {
        Some(f) => match as_array(f) {
            Some(a) => a,
            None => {
                return None;
            }
        },
        None => {
            return None;
        }
    };
    match parse_manifest_digests(arr) {
        Some(manifests) => Some(ManifestDigestList { manifests, media_type, schema_version }),
        None => {
            proof {
                let i = choose|i: int|
                    0 <= i < arr@.len() && no_manifest_digest_matches(#[trigger] arr@[i]);
                assert forall|l: ManifestDigestList| !digest_list_matches(l, *doc) by {
                    if l.manifests@.len() == arr@.len() {
                        assert(!manifest_digest_matches(l.manifests@[i], arr@[i]));
                    }
                }
            }
            None
        }
    }
}

/// Read a config blob reference.
pub fn parse_config(doc: &Json) -> (r: Option<Config>)
    ensures
        match r {
            Some(c) => config_matches(c, *doc),
            None => forall|c: Config| !config_matches(c, *doc),
        },
{
    let media_type = match get_string_field(doc, "mediaType") {
        Some(s) => s,
        None => {
            return None;
        }
    };
    let size = match parse_size(doc, "size") {
        Some(s) => s,
        None => {
            return None;
        }
    };
    let digest = match get_string_field(doc, "digest") {
        Some(s) => s,
        None => {
            return None;
        }
    };
    Some(Config { media_type, size, digest })
}

/// Read one declared layer of a current-schema manifest.
pub fn parse_layer(doc: &Json) -> (r: Option<Layer>)
    ensures
        match r {
            Some(l) => layer_matches(l, *doc),
            None => forall|l: Layer| !layer_matches(l, *doc),
        },
{
    let media_type = match get_string_field(doc, "mediaType") {
        Some(s) => s,
        None => {
            return None;
        }
    };
    let size = match parse_size(doc, "size") {
        Some(s) => s,
        None => {
            return None;
        }
    };
    let digest = match get_string_field(doc, "digest") {
        Some(s) => s,
        None => {
            return None;
        }
    };
    Some(Layer { media_type, size, digest })
}

/// Read every declared layer, in order; one bad entry refuses the array.
fn parse_layers(arr: &Vec<Json>) -> (r: Option<Vec<Layer>>)
    ensures
        match r {
            Some(v) => v@.len() == arr@.len() && (forall|i: int|
                0 <= i < arr@.len() ==> layer_matches(v@[i], arr@[i])),
            None => exists|i: int|
                0 <= i < arr@.len() && no_layer_matches(#[trigger] arr@[i]),
        },
{
    let n = arr.len();
    let mut out: Vec<Layer> = Vec::new();
    let mut i: usize = 0;
    while i < n
        invariant
            n == arr@.len(),
            i <= n,
            out@.len() == i,
            forall|j: int| 0 <= j < i ==> layer_matches(out@[j], arr@[j]),
        decreases n - i,
    {
        match parse_layer(&arr[i]) {
            Some(l) => out.push(l),
            None => {
                proof {
                    assert(no_layer_matches(arr@[i as int]));
                }
                return None;
            }
        }
        i += 1;
    }
    Some(out)
}

/// Read a current-schema manifest body.
pub fn parse_v2_manifest(doc: &Json) -> (r: Option<ImageManifestV2>)
    ensures
        match r {
            Some(m) => v2_manifest_matches(m, *doc),
            None => forall|m: ImageManifestV2| !v2_manifest_matches(m, *doc),
        },
{
    let media_type = match get_string_field(doc, "mediaType") {
        Some(s) => s,
        None => {
            return None;
        }
    };
    let schema_version = match parse_schema_version(doc) {
        Some(s) => s,
        None => {
            return None;
        }
    };
    let config = match get_field(doc, "config") {
        Some(c) => match parse_config(c) {
            Some(c) => c,
            None => {
                return None;
            }
        },
        None => {
            return None;
        }
    };
    let arr = match get_field(doc, "layers") {
        Some(f) => match as_array(f) {
            Some(a) => a,
            None => {
                return None;
            }
        },
        None => {
            return None;
        }
    };
    match parse_layers(arr) {
        Some(layers) => Some(ImageManifestV2 { media_type, schema_version, config, layers }),
        None => {
            proof {
                let i = choose|i: int|
                    0 <= i < arr@.len() && no_layer_matches(#[trigger] arr@[i]);
                assert forall|m: ImageManifestV2| !v2_manifest_matches(m, *doc) by {
                    if m.layers@.len() == arr@.len() {
                        assert(!layer_matches(m.layers@[i], arr@[i]));
                    }
                }
            }
            None
        }
    }
}

} // verus!
