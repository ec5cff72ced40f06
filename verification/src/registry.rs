//! The registry client's verified core: scope and address construction,
//! planned requests with their headers, the endpoint-status
//! classification, and the bounded manifest-resolution step.
//!
//! The network transport lives outside the library: it receives a
//! [`RequestPlan`], issues the request, and hands the response body back
//! to the decoding and resolution functions here.

use vstd::prelude::*;
use vstd::string::*;
use crate::auth::{spec_query, ApiV2Status, AuthParams};
use crate::errors::PullError;
use crate::manifest::v2::{is_first_valid_index, spec_platform_valid};
use crate::manifest::{Digest, GetLayers, GetManifestResponse, Layer, MediaType};
use crate::repository::Repository;

verus! {

/// The bound on index indirection: resolution fails fast past this many
/// hops through multi-architecture indices.
pub const MAX_MANIFEST_HOPS: u8 = 4;

/// An authenticated handle on one repository of the registry.
pub struct Registry {
    pub repository: Option<Repository>,
    pub access_token: String,
}

/// One planned HTTP request: the address, the authorization header and
/// the accept header, which is absent when no media type is requested.
pub struct RequestPlan {
    pub url: String,
    pub authorization: String,
    pub accept: Option<String>,
}

/// What one resolution step decides: concrete layers, or one more hop.
pub enum ResolveOutcome {
    /// A concrete manifest was reached; its layers, in declared order.
    Layers(Vec<Layer>),
    /// An index chose a platform-specific manifest to fetch next.
    Recurse { digest: Digest, media_type: MediaType },
}

/// The scope string of an anonymous pull request for `name`.
pub fn pull_scope(name: &str) -> (r: String)
    ensures
        r@ == "repository:"@ + name@ + ":pull"@,
{
    let mut s = String::from_str("repository:");
    s.append(name);
    s.append(":pull");
    proof {
        assert(s@ =~= "repository:"@ + name@ + ":pull"@);
    }
    s
}

/// The full token-request address for the given parameters.
pub fn auth_token_url(params: &AuthParams) -> (r: String)
    ensures
        r@ == "https://auth.docker.io/token?"@ + spec_query(*params),
{
    let mut s = String::from_str("https://auth.docker.io/token?");
    let q = params.to_query();
    s.append(q.as_str());
    s
}

impl Registry {
    /// An authenticated handle: the token obtained for the repository.
    pub fn with_token(repository: Repository, access_token: String) -> (r: Registry)
        ensures
            r.repository matches Some(p) && p == repository,
            r.access_token@ == access_token@,
    {
        Registry { repository: Some(repository), access_token }
    }

    /// Plan the manifest request `GET <registry>/<name>/manifests/<reference>`
    /// with the bearer token; the accept header carries the requested media
    /// type and is absent when none is requested yet.
    pub fn manifest_request(&self, name: &str, reference: &str, accept: Option<&String>) -> (r:
        RequestPlan)
        ensures
            r.url@ == "https://registry.hub.docker.com/v2/"@ + name@ + "/manifests/"@
                + reference@,
            r.authorization@ == "Bearer "@ + self.access_token@,
            r.accept == (match accept {
                Some(m) => Some(*m),
                None => None::<String>,
            }),
    {
        let mut url = String::from_str("https://registry.hub.docker.com/v2/");
        url.append(name);
        url.append("/manifests/");
        url.append(reference);
        let mut authorization = String::from_str("Bearer ");
        authorization.append(self.access_token.as_str());
        let accept_header = match accept {
            Some(m) => Some(m.clone()),
            None => None,
        };
        proof {
            assert(url@ =~= "https://registry.hub.docker.com/v2/"@ + name@ + "/manifests/"@
                + reference@);
        }
        RequestPlan { url, authorization, accept: accept_header }
    }

    /// Plan the blob request `GET <registry>/<name>/blobs/<digest>` for one
    /// layer; the accept header carries the layer's declared media type if
    /// present and is absent otherwise.  The handle must already be bound
    /// to a repository.
    pub fn blob_request(&self, layer: &Layer) -> (r: RequestPlan)
        requires
            self.repository is Some,
        ensures
            r.url@ == "https://registry.hub.docker.com/v2/"@ + self.repository->0.name@
                + "/blobs/"@ + layer.digest@,
            r.authorization@ == "Bearer "@ + self.access_token@,
            r.accept == layer.media_type,
    {
        let name = match &self.repository {
            Some(repo) => repo.name.as_str(),
            None => "",
        };
        let mut url = String::from_str("https://registry.hub.docker.com/v2/");
        url.append(name);
        url.append("/blobs/");
        url.append(layer.digest.as_str());
        let mut authorization = String::from_str("Bearer ");
        authorization.append(self.access_token.as_str());
        let accept = match &layer.media_type {
            Some(m) => Some(m.clone()),
            None => None,
        };
        proof {
            assert(url@ =~= "https://registry.hub.docker.com/v2/"@ + self.repository->0.name@
                + "/blobs/"@ + layer.digest@);
        }
        RequestPlan { url, authorization, accept }
    }
}

/// One step of the bounded resolution loop.  An index first checks the hop
/// bound, then picks its first allow-listed entry and asks for one more
/// fetch; with no allow-listed entry resolution fails.  A concrete
/// manifest of either schema terminates with its ordered layers.
pub fn resolve_step(resp: GetManifestResponse, hops_used: u8) -> (r: Result<
    ResolveOutcome,
    PullError,
>)
    ensures
        match resp {
            GetManifestResponse::ManifestDigestList(list) => {
                &&& hops_used >= MAX_MANIFEST_HOPS ==> r == Err::<ResolveOutcome, PullError>(
                    PullError::RecursionLimit,
                )
                &&& (hops_used < MAX_MANIFEST_HOPS && (forall|i: int|
                    0 <= i < list.manifests@.len() ==> !spec_platform_valid(
                        list.manifests@[i].platform,
                    ))) ==> r == Err::<ResolveOutcome, PullError>(PullError::NoCompatibleManifest)
                &&& forall|i: int|
                    hops_used < MAX_MANIFEST_HOPS && is_first_valid_index(list.manifests@, i)
                        ==> r == Ok::<ResolveOutcome, PullError>(
                        (ResolveOutcome::Recurse {
                            digest: list.manifests@[i].digest,
                            media_type: list.manifests@[i].media_type,
                        }),
                    )
            },
            GetManifestResponse::ImageManifestV1(m) => r matches Ok(ResolveOutcome::Layers(ls))
                && ls@ == m.spec_layers(),
            GetManifestResponse::ImageManifestV2(m) => r matches Ok(ResolveOutcome::Layers(ls))
                && ls@ == m.spec_layers(),
        },
{
    match resp {
        GetManifestResponse::ManifestDigestList(list) => {
            if hops_used >= MAX_MANIFEST_HOPS {
                Err(PullError::RecursionLimit)
            } else {
                match list.get_one() {
                    Some(m) => Ok(
                        ResolveOutcome::Recurse { digest: m.digest, media_type: m.media_type },
                    ),
                    None => Err(PullError::NoCompatibleManifest),
                }
            }
        }
        GetManifestResponse::ImageManifestV1(m) => Ok(ResolveOutcome::Layers(m.get_layers())),
        GetManifestResponse::ImageManifestV2(m) => Ok(ResolveOutcome::Layers(m.get_layers())),
    }
}

/// Classify the probe of the registry's version-2 endpoint by its HTTP
/// status; an unauthorized answer carries the challenge header along.
pub fn classify_v2_status(status: u16, www_authenticate: Option<String>) -> (r: Result<
    ApiV2Status,
    PullError,
>)
    ensures
        status == 200 ==> r matches Ok(ApiV2Status::Supported),
        status == 404 ==> r matches Ok(ApiV2Status::NotSupport),
        status == 401 ==> (r matches Ok(ApiV2Status::Unauthorized(h)) && h == www_authenticate),
        (status != 200 && status != 404 && status != 401) ==> r == Err::<ApiV2Status, PullError>(
            PullError::Auth,
        ),
{
    if status == 200 {
        Ok(ApiV2Status::Supported)
    } else if status == 404 {
        Ok(ApiV2Status::NotSupport)
    } else if status == 401 {
        Ok(ApiV2Status::Unauthorized(www_authenticate))
    } else {
        Err(PullError::Auth)
    }
}

} // verus!
