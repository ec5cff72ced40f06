//! The authentication exchange: building the token-request query string and
//! reading the bearer token out of the response.
//!
//! Only parameters with a present string value are serialized; absent
//! optional parameters leave no trace in the query.  The serialized order
//! is the alphabetical order of the parameter names.

use vstd::prelude::*;
use vstd::string::*;
use crate::errors::PullError;
use crate::json::{get_string_field, parse_json, spec_get_string, spec_json_of};

verus! {

/// The query parameters of a token request.
pub struct AuthParams {
    pub service: String,
    pub client_id: String,
    pub access_type: String,
    pub scope: String,
    pub grant_type: Option<String>,
    pub username: Option<String>,
    pub password: Option<String>,
}

/// The status of the registry's version-2 endpoint, read from a probe.
pub enum ApiV2Status {
    Supported,
    NotSupport,
    Unauthorized(Option<String>),
}

/// One optional `&key=value` fragment: empty when the value is absent.
pub open spec fn spec_opt_param(key: Seq<char>, v: Option<String>) -> Seq<char> {
    match v {
        Some(s) => key + s@,
        None => Seq::<char>::empty(),
    }
}

/// The full query string of an authentication request, parameters in
/// alphabetical order, absent parameters omitted entirely.
pub open spec fn spec_query(a: AuthParams) -> Seq<char> {
    "access_type="@ + a.access_type@ + "&client_id="@ + a.client_id@ + spec_opt_param(
        "&grant_type="@,
        a.grant_type,
    ) + spec_opt_param("&password="@, a.password) + "&scope="@ + a.scope@ + "&service="@
        + a.service@ + spec_opt_param("&username="@, a.username)
}

impl AuthParams {
    /// Parameters for a pull-scope request; a grant type is present exactly
    /// when a username is.
    pub fn new(username: Option<String>, password: Option<String>, scope: String) -> (r:
        AuthParams)
        ensures
            r.service@ == "registry.docker.io"@,
            r.client_id@ == "dockerengine"@,
            r.access_type@ == "offline"@,
            r.scope == scope,
            r.username == username,
            r.password == password,
            username is Some ==> (r.grant_type matches Some(g) && g@ == "password"@),
            username is None ==> r.grant_type is None,
    {
        let grant_type = match &username {
            Some(_) => Some(String::from_str("password")),
            None => None,
        };
        AuthParams {
            service: String::from_str("registry.docker.io"),
            client_id: String::from_str("dockerengine"),
            access_type: String::from_str("offline"),
            scope,
            grant_type,
            username,
            password,
        }
    }

    /// Serialize the parameters into the query string.
    pub fn to_query(&self) -> (r: String)
        ensures
            r@ == spec_query(*self),
    {
        let mut q = String::from_str("access_type=");
        q.append(self.access_type.as_str());
        q.append("&client_id=");
        q.append(self.client_id.as_str());
        match &self.grant_type {
            Some(g) => {
                q.append("&grant_type=");
                q.append(g.as_str());
            }
            None => {}
        }
        match &self.password {
            Some(p) => {
                q.append("&password=");
                q.append(p.as_str());
            }
            None => {}
        }
        q.append("&scope=");
        q.append(self.scope.as_str());
        q.append("&service=");
        q.append(self.service.as_str());
        match &self.username {
            Some(u) => {
                q.append("&username=");
                q.append(u.as_str());
            }
            None => {}
        }
        proof {
            assert(q@ =~= spec_query(*self));
        }
        q
    }
}

/// Law: with no credentials, the query holds exactly the service, client,
/// access-type and scope parameters and omits grant type, username and
/// password entirely.
pub proof fn lemma_anonymous_query(a: AuthParams)
    requires
        a.service@ == "registry.docker.io"@,
        a.client_id@ == "dockerengine"@,
        a.access_type@ == "offline"@,
        a.grant_type is None,
        a.username is None,
        a.password is None,
    ensures
        spec_query(a) == "access_type=offline&client_id=dockerengine&scope="@ + a.scope@
            + "&service=registry.docker.io"@,
{
    reveal_strlit("access_type=");
    reveal_strlit("offline");
    reveal_strlit("&client_id=");
    reveal_strlit("dockerengine");
    reveal_strlit("&scope=");
    reveal_strlit("&service=");
    reveal_strlit("registry.docker.io");
    reveal_strlit("access_type=offline&client_id=dockerengine&scope=");
    reveal_strlit("&service=registry.docker.io");
    assert(spec_query(a) =~= "access_type=offline&client_id=dockerengine&scope="@ + a.scope@
        + "&service=registry.docker.io"@);
}

/// The bearer token a response body carries: the string under its
/// `access_token` field, when the body is a JSON object holding one.
pub open spec fn spec_auth_token_of(body: Seq<u8>) -> Option<String> {
    match spec_json_of(body) {
        Some(doc) => spec_get_string(doc, "access_token"@),
        None => None,
    }
}

/// Extract the bearer token from an authentication response body; every
/// other response field is ignored.  Success is owed exactly when the
/// body carries a token, and the result is then that token.
pub fn parse_auth_token(body: &[u8]) -> (r: Result<String, PullError>)
    ensures
        match spec_auth_token_of(body@) {
            Some(t) => r == Ok::<String, PullError>(t),
            None => r == Err::<String, PullError>(PullError::Auth),
        },
{
    match parse_json(body) {
        Some(doc) => match get_string_field(&doc, "access_token") {
            Some(t) => Ok(t),
            None => Err(PullError::Auth),
        },
        None => Err(PullError::Auth),
    }
}

/// Gate the token response on its HTTP status: a non-success status
/// fails authentication before the body is ever decoded.
pub fn check_auth_status(status: u16) -> (r: Result<(), PullError>)
    ensures
        (200 <= status < 300) <==> r is Ok,
        !(200 <= status < 300) ==> r == Err::<(), PullError>(PullError::Auth),
{
    if 200 <= status && status < 300 {
        Ok(())
    } else {
        Err(PullError::Auth)
    }
}

} // verus!
