use vstd::prelude::*;
use vstd::string::StringExecFns;

use crate::compute::Compute;
use crate::exchange::{ApiError, ApiRequest, Method, Reply};
use crate::json::Json;
use crate::region::Region;

verus! {

/// The identity service's base URL for a region.
pub open spec fn identity_base(region: Region) -> Seq<char> {
    "https://identity."@ + region.code() + ".conoha.io/"@
}

/// The URL that tokens are requested from.
pub open spec fn token_endpoint(region: Region) -> Seq<char> {
    identity_base(region) + "v2.0/tokens"@
}

/// `j` is an object with exactly the two string members `k0: v0` and `k1: v1`, in that order.
pub open spec fn two_strings(j: Json, k0: Seq<char>, v0: Seq<char>, k1: Seq<char>, v1: Seq<char>) -> bool {
    &&& j matches Json::Object(m)
    &&& m@.len() == 2
    &&& m@[0].0@ == k0 && m@[0].1.text() == Some(v0)
    &&& m@[1].0@ == k1 && m@[1].1.text() == Some(v1)
}

/// The identity request body:
/// `{"auth": {"passwordCredentials": {"username": u, "password": p}, "tenantId": t}}`.
pub open spec fn is_auth_body(j: Json, user: Seq<char>, pass: Seq<char>, tenant: Seq<char>) -> bool {
    j matches Json::Object(m) && m@.len() == 1 && m@[0].0@ == "auth"@ && {
        let a = m@[0].1;
        &&& a matches Json::Object(am)
        &&& am@.len() == 2
        &&& am@[0].0@ == "passwordCredentials"@
        &&& two_strings(am@[0].1, "username"@, user, "password"@, pass)
        &&& am@[1].0@ == "tenantId"@
        &&& am@[1].1.text() == Some(tenant)
    }
}

/// The token that an identity answer carries at `access.token.id`.
pub open spec fn token_of(j: Json) -> Option<Seq<char>> {
    match j.member("access"@) {
        Some(a) => match a.member("token"@) {
            Some(t) => match t.member("id"@) {
                Some(i) => i.text(),
                None => None,
            },
            None => None,
        },
        None => None,
    }
}

/// The credentials sent to the identity service.
pub struct Auth {
    username: String,
    password: String,
    tenant_id: String,
}

impl Auth {
    pub closed spec fn spec_username(&self) -> Seq<char> {
        self.username@
    }

    pub closed spec fn spec_password(&self) -> Seq<char> {
        self.password@
    }

    pub closed spec fn spec_tenant_id(&self) -> Seq<char> {
        self.tenant_id@
    }

    pub fn new(username: &str, password: &str, tenant_id: &str) -> (r: Auth)
        ensures
            r.spec_username() == username@,
            r.spec_password() == password@,
            r.spec_tenant_id() == tenant_id@,
    {
        Auth {
            username: username.to_string(),
            password: password.to_string(),
            tenant_id: tenant_id.to_string(),
        }
    }

    /// The request body that asks for a token with these credentials.
    pub fn to_json(&self) -> (r: Json)
        ensures
            is_auth_body(r, self.spec_username(), self.spec_password(), self.spec_tenant_id()),
    {
        let creds = Json::Object(
            vec![
                ("username".to_string(), Json::Str(self.username.clone())),
                ("password".to_string(), Json::Str(self.password.clone())),
            ],
        );
        let auth = Json::Object(
            vec![
                ("passwordCredentials".to_string(), creds),
                ("tenantId".to_string(), Json::Str(self.tenant_id.clone())),
            ],
        );
        Json::Object(vec![("auth".to_string(), auth)])
    }
}

/// Reads the token out of an identity answer.
pub fn token_in(j: &Json) -> (r: Option<String>)
    ensures
        r matches Some(t) ==> token_of(*j) == Some(t@),
        r is None ==> token_of(*j) is None,
{
    match j.get("access") {
        Some(a) => match a.get("token") {
            Some(t) => match t.get("id") {
                Some(i) => i.to_text(),
                None => None,
            },
            None => None,
        },
        None => None,
    }
}

/// Credentials for one account and, once obtained, its bearer token.
pub struct Session {
    region: Region,
    tenant_id: String,
    user_id: String,
    user_pass: String,
    token: Option<String>,
}

impl Session {
    pub closed spec fn spec_region(&self) -> Region {
        self.region
    }

    pub closed spec fn spec_tenant_id(&self) -> Seq<char> {
        self.tenant_id@
    }

    pub closed spec fn spec_user_id(&self) -> Seq<char> {
        self.user_id@
    }

    pub closed spec fn spec_user_pass(&self) -> Seq<char> {
        self.user_pass@
    }

    /// The token, once authentication has succeeded.
    pub closed spec fn spec_token(&self) -> Option<Seq<char>> {
        match self.token {
            Some(t) => Some(t@),
            None => None,
        }
    }

    /// The credentials are the same in both sessions.
    pub open spec fn same_credentials(&self, other: &Session) -> bool {
        &&& self.spec_region() == other.spec_region()
        &&& self.spec_tenant_id() == other.spec_tenant_id()
        &&& self.spec_user_id() == other.spec_user_id()
        &&& self.spec_user_pass() == other.spec_user_pass()
    }

    /// A session without a token; nothing is sent.
    pub fn new(region: Region, tenant_id: String, user_id: String, user_pass: String) -> (r: Session)
        ensures
            r.spec_region() == region,
            r.spec_tenant_id() == tenant_id@,
            r.spec_user_id() == user_id@,
            r.spec_user_pass() == user_pass@,
            r.spec_token() is None,
    {
        Session { region, tenant_id, user_id, user_pass, token: None }
    }

    /// The identity service's base URL.
    pub fn url(&self) -> (r: String)
        ensures
            r@ == identity_base(self.spec_region()),
    {
        let mut u = "https://identity.".to_string();
        u.append(self.region.to_url());
        u.append(".conoha.io/");
        u
    }

    /// The URL that tokens are requested from.
    pub fn token_url(&self) -> (r: String)
        ensures
            r@ == token_endpoint(self.spec_region()),
    {
        let mut u = self.url();
        u.append("v2.0/tokens");
        u
    }

    /// The request that asks the identity service for a token.
    pub fn auth_request(&self) -> (r: ApiRequest)
        ensures
            r.method == Method::Post,
            r.url@ == token_endpoint(self.spec_region()),
            r.token is None,
            r.body matches Some(b) && is_auth_body(
                b,
                self.spec_user_id(),
                self.spec_user_pass(),
                self.spec_tenant_id(),
            ),
    {
        let auth = Auth::new(self.user_id.as_str(), self.user_pass.as_str(), self.tenant_id.as_str());
        ApiRequest {
            method: Method::Post,
            url: self.token_url(),
            token: None,
            body: Some(auth.to_json()),
        }
    }

    /// Takes the identity service's reply to `auth_request` and keeps the token
    /// that it carries.
    pub fn auth(&mut self, reply: Reply) -> (r: Result<(), ApiError>)
        ensures
            final(self).same_credentials(old(self)),
            reply is Unreachable ==> r == Err::<(), ApiError>(ApiError::AuthTransportError),
            reply matches Reply::Answered { body: None, .. } ==> r == Err::<(), ApiError>(
                ApiError::AuthResponseError,
            ),
            reply matches Reply::Answered { body: Some(j), .. } ==> match token_of(j) {
                Some(t) => r is Ok && final(self).spec_token() == Some(t),
                None => r == Err::<(), ApiError>(ApiError::AuthResponseError),
            },
            r is Err ==> final(self).spec_token() == old(self).spec_token(),
    {
        match reply {
            Reply::Unreachable => Err(ApiError::AuthTransportError),
            Reply::Answered { body: None, .. } => Err(ApiError::AuthResponseError),
            Reply::Answered { body: Some(j), .. } => match token_in(&j) {
                Some(t) => {
                    self.token = Some(t);
                    Ok(())
                },
                None => Err(ApiError::AuthResponseError),
            },
        }
    }

    /// The token, once authentication has succeeded.
    pub fn token(&self) -> (r: Option<String>)
        ensures
            r matches Some(t) ==> self.spec_token() == Some(t@),
            r is None ==> self.spec_token() is None,
    {
        match &self.token {
            Some(t) => Some(t.clone()),
            None => None,
        }
    }

    /// A compute client bound to this session's tenant, region and token.
    pub fn compute(&self) -> (r: Result<Compute, ApiError>)
        ensures
            self.spec_token() is None ==> r == Err::<Compute, ApiError>(ApiError::NotAuthenticated),
            self.spec_token() matches Some(t) ==> r matches Ok(c) && c.bound_to(
                self.spec_region(),
                self.spec_tenant_id(),
                t,
            ),
    {
        match &self.token {
            Some(t) => Ok(Compute::new(self.tenant_id.as_str(), self.region, t.as_str())),
            None => Err(ApiError::NotAuthenticated),
        }
    }
}

} // verus!
