//! The client side of the service's HTTP interface: which request each call
//! makes, and what a response status means.

use vstd::prelude::*;
use vstd::string::StringExecFns;

verus! {

/// The method of a request.
#[derive(Clone, Copy, Debug, PartialEq, Eq, Structural)]
pub enum Method {
    Get,
    Post,
    Patch,
    Delete,
}

/// What a request carries.
#[derive(Debug)]
pub enum Body {
    Empty,
    Login { email: String, password: String },
    ResetPassword { email: String, template: Option<String> },
    Key { key: String },
    Token { token: String },
    UserCreate { is_enabled: bool, name: String, email: String, password: Option<String> },
    UserUpdate { is_enabled: Option<bool>, name: Option<String> },
}

/// A request, ready to be sent.
#[derive(Debug)]
pub struct Request {
    pub method: Method,
    pub route: String,
    /// The key value that authorises the request.
    pub authorisation: Option<String>,
    pub body: Body,
}

/// Why a call failed.
#[derive(Clone, Copy, Debug, PartialEq, Eq, Structural)]
pub enum Error {
    /// The server answered `400 Bad Request`.
    BadRequest,
    /// The server answered `403 Forbidden`.
    Forbidden,
    /// The server answered `404 Not Found`.
    NotFound,
    /// The request could not be sent, or the answer could not be read.
    Unwrap,
}

/// What a response status means to a caller.
pub open spec fn status_outcome(status: u16) -> Result<(), Error> {
    if status == 200 {
        Ok(())
    } else if status == 400 {
        Err(Error::BadRequest)
    } else if status == 403 {
        Err(Error::Forbidden)
    } else if status == 404 {
        Err(Error::NotFound)
    } else {
        Err(Error::Unwrap)
    }
}

/// Tells what a response status means: `200` is the only success.
pub fn match_status_code(status: u16) -> (r: Result<(), Error>)
    ensures
        r == status_outcome(status),
{
    if status == 200 {
        Ok(())
    } else if status == 400 {
        Err(Error::BadRequest)
    } else if status == 403 {
        Err(Error::Forbidden)
    } else if status == 404 {
        Err(Error::NotFound)
    } else {
        Err(Error::Unwrap)
    }
}

/// Where a login is posted.
pub open spec fn route_auth_local_login() -> Seq<char> {
    "/v1/auth/provider/local/login"@
}

/// Where a password reset is posted.
pub open spec fn route_auth_local_reset_password() -> Seq<char> {
    "/v1/auth/provider/local/reset/password"@
}

/// Where the URL that sends a user to Microsoft is asked for.
pub open spec fn route_auth_microsoft_oauth2() -> Seq<char> {
    "/v1/auth/provider/microsoft/oauth2"@
}

/// Where a key is verified.
pub open spec fn route_auth_key_verify() -> Seq<char> {
    "/v1/auth/key/verify"@
}

/// Where a key is revoked.
pub open spec fn route_auth_key_revoke() -> Seq<char> {
    "/v1/auth/key/revoke"@
}

/// Where a token is verified.
pub open spec fn route_auth_token_verify() -> Seq<char> {
    "/v1/auth/token/verify"@
}

/// Where a pair of tokens is refreshed.
pub open spec fn route_auth_token_refresh() -> Seq<char> {
    "/v1/auth/token/refresh"@
}

/// Where a token is revoked.
pub open spec fn route_auth_token_revoke() -> Seq<char> {
    "/v1/auth/token/revoke"@
}

/// Where users are created.
pub open spec fn route_user() -> Seq<char> {
    "/v1/user"@
}

/// The route of one user.
pub open spec fn route_user_id(id: Seq<char>) -> Seq<char> {
    "/v1/user/"@ + id
}

fn opt_clone(s: &Option<String>) -> (r: Option<String>)
    ensures
        r == *s,
{
    match s {
        Some(x) => Some(x.clone()),
        None => None,
    }
}

/// A client that is answered at once: each call tells which request to send.
#[derive(Debug)]
pub struct SyncClient {
    /// The key value that authorises the client's requests.
    pub authorisation: Option<String>,
}

impl SyncClient {
    /// A request of the client: a `POST` to `route` with `body`.
    pub open spec fn posts(self, r: Request, route: Seq<char>) -> bool {
        r.method == Method::Post && r.route@ == route && r.authorisation == self.authorisation
    }

    fn post(&self, route: &str, body: Body) -> (r: Request)
        ensures
            self.posts(r, route@),
            r.body == body,
    {
        Request {
            method: Method::Post,
            route: String::from_str(route),
            authorisation: opt_clone(&self.authorisation),
            body,
        }
    }

    /// The request that logs a user in with email address and password.
    pub fn auth_local_login(&self, email: &str, password: &str) -> (r: Request)
        ensures
            self.posts(r, route_auth_local_login()),
            r.body matches Body::Login { email: e, password: p } && e@ == email@ && p@
                == password@,
    {
        self.post(
            "/v1/auth/provider/local/login",
            Body::Login { email: String::from_str(email), password: String::from_str(password) },
        )
    }

    /// The request that starts a password reset.
    pub fn auth_local_reset_password(&self, email: &str) -> (r: Request)
        ensures
            self.posts(r, route_auth_local_reset_password()),
            r.body matches Body::ResetPassword { email: e, template: t } && e@ == email@ && t
                is None,
    {
        self.post(
            "/v1/auth/provider/local/reset/password",
            Body::ResetPassword { email: String::from_str(email), template: None },
        )
    }

    /// The request that asks for the URL that sends a user to Microsoft.
    pub fn auth_microsoft_oauth2_request(&self) -> (r: Request)
        ensures
            self.posts(r, route_auth_microsoft_oauth2()),
            r.body is Empty,
    {
        self.post("/v1/auth/provider/microsoft/oauth2", Body::Empty)
    }

    /// The request that verifies a key.
    pub fn auth_key_verify(&self, key: &str) -> (r: Request)
        ensures
            self.posts(r, route_auth_key_verify()),
            r.body matches Body::Key { key: k } && k@ == key@,
    {
        self.post("/v1/auth/key/verify", Body::Key { key: String::from_str(key) })
    }

    /// The request that revokes a key.
    pub fn auth_key_revoke(&self, key: &str) -> (r: Request)
        ensures
            self.posts(r, route_auth_key_revoke()),
            r.body matches Body::Key { key: k } && k@ == key@,
    {
        self.post("/v1/auth/key/revoke", Body::Key { key: String::from_str(key) })
    }

    /// The request that verifies an access token.
    pub fn auth_token_verify(&self, token: &str) -> (r: Request)
        ensures
            self.posts(r, route_auth_token_verify()),
            r.body matches Body::Token { token: t } && t@ == token@,
    {
        self.post("/v1/auth/token/verify", Body::Token { token: String::from_str(token) })
    }

    /// The request that refreshes a pair of tokens.
    pub fn auth_token_refresh(&self, token: &str) -> (r: Request)
        ensures
            self.posts(r, route_auth_token_refresh()),
            r.body matches Body::Token { token: t } && t@ == token@,
    {
        self.post("/v1/auth/token/refresh", Body::Token { token: String::from_str(token) })
    }

    /// The request that revokes a token.
    pub fn auth_token_revoke(&self, token: &str) -> (r: Request)
        ensures
            self.posts(r, route_auth_token_revoke()),
            r.body matches Body::Token { token: t } && t@ == token@,
    {
        self.post("/v1/auth/token/revoke", Body::Token { token: String::from_str(token) })
    }
}

/// A client that is answered later: each call tells which request to send.
#[derive(Debug)]
pub struct AsyncClient {
    /// The key value that authorises the client's requests.
    pub authorisation: Option<String>,
}

impl AsyncClient {
    fn user_route(id: &str) -> (r: String)
        ensures
            r@ == route_user_id(id@),
    {
        let mut route = String::from_str("/v1/user/");
        route.append(id);
        route
    }

    /// The request that creates a user.
    pub fn user_create(&self, is_enabled: bool, name: String, email: String, password: Option<String>)
        -> (r: Request)
        ensures
            r.method == Method::Post,
            r.route@ == route_user(),
            r.authorisation == self.authorisation,
            r.body == (Body::UserCreate { is_enabled, name, email, password }),
    {
        Request {
            method: Method::Post,
            route: String::from_str("/v1/user"),
            authorisation: opt_clone(&self.authorisation),
            body: Body::UserCreate { is_enabled, name, email, password },
        }
    }

    /// The request that reads a user.
    pub fn user_read(&self, id: &str) -> (r: Request)
        ensures
            r.method == Method::Get,
            r.route@ == route_user_id(id@),
            r.authorisation == self.authorisation,
            r.body is Empty,
    {
        Request {
            method: Method::Get,
            route: AsyncClient::user_route(id),
            authorisation: opt_clone(&self.authorisation),
            body: Body::Empty,
        }
    }

    /// The request that changes a user.
    pub fn user_update(&self, id: &str, is_enabled: Option<bool>, name: Option<String>) -> (r:
        Request)
        ensures
            r.method == Method::Patch,
            r.route@ == route_user_id(id@),
            r.authorisation == self.authorisation,
            r.body == (Body::UserUpdate { is_enabled, name }),
    {
        Request {
            method: Method::Patch,
            route: AsyncClient::user_route(id),
            authorisation: opt_clone(&self.authorisation),
            body: Body::UserUpdate { is_enabled, name },
        }
    }

    /// The request that deletes a user.
    pub fn user_delete(&self, id: &str) -> (r: Request)
        ensures
            r.method == Method::Delete,
            r.route@ == route_user_id(id@),
            r.authorisation == self.authorisation,
            r.body is Empty,
    {
        Request {
            method: Method::Delete,
            route: AsyncClient::user_route(id),
            authorisation: opt_clone(&self.authorisation),
            body: Body::Empty,
        }
    }
}

} // verus!
