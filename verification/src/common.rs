//! The requests and responses of the service's HTTP interface, as plain data.

use vstd::prelude::*;
use crate::jwt::{uuid_text, uuid_to_string};
use crate::model::Id;

verus! {

/// The request body `oauth2 authorize`.
#[derive(Debug, Clone, Default)]
pub struct RequestOauth2Authorize {
    pub csrf_token: String,
    pub auth_type: String,
    pub email: Option<String>,
    pub password: Option<String>,
    pub oauth2_provider: Option<String>,
}

/// The request body `oauth2 authorize query`.
#[derive(Debug, Clone, Default)]
pub struct RequestOauth2AuthorizeQuery {
    pub response_type: String,
    pub client_id: String,
    pub redirect_uri: String,
    pub state: String,
    pub scope: Option<String>,
}

/// The request body `oauth2 introspect`.
#[derive(Debug, Clone, Default)]
pub struct RequestOauth2Introspect {
    pub token: String,
}

/// The request body `oauth2 redirect query`.
#[derive(Debug, Clone, Default)]
pub struct RequestOauth2RedirectQuery {
    pub code: String,
    pub state: String,
}

/// The request body `oauth2 token`.
#[derive(Debug, Clone, Default)]
pub struct RequestOauth2Token {
    pub grant_type: String,
    pub code: Option<String>,
    pub redirect_uri: Option<String>,
    pub refresh_token: Option<String>,
}

/// The request body `auth delete query`.
#[derive(Debug, Clone, Default)]
pub struct RequestAuthDeleteQuery {
    pub client_id: Option<Id>,
    pub redirect_uri: Option<String>,
    pub response_type: Option<String>,
    pub code: Option<String>,
}

/// The request body `auth delete`.
#[derive(Debug, Clone, Default)]
pub struct RequestAuthDelete {
    pub csrf_token: String,
    pub password: String,
}

/// The request body `auth email update`.
#[derive(Debug, Clone, Default)]
pub struct RequestAuthEmailUpdate {
    pub csrf_token: String,
    pub password: String,
    pub email_new: String,
    pub email_confirm: String,
}

/// The request body `auth query`.
#[derive(Debug, Clone, Default)]
pub struct RequestAuthQuery {
    pub client_id: Id,
    pub redirect_uri: String,
    pub message: Option<String>,
}

/// The request body `auth password reset`.
#[derive(Debug, Clone, Default)]
pub struct RequestAuthPasswordReset {
    pub csrf_token: String,
    pub password_new: Option<String>,
    pub password_confirm: Option<String>,
}

/// The request body `auth password update`.
#[derive(Debug, Clone, Default)]
pub struct RequestAuthPasswordUpdate {
    pub csrf_token: String,
    pub password: String,
    pub password_new: String,
    pub password_confirm: String,
}

/// The request body `auth response query`.
#[derive(Debug, Clone, Default)]
pub struct RequestAuthResponseQuery {
    pub response_type: String,
    pub code: String,
}

/// The request body `auth register`.
#[derive(Debug, Clone, Default)]
pub struct RequestAuthRegister {
    pub csrf_token: String,
    pub register_type: String,
    pub name: Option<String>,
    pub password: Option<String>,
    pub password_confirm: Option<String>,
    pub password_allow_reset: Option<String>,
    pub oauth2_provider: Option<String>,
}

/// The request body `user create`.
#[derive(Debug, Clone, Default)]
pub struct RequestUserCreate {
    /// User name
    pub name: String,
    /// User email address
    pub email: String,
    /// User locale
    pub locale: String,
    /// User timezone
    pub timezone: String,
    /// User enable flag
    pub enable: bool,
    /// User password
    pub password: Option<RequestUserPasswordSet>,
    /// User access scope
    pub scope: String,
}

/// The request body `user password set`.
#[derive(Debug, Clone, Default)]
pub struct RequestUserPasswordSet {
    /// User password
    pub password: String,
    /// User allow password reset flag
    pub allow_reset: bool,
    /// User require password update flag
    pub require_update: bool,
}

/// The request body `user read`.
#[derive(Debug, Clone, Default)]
pub struct RequestUserRead {
    pub id: Option<Vec<Id>>,
    pub email: Option<Vec<String>>,
}

/// The request body `user update`.
#[derive(Debug, Clone, Default)]
pub struct RequestUserUpdate {
    pub id: Id,
    pub name: Option<String>,
    pub email: Option<String>,
    pub locale: Option<String>,
    pub timezone: Option<String>,
    pub enable: Option<bool>,
    pub password: Option<RequestUserPasswordUpdate>,
    pub access: Option<RequestUserAccessUpdate>,
}

/// The request body `user password update`.
#[derive(Debug, Clone, Default)]
pub struct RequestUserPasswordUpdate {
    pub allow_reset: Option<bool>,
    pub require_update: Option<bool>,
}

/// The request body `user access update`.
#[derive(Debug, Clone, Default)]
pub struct RequestUserAccessUpdate {
    pub enable: Option<bool>,
    pub scope: Option<String>,
}

/// The request body `user delete`.
#[derive(Debug, Clone)]
pub struct RequestUserDelete {
    pub id: Id,
}

/// The request body `user access read`.
#[derive(Debug, Clone)]
pub struct RequestUserAccessRead {
    pub user_id: Id,
}

/// The response body `user`.
#[derive(Debug, Clone)]
pub struct ResponseUser {
    pub created_at: i64,
    pub updated_at: i64,
    pub id: Id,
    pub name: String,
    pub email: String,
    pub locale: String,
    pub timezone: String,
    pub enable: bool,
    pub static_: bool,
    pub password: Option<ResponseUserPassword>,
    pub oauth2_provider: Vec<ResponseUserOauth2Provider>,
    pub oauth2_provider_count: i64,
    pub access: Option<ResponseAccess>,
}

/// The response body `user many`.
#[derive(Debug, Clone)]
pub struct ResponseUserMany {
    pub data: Vec<ResponseUser>,
}

/// The response body `user password`.
#[derive(Debug, Clone)]
pub struct ResponseUserPassword {
    pub created_at: i64,
    pub updated_at: i64,
    pub user_id: Id,
    pub allow_reset: bool,
    pub require_update: bool,
    pub static_: bool,
}

/// The response body `user oauth2 provider`.
#[derive(Debug, Clone)]
pub struct ResponseUserOauth2Provider {
    pub created_at: i64,
    pub user_id: Id,
    pub oauth2_provider: String,
    pub sub: String,
    pub static_: bool,
}

/// The request body `csrf`.
#[derive(Debug, Clone, Default)]
pub struct RequestCsrf {
    pub token: String,
}

/// The response body `csrf`.
#[derive(Debug, Clone)]
pub struct ResponseCsrf {
    pub created_at: i64,
    pub client_id: Id,
    pub token: String,
    pub ttl: i64,
}

/// The request body `access update`.
#[derive(Debug, Clone)]
pub struct RequestAccessUpdate {
    pub user_id: Id,
    pub enable: bool,
    pub scope: String,
}

/// The request body `access read`.
#[derive(Debug, Clone, Default)]
pub struct RequestAccessRead {}

/// The request body `access delete`.
#[derive(Debug, Clone)]
pub struct RequestAccessDelete {
    pub user_id: Id,
}

/// The response body `access`.
#[derive(Debug, Clone)]
pub struct ResponseAccess {
    pub created_at: i64,
    pub updated_at: i64,
    pub client_id: Id,
    pub user_id: Id,
    pub enable: bool,
    pub scope: String,
    pub static_: bool,
}

/// The response body `access many`.
#[derive(Debug, Clone)]
pub struct ResponseAccessMany {
    pub data: Vec<ResponseAccess>,
}

/// The request body `audit create`.
#[derive(Debug, Clone, Default)]
pub struct RequestAuditCreate {
    /// Audit log user UUID
    pub user_id: Option<Id>,
    pub token_id: Option<Id>,
    pub api_key_id: Option<Id>,
    pub audit_type: String,
    /// Audit log subject
    pub subject: Option<String>,
    /// Audit log data object
    pub data: String,
    pub status_code: Option<i16>,
}

/// The request body `seek id`.
#[derive(Debug, Clone)]
pub struct RequestSeekId {
    pub id: Option<i64>,
    pub limit: i64,
}

/// The request body `audit read`.
#[derive(Debug, Clone, Default)]
pub struct RequestAuditRead {
    pub seek: RequestSeekId,
    pub id: Option<Vec<i64>>,
    pub user_id: Option<Vec<Id>>,
    pub audit_type: Option<Vec<String>>,
    pub subject: Option<Vec<String>>,
}

/// The response body `audit`.
#[derive(Debug, Clone)]
pub struct ResponseAudit {
    pub created_at: i64,
    pub id: i64,
    pub client_id: Option<Id>,
    pub user_id: Option<Id>,
    pub token_id: Option<Id>,
    pub api_key_id: Option<Id>,
    pub audit_type: String,
    pub subject: Option<String>,
    pub status_code: Option<i16>,
    /// Audit log data object
    pub data: Option<String>,
}

/// The response body `audit many`.
#[derive(Debug, Clone)]
pub struct ResponseAuditMany {
    pub data: Vec<ResponseAudit>,
}

/// The request body `api key create`.
#[derive(Debug, Clone)]
pub struct RequestApiKeyCreate {
    pub user_id: Id,
    pub name: String,
    pub enable: bool,
    pub scope: String,
}

/// The request body `api key read`.
#[derive(Debug, Clone, Default)]
pub struct RequestApiKeyRead {
    pub id: Option<Vec<Id>>,
    pub user_id: Option<Vec<Id>>,
}

/// The request body `api key update`.
#[derive(Debug, Clone)]
pub struct RequestApiKeyUpdate {
    pub id: Id,
    pub name: Option<String>,
    pub enable: Option<bool>,
}

/// The request body `api key verify`.
#[derive(Debug, Clone, Default)]
pub struct RequestApiKeyVerify {
    pub key: String,
}

/// The request body `api key delete`.
#[derive(Debug, Clone)]
pub struct RequestApiKeyDelete {
    pub id: Id,
}

/// The response body `api key`.
#[derive(Debug, Clone)]
pub struct ResponseApiKey {
    pub created_at: i64,
    pub updated_at: i64,
    pub id: Id,
    pub client_id: Id,
    pub user_id: Id,
    pub name: String,
    pub enable: bool,
    pub scope: String,
    pub value: Option<String>,
}

/// The response body `api key many`.
#[derive(Debug, Clone)]
pub struct ResponseApiKeyMany {
    pub data: Vec<ResponseApiKey>,
}

/// The response body `client`.
#[derive(Debug, Clone)]
pub struct ResponseClient {
    pub id: String,
    pub name: String,
    pub uri: String,
    pub redirect_uri: String,
    pub enable: bool,
    pub scope: String,
    pub user_scope: String,
    pub register_enable: bool,
    pub register_scope: String,
}

/// The response body `openid configuration`.
#[derive(Debug, Clone)]
pub struct ResponseOpenidConfiguration {
    pub issuer: String,
    pub authorization_endpoint: String,
    pub token_endpoint: String,
    pub token_endpoint_auth_methods_supported: Vec<String>,
}

impl Default for RequestSeekId {
    fn default() -> (r: Self)
        ensures
            r == (RequestSeekId { id: None, limit: 10 }),
    {
        RequestSeekId { id: None, limit: 10 }
    }
}

/// How long the tokens and codes issued to a client live, in seconds.
#[derive(Debug, Clone)]
pub struct ConfigOauth2ClientTtl {
    pub csrf_s: i64,
    pub code_s: i64,
    pub oauth2_code_s: i64,
    pub token_access_s: i64,
    pub token_refresh_s: i64,
}

/// The templates of the pages and messages shown for a client.
#[derive(Debug, Clone)]
pub struct ConfigOauth2ClientTemplates {
    pub html: String,
    pub mail_text: String,
}

/// A client of the service, as configured.
#[derive(Debug, Clone)]
pub struct Client {
    pub server_authorize_uri: String,
    pub server_token_uri: String,
    pub server_introspect_uri: String,
    pub client_id: Id,
    pub client_secret: String,
    pub redirect_uri: String,
    pub client_name: String,
    pub client_uri: String,
    pub enable: bool,
    pub scope: String,
    pub user_scope: String,
    pub register_enable: bool,
    pub register_scope: String,
    pub ttl: ConfigOauth2ClientTtl,
    pub templates: ConfigOauth2ClientTemplates,
}

impl Client {
    /// The name of the client.
    pub fn client_name(&self) -> (r: String)
        ensures
            r == self.client_name,
    {
        self.client_name.clone()
    }

    /// Where the client lives.
    pub fn client_uri(&self) -> (r: String)
        ensures
            r == self.client_uri,
    {
        self.client_uri.clone()
    }

    /// The server's authorize endpoint.
    pub fn server_authorize_uri(&self) -> (r: String)
        ensures
            r == self.server_authorize_uri,
    {
        self.server_authorize_uri.clone()
    }

    /// The server's token endpoint.
    pub fn server_token_uri(&self) -> (r: String)
        ensures
            r == self.server_token_uri,
    {
        self.server_token_uri.clone()
    }

    /// The server's introspection endpoint.
    pub fn server_introspect_uri(&self) -> (r: String)
        ensures
            r == self.server_introspect_uri,
    {
        self.server_introspect_uri.clone()
    }

    /// The identifier of the client, as text.
    pub fn client_id(&self) -> (r: String)
        ensures
            r@ == uuid_text(self.client_id),
    {
        uuid_to_string(self.client_id)
    }

    /// The secret that the client authenticates with.
    pub fn client_secret(&self) -> (r: String)
        ensures
            r == self.client_secret,
    {
        self.client_secret.clone()
    }

    /// Where the server sends a user back to the client.
    pub fn redirect_uri(&self) -> (r: String)
        ensures
            r == self.redirect_uri,
    {
        self.redirect_uri.clone()
    }
}

impl ResponseClient {
    /// What a client shows of itself.
    pub fn from(x: &Client) -> (r: Self)
        ensures
            r.id@ == uuid_text(x.client_id),
            r.name == x.client_name,
            r.uri == x.client_uri,
            r.redirect_uri == x.redirect_uri,
            r.enable == x.enable,
            r.scope == x.scope,
            r.user_scope == x.user_scope,
            r.register_enable == x.register_enable,
            r.register_scope == x.register_scope,
    {
        ResponseClient {
            id: x.client_id(),
            name: x.client_name(),
            uri: x.client_uri(),
            redirect_uri: x.redirect_uri(),
            enable: x.enable,
            scope: x.scope.clone(),
            user_scope: x.user_scope.clone(),
            register_enable: x.register_enable,
            register_scope: x.register_scope.clone(),
        }
    }
}

} // verus!
