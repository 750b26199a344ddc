//! Federated login: the authorize URL that sends a user to the provider, and
//! the callback that turns the provider's answer into tokens of a local user.

use oauth2::basic::BasicClient;
use oauth2::{AuthUrl, ClientId, CsrfToken, PkceCodeChallenge, PkceCodeVerifier, RedirectUrl, Scope};
use url::Url;
use vstd::prelude::*;
use vstd::string::StringExecFns;
use vstd::utf8::encode_utf8;
use crate::audit::{AuditBuilder, AuditMeta};
use crate::audit_type::AuditType;
use crate::auth;
use crate::context::Context;
use crate::csrf;
use crate::driver::Driver;
use crate::error::{DriverError, DriverResult, MethodError, MethodResult};
use crate::jwt::{user_token_error, user_token_issued, user_token_store, Jwt};
use crate::method::{
    failure_of, finish, finish_err, key_service_authenticate, party, party_audit,
    party_by_email, recorded, recorded_err, rejected, rejected_by, reported, reported_err,
    service_of, Outcome,
};
use crate::model::{Id, KeyType, KeyWithValue, Service, User, UserToken};
use crate::store::Store;
use crate::text::opt_view;

verus! {

/// What a service holds of itself at the provider.
#[derive(Debug)]
pub struct AuthProviderOauth2 {
    pub client_id: String,
    pub client_secret: String,
}

/// How the engine is set up for a provider.
#[derive(Debug)]
pub struct AuthProviderOauth2Args<'a> {
    pub provider: Option<&'a AuthProviderOauth2>,
    pub user_agent: String,
    pub access_token_expires: i64,
    pub refresh_token_expires: i64,
}

/// The URL that the user is sent to.
#[derive(Debug)]
pub struct AuthOauth2UrlResponse {
    pub url: String,
}

/// What the provider hands back through the user.
#[derive(Debug)]
pub struct AuthOauth2CallbackRequest {
    pub code: String,
    pub state: String,
}

/// The tokens of a login.
#[derive(Debug)]
pub struct AuthTokenResponse {
    pub data: UserToken,
    pub audit: Option<Id>,
}

/// A service as the provider knows it.
#[derive(Debug)]
pub struct ProviderClient {
    pub client_id: String,
    pub client_secret: String,
    pub redirect_url: String,
}

/// Whether a text is an absolute URL.
pub uninterp spec fn url_valid(text: Seq<char>) -> bool;

/// The authorize URL at `auth_url` for a client that asks for `scope`, with
/// the state `state` and the SHA-256 challenge of the code verifier
/// `verifier`; `None` where one of the URLs is none.
pub uninterp spec fn authorize_url_text(
    auth_url: Seq<char>,
    scope: Seq<char>,
    client_id: Seq<char>,
    redirect_url: Seq<char>,
    state: Seq<char>,
    verifier: Seq<char>,
) -> Option<Seq<char>>;

/// The URL `base` with its query replaced by `query`; `None` where `base` is
/// no absolute URL.
pub uninterp spec fn url_with_query_text(base: Seq<char>, query: Seq<char>) -> Option<Seq<char>>;

/// Tells whether a text is an absolute URL.
///
/// Calls `url::Url::parse` and reports whether it succeeded.
#[verifier::external_body]
fn url_is_valid(text: &str) -> (r: bool)
    ensures
        r == url_valid(text@),
{
    Url::parse(text).is_ok()
}

/// Replaces the query of a URL.
///
/// Calls `url::Url::parse` and `Url::set_query`, and writes the result out.
#[verifier::external_body]
fn url_with_query(base: &str, query: &str) -> (r: Option<String>)
    ensures
        opt_view(r) == url_with_query_text(base@, query@),
{
    let mut url = Url::parse(base).ok()?;
    url.set_query(Some(query));
    Some(url.to_string())
}

/// Builds the authorize URL of an authorization-code request with PKCE.
///
/// Calls `oauth2::basic::BasicClient::authorize_url` with the given state,
/// one scope and the challenge that
/// `PkceCodeChallenge::from_code_verifier_sha256` derives from the verifier,
/// and writes the URL out. That function panics on a verifier of fewer than
/// 43 or more than 128 bytes, which the precondition leaves out.
#[verifier::external_body]
fn authorize_url(
    auth_url: &str,
    scope: &str,
    client_id: &str,
    redirect_url: &str,
    state: &str,
    verifier: &str,
) -> (r: Option<String>)
    requires
        43 <= encode_utf8(verifier@).len() <= 128,
    ensures
        opt_view(r) == authorize_url_text(
            auth_url@,
            scope@,
            client_id@,
            redirect_url@,
            state@,
            verifier@,
        ),
{
    let auth = AuthUrl::new(auth_url.to_owned()).ok()?;
    let redirect = RedirectUrl::new(redirect_url.to_owned()).ok()?;
    let challenge = PkceCodeChallenge::from_code_verifier_sha256(
        &PkceCodeVerifier::new(verifier.to_owned()),
    );
    let token = CsrfToken::new(state.to_owned());
    let client = BasicClient::new(ClientId::new(client_id.to_owned()), None, auth, None);
    let request = client.set_redirect_uri(redirect);
    let request = request.authorize_url(move || token).add_scope(Scope::new(scope.to_owned()));
    Some(request.set_pkce_challenge(challenge).url().0.to_string())
}

/// Where Microsoft's authorize endpoint is.
pub open spec fn microsoft_auth_url() -> Seq<char> {
    "https://login.microsoftonline.com/common/oauth2/v2.0/authorize"@
}

/// Where Microsoft's token endpoint is.
pub open spec fn microsoft_token_url() -> Seq<char> {
    "https://login.microsoftonline.com/common/oauth2/v2.0/token"@
}

/// The scope that reading the user's profile needs.
pub open spec fn microsoft_scope() -> Seq<char> {
    "https://graph.microsoft.com/User.Read"@
}

/// Where Microsoft's authorize endpoint is.
pub fn microsoft_authorize_endpoint() -> (r: &'static str)
    ensures
        r@ == microsoft_auth_url(),
{
    "https://login.microsoftonline.com/common/oauth2/v2.0/authorize"
}

/// Where Microsoft's token endpoint is.
pub fn microsoft_token_endpoint() -> (r: &'static str)
    ensures
        r@ == microsoft_token_url(),
{
    "https://login.microsoftonline.com/common/oauth2/v2.0/token"
}

/// What [`new_client`] returns.
pub open spec fn new_client_spec(service: Service, provider: Option<&AuthProviderOauth2>)
    -> Result<ProviderClient, DriverError> {
    match (service.provider_microsoft_oauth2_url, provider) {
        (Some(redirect_url), Some(p)) => if url_valid(redirect_url@) {
            Ok(
                ProviderClient {
                    client_id: p.client_id,
                    client_secret: p.client_secret,
                    redirect_url,
                },
            )
        } else {
            Err(DriverError::UrlParse)
        },
        _ => Err(DriverError::ServiceProviderMicrosoftOauth2Disabled),
    }
}

/// The service as the provider knows it. Fails where the service has no
/// redirect URL at the provider or the engine is not set up for the provider,
/// and where the redirect URL is no URL.
pub fn new_client(service: &Service, provider: Option<&AuthProviderOauth2>) -> (r: DriverResult<
    ProviderClient,
>)
    ensures
        r == new_client_spec(*service, provider),
{
    match (&service.provider_microsoft_oauth2_url, provider) {
        (Some(redirect_url), Some(p)) => {
            if url_is_valid(redirect_url.as_str()) {
                Ok(
                    ProviderClient {
                        client_id: p.client_id.clone(),
                        client_secret: p.client_secret.clone(),
                        redirect_url: redirect_url.clone(),
                    },
                )
            } else {
                Err(DriverError::UrlParse)
            }
        },
        _ => Err(DriverError::ServiceProviderMicrosoftOauth2Disabled),
    }
}

/// Whether a text can serve as a code verifier: 43 to 128 bytes.
pub open spec fn verifier_fits(verifier: Seq<char>) -> bool {
    43 <= encode_utf8(verifier).len() <= 128
}

/// A single-use value that the engine drew can serve as a code verifier,
/// so a request for an authorize URL in a captured context never fails for
/// its verifier.
pub proof fn lemma_drawn_verifier_fits(verifier: Seq<char>)
    requires
        crate::context::is_verifier(verifier),
    ensures
        verifier_fits(verifier),
{
    crate::context::lemma_verifier_bytes(verifier);
}

/// The authorize URL that a client is sent to in `ctx`: the state is the
/// context's single-use key, the code verifier its single-use value.
pub open spec fn authorize_url_for(client: ProviderClient, ctx: Context) -> Option<Seq<char>> {
    authorize_url_text(
        microsoft_auth_url(),
        microsoft_scope(),
        client.client_id@,
        client.redirect_url@,
        ctx.csrf_key@,
        ctx.csrf_value@,
    )
}

/// What asking for an authorize URL does before its outcome is recorded:
/// the service is authenticated and known at the provider, the URL is built
/// with the context's fresh state and code verifier, and both are stored as
/// a single-use entry of the service, to be read by the callback.
pub open spec fn oauth2_url_spec(
    store: Store,
    ctx: Context,
    audit: AuditBuilder,
    auth: Option<Seq<char>>,
    args: AuthProviderOauth2Args,
) -> Outcome {
    let audit = auth::authenticate_audit(store, auth, audit);
    match service_of(store, auth) {
        Err(e) => Outcome { failure: Some(e), store, audit },
        Ok(service) => match new_client_spec(service, args.provider) {
            Err(e) => Outcome { failure: Some(MethodError::BadRequest(e)), store, audit },
            Ok(client) => if !verifier_fits(ctx.csrf_value@) {
                Outcome {
                    failure: Some(MethodError::BadRequest(DriverError::Oauth2Verifier)),
                    store,
                    audit,
                }
            } else if authorize_url_for(client, ctx) is None {
                Outcome {
                    failure: Some(MethodError::BadRequest(DriverError::UrlParse)),
                    store,
                    audit,
                }
            } else {
                let (made, after) = csrf::create_spec(
                    store,
                    service.id,
                    ctx.csrf_key,
                    ctx.csrf_value,
                    args.access_token_expires,
                    ctx,
                );
                Outcome {
                    failure: match made {
                        Ok(_) => None,
                        Err(e) => Some(MethodError::rejected(e)),
                    },
                    store: after,
                    audit,
                }
            },
        },
    }
}

/// The URL that a successful request for an authorize URL returns.
pub open spec fn oauth2_url_text(
    store: Store,
    ctx: Context,
    auth: Option<Seq<char>>,
    args: AuthProviderOauth2Args,
) -> Seq<char> {
    authorize_url_for(new_client_spec(service_of(store, auth)->Ok_0, args.provider)->Ok_0, ctx)->0
}

/// Builds the authorize URL for a service as [`oauth2_url_spec`] describes.
pub fn oauth2_url<D: Driver>(
    driver: &mut D,
    ctx: &Context,
    audit: &mut AuditBuilder,
    key_value: &Option<String>,
    args: &AuthProviderOauth2Args,
) -> (r: MethodResult<String>)
    requires
        old(driver).store().wf(),
    ensures
        final(driver).store().wf(),
        (Outcome { failure: failure_of(r), store: final(driver).store(), audit: *final(audit) })
            == oauth2_url_spec(old(driver).store(), *ctx, *old(audit), opt_view(*key_value), *args),
        r matches Ok(url) ==> url@ == oauth2_url_text(
            old(driver).store(),
            *ctx,
            opt_view(*key_value),
            *args,
        ),
{
    let service = key_service_authenticate(driver, audit, key_value)?;
    let client = match new_client(&service, args.provider) {
        Ok(c) => c,
        Err(e) => {
            return Err(MethodError::BadRequest(e));
        },
    };
    let n = ctx.csrf_value.as_str().as_bytes().len();
    if n < 43 || n > 128 {
        return Err(MethodError::BadRequest(DriverError::Oauth2Verifier));
    }
    let url = match authorize_url(
        microsoft_authorize_endpoint(),
        "https://graph.microsoft.com/User.Read",
        client.client_id.as_str(),
        client.redirect_url.as_str(),
        ctx.csrf_key.as_str(),
        ctx.csrf_value.as_str(),
    ) {
        Some(u) => u,
        None => {
            return Err(MethodError::BadRequest(DriverError::UrlParse));
        },
    };
    rejected(
        csrf::create(
            driver,
            ctx,
            &service,
            ctx.csrf_key.clone(),
            ctx.csrf_value.clone(),
            args.access_token_expires,
        ),
    )?;
    Ok(url)
}

/// Returns the URL that sends a user of the service to the provider. The
/// outcome is recorded in the audit trail.
pub fn auth_provider_microsoft_oauth2_url<D: Driver>(
    driver: &mut D,
    ctx: &Context,
    audit_meta: AuditMeta,
    key_value: Option<String>,
    args: AuthProviderOauth2Args,
) -> (r: MethodResult<AuthOauth2UrlResponse>)
    requires
        old(driver).store().wf(),
    ensures
        final(driver).store().wf(),
        final(driver).store() == recorded(
            oauth2_url_spec(
                old(driver).store(),
                *ctx,
                AuditBuilder::new_spec(audit_meta, AuditType::AuthMicrosoftOauth2Url),
                opt_view(key_value),
                args,
            ),
            ctx.now,
        ),
        failure_of(r) == reported(
            oauth2_url_spec(
                old(driver).store(),
                *ctx,
                AuditBuilder::new_spec(audit_meta, AuditType::AuthMicrosoftOauth2Url),
                opt_view(key_value),
                args,
            ),
        ),
        r matches Ok(u) ==> u.url@ == oauth2_url_text(
            old(driver).store(),
            *ctx,
            opt_view(key_value),
            args,
        ),
{
    let mut audit = AuditBuilder::new(audit_meta, AuditType::AuthMicrosoftOauth2Url);
    let res = oauth2_url(driver, ctx, &mut audit, &key_value, &args);
    match finish(driver, ctx, &audit, res) {
        Ok(url) => Ok(AuthOauth2UrlResponse { url }),
        Err(e) => Err(e),
    }
}

/// What the engine asks of the provider once a callback is accepted: to
/// exchange the code, with the code verifier that the authorize URL was
/// derived from, for the email address of the user.
#[derive(Debug)]
pub struct Oauth2Exchange {
    /// The actors collected so far, for the record of the outcome.
    pub audit: AuditBuilder,
    /// The service that presents the callback.
    pub service: Service,
    /// The service that asked for the authorize URL.
    pub service_id: Id,
    pub client: ProviderClient,
    pub code: String,
    pub code_verifier: String,
}

/// What accepting a callback does before its outcome is recorded: the
/// service is authenticated, the single-use entry under the state is
/// consumed, and the service must be known at the provider.
pub open spec fn oauth2_exchange_spec(
    store: Store,
    ctx: Context,
    audit: AuditBuilder,
    auth: Option<Seq<char>>,
    args: AuthProviderOauth2Args,
    request: AuthOauth2CallbackRequest,
) -> Outcome {
    let audit = auth::authenticate_audit(store, auth, audit);
    match service_of(store, auth) {
        Err(e) => Outcome { failure: Some(e), store, audit },
        Ok(service) => {
            let (entry, after) = store.csrf_consume(request.state@, ctx.now);
            match entry {
                None => Outcome {
                    failure: Some(MethodError::BadRequest(DriverError::CsrfNotFoundOrUsed)),
                    store: after,
                    audit,
                },
                Some(_) => match new_client_spec(service, args.provider) {
                    Err(e) => Outcome {
                        failure: Some(MethodError::BadRequest(e)),
                        store: after,
                        audit,
                    },
                    Ok(_) => Outcome { failure: None, store: after, audit },
                },
            }
        },
    }
}

/// The exchange that an accepted callback asks for.
pub open spec fn oauth2_exchange_for(
    store: Store,
    ctx: Context,
    audit: AuditBuilder,
    auth: Option<Seq<char>>,
    args: AuthProviderOauth2Args,
    request: AuthOauth2CallbackRequest,
) -> Oauth2Exchange {
    let service = service_of(store, auth)->Ok_0;
    let entry = store.csrf_consume(request.state@, ctx.now).0->0;
    Oauth2Exchange {
        audit: auth::authenticate_audit(store, auth, audit),
        service,
        service_id: entry.service_id,
        client: new_client_spec(service, args.provider)->Ok_0,
        code: request.code,
        code_verifier: entry.value,
    }
}

/// Accepts a callback as [`oauth2_exchange_spec`] describes, and returns
/// what to ask of the provider. The state is good for one callback: its
/// single-use entry is consumed.
pub fn oauth2_exchange<D: Driver>(
    driver: &mut D,
    ctx: &Context,
    audit: AuditBuilder,
    key_value: &Option<String>,
    args: &AuthProviderOauth2Args,
    request: AuthOauth2CallbackRequest,
) -> (r: Result<Oauth2Exchange, (MethodError, AuditBuilder)>)
    requires
        old(driver).store().wf(),
    ensures
        final(driver).store().wf(),
        final(driver).store() == oauth2_exchange_spec(
            old(driver).store(),
            *ctx,
            audit,
            opt_view(*key_value),
            *args,
            request,
        ).store,
        match r {
            Ok(x) => oauth2_exchange_spec(
                old(driver).store(),
                *ctx,
                audit,
                opt_view(*key_value),
                *args,
                request,
            ).failure is None && x == oauth2_exchange_for(
                old(driver).store(),
                *ctx,
                audit,
                opt_view(*key_value),
                *args,
                request,
            ),
            Err((e, a)) => oauth2_exchange_spec(
                old(driver).store(),
                *ctx,
                audit,
                opt_view(*key_value),
                *args,
                request,
            ).failure == Some(e) && a == oauth2_exchange_spec(
                old(driver).store(),
                *ctx,
                audit,
                opt_view(*key_value),
                *args,
                request,
            ).audit,
        },
{
    let mut audit = audit;
    let service = match key_service_authenticate(driver, &mut audit, key_value) {
        Ok(s) => s,
        Err(e) => {
            return Err((e, audit));
        },
    };
    let entry = match csrf::consume(driver, ctx, request.state.as_str()) {
        Some(c) => c,
        None => {
            return Err((MethodError::BadRequest(DriverError::CsrfNotFoundOrUsed), audit));
        },
    };
    let client = match new_client(&service, args.provider) {
        Ok(c) => c,
        Err(e) => {
            return Err((MethodError::BadRequest(e), audit));
        },
    };
    Ok(
        Oauth2Exchange {
            audit,
            service,
            service_id: entry.service_id,
            client,
            code: request.code,
            code_verifier: entry.value,
        },
    )
}

/// Accepts a callback of the provider and returns what to ask of the
/// provider. A failure is recorded in the audit trail; a success is
/// recorded once the exchange is done, by
/// [`auth_provider_microsoft_oauth2_callback`].
pub fn auth_provider_microsoft_oauth2_exchange<D: Driver>(
    driver: &mut D,
    ctx: &Context,
    audit_meta: AuditMeta,
    key_value: Option<String>,
    args: AuthProviderOauth2Args,
    request: AuthOauth2CallbackRequest,
) -> (r: MethodResult<Oauth2Exchange>)
    requires
        old(driver).store().wf(),
    ensures
        final(driver).store().wf(),
        final(driver).store() == recorded_err(
            oauth2_exchange_spec(
                old(driver).store(),
                *ctx,
                AuditBuilder::new_spec(audit_meta, AuditType::AuthMicrosoftOauth2Callback),
                opt_view(key_value),
                args,
                request,
            ),
            ctx.now,
        ),
        failure_of(r) == reported_err(
            oauth2_exchange_spec(
                old(driver).store(),
                *ctx,
                AuditBuilder::new_spec(audit_meta, AuditType::AuthMicrosoftOauth2Callback),
                opt_view(key_value),
                args,
                request,
            ),
        ),
        r matches Ok(x) ==> x == oauth2_exchange_for(
            old(driver).store(),
            *ctx,
            AuditBuilder::new_spec(audit_meta, AuditType::AuthMicrosoftOauth2Callback),
            opt_view(key_value),
            args,
            request,
        ),
{
    let audit = AuditBuilder::new(audit_meta, AuditType::AuthMicrosoftOauth2Callback);
    match oauth2_exchange(driver, ctx, audit, &key_value, &args, request) {
        Ok(x) => Ok(x),
        Err((e, audit)) => finish_err(driver, ctx, &audit, Err::<Oauth2Exchange, MethodError>(e)),
    }
}

/// What a federated login does before its outcome is recorded: the service
/// that completes the login must be the one that started it; the user is
/// found by the email address that the provider vouches for, with a usable
/// token key; and tokens are issued. A user is never created here.
pub open spec fn oauth2_login_spec(
    store: Store,
    ctx: Context,
    audit: AuditBuilder,
    service: Service,
    service_id: Id,
    email: Seq<char>,
    access_token_expires: i64,
    refresh_token_expires: i64,
) -> Outcome {
    if service.id != service_id {
        Outcome {
            failure: Some(MethodError::BadRequest(DriverError::CsrfServiceMismatch)),
            store,
            audit,
        }
    } else {
        let found = store.user_by_email(email);
        let audit = party_audit(store, service.id, found, KeyType::Token, true, audit);
        match party(store, service.id, found, KeyType::Token, true) {
            Err(e) => Outcome { failure: Some(e), store, audit },
            Ok((user, key)) => Outcome {
                failure: rejected_by(
                    user_token_error(
                        store,
                        ctx,
                        service.id,
                        user.id,
                        key,
                        access_token_expires,
                        refresh_token_expires,
                    ),
                ),
                store: user_token_store(
                    store,
                    ctx,
                    service.id,
                    user.id,
                    key,
                    access_token_expires,
                    refresh_token_expires,
                ),
                audit,
            },
        }
    }
}

/// The user who logs in and the key that the tokens are issued against.
pub open spec fn oauth2_login_party(store: Store, service: Service, email: Seq<char>) -> (
    User,
    KeyWithValue,
) {
    party(store, service.id, store.user_by_email(email), KeyType::Token, true)->Ok_0
}

/// Logs in the user that a provider vouches for, as [`oauth2_login_spec`]
/// describes. A login that another service started fails `BadRequest`.
pub fn oauth2_login<D: Driver>(
    driver: &mut D,
    ctx: &Context,
    audit: &mut AuditBuilder,
    service: &Service,
    service_id: Id,
    email: String,
    access_token_expires: i64,
    refresh_token_expires: i64,
) -> (r: MethodResult<UserToken>)
    requires
        old(driver).store().wf(),
    ensures
        final(driver).store().wf(),
        (Outcome { failure: failure_of(r), store: final(driver).store(), audit: *final(audit) })
            == oauth2_login_spec(
            old(driver).store(),
            *ctx,
            *old(audit),
            *service,
            service_id,
            email@,
            access_token_expires,
            refresh_token_expires,
        ),
        r matches Ok(t) ==> user_token_issued(
            *ctx,
            service.id,
            oauth2_login_party(old(driver).store(), *service, email@).0.id,
            oauth2_login_party(old(driver).store(), *service, email@).1,
            access_token_expires,
            refresh_token_expires,
            t,
        ),
{
    if service.id != service_id {
        return Err(MethodError::BadRequest(DriverError::CsrfServiceMismatch));
    }
    let (user, key) = party_by_email(driver, audit, service, email.as_str(), KeyType::Token)?;
    rejected(
        Jwt::encode_user_token(
            driver,
            ctx,
            service,
            &user,
            &key,
            access_token_expires,
            refresh_token_expires,
        ),
    )
}

/// What completing a callback does before its outcome is recorded: without
/// an email address from the provider it fails; with one, the user is
/// logged in.
pub open spec fn oauth2_callback_spec(
    store: Store,
    ctx: Context,
    exchange: Oauth2Exchange,
    email: Option<Seq<char>>,
    access_token_expires: i64,
    refresh_token_expires: i64,
) -> Outcome {
    match email {
        None => Outcome {
            failure: Some(MethodError::BadRequest(DriverError::Oauth2Request)),
            store,
            audit: exchange.audit,
        },
        Some(e) => oauth2_login_spec(
            store,
            ctx,
            exchange.audit,
            exchange.service,
            exchange.service_id,
            e,
            access_token_expires,
            refresh_token_expires,
        ),
    }
}

/// Completes a callback with what the provider answered: the email address
/// of the user, or `None` where the exchange failed.
pub fn oauth2_callback<D: Driver>(
    driver: &mut D,
    ctx: &Context,
    audit: &mut AuditBuilder,
    service: &Service,
    service_id: Id,
    email: Option<String>,
    access_token_expires: i64,
    refresh_token_expires: i64,
) -> (r: MethodResult<UserToken>)
    requires
        old(driver).store().wf(),
    ensures
        final(driver).store().wf(),
        (Outcome { failure: failure_of(r), store: final(driver).store(), audit: *final(audit) })
            == (match email {
            None => Outcome {
                failure: Some(MethodError::BadRequest(DriverError::Oauth2Request)),
                store: old(driver).store(),
                audit: *old(audit),
            },
            Some(e) => oauth2_login_spec(
                old(driver).store(),
                *ctx,
                *old(audit),
                *service,
                service_id,
                e@,
                access_token_expires,
                refresh_token_expires,
            ),
        }),
        r matches Ok(t) ==> email is Some && user_token_issued(
            *ctx,
            service.id,
            oauth2_login_party(old(driver).store(), *service, email->0@).0.id,
            oauth2_login_party(old(driver).store(), *service, email->0@).1,
            access_token_expires,
            refresh_token_expires,
            t,
        ),
{
    match email {
        None => Err(MethodError::BadRequest(DriverError::Oauth2Request)),
        Some(e) => oauth2_login(
            driver,
            ctx,
            audit,
            service,
            service_id,
            e,
            access_token_expires,
            refresh_token_expires,
        ),
    }
}

/// Completes a callback of the provider: logs in the local user with the
/// email address that the provider vouches for and issues an access token
/// and a refresh token. The outcome is recorded in the audit trail.
///
/// Fails `BadRequest` where the exchange with the provider failed, where
/// another service started the login, and where there is no such user with
/// a usable token key.
pub fn auth_provider_microsoft_oauth2_callback<D: Driver>(
    driver: &mut D,
    ctx: &Context,
    exchange: Oauth2Exchange,
    email: Option<String>,
    access_token_expires: i64,
    refresh_token_expires: i64,
) -> (r: MethodResult<AuthTokenResponse>)
    requires
        old(driver).store().wf(),
    ensures
        final(driver).store().wf(),
        final(driver).store() == recorded(
            oauth2_callback_spec(
                old(driver).store(),
                *ctx,
                exchange,
                opt_view(email),
                access_token_expires,
                refresh_token_expires,
            ),
            ctx.now,
        ),
        failure_of(r) == reported(
            oauth2_callback_spec(
                old(driver).store(),
                *ctx,
                exchange,
                opt_view(email),
                access_token_expires,
                refresh_token_expires,
            ),
        ),
        r matches Ok(t) ==> t.audit is None && email is Some && user_token_issued(
            *ctx,
            exchange.service.id,
            oauth2_login_party(old(driver).store(), exchange.service, email->0@).0.id,
            oauth2_login_party(old(driver).store(), exchange.service, email->0@).1,
            access_token_expires,
            refresh_token_expires,
            t.data,
        ),
{
    let mut audit = exchange.audit;
    let res = oauth2_callback(
        driver,
        ctx,
        &mut audit,
        &exchange.service,
        exchange.service_id,
        email,
        access_token_expires,
        refresh_token_expires,
    );
    match finish(driver, ctx, &audit, res) {
        Ok(data) => Ok(AuthTokenResponse { data, audit: None }),
        Err(e) => Err(e),
    }
}

/// The query that carries the tokens of a login back to the service.
pub open spec fn redirect_query(token: UserToken) -> Seq<char> {
    "access_token="@ + token.access_token@ + "&refresh_token="@ + token.refresh_token@
}

/// Where the user is sent once logged in: the URL of the service with the
/// tokens in its query; `None` where the service's URL is none.
pub fn oauth2_redirect(service: &Service, token: &UserToken) -> (r: Option<String>)
    ensures
        opt_view(r) == url_with_query_text(service.url@, redirect_query(*token)),
{
    let mut query = String::from_str("access_token=");
    query.append(token.access_token.as_str());
    query.append("&refresh_token=");
    query.append(token.refresh_token.as_str());
    url_with_query(service.url.as_str(), query.as_str())
}

/// A login that another service started is refused, whatever else holds:
/// the user, the key and the store are not even looked at.
pub proof fn lemma_cross_tenant_login_is_refused(
    store: Store,
    ctx: Context,
    audit: AuditBuilder,
    service: Service,
    service_id: Id,
    email: Seq<char>,
    access_token_expires: i64,
    refresh_token_expires: i64,
)
    requires
        service.id != service_id,
    ensures
        oauth2_login_spec(
            store,
            ctx,
            audit,
            service,
            service_id,
            email,
            access_token_expires,
            refresh_token_expires,
        ) == (Outcome {
            failure: Some(MethodError::BadRequest(DriverError::CsrfServiceMismatch)),
            store,
            audit,
        }),
{
}

/// A callback that another service started is refused as a whole: the
/// caller is told `BadRequest`, whether or not the audit record can be
/// written, no token is issued, and what is recorded is that failure, under
/// the name of the callback.
pub proof fn lemma_cross_tenant_callback_is_refused(
    store: Store,
    ctx: Context,
    exchange: Oauth2Exchange,
    email: Seq<char>,
    access_token_expires: i64,
    refresh_token_expires: i64,
)
    requires
        exchange.service.id != exchange.service_id,
    ensures
        reported(
            oauth2_callback_spec(
                store,
                ctx,
                exchange,
                Some(email),
                access_token_expires,
                refresh_token_expires,
            ),
        ) == Some(MethodError::BadRequest(DriverError::CsrfServiceMismatch)),
        recorded(
            oauth2_callback_spec(
                store,
                ctx,
                exchange,
                Some(email),
                access_token_expires,
                refresh_token_expires,
            ),
            ctx.now,
        ) == store.audit_create(
            exchange.audit.own_request(
                None,
                crate::audit::AuditData::Failure(
                    MethodError::BadRequest(DriverError::CsrfServiceMismatch),
                ),
            ),
            ctx.now,
        ).1,
{
}

} // verus!
