//! The operations that check a second factor or an anti-replay token on
//! behalf of a service.

use vstd::prelude::*;
use crate::audit::{AuditBuilder, AuditMeta};
use crate::audit_type::AuditType;
use crate::auth;
use crate::context::Context;
use crate::csrf;
use crate::driver::Driver;
use crate::error::{DriverError, MethodError, MethodResult};
use crate::jwt::{string_to_uuid, uuid_parsed};
use crate::method::{
    custom_audit, custom_audit_id, custom_audit_spec, failure_of, finish, finish_err,
    key_service_authenticate, party, party_audit, party_by_id, recorded, recorded_err, rejected,
    reported, reported_err, service_of, Outcome,
};
use crate::model::{
    Csrf, Id, KeyType, KeyUpdate, KeyWithValue, Service, User, UserKey, DEFAULT_CSRF_EXPIRES_S,
};
use crate::token::revocation;
use crate::store::Store;
use crate::text::opt_view;

verus! {

/// A request to check a one-time password of a user.
#[derive(Debug)]
pub struct AuthTotpRequest {
    pub user_id: String,
    pub totp: String,
}

/// What a one-time password is checked against: the secret of the user's
/// key of that type.
#[derive(Debug)]
pub struct TotpChallenge {
    /// The actors collected so far, for the record of the outcome.
    pub audit: AuditBuilder,
    /// The value of the user's key.
    pub secret: String,
    /// The one-time password that was presented.
    pub code: String,
}

/// Who presents a one-time password: the service is authenticated, the text
/// names a user, who is enabled and holds a usable key for one-time passwords.
pub open spec fn totp_party(store: Store, auth: Option<Seq<char>>, req: AuthTotpRequest)
    -> MethodResult<(User, KeyWithValue)> {
    match service_of(store, auth) {
        Err(e) => Err(e),
        Ok(service) => match uuid_parsed(req.user_id@) {
            None => Err(MethodError::BadRequest(DriverError::UuidParse)),
            Some(id) => party(store, service.id, store.user_by_id(id), KeyType::Totp, true),
        },
    }
}

/// What the audit builder knows after the lookups of [`totp_party`].
pub open spec fn totp_audit(
    store: Store,
    auth: Option<Seq<char>>,
    req: AuthTotpRequest,
    audit: AuditBuilder,
) -> AuditBuilder {
    let known = auth::authenticate_audit(store, auth, audit);
    match service_of(store, auth) {
        Err(_) => known,
        Ok(service) => match uuid_parsed(req.user_id@) {
            None => known,
            Some(id) => party_audit(
                store,
                service.id,
                store.user_by_id(id),
                KeyType::Totp,
                true,
                known,
            ),
        },
    }
}

fn totp_inner<D: Driver>(
    driver: &D,
    audit: &mut AuditBuilder,
    auth: &Option<String>,
    req: &AuthTotpRequest,
) -> (r: MethodResult<(User, KeyWithValue)>)
    requires
        driver.store().wf(),
    ensures
        r == totp_party(driver.store(), opt_view(*auth), *req),
        *final(audit) == totp_audit(driver.store(), opt_view(*auth), *req, *old(audit)),
{
    let service = key_service_authenticate(driver, audit, auth)?;
    let id = match string_to_uuid(req.user_id.as_str()) {
        Some(id) => id,
        None => {
            return Err(MethodError::BadRequest(DriverError::UuidParse));
        },
    };
    party_by_id(driver, audit, &service, id, KeyType::Totp, true)
}

/// Finds the secret that a one-time password of a user is checked against.
/// A failure is recorded in the audit trail; the check itself is recorded
/// by [`totp_verify`].
pub fn totp_challenge<D: Driver>(
    driver: &mut D,
    ctx: &Context,
    audit_meta: AuditMeta,
    auth: Option<String>,
    req: AuthTotpRequest,
) -> (r: MethodResult<TotpChallenge>)
    requires
        old(driver).store().wf(),
    ensures
        final(driver).store().wf(),
        final(driver).store() == recorded_err(
            Outcome {
                failure: failure_of(totp_party(old(driver).store(), opt_view(auth), req)),
                store: old(driver).store(),
                audit: totp_audit(
                    old(driver).store(),
                    opt_view(auth),
                    req,
                    AuditBuilder::new_spec(audit_meta, AuditType::AuthTotp),
                ),
            },
            ctx.now,
        ),
        failure_of(r) == reported_err(
            Outcome {
                failure: failure_of(totp_party(old(driver).store(), opt_view(auth), req)),
                store: old(driver).store(),
                audit: totp_audit(
                    old(driver).store(),
                    opt_view(auth),
                    req,
                    AuditBuilder::new_spec(audit_meta, AuditType::AuthTotp),
                ),
            },
        ),
        r matches Ok(c) ==> c == (TotpChallenge {
            audit: totp_audit(
                old(driver).store(),
                opt_view(auth),
                req,
                AuditBuilder::new_spec(audit_meta, AuditType::AuthTotp),
            ),
            secret: totp_party(old(driver).store(), opt_view(auth), req)->Ok_0.1.value,
            code: req.totp,
        }),
{
    let mut audit = AuditBuilder::new(audit_meta, AuditType::AuthTotp);
    let res = totp_inner(driver, &mut audit, &auth, &req);
    match finish_err(driver, ctx, &audit, res) {
        Ok((_, key)) => Ok(TotpChallenge { audit, secret: key.value, code: req.totp }),
        Err(e) => Err(e),
    }
}

/// What the check of a one-time password comes to.
pub open spec fn totp_outcome(code_matches: bool) -> MethodResult<()> {
    if code_matches {
        Ok(())
    } else {
        Err(MethodError::BadRequest(DriverError::TotpInvalid))
    }
}

/// Concludes the check of a one-time password: `code_matches` tells whether
/// the password presented matched the secret of the challenge. The outcome
/// is recorded in the audit trail.
pub fn totp_verify<D: Driver>(
    driver: &mut D,
    ctx: &Context,
    challenge: TotpChallenge,
    code_matches: bool,
) -> (r: MethodResult<()>)
    requires
        old(driver).store().wf(),
    ensures
        final(driver).store().wf(),
        final(driver).store() == recorded(
            Outcome {
                failure: failure_of(totp_outcome(code_matches)),
                store: old(driver).store(),
                audit: challenge.audit,
            },
            ctx.now,
        ),
        failure_of(r) == reported(
            Outcome {
                failure: failure_of(totp_outcome(code_matches)),
                store: old(driver).store(),
                audit: challenge.audit,
            },
        ),
{
    let res = if code_matches {
        Ok(())
    } else {
        Err(MethodError::BadRequest(DriverError::TotpInvalid))
    };
    finish(driver, ctx, &challenge.audit, res)
}

/// A request to create an anti-replay token.
#[derive(Debug)]
pub struct AuthCsrfCreateRequest {
    pub expires_s: Option<i64>,
}

/// How long the token of a request lives, in seconds.
pub open spec fn csrf_expires(req: AuthCsrfCreateRequest) -> i64 {
    match req.expires_s {
        Some(n) => n,
        None => DEFAULT_CSRF_EXPIRES_S,
    }
}

/// What creating an anti-replay token does before its outcome is recorded:
/// the service is authenticated, and a single-use entry is created for it
/// under the context's fresh key and value.
pub open spec fn csrf_create_spec(
    store: Store,
    ctx: Context,
    audit: AuditBuilder,
    auth: Option<Seq<char>>,
    req: AuthCsrfCreateRequest,
) -> Outcome {
    let audit = auth::authenticate_audit(store, auth, audit);
    match service_of(store, auth) {
        Err(e) => Outcome { failure: Some(e), store, audit },
        Ok(service) => {
            let (made, after) = csrf::create_spec(
                store,
                service.id,
                ctx.csrf_key,
                ctx.csrf_value,
                csrf_expires(req),
                ctx,
            );
            Outcome {
                failure: match made {
                    Ok(_) => None,
                    Err(e) => Some(MethodError::rejected(e)),
                },
                store: after,
                audit,
            }
        },
    }
}

fn csrf_create_inner<D: Driver>(
    driver: &mut D,
    ctx: &Context,
    audit: &mut AuditBuilder,
    auth: &Option<String>,
    req: &AuthCsrfCreateRequest,
) -> (r: MethodResult<Csrf>)
    requires
        old(driver).store().wf(),
    ensures
        final(driver).store().wf(),
        (Outcome { failure: failure_of(r), store: final(driver).store(), audit: *final(audit) })
            == csrf_create_spec(old(driver).store(), *ctx, *old(audit), opt_view(*auth), *req),
        r matches Ok(c) ==> Ok::<Csrf, DriverError>(c) == csrf::create_spec(
            old(driver).store(),
            service_of(old(driver).store(), opt_view(*auth))->Ok_0.id,
            ctx.csrf_key,
            ctx.csrf_value,
            csrf_expires(*req),
            *ctx,
        ).0,
{
    let service = key_service_authenticate(driver, audit, auth)?;
    let expires_s = match req.expires_s {
        Some(n) => n,
        None => DEFAULT_CSRF_EXPIRES_S,
    };
    rejected(
        csrf::create(
            driver,
            ctx,
            &service,
            ctx.csrf_key.clone(),
            ctx.csrf_value.clone(),
            expires_s,
        ),
    )
}

/// Creates an anti-replay token for a service. Fails `Conflict` where the
/// fresh key is already in use. The outcome is recorded in the audit trail.
pub fn csrf_create<D: Driver>(
    driver: &mut D,
    ctx: &Context,
    audit_meta: AuditMeta,
    auth: Option<String>,
    req: AuthCsrfCreateRequest,
) -> (r: MethodResult<Csrf>)
    requires
        old(driver).store().wf(),
    ensures
        final(driver).store().wf(),
        final(driver).store() == recorded(
            csrf_create_spec(
                old(driver).store(),
                *ctx,
                AuditBuilder::new_spec(audit_meta, AuditType::AuthCsrfCreate),
                opt_view(auth),
                req,
            ),
            ctx.now,
        ),
        failure_of(r) == reported(
            csrf_create_spec(
                old(driver).store(),
                *ctx,
                AuditBuilder::new_spec(audit_meta, AuditType::AuthCsrfCreate),
                opt_view(auth),
                req,
            ),
        ),
        r matches Ok(c) ==> Ok::<Csrf, DriverError>(c) == csrf::create_spec(
            old(driver).store(),
            service_of(old(driver).store(), opt_view(auth))->Ok_0.id,
            ctx.csrf_key,
            ctx.csrf_value,
            csrf_expires(req),
            *ctx,
        ).0,
{
    let mut audit = AuditBuilder::new(audit_meta, AuditType::AuthCsrfCreate);
    let res = csrf_create_inner(driver, ctx, &mut audit, &auth, &req);
    finish(driver, ctx, &audit, res)
}

/// What redeeming an anti-replay token for a service yields and leaves in
/// the store.
pub open spec fn api_csrf_verify_spec(store: Store, service_id: u128, csrf_key: Seq<char>, now: i64)
    -> (MethodResult<()>, Store) {
    match csrf::verify_spec(store, service_id, csrf_key, now) {
        (Ok(_), s) => (Ok(()), s),
        (Err(e), s) => (Err(MethodError::BadRequest(e)), s),
    }
}

/// Redeems an anti-replay token for a service: consumes its entry, and
/// fails `BadRequest` where the entry is absent, expired or was read
/// before, and where it belongs to another service.
pub fn api_csrf_verify<D: Driver>(
    driver: &mut D,
    ctx: &Context,
    service: &Service,
    csrf_key: &str,
) -> (r: MethodResult<()>)
    requires
        old(driver).store().wf(),
    ensures
        final(driver).store().wf(),
        (r, final(driver).store()) == api_csrf_verify_spec(
            old(driver).store(),
            service.id,
            csrf_key@,
            ctx.now,
        ),
{
    match csrf::verify(driver, ctx, service, csrf_key) {
        Ok(_) => Ok(()),
        Err(e) => Err(MethodError::BadRequest(e)),
    }
}

/// A request to redeem an anti-replay token.
#[derive(Debug)]
pub struct AuthCsrfVerifyRequest {
    pub csrf: String,
    pub audit: Option<String>,
}

/// What redeeming an anti-replay token does before its outcome is recorded.
pub open spec fn csrf_verify_spec(
    store: Store,
    ctx: Context,
    audit: AuditBuilder,
    auth: Option<Seq<char>>,
    req: AuthCsrfVerifyRequest,
) -> Outcome {
    let audit = auth::authenticate_audit(store, auth, audit);
    match service_of(store, auth) {
        Err(e) => Outcome { failure: Some(e), store, audit },
        Ok(service) => {
            let (res, after) = api_csrf_verify_spec(store, service.id, req.csrf@, ctx.now);
            Outcome { failure: failure_of(res), store: after, audit }
        },
    }
}

fn csrf_verify_inner<D: Driver>(
    driver: &mut D,
    ctx: &Context,
    audit: &mut AuditBuilder,
    auth: &Option<String>,
    req: &AuthCsrfVerifyRequest,
) -> (r: MethodResult<()>)
    requires
        old(driver).store().wf(),
    ensures
        final(driver).store().wf(),
        (Outcome { failure: failure_of(r), store: final(driver).store(), audit: *final(audit) })
            == csrf_verify_spec(old(driver).store(), *ctx, *old(audit), opt_view(*auth), *req),
{
    let service = key_service_authenticate(driver, audit, auth)?;
    api_csrf_verify(driver, ctx, &service, req.csrf.as_str())
}

/// Redeems an anti-replay token for a service. The token is good for one
/// redemption. The outcome is recorded in the audit trail.
pub fn csrf_verify<D: Driver>(
    driver: &mut D,
    ctx: &Context,
    audit_meta: AuditMeta,
    auth: Option<String>,
    req: AuthCsrfVerifyRequest,
) -> (r: MethodResult<()>)
    requires
        old(driver).store().wf(),
    ensures
        final(driver).store().wf(),
        final(driver).store() == recorded(
            csrf_verify_spec(
                old(driver).store(),
                *ctx,
                AuditBuilder::new_spec(audit_meta, AuditType::AuthCsrfVerify),
                opt_view(auth),
                req,
            ),
            ctx.now,
        ),
        failure_of(r) == reported(
            csrf_verify_spec(
                old(driver).store(),
                *ctx,
                AuditBuilder::new_spec(audit_meta, AuditType::AuthCsrfVerify),
                opt_view(auth),
                req,
            ),
        ),
{
    let mut audit = AuditBuilder::new(audit_meta, AuditType::AuthCsrfVerify);
    let res = csrf_verify_inner(driver, ctx, &mut audit, &auth, &req);
    finish(driver, ctx, &audit, res)
}

/// A request that presents the value of a user's key, and may ask for an
/// audit record under a name of the caller's choice.
#[derive(Debug)]
pub struct AuthKeyRequest {
    pub key: String,
    pub audit: Option<String>,
}

/// The key of a user that a value stands for within a service: a key of
/// type `Key` that belongs to the service and to a user. A key of another
/// service reads as not found. Where `checked`, the key must be enabled and
/// not revoked, and its user must be found and enabled.
pub open spec fn user_key_of(store: Store, service: Service, value: Seq<char>, checked: bool)
    -> Result<KeyWithValue, DriverError> {
    match store.key_by_value(value) {
        None => Err(DriverError::KeyNotFound),
        Some(k) => if k.service_id != Some(service.id) || k.user_id is None {
            Err(DriverError::KeyNotFound)
        } else if k.type_ != KeyType::Key {
            Err(DriverError::KeyTypeMismatch)
        } else if checked && !k.is_enabled {
            Err(DriverError::KeyDisabled)
        } else if checked && k.is_revoked {
            Err(DriverError::KeyRevoked)
        } else if checked {
            match auth::usable_user(store.user_by_id(k.user_id->0), true) {
                Err(e) => Err(e),
                Ok(_) => Ok(k),
            }
        } else {
            Ok(k)
        },
    }
}

/// What the audit builder knows once a user's key was looked up by value:
/// the key and its user, where the key belongs to the service and to a user.
pub open spec fn user_key_audit(store: Store, service: Service, value: Seq<char>, audit: AuditBuilder)
    -> AuditBuilder {
    match store.key_by_value(value) {
        None => audit,
        Some(k) => if k.service_id != Some(service.id) || k.user_id is None {
            audit
        } else {
            AuditBuilder { user: k.user_id, user_key: Some(k.id), ..audit }
        },
    }
}

fn user_key_read<D: Driver>(
    driver: &D,
    audit: &mut AuditBuilder,
    service: &Service,
    value: &str,
    checked: bool,
) -> (r: MethodResult<KeyWithValue>)
    requires
        driver.store().wf(),
    ensures
        r == (match user_key_of(driver.store(), *service, value@, checked) {
            Ok(k) => Ok(k),
            Err(e) => Err(MethodError::BadRequest(e)),
        }),
        *final(audit) == user_key_audit(driver.store(), *service, value@, *old(audit)),
        r matches Ok(k) ==> k.user_id is Some,
{
    let k = match driver.key_read_value(value) {
        Some(k) => k,
        None => {
            return Err(MethodError::BadRequest(DriverError::KeyNotFound));
        },
    };
    let user_id = match (k.service_id, k.user_id) {
        (Some(sid), Some(uid)) => {
            if sid != service.id {
                return Err(MethodError::BadRequest(DriverError::KeyNotFound));
            }
            uid
        },
        _ => {
            return Err(MethodError::BadRequest(DriverError::KeyNotFound));
        },
    };
    audit.user = Some(user_id);
    audit.user_key = Some(k.id);
    if k.type_ != KeyType::Key {
        return Err(MethodError::BadRequest(DriverError::KeyTypeMismatch));
    }
    if checked {
        if !k.is_enabled {
            return Err(MethodError::BadRequest(DriverError::KeyDisabled));
        }
        if k.is_revoked {
            return Err(MethodError::BadRequest(DriverError::KeyRevoked));
        }
        match driver.user_read_id(user_id) {
            None => {
                return Err(MethodError::BadRequest(DriverError::UserNotFound));
            },
            Some(u) => {
                if !u.is_enabled {
                    return Err(MethodError::BadRequest(DriverError::UserDisabled));
                }
            },
        }
    }
    Ok(k)
}

/// What verifying a user's key does before its outcome is recorded.
pub open spec fn key_verify_spec(
    store: Store,
    ctx: Context,
    audit: AuditBuilder,
    auth: Option<Seq<char>>,
    req: AuthKeyRequest,
) -> Outcome {
    let known = auth::authenticate_audit(store, auth, audit);
    match service_of(store, auth) {
        Err(e) => Outcome { failure: Some(e), store, audit: known },
        Ok(service) => {
            let audit = user_key_audit(store, service, req.key@, known);
            match user_key_of(store, service, req.key@, true) {
                Err(e) => Outcome { failure: Some(MethodError::BadRequest(e)), store, audit },
                Ok(_) => {
                    let (failure, after) = custom_audit_spec(store, audit, req.audit, ctx.now);
                    Outcome { failure, store: after, audit }
                },
            }
        },
    }
}

fn key_verify_inner<D: Driver>(
    driver: &mut D,
    ctx: &Context,
    audit: &mut AuditBuilder,
    auth: &Option<String>,
    req: AuthKeyRequest,
) -> (r: MethodResult<UserKey>)
    requires
        old(driver).store().wf(),
    ensures
        final(driver).store().wf(),
        (Outcome { failure: failure_of(r), store: final(driver).store(), audit: *final(audit) })
            == key_verify_spec(old(driver).store(), *ctx, *old(audit), opt_view(*auth), req),
        r matches Ok(uk) ==> uk.key == req.key && Some(uk.user_id) == user_key_of(
            old(driver).store(),
            service_of(old(driver).store(), opt_view(*auth))->Ok_0,
            req.key@,
            true,
        )->Ok_0.user_id,
{
    let service = key_service_authenticate(driver, audit, auth)?;
    let k = user_key_read(driver, audit, &service, req.key.as_str(), true)?;
    custom_audit(driver, ctx, audit, req.audit)?;
    match k.user_id {
        Some(user_id) => Ok(UserKey { user_id, key: req.key }),
        None => Err(MethodError::BadRequest(DriverError::KeyNotFound)),
    }
}

/// Verifies the key of a user for a service: the value must be that of a
/// usable key of type `Key` of an enabled user of the service. The outcome
/// is recorded in the audit trail.
pub fn key_verify<D: Driver>(
    driver: &mut D,
    ctx: &Context,
    audit_meta: AuditMeta,
    auth: Option<String>,
    req: AuthKeyRequest,
) -> (r: MethodResult<UserKey>)
    requires
        old(driver).store().wf(),
    ensures
        final(driver).store().wf(),
        final(driver).store() == recorded(
            key_verify_spec(
                old(driver).store(),
                *ctx,
                AuditBuilder::new_spec(audit_meta, AuditType::AuthKeyVerify),
                opt_view(auth),
                req,
            ),
            ctx.now,
        ),
        failure_of(r) == reported(
            key_verify_spec(
                old(driver).store(),
                *ctx,
                AuditBuilder::new_spec(audit_meta, AuditType::AuthKeyVerify),
                opt_view(auth),
                req,
            ),
        ),
        r matches Ok(uk) ==> uk.key == req.key && Some(uk.user_id) == user_key_of(
            old(driver).store(),
            service_of(old(driver).store(), opt_view(auth))->Ok_0,
            req.key@,
            true,
        )->Ok_0.user_id,
{
    let mut audit = AuditBuilder::new(audit_meta, AuditType::AuthKeyVerify);
    let res = key_verify_inner(driver, ctx, &mut audit, &auth, req);
    finish(driver, ctx, &audit, res)
}

/// What revoking a user's key does before its outcome is recorded: the key
/// is found, usable or not, and disabled and revoked for good.
pub open spec fn key_revoke_spec(
    store: Store,
    ctx: Context,
    audit: AuditBuilder,
    auth: Option<Seq<char>>,
    req: AuthKeyRequest,
) -> Outcome {
    let known = auth::authenticate_audit(store, auth, audit);
    match service_of(store, auth) {
        Err(e) => Outcome { failure: Some(e), store, audit: known },
        Ok(service) => {
            let audit = user_key_audit(store, service, req.key@, known);
            match user_key_of(store, service, req.key@, false) {
                Err(e) => Outcome { failure: Some(MethodError::BadRequest(e)), store, audit },
                Ok(k) => match store.key_update(k.id, revocation(), ctx.now) {
                    (Err(e), s) => Outcome {
                        failure: Some(MethodError::rejected(e)),
                        store: s,
                        audit,
                    },
                    (Ok(_), s) => {
                        let (failure, after) = custom_audit_spec(s, audit, req.audit, ctx.now);
                        Outcome { failure, store: after, audit }
                    },
                },
            }
        },
    }
}

fn key_revoke_inner<D: Driver>(
    driver: &mut D,
    ctx: &Context,
    audit: &mut AuditBuilder,
    auth: &Option<String>,
    req: AuthKeyRequest,
) -> (r: MethodResult<Option<Id>>)
    requires
        old(driver).store().wf(),
    ensures
        final(driver).store().wf(),
        (Outcome { failure: failure_of(r), store: final(driver).store(), audit: *final(audit) })
            == key_revoke_spec(old(driver).store(), *ctx, *old(audit), opt_view(*auth), req),
        r matches Ok(id) ==> id == custom_audit_id(old(driver).store(), req.audit),
{
    let service = key_service_authenticate(driver, audit, auth)?;
    let k = user_key_read(driver, audit, &service, req.key.as_str(), false)?;
    let update = KeyUpdate { is_enabled: Some(false), is_revoked: Some(true), name: None };
    rejected(driver.key_update(k.id, update, ctx.now))?;
    custom_audit(driver, ctx, audit, req.audit)
}

/// Revokes the key of a user for a service: the key is disabled and
/// revoked, and authenticates nobody afterwards. The outcome is recorded in
/// the audit trail.
pub fn key_revoke<D: Driver>(
    driver: &mut D,
    ctx: &Context,
    audit_meta: AuditMeta,
    auth: Option<String>,
    req: AuthKeyRequest,
) -> (r: MethodResult<Option<Id>>)
    requires
        old(driver).store().wf(),
    ensures
        final(driver).store().wf(),
        final(driver).store() == recorded(
            key_revoke_spec(
                old(driver).store(),
                *ctx,
                AuditBuilder::new_spec(audit_meta, AuditType::AuthKeyRevoke),
                opt_view(auth),
                req,
            ),
            ctx.now,
        ),
        failure_of(r) == reported(
            key_revoke_spec(
                old(driver).store(),
                *ctx,
                AuditBuilder::new_spec(audit_meta, AuditType::AuthKeyRevoke),
                opt_view(auth),
                req,
            ),
        ),
        r matches Ok(id) ==> id == custom_audit_id(old(driver).store(), req.audit),
{
    let mut audit = AuditBuilder::new(audit_meta, AuditType::AuthKeyRevoke);
    let res = key_revoke_inner(driver, ctx, &mut audit, &auth, req);
    finish(driver, ctx, &audit, res)
}

/// With a revoked key no anti-replay token is created: the request fails
/// `Unauthorised`, whether the key is enabled or not, and the single-use
/// entries stay as they were.
pub proof fn lemma_csrf_create_with_revoked_key(
    store: Store,
    ctx: Context,
    audit: AuditBuilder,
    key_value: Seq<char>,
    req: AuthCsrfCreateRequest,
)
    requires
        store.key_by_value(key_value) matches Some(k) && k.is_revoked,
    ensures
        reported(csrf_create_spec(store, ctx, audit, Some(key_value), req)) matches Some(
            MethodError::Unauthorised(_),
        ),
        recorded(csrf_create_spec(store, ctx, audit, Some(key_value), req), ctx.now).csrf
            == store.csrf,
{
    auth::lemma_revoked_key_is_refused(store, key_value, None);
}

} // verus!
