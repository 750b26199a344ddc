//! The operations on issued tokens: verifying an access token, refreshing a
//! pair of tokens, and revoking the key that tokens were issued against.

use vstd::prelude::*;
use crate::audit::{AuditBuilder, AuditMeta};
use crate::audit_type::AuditType;
use crate::context::Context;
use crate::csrf;
use crate::driver::Driver;
use crate::error::{DriverError, MethodError, MethodResult};
use crate::jwt::{
    decode_any_spec, decode_csrf_spec, decode_spec, user_token_error, user_token_issued,
    user_token_store, Jwt, TokenKind,
};
use crate::local::{
    redeem, redeem_spec, token_audit, token_party, token_party_read, AuthTokenRequest, Party,
};
use crate::method::{
    custom_audit, custom_audit_id, custom_audit_spec, failure_of, finish, recorded, rejected,
    reported, Outcome,
};
use crate::model::{Id, KeyUpdate, User, UserToken};
use crate::local::{login_party, login_spec, AuthLoginRequest};
use crate::jwt::lemma_decode_encoded;
use crate::store::{user_has_email, user_has_id, Store};
use crate::text::{first_match, lemma_first_match, opt_view};

verus! {

/// What verifying an access token does before its outcome is recorded: the
/// party that the token names is found, the token is checked, and the audit
/// record that the caller asked for is written.
pub open spec fn verify_spec(
    store: Store,
    ctx: Context,
    audit: AuditBuilder,
    auth: Option<Seq<char>>,
    req: AuthTokenRequest,
) -> Outcome {
    let audit = token_audit(store, auth, req.token@, true, false, audit);
    match token_party(store, auth, req.token@, true, false) {
        Err(e) => Outcome { failure: Some(e), store, audit },
        Ok(p) => match decode_spec(
            ctx.now,
            TokenKind::Access,
            p.service.id,
            p.user.id,
            p.key,
            req.token@,
        ) {
            Err(e) => Outcome { failure: Some(MethodError::BadRequest(e)), store, audit },
            Ok(_) => {
                let (failure, after) = custom_audit_spec(store, audit, req.audit, ctx.now);
                Outcome { failure, store: after, audit }
            },
        },
    }
}

/// A verified access token: whose it is, and the audit record that the
/// caller asked for.
#[derive(Debug)]
pub struct TokenVerified {
    pub user: User,
    pub audit: Option<Id>,
}

fn verify_inner<D: Driver>(
    driver: &mut D,
    ctx: &Context,
    audit: &mut AuditBuilder,
    auth: &Option<String>,
    req: AuthTokenRequest,
) -> (r: MethodResult<TokenVerified>)
    requires
        old(driver).store().wf(),
    ensures
        final(driver).store().wf(),
        (Outcome { failure: failure_of(r), store: final(driver).store(), audit: *final(audit) })
            == verify_spec(old(driver).store(), *ctx, *old(audit), opt_view(*auth), req),
        r matches Ok(v) ==> token_party(old(driver).store(), opt_view(*auth), req.token@, true, false)
            matches Ok(p) && v.user == p.user && v.audit == custom_audit_id(
            old(driver).store(),
            req.audit,
        ),
{
    let p = token_party_read(driver, audit, auth, req.token.as_str(), true, false)?;
    match Jwt::decode(ctx, TokenKind::Access, &p.service, &p.user, &p.key, req.token.as_str()) {
        Err(e) => {
            return Err(MethodError::BadRequest(e));
        },
        Ok(_) => {},
    }
    let id = custom_audit(driver, ctx, audit, req.audit)?;
    Ok(TokenVerified { user: p.user, audit: id })
}

/// Verifies an access token: finds the user and key it names, checks its
/// signature, kind, claims and expiry, and returns the user. The store is
/// left as it is but for the audit trail.
pub fn token_verify<D: Driver>(
    driver: &mut D,
    ctx: &Context,
    audit_meta: AuditMeta,
    auth: Option<String>,
    req: AuthTokenRequest,
) -> (r: MethodResult<TokenVerified>)
    requires
        old(driver).store().wf(),
    ensures
        final(driver).store().wf(),
        final(driver).store() == recorded(
            verify_spec(
                old(driver).store(),
                *ctx,
                AuditBuilder::new_spec(audit_meta, AuditType::AuthTokenVerify),
                opt_view(auth),
                req,
            ),
            ctx.now,
        ),
        failure_of(r) == reported(
            verify_spec(
                old(driver).store(),
                *ctx,
                AuditBuilder::new_spec(audit_meta, AuditType::AuthTokenVerify),
                opt_view(auth),
                req,
            ),
        ),
        r matches Ok(v) ==> token_party(old(driver).store(), opt_view(auth), req.token@, true, false)
            matches Ok(p) && v.user == p.user && v.audit == custom_audit_id(
            old(driver).store(),
            req.audit,
        ),
{
    let mut audit = AuditBuilder::new(audit_meta, AuditType::AuthTokenVerify);
    let res = verify_inner(driver, ctx, &mut audit, &auth, req);
    finish(driver, ctx, &audit, res)
}

/// What refreshing does before its outcome is recorded: the refresh token
/// is redeemed, which can be done once, then a new pair of tokens is issued,
/// and the audit record that the caller asked for is written.
pub open spec fn refresh_spec(
    store: Store,
    ctx: Context,
    audit: AuditBuilder,
    auth: Option<Seq<char>>,
    req: AuthTokenRequest,
    access_token_expires: i64,
    refresh_token_expires: i64,
) -> Outcome {
    let audit = token_audit(store, auth, req.token@, true, false, audit);
    match token_party(store, auth, req.token@, true, false) {
        Err(e) => Outcome { failure: Some(e), store, audit },
        Ok(p) => match redeem_spec(store, ctx.now, TokenKind::Refresh, p, req.token@) {
            (Err(e), s) => Outcome { failure: Some(e), store: s, audit },
            (Ok(_), s) => match user_token_error(
                s,
                ctx,
                p.service.id,
                p.user.id,
                p.key,
                access_token_expires,
                refresh_token_expires,
            ) {
                Some(e) => Outcome {
                    failure: Some(MethodError::rejected(e)),
                    store: user_token_store(
                        s,
                        ctx,
                        p.service.id,
                        p.user.id,
                        p.key,
                        access_token_expires,
                        refresh_token_expires,
                    ),
                    audit,
                },
                None => {
                    let (failure, after) = custom_audit_spec(
                        user_token_store(
                            s,
                            ctx,
                            p.service.id,
                            p.user.id,
                            p.key,
                            access_token_expires,
                            refresh_token_expires,
                        ),
                        audit,
                        req.audit,
                        ctx.now,
                    );
                    Outcome { failure, store: after, audit }
                },
            },
        },
    }
}

fn refresh_inner<D: Driver>(
    driver: &mut D,
    ctx: &Context,
    audit: &mut AuditBuilder,
    auth: &Option<String>,
    req: AuthTokenRequest,
    access_token_expires: i64,
    refresh_token_expires: i64,
) -> (r: MethodResult<UserToken>)
    requires
        old(driver).store().wf(),
    ensures
        final(driver).store().wf(),
        (Outcome { failure: failure_of(r), store: final(driver).store(), audit: *final(audit) })
            == refresh_spec(
            old(driver).store(),
            *ctx,
            *old(audit),
            opt_view(*auth),
            req,
            access_token_expires,
            refresh_token_expires,
        ),
        r matches Ok(t) ==> token_party(old(driver).store(), opt_view(*auth), req.token@, true, false)
            matches Ok(p) && user_token_issued(
            *ctx,
            p.service.id,
            p.user.id,
            p.key,
            access_token_expires,
            refresh_token_expires,
            t,
        ),
{
    let p = token_party_read(driver, audit, auth, req.token.as_str(), true, false)?;
    redeem(driver, ctx, TokenKind::Refresh, &p, req.token.as_str())?;
    let token = rejected(
        Jwt::encode_user_token(
            driver,
            ctx,
            &p.service,
            &p.user,
            &p.key,
            access_token_expires,
            refresh_token_expires,
        ),
    )?;
    custom_audit(driver, ctx, audit, req.audit)?;
    Ok(token)
}

/// Refreshes a pair of tokens: redeems the refresh token and issues a new
/// access token and a new refresh token. The refresh token that was
/// presented cannot be used again: its single-use entry is gone, although
/// its signature still verifies.
pub fn token_refresh<D: Driver>(
    driver: &mut D,
    ctx: &Context,
    audit_meta: AuditMeta,
    auth: Option<String>,
    req: AuthTokenRequest,
    access_token_expires: i64,
    refresh_token_expires: i64,
) -> (r: MethodResult<UserToken>)
    requires
        old(driver).store().wf(),
    ensures
        final(driver).store().wf(),
        final(driver).store() == recorded(
            refresh_spec(
                old(driver).store(),
                *ctx,
                AuditBuilder::new_spec(audit_meta, AuditType::AuthTokenRefresh),
                opt_view(auth),
                req,
                access_token_expires,
                refresh_token_expires,
            ),
            ctx.now,
        ),
        failure_of(r) == reported(
            refresh_spec(
                old(driver).store(),
                *ctx,
                AuditBuilder::new_spec(audit_meta, AuditType::AuthTokenRefresh),
                opt_view(auth),
                req,
                access_token_expires,
                refresh_token_expires,
            ),
        ),
        r matches Ok(t) ==> token_party(old(driver).store(), opt_view(auth), req.token@, true, false)
            matches Ok(p) && user_token_issued(
            *ctx,
            p.service.id,
            p.user.id,
            p.key,
            access_token_expires,
            refresh_token_expires,
            t,
        ),
{
    let mut audit = AuditBuilder::new(audit_meta, AuditType::AuthTokenRefresh);
    let res = refresh_inner(
        driver,
        ctx,
        &mut audit,
        &auth,
        req,
        access_token_expires,
        refresh_token_expires,
    );
    finish(driver, ctx, &audit, res)
}

/// The change that revokes a key for good.
pub open spec fn revocation() -> KeyUpdate {
    KeyUpdate { is_enabled: Some(false), is_revoked: Some(true), name: None }
}

/// The store without the single-use entry that a token is bound to, if it
/// is bound to one.
pub open spec fn unbound(store: Store, csrf_key: Option<Seq<char>>, now: i64) -> Store {
    match csrf_key {
        Some(k) => store.csrf_consume(k, now).1,
        None => store,
    }
}

/// What revoking a token does before its outcome is recorded: the party
/// that the token names is found, usable or not; the token is checked,
/// whatever its kind and age; its single-use entry is consumed; the key it
/// was issued against is disabled and revoked; and the audit record that
/// the caller asked for is written.
pub open spec fn revoke_spec(
    store: Store,
    ctx: Context,
    audit: AuditBuilder,
    auth: Option<Seq<char>>,
    req: AuthTokenRequest,
) -> Outcome {
    let audit = token_audit(store, auth, req.token@, false, false, audit);
    match token_party(store, auth, req.token@, false, false) {
        Err(e) => Outcome { failure: Some(e), store, audit },
        Ok(p) => match decode_any_spec(p.service.id, p.user.id, p.key, req.token@) {
            Err(e) => Outcome { failure: Some(MethodError::BadRequest(e)), store, audit },
            Ok(csrf_key) => match unbound(store, csrf_key, ctx.now).key_update(
                p.key.id,
                revocation(),
                ctx.now,
            ) {
                (Err(e), s) => Outcome { failure: Some(MethodError::rejected(e)), store: s, audit },
                (Ok(_), s) => {
                    let (failure, after) = custom_audit_spec(s, audit, req.audit, ctx.now);
                    Outcome { failure, store: after, audit }
                },
            },
        },
    }
}

fn revoke_inner<D: Driver>(
    driver: &mut D,
    ctx: &Context,
    audit: &mut AuditBuilder,
    auth: &Option<String>,
    req: AuthTokenRequest,
) -> (r: MethodResult<Option<Id>>)
    requires
        old(driver).store().wf(),
    ensures
        final(driver).store().wf(),
        (Outcome { failure: failure_of(r), store: final(driver).store(), audit: *final(audit) })
            == revoke_spec(old(driver).store(), *ctx, *old(audit), opt_view(*auth), req),
        r matches Ok(id) ==> id == custom_audit_id(old(driver).store(), req.audit),
{
    let p = token_party_read(driver, audit, auth, req.token.as_str(), false, false)?;
    let csrf_key = match Jwt::decode_any(&p.service, &p.user, &p.key, req.token.as_str()) {
        Ok(k) => k,
        Err(e) => {
            return Err(MethodError::BadRequest(e));
        },
    };
    if let Some(k) = csrf_key {
        csrf::consume(driver, ctx, k.as_str());
    }
    let update = KeyUpdate { is_enabled: Some(false), is_revoked: Some(true), name: None };
    rejected(driver.key_update(p.key.id, update, ctx.now))?;
    custom_audit(driver, ctx, audit, req.audit)
}

/// Revokes a token: disables and revokes the key it was issued against, so
/// that no token of that key is accepted any more, and consumes the token's
/// single-use entry.
pub fn token_revoke<D: Driver>(
    driver: &mut D,
    ctx: &Context,
    audit_meta: AuditMeta,
    auth: Option<String>,
    req: AuthTokenRequest,
) -> (r: MethodResult<Option<Id>>)
    requires
        old(driver).store().wf(),
    ensures
        final(driver).store().wf(),
        final(driver).store() == recorded(
            revoke_spec(
                old(driver).store(),
                *ctx,
                AuditBuilder::new_spec(audit_meta, AuditType::AuthTokenRevoke),
                opt_view(auth),
                req,
            ),
            ctx.now,
        ),
        failure_of(r) == reported(
            revoke_spec(
                old(driver).store(),
                *ctx,
                AuditBuilder::new_spec(audit_meta, AuditType::AuthTokenRevoke),
                opt_view(auth),
                req,
            ),
        ),
        r matches Ok(id) ==> id == custom_audit_id(old(driver).store(), req.audit),
{
    let mut audit = AuditBuilder::new(audit_meta, AuditType::AuthTokenRevoke);
    let res = revoke_inner(driver, ctx, &mut audit, &auth, req);
    finish(driver, ctx, &audit, res)
}

/// A refresh token is good for one refresh. Once a refresh has succeeded,
/// a second refresh with the same token fails `BadRequest`, at whatever time
/// and with whatever fresh secrets it is tried, provided the key that the
/// first refresh drew for its new single-use entry is not the key of the
/// entry it consumed.
pub proof fn lemma_refresh_once(
    store: Store,
    first: Context,
    second: Context,
    first_audit: AuditBuilder,
    second_audit: AuditBuilder,
    auth: Option<Seq<char>>,
    req: AuthTokenRequest,
    first_access_expires: i64,
    first_refresh_expires: i64,
    second_access_expires: i64,
    second_refresh_expires: i64,
)
    requires
        store.wf(),
        refresh_spec(
            store,
            first,
            first_audit,
            auth,
            req,
            first_access_expires,
            first_refresh_expires,
        ).failure is None,
        token_party(store, auth, req.token@, true, false) matches Ok(p) && decode_csrf_spec(
            first.now,
            TokenKind::Refresh,
            p.service.id,
            p.user.id,
            p.key,
            req.token@,
        ) != Ok::<Seq<char>, DriverError>(first.csrf_key@),
    ensures
        refresh_spec(
            recorded(
                refresh_spec(
                    store,
                    first,
                    first_audit,
                    auth,
                    req,
                    first_access_expires,
                    first_refresh_expires,
                ),
                first.now,
            ),
            second,
            second_audit,
            auth,
            req,
            second_access_expires,
            second_refresh_expires,
        ).failure matches Some(MethodError::BadRequest(_)),
{
    let o = refresh_spec(
        store,
        first,
        first_audit,
        auth,
        req,
        first_access_expires,
        first_refresh_expires,
    );
    let after = recorded(o, first.now);
    let p = token_party(store, auth, req.token@, true, false)->Ok_0;
    let k = decode_csrf_spec(
        first.now,
        TokenKind::Refresh,
        p.service.id,
        p.user.id,
        p.key,
        req.token@,
    )->Ok_0;
    let s1 = redeem_spec(store, first.now, TokenKind::Refresh, p, req.token@).1;
    assert(s1 == store.without_csrf(k));
    store.lemma_without_csrf_wf(k);
    let s2 = user_token_store(
        s1,
        first,
        p.service.id,
        p.user.id,
        p.key,
        first_access_expires,
        first_refresh_expires,
    );
    let create = crate::model::CsrfCreate {
        key: first.csrf_key,
        value: first.csrf_value,
        ttl: first.after(first_refresh_expires)->0,
        service_id: p.service.id,
    };
    assert(s2 == s1.csrf_create(create, first.now).1);
    csrf::lemma_create_keeps_others(s1, create, first.now, k);
    assert(s2.csrf_entry(k) is None);
    assert(after.csrf == s2.csrf);
    assert(after.services == store.services);
    assert(after.keys == store.keys);
    assert(after.users == store.users);
    assert(after.csrf_entry(k) is None);
    assert(token_party(after, auth, req.token@, true, false) == Ok::<Party, MethodError>(p));
}

/// The access token of a login verifies: once a login has succeeded, the
/// same service that presents the access token up to its last second, and
/// asks for no audit record of its own, is told whose token it is.
pub proof fn lemma_login_token_verifies(
    store: Store,
    ctx: Context,
    audit: AuditBuilder,
    auth: Option<Seq<char>>,
    req: AuthLoginRequest,
    access_token_expires: i64,
    refresh_token_expires: i64,
    token: UserToken,
    second: Context,
    second_audit: AuditBuilder,
)
    requires
        store.wf(),
        login_spec(store, ctx, audit, auth, req, access_token_expires, refresh_token_expires).failure
            is None,
        login_party(store, auth, req) matches Ok(p) && user_token_issued(
            ctx,
            p.service.id,
            p.user.id,
            p.key,
            access_token_expires,
            refresh_token_expires,
            token,
        ),
        second.now <= token.access_token_expires,
    ensures
        verify_spec(
            recorded(
                login_spec(
                    store,
                    ctx,
                    audit,
                    auth,
                    req,
                    access_token_expires,
                    refresh_token_expires,
                ),
                ctx.now,
            ),
            second,
            second_audit,
            auth,
            AuthTokenRequest { token: token.access_token, audit: None },
        ).failure is None,
        token_party(
            recorded(
                login_spec(
                    store,
                    ctx,
                    audit,
                    auth,
                    req,
                    access_token_expires,
                    refresh_token_expires,
                ),
                ctx.now,
            ),
            auth,
            token.access_token@,
            true,
            false,
        ) == Ok::<Party, MethodError>(login_party(store, auth, req)->Ok_0),
{
    let p = login_party(store, auth, req)->Ok_0;
    let after = recorded(
        login_spec(store, ctx, audit, auth, req, access_token_expires, refresh_token_expires),
        ctx.now,
    );
    assert(after.services == store.services);
    assert(after.keys == store.keys);
    assert(after.users == store.users);
    lemma_decode_encoded(
        ctx,
        TokenKind::Access,
        p.service.id,
        p.user.id,
        p.key,
        access_token_expires,
        token.access_token@,
        token.access_token_expires,
        second.now,
    );
    lemma_first_match(store.users, user_has_email(req.email@));
    lemma_first_match(store.users, user_has_id(p.user.id));
    let i = first_match(store.users, user_has_email(req.email@))->0;
    assert(store.users[i] == p.user);
    assert(user_has_id(p.user.id)(store.users[i]));
    assert(store.user_by_id(p.user.id) == Some(p.user));
}

/// The refresh token of a login can be refreshed: once a login has
/// succeeded, the same service that presents the refresh token up to its
/// last second finds the party that logged in and redeems the token, so that
/// the refresh fails only where the new pair of tokens cannot be issued.
pub proof fn lemma_login_then_refresh(
    store: Store,
    ctx: Context,
    audit: AuditBuilder,
    auth: Option<Seq<char>>,
    req: AuthLoginRequest,
    access_token_expires: i64,
    refresh_token_expires: i64,
    token: UserToken,
    second: Context,
)
    requires
        store.wf(),
        login_spec(store, ctx, audit, auth, req, access_token_expires, refresh_token_expires).failure
            is None,
        login_party(store, auth, req) matches Ok(p) && user_token_issued(
            ctx,
            p.service.id,
            p.user.id,
            p.key,
            access_token_expires,
            refresh_token_expires,
            token,
        ),
        second.now <= token.refresh_token_expires,
    ensures
        token_party(
            recorded(
                login_spec(
                    store,
                    ctx,
                    audit,
                    auth,
                    req,
                    access_token_expires,
                    refresh_token_expires,
                ),
                ctx.now,
            ),
            auth,
            token.refresh_token@,
            true,
            false,
        ) == Ok::<Party, MethodError>(login_party(store, auth, req)->Ok_0),
        redeem_spec(
            recorded(
                login_spec(
                    store,
                    ctx,
                    audit,
                    auth,
                    req,
                    access_token_expires,
                    refresh_token_expires,
                ),
                ctx.now,
            ),
            second.now,
            TokenKind::Refresh,
            login_party(store, auth, req)->Ok_0,
            token.refresh_token@,
        ).0 is Ok,
{
    let p = login_party(store, auth, req)->Ok_0;
    let o = login_spec(store, ctx, audit, auth, req, access_token_expires, refresh_token_expires);
    let after = recorded(o, ctx.now);
    assert(after.services == store.services);
    assert(after.keys == store.keys);
    assert(after.users == store.users);
    assert(after.csrf == o.store.csrf);
    lemma_first_match(store.users, user_has_email(req.email@));
    lemma_first_match(store.users, user_has_id(p.user.id));
    let i = first_match(store.users, user_has_email(req.email@))->0;
    assert(store.users[i] == p.user);
    assert(user_has_id(p.user.id)(store.users[i]));
    assert(store.user_by_id(p.user.id) == Some(p.user));
    let create = crate::model::CsrfCreate {
        key: ctx.csrf_key,
        value: ctx.csrf_value,
        ttl: ctx.after(refresh_token_expires)->0,
        service_id: p.service.id,
    };
    assert(o.store == store.csrf_create(create, ctx.now).1);
    csrf::lemma_create_reads_back(store, create, ctx.now);
    assert(after.csrf_entry(ctx.csrf_key@) == Some(crate::model::Csrf::created(create, ctx.now)));
    store.lemma_csrf_create_wf(create, ctx.now);
    assert(after.csrf_live(ctx.csrf_key@, second.now) is Some);
    lemma_decode_encoded(
        ctx,
        TokenKind::Refresh,
        p.service.id,
        p.user.id,
        p.key,
        refresh_token_expires,
        token.refresh_token@,
        token.refresh_token_expires,
        second.now,
    );
}

/// The access token of a refresh verifies: once a refresh has succeeded,
/// the same service that presents the new access token up to its last
/// second, and asks for no audit record of its own, is told whose token it
/// is.
pub proof fn lemma_refresh_token_verifies(
    store: Store,
    ctx: Context,
    audit: AuditBuilder,
    auth: Option<Seq<char>>,
    req: AuthTokenRequest,
    access_token_expires: i64,
    refresh_token_expires: i64,
    token: UserToken,
    second: Context,
    second_audit: AuditBuilder,
)
    requires
        store.wf(),
        refresh_spec(store, ctx, audit, auth, req, access_token_expires, refresh_token_expires).failure
            is None,
        token_party(store, auth, req.token@, true, false) matches Ok(p) && user_token_issued(
            ctx,
            p.service.id,
            p.user.id,
            p.key,
            access_token_expires,
            refresh_token_expires,
            token,
        ),
        second.now <= token.access_token_expires,
    ensures
        verify_spec(
            recorded(
                refresh_spec(
                    store,
                    ctx,
                    audit,
                    auth,
                    req,
                    access_token_expires,
                    refresh_token_expires,
                ),
                ctx.now,
            ),
            second,
            second_audit,
            auth,
            AuthTokenRequest { token: token.access_token, audit: None },
        ).failure is None,
{
    let p = token_party(store, auth, req.token@, true, false)->Ok_0;
    let after = recorded(
        refresh_spec(store, ctx, audit, auth, req, access_token_expires, refresh_token_expires),
        ctx.now,
    );
    assert(after.services == store.services);
    assert(after.keys == store.keys);
    assert(after.users == store.users);
    crate::local::lemma_token_party_user(store, auth, req.token@, true, false);
    lemma_first_match(store.users, user_has_id(p.user.id));
    lemma_decode_encoded(
        ctx,
        TokenKind::Access,
        p.service.id,
        p.user.id,
        p.key,
        access_token_expires,
        token.access_token@,
        token.access_token_expires,
        second.now,
    );
    assert(token_party(after, auth, token.access_token@, true, false) == Ok::<Party, MethodError>(p));
}

} // verus!
