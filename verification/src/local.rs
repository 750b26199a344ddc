//! The operations on local accounts: login, registration, password reset,
//! and the changes of email address and password, each with its revocation.

use vstd::prelude::*;
use crate::audit::{AuditBuilder, AuditMeta};
use crate::audit_type::AuditType;
use crate::auth;
use crate::context::Context;
use crate::csrf;
use crate::driver::Driver;
use crate::error::{DriverError, MethodError, MethodResult};
use crate::jwt::{
    decode_csrf_spec, decode_unsafe_spec, encode_error, encode_store, encoded, string_to_uuid,
    user_token_error, user_token_issued, user_token_store, uuid_parsed, Jwt, TokenKind,
};
use crate::method::{
    custom_audit, custom_audit_id, custom_audit_spec, failure_of, finish,
    key_service_authenticate, party, party_audit, party_by_email, party_by_id, recorded,
    rejected, rejected_by, reported, service_of, Outcome,
};
use crate::model::{
    Csrf, Id, KeyCreate, KeyType, KeyWithValue, Service, User, UserCreate, UserToken, UserUpdate,
};
use crate::password::{bcrypt_verified, check_password, check_password_spec, hash_password};
use crate::store::{user_has_id, Store};
use crate::jwt::lemma_decode_encoded;
use crate::text::{lemma_first_match, opt_view};

verus! {

/// The service that calls, the user a request is about, and the user's key
/// that the operation works with.
pub struct Party {
    pub service: Service,
    pub user: User,
    pub key: KeyWithValue,
}

/// The hash of a user's password as a string slice.
pub fn password_hash_of(user: &User) -> (r: Option<&str>)
    ensures
        crate::password::opt_str_view(r) == opt_view(user.password_hash),
{
    match &user.password_hash {
        Some(h) => Some(h.as_str()),
        None => None,
    }
}

/// A login request.
#[derive(Debug)]
pub struct AuthLoginRequest {
    pub email: String,
    pub password: String,
}

/// Who logs in: the service is authenticated, the user is found by email
/// address with a usable token key, need not update the password first, and
/// knows the password.
pub open spec fn login_party(store: Store, auth: Option<Seq<char>>, req: AuthLoginRequest)
    -> Result<Party, MethodError> {
    match service_of(store, auth) {
        Err(e) => Err(e),
        Ok(service) => match party(
            store,
            service.id,
            store.user_by_email(req.email@),
            KeyType::Token,
            true,
        ) {
            Err(e) => Err(e),
            Ok((user, key)) => if user.password_require_update {
                Err(MethodError::Forbidden(DriverError::UserPasswordUpdateRequired))
            } else {
                match check_password_spec(opt_view(user.password_hash), req.password@) {
                    Err(e) => Err(MethodError::BadRequest(e)),
                    Ok(()) => Ok(Party { service, user, key }),
                }
            },
        },
    }
}

/// What the audit builder of an operation knows once the service is
/// authenticated and the user looked up by email address.
pub open spec fn audit_by_email(
    store: Store,
    auth: Option<Seq<char>>,
    email: Seq<char>,
    audit: AuditBuilder,
) -> AuditBuilder {
    let known = auth::authenticate_audit(store, auth, audit);
    match service_of(store, auth) {
        Err(_) => known,
        Ok(service) => party_audit(
            store,
            service.id,
            store.user_by_email(email),
            KeyType::Token,
            true,
            known,
        ),
    }
}

/// What a login does before its outcome is recorded.
pub open spec fn login_spec(
    store: Store,
    ctx: Context,
    audit: AuditBuilder,
    auth: Option<Seq<char>>,
    req: AuthLoginRequest,
    access_token_expires: i64,
    refresh_token_expires: i64,
) -> Outcome {
    let audit = audit_by_email(store, auth, req.email@, audit);
    match login_party(store, auth, req) {
        Err(e) => Outcome { failure: Some(e), store, audit },
        Ok(p) => Outcome {
            failure: rejected_by(
                user_token_error(
                    store,
                    ctx,
                    p.service.id,
                    p.user.id,
                    p.key,
                    access_token_expires,
                    refresh_token_expires,
                ),
            ),
            store: user_token_store(
                store,
                ctx,
                p.service.id,
                p.user.id,
                p.key,
                access_token_expires,
                refresh_token_expires,
            ),
            audit,
        },
    }
}

fn login_inner<D: Driver>(
    driver: &mut D,
    ctx: &Context,
    audit: &mut AuditBuilder,
    auth: &Option<String>,
    req: &AuthLoginRequest,
    access_token_expires: i64,
    refresh_token_expires: i64,
) -> (r: MethodResult<UserToken>)
    requires
        old(driver).store().wf(),
    ensures
        final(driver).store().wf(),
        (Outcome { failure: failure_of(r), store: final(driver).store(), audit: *final(audit) })
            == login_spec(
            old(driver).store(),
            *ctx,
            *old(audit),
            opt_view(*auth),
            *req,
            access_token_expires,
            refresh_token_expires,
        ),
        r matches Ok(t) ==> login_party(old(driver).store(), opt_view(*auth), *req) matches Ok(p)
            && user_token_issued(
            *ctx,
            p.service.id,
            p.user.id,
            p.key,
            access_token_expires,
            refresh_token_expires,
            t,
        ),
{
    let service = key_service_authenticate(driver, audit, auth)?;
    let (user, key) = party_by_email(driver, audit, &service, req.email.as_str(), KeyType::Token)?;
    if user.password_require_update {
        return Err(MethodError::Forbidden(DriverError::UserPasswordUpdateRequired));
    }
    match check_password(password_hash_of(&user), req.password.as_str()) {
        Err(e) => {
            return Err(MethodError::BadRequest(e));
        },
        Ok(()) => {},
    }
    rejected(
        Jwt::encode_user_token(
            driver,
            ctx,
            &service,
            &user,
            &key,
            access_token_expires,
            refresh_token_expires,
        ),
    )
}

/// Logs a user in with email address and password, and issues an access
/// token and a refresh token against the user's token key. The outcome,
/// success or failure, is recorded in the audit trail.
///
/// Fails `Unauthorised` when the service is not authenticated, `BadRequest`
/// when the user or the key is not found or not usable or the password is
/// wrong, `Forbidden` when the password has to be updated first.
pub fn login<D: Driver>(
    driver: &mut D,
    ctx: &Context,
    audit_meta: AuditMeta,
    auth: Option<String>,
    req: AuthLoginRequest,
    access_token_expires: i64,
    refresh_token_expires: i64,
) -> (r: MethodResult<UserToken>)
    requires
        old(driver).store().wf(),
    ensures
        final(driver).store().wf(),
        final(driver).store() == recorded(
            login_spec(
                old(driver).store(),
                *ctx,
                AuditBuilder::new_spec(audit_meta, AuditType::AuthLocalLogin),
                opt_view(auth),
                req,
                access_token_expires,
                refresh_token_expires,
            ),
            ctx.now,
        ),
        failure_of(r) == reported(
            login_spec(
                old(driver).store(),
                *ctx,
                AuditBuilder::new_spec(audit_meta, AuditType::AuthLocalLogin),
                opt_view(auth),
                req,
                access_token_expires,
                refresh_token_expires,
            ),
        ),
        r matches Ok(t) ==> login_party(old(driver).store(), opt_view(auth), req) matches Ok(p)
            && user_token_issued(
            *ctx,
            p.service.id,
            p.user.id,
            p.key,
            access_token_expires,
            refresh_token_expires,
            t,
        ),
{
    let mut audit = AuditBuilder::new(audit_meta, AuditType::AuthLocalLogin);
    let res = login_inner(
        driver,
        ctx,
        &mut audit,
        &auth,
        &req,
        access_token_expires,
        refresh_token_expires,
    );
    finish(driver, ctx, &audit, res)
}

/// What a message is sent for.
#[derive(Clone, Copy, Debug, PartialEq, Eq, Structural)]
pub enum EmailKind {
    Register,
    RegisterConfirm,
    ResetPassword,
    ResetPasswordConfirm,
    UpdateEmail,
    UpdatePassword,
}

/// A message that an operation asks to be sent to a user. It carries the
/// token with which the user goes on, or takes the operation back.
#[derive(Debug)]
pub struct TemplateEmail {
    pub kind: EmailKind,
    pub service_id: Id,
    pub user_id: Id,
    /// The address the message goes to.
    pub to: String,
    /// The address the user had before, where the operation changed it.
    pub previous_to: Option<String>,
    pub token: String,
}

/// `mail` is the message of `kind` to the user of `p`, with a token of
/// `token_kind` issued in `ctx`.
pub open spec fn mail_for(
    mail: TemplateEmail,
    kind: EmailKind,
    p: Party,
    to: String,
    previous_to: Option<String>,
    ctx: Context,
    token_kind: TokenKind,
    expires_in: i64,
) -> bool {
    &&& mail.kind == kind
    &&& mail.service_id == p.service.id
    &&& mail.user_id == p.user.id
    &&& mail.to == to
    &&& mail.previous_to == previous_to
    &&& ctx.after(expires_in) is Some
    &&& encoded(
        ctx,
        token_kind,
        p.service.id,
        p.user.id,
        p.key,
        expires_in,
        mail.token@,
        ctx.after(expires_in)->0,
    )
}

/// Why issuing a token for a party fails, if it does, and what it leaves in
/// the store.
pub open spec fn issue_spec(store: Store, ctx: Context, kind: TokenKind, p: Party, expires_in: i64)
    -> (Option<MethodError>, Store) {
    (
        rejected_by(encode_error(store, ctx, kind, p.service.id, p.user.id, p.key, expires_in)),
        encode_store(store, ctx, kind, p.service.id, expires_in),
    )
}

fn issue<D: Driver>(driver: &mut D, ctx: &Context, kind: TokenKind, p: &Party, expires_in: i64)
    -> (r: MethodResult<String>)
    requires
        old(driver).store().wf(),
    ensures
        final(driver).store().wf(),
        (failure_of(r), final(driver).store()) == issue_spec(
            old(driver).store(),
            *ctx,
            kind,
            *p,
            expires_in,
        ),
        r matches Ok(t) ==> ctx.after(expires_in) is Some && encoded(
            *ctx,
            kind,
            p.service.id,
            p.user.id,
            p.key,
            expires_in,
            t@,
            ctx.after(expires_in)->0,
        ),
{
    match Jwt::encode(driver, ctx, kind, &p.service, &p.user, &p.key, expires_in) {
        Ok((t, _)) => Ok(t),
        Err(e) => Err(MethodError::reject(e)),
    }
}

/// The party that a token names: the service is authenticated, may register
/// users where `needs_register`, and is the one the token names; the user
/// the token names is found with a token key; where `checked`, the user is
/// enabled and the key usable. The token's signature is not yet verified.
pub open spec fn token_party(
    store: Store,
    auth: Option<Seq<char>>,
    token: Seq<char>,
    checked: bool,
    needs_register: bool,
) -> Result<Party, MethodError> {
    match service_of(store, auth) {
        Err(e) => Err(e),
        Ok(service) => if needs_register && !service.user_allow_register {
            Err(MethodError::BadRequest(DriverError::ServiceUserRegisterDisabled))
        } else {
            match decode_unsafe_spec(token, service.id) {
                Err(e) => Err(MethodError::BadRequest(e)),
                Ok((user_id, _)) => match party(
                    store,
                    service.id,
                    store.user_by_id(user_id),
                    KeyType::Token,
                    checked,
                ) {
                    Err(e) => Err(e),
                    Ok((user, key)) => Ok(Party { service, user, key }),
                },
            }
        },
    }
}

/// What the audit builder knows after the lookups of [`token_party`].
pub open spec fn token_audit(
    store: Store,
    auth: Option<Seq<char>>,
    token: Seq<char>,
    checked: bool,
    needs_register: bool,
    audit: AuditBuilder,
) -> AuditBuilder {
    let known = auth::authenticate_audit(store, auth, audit);
    match service_of(store, auth) {
        Err(_) => known,
        Ok(service) => if needs_register && !service.user_allow_register {
            known
        } else {
            match decode_unsafe_spec(token, service.id) {
                Err(_) => known,
                Ok((user_id, _)) => party_audit(
                    store,
                    service.id,
                    store.user_by_id(user_id),
                    KeyType::Token,
                    checked,
                    known,
                ),
            }
        },
    }
}

/// Finds the party that a token names, as [`token_party`] describes.
pub fn token_party_read<D: Driver>(
    driver: &D,
    audit: &mut AuditBuilder,
    auth: &Option<String>,
    token: &str,
    checked: bool,
    needs_register: bool,
) -> (r: MethodResult<Party>)
    requires
        driver.store().wf(),
    ensures
        r == token_party(driver.store(), opt_view(*auth), token@, checked, needs_register),
        *final(audit) == token_audit(
            driver.store(),
            opt_view(*auth),
            token@,
            checked,
            needs_register,
            *old(audit),
        ),
{
    let service = key_service_authenticate(driver, audit, auth)?;
    if needs_register && !service.user_allow_register {
        return Err(MethodError::BadRequest(DriverError::ServiceUserRegisterDisabled));
    }
    let user_id = match Jwt::decode_unsafe(token, service.id) {
        Ok((user_id, _)) => user_id,
        Err(e) => {
            return Err(MethodError::BadRequest(e));
        },
    };
    let (user, key) = party_by_id(driver, audit, &service, user_id, KeyType::Token, checked)?;
    Ok(Party { service, user, key })
}

/// Redeeming a token that is bound to a single-use entry: the token is
/// checked against the party, then its entry is consumed. The entry is gone
/// once the token has checked out, whether or not it belonged to the service.
pub open spec fn redeem_spec(store: Store, now: i64, kind: TokenKind, p: Party, token: Seq<char>)
    -> (Result<Csrf, MethodError>, Store) {
    match decode_csrf_spec(now, kind, p.service.id, p.user.id, p.key, token) {
        Err(e) => (Err(MethodError::BadRequest(e)), store),
        Ok(k) => match csrf::verify_spec(store, p.service.id, k, now) {
            (Ok(c), s) => (Ok(c), s),
            (Err(e), s) => (Err(MethodError::BadRequest(e)), s),
        },
    }
}

/// Redeems a token as [`redeem_spec`] describes. A token redeemed a second
/// time fails `BadRequest`: its entry is gone.
pub fn redeem<D: Driver>(driver: &mut D, ctx: &Context, kind: TokenKind, p: &Party, token: &str)
    -> (r: MethodResult<Csrf>)
    requires
        old(driver).store().wf(),
    ensures
        final(driver).store().wf(),
        (r, final(driver).store()) == redeem_spec(old(driver).store(), ctx.now, kind, *p, token@),
{
    let csrf_key = match Jwt::decode_csrf(ctx, kind, &p.service, &p.user, &p.key, token) {
        Ok(k) => k,
        Err(e) => {
            return Err(MethodError::BadRequest(e));
        },
    };
    match csrf::verify(driver, ctx, &p.service, csrf_key.as_str()) {
        Ok(c) => Ok(c),
        Err(e) => Err(MethodError::BadRequest(e)),
    }
}

/// The hash that the store holds for a user.
pub open spec fn stored_hash(store: Store, user_id: Id) -> String {
    store.user_by_id(user_id)->0.password_hash->0
}

/// What hashing gave where the outcome is `failure`: nothing where the
/// outcome says that no hash could be made, else the hash that the store
/// holds for the user.
pub open spec fn hashed_as(failure: Option<MethodError>, store: Store, user_id: Id) -> Option<
    String,
> {
    if failure == Some(MethodError::BadRequest(DriverError::PasswordHash)) {
        None
    } else {
        Some(stored_hash(store, user_id))
    }
}

/// Storing a new password: `hashed` is what hashing the password gave.
/// Without a hash the operation fails `BadRequest`; with one the hash is
/// stored and the user no longer has to update the password.
pub open spec fn set_password_spec(
    store: Store,
    ctx: Context,
    user_id: Id,
    allow_reset: Option<bool>,
    hashed: Option<String>,
) -> (Option<MethodError>, Store) {
    match hashed {
        None => (Some(MethodError::BadRequest(DriverError::PasswordHash)), store),
        Some(hash) => {
            let (changed, after) = store.user_update(
                UserUpdate {
                    password_allow_reset: allow_reset,
                    ..UserUpdate::password_change(user_id, hash)
                },
                ctx.now,
            );
            (
                match changed {
                    Ok(_) => None,
                    Err(e) => Some(MethodError::rejected(e)),
                },
                after,
            )
        },
    }
}

fn set_password<D: Driver>(
    driver: &mut D,
    ctx: &Context,
    user_id: Id,
    password: &str,
    allow_reset: Option<bool>,
) -> (r: MethodResult<User>)
    requires
        old(driver).store().wf(),
    ensures
        final(driver).store().wf(),
        (failure_of(r), final(driver).store()) == set_password_spec(
            old(driver).store(),
            *ctx,
            user_id,
            allow_reset,
            hashed_as(failure_of(r), final(driver).store(), user_id),
        ),
        r matches Ok(u) ==> final(driver).store().user_by_id(user_id) == Some(u)
            && u.password_hash is Some && bcrypt_verified(
            password@,
            stored_hash(final(driver).store(), user_id)@,
        ) == Some(true),
        r matches Ok(u) ==> (old(driver).store().user_by_id(user_id) matches Some(before)
            && u.email == before.email && u.is_enabled == before.is_enabled),
{
    proof {
        lemma_first_match(old(driver).store().users, user_has_id(user_id));
    }
    let hash = match hash_password(Some(password)) {
        Ok(Some(h)) => h,
        _ => {
            return Err(MethodError::BadRequest(DriverError::PasswordHash));
        },
    };
    let mut update = UserUpdate::with_password_hash(user_id, hash);
    update.password_allow_reset = allow_reset;
    proof {
        if old(driver).store().user_update(update, ctx.now).0 is Ok {
            old(driver).store().lemma_user_update_reads_back(update, ctx.now);
        }
    }
    match driver.user_update(update, ctx.now) {
        Ok(u) => Ok(u),
        Err(e) => Err(MethodError::reject(e)),
    }
}

impl Clone for TemplateEmail {
    fn clone(&self) -> (r: Self)
        ensures
            r == *self,
    {
        TemplateEmail {
            kind: self.kind,
            service_id: self.service_id,
            user_id: self.user_id,
            to: self.to.clone(),
            previous_to: crate::text::clone_opt(&self.previous_to),
            token: self.token.clone(),
        }
    }
}

/// A message as the mailer received it, and whether the mailer sent it.
pub struct Delivery {
    pub mail: TemplateEmail,
    pub ok: bool,
}

/// Sends the messages that operations ask for.
pub trait Mailer {
    /// Every message that the mailer was handed, in the order handed, each
    /// with the answer the mailer gave.
    spec fn received(&self) -> Seq<Delivery>;

    /// Sends a message and tells whether it was sent.
    fn send(&mut self, mail: &TemplateEmail) -> (ok: bool)
        ensures
            final(self).received() == old(self).received().push(Delivery { mail: *mail, ok }),
    ;
}

/// A mailer that keeps every message it is given, in the order given, and
/// reports each as sent.
pub struct Outbox {
    pub messages: Vec<TemplateEmail>,
}

impl Outbox {
    /// An outbox that holds nothing.
    pub fn new() -> (r: Self)
        ensures
            r.messages@ == Seq::<TemplateEmail>::empty(),
            r.received() == Seq::<Delivery>::empty(),
    {
        let r = Outbox { messages: Vec::new() };
        assert(r.received() =~= Seq::<Delivery>::empty());
        r
    }
}

impl Mailer for Outbox {
    open spec fn received(&self) -> Seq<Delivery> {
        Seq::new(self.messages@.len(), |i: int| Delivery { mail: self.messages@[i], ok: true })
    }

    fn send(&mut self, mail: &TemplateEmail) -> (ok: bool)
        ensures
            ok,
            final(self).messages@ == old(self).messages@.push(*mail),
    {
        self.messages.push(mail.clone());
        assert(self.received() =~= old(self).received().push(Delivery { mail: *mail, ok: true }));
        true
    }
}

/// What sends messages outside the library: a program implements this for
/// its mail service and hands it to the library inside a [`Courier`].
pub trait Sender {
    /// Sends a message and tells whether it was sent.
    fn send(&mut self, mail: &TemplateEmail) -> bool;
}

/// A mailer that hands every message to a sender and keeps account of what
/// it handed over and what the sender answered.
pub struct Courier<S: Sender> {
    sender: S,
    log: Ghost<Seq<Delivery>>,
}

impl<S: Sender> Courier<S> {
    /// A courier for a sender, which has been handed nothing yet.
    pub fn new(sender: S) -> (r: Self)
        ensures
            r.received() == Seq::<Delivery>::empty(),
    {
        Courier { sender, log: Ghost(Seq::empty()) }
    }

    /// The sender.
    pub fn sender(&self) -> &S {
        &self.sender
    }

    /// Gives the sender back.
    pub fn into_sender(self) -> S {
        self.sender
    }
}

impl<S: Sender> Mailer for Courier<S> {
    closed spec fn received(&self) -> Seq<Delivery> {
        self.log@
    }

    fn send(&mut self, mail: &TemplateEmail) -> (ok: bool) {
        let ok = self.sender.send(mail);
        proof {
            self.log@ = self.log@.push(Delivery { mail: *mail, ok });
        }
        ok
    }
}

/// What an operation comes to once its message went to the mailer: an
/// operation that had succeeded fails `BadRequest` where the message was not
/// sent; everything else stays as it is.
pub open spec fn mailed(o: Outcome, sent: bool) -> Outcome {
    if o.failure is None && !sent {
        Outcome { failure: Some(MethodError::BadRequest(DriverError::EmailSend)), ..o }
    } else {
        o
    }
}

/// What an operation that did `o` leaves in the store and with the mailer
/// once its outcome is recorded. An operation that failed hands the mailer
/// nothing, and its failure is recorded. An operation that succeeded hands
/// the mailer one message, and what is recorded is what became of it with
/// the answer that the mailer gave.
pub open spec fn posted_store(
    o: Outcome,
    now: i64,
    after: Store,
    before: Seq<Delivery>,
    received: Seq<Delivery>,
) -> bool {
    match o.failure {
        Some(_) => received == before && after == recorded(o, now),
        None => received.len() == before.len() + 1 && received.drop_last() == before && after
            == recorded(mailed(o, received.last().ok), now),
    }
}

/// What the caller of an operation that did `o` is told, given what the
/// mailer received.
pub open spec fn posted_failure(o: Outcome, received: Seq<Delivery>) -> Option<MethodError> {
    match o.failure {
        Some(e) => Some(e),
        None => reported(mailed(o, received.last().ok)),
    }
}

/// Concludes an operation that sends a message: the message of an
/// operation that succeeded goes to the mailer, then the outcome is recorded.
fn conclude<D: Driver, M: Mailer>(
    driver: &mut D,
    mailer: &mut M,
    ctx: &Context,
    audit: &AuditBuilder,
    res: MethodResult<TemplateEmail>,
) -> (r: MethodResult<()>)
    requires
        old(driver).store().wf(),
    ensures
        final(driver).store().wf(),
        posted_store(
            Outcome { failure: failure_of(res), store: old(driver).store(), audit: *audit },
            ctx.now,
            final(driver).store(),
            old(mailer).received(),
            final(mailer).received(),
        ),
        failure_of(r) == posted_failure(
            Outcome { failure: failure_of(res), store: old(driver).store(), audit: *audit },
            final(mailer).received(),
        ),
        res matches Ok(m) ==> final(mailer).received().last().mail == m,
{
    let res = match res {
        Err(e) => Err(e),
        Ok(m) => {
            let ok = mailer.send(&m);
            assert(final(mailer).received().drop_last() =~= old(mailer).received());
            if ok {
                Ok(())
            } else {
                Err(MethodError::BadRequest(DriverError::EmailSend))
            }
        },
    };
    finish(driver, ctx, audit, res)
}

/// Answers the caller of an operation that keeps its failures to itself:
/// only a caller that is not authenticated is told so.
fn answer_quietly(res: MethodResult<()>) -> (r: MethodResult<()>)
    ensures
        r == (match res {
            Err(MethodError::Unauthorised(e)) => Err(MethodError::Unauthorised(e)),
            _ => Ok(()),
        }),
{
    match res {
        Err(MethodError::Unauthorised(e)) => Err(MethodError::Unauthorised(e)),
        _ => Ok(()),
    }
}

/// A registration request.
#[derive(Debug)]
pub struct AuthRegisterRequest {
    pub name: String,
    pub email: String,
    pub locale: Option<String>,
    pub timezone: Option<String>,
}

/// The user that a registration asks for: enabled, without a password, and
/// allowed to reset it in case the registration token expires.
pub open spec fn register_user(req: AuthRegisterRequest) -> UserCreate {
    UserCreate {
        locale: req.locale,
        timezone: req.timezone,
        password_allow_reset: true,
        ..UserCreate::plain(true, req.name, req.email)
    }
}

/// The token key that a registration asks for.
pub open spec fn register_key(ctx: Context, req: AuthRegisterRequest, service_id: Id, user_id: Id)
    -> KeyCreate {
    KeyCreate {
        is_enabled: true,
        is_revoked: false,
        type_: KeyType::Token,
        name: req.name,
        value: ctx.key_value,
        service_id: Some(service_id),
        user_id: Some(user_id),
    }
}

/// Who registers, and what the store holds once the user and the user's
/// token key are created: the service is authenticated and may register
/// users, the email address is free, and so is the key value.
pub open spec fn register_party(
    store: Store,
    ctx: Context,
    auth: Option<Seq<char>>,
    req: AuthRegisterRequest,
) -> (Result<Party, MethodError>, Store) {
    match service_of(store, auth) {
        Err(e) => (Err(e), store),
        Ok(service) => if !service.user_allow_register {
            (Err(MethodError::BadRequest(DriverError::ServiceUserRegisterDisabled)), store)
        } else {
            match store.user_create(register_user(req), ctx.now) {
                (Err(e), s) => (Err(MethodError::rejected(e)), s),
                (Ok(user), s) => match s.key_create(
                    register_key(ctx, req, service.id, user.id),
                    ctx.now,
                ) {
                    (Err(e), s) => (Err(MethodError::rejected(e)), s),
                    (Ok(key), s) => (Ok(Party { service, user, key }), s),
                },
            }
        },
    }
}

/// What a registration does before its outcome is recorded.
pub open spec fn register_spec(
    store: Store,
    ctx: Context,
    audit: AuditBuilder,
    auth: Option<Seq<char>>,
    req: AuthRegisterRequest,
    token_expires: i64,
) -> Outcome {
    let audit = auth::authenticate_audit(store, auth, audit);
    match register_party(store, ctx, auth, req) {
        (Err(e), s) => Outcome { failure: Some(e), store: s, audit },
        (Ok(p), s) => {
            let (failure, after) = issue_spec(s, ctx, TokenKind::Register, p, token_expires);
            Outcome { failure, store: after, audit }
        },
    }
}

fn register_inner<D: Driver>(
    driver: &mut D,
    ctx: &Context,
    audit: &mut AuditBuilder,
    auth: &Option<String>,
    req: AuthRegisterRequest,
    token_expires: i64,
) -> (r: MethodResult<TemplateEmail>)
    requires
        old(driver).store().wf(),
    ensures
        final(driver).store().wf(),
        (Outcome { failure: failure_of(r), store: final(driver).store(), audit: *final(audit) })
            == register_spec(
            old(driver).store(),
            *ctx,
            *old(audit),
            opt_view(*auth),
            req,
            token_expires,
        ),
        r matches Ok(m) ==> register_party(old(driver).store(), *ctx, opt_view(*auth), req).0
            matches Ok(p) && mail_for(
            m,
            EmailKind::Register,
            p,
            p.user.email,
            None,
            *ctx,
            TokenKind::Register,
            token_expires,
        ),
{
    let service = key_service_authenticate(driver, audit, auth)?;
    if !service.user_allow_register {
        return Err(MethodError::BadRequest(DriverError::ServiceUserRegisterDisabled));
    }
    let key_name = req.name.clone();
    let mut user_create = UserCreate::new(true, req.name, req.email).password_allow_reset(true);
    user_create.locale = req.locale;
    user_create.timezone = req.timezone;
    let user = rejected(driver.user_create(user_create, ctx.now))?;
    let key_create = KeyCreate::user(
        true,
        KeyType::Token,
        key_name,
        ctx.key_value.clone(),
        service.id,
        user.id,
    );
    let key = rejected(driver.key_create(key_create, ctx.now))?;
    let p = Party { service, user, key };
    let token = issue(driver, ctx, TokenKind::Register, &p, token_expires)?;
    Ok(
        TemplateEmail {
            kind: EmailKind::Register,
            service_id: p.service.id,
            user_id: p.user.id,
            to: p.user.email,
            previous_to: None,
            token,
        },
    )
}

/// Registers a user: creates the user and a token key, issues a
/// registration token that the user confirms with, and hands the message
/// that carries it to the mailer. The outcome is recorded in the audit trail.
///
/// Fails `Unauthorised` where the service is not authenticated. Every other
/// failure is kept from the caller, who is answered as if all had gone well,
/// so that the answer does not tell whether an account exists. The mailer
/// is handed a message exactly where the registration succeeded.
pub fn register<D: Driver, M: Mailer>(
    driver: &mut D,
    mailer: &mut M,
    ctx: &Context,
    audit_meta: AuditMeta,
    auth: Option<String>,
    req: AuthRegisterRequest,
    token_expires: i64,
) -> (r: MethodResult<()>)
    requires
        old(driver).store().wf(),
    ensures
        final(driver).store().wf(),
        failure_of(r) == failure_of(service_of(old(driver).store(), opt_view(auth))),
        posted_store(
            register_spec(
                old(driver).store(),
                *ctx,
                AuditBuilder::new_spec(audit_meta, AuditType::AuthLocalRegister),
                opt_view(auth),
                req,
                token_expires,
            ),
            ctx.now,
            final(driver).store(),
            old(mailer).received(),
            final(mailer).received(),
        ),
        register_spec(
            old(driver).store(),
            *ctx,
            AuditBuilder::new_spec(audit_meta, AuditType::AuthLocalRegister),
            opt_view(auth),
            req,
            token_expires,
        ).failure is None ==> (register_party(old(driver).store(), *ctx, opt_view(auth), req).0
            matches Ok(p) && mail_for(
            final(mailer).received().last().mail,
            EmailKind::Register,
            p,
            p.user.email,
            None,
            *ctx,
            TokenKind::Register,
            token_expires,
        )),
{
    let mut audit = AuditBuilder::new(audit_meta, AuditType::AuthLocalRegister);
    let res = register_inner(driver, ctx, &mut audit, &auth, req, token_expires);
    let res = conclude(driver, mailer, ctx, &audit, res);
    answer_quietly(res)
}

/// A request to confirm a registration.
#[derive(Debug)]
pub struct AuthRegisterConfirmRequest {
    pub token: String,
    pub password: Option<String>,
    pub password_allow_reset: Option<bool>,
}

/// What follows once a confirmation token is redeemed: a revoke token is
/// issued, then the new password, if there is one, is stored; `hashed` is
/// what hashing it gave.
pub open spec fn confirm_spec(
    store: Store,
    ctx: Context,
    p: Party,
    password: Option<Seq<char>>,
    allow_reset: Option<bool>,
    revoke_token_expires: i64,
    hashed: Option<String>,
) -> (Option<MethodError>, Store) {
    match issue_spec(store, ctx, TokenKind::Revoke, p, revoke_token_expires) {
        (Some(e), s) => (Some(e), s),
        (None, s) => match password {
            None => (None, s),
            Some(_) => set_password_spec(s, ctx, p.user.id, allow_reset, hashed),
        },
    }
}

/// What confirming a registration does before its outcome is recorded:
/// `hashed` is what hashing the password gave.
pub open spec fn register_confirm_spec(
    store: Store,
    ctx: Context,
    audit: AuditBuilder,
    auth: Option<Seq<char>>,
    req: AuthRegisterConfirmRequest,
    revoke_token_expires: i64,
    hashed: Option<String>,
) -> Outcome {
    let audit = token_audit(store, auth, req.token@, true, true, audit);
    match token_party(store, auth, req.token@, true, true) {
        Err(e) => Outcome { failure: Some(e), store, audit },
        Ok(p) => match redeem_spec(store, ctx.now, TokenKind::Register, p, req.token@) {
            (Err(e), s) => Outcome { failure: Some(e), store: s, audit },
            (Ok(_), s) => {
                let (failure, after) = confirm_spec(
                    s,
                    ctx,
                    p,
                    opt_view(req.password),
                    req.password_allow_reset,
                    revoke_token_expires,
                    hashed,
                );
                Outcome { failure, store: after, audit }
            },
        },
    }
}

/// The party that a token names is about the user that the token names.
pub proof fn lemma_token_party_user(
    store: Store,
    auth: Option<Seq<char>>,
    token: Seq<char>,
    checked: bool,
    needs_register: bool,
)
    requires
        token_party(store, auth, token, checked, needs_register) is Ok,
    ensures
        token_party(store, auth, token, checked, needs_register)->Ok_0.user.id == token_user_id(
            store,
            auth,
            token,
        ),
        service_of(store, auth) == Ok::<Service, MethodError>(
            token_party(store, auth, token, checked, needs_register)->Ok_0.service,
        ),
{
    lemma_first_match(store.users, user_has_id(token_user_id(store, auth, token)));
}

/// The user that a token names for an authenticated service.
pub open spec fn token_user_id(store: Store, auth: Option<Seq<char>>, token: Seq<char>) -> Id {
    decode_unsafe_spec(token, service_of(store, auth)->Ok_0.id)->Ok_0.0
}

fn confirm<D: Driver>(
    driver: &mut D,
    ctx: &Context,
    p: &Party,
    password: Option<&str>,
    allow_reset: Option<bool>,
    revoke_token_expires: i64,
) -> (r: MethodResult<String>)
    requires
        old(driver).store().wf(),
    ensures
        final(driver).store().wf(),
        (failure_of(r), final(driver).store()) == confirm_spec(
            old(driver).store(),
            *ctx,
            *p,
            crate::password::opt_str_view(password),
            allow_reset,
            revoke_token_expires,
            hashed_as(failure_of(r), final(driver).store(), p.user.id),
        ),
        r matches Ok(t) ==> ctx.after(revoke_token_expires) is Some && encoded(
            *ctx,
            TokenKind::Revoke,
            p.service.id,
            p.user.id,
            p.key,
            revoke_token_expires,
            t@,
            ctx.after(revoke_token_expires)->0,
        ),
        r is Ok && password is Some ==> bcrypt_verified(
            password->0@,
            stored_hash(final(driver).store(), p.user.id)@,
        ) == Some(true),
{
    let token = issue(driver, ctx, TokenKind::Revoke, p, revoke_token_expires)?;
    if let Some(pw) = password {
        set_password(driver, ctx, p.user.id, pw, allow_reset)?;
    }
    Ok(token)
}

fn opt_str(s: &Option<String>) -> (r: Option<&str>)
    ensures
        crate::password::opt_str_view(r) == opt_view(*s),
        r is Some == s is Some,
{
    match s {
        Some(x) => Some(x.as_str()),
        None => None,
    }
}

fn register_confirm_inner<D: Driver>(
    driver: &mut D,
    ctx: &Context,
    audit: &mut AuditBuilder,
    auth: &Option<String>,
    req: &AuthRegisterConfirmRequest,
    revoke_token_expires: i64,
) -> (r: MethodResult<TemplateEmail>)
    requires
        old(driver).store().wf(),
    ensures
        final(driver).store().wf(),
        (Outcome { failure: failure_of(r), store: final(driver).store(), audit: *final(audit) })
            == register_confirm_spec(
            old(driver).store(),
            *ctx,
            *old(audit),
            opt_view(*auth),
            *req,
            revoke_token_expires,
            hashed_as(
                failure_of(r),
                final(driver).store(),
                token_user_id(old(driver).store(), opt_view(*auth), req.token@),
            ),
        ),
        r matches Ok(m) ==> token_party(old(driver).store(), opt_view(*auth), req.token@, true, true)
            matches Ok(p) && mail_for(
            m,
            EmailKind::RegisterConfirm,
            p,
            p.user.email,
            None,
            *ctx,
            TokenKind::Revoke,
            revoke_token_expires,
        ),
        r is Ok && req.password is Some ==> bcrypt_verified(
            req.password->0@,
            stored_hash(
                final(driver).store(),
                token_user_id(old(driver).store(), opt_view(*auth), req.token@),
            )@,
        ) == Some(true),
{
    let p = token_party_read(driver, audit, auth, req.token.as_str(), true, true)?;
    proof {
        lemma_token_party_user(old(driver).store(), opt_view(*auth), req.token@, true, true);
    }
    redeem(driver, ctx, TokenKind::Register, &p, req.token.as_str())?;
    let token = confirm(
        driver,
        ctx,
        &p,
        opt_str(&req.password),
        req.password_allow_reset,
        revoke_token_expires,
    )?;
    Ok(
        TemplateEmail {
            kind: EmailKind::RegisterConfirm,
            service_id: p.service.id,
            user_id: p.user.id,
            to: p.user.email,
            previous_to: None,
            token,
        },
    )
}

/// Confirms a registration: redeems the registration token, which can be
/// done once, issues a revoke token, stores the password if one is given,
/// and hands the message that carries the revoke token to the mailer. The
/// outcome is recorded in the audit trail. Wherever a password was stored,
/// it verifies against the hash that the store holds.
pub fn register_confirm<D: Driver, M: Mailer>(
    driver: &mut D,
    mailer: &mut M,
    ctx: &Context,
    audit_meta: AuditMeta,
    auth: Option<String>,
    req: AuthRegisterConfirmRequest,
    revoke_token_expires: i64,
) -> (r: MethodResult<()>)
    requires
        old(driver).store().wf(),
    ensures
        final(driver).store().wf(),
        failure_of(r) == posted_failure(
            register_confirm_spec(
                old(driver).store(),
                *ctx,
                AuditBuilder::new_spec(audit_meta, AuditType::AuthLocalRegisterConfirm),
                opt_view(auth),
                req,
                revoke_token_expires,
                hashed_as(
                    failure_of(r),
                    final(driver).store(),
                    token_user_id(old(driver).store(), opt_view(auth), req.token@),
                ),
            ),
            final(mailer).received(),
        ),
        posted_store(
            register_confirm_spec(
                old(driver).store(),
                *ctx,
                AuditBuilder::new_spec(audit_meta, AuditType::AuthLocalRegisterConfirm),
                opt_view(auth),
                req,
                revoke_token_expires,
                hashed_as(
                    failure_of(r),
                    final(driver).store(),
                    token_user_id(old(driver).store(), opt_view(auth), req.token@),
                ),
            ),
            ctx.now,
            final(driver).store(),
            old(mailer).received(),
            final(mailer).received(),
        ),
        register_confirm_spec(
            old(driver).store(),
            *ctx,
            AuditBuilder::new_spec(audit_meta, AuditType::AuthLocalRegisterConfirm),
            opt_view(auth),
            req,
            revoke_token_expires,
            hashed_as(
            failure_of(r),
            final(driver).store(),
            token_user_id(old(driver).store(), opt_view(auth), req.token@),
            ),
        ).failure is None ==> (token_party(
            old(driver).store(),
            opt_view(auth),
            req.token@,
            true,
            true,
        ) matches Ok(p) && mail_for(
            final(mailer).received().last().mail,
            EmailKind::RegisterConfirm,
            p,
            p.user.email,
            None,
            *ctx,
            TokenKind::Revoke,
            revoke_token_expires,
        )) && (req.password is Some ==> bcrypt_verified(
            req.password->0@,
            stored_hash(
                final(driver).store(),
                token_user_id(old(driver).store(), opt_view(auth), req.token@),
            )@,
        ) == Some(true)),
{
    let mut audit = AuditBuilder::new(audit_meta, AuditType::AuthLocalRegisterConfirm);
    let res = register_confirm_inner(driver, ctx, &mut audit, &auth, &req, revoke_token_expires);
    let res = conclude(driver, mailer, ctx, &audit, res);
    res
}

/// A request that presents a token, and may ask for an audit record under a
/// name of the caller's choice.
#[derive(Debug)]
pub struct AuthTokenRequest {
    pub token: String,
    pub audit: Option<String>,
}

/// What taking an operation back does before its outcome is recorded: the
/// revoke token is redeemed, which can be done once, for a user and a key
/// that need no longer be usable; then the audit record that the caller
/// asked for is written.
pub open spec fn revoke_spec(
    store: Store,
    ctx: Context,
    audit: AuditBuilder,
    auth: Option<Seq<char>>,
    req: AuthTokenRequest,
) -> Outcome {
    let audit = token_audit(store, auth, req.token@, false, false, audit);
    match token_party(store, auth, req.token@, false, false) {
        Err(e) => Outcome { failure: Some(e), store, audit },
        Ok(p) => match redeem_spec(store, ctx.now, TokenKind::Revoke, p, req.token@) {
            (Err(e), s) => Outcome { failure: Some(e), store: s, audit },
            (Ok(_), s) => {
                let (failure, after) = custom_audit_spec(s, audit, req.audit, ctx.now);
                Outcome { failure, store: after, audit }
            },
        },
    }
}

fn revoke_inner<D: Driver>(
    driver: &mut D,
    ctx: &Context,
    audit: &mut AuditBuilder,
    auth: &Option<String>,
    req: AuthTokenRequest,
) -> (r: MethodResult<Option<Id>>)
    requires
        old(driver).store().wf(),
    ensures
        final(driver).store().wf(),
        (Outcome { failure: failure_of(r), store: final(driver).store(), audit: *final(audit) })
            == revoke_spec(old(driver).store(), *ctx, *old(audit), opt_view(*auth), req),
        r matches Ok(id) ==> id == custom_audit_id(old(driver).store(), req.audit),
{
    let p = token_party_read(driver, audit, auth, req.token.as_str(), false, false)?;
    redeem(driver, ctx, TokenKind::Revoke, &p, req.token.as_str())?;
    custom_audit(driver, ctx, audit, req.audit)
}

/// The store once a revocation recorded under `type_` is done.
pub open spec fn revoke_final(
    store: Store,
    ctx: Context,
    audit_meta: AuditMeta,
    type_: AuditType,
    auth: Option<Seq<char>>,
    req: AuthTokenRequest,
) -> Store {
    recorded(revoke_spec(store, ctx, AuditBuilder::new_spec(audit_meta, type_), auth, req), ctx.now)
}

/// What the caller of a revocation recorded under `type_` is told.
pub open spec fn revoke_reported(
    store: Store,
    ctx: Context,
    audit_meta: AuditMeta,
    type_: AuditType,
    auth: Option<Seq<char>>,
    req: AuthTokenRequest,
) -> Option<MethodError> {
    reported(revoke_spec(store, ctx, AuditBuilder::new_spec(audit_meta, type_), auth, req))
}

fn revoke<D: Driver>(
    driver: &mut D,
    ctx: &Context,
    audit_meta: AuditMeta,
    type_: AuditType,
    auth: Option<String>,
    req: AuthTokenRequest,
) -> (r: MethodResult<Option<Id>>)
    requires
        old(driver).store().wf(),
    ensures
        final(driver).store().wf(),
        final(driver).store() == revoke_final(
            old(driver).store(),
            *ctx,
            audit_meta,
            type_,
            opt_view(auth),
            req,
        ),
        failure_of(r) == revoke_reported(
            old(driver).store(),
            *ctx,
            audit_meta,
            type_,
            opt_view(auth),
            req,
        ),
        r matches Ok(id) ==> id == custom_audit_id(old(driver).store(), req.audit),
{
    let mut audit = AuditBuilder::new(audit_meta, type_);
    let res = revoke_inner(driver, ctx, &mut audit, &auth, req);
    finish(driver, ctx, &audit, res)
}

/// Takes a registration back: redeems the revoke token that its
/// confirmation issued. A second attempt with the same token fails
/// `BadRequest`. Returns the identifier of the audit record that the caller
/// asked for.
pub fn register_revoke<D: Driver>(
    driver: &mut D,
    ctx: &Context,
    audit_meta: AuditMeta,
    auth: Option<String>,
    req: AuthTokenRequest,
) -> (r: MethodResult<Option<Id>>)
    requires
        old(driver).store().wf(),
    ensures
        final(driver).store().wf(),
        final(driver).store() == revoke_final(
            old(driver).store(),
            *ctx,
            audit_meta,
            AuditType::AuthLocalRegisterRevoke,
            opt_view(auth),
            req,
        ),
        failure_of(r) == revoke_reported(
            old(driver).store(),
            *ctx,
            audit_meta,
            AuditType::AuthLocalRegisterRevoke,
            opt_view(auth),
            req,
        ),
        r matches Ok(id) ==> id == custom_audit_id(old(driver).store(), req.audit),
{
    revoke(driver, ctx, audit_meta, AuditType::AuthLocalRegisterRevoke, auth, req)
}

/// Takes a password reset back: redeems the revoke token that its
/// confirmation issued. A second attempt with the same token fails `BadRequest`.
pub fn reset_password_revoke<D: Driver>(
    driver: &mut D,
    ctx: &Context,
    audit_meta: AuditMeta,
    auth: Option<String>,
    req: AuthTokenRequest,
) -> (r: MethodResult<Option<Id>>)
    requires
        old(driver).store().wf(),
    ensures
        final(driver).store().wf(),
        final(driver).store() == revoke_final(
            old(driver).store(),
            *ctx,
            audit_meta,
            AuditType::AuthLocalResetPasswordRevoke,
            opt_view(auth),
            req,
        ),
        failure_of(r) == revoke_reported(
            old(driver).store(),
            *ctx,
            audit_meta,
            AuditType::AuthLocalResetPasswordRevoke,
            opt_view(auth),
            req,
        ),
        r matches Ok(id) ==> id == custom_audit_id(old(driver).store(), req.audit),
{
    revoke(driver, ctx, audit_meta, AuditType::AuthLocalResetPasswordRevoke, auth, req)
}

/// Takes a change of email address back: redeems the revoke token that the
/// change issued. A second attempt with the same token fails `BadRequest`.
pub fn update_email_revoke<D: Driver>(
    driver: &mut D,
    ctx: &Context,
    audit_meta: AuditMeta,
    auth: Option<String>,
    req: AuthTokenRequest,
) -> (r: MethodResult<Option<Id>>)
    requires
        old(driver).store().wf(),
    ensures
        final(driver).store().wf(),
        final(driver).store() == revoke_final(
            old(driver).store(),
            *ctx,
            audit_meta,
            AuditType::AuthLocalUpdateEmailRevoke,
            opt_view(auth),
            req,
        ),
        failure_of(r) == revoke_reported(
            old(driver).store(),
            *ctx,
            audit_meta,
            AuditType::AuthLocalUpdateEmailRevoke,
            opt_view(auth),
            req,
        ),
        r matches Ok(id) ==> id == custom_audit_id(old(driver).store(), req.audit),
{
    revoke(driver, ctx, audit_meta, AuditType::AuthLocalUpdateEmailRevoke, auth, req)
}

/// Takes a change of password back: redeems the revoke token that the
/// change issued. A second attempt with the same token fails `BadRequest`.
pub fn update_password_revoke<D: Driver>(
    driver: &mut D,
    ctx: &Context,
    audit_meta: AuditMeta,
    auth: Option<String>,
    req: AuthTokenRequest,
) -> (r: MethodResult<Option<Id>>)
    requires
        old(driver).store().wf(),
    ensures
        final(driver).store().wf(),
        final(driver).store() == revoke_final(
            old(driver).store(),
            *ctx,
            audit_meta,
            AuditType::AuthLocalUpdatePasswordRevoke,
            opt_view(auth),
            req,
        ),
        failure_of(r) == revoke_reported(
            old(driver).store(),
            *ctx,
            audit_meta,
            AuditType::AuthLocalUpdatePasswordRevoke,
            opt_view(auth),
            req,
        ),
        r matches Ok(id) ==> id == custom_audit_id(old(driver).store(), req.audit),
{
    revoke(driver, ctx, audit_meta, AuditType::AuthLocalUpdatePasswordRevoke, auth, req)
}

/// A request to reset a password.
#[derive(Debug)]
pub struct AuthResetPasswordRequest {
    pub email: String,
}

/// Who resets a password: the service is authenticated, the user is found
/// by email address with a usable token key, and may reset the password.
pub open spec fn reset_password_party(
    store: Store,
    auth: Option<Seq<char>>,
    req: AuthResetPasswordRequest,
) -> Result<Party, MethodError> {
    match service_of(store, auth) {
        Err(e) => Err(e),
        Ok(service) => match party(
            store,
            service.id,
            store.user_by_email(req.email@),
            KeyType::Token,
            true,
        ) {
            Err(e) => Err(e),
            Ok((user, key)) => if !user.password_allow_reset {
                Err(MethodError::BadRequest(DriverError::UserResetPasswordDisabled))
            } else {
                Ok(Party { service, user, key })
            },
        },
    }
}

/// What a request to reset a password does before its outcome is recorded.
pub open spec fn reset_password_spec(
    store: Store,
    ctx: Context,
    audit: AuditBuilder,
    auth: Option<Seq<char>>,
    req: AuthResetPasswordRequest,
    token_expires: i64,
) -> Outcome {
    let audit = audit_by_email(store, auth, req.email@, audit);
    match reset_password_party(store, auth, req) {
        Err(e) => Outcome { failure: Some(e), store, audit },
        Ok(p) => {
            let (failure, after) = issue_spec(
                store,
                ctx,
                TokenKind::ResetPassword,
                p,
                token_expires,
            );
            Outcome { failure, store: after, audit }
        },
    }
}

fn reset_password_inner<D: Driver>(
    driver: &mut D,
    ctx: &Context,
    audit: &mut AuditBuilder,
    auth: &Option<String>,
    req: &AuthResetPasswordRequest,
    token_expires: i64,
) -> (r: MethodResult<TemplateEmail>)
    requires
        old(driver).store().wf(),
    ensures
        final(driver).store().wf(),
        (Outcome { failure: failure_of(r), store: final(driver).store(), audit: *final(audit) })
            == reset_password_spec(
            old(driver).store(),
            *ctx,
            *old(audit),
            opt_view(*auth),
            *req,
            token_expires,
        ),
        r matches Ok(m) ==> reset_password_party(old(driver).store(), opt_view(*auth), *req)
            matches Ok(p) && mail_for(
            m,
            EmailKind::ResetPassword,
            p,
            p.user.email,
            None,
            *ctx,
            TokenKind::ResetPassword,
            token_expires,
        ),
{
    let service = key_service_authenticate(driver, audit, auth)?;
    let (user, key) = party_by_email(driver, audit, &service, req.email.as_str(), KeyType::Token)?;
    if !user.password_allow_reset {
        return Err(MethodError::BadRequest(DriverError::UserResetPasswordDisabled));
    }
    let p = Party { service, user, key };
    let token = issue(driver, ctx, TokenKind::ResetPassword, &p, token_expires)?;
    Ok(
        TemplateEmail {
            kind: EmailKind::ResetPassword,
            service_id: p.service.id,
            user_id: p.user.id,
            to: p.user.email,
            previous_to: None,
            token,
        },
    )
}

/// Starts a password reset: issues a reset token for the user with the
/// email address and hands the message that carries it to the mailer. The
/// outcome is recorded in the audit trail.
///
/// Fails `Unauthorised` where the service is not authenticated. Every other
/// failure is kept from the caller, who is answered as if all had gone well,
/// so that the answer does not tell whether an account exists. The mailer
/// is handed a message exactly where the request succeeded.
pub fn reset_password<D: Driver, M: Mailer>(
    driver: &mut D,
    mailer: &mut M,
    ctx: &Context,
    audit_meta: AuditMeta,
    auth: Option<String>,
    req: AuthResetPasswordRequest,
    token_expires: i64,
) -> (r: MethodResult<()>)
    requires
        old(driver).store().wf(),
    ensures
        final(driver).store().wf(),
        failure_of(r) == failure_of(service_of(old(driver).store(), opt_view(auth))),
        posted_store(
            reset_password_spec(
                old(driver).store(),
                *ctx,
                AuditBuilder::new_spec(audit_meta, AuditType::AuthLocalResetPassword),
                opt_view(auth),
                req,
                token_expires,
            ),
            ctx.now,
            final(driver).store(),
            old(mailer).received(),
            final(mailer).received(),
        ),
        reset_password_spec(
            old(driver).store(),
            *ctx,
            AuditBuilder::new_spec(audit_meta, AuditType::AuthLocalResetPassword),
            opt_view(auth),
            req,
            token_expires,
        ).failure is None ==> (reset_password_party(old(driver).store(), opt_view(auth), req)
            matches Ok(p) && mail_for(
            final(mailer).received().last().mail,
            EmailKind::ResetPassword,
            p,
            p.user.email,
            None,
            *ctx,
            TokenKind::ResetPassword,
            token_expires,
        )),
{
    let mut audit = AuditBuilder::new(audit_meta, AuditType::AuthLocalResetPassword);
    let res = reset_password_inner(driver, ctx, &mut audit, &auth, &req, token_expires);
    let res = conclude(driver, mailer, ctx, &audit, res);
    answer_quietly(res)
}

/// A request to confirm a password reset.
#[derive(Debug)]
pub struct AuthResetPasswordConfirmRequest {
    pub token: String,
    pub password: String,
}

/// Who confirms a password reset: the party that the token names, whose
/// user may reset the password.
pub open spec fn reset_password_confirm_party(
    store: Store,
    auth: Option<Seq<char>>,
    req: AuthResetPasswordConfirmRequest,
) -> Result<Party, MethodError> {
    match token_party(store, auth, req.token@, true, false) {
        Err(e) => Err(e),
        Ok(p) => if !p.user.password_allow_reset {
            Err(MethodError::BadRequest(DriverError::UserResetPasswordDisabled))
        } else {
            Ok(p)
        },
    }
}

/// What confirming a password reset does before its outcome is recorded:
/// `hashed` is what hashing the password gave.
pub open spec fn reset_password_confirm_spec(
    store: Store,
    ctx: Context,
    audit: AuditBuilder,
    auth: Option<Seq<char>>,
    req: AuthResetPasswordConfirmRequest,
    revoke_token_expires: i64,
    hashed: Option<String>,
) -> Outcome {
    let audit = token_audit(store, auth, req.token@, true, false, audit);
    match reset_password_confirm_party(store, auth, req) {
        Err(e) => Outcome { failure: Some(e), store, audit },
        Ok(p) => match redeem_spec(store, ctx.now, TokenKind::ResetPassword, p, req.token@) {
            (Err(e), s) => Outcome { failure: Some(e), store: s, audit },
            (Ok(_), s) => {
                let (failure, after) = confirm_spec(
                    s,
                    ctx,
                    p,
                    Some(req.password@),
                    None,
                    revoke_token_expires,
                    hashed,
                );
                Outcome { failure, store: after, audit }
            },
        },
    }
}

fn reset_password_confirm_inner<D: Driver>(
    driver: &mut D,
    ctx: &Context,
    audit: &mut AuditBuilder,
    auth: &Option<String>,
    req: &AuthResetPasswordConfirmRequest,
    revoke_token_expires: i64,
) -> (r: MethodResult<TemplateEmail>)
    requires
        old(driver).store().wf(),
    ensures
        final(driver).store().wf(),
        (Outcome { failure: failure_of(r), store: final(driver).store(), audit: *final(audit) })
            == reset_password_confirm_spec(
            old(driver).store(),
            *ctx,
            *old(audit),
            opt_view(*auth),
            *req,
            revoke_token_expires,
            hashed_as(
                failure_of(r),
                final(driver).store(),
                token_user_id(old(driver).store(), opt_view(*auth), req.token@),
            ),
        ),
        r matches Ok(m) ==> reset_password_confirm_party(
            old(driver).store(),
            opt_view(*auth),
            *req,
        ) matches Ok(p) && mail_for(
            m,
            EmailKind::ResetPasswordConfirm,
            p,
            p.user.email,
            None,
            *ctx,
            TokenKind::Revoke,
            revoke_token_expires,
        ) && bcrypt_verified(req.password@, stored_hash(final(driver).store(), p.user.id)@)
            == Some(true),
{
    let p = token_party_read(driver, audit, auth, req.token.as_str(), true, false)?;
    proof {
        lemma_token_party_user(old(driver).store(), opt_view(*auth), req.token@, true, false);
    }
    if !p.user.password_allow_reset {
        return Err(MethodError::BadRequest(DriverError::UserResetPasswordDisabled));
    }
    redeem(driver, ctx, TokenKind::ResetPassword, &p, req.token.as_str())?;
    let token = confirm(driver, ctx, &p, Some(req.password.as_str()), None, revoke_token_expires)?;
    Ok(
        TemplateEmail {
            kind: EmailKind::ResetPasswordConfirm,
            service_id: p.service.id,
            user_id: p.user.id,
            to: p.user.email,
            previous_to: None,
            token,
        },
    )
}

/// Confirms a password reset: redeems the reset token, which can be done
/// once, issues a revoke token, stores the new password, and hands the
/// message that carries the revoke token to the mailer. The outcome is
/// recorded in the audit trail. Wherever the password was stored, it
/// verifies against the hash that the store holds.
pub fn reset_password_confirm<D: Driver, M: Mailer>(
    driver: &mut D,
    mailer: &mut M,
    ctx: &Context,
    audit_meta: AuditMeta,
    auth: Option<String>,
    req: AuthResetPasswordConfirmRequest,
    revoke_token_expires: i64,
) -> (r: MethodResult<()>)
    requires
        old(driver).store().wf(),
    ensures
        final(driver).store().wf(),
        failure_of(r) == posted_failure(
            reset_password_confirm_spec(
                old(driver).store(),
                *ctx,
                AuditBuilder::new_spec(audit_meta, AuditType::AuthLocalResetPasswordConfirm),
                opt_view(auth),
                req,
                revoke_token_expires,
                hashed_as(
                    failure_of(r),
                    final(driver).store(),
                    token_user_id(old(driver).store(), opt_view(auth), req.token@),
                ),
            ),
            final(mailer).received(),
        ),
        posted_store(
            reset_password_confirm_spec(
                old(driver).store(),
                *ctx,
                AuditBuilder::new_spec(audit_meta, AuditType::AuthLocalResetPasswordConfirm),
                opt_view(auth),
                req,
                revoke_token_expires,
                hashed_as(
                    failure_of(r),
                    final(driver).store(),
                    token_user_id(old(driver).store(), opt_view(auth), req.token@),
                ),
            ),
            ctx.now,
            final(driver).store(),
            old(mailer).received(),
            final(mailer).received(),
        ),
        reset_password_confirm_spec(
            old(driver).store(),
            *ctx,
            AuditBuilder::new_spec(audit_meta, AuditType::AuthLocalResetPasswordConfirm),
            opt_view(auth),
            req,
            revoke_token_expires,
            hashed_as(
            failure_of(r),
            final(driver).store(),
            token_user_id(old(driver).store(), opt_view(auth), req.token@),
            ),
        ).failure is None ==> (reset_password_confirm_party(
            old(driver).store(),
            opt_view(auth),
            req,
        ) matches Ok(p) && mail_for(
            final(mailer).received().last().mail,
            EmailKind::ResetPasswordConfirm,
            p,
            p.user.email,
            None,
            *ctx,
            TokenKind::Revoke,
            revoke_token_expires,
        ) && bcrypt_verified(req.password@, stored_hash(final(driver).store(), p.user.id)@)
            == Some(true)),
{
    let mut audit = AuditBuilder::new(audit_meta, AuditType::AuthLocalResetPasswordConfirm);
    let res = reset_password_confirm_inner(
        driver,
        ctx,
        &mut audit,
        &auth,
        &req,
        revoke_token_expires,
    );
    let res = conclude(driver, mailer, ctx, &audit, res);
    res
}

/// A request to change the email address of a user.
#[derive(Debug)]
pub struct AuthUpdateEmailRequest {
    pub user_id: String,
    pub password: String,
    pub new_email: String,
}

/// A request to change the password of a user.
#[derive(Debug)]
pub struct AuthUpdatePasswordRequest {
    pub user_id: String,
    pub password: String,
    pub new_password: String,
}

/// Who changes an account: the service is authenticated, the text names a
/// user, who is found with a usable token key and knows the password. Where
/// `settled`, the user must not have to update the password first.
pub open spec fn update_party(
    store: Store,
    auth: Option<Seq<char>>,
    user_id: Seq<char>,
    password: Seq<char>,
    settled: bool,
) -> Result<Party, MethodError> {
    match service_of(store, auth) {
        Err(e) => Err(e),
        Ok(service) => match uuid_parsed(user_id) {
            None => Err(MethodError::BadRequest(DriverError::UuidParse)),
            Some(id) => match party(
                store,
                service.id,
                store.user_by_id(id),
                KeyType::Token,
                true,
            ) {
                Err(e) => Err(e),
                Ok((user, key)) => if settled && user.password_require_update {
                    Err(MethodError::Forbidden(DriverError::UserPasswordUpdateRequired))
                } else {
                    match check_password_spec(opt_view(user.password_hash), password) {
                        Err(e) => Err(MethodError::BadRequest(e)),
                        Ok(()) => Ok(Party { service, user, key }),
                    }
                },
            },
        },
    }
}

/// What the audit builder knows after the lookups of [`update_party`].
pub open spec fn update_audit(
    store: Store,
    auth: Option<Seq<char>>,
    user_id: Seq<char>,
    audit: AuditBuilder,
) -> AuditBuilder {
    let known = auth::authenticate_audit(store, auth, audit);
    match service_of(store, auth) {
        Err(_) => known,
        Ok(service) => match uuid_parsed(user_id) {
            None => known,
            Some(id) => party_audit(
                store,
                service.id,
                store.user_by_id(id),
                KeyType::Token,
                true,
                known,
            ),
        },
    }
}

fn update_party_read<D: Driver>(
    driver: &D,
    audit: &mut AuditBuilder,
    auth: &Option<String>,
    user_id: &str,
    password: &str,
    settled: bool,
) -> (r: MethodResult<Party>)
    requires
        driver.store().wf(),
    ensures
        r == update_party(driver.store(), opt_view(*auth), user_id@, password@, settled),
        *final(audit) == update_audit(driver.store(), opt_view(*auth), user_id@, *old(audit)),
        r matches Ok(p) ==> uuid_parsed(user_id@) == Some(p.user.id),
{
    let service = key_service_authenticate(driver, audit, auth)?;
    let id = match string_to_uuid(user_id) {
        Some(id) => id,
        None => {
            return Err(MethodError::BadRequest(DriverError::UuidParse));
        },
    };
    proof {
        lemma_first_match(driver.store().users, user_has_id(id));
    }
    let (user, key) = party_by_id(driver, audit, &service, id, KeyType::Token, true)?;
    if settled && user.password_require_update {
        return Err(MethodError::Forbidden(DriverError::UserPasswordUpdateRequired));
    }
    match check_password(password_hash_of(&user), password) {
        Err(e) => {
            return Err(MethodError::BadRequest(e));
        },
        Ok(()) => {},
    }
    Ok(Party { service, user, key })
}

/// The user as found again after a change, who must still be enabled.
pub open spec fn found_again(store: Store, user_id: Id) -> Result<User, MethodError> {
    match auth::usable_user(store.user_by_id(user_id), true) {
        Ok(u) => Ok(u),
        Err(e) => Err(MethodError::BadRequest(e)),
    }
}

fn find_again<D: Driver>(driver: &D, audit: &mut AuditBuilder, user_id: Id) -> (r: MethodResult<
    User,
>)
    requires
        driver.store().wf(),
    ensures
        r == found_again(driver.store(), user_id),
        *final(audit) == auth::audit_with_user(*old(audit), driver.store().user_by_id(user_id)),
{
    match auth::user_read_id_checked(driver, audit, user_id) {
        Ok(u) => Ok(u),
        Err(e) => Err(MethodError::BadRequest(e)),
    }
}

/// What a change of email address does before its outcome is recorded: a
/// revoke token is issued, the address is changed, and the user is read again.
pub open spec fn update_email_spec(
    store: Store,
    ctx: Context,
    audit: AuditBuilder,
    auth: Option<Seq<char>>,
    req: AuthUpdateEmailRequest,
    revoke_token_expires: i64,
) -> Outcome {
    let audit = update_audit(store, auth, req.user_id@, audit);
    match update_party(store, auth, req.user_id@, req.password@, true) {
        Err(e) => Outcome { failure: Some(e), store, audit },
        Ok(p) => match issue_spec(store, ctx, TokenKind::Revoke, p, revoke_token_expires) {
            (Some(e), s) => Outcome { failure: Some(e), store: s, audit },
            (None, s) => match s.user_update(
                UserUpdate { email: Some(req.new_email), ..UserUpdate::unchanged(p.user.id) },
                ctx.now,
            ) {
                (Err(e), s) => Outcome { failure: Some(MethodError::rejected(e)), store: s, audit },
                (Ok(_), s) => Outcome {
                    failure: failure_of(found_again(s, p.user.id)),
                    store: s,
                    audit: auth::audit_with_user(audit, s.user_by_id(p.user.id)),
                },
            },
        },
    }
}

fn update_email_inner<D: Driver>(
    driver: &mut D,
    ctx: &Context,
    audit: &mut AuditBuilder,
    auth: &Option<String>,
    req: AuthUpdateEmailRequest,
    revoke_token_expires: i64,
) -> (r: MethodResult<TemplateEmail>)
    requires
        old(driver).store().wf(),
    ensures
        final(driver).store().wf(),
        (Outcome { failure: failure_of(r), store: final(driver).store(), audit: *final(audit) })
            == update_email_spec(
            old(driver).store(),
            *ctx,
            *old(audit),
            opt_view(*auth),
            req,
            revoke_token_expires,
        ),
        r matches Ok(m) ==> update_party(
            old(driver).store(),
            opt_view(*auth),
            req.user_id@,
            req.password@,
            true,
        ) matches Ok(p) && mail_for(
            m,
            EmailKind::UpdateEmail,
            p,
            req.new_email,
            Some(p.user.email),
            *ctx,
            TokenKind::Revoke,
            revoke_token_expires,
        ) && (final(driver).store().user_by_id(p.user.id) matches Some(u) && u.email
            == req.new_email),
{
    let p = update_party_read(
        driver,
        audit,
        auth,
        req.user_id.as_str(),
        req.password.as_str(),
        true,
    )?;
    let token = issue(driver, ctx, TokenKind::Revoke, &p, revoke_token_expires)?;
    let old_email = p.user.email.clone();
    let update = UserUpdate::new_email(p.user.id, req.new_email);
    proof {
        if driver.store().user_update(update, ctx.now).0 is Ok {
            driver.store().lemma_user_update_reads_back(update, ctx.now);
        }
    }
    rejected(driver.user_update(update, ctx.now))?;
    let user = find_again(driver, audit, p.user.id)?;
    Ok(
        TemplateEmail {
            kind: EmailKind::UpdateEmail,
            service_id: p.service.id,
            user_id: p.user.id,
            to: user.email,
            previous_to: Some(old_email),
            token,
        },
    )
}

/// Changes the email address of a user who knows the password, issues a
/// revoke token with which the change can be taken back, and hands the
/// message that carries it to the mailer. The outcome is recorded in the
/// audit trail.
///
/// Fails `Forbidden` when the user has to update the password first, and
/// `Conflict` when the new address belongs to another user.
pub fn update_email<D: Driver, M: Mailer>(
    driver: &mut D,
    mailer: &mut M,
    ctx: &Context,
    audit_meta: AuditMeta,
    auth: Option<String>,
    req: AuthUpdateEmailRequest,
    revoke_token_expires: i64,
) -> (r: MethodResult<()>)
    requires
        old(driver).store().wf(),
    ensures
        final(driver).store().wf(),
        failure_of(r) == posted_failure(
            update_email_spec(
                old(driver).store(),
                *ctx,
                AuditBuilder::new_spec(audit_meta, AuditType::AuthLocalUpdateEmail),
                opt_view(auth),
                req,
                revoke_token_expires,
            ),
            final(mailer).received(),
        ),
        posted_store(
            update_email_spec(
                old(driver).store(),
                *ctx,
                AuditBuilder::new_spec(audit_meta, AuditType::AuthLocalUpdateEmail),
                opt_view(auth),
                req,
                revoke_token_expires,
            ),
            ctx.now,
            final(driver).store(),
            old(mailer).received(),
            final(mailer).received(),
        ),
        update_email_spec(
            old(driver).store(),
            *ctx,
            AuditBuilder::new_spec(audit_meta, AuditType::AuthLocalUpdateEmail),
            opt_view(auth),
            req,
            revoke_token_expires,
        ).failure is None ==> (update_party(
            old(driver).store(),
            opt_view(auth),
            req.user_id@,
            req.password@,
            true,
        ) matches Ok(p) && mail_for(
            final(mailer).received().last().mail,
            EmailKind::UpdateEmail,
            p,
            req.new_email,
            Some(p.user.email),
            *ctx,
            TokenKind::Revoke,
            revoke_token_expires,
        ) && (final(driver).store().user_by_id(p.user.id) matches Some(u) && u.email
            == req.new_email)),
{
    let mut audit = AuditBuilder::new(audit_meta, AuditType::AuthLocalUpdateEmail);
    let res = update_email_inner(driver, ctx, &mut audit, &auth, req, revoke_token_expires);
    let res = conclude(driver, mailer, ctx, &audit, res);
    res
}

/// What a change of password does before its outcome is recorded: a revoke
/// token is issued, the new password is stored, `hashed` being what hashing it
/// gave, and the user is read again.
pub open spec fn update_password_spec(
    store: Store,
    ctx: Context,
    audit: AuditBuilder,
    auth: Option<Seq<char>>,
    req: AuthUpdatePasswordRequest,
    revoke_token_expires: i64,
    hashed: Option<String>,
) -> Outcome {
    let audit = update_audit(store, auth, req.user_id@, audit);
    match update_party(store, auth, req.user_id@, req.password@, false) {
        Err(e) => Outcome { failure: Some(e), store, audit },
        Ok(p) => match issue_spec(store, ctx, TokenKind::Revoke, p, revoke_token_expires) {
            (Some(e), s) => Outcome { failure: Some(e), store: s, audit },
            (None, s) => match set_password_spec(s, ctx, p.user.id, None, hashed) {
                (Some(e), s) => Outcome { failure: Some(e), store: s, audit },
                (None, s) => Outcome {
                    failure: failure_of(found_again(s, p.user.id)),
                    store: s,
                    audit: auth::audit_with_user(audit, s.user_by_id(p.user.id)),
                },
            },
        },
    }
}

/// The user that the text of an identifier names.
pub open spec fn named_user_id(user_id: Seq<char>) -> Id {
    uuid_parsed(user_id)->0
}

fn update_password_inner<D: Driver>(
    driver: &mut D,
    ctx: &Context,
    audit: &mut AuditBuilder,
    auth: &Option<String>,
    req: &AuthUpdatePasswordRequest,
    revoke_token_expires: i64,
) -> (r: MethodResult<TemplateEmail>)
    requires
        old(driver).store().wf(),
    ensures
        final(driver).store().wf(),
        (Outcome { failure: failure_of(r), store: final(driver).store(), audit: *final(audit) })
            == update_password_spec(
            old(driver).store(),
            *ctx,
            *old(audit),
            opt_view(*auth),
            *req,
            revoke_token_expires,
            hashed_as(failure_of(r), final(driver).store(), named_user_id(req.user_id@)),
        ),
        r matches Ok(m) ==> update_party(
            old(driver).store(),
            opt_view(*auth),
            req.user_id@,
            req.password@,
            false,
        ) matches Ok(p) && mail_for(
            m,
            EmailKind::UpdatePassword,
            p,
            p.user.email,
            None,
            *ctx,
            TokenKind::Revoke,
            revoke_token_expires,
        ) && bcrypt_verified(req.new_password@, stored_hash(final(driver).store(), p.user.id)@)
            == Some(true),
{
    let p = update_party_read(
        driver,
        audit,
        auth,
        req.user_id.as_str(),
        req.password.as_str(),
        false,
    )?;
    let token = issue(driver, ctx, TokenKind::Revoke, &p, revoke_token_expires)?;
    set_password(driver, ctx, p.user.id, req.new_password.as_str(), None)?;
    let user = find_again(driver, audit, p.user.id)?;
    Ok(
        TemplateEmail {
            kind: EmailKind::UpdatePassword,
            service_id: p.service.id,
            user_id: p.user.id,
            to: user.email,
            previous_to: None,
            token,
        },
    )
}

/// Changes the password of a user who knows the old one, issues a revoke
/// token with which the change can be taken back, and hands the message
/// that carries it to the mailer. A user who has to update the password may
/// do so here. The outcome is recorded in the audit trail. Wherever the
/// password was stored, it verifies against the hash that the store holds.
pub fn update_password<D: Driver, M: Mailer>(
    driver: &mut D,
    mailer: &mut M,
    ctx: &Context,
    audit_meta: AuditMeta,
    auth: Option<String>,
    req: AuthUpdatePasswordRequest,
    revoke_token_expires: i64,
) -> (r: MethodResult<()>)
    requires
        old(driver).store().wf(),
    ensures
        final(driver).store().wf(),
        failure_of(r) == posted_failure(
            update_password_spec(
                old(driver).store(),
                *ctx,
                AuditBuilder::new_spec(audit_meta, AuditType::AuthLocalUpdatePassword),
                opt_view(auth),
                req,
                revoke_token_expires,
                hashed_as(failure_of(r), final(driver).store(), named_user_id(req.user_id@)),
            ),
            final(mailer).received(),
        ),
        posted_store(
            update_password_spec(
                old(driver).store(),
                *ctx,
                AuditBuilder::new_spec(audit_meta, AuditType::AuthLocalUpdatePassword),
                opt_view(auth),
                req,
                revoke_token_expires,
                hashed_as(failure_of(r), final(driver).store(), named_user_id(req.user_id@)),
            ),
            ctx.now,
            final(driver).store(),
            old(mailer).received(),
            final(mailer).received(),
        ),
        update_password_spec(
            old(driver).store(),
            *ctx,
            AuditBuilder::new_spec(audit_meta, AuditType::AuthLocalUpdatePassword),
            opt_view(auth),
            req,
            revoke_token_expires,
            hashed_as(failure_of(r), final(driver).store(), named_user_id(req.user_id@)),
        ).failure is None ==> (update_party(
            old(driver).store(),
            opt_view(auth),
            req.user_id@,
            req.password@,
            false,
        ) matches Ok(p) && mail_for(
            final(mailer).received().last().mail,
            EmailKind::UpdatePassword,
            p,
            p.user.email,
            None,
            *ctx,
            TokenKind::Revoke,
            revoke_token_expires,
        ) && bcrypt_verified(req.new_password@, stored_hash(final(driver).store(), p.user.id)@)
            == Some(true)),
{
    let mut audit = AuditBuilder::new(audit_meta, AuditType::AuthLocalUpdatePassword);
    let res = update_password_inner(driver, ctx, &mut audit, &auth, &req, revoke_token_expires);
    let res = conclude(driver, mailer, ctx, &audit, res);
    res
}

/// A token that is bound to a single-use entry is redeemed at most once:
/// once it has been redeemed, redeeming it again fails `BadRequest`, at
/// whatever time, although its signature still verifies.
pub proof fn lemma_redeem_once(
    store: Store,
    first: i64,
    second: i64,
    kind: TokenKind,
    p: Party,
    token: Seq<char>,
)
    requires
        store.wf(),
        redeem_spec(store, first, kind, p, token).0 is Ok,
    ensures
        redeem_spec(redeem_spec(store, first, kind, p, token).1, second, kind, p, token).0
            matches Err(MethodError::BadRequest(_)),
{
    let k = decode_csrf_spec(first, kind, p.service.id, p.user.id, p.key, token)->Ok_0;
    store.lemma_without_csrf_wf(k);
}

/// A token that was issued is redeemed against its own single-use entry:
/// while the token has not expired and its entry is live and belongs to the
/// service, redeeming it yields that entry, and the entry is gone afterwards.
pub proof fn lemma_redeem_issued(
    store: Store,
    issued_in: Context,
    kind: TokenKind,
    p: Party,
    expires_in: i64,
    token: Seq<char>,
    exp: i64,
    now: i64,
)
    requires
        store.wf(),
        kind.carries_csrf(),
        encoded(issued_in, kind, p.service.id, p.user.id, p.key, expires_in, token, exp),
        now <= exp,
        store.csrf_live(issued_in.csrf_key@, now) matches Some(c) && c.service_id == p.service.id,
    ensures
        redeem_spec(store, now, kind, p, token) == (
            Ok::<Csrf, MethodError>(store.csrf_live(issued_in.csrf_key@, now)->0),
            store.without_csrf(issued_in.csrf_key@),
        ),
        store.without_csrf(issued_in.csrf_key@).csrf_entry(issued_in.csrf_key@) is None,
{
    lemma_decode_encoded(
        issued_in,
        kind,
        p.service.id,
        p.user.id,
        p.key,
        expires_in,
        token,
        exp,
        now,
    );
    store.lemma_without_csrf_wf(issued_in.csrf_key@);
}

/// A login with a revoked key fails `Unauthorised`, whether the key is
/// enabled or not and whoever logs in; no token is issued and the store is
/// left as it is but for the audit trail.
pub proof fn lemma_login_with_revoked_key(
    store: Store,
    ctx: Context,
    audit: AuditBuilder,
    key_value: Seq<char>,
    req: AuthLoginRequest,
    access_token_expires: i64,
    refresh_token_expires: i64,
)
    requires
        store.key_by_value(key_value) matches Some(k) && k.is_revoked,
    ensures
        login_spec(
            store,
            ctx,
            audit,
            Some(key_value),
            req,
            access_token_expires,
            refresh_token_expires,
        ).failure matches Some(MethodError::Unauthorised(_)),
        reported(
            login_spec(
                store,
                ctx,
                audit,
                Some(key_value),
                req,
                access_token_expires,
                refresh_token_expires,
            ),
        ) matches Some(MethodError::Unauthorised(_)),
        login_spec(
            store,
            ctx,
            audit,
            Some(key_value),
            req,
            access_token_expires,
            refresh_token_expires,
        ).store == store,
        recorded(
            login_spec(
                store,
                ctx,
                audit,
                Some(key_value),
                req,
                access_token_expires,
                refresh_token_expires,
            ),
            ctx.now,
        ).csrf == store.csrf,
{
    auth::lemma_revoked_key_is_refused(store, key_value, None);
}

/// A login succeeds where nothing stands in its way: the service is
/// authenticated, the user is found with a usable token key and knows the
/// password, both lifetimes can be added to the time, and no live
/// single-use entry has the context's key. It then leaves one more
/// single-use entry, that of the refresh token, for the service and under
/// the context's key, and changes nothing else before its outcome is
/// recorded.
pub proof fn lemma_login_succeeds(
    store: Store,
    ctx: Context,
    audit: AuditBuilder,
    auth: Option<Seq<char>>,
    req: AuthLoginRequest,
    access_token_expires: i64,
    refresh_token_expires: i64,
)
    requires
        store.wf(),
        login_party(store, auth, req) is Ok,
        ctx.after(access_token_expires) is Some,
        ctx.after(refresh_token_expires) is Some,
        store.csrf_live(ctx.csrf_key@, ctx.now) is None,
    ensures
        login_spec(store, ctx, audit, auth, req, access_token_expires, refresh_token_expires).failure
            is None,
        login_spec(store, ctx, audit, auth, req, access_token_expires, refresh_token_expires).store
            == (Store {
            csrf: store.without_csrf(ctx.csrf_key@).csrf.push(
                Csrf {
                    created_at: ctx.now,
                    key: ctx.csrf_key,
                    value: ctx.csrf_value,
                    ttl: ctx.after(refresh_token_expires)->0,
                    service_id: login_party(store, auth, req)->Ok_0.service.id,
                },
            ),
            ..store
        }),
{
}

} // verus!
