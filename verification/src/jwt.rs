//! Signed tokens: how each kind is issued against a user's key and how it is
//! checked when it comes back.

use jsonwebtoken::{decode, encode, Algorithm, DecodingKey, EncodingKey, Header, Validation};
use serde_json::Value;
use uuid::Uuid;
use vstd::prelude::*;
use crate::context::Context;
use crate::csrf;
use crate::driver::Driver;
use crate::error::{DriverError, DriverResult};
use crate::model::{Id, KeyWithValue, Service, User, UserToken};
use crate::store::Store;
use crate::text::{opt_view, str_eq};

verus! {

/// The stage of its lifecycle that a token stands for.
#[derive(Clone, Copy, Debug, PartialEq, Eq, Structural)]
pub enum TokenKind {
    Access,
    Refresh,
    Register,
    ResetPassword,
    Revoke,
}

impl TokenKind {
    /// The number that stands for the kind inside a token.
    pub open spec fn code(self) -> i64 {
        match self {
            TokenKind::Access => 0,
            TokenKind::Refresh => 1,
            TokenKind::Register => 2,
            TokenKind::ResetPassword => 3,
            TokenKind::Revoke => 4,
        }
    }

    /// Every kind but `Access` is bound to a single-use entry.
    pub open spec fn carries_csrf(self) -> bool {
        self != TokenKind::Access
    }

    /// Computes [`TokenKind::code`].
    pub fn to_i64(self) -> (r: i64)
        ensures
            r == self.code(),
    {
        match self {
            TokenKind::Access => 0,
            TokenKind::Refresh => 1,
            TokenKind::Register => 2,
            TokenKind::ResetPassword => 3,
            TokenKind::Revoke => 4,
        }
    }

    /// The kind that a number stands for, if any.
    pub fn from_i64(code: i64) -> (r: Option<TokenKind>)
        ensures
            r matches Some(k) ==> k.code() == code,
            r is None ==> forall|k: TokenKind| k.code() != code,
    {
        if code == 0 {
            Some(TokenKind::Access)
        } else if code == 1 {
            Some(TokenKind::Refresh)
        } else if code == 2 {
            Some(TokenKind::Register)
        } else if code == 3 {
            Some(TokenKind::ResetPassword)
        } else if code == 4 {
            Some(TokenKind::Revoke)
        } else {
            None
        }
    }

    /// Computes [`TokenKind::carries_csrf`].
    pub fn is_csrf_bound(self) -> (r: bool)
        ensures
            r == self.carries_csrf(),
    {
        match self {
            TokenKind::Access => false,
            _ => true,
        }
    }
}

/// The claim set of a token.
#[derive(Debug)]
pub struct Claims {
    /// The service, as the text of its identifier.
    pub iss: String,
    /// The user, as the text of its identifier.
    pub sub: String,
    /// The key that signed the token, as the text of its identifier.
    pub key: String,
    /// The last second, since the Unix epoch, at which the token is accepted.
    pub exp: i64,
    /// The code of the token's kind.
    pub x_type: i64,
    /// The key of the single-use entry that the token is bound to.
    pub x_csrf: Option<String>,
}

/// A claim set as plain values.
pub struct ClaimsView {
    pub iss: Seq<char>,
    pub sub: Seq<char>,
    pub key: Seq<char>,
    pub exp: i64,
    pub x_type: i64,
    pub x_csrf: Option<Seq<char>>,
}

impl View for Claims {
    type V = ClaimsView;

    open spec fn view(&self) -> ClaimsView {
        ClaimsView {
            iss: self.iss@,
            sub: self.sub@,
            key: self.key@,
            exp: self.exp,
            x_type: self.x_type,
            x_csrf: opt_view(self.x_csrf),
        }
    }
}

/// What a token carries under the six claim names: each is `None` where
/// the token holds no claim of that name and type.
#[derive(Debug)]
pub struct RawClaims {
    pub iss: Option<String>,
    pub sub: Option<String>,
    pub key: Option<String>,
    pub exp: Option<i64>,
    pub x_type: Option<i64>,
    pub x_csrf: Option<String>,
}

/// What a token carries, as plain values.
pub struct RawClaimsView {
    pub iss: Option<Seq<char>>,
    pub sub: Option<Seq<char>>,
    pub key: Option<Seq<char>>,
    pub exp: Option<i64>,
    pub x_type: Option<i64>,
    pub x_csrf: Option<Seq<char>>,
}

impl View for RawClaims {
    type V = RawClaimsView;

    open spec fn view(&self) -> RawClaimsView {
        RawClaimsView {
            iss: opt_view(self.iss),
            sub: opt_view(self.sub),
            key: opt_view(self.key),
            exp: self.exp,
            x_type: self.x_type,
            x_csrf: opt_view(self.x_csrf),
        }
    }
}

/// The plain values of what an optional token carries.
pub open spec fn opt_raw_view(c: Option<RawClaims>) -> Option<RawClaimsView> {
    match c {
        Some(x) => Some(x@),
        None => None,
    }
}

/// The claim set that a token's claims make: the service, the user, the
/// key, the expiry and the kind are mandatory, the single-use key is not.
pub open spec fn claims_of(raw: RawClaimsView) -> Option<ClaimsView> {
    match (raw.iss, raw.sub, raw.key, raw.exp, raw.x_type) {
        (Some(iss), Some(sub), Some(key), Some(exp), Some(x_type)) => Some(
            ClaimsView { iss, sub, key, exp, x_type, x_csrf: raw.x_csrf },
        ),
        _ => None,
    }
}

/// What a token carries that was made from a claim set.
pub open spec fn raw_of(c: ClaimsView) -> RawClaimsView {
    RawClaimsView {
        iss: Some(c.iss),
        sub: Some(c.sub),
        key: Some(c.key),
        exp: Some(c.exp),
        x_type: Some(c.x_type),
        x_csrf: c.x_csrf,
    }
}

/// The token that signing `claims` with `secret` yields.
pub uninterp spec fn jwt_signed(claims: ClaimsView, secret: Seq<char>) -> Seq<char>;

/// What `token` carries if its signature verifies under `secret`.
pub uninterp spec fn jwt_payload(token: Seq<char>, secret: Seq<char>) -> Option<RawClaimsView>;

/// What `token` carries, its signature left unchecked.
pub uninterp spec fn jwt_payload_unverified(token: Seq<char>) -> Option<RawClaimsView>;

/// The hyphenated lower-case text of an identifier.
pub uninterp spec fn uuid_text(id: Id) -> Seq<char>;

/// The identifier that a text stands for, if it is the text of one.
pub uninterp spec fn uuid_parsed(text: Seq<char>) -> Option<Id>;

/// The claim set of `token` if its signature verifies under `secret` and it
/// carries the mandatory claims.
pub open spec fn jwt_verified(token: Seq<char>, secret: Seq<char>) -> Option<ClaimsView> {
    match jwt_payload(token, secret) {
        Some(raw) => claims_of(raw),
        None => None,
    }
}

/// The claim set that `token` carries, its signature left unchecked.
pub open spec fn jwt_unverified(token: Seq<char>) -> Option<ClaimsView> {
    match jwt_payload_unverified(token) {
        Some(raw) => claims_of(raw),
        None => None,
    }
}

/// `token` is what signing `claims` with `secret` gave, and it reads back as
/// those claims, with the signature checked or not.
pub open spec fn issued(claims: ClaimsView, secret: Seq<char>, token: Seq<char>) -> bool {
    &&& jwt_signed(claims, secret) == token
    &&& jwt_payload(token, secret) == Some(raw_of(claims))
    &&& jwt_payload_unverified(token) == Some(raw_of(claims))
}

/// The text of `id` reads back as `id`.
pub open spec fn reads_back(id: Id) -> bool {
    uuid_parsed(uuid_text(id)) == Some(id)
}

/// Signs a claim set with HMAC-SHA256.
///
/// Calls `jsonwebtoken::encode` with the default header on a JSON object of
/// the six claims. With that header and a secret as key the crate's `encode`
/// returns a token on every input; the empty text stands in where it would
/// not. The contract names the result and adds what the crate's `decode`
/// does with a token that `encode` made: with the same secret, and with the
/// checks on time and on standard claims switched off, it verifies and
/// yields the claims that went in.
#[verifier::external_body]
fn jwt_encode(claims: &Claims, secret: &str) -> (r: String)
    ensures
        r@ == jwt_signed(claims@, secret@),
        issued(claims@, secret@, r@),
{
    let mut m = serde_json::Map::new();
    m.insert("iss".into(), claims.iss.clone().into());
    m.insert("sub".into(), claims.sub.clone().into());
    m.insert("key".into(), claims.key.clone().into());
    m.insert("exp".into(), claims.exp.into());
    m.insert("x_type".into(), claims.x_type.into());
    m.insert("x_csrf".into(), claims.x_csrf.clone().into());
    encode(&Header::default(), &m, &EncodingKey::from_secret(secret.as_bytes())).unwrap_or_default()
}

/// Verifies a token's HMAC-SHA256 signature and reads what it carries.
///
/// Calls `jsonwebtoken::decode` with the checks on time and on standard
/// claims switched off, so that the result depends on the token and the
/// secret alone. HS256 is the one algorithm accepted. Each claim is read by
/// its name as a string or as an integer.
#[verifier::external_body]
fn jwt_decode(token: &str, secret: &str) -> (r: Option<RawClaims>)
    ensures
        opt_raw_view(r) == jwt_payload(token@, secret@),
{
    let mut v = Validation::new(Algorithm::HS256);
    v.validate_exp = false;
    v.validate_aud = false;
    v.required_spec_claims.clear();
    let c = decode::<Value>(token, &DecodingKey::from_secret(secret.as_bytes()), &v).ok()?.claims;
    Some(RawClaims {
        iss: c["iss"].as_str().map(str::to_owned),
        sub: c["sub"].as_str().map(str::to_owned),
        key: c["key"].as_str().map(str::to_owned),
        exp: c["exp"].as_i64(),
        x_type: c["x_type"].as_i64(),
        x_csrf: c["x_csrf"].as_str().map(str::to_owned),
    })
}

/// Reads what a token carries without verifying its signature.
///
/// Calls `jsonwebtoken::decode` with signature validation disabled and the
/// checks on time and on standard claims switched off. Each claim is read by
/// its name as a string or as an integer.
#[verifier::external_body]
fn jwt_decode_unverified(token: &str) -> (r: Option<RawClaims>)
    ensures
        opt_raw_view(r) == jwt_payload_unverified(token@),
{
    let mut v = Validation::new(Algorithm::HS256);
    v.insecure_disable_signature_validation();
    v.validate_exp = false;
    v.validate_aud = false;
    v.required_spec_claims.clear();
    let c = decode::<Value>(token, &DecodingKey::from_secret(&[]), &v).ok()?.claims;
    Some(RawClaims {
        iss: c["iss"].as_str().map(str::to_owned),
        sub: c["sub"].as_str().map(str::to_owned),
        key: c["key"].as_str().map(str::to_owned),
        exp: c["exp"].as_i64(),
        x_type: c["x_type"].as_i64(),
        x_csrf: c["x_csrf"].as_str().map(str::to_owned),
    })
}

/// The claim set that a token's claims make, if the mandatory ones are there.
fn claims_from(raw: Option<RawClaims>) -> (r: Option<Claims>)
    ensures
        (match r {
            Some(c) => Some(c@),
            None => None,
        }) == (match opt_raw_view(raw) {
            Some(v) => claims_of(v),
            None => None,
        }),
{
    match raw {
        None => None,
        Some(raw) => match (raw.iss, raw.sub, raw.key, raw.exp, raw.x_type) {
            (Some(iss), Some(sub), Some(key), Some(exp), Some(x_type)) => Some(
                Claims { iss, sub, key, exp, x_type, x_csrf: raw.x_csrf },
            ),
            _ => None,
        },
    }
}

/// The text of an identifier.
///
/// Calls `uuid::Uuid::from_u128` and formats the result, which is the
/// hyphenated lower-case form. The crate's parser accepts every form that
/// the crate writes, so the text reads back as the identifier.
#[verifier::external_body]
pub(crate) fn uuid_to_string(id: Id) -> (r: String)
    ensures
        r@ == uuid_text(id),
        uuid_parsed(r@) == Some(id),
{
    Uuid::from_u128(id).to_string()
}

/// The identifier that a text stands for.
///
/// Calls `uuid::Uuid::parse_str`; `None` where it reports an error.
#[verifier::external_body]
pub(crate) fn string_to_uuid(text: &str) -> (r: Option<Id>)
    ensures
        r == uuid_parsed(text@),
{
    Uuid::parse_str(text).ok().map(|u| u.as_u128())
}

/// The claim set of a token of `kind` for a user of a service, signed by one
/// of the user's keys.
pub open spec fn claims_for(
    kind: TokenKind,
    service_id: Id,
    user_id: Id,
    key_id: Id,
    exp: i64,
    csrf_key: Option<Seq<char>>,
) -> ClaimsView {
    ClaimsView {
        iss: uuid_text(service_id),
        sub: uuid_text(user_id),
        key: uuid_text(key_id),
        exp,
        x_type: kind.code(),
        x_csrf: csrf_key,
    }
}

/// The key of the single-use entry that a token of `kind` issued in `ctx` is
/// bound to.
pub open spec fn csrf_key_for(kind: TokenKind, ctx: Context) -> Option<Seq<char>> {
    if kind.carries_csrf() {
        Some(ctx.csrf_key@)
    } else {
        None
    }
}

/// What issuing a token leaves in the store: for the kinds bound to a
/// single-use entry, that entry, under the context's key and value.
pub open spec fn encode_store(
    store: Store,
    ctx: Context,
    kind: TokenKind,
    service_id: Id,
    expires_in: i64,
) -> Store {
    if kind.carries_csrf() && ctx.after(expires_in) is Some {
        csrf::create_spec(store, service_id, ctx.csrf_key, ctx.csrf_value, expires_in, ctx).1
    } else {
        store
    }
}

/// Why issuing a token fails, or `None` when it succeeds.
pub open spec fn encode_error(
    store: Store,
    ctx: Context,
    kind: TokenKind,
    service_id: Id,
    user_id: Id,
    key: KeyWithValue,
    expires_in: i64,
) -> Option<DriverError> {
    match ctx.after(expires_in) {
        None => Some(DriverError::ExpiryOverflow),
        Some(exp) => {
            let made = csrf::create_spec(
                store,
                service_id,
                ctx.csrf_key,
                ctx.csrf_value,
                expires_in,
                ctx,
            ).0;
            if kind.carries_csrf() && made is Err {
                Some(made->Err_0)
            } else {
                None
            }
        },
    }
}

/// `token`, accepted until `exp`, is a token of `kind` that was issued in
/// `ctx` for a user of a service against one of the user's keys.
pub open spec fn encoded(
    ctx: Context,
    kind: TokenKind,
    service_id: Id,
    user_id: Id,
    key: KeyWithValue,
    expires_in: i64,
    token: Seq<char>,
    exp: i64,
) -> bool {
    &&& ctx.after(expires_in) == Some(exp)
    &&& issued(
        claims_for(kind, service_id, user_id, key.id, exp, csrf_key_for(kind, ctx)),
        key.value@,
        token,
    )
    &&& reads_back(service_id)
    &&& reads_back(user_id)
    &&& reads_back(key.id)
}

/// What checking a token of `kind` at `now` against its context yields: the
/// key of the single-use entry it is bound to, or the first check that fails.
pub open spec fn decode_spec(
    now: i64,
    kind: TokenKind,
    service_id: Id,
    user_id: Id,
    key: KeyWithValue,
    token: Seq<char>,
) -> Result<Option<Seq<char>>, DriverError> {
    match jwt_verified(token, key.value@) {
        None => Err(DriverError::JwtInvalid),
        Some(c) => if c.x_type != kind.code() {
            Err(DriverError::JwtClaimsTypeMismatch)
        } else if c.iss != uuid_text(service_id) {
            Err(DriverError::JwtServiceMismatch)
        } else if c.sub != uuid_text(user_id) {
            Err(DriverError::JwtUserMismatch)
        } else if c.key != uuid_text(key.id) {
            Err(DriverError::JwtKeyMismatch)
        } else if c.exp < now {
            Err(DriverError::JwtExpired)
        } else {
            Ok(c.x_csrf)
        },
    }
}

/// What checking a token of any kind, at any time, against its context
/// yields: the key of the single-use entry it is bound to, or the first
/// check that fails.
pub open spec fn decode_any_spec(service_id: Id, user_id: Id, key: KeyWithValue, token: Seq<char>)
    -> Result<Option<Seq<char>>, DriverError> {
    match jwt_verified(token, key.value@) {
        None => Err(DriverError::JwtInvalid),
        Some(c) => if c.iss != uuid_text(service_id) {
            Err(DriverError::JwtServiceMismatch)
        } else if c.sub != uuid_text(user_id) {
            Err(DriverError::JwtUserMismatch)
        } else if c.key != uuid_text(key.id) {
            Err(DriverError::JwtKeyMismatch)
        } else {
            Ok(c.x_csrf)
        },
    }
}

/// What checking a token that must be bound to a single-use entry yields.
pub open spec fn decode_csrf_spec(
    now: i64,
    kind: TokenKind,
    service_id: Id,
    user_id: Id,
    key: KeyWithValue,
    token: Seq<char>,
) -> Result<Seq<char>, DriverError> {
    match decode_spec(now, kind, service_id, user_id, key, token) {
        Err(e) => Err(e),
        Ok(None) => Err(DriverError::JwtCsrfUndefined),
        Ok(Some(k)) => Ok(k),
    }
}

/// What reading a token without its signature yields: the user and the key
/// it names, provided it names the service.
pub open spec fn decode_unsafe_spec(token: Seq<char>, service_id: Id) -> Result<
    (Id, Id),
    DriverError,
> {
    match jwt_unverified(token) {
        None => Err(DriverError::JwtInvalid),
        Some(c) => if c.iss != uuid_text(service_id) {
            Err(DriverError::JwtServiceMismatch)
        } else {
            match (uuid_parsed(c.sub), uuid_parsed(c.key)) {
                (Some(u), Some(k)) => Ok((u, k)),
                _ => Err(DriverError::UuidParse),
            }
        },
    }
}

/// Same outcome, a token compared by its characters.
pub open spec fn same_text(r: DriverResult<String>, s: Result<Seq<char>, DriverError>) -> bool {
    match (r, s) {
        (Ok(a), Ok(b)) => a@ == b,
        (Err(a), Err(b)) => a == b,
        _ => false,
    }
}

/// Same outcome, an optional token compared by its characters.
pub open spec fn same_opt_text(r: DriverResult<Option<String>>, s: Result<
    Option<Seq<char>>,
    DriverError,
>) -> bool {
    match (r, s) {
        (Ok(a), Ok(b)) => opt_view(a) == b,
        (Err(a), Err(b)) => a == b,
        _ => false,
    }
}

/// Issuing and checking tokens.
pub struct Jwt;

impl Jwt {
    /// Issues a token of `kind` that is accepted for `expires_in` seconds.
    /// For a kind bound to a single-use entry, the entry is created first,
    /// under the context's key and value, then the claims are signed with
    /// the key's value.
    pub fn encode<D: Driver>(
        driver: &mut D,
        ctx: &Context,
        kind: TokenKind,
        service: &Service,
        user: &User,
        key: &KeyWithValue,
        expires_in: i64,
    ) -> (r: DriverResult<(String, i64)>)
        requires
            old(driver).store().wf(),
        ensures
            final(driver).store().wf(),
            final(driver).store() == encode_store(
                old(driver).store(),
                *ctx,
                kind,
                service.id,
                expires_in,
            ),
            r is Err <==> encode_error(
                old(driver).store(),
                *ctx,
                kind,
                service.id,
                user.id,
                *key,
                expires_in,
            ) is Some,
            r matches Err(e) ==> encode_error(
                old(driver).store(),
                *ctx,
                kind,
                service.id,
                user.id,
                *key,
                expires_in,
            ) == Some(e),
            r matches Ok((t, exp)) ==> encoded(
                *ctx,
                kind,
                service.id,
                user.id,
                *key,
                expires_in,
                t@,
                exp,
            ),
    {
        let exp = match ctx.expires_at(expires_in) {
            Some(exp) => exp,
            None => {
                return Err(DriverError::ExpiryOverflow);
            },
        };
        let x_csrf = if kind.is_csrf_bound() {
            match csrf::create(
                driver,
                ctx,
                service,
                ctx.csrf_key.clone(),
                ctx.csrf_value.clone(),
                expires_in,
            ) {
                Ok(_) => Some(ctx.csrf_key.clone()),
                Err(e) => {
                    return Err(e);
                },
            }
        } else {
            None
        };
        let claims = Claims {
            iss: uuid_to_string(service.id),
            sub: uuid_to_string(user.id),
            key: uuid_to_string(key.id),
            exp,
            x_type: kind.to_i64(),
            x_csrf,
        };
        assert(claims@ == claims_for(
            kind,
            service.id,
            user.id,
            key.id,
            exp,
            csrf_key_for(kind, *ctx),
        ));
        Ok((jwt_encode(&claims, key.value.as_str()), exp))
    }

    /// Checks a token at the context's time: its signature under the key's
    /// value, its kind, the service, user and key it names, and its expiry,
    /// in that order. Returns the key of the single-use entry that the token
    /// is bound to.
    pub fn decode(
        ctx: &Context,
        kind: TokenKind,
        service: &Service,
        user: &User,
        key: &KeyWithValue,
        token: &str,
    ) -> (r: DriverResult<Option<String>>)
        ensures
            same_opt_text(r, decode_spec(ctx.now, kind, service.id, user.id, *key, token@)),
    {
        match claims_from(jwt_decode(token, key.value.as_str())) {
            None => Err(DriverError::JwtInvalid),
            Some(c) => {
                if c.x_type != kind.to_i64() {
                    Err(DriverError::JwtClaimsTypeMismatch)
                } else if !str_eq(c.iss.as_str(), uuid_to_string(service.id).as_str()) {
                    Err(DriverError::JwtServiceMismatch)
                } else if !str_eq(c.sub.as_str(), uuid_to_string(user.id).as_str()) {
                    Err(DriverError::JwtUserMismatch)
                } else if !str_eq(c.key.as_str(), uuid_to_string(key.id).as_str()) {
                    Err(DriverError::JwtKeyMismatch)
                } else if c.exp < ctx.now {
                    Err(DriverError::JwtExpired)
                } else {
                    Ok(c.x_csrf)
                }
            },
        }
    }

    /// Checks a token of any kind, expired or not: its signature under the
    /// key's value and the service, user and key it names. Returns the key
    /// of the single-use entry that the token is bound to.
    pub fn decode_any(service: &Service, user: &User, key: &KeyWithValue, token: &str) -> (r:
        DriverResult<Option<String>>)
        ensures
            same_opt_text(r, decode_any_spec(service.id, user.id, *key, token@)),
    {
        match claims_from(jwt_decode(token, key.value.as_str())) {
            None => Err(DriverError::JwtInvalid),
            Some(c) => {
                if !str_eq(c.iss.as_str(), uuid_to_string(service.id).as_str()) {
                    Err(DriverError::JwtServiceMismatch)
                } else if !str_eq(c.sub.as_str(), uuid_to_string(user.id).as_str()) {
                    Err(DriverError::JwtUserMismatch)
                } else if !str_eq(c.key.as_str(), uuid_to_string(key.id).as_str()) {
                    Err(DriverError::JwtKeyMismatch)
                } else {
                    Ok(c.x_csrf)
                }
            },
        }
    }

    /// As [`Jwt::decode`], for a token that must be bound to a single-use entry.
    pub fn decode_csrf(
        ctx: &Context,
        kind: TokenKind,
        service: &Service,
        user: &User,
        key: &KeyWithValue,
        token: &str,
    ) -> (r: DriverResult<String>)
        ensures
            same_text(r, decode_csrf_spec(ctx.now, kind, service.id, user.id, *key, token@)),
    {
        match Jwt::decode(ctx, kind, service, user, key, token) {
            Err(e) => Err(e),
            Ok(None) => Err(DriverError::JwtCsrfUndefined),
            Ok(Some(k)) => Ok(k),
        }
    }

    /// Reads the user and the key that a token names, without verifying its
    /// signature. The result tells which key to fetch for the real check; it
    /// authorises nothing.
    pub fn decode_unsafe(token: &str, service_id: Id) -> (r: DriverResult<(Id, Id)>)
        ensures
            r == decode_unsafe_spec(token@, service_id),
    {
        match claims_from(jwt_decode_unverified(token)) {
            None => Err(DriverError::JwtInvalid),
            Some(c) => {
                if !str_eq(c.iss.as_str(), uuid_to_string(service_id).as_str()) {
                    Err(DriverError::JwtServiceMismatch)
                } else {
                    match (string_to_uuid(c.sub.as_str()), string_to_uuid(c.key.as_str())) {
                        (Some(u), Some(k)) => Ok((u, k)),
                        _ => Err(DriverError::UuidParse),
                    }
                }
            },
        }
    }
}

/// Why issuing an access token and a refresh token fails, or `None` when it
/// succeeds. The access token is issued first.
pub open spec fn user_token_error(
    store: Store,
    ctx: Context,
    service_id: Id,
    user_id: Id,
    key: KeyWithValue,
    access_expires: i64,
    refresh_expires: i64,
) -> Option<DriverError> {
    match encode_error(store, ctx, TokenKind::Access, service_id, user_id, key, access_expires) {
        Some(e) => Some(e),
        None => encode_error(
            store,
            ctx,
            TokenKind::Refresh,
            service_id,
            user_id,
            key,
            refresh_expires,
        ),
    }
}

/// What issuing an access token and a refresh token leaves in the store:
/// the single-use entry of the refresh token, once the access token is issued.
pub open spec fn user_token_store(
    store: Store,
    ctx: Context,
    service_id: Id,
    user_id: Id,
    key: KeyWithValue,
    access_expires: i64,
    refresh_expires: i64,
) -> Store {
    if encode_error(store, ctx, TokenKind::Access, service_id, user_id, key, access_expires)
        is None {
        encode_store(store, ctx, TokenKind::Refresh, service_id, refresh_expires)
    } else {
        store
    }
}

/// `token` holds an access token and a refresh token that were issued in
/// `ctx` for a user of a service against one of the user's keys.
pub open spec fn user_token_issued(
    ctx: Context,
    service_id: Id,
    user_id: Id,
    key: KeyWithValue,
    access_expires: i64,
    refresh_expires: i64,
    token: UserToken,
) -> bool {
    &&& token.user_id == user_id
    &&& encoded(
        ctx,
        TokenKind::Access,
        service_id,
        user_id,
        key,
        access_expires,
        token.access_token@,
        token.access_token_expires,
    )
    &&& encoded(
        ctx,
        TokenKind::Refresh,
        service_id,
        user_id,
        key,
        refresh_expires,
        token.refresh_token@,
        token.refresh_token_expires,
    )
}

/// The outcome fails exactly as `failure` says.
pub open spec fn fails_with<T>(r: DriverResult<T>, failure: Option<DriverError>) -> bool {
    match r {
        Ok(_) => failure is None,
        Err(e) => failure == Some(e),
    }
}

impl Jwt {
    /// Issues an access token, which is bound to nothing and expires by
    /// itself, and a refresh token, which is bound to a single-use entry.
    pub fn encode_user_token<D: Driver>(
        driver: &mut D,
        ctx: &Context,
        service: &Service,
        user: &User,
        key: &KeyWithValue,
        access_token_expires: i64,
        refresh_token_expires: i64,
    ) -> (r: DriverResult<UserToken>)
        requires
            old(driver).store().wf(),
        ensures
            final(driver).store().wf(),
            final(driver).store() == user_token_store(
                old(driver).store(),
                *ctx,
                service.id,
                user.id,
                *key,
                access_token_expires,
                refresh_token_expires,
            ),
            fails_with(
                r,
                user_token_error(
                    old(driver).store(),
                    *ctx,
                    service.id,
                    user.id,
                    *key,
                    access_token_expires,
                    refresh_token_expires,
                ),
            ),
            r matches Ok(t) ==> user_token_issued(
                *ctx,
                service.id,
                user.id,
                *key,
                access_token_expires,
                refresh_token_expires,
                t,
            ),
    {
        let (access_token, access_exp) = match Jwt::encode(
            driver,
            ctx,
            TokenKind::Access,
            service,
            user,
            key,
            access_token_expires,
        ) {
            Ok(t) => t,
            Err(e) => {
                return Err(e);
            },
        };
        let (refresh_token, refresh_exp) = match Jwt::encode(
            driver,
            ctx,
            TokenKind::Refresh,
            service,
            user,
            key,
            refresh_token_expires,
        ) {
            Ok(t) => t,
            Err(e) => {
                return Err(e);
            },
        };
        Ok(
            UserToken {
                user_id: user.id,
                access_token,
                access_token_expires: access_exp,
                refresh_token,
                refresh_token_expires: refresh_exp,
            },
        )
    }
}

/// A token that was issued checks out, against the context it was issued
/// for and up to its last second, and yields the key of the single-use entry
/// it was bound to.
pub proof fn lemma_decode_encoded(
    ctx: Context,
    kind: TokenKind,
    service_id: Id,
    user_id: Id,
    key: KeyWithValue,
    expires_in: i64,
    token: Seq<char>,
    exp: i64,
    now: i64,
)
    requires
        encoded(ctx, kind, service_id, user_id, key, expires_in, token, exp),
        now <= exp,
    ensures
        decode_spec(now, kind, service_id, user_id, key, token) == Ok::<
            Option<Seq<char>>,
            DriverError,
        >(csrf_key_for(kind, ctx)),
        decode_unsafe_spec(token, service_id) == Ok::<(Id, Id), DriverError>((user_id, key.id)),
{
}

/// A token checked after its last second is refused, whatever else holds of it.
pub proof fn lemma_decode_expired(
    now: i64,
    kind: TokenKind,
    service_id: Id,
    user_id: Id,
    key: KeyWithValue,
    token: Seq<char>,
)
    requires
        jwt_verified(token, key.value@) matches Some(c) && c.exp < now,
    ensures
        decode_spec(now, kind, service_id, user_id, key, token) is Err,
        decode_csrf_spec(now, kind, service_id, user_id, key, token) is Err,
{
}

/// An issued token checked after its last second is refused as expired.
pub proof fn lemma_decode_encoded_expired(
    ctx: Context,
    kind: TokenKind,
    service_id: Id,
    user_id: Id,
    key: KeyWithValue,
    expires_in: i64,
    token: Seq<char>,
    exp: i64,
    now: i64,
)
    requires
        encoded(ctx, kind, service_id, user_id, key, expires_in, token, exp),
        now > exp,
    ensures
        decode_spec(now, kind, service_id, user_id, key, token) == Err::<
            Option<Seq<char>>,
            DriverError,
        >(DriverError::JwtExpired),
{
}

} // verus!
