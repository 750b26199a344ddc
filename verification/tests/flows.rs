use sso::audit::{AuditData, AuditKind, AuditMeta};
use sso::audit_type::AuditType;
use sso::context::Context;
use sso::driver::Driver;
use sso::error::{DriverError, MethodError, MethodResult};
use sso::jwt::{Jwt, TokenKind};
use sso::local::{
    login, register, register_confirm, register_revoke, reset_password,
    reset_password_confirm, reset_password_revoke, update_email, update_email_revoke,
    update_password, update_password_revoke, AuthLoginRequest, AuthRegisterConfirmRequest,
    AuthRegisterRequest, AuthResetPasswordConfirmRequest, AuthResetPasswordRequest,
    AuthTokenRequest, AuthUpdateEmailRequest, AuthUpdatePasswordRequest, Courier, EmailKind,
    Outbox, Sender, TemplateEmail,
};
use sso::memory::MemoryDriver;
use sso::model::{
    KeyCreate, KeyType, KeyUpdate, KeyWithValue, Service, ServiceCreate, User, UserCreate,
};
use sso::password::hash_password;
use sso::token::{token_refresh, token_revoke, token_verify};

fn meta() -> AuditMeta {
    AuditMeta::new("agent", "127.0.0.1", None::<String>)
}

fn ctx(now: i64, tag: &str) -> Context {
    Context::new(
        now,
        format!("csrf-key-{}", tag),
        format!("csrf-value-{}", tag),
        format!("key-value-{}", tag),
    )
}

fn service(driver: &mut MemoryDriver, name: &str, allow_register: bool) -> (Service, KeyWithValue) {
    let s = driver
        .service_create(
            ServiceCreate {
                is_enabled: true,
                name: name.to_owned(),
                url: format!("https://{}.example.com/", name),
                user_allow_register: allow_register,
                provider_microsoft_oauth2_url: Some(format!("https://{}.example.com/oauth2", name)),
            },
            10,
        )
        .unwrap();
    let k = driver
        .key_create(
            KeyCreate::service(true, "service key".to_owned(), format!("{}-secret", name), s.id),
            10,
        )
        .unwrap();
    (s, k)
}

fn user(driver: &mut MemoryDriver, s: &Service, email: &str, password: Option<&str>) -> (User, KeyWithValue) {
    let hash = hash_password(password).unwrap();
    let u = driver
        .user_create(
            UserCreate::new(true, "User Name".to_owned(), email.to_owned())
                .password_allow_reset(true)
                .with_password_hash(hash, false),
            10,
        )
        .unwrap();
    let k = driver
        .key_create(
            KeyCreate::user(
                true,
                KeyType::Token,
                "Key Name".to_owned(),
                format!("{}-token-secret", email),
                s.id,
                u.id,
            ),
            10,
        )
        .unwrap();
    (u, k)
}

fn token_request(token: &str) -> AuthTokenRequest {
    AuthTokenRequest { token: token.to_owned(), audit: None }
}

#[test]
fn login_then_verify_then_refresh_once() {
    let mut d = MemoryDriver::new();
    let (s, k1) = service(&mut d, "s", true);
    let (u, _k2) = user(&mut d, &s, "a@example.com", Some("pw"));
    let auth = Some(k1.value.clone());

    let t = login(
        &mut d,
        &ctx(100, "login"),
        meta(),
        auth.clone(),
        AuthLoginRequest { email: "a@example.com".to_owned(), password: "pw".to_owned() },
        60,
        600,
    )
    .unwrap();
    assert_eq!(t.user_id, u.id);
    assert_eq!(t.access_token_expires, 160);
    assert_eq!(t.refresh_token_expires, 700);
    assert_ne!(t.access_token, t.refresh_token);

    let v = token_verify(&mut d, &ctx(110, "verify"), meta(), auth.clone(), token_request(&t.access_token))
        .unwrap();
    assert_eq!(v.user.id, u.id);
    assert_eq!(v.audit, None);

    let t2 = token_refresh(
        &mut d,
        &ctx(120, "refresh"),
        meta(),
        auth.clone(),
        token_request(&t.refresh_token),
        60,
        600,
    )
    .unwrap();
    assert_eq!(t2.user_id, u.id);
    assert_eq!(t2.access_token_expires, 180);

    let replay = token_refresh(
        &mut d,
        &ctx(130, "replay"),
        meta(),
        auth.clone(),
        token_request(&t.refresh_token),
        60,
        600,
    )
    .unwrap_err();
    assert_eq!(replay, MethodError::BadRequest(DriverError::CsrfNotFoundOrUsed));

    // The new refresh token is good for one refresh of its own.
    token_refresh(&mut d, &ctx(140, "again"), meta(), auth, token_request(&t2.refresh_token), 60, 600)
        .unwrap();
}

#[test]
fn login_records_one_audit_entry_per_call() {
    let mut d = MemoryDriver::new();
    let (s, k1) = service(&mut d, "s", true);
    let (u, k2) = user(&mut d, &s, "a@example.com", Some("pw"));
    let before = d.audit_list(&all_audit()).len();
    login(
        &mut d,
        &ctx(100, "login"),
        meta(),
        Some(k1.value.clone()),
        AuthLoginRequest { email: "a@example.com".to_owned(), password: "pw".to_owned() },
        60,
        600,
    )
    .unwrap();
    let trail = d.audit_list(&all_audit());
    assert_eq!(trail.len(), before + 1);
    let a = trail.last().unwrap();
    assert!(matches!(a.type_, AuditKind::Known(AuditType::AuthLocalLogin)));
    assert!(matches!(a.data, AuditData::Empty));
    assert_eq!(a.key_id, Some(k1.id));
    assert_eq!(a.service_id, Some(s.id));
    assert_eq!(a.user_id, Some(u.id));
    assert_eq!(a.user_key_id, Some(k2.id));
    assert_eq!(a.created_at, 100);
    assert_eq!(a.user_agent, "agent");
    assert_eq!(a.remote, "127.0.0.1");
    assert_eq!(a.forwarded, None);
}

fn all_audit() -> sso::audit::AuditList<'static> {
    static QUERY: sso::listing::Page = sso::listing::Page::Limit(1000);
    static FILTER: sso::audit::AuditListFilter = sso::audit::AuditListFilter {
        id: None,
        type_: None,
        subject: None,
        service_id: None,
        user_id: None,
    };
    sso::audit::AuditList { query: &QUERY, filter: &FILTER, service_id_mask: None }
}

fn last_failure(d: &MemoryDriver) -> Option<MethodError> {
    match d.audit_list(&all_audit()).last().unwrap().data {
        AuditData::Failure(e) => Some(e),
        _ => None,
    }
}

#[test]
fn login_failures_by_kind() {
    let mut d = MemoryDriver::new();
    let (s, k1) = service(&mut d, "s", true);
    let (_u, _k2) = user(&mut d, &s, "a@example.com", Some("pw"));
    let req = |email: &str, password: &str| AuthLoginRequest {
        email: email.to_owned(),
        password: password.to_owned(),
    };

    let e = login(&mut d, &ctx(100, "1"), meta(), None, req("a@example.com", "pw"), 60, 600).unwrap_err();
    assert_eq!(e, MethodError::Unauthorised(DriverError::KeyUndefined));
    assert_eq!(last_failure(&d), Some(e));

    let e = login(&mut d, &ctx(100, "2"), meta(), Some("invalid-service-key".to_owned()), req("a@example.com", "pw"), 60, 600)
        .unwrap_err();
    assert_eq!(e, MethodError::Unauthorised(DriverError::KeyNotFound));

    let e = login(&mut d, &ctx(100, "3"), meta(), Some(k1.value.clone()), req("b@example.com", "pw"), 60, 600)
        .unwrap_err();
    assert_eq!(e, MethodError::BadRequest(DriverError::UserNotFound));

    let e = login(&mut d, &ctx(100, "4"), meta(), Some(k1.value.clone()), req("a@example.com", "wrong"), 60, 600)
        .unwrap_err();
    assert_eq!(e, MethodError::BadRequest(DriverError::UserPasswordIncorrect));
    assert_eq!(last_failure(&d), Some(e));
}

#[test]
fn login_forbidden_when_password_update_required() {
    let mut d = MemoryDriver::new();
    let (s, k1) = service(&mut d, "s", true);
    let u = d
        .user_create(
            UserCreate::new(true, "User Name".to_owned(), "a@example.com".to_owned())
                .with_password_hash(hash_password(Some("pw")).unwrap(), true),
            10,
        )
        .unwrap();
    d.key_create(
        KeyCreate::user(true, KeyType::Token, "Key Name".to_owned(), "tk".to_owned(), s.id, u.id),
        10,
    )
    .unwrap();
    let e = login(
        &mut d,
        &ctx(100, "1"),
        meta(),
        Some(k1.value.clone()),
        AuthLoginRequest { email: "a@example.com".to_owned(), password: "pw".to_owned() },
        60,
        600,
    )
    .unwrap_err();
    assert_eq!(e, MethodError::Forbidden(DriverError::UserPasswordUpdateRequired));
}

#[test]
fn login_without_password_or_key() {
    let mut d = MemoryDriver::new();
    let (s, k1) = service(&mut d, "s", true);
    let (_u, _k) = user(&mut d, &s, "nopw@example.com", None);
    d.user_create(UserCreate::new(true, "No Key".to_owned(), "nokey@example.com".to_owned()), 10)
        .unwrap();
    let e = login(
        &mut d,
        &ctx(100, "1"),
        meta(),
        Some(k1.value.clone()),
        AuthLoginRequest { email: "nopw@example.com".to_owned(), password: "pw".to_owned() },
        60,
        600,
    )
    .unwrap_err();
    assert_eq!(e, MethodError::BadRequest(DriverError::UserPasswordUndefined));
    let e = login(
        &mut d,
        &ctx(100, "2"),
        meta(),
        Some(k1.value.clone()),
        AuthLoginRequest { email: "nokey@example.com".to_owned(), password: "pw".to_owned() },
        60,
        600,
    )
    .unwrap_err();
    assert_eq!(e, MethodError::BadRequest(DriverError::KeyNotFound));
}

#[test]
fn reset_password_of_unknown_email_succeeds_and_records_the_failure() {
    let mut d = MemoryDriver::new();
    let (_s, k1) = service(&mut d, "s", true);
    let r = reset_password_mail(
        &mut d,
        &ctx(100, "reset"),
        meta(),
        Some(k1.value.clone()),
        AuthResetPasswordRequest { email: "nonexistent@example.com".to_owned() },
        60,
    );
    assert!(matches!(r, Ok(None)));
    let trail = d.audit_list(&all_audit());
    let a = trail.last().unwrap();
    assert!(matches!(a.type_, AuditKind::Known(AuditType::AuthLocalResetPassword)));
    assert!(matches!(
        a.data,
        AuditData::Failure(MethodError::BadRequest(DriverError::UserNotFound))
    ));
}

#[test]
fn reset_password_then_confirm_then_revoke() {
    let mut d = MemoryDriver::new();
    let (s, k1) = service(&mut d, "s", true);
    let (u, _k2) = user(&mut d, &s, "a@example.com", Some("old"));
    let auth = Some(k1.value.clone());

    let mail = reset_password_mail(
        &mut d,
        &ctx(100, "reset"),
        meta(),
        auth.clone(),
        AuthResetPasswordRequest { email: "a@example.com".to_owned() },
        60,
    )
    .unwrap()
    .unwrap();
    assert_eq!(mail.kind, EmailKind::ResetPassword);
    assert_eq!(mail.to, "a@example.com");
    assert_eq!(mail.user_id, u.id);
    assert_eq!(mail.service_id, s.id);

    let confirm = reset_password_confirm_mail(
        &mut d,
        &ctx(110, "confirm"),
        meta(),
        auth.clone(),
        AuthResetPasswordConfirmRequest { token: mail.token.clone(), password: "new".to_owned() },
        3600,
    )
    .unwrap();
    assert_eq!(confirm.kind, EmailKind::ResetPasswordConfirm);

    // The reset token is good for one confirmation.
    let e = reset_password_confirm_mail(
        &mut d,
        &ctx(111, "confirm2"),
        meta(),
        auth.clone(),
        AuthResetPasswordConfirmRequest { token: mail.token.clone(), password: "other".to_owned() },
        3600,
    )
    .unwrap_err();
    assert_eq!(e, MethodError::BadRequest(DriverError::CsrfNotFoundOrUsed));

    // The new password is in force.
    login(
        &mut d,
        &ctx(120, "login"),
        meta(),
        auth.clone(),
        AuthLoginRequest { email: "a@example.com".to_owned(), password: "new".to_owned() },
        60,
        600,
    )
    .unwrap();

    // The revoke token is good for one revocation.
    let id = reset_password_revoke(
        &mut d,
        &ctx(130, "revoke"),
        meta(),
        auth.clone(),
        AuthTokenRequest { token: confirm.token.clone(), audit: Some("Custom".to_owned()) },
    )
    .unwrap();
    assert!(id.is_some());
    let e = reset_password_revoke(&mut d, &ctx(131, "revoke2"), meta(), auth, token_request(&confirm.token))
        .unwrap_err();
    assert_eq!(e, MethodError::BadRequest(DriverError::CsrfNotFoundOrUsed));
}

#[test]
fn reset_password_disabled_for_user() {
    let mut d = MemoryDriver::new();
    let (s, k1) = service(&mut d, "s", true);
    let u = d
        .user_create(UserCreate::new(true, "User Name".to_owned(), "a@example.com".to_owned()), 10)
        .unwrap();
    d.key_create(
        KeyCreate::user(true, KeyType::Token, "Key Name".to_owned(), "tk".to_owned(), s.id, u.id),
        10,
    )
    .unwrap();
    let r = reset_password_mail(
        &mut d,
        &ctx(100, "reset"),
        meta(),
        Some(k1.value.clone()),
        AuthResetPasswordRequest { email: "a@example.com".to_owned() },
        60,
    );
    assert!(matches!(r, Ok(None)));
    assert_eq!(
        last_failure(&d),
        Some(MethodError::BadRequest(DriverError::UserResetPasswordDisabled))
    );
}

#[test]
fn register_then_confirm_then_revoke() {
    let mut d = MemoryDriver::new();
    let (s, k1) = service(&mut d, "s", true);
    let auth = Some(k1.value.clone());
    let mail = register_mail(
        &mut d,
        &ctx(100, "register"),
        meta(),
        auth.clone(),
        AuthRegisterRequest {
            name: "New User".to_owned(),
            email: "new@example.com".to_owned(),
            locale: Some("en".to_owned()),
            timezone: None,
        },
        60,
    )
    .unwrap()
    .unwrap();
    assert_eq!(mail.kind, EmailKind::Register);
    assert_eq!(mail.to, "new@example.com");
    let u = d.user_read_email("new@example.com").unwrap();
    assert_eq!(u.id, mail.user_id);
    assert_eq!(u.name, "New User");
    assert_eq!(u.locale.as_deref(), Some("en"));
    assert_eq!(u.timezone, None);
    assert!(u.password_allow_reset);
    assert!(u.password_hash.is_none());
    let k = d.key_read_user(s.id, u.id, KeyType::Token, true).unwrap();
    assert_eq!(k.value, "key-value-register");
    assert_eq!(k.name, "New User");

    let confirm = register_confirm_mail(
        &mut d,
        &ctx(110, "confirm"),
        meta(),
        auth.clone(),
        AuthRegisterConfirmRequest {
            token: mail.token.clone(),
            password: Some("pw".to_owned()),
            password_allow_reset: Some(false),
        },
        3600,
    )
    .unwrap();
    assert_eq!(confirm.kind, EmailKind::RegisterConfirm);
    let u = d.user_read_email("new@example.com").unwrap();
    assert!(u.password_hash.is_some());
    assert!(!u.password_allow_reset);

    let e = register_confirm_mail(
        &mut d,
        &ctx(111, "confirm2"),
        meta(),
        auth.clone(),
        AuthRegisterConfirmRequest { token: mail.token.clone(), password: None, password_allow_reset: None },
        3600,
    )
    .unwrap_err();
    assert_eq!(e, MethodError::BadRequest(DriverError::CsrfNotFoundOrUsed));

    assert_eq!(
        register_revoke(&mut d, &ctx(120, "revoke"), meta(), auth.clone(), token_request(&confirm.token)).unwrap(),
        None
    );
    let e = register_revoke(&mut d, &ctx(121, "revoke2"), meta(), auth, token_request(&confirm.token))
        .unwrap_err();
    assert_eq!(e, MethodError::BadRequest(DriverError::CsrfNotFoundOrUsed));
}

#[test]
fn register_is_masked_when_disabled_or_duplicate() {
    let mut d = MemoryDriver::new();
    let (_closed, kc) = service(&mut d, "closed", false);
    let (s, k1) = service(&mut d, "open", true);
    let (_u, _k) = user(&mut d, &s, "a@example.com", None);
    let req = || AuthRegisterRequest {
        name: "New".to_owned(),
        email: "a@example.com".to_owned(),
        locale: None,
        timezone: None,
    };
    let r = register_mail(&mut d, &ctx(100, "1"), meta(), Some(kc.value.clone()), req(), 60);
    assert!(matches!(r, Ok(None)));
    assert_eq!(
        last_failure(&d),
        Some(MethodError::BadRequest(DriverError::ServiceUserRegisterDisabled))
    );
    let r = register_mail(&mut d, &ctx(100, "2"), meta(), Some(k1.value.clone()), req(), 60);
    assert!(matches!(r, Ok(None)));
    assert_eq!(last_failure(&d), Some(MethodError::Conflict(DriverError::UserEmailConflict)));
    // A caller that is not authenticated is told so.
    let r = register_mail(&mut d, &ctx(100, "3"), meta(), None, req(), 60);
    assert_eq!(r.unwrap_err(), MethodError::Unauthorised(DriverError::KeyUndefined));
    assert_eq!(last_failure(&d), Some(MethodError::Unauthorised(DriverError::KeyUndefined)));
    let r = register_mail(
        &mut d,
        &ctx(100, "4"),
        meta(),
        Some("invalid-service-key".to_owned()),
        req(),
        60,
    );
    assert_eq!(r.unwrap_err(), MethodError::Unauthorised(DriverError::KeyNotFound));
}

#[test]
fn update_email_then_revoke() {
    let mut d = MemoryDriver::new();
    let (s, k1) = service(&mut d, "s", true);
    let (u, _k2) = user(&mut d, &s, "a@example.com", Some("pw"));
    let (_other, _) = user(&mut d, &s, "taken@example.com", None);
    let auth = Some(k1.value.clone());
    let id_text = sso::common::Client::client_id(&client_with_id(u.id));

    let e = update_email_mail(
        &mut d,
        &ctx(100, "1"),
        meta(),
        auth.clone(),
        AuthUpdateEmailRequest {
            user_id: "not-a-uuid".to_owned(),
            password: "pw".to_owned(),
            new_email: "b@example.com".to_owned(),
        },
        3600,
    )
    .unwrap_err();
    assert_eq!(e, MethodError::BadRequest(DriverError::UuidParse));

    let e = update_email_mail(
        &mut d,
        &ctx(100, "2"),
        meta(),
        auth.clone(),
        AuthUpdateEmailRequest {
            user_id: id_text.clone(),
            password: "pw".to_owned(),
            new_email: "taken@example.com".to_owned(),
        },
        3600,
    )
    .unwrap_err();
    assert_eq!(e, MethodError::Conflict(DriverError::UserEmailConflict));

    let mail = update_email_mail(
        &mut d,
        &ctx(100, "3"),
        meta(),
        auth.clone(),
        AuthUpdateEmailRequest {
            user_id: id_text.clone(),
            password: "pw".to_owned(),
            new_email: "b@example.com".to_owned(),
        },
        3600,
    )
    .unwrap();
    assert_eq!(mail.kind, EmailKind::UpdateEmail);
    assert_eq!(mail.to, "b@example.com");
    assert_eq!(mail.previous_to.as_deref(), Some("a@example.com"));
    assert_eq!(d.user_read_id(u.id).unwrap().email, "b@example.com");

    update_email_revoke(&mut d, &ctx(110, "4"), meta(), auth.clone(), token_request(&mail.token)).unwrap();
    let e = update_email_revoke(&mut d, &ctx(111, "5"), meta(), auth, token_request(&mail.token)).unwrap_err();
    assert_eq!(e, MethodError::BadRequest(DriverError::CsrfNotFoundOrUsed));
}

fn client_with_id(id: u128) -> sso::common::Client {
    sso::common::Client {
        server_authorize_uri: "https://sso.example.com/authorize".to_owned(),
        server_token_uri: "https://sso.example.com/token".to_owned(),
        server_introspect_uri: "https://sso.example.com/introspect".to_owned(),
        client_id: id,
        client_secret: "secret".to_owned(),
        redirect_uri: "https://client.example.com/redirect".to_owned(),
        client_name: "Client".to_owned(),
        client_uri: "https://client.example.com/".to_owned(),
        enable: true,
        scope: "a b".to_owned(),
        user_scope: "a".to_owned(),
        register_enable: false,
        register_scope: "".to_owned(),
        ttl: sso::common::ConfigOauth2ClientTtl {
            csrf_s: 1,
            code_s: 2,
            oauth2_code_s: 3,
            token_access_s: 4,
            token_refresh_s: 5,
        },
        templates: sso::common::ConfigOauth2ClientTemplates {
            html: "h".to_owned(),
            mail_text: "m".to_owned(),
        },
    }
}

#[test]
fn update_password_then_revoke() {
    let mut d = MemoryDriver::new();
    let (s, k1) = service(&mut d, "s", true);
    let (u, _k2) = user(&mut d, &s, "a@example.com", Some("pw"));
    let auth = Some(k1.value.clone());
    let id_text = sso::common::Client::client_id(&client_with_id(u.id));

    let e = update_password_mail(
        &mut d,
        &ctx(100, "1"),
        meta(),
        auth.clone(),
        AuthUpdatePasswordRequest {
            user_id: id_text.clone(),
            password: "wrong".to_owned(),
            new_password: "next".to_owned(),
        },
        3600,
    )
    .unwrap_err();
    assert_eq!(e, MethodError::BadRequest(DriverError::UserPasswordIncorrect));

    let mail = update_password_mail(
        &mut d,
        &ctx(100, "2"),
        meta(),
        auth.clone(),
        AuthUpdatePasswordRequest {
            user_id: id_text,
            password: "pw".to_owned(),
            new_password: "next".to_owned(),
        },
        3600,
    )
    .unwrap();
    assert_eq!(mail.kind, EmailKind::UpdatePassword);
    assert_eq!(mail.to, "a@example.com");
    let hash = d.user_read_id(u.id).unwrap().password_hash.unwrap();
    assert_eq!(sso::password::check_password(Some(&hash), "next"), Ok(()));

    update_password_revoke(&mut d, &ctx(110, "3"), meta(), auth.clone(), token_request(&mail.token)).unwrap();
    let e = update_password_revoke(&mut d, &ctx(111, "4"), meta(), auth, token_request(&mail.token)).unwrap_err();
    assert_eq!(e, MethodError::BadRequest(DriverError::CsrfNotFoundOrUsed));
}

#[test]
fn token_of_another_service_is_refused() {
    let mut d = MemoryDriver::new();
    let (s1, k1) = service(&mut d, "one", true);
    let (_s2, k2) = service(&mut d, "two", true);
    let (_u, _k) = user(&mut d, &s1, "a@example.com", Some("pw"));
    let t = login(
        &mut d,
        &ctx(100, "login"),
        meta(),
        Some(k1.value.clone()),
        AuthLoginRequest { email: "a@example.com".to_owned(), password: "pw".to_owned() },
        60,
        600,
    )
    .unwrap();
    let e = token_verify(&mut d, &ctx(110, "v"), meta(), Some(k2.value.clone()), token_request(&t.access_token))
        .unwrap_err();
    assert_eq!(e, MethodError::BadRequest(DriverError::JwtServiceMismatch));
    let e = token_refresh(&mut d, &ctx(110, "r"), meta(), Some(k2.value.clone()), token_request(&t.refresh_token), 60, 600)
        .unwrap_err();
    assert_eq!(e, MethodError::BadRequest(DriverError::JwtServiceMismatch));
    let e = token_verify(&mut d, &ctx(110, "w"), meta(), Some(k1.value.clone()), token_request("not-a-token"))
        .unwrap_err();
    assert_eq!(e, MethodError::BadRequest(DriverError::JwtInvalid));
}

#[test]
fn token_is_refused_after_expiry_and_accepted_at_its_last_second() {
    let mut d = MemoryDriver::new();
    let (s, k1) = service(&mut d, "s", true);
    let (_u, _k) = user(&mut d, &s, "a@example.com", Some("pw"));
    let auth = Some(k1.value.clone());
    let t = login(
        &mut d,
        &ctx(100, "login"),
        meta(),
        auth.clone(),
        AuthLoginRequest { email: "a@example.com".to_owned(), password: "pw".to_owned() },
        60,
        600,
    )
    .unwrap();
    token_verify(&mut d, &ctx(160, "a"), meta(), auth.clone(), token_request(&t.access_token)).unwrap();
    let e = token_verify(&mut d, &ctx(161, "b"), meta(), auth.clone(), token_request(&t.access_token))
        .unwrap_err();
    assert_eq!(e, MethodError::BadRequest(DriverError::JwtExpired));
    // A refresh token is no access token, and the other way round.
    let e = token_verify(&mut d, &ctx(110, "c"), meta(), auth.clone(), token_request(&t.refresh_token))
        .unwrap_err();
    assert_eq!(e, MethodError::BadRequest(DriverError::JwtClaimsTypeMismatch));
    let e = token_refresh(&mut d, &ctx(110, "d"), meta(), auth.clone(), token_request(&t.access_token), 60, 600)
        .unwrap_err();
    assert_eq!(e, MethodError::BadRequest(DriverError::JwtClaimsTypeMismatch));
    // An expired refresh token is refused although its entry was never read.
    let e = token_refresh(&mut d, &ctx(701, "e"), meta(), auth, token_request(&t.refresh_token), 60, 600)
        .unwrap_err();
    assert_eq!(e, MethodError::BadRequest(DriverError::JwtExpired));
}

#[test]
fn token_revoke_revokes_the_key() {
    let mut d = MemoryDriver::new();
    let (s, k1) = service(&mut d, "s", true);
    let (_u, k2) = user(&mut d, &s, "a@example.com", Some("pw"));
    let auth = Some(k1.value.clone());
    let t = login(
        &mut d,
        &ctx(100, "login"),
        meta(),
        auth.clone(),
        AuthLoginRequest { email: "a@example.com".to_owned(), password: "pw".to_owned() },
        60,
        600,
    )
    .unwrap();
    token_revoke(&mut d, &ctx(110, "revoke"), meta(), auth.clone(), token_request(&t.access_token)).unwrap();
    let k = d.key_read_id(k2.id).unwrap();
    assert!(k.is_revoked);
    assert!(!k.is_enabled);
    let e = token_verify(&mut d, &ctx(120, "v"), meta(), auth.clone(), token_request(&t.refresh_token))
        .unwrap_err();
    assert_eq!(e, MethodError::BadRequest(DriverError::KeyNotFound));
    // No update brings a revoked key back.
    let k = d
        .key_update(k2.id, KeyUpdate { is_enabled: Some(true), is_revoked: Some(false), name: None }, 130)
        .unwrap();
    assert!(k.is_revoked);
    let e = token_verify(&mut d, &ctx(140, "w"), meta(), auth, token_request(&t.access_token)).unwrap_err();
    assert_eq!(e, MethodError::BadRequest(DriverError::KeyNotFound));
}

#[test]
fn encode_then_decode_returns_the_csrf_key() {
    let mut d = MemoryDriver::new();
    let (s, _k1) = service(&mut d, "s", true);
    let (u, k2) = user(&mut d, &s, "a@example.com", None);
    for (i, kind) in [
        TokenKind::Refresh,
        TokenKind::Register,
        TokenKind::ResetPassword,
        TokenKind::Revoke,
    ]
    .into_iter()
    .enumerate()
    {
        let c = ctx(100, &format!("t{}", i));
        let (token, exp) = Jwt::encode(&mut d, &c, kind, &s, &u, &k2, 50).unwrap();
        assert_eq!(exp, 150);
        assert_eq!(
            Jwt::decode(&ctx(150, "x"), kind, &s, &u, &k2, &token),
            Ok(Some(format!("csrf-key-t{}", i)))
        );
        assert_eq!(Jwt::decode(&ctx(151, "x"), kind, &s, &u, &k2, &token), Err(DriverError::JwtExpired));
        assert_eq!(Jwt::decode_unsafe(&token, s.id), Ok((u.id, k2.id)));
        assert_eq!(Jwt::decode_unsafe(&token, s.id + 1), Err(DriverError::JwtServiceMismatch));
        assert_eq!(Jwt::decode_csrf(&c, kind, &s, &u, &k2, &token), Ok(format!("csrf-key-t{}", i)));
    }
    let c = ctx(100, "access");
    let (token, _) = Jwt::encode(&mut d, &c, TokenKind::Access, &s, &u, &k2, 50).unwrap();
    assert_eq!(Jwt::decode(&c, TokenKind::Access, &s, &u, &k2, &token), Ok(None));
    assert_eq!(
        Jwt::decode_csrf(&c, TokenKind::Access, &s, &u, &k2, &token),
        Err(DriverError::JwtCsrfUndefined)
    );
    assert_eq!(Jwt::decode_any(&s, &u, &k2, &token), Ok(None));
    assert!(d.csrf_read("csrf-key-access", 100).is_none());
}

#[test]
fn decode_checks_signature_and_context() {
    let mut d = MemoryDriver::new();
    let (s, k1) = service(&mut d, "s", true);
    let (u, k2) = user(&mut d, &s, "a@example.com", None);
    let (u2, k3) = user(&mut d, &s, "b@example.com", None);
    let c = ctx(100, "t");
    let (token, _) = Jwt::encode(&mut d, &c, TokenKind::Revoke, &s, &u, &k2, 50).unwrap();
    assert_eq!(Jwt::decode(&c, TokenKind::Revoke, &s, &u, &k3, &token), Err(DriverError::JwtInvalid));
    assert_eq!(
        Jwt::decode(&c, TokenKind::Refresh, &s, &u, &k2, &token),
        Err(DriverError::JwtClaimsTypeMismatch)
    );
    assert_eq!(
        Jwt::decode(&c, TokenKind::Revoke, &s, &u2, &k2, &token),
        Err(DriverError::JwtUserMismatch)
    );
    let mut other_key = k2.clone();
    other_key.id = k1.id;
    assert_eq!(
        Jwt::decode(&c, TokenKind::Revoke, &s, &u, &other_key, &token),
        Err(DriverError::JwtKeyMismatch)
    );
    let mut other_service = s.clone();
    other_service.id = 99;
    assert_eq!(
        Jwt::decode(&c, TokenKind::Revoke, &other_service, &u, &k2, &token),
        Err(DriverError::JwtServiceMismatch)
    );
    assert_eq!(Jwt::decode_unsafe("garbage", s.id), Err(DriverError::JwtInvalid));
    // A second token under the same single-use key is refused while the first entry lives.
    assert_eq!(
        Jwt::encode(&mut d, &c, TokenKind::Revoke, &s, &u, &k2, 50).unwrap_err(),
        DriverError::CsrfKeyConflict
    );
    assert_eq!(
        Jwt::encode(&mut d, &ctx(i64::MAX, "o"), TokenKind::Access, &s, &u, &k2, 1).unwrap_err(),
        DriverError::ExpiryOverflow
    );
}

#[test]
fn token_kind_codes() {
    assert_eq!(TokenKind::Access.to_i64(), 0);
    assert_eq!(TokenKind::Refresh.to_i64(), 1);
    assert_eq!(TokenKind::Register.to_i64(), 2);
    assert_eq!(TokenKind::ResetPassword.to_i64(), 3);
    assert_eq!(TokenKind::Revoke.to_i64(), 4);
    assert_eq!(TokenKind::from_i64(3), Some(TokenKind::ResetPassword));
    assert_eq!(TokenKind::from_i64(5), None);
    assert!(!TokenKind::Access.is_csrf_bound());
    assert!(TokenKind::Revoke.is_csrf_bound());
}

fn quiet(outbox: Outbox, r: MethodResult<()>) -> MethodResult<Option<TemplateEmail>> {
    let mut outbox = outbox;
    r.map(|()| outbox.messages.pop())
}

fn loud(outbox: Outbox, r: MethodResult<()>) -> MethodResult<TemplateEmail> {
    let mut outbox = outbox;
    match r {
        Ok(()) => Ok(outbox.messages.pop().expect("a message was handed to the mailer")),
        Err(e) => {
            assert!(outbox.messages.is_empty());
            Err(e)
        }
    }
}

fn register_mail(
    d: &mut MemoryDriver,
    c: &Context,
    m: AuditMeta,
    auth: Option<String>,
    req: AuthRegisterRequest,
    expires: i64,
) -> MethodResult<Option<TemplateEmail>> {
    let mut outbox = Outbox::new();
    let r = register(d, &mut outbox, c, m, auth, req, expires);
    quiet(outbox, r)
}

fn reset_password_mail(
    d: &mut MemoryDriver,
    c: &Context,
    m: AuditMeta,
    auth: Option<String>,
    req: AuthResetPasswordRequest,
    expires: i64,
) -> MethodResult<Option<TemplateEmail>> {
    let mut outbox = Outbox::new();
    let r = reset_password(d, &mut outbox, c, m, auth, req, expires);
    quiet(outbox, r)
}

fn register_confirm_mail(
    d: &mut MemoryDriver,
    c: &Context,
    m: AuditMeta,
    auth: Option<String>,
    req: AuthRegisterConfirmRequest,
    expires: i64,
) -> MethodResult<TemplateEmail> {
    let mut outbox = Outbox::new();
    let r = register_confirm(d, &mut outbox, c, m, auth, req, expires);
    loud(outbox, r)
}

fn reset_password_confirm_mail(
    d: &mut MemoryDriver,
    c: &Context,
    m: AuditMeta,
    auth: Option<String>,
    req: AuthResetPasswordConfirmRequest,
    expires: i64,
) -> MethodResult<TemplateEmail> {
    let mut outbox = Outbox::new();
    let r = reset_password_confirm(d, &mut outbox, c, m, auth, req, expires);
    loud(outbox, r)
}

fn update_email_mail(
    d: &mut MemoryDriver,
    c: &Context,
    m: AuditMeta,
    auth: Option<String>,
    req: AuthUpdateEmailRequest,
    expires: i64,
) -> MethodResult<TemplateEmail> {
    let mut outbox = Outbox::new();
    let r = update_email(d, &mut outbox, c, m, auth, req, expires);
    loud(outbox, r)
}

fn update_password_mail(
    d: &mut MemoryDriver,
    c: &Context,
    m: AuditMeta,
    auth: Option<String>,
    req: AuthUpdatePasswordRequest,
    expires: i64,
) -> MethodResult<TemplateEmail> {
    let mut outbox = Outbox::new();
    let r = update_password(d, &mut outbox, c, m, auth, req, expires);
    loud(outbox, r)
}

/// A mailer that sends nothing.
struct Undeliverable {
    handed: usize,
}

impl Sender for Undeliverable {
    fn send(&mut self, _mail: &TemplateEmail) -> bool {
        self.handed += 1;
        false
    }
}

#[test]
fn reset_password_without_a_usable_key_is_unauthorised() {
    let mut d = MemoryDriver::new();
    let (s, k1) = service(&mut d, "s", true);
    let (_u, _k2) = user(&mut d, &s, "a@example.com", Some("pw"));
    let revoked = d
        .key_create(KeyCreate::service(true, "old".to_owned(), "revoked-secret".to_owned(), s.id), 10)
        .unwrap();
    d.key_update(revoked.id, KeyUpdate { is_enabled: None, is_revoked: Some(true), name: None }, 11)
        .unwrap();
    let disabled = d
        .key_create(KeyCreate::service(false, "off".to_owned(), "disabled-secret".to_owned(), s.id), 10)
        .unwrap();
    let request = || AuthResetPasswordRequest { email: "a@example.com".to_owned() };
    let mut outbox = Outbox::new();
    for (auth, reason) in [
        (None, DriverError::KeyUndefined),
        (Some("unknown".to_owned()), DriverError::KeyNotFound),
        (Some(revoked.value.clone()), DriverError::KeyRevoked),
        (Some(disabled.value.clone()), DriverError::KeyDisabled),
    ] {
        let r = reset_password(&mut d, &mut outbox, &ctx(100, "r"), meta(), auth, request(), 60);
        assert_eq!(r.unwrap_err(), MethodError::Unauthorised(reason));
        assert_eq!(last_failure(&d), Some(MethodError::Unauthorised(reason)));
    }
    assert!(outbox.messages.is_empty());
    // With a usable key the request is answered, and the message is sent.
    let r = reset_password(&mut d, &mut outbox, &ctx(100, "ok"), meta(), Some(k1.value.clone()), request(), 60);
    assert_eq!(r, Ok(()));
    assert_eq!(outbox.messages.len(), 1);
    assert_eq!(outbox.messages[0].to, "a@example.com");
    assert_eq!(outbox.messages[0].kind, EmailKind::ResetPassword);
}

#[test]
fn reset_password_answers_the_same_for_known_and_unknown_addresses() {
    let mut d = MemoryDriver::new();
    let (s, k1) = service(&mut d, "s", true);
    let (_u, _k2) = user(&mut d, &s, "a@example.com", Some("pw"));
    let auth = Some(k1.value.clone());
    let mut outbox = Outbox::new();
    let known = reset_password(
        &mut d,
        &mut outbox,
        &ctx(100, "1"),
        meta(),
        auth.clone(),
        AuthResetPasswordRequest { email: "a@example.com".to_owned() },
        60,
    );
    assert_eq!(outbox.messages.len(), 1);
    let unknown = reset_password(
        &mut d,
        &mut outbox,
        &ctx(100, "2"),
        meta(),
        auth.clone(),
        AuthResetPasswordRequest { email: "nonexistent@example.com".to_owned() },
        60,
    );
    assert_eq!(known, Ok(()));
    assert_eq!(unknown, known);
    // The mailer was called for the known address alone.
    assert_eq!(outbox.messages.len(), 1);
    let taken = register(
        &mut d,
        &mut outbox,
        &ctx(100, "3"),
        meta(),
        auth.clone(),
        AuthRegisterRequest {
            name: "N".to_owned(),
            email: "a@example.com".to_owned(),
            locale: None,
            timezone: None,
        },
        60,
    );
    let free = register(
        &mut d,
        &mut outbox,
        &ctx(100, "4"),
        meta(),
        auth,
        AuthRegisterRequest {
            name: "N".to_owned(),
            email: "free@example.com".to_owned(),
            locale: None,
            timezone: None,
        },
        60,
    );
    assert_eq!(taken, Ok(()));
    assert_eq!(free, taken);
    assert_eq!(outbox.messages.len(), 2);
    assert_eq!(outbox.messages[1].to, "free@example.com");
    assert_eq!(outbox.messages[1].kind, EmailKind::Register);
}

#[test]
fn a_message_that_is_not_sent_fails_the_operation() {
    let mut d = MemoryDriver::new();
    let (s, k1) = service(&mut d, "s", true);
    let (u, _k2) = user(&mut d, &s, "a@example.com", Some("pw"));
    let auth = Some(k1.value.clone());
    let id_text = sso::common::Client::client_id(&client_with_id(u.id));
    let mut mailer = Courier::new(Undeliverable { handed: 0 });
    let e = update_password(
        &mut d,
        &mut mailer,
        &ctx(100, "1"),
        meta(),
        auth.clone(),
        AuthUpdatePasswordRequest {
            user_id: id_text.clone(),
            password: "pw".to_owned(),
            new_password: "next".to_owned(),
        },
        3600,
    )
    .unwrap_err();
    assert_eq!(e, MethodError::BadRequest(DriverError::EmailSend));
    assert_eq!(last_failure(&d), Some(e));
    assert_eq!(mailer.sender().handed, 1);
    // The password was stored before the message was handed over.
    let hash = d.user_read_id(u.id).unwrap().password_hash.unwrap();
    assert_eq!(sso::password::check_password(Some(&hash), "next"), Ok(()));
    // An operation that fails before its message is built hands the mailer nothing.
    let e = update_password(
        &mut d,
        &mut mailer,
        &ctx(105, "w"),
        meta(),
        auth.clone(),
        AuthUpdatePasswordRequest {
            user_id: id_text,
            password: "wrong".to_owned(),
            new_password: "other".to_owned(),
        },
        3600,
    )
    .unwrap_err();
    assert_eq!(e, MethodError::BadRequest(DriverError::UserPasswordIncorrect));
    assert_eq!(mailer.sender().handed, 1);
    // Where failures are kept from the caller, this one is kept too, and recorded.
    let r = reset_password(
        &mut d,
        &mut mailer,
        &ctx(110, "2"),
        meta(),
        auth,
        AuthResetPasswordRequest { email: "a@example.com".to_owned() },
        60,
    );
    assert_eq!(r, Ok(()));
    assert_eq!(mailer.sender().handed, 2);
    assert_eq!(last_failure(&d), Some(MethodError::BadRequest(DriverError::EmailSend)));
}

#[test]
fn register_confirm_replay_keeps_the_first_password() {
    let mut d = MemoryDriver::new();
    let (_s, k1) = service(&mut d, "s", true);
    let auth = Some(k1.value.clone());
    let mut outbox = Outbox::new();
    register(
        &mut d,
        &mut outbox,
        &ctx(100, "register"),
        meta(),
        auth.clone(),
        AuthRegisterRequest {
            name: "New User".to_owned(),
            email: "new@example.com".to_owned(),
            locale: None,
            timezone: None,
        },
        60,
    )
    .unwrap();
    let mail = outbox.messages[0].clone();
    let confirm = |d: &mut MemoryDriver, outbox: &mut Outbox, tag: &str, password: &str| {
        register_confirm(
            d,
            outbox,
            &ctx(110, tag),
            meta(),
            auth.clone(),
            AuthRegisterConfirmRequest {
                token: mail.token.clone(),
                password: Some(password.to_owned()),
                password_allow_reset: None,
            },
            3600,
        )
    };
    confirm(&mut d, &mut outbox, "c1", "first password").unwrap();
    assert_eq!(outbox.messages.len(), 2);
    assert_eq!(outbox.messages[1].kind, EmailKind::RegisterConfirm);
    let e = confirm(&mut d, &mut outbox, "c2", "second password").unwrap_err();
    assert_eq!(e, MethodError::BadRequest(DriverError::CsrfNotFoundOrUsed));
    assert_eq!(outbox.messages.len(), 2);
    let hash = d.user_read_email("new@example.com").unwrap().password_hash.unwrap();
    assert_eq!(sso::password::check_password(Some(&hash), "first password"), Ok(()));
    assert_eq!(
        sso::password::check_password(Some(&hash), "second password"),
        Err(DriverError::UserPasswordIncorrect)
    );
}

#[test]
fn an_expired_reset_token_changes_nothing_and_sends_nothing() {
    let mut d = MemoryDriver::new();
    let (s, k1) = service(&mut d, "s", true);
    let (u, _k2) = user(&mut d, &s, "a@example.com", Some("old"));
    let auth = Some(k1.value.clone());
    let mut outbox = Outbox::new();
    reset_password(
        &mut d,
        &mut outbox,
        &ctx(100, "reset"),
        meta(),
        auth.clone(),
        AuthResetPasswordRequest { email: "a@example.com".to_owned() },
        60,
    )
    .unwrap();
    let token = outbox.messages[0].token.clone();
    let before = d.user_read_id(u.id).unwrap().password_hash;
    let e = reset_password_confirm(
        &mut d,
        &mut outbox,
        &ctx(161, "late"),
        meta(),
        auth,
        AuthResetPasswordConfirmRequest { token, password: "new".to_owned() },
        3600,
    )
    .unwrap_err();
    assert_eq!(e, MethodError::BadRequest(DriverError::JwtExpired));
    assert_eq!(outbox.messages.len(), 1);
    assert_eq!(d.user_read_id(u.id).unwrap().password_hash, before);
    // The entry of the token was not read.
    assert!(d.csrf_read("csrf-key-reset", 160).is_some());
}

fn signed(secret: &str, claims: Vec<(&str, serde_json::Value)>) -> String {
    let mut m = serde_json::Map::new();
    for (name, value) in claims {
        m.insert(name.to_owned(), value);
    }
    jsonwebtoken::encode(
        &jsonwebtoken::Header::default(),
        &m,
        &jsonwebtoken::EncodingKey::from_secret(secret.as_bytes()),
    )
    .unwrap()
}

#[test]
fn decode_needs_the_mandatory_claims() {
    let mut d = MemoryDriver::new();
    let (s, _k1) = service(&mut d, "s", true);
    let (u, k2) = user(&mut d, &s, "a@example.com", None);
    let text = |id: u128| serde_json::Value::from(format!("00000000-0000-0000-0000-{:012x}", id));
    let all = |csrf: serde_json::Value| {
        vec![
            ("iss", text(s.id)),
            ("sub", text(u.id)),
            ("key", text(k2.id)),
            ("exp", serde_json::Value::from(200)),
            ("x_type", serde_json::Value::from(4)),
            ("x_csrf", csrf),
        ]
    };
    let c = ctx(100, "t");
    let good = signed(&k2.value, all(serde_json::Value::from("bound")));
    assert_eq!(Jwt::decode(&c, TokenKind::Revoke, &s, &u, &k2, &good), Ok(Some("bound".to_owned())));
    assert_eq!(Jwt::decode_unsafe(&good, s.id), Ok((u.id, k2.id)));
    for missing in ["iss", "sub", "key", "exp", "x_type"] {
        let claims = all(serde_json::Value::from("bound")).into_iter().filter(|(n, _)| *n != missing).collect();
        let token = signed(&k2.value, claims);
        assert_eq!(Jwt::decode(&c, TokenKind::Revoke, &s, &u, &k2, &token), Err(DriverError::JwtInvalid));
        assert_eq!(Jwt::decode_unsafe(&token, s.id), Err(DriverError::JwtInvalid));
    }
    // A claim of the wrong type counts as missing.
    let mut claims = all(serde_json::Value::from("bound"));
    claims[3] = ("exp", serde_json::Value::from("200"));
    let token = signed(&k2.value, claims);
    assert_eq!(Jwt::decode(&c, TokenKind::Revoke, &s, &u, &k2, &token), Err(DriverError::JwtInvalid));
    // The single-use key is not mandatory: without it the token is bound to nothing.
    let unbound = signed(&k2.value, all(serde_json::Value::Null));
    assert_eq!(Jwt::decode(&c, TokenKind::Revoke, &s, &u, &k2, &unbound), Ok(None));
    assert_eq!(
        Jwt::decode_csrf(&c, TokenKind::Revoke, &s, &u, &k2, &unbound),
        Err(DriverError::JwtCsrfUndefined)
    );
    let odd = signed(&k2.value, all(serde_json::Value::from(7)));
    assert_eq!(Jwt::decode(&c, TokenKind::Revoke, &s, &u, &k2, &odd), Ok(None));
    // A text that is no identifier in place of the user.
    let mut claims = all(serde_json::Value::from("bound"));
    claims[1] = ("sub", serde_json::Value::from("nobody"));
    let token = signed(&k2.value, claims);
    assert_eq!(Jwt::decode_unsafe(&token, s.id), Err(DriverError::UuidParse));
    assert_eq!(Jwt::decode(&c, TokenKind::Revoke, &s, &u, &k2, &token), Err(DriverError::JwtUserMismatch));
}
