use sso::audit::{
    AuditBuilder, AuditCreate2, AuditData, AuditKind, AuditList, AuditListFilter, AuditMeta,
};
use sso::trail::{audit_create, audit_list, audit_read};
use sso::audit_type::AuditType;
use sso::client::{match_status_code, AsyncClient, Body, Error, Method, SyncClient};
use sso::common::{RequestSeekId, ResponseClient};
use sso::context::Context;
use sso::driver::Driver;
use sso::error::{DriverError, MethodError};
use sso::key::{
    key_create, key_delete, key_list, key_read, key_update, KeyCreateRequest, KeyListRequest,
    KeyUpdateRequest,
};
use sso::listing::Page;
use sso::memory::MemoryDriver;
use sso::model::{
    KeyCreate, KeyListFilter, KeyType, KeyWithValue, Service, ServiceCreate, UserCreate,
    UserListFilter, UserRead, UserToken, UserUpdate, DEFAULT_CSRF_EXPIRES_S, DEFAULT_LIMIT,
};
use sso::oauth2::{
    auth_provider_microsoft_oauth2_callback, auth_provider_microsoft_oauth2_exchange,
    auth_provider_microsoft_oauth2_url, new_client, oauth2_login, oauth2_redirect,
    AuthOauth2CallbackRequest, AuthProviderOauth2, AuthProviderOauth2Args,
};
use sso::user::{UserCreateRequest, UserListRequest};
use sso::verify::{
    api_csrf_verify, csrf_create, csrf_verify, totp_challenge, totp_verify,
    AuthCsrfCreateRequest, AuthCsrfVerifyRequest, AuthTotpRequest,
};

fn api_meta() -> AuditMeta {
    AuditMeta::new("agent", "127.0.0.1", None::<String>)
}

fn api_ctx(now: i64, tag: &str) -> Context {
    Context::new(
        now,
        format!("state-{}", tag),
        format!("verifier-{}-0123456789012345678901234567890123456789", tag),
        format!("key-value-{}", tag),
    )
}

fn api_service(d: &mut MemoryDriver, name: &str, redirect: Option<&str>) -> (Service, KeyWithValue) {
    let s = d
        .service_create(
            ServiceCreate {
                is_enabled: true,
                name: name.to_owned(),
                url: format!("https://{}.example.com/landing?x=1", name),
                user_allow_register: true,
                provider_microsoft_oauth2_url: redirect.map(|r| r.to_owned()),
            },
            1,
        )
        .unwrap();
    let k = d
        .key_create(KeyCreate::service(true, "sk".to_owned(), format!("{}-secret", name), s.id), 1)
        .unwrap();
    (s, k)
}

fn api_trail(d: &MemoryDriver) -> Vec<sso::audit::Audit> {
    let q = Page::Limit(1000);
    let f = AuditListFilter { id: None, type_: None, subject: None, service_id: None, user_id: None };
    d.audit_list(&AuditList { query: &q, filter: &f, service_id_mask: None })
}

fn provider() -> AuthProviderOauth2 {
    AuthProviderOauth2 { client_id: "client id".to_owned(), client_secret: "client-secret".to_owned() }
}

fn args(p: Option<&AuthProviderOauth2>) -> AuthProviderOauth2Args<'_> {
    AuthProviderOauth2Args {
        provider: p,
        user_agent: "agent".to_owned(),
        access_token_expires: 60,
        refresh_token_expires: 600,
    }
}

#[test]
fn oauth2_url_stores_state_and_verifier() {
    let mut d = MemoryDriver::new();
    let (s, k) = api_service(&mut d, "s", Some("https://s.example.com/oauth2"));
    let p = provider();
    let c = api_ctx(100, "a");
    let r = auth_provider_microsoft_oauth2_url(&mut d, &c, api_meta(), Some(k.value.clone()), args(Some(&p)))
        .unwrap();
    assert!(r.url.starts_with(
        "https://login.microsoftonline.com/common/oauth2/v2.0/authorize?response_type=code&client_id=client+id&state=state-a&code_challenge="
    ));
    assert!(r.url.ends_with(
        "&code_challenge_method=S256&redirect_uri=https%3A%2F%2Fs.example.com%2Foauth2&scope=https%3A%2F%2Fgraph.microsoft.com%2FUser.Read"
    ));
    // The success is recorded; the entry is there, once.
    let trail = api_trail(&d);
    assert_eq!(trail.len(), 1);
    assert!(matches!(trail[0].type_, AuditKind::Known(AuditType::AuthMicrosoftOauth2Url)));
    assert!(matches!(trail[0].data, AuditData::Empty));
    let entry = d.csrf_read("state-a", 160).unwrap();
    assert_eq!(entry.value, c.csrf_value);
    assert_eq!(entry.service_id, s.id);
    assert_eq!(entry.ttl, 160);
    assert!(d.csrf_read("state-a", 160).is_none());
}

#[test]
fn oauth2_url_failures() {
    let mut d = MemoryDriver::new();
    let (_s, k) = api_service(&mut d, "s", Some("https://s.example.com/oauth2"));
    let (_n, kn) = api_service(&mut d, "none", None);
    let (_b, kb) = api_service(&mut d, "bad", Some("not a url"));
    let p = provider();
    let c = api_ctx(100, "a");
    let e = auth_provider_microsoft_oauth2_url(&mut d, &c, api_meta(), None, args(Some(&p))).unwrap_err();
    assert_eq!(e, MethodError::Unauthorised(DriverError::KeyUndefined));
    assert_eq!(api_trail(&d).len(), 1);
    let e = auth_provider_microsoft_oauth2_url(&mut d, &c, api_meta(), Some(k.value.clone()), args(None)).unwrap_err();
    assert_eq!(e, MethodError::BadRequest(DriverError::ServiceProviderMicrosoftOauth2Disabled));
    let e = auth_provider_microsoft_oauth2_url(&mut d, &c, api_meta(), Some(kn.value.clone()), args(Some(&p)))
        .unwrap_err();
    assert_eq!(e, MethodError::BadRequest(DriverError::ServiceProviderMicrosoftOauth2Disabled));
    let e = auth_provider_microsoft_oauth2_url(&mut d, &c, api_meta(), Some(kb.value.clone()), args(Some(&p)))
        .unwrap_err();
    assert_eq!(e, MethodError::BadRequest(DriverError::UrlParse));
    let short = Context::new(100, "st".to_owned(), "short".to_owned(), "kv".to_owned());
    let e = auth_provider_microsoft_oauth2_url(&mut d, &short, api_meta(), Some(k.value.clone()), args(Some(&p)))
        .unwrap_err();
    assert_eq!(e, MethodError::BadRequest(DriverError::Oauth2Verifier));
    auth_provider_microsoft_oauth2_url(&mut d, &c, api_meta(), Some(k.value.clone()), args(Some(&p))).unwrap();
    let e = auth_provider_microsoft_oauth2_url(&mut d, &c, api_meta(), Some(k.value.clone()), args(Some(&p)))
        .unwrap_err();
    assert_eq!(e, MethodError::Conflict(DriverError::CsrfKeyConflict));
    assert!(matches!(
        api_trail(&d).last().unwrap().type_,
        AuditKind::Known(AuditType::AuthMicrosoftOauth2Url)
    ));
}

fn token_user(d: &mut MemoryDriver, s: &Service, email: &str) -> u128 {
    let u = d.user_create(UserCreate::new(true, "U".to_owned(), email.to_owned()), 1).unwrap();
    d.key_create(
        KeyCreate::user(true, KeyType::Token, "tk".to_owned(), format!("{}-tk", email), s.id, u.id),
        1,
    )
    .unwrap();
    u.id
}

#[test]
fn oauth2_callback_logs_the_user_in_once() {
    let mut d = MemoryDriver::new();
    let (s, k) = api_service(&mut d, "s", Some("https://s.example.com/oauth2"));
    let uid = token_user(&mut d, &s, "a@example.com");
    let p = provider();
    let c = api_ctx(100, "a");
    auth_provider_microsoft_oauth2_url(&mut d, &c, api_meta(), Some(k.value.clone()), args(Some(&p))).unwrap();
    let request = || AuthOauth2CallbackRequest { code: "code".to_owned(), state: "state-a".to_owned() };
    let x = auth_provider_microsoft_oauth2_exchange(
        &mut d,
        &api_ctx(110, "b"),
        api_meta(),
        Some(k.value.clone()),
        args(Some(&p)),
        request(),
    )
    .unwrap();
    assert_eq!(x.code, "code");
    assert_eq!(x.code_verifier, c.csrf_value);
    assert_eq!(x.service_id, s.id);
    assert_eq!(x.service.id, s.id);
    assert_eq!(x.client.client_id, "client id");
    assert_eq!(x.client.client_secret, "client-secret");
    assert_eq!(x.client.redirect_url, "https://s.example.com/oauth2");
    // An accepted callback is recorded once it is completed.
    assert_eq!(api_trail(&d).len(), 1);

    let t = auth_provider_microsoft_oauth2_callback(
        &mut d,
        &api_ctx(120, "c"),
        x,
        Some("a@example.com".to_owned()),
        60,
        600,
    )
    .unwrap();
    assert_eq!(t.data.user_id, uid);
    assert_eq!(t.data.access_token_expires, 180);
    assert_eq!(t.audit, None);
    let trail = api_trail(&d);
    assert_eq!(trail.len(), 2);
    assert!(matches!(trail[1].type_, AuditKind::Known(AuditType::AuthMicrosoftOauth2Callback)));
    assert_eq!(trail[1].user_id, Some(uid));

    // The state is good for one callback.
    let e = auth_provider_microsoft_oauth2_exchange(
        &mut d,
        &api_ctx(130, "d"),
        api_meta(),
        Some(k.value.clone()),
        args(Some(&p)),
        request(),
    )
    .unwrap_err();
    assert_eq!(e, MethodError::BadRequest(DriverError::CsrfNotFoundOrUsed));
    assert_eq!(api_trail(&d).len(), 3);
}

#[test]
fn oauth2_callback_of_another_service_is_refused() {
    let mut d = MemoryDriver::new();
    let (s1, k1) = api_service(&mut d, "one", Some("https://one.example.com/oauth2"));
    let (s2, k2) = api_service(&mut d, "two", Some("https://two.example.com/oauth2"));
    token_user(&mut d, &s1, "a@example.com");
    token_user(&mut d, &s2, "b@example.com");
    let p = provider();
    auth_provider_microsoft_oauth2_url(&mut d, &api_ctx(100, "a"), api_meta(), Some(k1.value.clone()), args(Some(&p)))
        .unwrap();
    let x = auth_provider_microsoft_oauth2_exchange(
        &mut d,
        &api_ctx(110, "b"),
        api_meta(),
        Some(k2.value.clone()),
        args(Some(&p)),
        AuthOauth2CallbackRequest { code: "code".to_owned(), state: "state-a".to_owned() },
    )
    .unwrap();
    assert_eq!(x.service.id, s2.id);
    assert_eq!(x.service_id, s1.id);
    let e = auth_provider_microsoft_oauth2_callback(
        &mut d,
        &api_ctx(120, "c"),
        x,
        Some("b@example.com".to_owned()),
        60,
        600,
    )
    .unwrap_err();
    assert_eq!(e, MethodError::BadRequest(DriverError::CsrfServiceMismatch));
    assert!(matches!(
        api_trail(&d).last().unwrap().data,
        AuditData::Failure(MethodError::BadRequest(DriverError::CsrfServiceMismatch))
    ));
}

#[test]
fn oauth2_login_needs_an_existing_user() {
    let mut d = MemoryDriver::new();
    let (s, _k) = api_service(&mut d, "s", None);
    let mut audit = AuditBuilder::new(api_meta(), AuditType::AuthOauth2Login);
    let e = oauth2_login(&mut d, &api_ctx(1, "a"), &mut audit, &s, s.id, "nobody@example.com".to_owned(), 60, 600)
        .unwrap_err();
    assert_eq!(e, MethodError::BadRequest(DriverError::UserNotFound));
    assert!(d.user_read_email("nobody@example.com").is_none());
    d.user_create(UserCreate::new(true, "U".to_owned(), "nokey@example.com".to_owned()), 1).unwrap();
    let e = oauth2_login(&mut d, &api_ctx(1, "b"), &mut audit, &s, s.id, "nokey@example.com".to_owned(), 60, 600)
        .unwrap_err();
    assert_eq!(e, MethodError::BadRequest(DriverError::KeyNotFound));
}

#[test]
fn oauth2_callback_without_email_fails() {
    let mut d = MemoryDriver::new();
    let (_s, k) = api_service(&mut d, "s", Some("https://s.example.com/oauth2"));
    let p = provider();
    auth_provider_microsoft_oauth2_url(&mut d, &api_ctx(100, "a"), api_meta(), Some(k.value.clone()), args(Some(&p)))
        .unwrap();
    let x = auth_provider_microsoft_oauth2_exchange(
        &mut d,
        &api_ctx(110, "b"),
        api_meta(),
        Some(k.value.clone()),
        args(Some(&p)),
        AuthOauth2CallbackRequest { code: "code".to_owned(), state: "state-a".to_owned() },
    )
    .unwrap();
    let e = auth_provider_microsoft_oauth2_callback(&mut d, &api_ctx(120, "c"), x, None, 60, 600).unwrap_err();
    assert_eq!(e, MethodError::BadRequest(DriverError::Oauth2Request));
}

#[test]
fn new_client_reads_the_configuration() {
    let mut d = MemoryDriver::new();
    let (s, _) = api_service(&mut d, "s", Some("https://s.example.com/oauth2"));
    let p = provider();
    let c = new_client(&s, Some(&p)).unwrap();
    assert_eq!(c.redirect_url, "https://s.example.com/oauth2");
    assert_eq!(new_client(&s, None).unwrap_err(), DriverError::ServiceProviderMicrosoftOauth2Disabled);
}

#[test]
fn oauth2_redirect_carries_the_tokens() {
    let mut d = MemoryDriver::new();
    let (s, _) = api_service(&mut d, "s", None);
    let t = UserToken {
        user_id: 1,
        access_token: "aaa".to_owned(),
        access_token_expires: 1,
        refresh_token: "rrr".to_owned(),
        refresh_token_expires: 2,
    };
    assert_eq!(
        oauth2_redirect(&s, &t).as_deref(),
        Some("https://s.example.com/landing?access_token=aaa&refresh_token=rrr")
    );
    let mut broken = s.clone();
    broken.url = "nowhere".to_owned();
    assert_eq!(oauth2_redirect(&broken, &t), None);
}

#[test]
fn totp_challenge_then_verify() {
    let mut d = MemoryDriver::new();
    let (s, k) = api_service(&mut d, "s", None);
    let u = d.user_create(UserCreate::new(true, "U".to_owned(), "u@example.com".to_owned()), 1).unwrap();
    d.key_create(KeyCreate::user(true, KeyType::Totp, "totp".to_owned(), "SEED".to_owned(), s.id, u.id), 1)
        .unwrap();
    let id = "00000000-0000-0000-0000-000000000003".to_owned();
    assert_eq!(u.id, 3);
    let req = |user_id: &str| AuthTotpRequest { user_id: user_id.to_owned(), totp: "123456".to_owned() };
    let c = api_ctx(10, "a");
    let e = totp_challenge(&mut d, &c, api_meta(), Some(k.value.clone()), req("zz")).unwrap_err();
    assert_eq!(e, MethodError::BadRequest(DriverError::UuidParse));
    let e = totp_challenge(&mut d, &c, api_meta(), Some(k.value.clone()), req("00000000-0000-0000-0000-000000000009"))
        .unwrap_err();
    assert_eq!(e, MethodError::BadRequest(DriverError::UserNotFound));
    assert_eq!(api_trail(&d).len(), 2);
    let ch = totp_challenge(&mut d, &c, api_meta(), Some(k.value.clone()), req(&id)).unwrap();
    assert_eq!(ch.secret, "SEED");
    assert_eq!(ch.code, "123456");
    assert_eq!(ch.audit.user, Some(u.id));
    assert_eq!(api_trail(&d).len(), 2);
    assert_eq!(totp_verify(&mut d, &c, ch, true), Ok(()));
    let trail = api_trail(&d);
    assert_eq!(trail.len(), 3);
    assert!(matches!(trail[2].data, AuditData::Empty));
    assert_eq!(trail[2].user_id, Some(u.id));
    let ch = totp_challenge(&mut d, &c, api_meta(), Some(k.value.clone()), req(&id)).unwrap();
    assert_eq!(
        totp_verify(&mut d, &c, ch, false),
        Err(MethodError::BadRequest(DriverError::TotpInvalid))
    );
    let trail = api_trail(&d);
    assert_eq!(trail.len(), 4);
    assert!(matches!(trail[3].type_, AuditKind::Known(AuditType::AuthTotp)));
    assert!(matches!(
        trail[3].data,
        AuditData::Failure(MethodError::BadRequest(DriverError::TotpInvalid))
    ));
}

#[test]
fn csrf_create_then_verify_once() {
    let mut d = MemoryDriver::new();
    let (s, k) = api_service(&mut d, "s", None);
    let (_s2, k2) = api_service(&mut d, "t", None);
    let c = api_ctx(100, "a");
    let made = csrf_create(&mut d, &c, api_meta(), Some(k.value.clone()), AuthCsrfCreateRequest { expires_s: None })
        .unwrap();
    assert_eq!(made.key, "state-a");
    assert_eq!(made.ttl, 100 + DEFAULT_CSRF_EXPIRES_S);
    assert_eq!(made.service_id, s.id);
    let made = csrf_create(
        &mut d,
        &api_ctx(100, "b"),
        api_meta(),
        Some(k.value.clone()),
        AuthCsrfCreateRequest { expires_s: Some(5) },
    )
    .unwrap();
    assert_eq!(made.ttl, 105);
    let e = csrf_create(&mut d, &c, api_meta(), Some(k.value.clone()), AuthCsrfCreateRequest { expires_s: None })
        .unwrap_err();
    assert_eq!(e, MethodError::Conflict(DriverError::CsrfKeyConflict));
    let e = csrf_create(&mut d, &c, api_meta(), None, AuthCsrfCreateRequest { expires_s: None }).unwrap_err();
    assert_eq!(e, MethodError::Unauthorised(DriverError::KeyUndefined));

    let req = |csrf: &str| AuthCsrfVerifyRequest { csrf: csrf.to_owned(), audit: None };
    assert_eq!(csrf_verify(&mut d, &api_ctx(101, "c"), api_meta(), Some(k.value.clone()), req("state-a")), Ok(()));
    assert_eq!(
        csrf_verify(&mut d, &api_ctx(101, "c"), api_meta(), Some(k.value.clone()), req("state-a")),
        Err(MethodError::BadRequest(DriverError::CsrfNotFoundOrUsed))
    );
    assert_eq!(
        csrf_verify(&mut d, &api_ctx(101, "c"), api_meta(), Some(k2.value.clone()), req("state-b")),
        Err(MethodError::BadRequest(DriverError::CsrfServiceMismatch))
    );
    assert_eq!(
        api_csrf_verify(&mut d, &api_ctx(101, "c"), &s, "state-b"),
        Err(MethodError::BadRequest(DriverError::CsrfNotFoundOrUsed))
    );
}

#[test]
fn key_admin_create_read_update_delete() {
    let mut d = MemoryDriver::new();
    let root = d.key_create(KeyCreate::root(true, "root".to_owned(), "root-v".to_owned()), 1).unwrap();
    let (s, sk) = api_service(&mut d, "s", None);
    let (_s2, sk2) = api_service(&mut d, "t", None);
    let u = d.user_create(UserCreate::new(true, "U".to_owned(), "u@example.com".to_owned()), 1).unwrap();
    let rootv = Some(root.value.clone());
    let sv = Some(sk.value.clone());

    // A root key creates service keys and user keys of a named service.
    let made = key_create(
        &mut d,
        &api_ctx(10, "k1"),
        api_meta(),
        rootv.clone(),
        KeyCreateRequest::with_service_id(true, KeyType::Token, "svc", s.id),
    )
    .unwrap()
    .data;
    assert_eq!(made.value, "key-value-k1");
    assert_eq!(made.type_, KeyType::Key);
    assert_eq!(made.service_id, Some(s.id));
    assert_eq!(made.user_id, None);
    let last = api_trail(&d).pop().unwrap();
    assert!(matches!(last.type_, AuditKind::Known(AuditType::KeyCreate)));
    assert_eq!(last.subject, Some(format!("00000000-0000-0000-0000-{:012x}", made.id)));

    // A service creates keys of its users only.
    let e = key_create(
        &mut d,
        &api_ctx(10, "k2"),
        api_meta(),
        sv.clone(),
        KeyCreateRequest::new(true, KeyType::Key, "nope"),
    )
    .unwrap_err();
    assert_eq!(e, MethodError::BadRequest(DriverError::ServiceCannotCreateServiceKey));
    let e = key_create(
        &mut d,
        &api_ctx(10, "k3"),
        api_meta(),
        sv.clone(),
        KeyCreateRequest::with_service_id(true, KeyType::Key, "nope", s.id),
    )
    .unwrap_err();
    assert_eq!(e, MethodError::Unauthorised(DriverError::KeyServiceDefined));
    let e = key_create(
        &mut d,
        &api_ctx(10, "k4"),
        api_meta(),
        rootv.clone(),
        KeyCreateRequest::with_user_id(true, KeyType::Token, "nope", u.id),
    )
    .unwrap_err();
    assert_eq!(e, MethodError::Unauthorised(DriverError::KeyServiceUndefined));
    let uk = key_create(
        &mut d,
        &api_ctx(10, "k5"),
        api_meta(),
        sv.clone(),
        KeyCreateRequest::with_user_id(true, KeyType::Token, "user key", u.id),
    )
    .unwrap()
    .data;
    assert_eq!((uk.service_id, uk.user_id, uk.type_), (Some(s.id), Some(u.id), KeyType::Token));
    let e = key_create(
        &mut d,
        &api_ctx(10, "k5"),
        api_meta(),
        sv.clone(),
        KeyCreateRequest::with_user_id(true, KeyType::Token, "again", u.id),
    )
    .unwrap_err();
    assert_eq!(e, MethodError::Conflict(DriverError::KeyValueConflict));

    // Reading respects the tenant.
    assert_eq!(key_read(&mut d, &api_ctx(11, "r"), api_meta(), sv.clone(), uk.id).unwrap().data.id, uk.id);
    assert_eq!(key_read(&mut d, &api_ctx(11, "r"), api_meta(), rootv.clone(), uk.id).unwrap().data.name, "user key");
    let e = key_read(&mut d, &api_ctx(11, "r"), api_meta(), Some(sk2.value.clone()), uk.id).unwrap_err();
    assert_eq!(e, MethodError::NotFound(DriverError::KeyNotFound));
    let e = key_read(&mut d, &api_ctx(11, "r"), api_meta(), sv.clone(), 9999).unwrap_err();
    assert_eq!(e, MethodError::NotFound(DriverError::KeyNotFound));

    let changed = key_update(
        &mut d,
        &api_ctx(12, "u"),
        api_meta(),
        sv.clone(),
        uk.id,
        KeyUpdateRequest { is_enabled: Some(false), name: Some("renamed".to_owned()) },
    )
    .unwrap()
    .data;
    assert!(!changed.is_enabled);
    assert_eq!(changed.name, "renamed");
    assert_eq!(changed.updated_at, 12);
    match api_trail(&d).pop().unwrap().data {
        AuditData::Json(j) => assert_eq!(
            j,
            r#"{"data":[["is_enabled","true","false"],["name","user key","renamed"]],"type":"diff"}"#
        ),
        other => panic!("unexpected data {:?}", other),
    }

    assert_eq!(key_delete(&mut d, &api_ctx(13, "d"), api_meta(), sv.clone(), uk.id), Ok(()));
    assert_eq!(
        key_delete(&mut d, &api_ctx(13, "d"), api_meta(), sv, uk.id),
        Err(MethodError::NotFound(DriverError::KeyNotFound))
    );
}

#[test]
fn key_list_request_round_trip() {
    let request = |gt, lt, limit| KeyListRequest {
        gt,
        lt,
        limit,
        id: Some(vec![1, 2]),
        is_enabled: Some(true),
        is_revoked: None,
        type_: Some(vec![KeyType::Totp]),
        service_id: None,
        user_id: Some(vec![3]),
    };
    let (q, f) = request(Some(5), Some(9), Some(7)).into_query_filter();
    assert_eq!(q, Page::IdGt(5, 7));
    assert_eq!(f.id, Some(vec![1, 2]));
    assert_eq!(f.type_, Some(vec![KeyType::Totp]));
    let (q, _) = request(None, Some(9), None).into_query_filter();
    assert_eq!(q, Page::IdLt(9, DEFAULT_LIMIT));
    let (q, f) = request(None, None, Some(3)).into_query_filter();
    assert_eq!(q, Page::Limit(3));
    let back = KeyListRequest::from_query_filter(Page::IdLt(4, 2), f);
    assert_eq!((back.gt, back.lt, back.limit), (None, Some(4), Some(2)));
    assert_eq!(back.user_id, Some(vec![3]));
    assert_eq!(back.is_enabled, Some(true));
    let none = KeyListFilter { id: None, is_enabled: None, is_revoked: None, type_: None, service_id: None, user_id: None };
    let back = KeyListRequest::from_query_filter(Page::IdGt(4, 2), none);
    assert_eq!((back.gt, back.lt, back.limit), (Some(4), None, Some(2)));
    assert_eq!(DEFAULT_LIMIT, 50);
}

#[test]
fn key_list_for_root_and_service() {
    let mut d = MemoryDriver::new();
    let root = d.key_create(KeyCreate::root(true, "root".to_owned(), "root-v".to_owned()), 1).unwrap();
    let (_s, sk) = api_service(&mut d, "s", None);
    let (_t, tk) = api_service(&mut d, "t", None);
    let all = || KeyListRequest {
        gt: None,
        lt: None,
        limit: None,
        id: None,
        is_enabled: None,
        is_revoked: None,
        type_: None,
        service_id: None,
        user_id: None,
    };
    let r = key_list(&mut d, &api_ctx(5, "l"), api_meta(), Some(root.value.clone()), all()).unwrap();
    assert_eq!(r.data.iter().map(|k| k.id).collect::<Vec<_>>(), vec![root.id, sk.id, tk.id]);
    assert_eq!(r.meta.limit, Some(DEFAULT_LIMIT));
    let r = key_list(&mut d, &api_ctx(5, "l"), api_meta(), Some(sk.value.clone()), all()).unwrap();
    assert_eq!(r.data.iter().map(|k| k.id).collect::<Vec<_>>(), vec![sk.id]);
    assert_eq!(api_trail(&d).len(), 2);
    let e = key_list(&mut d, &api_ctx(5, "l"), api_meta(), Some("zz".to_owned()), all()).unwrap_err();
    assert_eq!(e, MethodError::Unauthorised(DriverError::KeyNotFound));
    assert_eq!(api_trail(&d).len(), 3);
}

#[test]
fn user_admin_create_read_update_delete() {
    let mut d = MemoryDriver::new();
    let (s, sk) = api_service(&mut d, "s", None);
    let auth = Some(sk.value.clone());
    let create = |email: &str, password: Option<&str>| UserCreateRequest {
        is_enabled: true,
        name: "User Name".to_owned(),
        email: email.to_owned(),
        locale: None,
        timezone: Some("UTC".to_owned()),
        password_allow_reset: true,
        password_require_update: false,
        password: password.map(|p| p.to_owned()),
    };
    let u = sso::user::create(&mut d, &api_ctx(10, "c"), api_meta(), auth.clone(), create("a@example.com", Some("pw")))
        .unwrap();
    assert_eq!(u.email, "a@example.com");
    assert_eq!(u.timezone.as_deref(), Some("UTC"));
    assert_eq!(sso::password::check_password(u.password_hash.as_deref(), "pw"), Ok(()));
    let last = api_trail(&d).pop().unwrap();
    assert!(matches!(last.type_, AuditKind::Known(AuditType::UserCreate)));
    assert_eq!(last.subject, Some(format!("00000000-0000-0000-0000-{:012x}", u.id)));
    assert_eq!(last.service_id, Some(s.id));

    let e = sso::user::create(&mut d, &api_ctx(10, "c"), api_meta(), auth.clone(), create("a@example.com", None))
        .unwrap_err();
    assert_eq!(e, MethodError::Conflict(DriverError::UserEmailConflict));
    let e = sso::user::create(
        &mut d,
        &api_ctx(10, "c"),
        api_meta(),
        Some("invalid-service-key".to_owned()),
        create("b@example.com", None),
    )
    .unwrap_err();
    assert_eq!(e, MethodError::Unauthorised(DriverError::KeyNotFound));
    let v = sso::user::create(&mut d, &api_ctx(10, "c"), api_meta(), auth.clone(), create("b@example.com", None))
        .unwrap();
    assert!(v.password_hash.is_none());

    assert_eq!(sso::user::read(&mut d, &api_ctx(11, "r"), api_meta(), auth.clone(), &UserRead::Id(u.id)).unwrap().id, u.id);
    assert_eq!(
        sso::user::read(&mut d, &api_ctx(11, "r"), api_meta(), auth.clone(), &UserRead::Email("b@example.com".to_owned()))
            .unwrap()
            .id,
        v.id
    );
    let e = sso::user::read(&mut d, &api_ctx(11, "r"), api_meta(), auth.clone(), &UserRead::Id(999)).unwrap_err();
    assert_eq!(e, MethodError::NotFound(DriverError::UserNotFound));

    let listed = sso::user::list(
        &mut d,
        &api_ctx(11, "l"),
        api_meta(),
        auth.clone(),
        &UserListRequest { query: Page::Limit(10), filter: UserListFilter { id: None, email: None } },
    )
    .unwrap();
    assert_eq!(listed.iter().map(|u| u.id).collect::<Vec<_>>(), vec![u.id, v.id]);

    let mut up = UserUpdate::new(u.id);
    up.name = Some("Other".to_owned());
    let changed = sso::user::update(&mut d, &api_ctx(12, "u"), api_meta(), auth.clone(), up).unwrap();
    assert_eq!(changed.name, "Other");
    match api_trail(&d).pop().unwrap().data {
        AuditData::Json(j) => assert_eq!(j, r#"{"data":[["name","User Name","Other"]],"type":"diff"}"#),
        other => panic!("unexpected data {:?}", other),
    }
    let e = sso::user::update(&mut d, &api_ctx(12, "u"), api_meta(), auth.clone(), UserUpdate::new(999)).unwrap_err();
    assert_eq!(e, MethodError::NotFound(DriverError::UserNotFound));
    let e = sso::user::update(
        &mut d,
        &api_ctx(12, "u"),
        api_meta(),
        auth.clone(),
        UserUpdate::new_email(u.id, "b@example.com".to_owned()),
    )
    .unwrap_err();
    assert_eq!(e, MethodError::Conflict(DriverError::UserEmailConflict));

    d.key_create(KeyCreate::user(true, KeyType::Token, "k".to_owned(), "uk".to_owned(), s.id, u.id), 1).unwrap();
    assert_eq!(sso::user::delete(&mut d, &api_ctx(13, "d"), api_meta(), auth.clone(), &UserRead::Id(u.id)), Ok(()));
    assert!(d.key_read_value("uk").is_none());
    assert_eq!(
        sso::user::delete(&mut d, &api_ctx(13, "d"), api_meta(), auth, &UserRead::Id(u.id)),
        Err(MethodError::NotFound(DriverError::UserNotFound))
    );
}

#[test]
fn client_requests() {
    let c = SyncClient { authorisation: Some("key".to_owned()) };
    let r = c.auth_local_login("a@example.com", "pw");
    assert_eq!(r.method, Method::Post);
    assert_eq!(r.route, "/v1/auth/provider/local/login");
    assert_eq!(r.authorisation.as_deref(), Some("key"));
    assert!(matches!(r.body, Body::Login { ref email, ref password } if email == "a@example.com" && password == "pw"));
    let r = c.auth_local_reset_password("a@example.com");
    assert_eq!(r.route, "/v1/auth/provider/local/reset/password");
    assert!(matches!(r.body, Body::ResetPassword { ref email, template: None } if email == "a@example.com"));
    let r = c.auth_microsoft_oauth2_request();
    assert_eq!(r.route, "/v1/auth/provider/microsoft/oauth2");
    assert!(matches!(r.body, Body::Empty));
    let r = c.auth_key_verify("k");
    assert_eq!(r.route, "/v1/auth/key/verify");
    assert!(matches!(r.body, Body::Key { ref key } if key == "k"));
    assert_eq!(c.auth_key_revoke("k").route, "/v1/auth/key/revoke");
    let r = c.auth_token_verify("t");
    assert_eq!(r.route, "/v1/auth/token/verify");
    assert!(matches!(r.body, Body::Token { ref token } if token == "t"));
    assert_eq!(c.auth_token_refresh("t").route, "/v1/auth/token/refresh");
    assert_eq!(c.auth_token_revoke("t").route, "/v1/auth/token/revoke");

    let a = AsyncClient { authorisation: None };
    let r = a.user_create(true, "User Name".to_owned(), "a@example.com".to_owned(), None);
    assert_eq!((r.method, r.route.as_str()), (Method::Post, "/v1/user"));
    assert!(matches!(r.body, Body::UserCreate { is_enabled: true, ref name, .. } if name == "User Name"));
    let r = a.user_read("7");
    assert_eq!((r.method, r.route.as_str()), (Method::Get, "/v1/user/7"));
    let r = a.user_update("7", Some(false), None);
    assert_eq!((r.method, r.route.as_str()), (Method::Patch, "/v1/user/7"));
    assert!(matches!(r.body, Body::UserUpdate { is_enabled: Some(false), name: None }));
    let r = a.user_delete("7");
    assert_eq!((r.method, r.route.as_str()), (Method::Delete, "/v1/user/7"));
    assert_eq!(r.authorisation, None);
}

#[test]
fn client_status_codes() {
    assert_eq!(match_status_code(200), Ok(()));
    assert_eq!(match_status_code(400), Err(Error::BadRequest));
    assert_eq!(match_status_code(403), Err(Error::Forbidden));
    assert_eq!(match_status_code(404), Err(Error::NotFound));
    assert_eq!(match_status_code(201), Err(Error::Unwrap));
    assert_eq!(match_status_code(500), Err(Error::Unwrap));
}

#[test]
fn common_defaults_and_client_response() {
    let seek = RequestSeekId::default();
    assert_eq!((seek.id, seek.limit), (None, 10));
    let c = sso::common::Client {
        server_authorize_uri: "https://sso.example.com/authorize".to_owned(),
        server_token_uri: "https://sso.example.com/token".to_owned(),
        server_introspect_uri: "https://sso.example.com/introspect".to_owned(),
        client_id: 0x0123456789abcdef0123456789abcdef,
        client_secret: "secret".to_owned(),
        redirect_uri: "https://client.example.com/redirect".to_owned(),
        client_name: "Client".to_owned(),
        client_uri: "https://client.example.com/".to_owned(),
        enable: true,
        scope: "a b".to_owned(),
        user_scope: "a".to_owned(),
        register_enable: false,
        register_scope: "r".to_owned(),
        ttl: sso::common::ConfigOauth2ClientTtl {
            csrf_s: 1,
            code_s: 2,
            oauth2_code_s: 3,
            token_access_s: 4,
            token_refresh_s: 5,
        },
        templates: sso::common::ConfigOauth2ClientTemplates { html: "h".to_owned(), mail_text: "m".to_owned() },
    };
    assert_eq!(c.client_name(), "Client");
    assert_eq!(c.client_uri(), "https://client.example.com/");
    assert_eq!(c.client_id(), "01234567-89ab-cdef-0123-456789abcdef");
    assert_eq!(c.client_secret(), "secret");
    assert_eq!(c.redirect_uri(), "https://client.example.com/redirect");
    assert_eq!(c.server_authorize_uri(), "https://sso.example.com/authorize");
    assert_eq!(c.server_token_uri(), "https://sso.example.com/token");
    assert_eq!(c.server_introspect_uri(), "https://sso.example.com/introspect");
    let r = ResponseClient::from(&c);
    assert_eq!(r.id, "01234567-89ab-cdef-0123-456789abcdef");
    assert_eq!(r.name, "Client");
    assert_eq!(r.uri, "https://client.example.com/");
    assert_eq!(r.redirect_uri, "https://client.example.com/redirect");
    assert!(r.enable && !r.register_enable);
    assert_eq!((r.scope.as_str(), r.user_scope.as_str(), r.register_scope.as_str()), ("a b", "a", "r"));
}

#[test]
fn audit_trail_for_root_and_service() {
    let mut d = MemoryDriver::new();
    let root = d.key_create(KeyCreate::root(true, "root".to_owned(), "root-v".to_owned()), 1).unwrap();
    let (s, sk) = api_service(&mut d, "s", None);
    let (t, tk) = api_service(&mut d, "t", None);
    let none = || AuditListFilter { id: None, type_: None, subject: None, service_id: None, user_id: None };

    let a = audit_create(
        &mut d,
        &api_ctx(10, "a"),
        api_meta(),
        Some(sk.value.clone()),
        AuditCreate2::new("Mine".to_owned(), Some("subject".to_owned()), AuditData::Json("{\"a\":1}".to_owned())),
    )
    .unwrap();
    assert_eq!(a.type_.to_string(), "Mine");
    assert_eq!(a.service_id, Some(s.id));
    assert_eq!(a.key_id, Some(sk.id));
    assert_eq!(a.subject.as_deref(), Some("subject"));
    assert_eq!(a.created_at, 10);
    let b = audit_create(
        &mut d,
        &api_ctx(11, "b"),
        api_meta(),
        Some(tk.value.clone()),
        AuditCreate2::new("Theirs".to_owned(), None, AuditData::Empty),
    )
    .unwrap();
    assert_eq!(b.service_id, Some(t.id));
    assert_eq!(api_trail(&d).len(), 2);
    let e = audit_create(
        &mut d,
        &api_ctx(12, "c"),
        api_meta(),
        None,
        AuditCreate2::new("Nobody".to_owned(), None, AuditData::Empty),
    )
    .unwrap_err();
    assert_eq!(e, MethodError::Unauthorised(DriverError::KeyUndefined));
    let trail = api_trail(&d);
    assert_eq!(trail.len(), 3);
    assert!(matches!(trail[2].type_, AuditKind::Known(AuditType::AuditCreate)));

    // A service sees its own records, a root key sees all; the listing
    // shows the trail as it was before the listing itself was recorded.
    let page = audit_list(&mut d, &api_ctx(13, "d"), api_meta(), Some(sk.value.clone()), &Page::Limit(10), &none())
        .unwrap();
    assert_eq!(page.iter().map(|x| x.id).collect::<Vec<_>>(), vec![a.id]);
    let page = audit_list(&mut d, &api_ctx(14, "e"), api_meta(), Some(root.value.clone()), &Page::Limit(10), &none())
        .unwrap();
    assert_eq!(page.len(), 4);
    let page = audit_list(&mut d, &api_ctx(15, "f"), api_meta(), Some(sk.value.clone()), &Page::IdLt(u128::MAX, 1), &none())
        .unwrap();
    assert_eq!(page.len(), 1);
    assert!(matches!(page[0].type_, AuditKind::Known(AuditType::AuditList)));
    let e = audit_list(&mut d, &api_ctx(16, "g"), api_meta(), Some("zz".to_owned()), &Page::Limit(10), &none())
        .unwrap_err();
    assert_eq!(e, MethodError::Unauthorised(DriverError::KeyNotFound));

    assert_eq!(audit_read(&mut d, &api_ctx(17, "h"), api_meta(), Some(sk.value.clone()), a.id).unwrap().id, a.id);
    let e = audit_read(&mut d, &api_ctx(18, "i"), api_meta(), Some(sk.value.clone()), b.id).unwrap_err();
    assert_eq!(e, MethodError::NotFound(DriverError::AuditNotFound));
    assert_eq!(audit_read(&mut d, &api_ctx(19, "j"), api_meta(), Some(root.value.clone()), b.id).unwrap().id, b.id);
}

#[test]
fn service_create_needs_a_root_key() {
    let mut d = MemoryDriver::new();
    let root = d.key_create(KeyCreate::root(true, "root".to_owned(), "root-v".to_owned()), 1).unwrap();
    let request = |name: &str| ServiceCreate {
        is_enabled: true,
        name: name.to_owned(),
        url: format!("https://{}.example.com/", name),
        user_allow_register: false,
        provider_microsoft_oauth2_url: None,
    };
    let s = sso::service::create(&mut d, &api_ctx(10, "a"), api_meta(), Some(root.value.clone()), request("one"))
        .unwrap();
    assert_eq!(s.name, "one");
    assert_eq!(s.created_at, 10);
    let last = api_trail(&d).pop().unwrap();
    assert!(matches!(last.type_, AuditKind::Known(AuditType::ServiceCreate)));
    assert_eq!(last.subject, Some(format!("00000000-0000-0000-0000-{:012x}", s.id)));
    let sk = d.key_create(KeyCreate::service(true, "sk".to_owned(), "one-v".to_owned(), s.id), 1).unwrap();
    let e = sso::service::create(&mut d, &api_ctx(11, "b"), api_meta(), Some(sk.value.clone()), request("two"))
        .unwrap_err();
    assert_eq!(e, MethodError::Unauthorised(DriverError::KeyServiceDefined));
    let e = sso::service::create(&mut d, &api_ctx(11, "c"), api_meta(), None, request("two")).unwrap_err();
    assert_eq!(e, MethodError::Unauthorised(DriverError::KeyUndefined));
    let t = sso::service::create(&mut d, &api_ctx(12, "d"), api_meta(), Some(root.value.clone()), request("two"))
        .unwrap();

    assert_eq!(sso::service::read(&mut d, &api_ctx(13, "e"), api_meta(), Some(sk.value.clone()), s.id).unwrap().id, s.id);
    let e = sso::service::read(&mut d, &api_ctx(13, "f"), api_meta(), Some(sk.value.clone()), t.id).unwrap_err();
    assert_eq!(e, MethodError::NotFound(DriverError::ServiceNotFound));
    assert_eq!(sso::service::read(&mut d, &api_ctx(13, "g"), api_meta(), Some(root.value.clone()), t.id).unwrap().id, t.id);
    let e = sso::service::read(&mut d, &api_ctx(13, "h"), api_meta(), Some(root.value.clone()), 999).unwrap_err();
    assert_eq!(e, MethodError::NotFound(DriverError::ServiceNotFound));
}
