use sso::audit::{
    audit_result, audit_result_diff, audit_result_err, audit_result_subject, Audit, AuditBuilder,
    AuditCreate, AuditCreate2, AuditData, AuditDiff, AuditDiffBuilder, AuditKind, AuditList,
    AuditListFilter, AuditMeta, AuditRead, AuditSubject, AuditUpdate,
};
use sso::audit_type::AuditType;
use sso::auth::{authenticate, authenticate_any, authenticate_root, authenticate_service};
use sso::context::Context;
use sso::csrf;
use sso::driver::Driver;
use sso::error::{DriverError, MethodError, MethodResult};
use sso::listing::{select, Page};
use sso::memory::MemoryDriver;
use sso::model::{
    Csrf, CsrfCreate, KeyCreate, KeyList, KeyListFilter, KeyType, KeyUpdate, Service,
    ServiceCreate, User, UserCreate, UserList, UserListFilter, UserUpdate,
};
use sso::password::{check_password, hash_password};

fn store_meta() -> AuditMeta {
    AuditMeta::new("agent", "10.0.0.1", Some("10.0.0.2".to_owned()))
}

fn store_ctx(now: i64) -> Context {
    Context::new(now, "ck".to_owned(), "cv".to_owned(), "kv".to_owned())
}

fn new_service(d: &mut MemoryDriver, name: &str, enabled: bool) -> Service {
    d.service_create(
        ServiceCreate {
            is_enabled: enabled,
            name: name.to_owned(),
            url: format!("https://{}.example.com/", name),
            user_allow_register: false,
            provider_microsoft_oauth2_url: None,
        },
        1,
    )
    .unwrap()
}

#[test]
fn csrf_consume_yields_some_then_none() {
    let mut d = MemoryDriver::new();
    let s = new_service(&mut d, "s", true);
    let c = store_ctx(100);
    let made = csrf::create(&mut d, &c, &s, "k".to_owned(), "v".to_owned(), 10).unwrap();
    assert_eq!(made.key, "k");
    assert_eq!(made.value, "v");
    assert_eq!(made.ttl, 110);
    assert_eq!(made.created_at, 100);
    assert_eq!(made.service_id, s.id);
    let first = csrf::consume(&mut d, &store_ctx(105), "k");
    assert_eq!(first.map(|c| c.value), Some("v".to_owned()));
    assert!(csrf::consume(&mut d, &store_ctx(105), "k").is_none());
    assert!(csrf::consume(&mut d, &store_ctx(105), "absent").is_none());
}

#[test]
fn csrf_create_conflicts_while_the_entry_lives() {
    let mut d = MemoryDriver::new();
    let s = new_service(&mut d, "s", true);
    csrf::create(&mut d, &store_ctx(100), &s, "k".to_owned(), "v1".to_owned(), 10).unwrap();
    assert_eq!(
        csrf::create(&mut d, &store_ctx(110), &s, "k".to_owned(), "v2".to_owned(), 10).unwrap_err(),
        DriverError::CsrfKeyConflict
    );
    // Once expired the entry counts as absent: it is replaced.
    let made = csrf::create(&mut d, &store_ctx(111), &s, "k".to_owned(), "v3".to_owned(), 10).unwrap();
    assert_eq!(made.value, "v3");
    assert_eq!(csrf::consume(&mut d, &store_ctx(112), "k").unwrap().value, "v3");
    assert_eq!(
        csrf::create(&mut d, &store_ctx(i64::MAX), &s, "o".to_owned(), "v".to_owned(), 1).unwrap_err(),
        DriverError::ExpiryOverflow
    );
}

#[test]
fn csrf_expired_entry_reads_as_absent_and_is_gone() {
    let mut d = MemoryDriver::new();
    let s = new_service(&mut d, "s", true);
    csrf::create(&mut d, &store_ctx(100), &s, "k".to_owned(), "v".to_owned(), 10).unwrap();
    assert!(csrf::consume(&mut d, &store_ctx(111), "k").is_none());
    assert!(csrf::consume(&mut d, &store_ctx(105), "k").is_none());
    csrf::create(&mut d, &store_ctx(100), &s, "edge".to_owned(), "v".to_owned(), 10).unwrap();
    assert!(csrf::consume(&mut d, &store_ctx(110), "edge").is_some());
}

#[test]
fn csrf_verify_service_and_cross_tenant() {
    let mut d = MemoryDriver::new();
    let s1 = new_service(&mut d, "one", true);
    let s2 = new_service(&mut d, "two", true);
    let entry = csrf::create(&mut d, &store_ctx(100), &s1, "k".to_owned(), "v".to_owned(), 10).unwrap();
    assert_eq!(csrf::verify_service(&entry, s1.id), Ok(()));
    assert_eq!(csrf::verify_service(&entry, s2.id), Err(DriverError::CsrfServiceMismatch));
    assert_eq!(
        csrf::verify(&mut d, &store_ctx(101), &s2, "k").unwrap_err(),
        DriverError::CsrfServiceMismatch
    );
    // The entry is gone even though the wrong service presented it.
    assert_eq!(
        csrf::verify(&mut d, &store_ctx(101), &s1, "k").unwrap_err(),
        DriverError::CsrfNotFoundOrUsed
    );
    csrf::create(&mut d, &store_ctx(100), &s1, "k2".to_owned(), "v".to_owned(), 10).unwrap();
    assert_eq!(csrf::verify(&mut d, &store_ctx(101), &s1, "k2").unwrap().value, "v");
}

#[test]
fn expired_at_boundary() {
    let c = Csrf { created_at: 0, key: "k".to_owned(), value: "v".to_owned(), ttl: 10, service_id: 1 };
    assert!(!c.is_expired(10));
    assert!(c.is_expired(11));
    assert_eq!(store_ctx(5).expires_at(7), Some(12));
    assert_eq!(store_ctx(i64::MAX).expires_at(1), None);
    assert_eq!(store_ctx(i64::MIN).expires_at(-1), None);
}

#[test]
fn authenticate_by_key_state() {
    let mut d = MemoryDriver::new();
    let s = new_service(&mut d, "s", true);
    let off = new_service(&mut d, "off", false);
    let root = d.key_create(KeyCreate::root(true, "root".to_owned(), "root-v".to_owned()), 1).unwrap();
    let sk = d.key_create(KeyCreate::service(true, "sk".to_owned(), "sk-v".to_owned(), s.id), 1).unwrap();
    d.key_create(KeyCreate::service(false, "dis".to_owned(), "dis-v".to_owned(), s.id), 1).unwrap();
    d.key_create(KeyCreate::service(true, "offk".to_owned(), "off-v".to_owned(), off.id), 1).unwrap();
    let rev = d.key_create(KeyCreate::service(true, "rev".to_owned(), "rev-v".to_owned(), s.id), 1).unwrap();
    d.key_update(rev.id, KeyUpdate { is_enabled: None, is_revoked: Some(true), name: None }, 2).unwrap();
    let u = d.user_create(UserCreate::new(true, "U".to_owned(), "u@example.com".to_owned()), 1).unwrap();
    let uk = d
        .key_create(KeyCreate::user(true, KeyType::Totp, "uk".to_owned(), "uk-v".to_owned(), s.id, u.id), 1)
        .unwrap();
    let gone = d.user_create(UserCreate::new(false, "G".to_owned(), "g@example.com".to_owned()), 1).unwrap();
    d.key_create(KeyCreate::user(true, KeyType::Key, "gk".to_owned(), "gk-v".to_owned(), s.id, gone.id), 1)
        .unwrap();
    d.key_create(KeyCreate::service(true, "lost".to_owned(), "lost-v".to_owned(), 999), 1).unwrap();

    let mut audit = AuditBuilder::new(store_meta(), AuditType::AuthKeyVerify);
    let val = |v: &str| Some(v.to_owned());

    assert_eq!(authenticate(&d, &mut audit, &None, None).unwrap_err(), DriverError::KeyUndefined);
    assert_eq!(authenticate(&d, &mut audit, &val("nope"), None).unwrap_err(), DriverError::KeyNotFound);
    assert_eq!(authenticate(&d, &mut audit, &val("dis-v"), None).unwrap_err(), DriverError::KeyDisabled);
    assert_eq!(authenticate(&d, &mut audit, &val("rev-v"), None).unwrap_err(), DriverError::KeyRevoked);
    assert_eq!(audit.key, Some(rev.id));
    assert_eq!(audit.service, Some(s.id));
    assert_eq!(authenticate(&d, &mut audit, &val("off-v"), None).unwrap_err(), DriverError::ServiceDisabled);
    assert_eq!(authenticate(&d, &mut audit, &val("lost-v"), None).unwrap_err(), DriverError::ServiceNotFound);
    assert_eq!(authenticate(&d, &mut audit, &val("gk-v"), None).unwrap_err(), DriverError::UserDisabled);
    assert_eq!(
        authenticate(&d, &mut audit, &val("uk-v"), Some(KeyType::Token)).unwrap_err(),
        DriverError::KeyTypeMismatch
    );
    let a = authenticate(&d, &mut audit, &val("uk-v"), Some(KeyType::Totp)).unwrap();
    assert_eq!(a.key.id, uk.id);
    assert_eq!(a.service.map(|s| s.id), Some(s.id));
    assert_eq!(a.user.map(|u| u.id), Some(u.id));
    assert_eq!(audit.user_key, Some(uk.id));
    assert_eq!(audit.user, Some(u.id));

    let a = authenticate(&d, &mut audit, &val("root-v"), None).unwrap();
    assert_eq!(a.key.id, root.id);
    assert!(a.service.is_none() && a.user.is_none());

    assert_eq!(authenticate_service(&d, &mut audit, &val("sk-v")).unwrap().id, s.id);
    assert_eq!(audit.key, Some(sk.id));
    assert_eq!(authenticate_service(&d, &mut audit, &val("uk-v")).unwrap_err(), DriverError::KeyUserDefined);
    assert_eq!(
        authenticate_service(&d, &mut audit, &val("root-v")).unwrap_err(),
        DriverError::KeyServiceUndefined
    );
    assert_eq!(authenticate_root(&d, &mut audit, &val("root-v")), Ok(()));
    assert_eq!(authenticate_root(&d, &mut audit, &val("sk-v")).unwrap_err(), DriverError::KeyServiceDefined);
    assert_eq!(authenticate_root(&d, &mut audit, &val("rev-v")).unwrap_err(), DriverError::KeyRevoked);
    assert!(authenticate_any(&d, &mut audit, &val("root-v")).unwrap().is_none());
    assert_eq!(authenticate_any(&d, &mut audit, &val("sk-v")).unwrap().map(|s| s.id), Some(s.id));
    assert_eq!(authenticate_any(&d, &mut audit, &val("uk-v")).unwrap_err(), DriverError::KeyUserDefined);
}

#[test]
fn revoked_key_fails_whether_enabled_or_not() {
    let mut d = MemoryDriver::new();
    let s = new_service(&mut d, "s", true);
    let k = d.key_create(KeyCreate::service(true, "k".to_owned(), "v".to_owned(), s.id), 1).unwrap();
    let mut audit = AuditBuilder::new(store_meta(), AuditType::AuthKeyVerify);
    let v = Some("v".to_owned());
    assert!(authenticate(&d, &mut audit, &v, None).is_ok());
    d.key_update(k.id, KeyUpdate { is_enabled: Some(true), is_revoked: Some(true), name: None }, 2).unwrap();
    assert_eq!(authenticate(&d, &mut audit, &v, None).unwrap_err(), DriverError::KeyRevoked);
    d.key_update(k.id, KeyUpdate { is_enabled: Some(false), is_revoked: None, name: None }, 3).unwrap();
    assert!(authenticate(&d, &mut audit, &v, None).is_err());
    d.key_update(k.id, KeyUpdate { is_enabled: Some(true), is_revoked: Some(false), name: None }, 4).unwrap();
    assert_eq!(authenticate(&d, &mut audit, &v, None).unwrap_err(), DriverError::KeyRevoked);
}

#[test]
fn store_create_update_delete() {
    let mut d = MemoryDriver::new();
    let s = new_service(&mut d, "s", true);
    assert_eq!(s.id, 1);
    let u = d.user_create(UserCreate::new(true, "U".to_owned(), "u@example.com".to_owned()), 5).unwrap();
    assert_eq!(u.id, 2);
    assert_eq!(u.created_at, 5);
    assert_eq!(
        d.user_create(UserCreate::new(true, "V".to_owned(), "u@example.com".to_owned()), 5).unwrap_err(),
        DriverError::UserEmailConflict
    );
    let v = d.user_create(UserCreate::new(true, "V".to_owned(), "v@example.com".to_owned()), 5).unwrap();
    let k = d
        .key_create(KeyCreate::user(true, KeyType::Token, "k".to_owned(), "kv".to_owned(), s.id, u.id), 5)
        .unwrap();
    let kv2 = d
        .key_create(KeyCreate::user(true, KeyType::Token, "k2".to_owned(), "kv2".to_owned(), s.id, v.id), 5)
        .unwrap();
    assert_eq!(
        d.key_create(KeyCreate::root(true, "dup".to_owned(), "kv".to_owned()), 5).unwrap_err(),
        DriverError::KeyValueConflict
    );
    assert_eq!(d.key_read_value("kv").unwrap().id, k.id);
    assert!(d.key_read_value("zz").is_none());
    assert_eq!(d.key_read_user(s.id, u.id, KeyType::Token, true).unwrap().id, k.id);
    assert!(d.key_read_user(s.id, u.id, KeyType::Totp, true).is_none());

    let mut up = UserUpdate::new(u.id);
    up.name = Some("Renamed".to_owned());
    up.is_enabled = Some(false);
    let changed = d.user_update(up, 9).unwrap();
    assert_eq!(changed.name, "Renamed");
    assert!(!changed.is_enabled);
    assert_eq!(changed.email, "u@example.com");
    assert_eq!(changed.updated_at, 9);
    assert_eq!(changed.created_at, 5);
    assert_eq!(
        d.user_update(UserUpdate::new_email(u.id, "v@example.com".to_owned()), 9).unwrap_err(),
        DriverError::UserEmailConflict
    );
    // A user may keep its own address.
    d.user_update(UserUpdate::new_email(u.id, "u@example.com".to_owned()), 9).unwrap();
    assert_eq!(d.user_update(UserUpdate::new(77), 9).unwrap_err(), DriverError::UserNotFound);

    // Deleting a user takes the user's keys along and leaves the others.
    assert_eq!(d.user_delete(u.id).unwrap().id, u.id);
    assert!(d.user_read_id(u.id).is_none());
    assert!(d.key_read_id(k.id).is_none());
    assert_eq!(d.key_read_id(kv2.id).unwrap().id, kv2.id);
    assert_eq!(d.user_delete(u.id).unwrap_err(), DriverError::UserNotFound);
    assert_eq!(d.key_delete(kv2.id).unwrap().id, kv2.id);
    assert_eq!(d.key_delete(kv2.id).unwrap_err(), DriverError::KeyNotFound);
    assert_eq!(
        d.key_update(kv2.id, KeyUpdate { is_enabled: None, is_revoked: None, name: None }, 1).unwrap_err(),
        DriverError::KeyNotFound
    );
}

#[test]
fn page_selection_first_and_last() {
    let mask = vec![true, false, true, true, false, true];
    assert_eq!(select(&mask, 2, false), vec![0, 2]);
    assert_eq!(select(&mask, 2, true), vec![5, 3]);
    assert_eq!(select(&mask, 10, false), vec![0, 2, 3, 5]);
    assert_eq!(select(&mask, 10, true), vec![5, 3, 2, 0]);
    assert_eq!(select(&mask, 0, false), Vec::<usize>::new());
    assert_eq!(select(&mask, -1, true), Vec::<usize>::new());
    assert_eq!(select(&Vec::new(), 3, false), Vec::<usize>::new());
    assert!(Page::IdLt(5, 1).is_newest_first());
    assert!(!Page::IdGt(5, 1).is_newest_first());
    assert!(Page::IdGt(5, 1).is_admitted(6) && !Page::IdGt(5, 1).is_admitted(5));
    assert!(Page::IdLt(5, 1).is_admitted(4) && !Page::IdLt(5, 1).is_admitted(5));
    assert_eq!(Page::Limit(7).get_limit(), 7);
}

#[test]
fn key_and_user_lists() {
    let mut d = MemoryDriver::new();
    let s1 = new_service(&mut d, "one", true);
    let s2 = new_service(&mut d, "two", true);
    let u = d.user_create(UserCreate::new(true, "U".to_owned(), "u@example.com".to_owned()), 1).unwrap();
    let v = d.user_create(UserCreate::new(true, "V".to_owned(), "v@example.com".to_owned()), 1).unwrap();
    let k1 = d.key_create(KeyCreate::service(true, "a".to_owned(), "a".to_owned(), s1.id), 1).unwrap();
    let k2 = d.key_create(KeyCreate::service(false, "b".to_owned(), "b".to_owned(), s2.id), 1).unwrap();
    let k3 = d
        .key_create(KeyCreate::user(true, KeyType::Token, "c".to_owned(), "c".to_owned(), s1.id, u.id), 1)
        .unwrap();
    let none = || KeyListFilter {
        id: None,
        is_enabled: None,
        is_revoked: None,
        type_: None,
        service_id: None,
        user_id: None,
    };
    let ids = |d: &MemoryDriver, q: Page, f: KeyListFilter, mask: Option<u128>| -> Vec<u128> {
        d.key_list(&KeyList { query: &q, filter: &f, service_id_mask: mask })
            .iter()
            .map(|k| k.id)
            .collect()
    };
    assert_eq!(ids(&d, Page::Limit(10), none(), None), vec![k1.id, k2.id, k3.id]);
    assert_eq!(ids(&d, Page::Limit(2), none(), None), vec![k1.id, k2.id]);
    assert_eq!(ids(&d, Page::IdGt(k1.id, 10), none(), None), vec![k2.id, k3.id]);
    assert_eq!(ids(&d, Page::IdLt(k3.id, 10), none(), None), vec![k2.id, k1.id]);
    assert_eq!(ids(&d, Page::IdLt(k3.id, 1), none(), None), vec![k2.id]);
    assert_eq!(ids(&d, Page::Limit(10), none(), Some(s1.id)), vec![k1.id, k3.id]);
    assert_eq!(
        ids(&d, Page::Limit(10), KeyListFilter { is_enabled: Some(false), ..none() }, None),
        vec![k2.id]
    );
    assert_eq!(
        ids(&d, Page::Limit(10), KeyListFilter { type_: Some(vec![KeyType::Token]), ..none() }, None),
        vec![k3.id]
    );
    assert_eq!(
        ids(&d, Page::Limit(10), KeyListFilter { user_id: Some(vec![u.id]), ..none() }, None),
        vec![k3.id]
    );
    assert_eq!(
        ids(&d, Page::Limit(10), KeyListFilter { id: Some(vec![k3.id, k1.id]), ..none() }, None),
        vec![k1.id, k3.id]
    );
    assert_eq!(
        ids(&d, Page::Limit(10), KeyListFilter { service_id: Some(vec![s2.id]), is_revoked: Some(false), ..none() }, None),
        vec![k2.id]
    );

    let users = |d: &MemoryDriver, q: Page, f: UserListFilter| -> Vec<u128> {
        d.user_list(&UserList { query: &q, filter: &f }).iter().map(|u| u.id).collect()
    };
    assert_eq!(users(&d, Page::Limit(10), UserListFilter { id: None, email: None }), vec![u.id, v.id]);
    assert_eq!(
        users(&d, Page::Limit(10), UserListFilter { id: None, email: Some(vec!["v@example.com".to_owned()]) }),
        vec![v.id]
    );
    assert_eq!(users(&d, Page::IdLt(v.id, 5), UserListFilter { id: None, email: None }), vec![u.id]);
}

fn record(d: &mut MemoryDriver, type_: AuditKind, subject: Option<&str>, service: Option<u128>, user: Option<u128>, now: i64) -> Audit {
    d.audit_create(
        AuditCreate::new(store_meta(), type_, subject.map(|s| s.to_owned()), AuditData::Empty)
            .service_id(service)
            .user_id(user)
            .key_id(Some(5))
            .user_key_id(Some(6)),
        now,
    )
    .unwrap()
}

#[test]
fn audit_trail_list_read_update() {
    let mut d = MemoryDriver::new();
    let a1 = record(&mut d, AuditKind::Known(AuditType::UserCreate), Some("x"), Some(1), Some(9), 10);
    let a2 = record(&mut d, AuditKind::Custom("Custom".to_owned()), None, Some(2), None, 11);
    let a3 = record(&mut d, AuditKind::Known(AuditType::UserDelete), Some("y"), Some(1), Some(9), 12);
    assert_eq!(a1.key_id, Some(5));
    assert_eq!(a1.user_key_id, Some(6));
    assert_eq!(a1.forwarded.as_deref(), Some("10.0.0.2"));
    assert!(a1.id < a2.id && a2.id < a3.id);
    let none = || AuditListFilter { id: None, type_: None, subject: None, service_id: None, user_id: None };
    let ids = |d: &MemoryDriver, q: Page, f: AuditListFilter, mask: Option<u128>| -> Vec<u128> {
        d.audit_list(&AuditList { query: &q, filter: &f, service_id_mask: mask })
            .iter()
            .map(|a| a.id)
            .collect()
    };
    assert_eq!(ids(&d, Page::Limit(10), none(), None), vec![a1.id, a2.id, a3.id]);
    assert_eq!(ids(&d, Page::IdGt(a1.id, 1), none(), None), vec![a2.id]);
    assert_eq!(ids(&d, Page::IdLt(a3.id, 10), none(), None), vec![a2.id, a1.id]);
    assert_eq!(ids(&d, Page::Limit(10), none(), Some(1)), vec![a1.id, a3.id]);
    assert_eq!(
        ids(&d, Page::Limit(10), AuditListFilter { type_: Some(vec!["SsoUserDelete".to_owned(), "Custom".to_owned()]), ..none() }, None),
        vec![a2.id, a3.id]
    );
    assert_eq!(
        ids(&d, Page::Limit(10), AuditListFilter { subject: Some(vec!["x".to_owned()]), ..none() }, None),
        vec![a1.id]
    );
    assert_eq!(
        ids(&d, Page::Limit(10), AuditListFilter { user_id: Some(vec![9]), id: Some(vec![a3.id]), ..none() }, None),
        vec![a3.id]
    );
    assert_eq!(
        ids(&d, Page::Limit(10), AuditListFilter { service_id: Some(vec![2]), ..none() }, None),
        vec![a2.id]
    );

    assert_eq!(d.audit_read(&AuditRead::new(a2.id)).unwrap().id, a2.id);
    assert!(d.audit_read(&AuditRead::new(a2.id).service_id_mask(Some(1))).is_none());
    assert!(d.audit_read(&AuditRead::new(999)).is_none());
    let changed = d
        .audit_update(
            &AuditRead::new(a2.id),
            AuditUpdate { subject: Some("late".to_owned()), data: Some(AuditData::Json("{}".to_owned())) },
            20,
        )
        .unwrap();
    assert_eq!(changed.subject.as_deref(), Some("late"));
    assert_eq!(changed.updated_at, 20);
    assert_eq!(changed.created_at, 11);
    assert!(matches!(d.audit_read(&AuditRead::new(a2.id)).unwrap().data, AuditData::Json(_)));
    assert_eq!(
        d.audit_update(&AuditRead::new(a2.id).service_id_mask(Some(1)), AuditUpdate { subject: None, data: None }, 21)
            .unwrap_err(),
        DriverError::AuditNotFound
    );
}

#[test]
fn audit_builder_collects_actors() {
    let mut d = MemoryDriver::new();
    let s = new_service(&mut d, "s", true);
    let u = d.user_create(UserCreate::new(true, "U".to_owned(), "u@example.com".to_owned()), 1).unwrap();
    let k = d.key_create(KeyCreate::service(true, "k".to_owned(), "kv".to_owned(), s.id), 1).unwrap();
    let mut b = AuditBuilder::new(store_meta(), AuditType::KeyRead);
    b.key(Some(&k)).service(Some(&s)).user(Some(&u)).user_key_id(Some(77));
    assert_eq!((b.key, b.service, b.user, b.user_key), (Some(k.id), Some(s.id), Some(u.id), Some(77)));
    b.user_id(None).user_key(Some(&k)).key(None);
    assert_eq!((b.key, b.user, b.user_key), (None, None, Some(k.id)));
    assert_eq!(b.meta().user_agent(), "agent");
    assert_eq!(b.meta().remote(), "10.0.0.1");
    assert_eq!(b.meta().forwarded(), Some("10.0.0.2"));

    let a = b.create_data(&mut d, &store_ctx(50), Some("subject".to_owned()), AuditData::Empty).unwrap();
    assert!(matches!(a.type_, AuditKind::Known(AuditType::KeyRead)));
    assert_eq!(a.type_.to_string(), "SsoKeyRead");
    assert_eq!(a.subject.as_deref(), Some("subject"));
    assert_eq!(a.service_id, Some(s.id));
    assert_eq!(a.user_key_id, Some(k.id));
    assert_eq!(a.created_at, 50);
    let a = b
        .create(&mut d, &store_ctx(51), AuditCreate2::new("Mine".to_owned(), None, AuditData::Json("1".to_owned())))
        .unwrap();
    assert_eq!(a.type_.to_string(), "Mine");
    assert!(matches!(a.data, AuditData::Json(ref j) if j == "1"));
}

fn trail_len(d: &MemoryDriver) -> usize {
    let q = Page::Limit(1000);
    let f = AuditListFilter { id: None, type_: None, subject: None, service_id: None, user_id: None };
    d.audit_list(&AuditList { query: &q, filter: &f, service_id_mask: None }).len()
}

fn trail_last(d: &MemoryDriver) -> Audit {
    let q = Page::Limit(1000);
    let f = AuditListFilter { id: None, type_: None, subject: None, service_id: None, user_id: None };
    d.audit_list(&AuditList { query: &q, filter: &f, service_id_mask: None }).pop().unwrap()
}

#[test]
fn audit_result_hands_the_outcome_on() {
    let mut d = MemoryDriver::new();
    let b = AuditBuilder::new(store_meta(), AuditType::Metrics);
    let c = store_ctx(5);
    let ok: MethodResult<u8> = Ok(3);
    let err: MethodResult<u8> = Err(MethodError::NotFound(DriverError::KeyNotFound));
    assert_eq!(audit_result(&mut d, &c, &b, ok), Ok(3));
    assert_eq!(trail_len(&d), 1);
    assert!(matches!(trail_last(&d).data, AuditData::Empty));
    assert_eq!(audit_result(&mut d, &c, &b, err), err);
    assert_eq!(trail_len(&d), 2);
    assert!(matches!(
        trail_last(&d).data,
        AuditData::Failure(MethodError::NotFound(DriverError::KeyNotFound))
    ));
    assert_eq!(audit_result_err(&mut d, &c, &b, ok), Ok(3));
    assert_eq!(trail_len(&d), 2);
    assert_eq!(audit_result_err(&mut d, &c, &b, err), err);
    assert_eq!(trail_len(&d), 3);
}

#[test]
fn audit_result_subject_and_diff() {
    let mut d = MemoryDriver::new();
    let b = AuditBuilder::new(store_meta(), AuditType::UserUpdate);
    let c = store_ctx(5);
    let before = d.user_create(UserCreate::new(true, "U".to_owned(), "u@example.com".to_owned()), 1).unwrap();
    let mut up = UserUpdate::new(before.id);
    up.name = Some("W".to_owned());
    up.is_enabled = Some(false);
    up.locale = Some("de".to_owned());
    let after = d.user_update(up, 2).unwrap();
    assert_eq!(before.subject(), "00000000-0000-0000-0000-000000000001");

    let r = audit_result_subject(&mut d, &c, &b, Ok(before.clone())).unwrap();
    assert_eq!(r.id, before.id);
    assert_eq!(trail_last(&d).subject.as_deref(), Some("00000000-0000-0000-0000-000000000001"));
    let e: MethodResult<User> = Err(MethodError::BadRequest(DriverError::UserNotFound));
    assert!(audit_result_subject(&mut d, &c, &b, e).is_err());
    assert_eq!(trail_last(&d).subject, None);

    let r = audit_result_diff(&mut d, &c, &b, Ok((before.clone(), after.clone()))).unwrap();
    assert_eq!(r.name, "W");
    let last = trail_last(&d);
    assert_eq!(last.subject.as_deref(), Some("00000000-0000-0000-0000-000000000001"));
    match last.data {
        AuditData::Json(j) => assert_eq!(
            j,
            r#"{"data":[["is_enabled","true","false"],["name","U","W"],["locale","","de"]],"type":"diff"}"#
        ),
        other => panic!("unexpected data {:?}", other),
    }
    match after.diff(&after) {
        AuditData::Json(j) => assert_eq!(j, r#"{"data":[],"type":"diff"}"#),
        other => panic!("unexpected data {:?}", other),
    }
}

#[test]
fn audit_diff_builder_rows() {
    let b = AuditDiffBuilder::default()
        .compare("count", &2.to_string(), &1.to_string())
        .compare("same", &"a".to_owned(), &"a".to_owned())
        .compare("name", &String::from("new"), &String::from("old"))
        .compare("text", "new \"q\"", "old")
        .compare("equal", "x", "x")
        .compare_flag("on", false, true)
        .compare_flag("off", true, true);
    match b.into_value() {
        AuditData::Json(j) => assert_eq!(
            j,
            r#"{"data":[["count","1","2"],["name","old","new"],["text","old","new \"q\""],["on","true","false"]],"type":"diff"}"#
        ),
        other => panic!("unexpected data {:?}", other),
    }
    assert_eq!(
        AuditDiffBuilder::typed_data("message", &vec![("a".to_owned(), "b".to_owned(), "c".to_owned())]),
        r#"{"data":[["a","b","c"]],"type":"message"}"#
    );
}

#[test]
fn audit_type_names() {
    assert_eq!(AuditType::AuthLocalLogin.to_string(), "SsoAuthLocalLogin");
    assert_eq!(AuditType::Metrics.as_str(), "SsoMetrics");
    assert_eq!(AuditType::from_string("SsoAuthCsrfVerify"), Some(AuditType::AuthCsrfVerify));
    assert_eq!(AuditType::from_string("AuthCsrfVerify"), None);
    assert_eq!(AuditKind::Custom("x".to_owned()).to_string(), "x");
    assert_eq!(sso::audit::AUDIT_TYPE_MAX_LEN, 200);
    assert_eq!(sso::audit::AUDIT_SUBJECT_MAX_LEN, 200);
}

#[test]
fn password_hash_and_check() {
    assert_eq!(hash_password(None), Ok(None));
    let h = hash_password(Some("hunter2")).unwrap().unwrap();
    assert!(h.starts_with("$2b$12$"));
    assert_eq!(h.len(), 60);
    // Each hash has a salt of its own, and each verifies the password.
    let again = hash_password(Some("hunter2")).unwrap().unwrap();
    assert_ne!(again, h);
    assert_eq!(check_password(Some(&again), "hunter2"), Ok(()));
    assert_eq!(check_password(Some(&h), "hunter2"), Ok(()));
    assert_eq!(check_password(Some(&h), "hunter3"), Err(DriverError::UserPasswordIncorrect));
    assert_eq!(check_password(None, "hunter2"), Err(DriverError::UserPasswordUndefined));
    assert_eq!(check_password(Some("not a hash"), "hunter2"), Err(DriverError::Bcrypt));
}

#[test]
fn error_kinds() {
    assert_eq!(
        MethodError::reject(DriverError::CsrfKeyConflict),
        MethodError::Conflict(DriverError::CsrfKeyConflict)
    );
    assert_eq!(
        MethodError::reject(DriverError::UserEmailConflict),
        MethodError::Conflict(DriverError::UserEmailConflict)
    );
    assert_eq!(
        MethodError::reject(DriverError::KeyValueConflict),
        MethodError::Conflict(DriverError::KeyValueConflict)
    );
    assert_eq!(
        MethodError::reject(DriverError::JwtInvalid),
        MethodError::BadRequest(DriverError::JwtInvalid)
    );
    assert_eq!(MethodError::Forbidden(DriverError::UserDisabled).get_reason(), DriverError::UserDisabled);
    assert_eq!(MethodError::NotFound(DriverError::KeyNotFound).get_reason(), DriverError::KeyNotFound);
}

#[test]
fn context_capture_draws_fresh_secrets() {
    let a = Context::capture();
    let b = Context::capture();
    assert!(a.now > 1_500_000_000);
    let is_base64url = |c: char| c.is_ascii_alphanumeric() || c == '-' || c == '_';
    assert_eq!(a.csrf_key.len(), 22);
    assert!(a.csrf_key.chars().all(is_base64url));
    assert_eq!(a.csrf_value.len(), 43);
    assert!(a.csrf_value.chars().all(is_base64url));
    assert_eq!(a.key_value.len(), 64);
    assert!(a.key_value.chars().all(|c| c.is_ascii_digit() || ('a'..='f').contains(&c)));
    assert_ne!(a.csrf_key, b.csrf_key);
    assert_ne!(a.csrf_value, b.csrf_value);
    assert_ne!(a.key_value, b.key_value);
}

#[test]
fn csrf_create_record_shape() {
    let mut d = MemoryDriver::new();
    let made = d
        .csrf_create(CsrfCreate { key: "k".to_owned(), value: "v".to_owned(), ttl: 9, service_id: 3 }, 4)
        .unwrap();
    assert_eq!((made.created_at, made.ttl, made.service_id), (4, 9, 3));
    assert_eq!(d.csrf_read("k", 9).map(|c| c.value), Some("v".to_owned()));
}

#[test]
fn identifiers_run_out() {
    let mut d = MemoryDriver::starting_at(u128::MAX - 1);
    let s = new_service(&mut d, "last", true);
    assert_eq!(s.id, u128::MAX - 1);
    let e = d
        .user_create(UserCreate::new(true, "U".to_owned(), "u@example.com".to_owned()), 1)
        .unwrap_err();
    assert_eq!(e, DriverError::IdExhausted);
    assert_eq!(
        d.key_create(KeyCreate::root(true, "k".to_owned(), "v".to_owned()), 1).unwrap_err(),
        DriverError::IdExhausted
    );
    // An operation whose audit record cannot be written fails as a whole.
    let b = AuditBuilder::new(store_meta(), AuditType::Metrics);
    let ok: MethodResult<u8> = Ok(3);
    assert_eq!(
        audit_result(&mut d, &store_ctx(5), &b, ok),
        Err(MethodError::BadRequest(DriverError::IdExhausted))
    );
    assert_eq!(trail_len(&d), 0);
}

#[test]
fn audit_meta_parts() {
    let m = AuditMeta::new("agent", "127.0.0.1", Some(String::from("10.0.0.1")));
    assert_eq!(m.user_agent(), "agent");
    assert_eq!(m.remote(), "127.0.0.1");
    assert_eq!(m.forwarded(), Some("10.0.0.1"));
    let n = AuditMeta::new("agent", "127.0.0.1", None::<String>);
    assert_eq!(n.forwarded(), None);
    assert_eq!(n.user_agent(), "agent");
}
