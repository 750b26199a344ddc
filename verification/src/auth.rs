//! The key authentication gateway: from an opaque key value to the service
//! and user it stands for, and the lookups that every operation shares.

use vstd::prelude::*;
use crate::audit::AuditBuilder;
use crate::driver::Driver;
use crate::error::{DriverError, DriverResult};
use crate::model::{Id, KeyType, KeyUpdate, KeyWithValue, Service, User};
use crate::store::{key_has_id, key_has_value, Store};
use crate::text::{lemma_first_match, opt_view};

verus! {

/// Who a key value stands for.
#[derive(Debug)]
pub struct Authenticated {
    pub key: KeyWithValue,
    /// The owning service; `None` for a root key.
    pub service: Option<Service>,
    /// The user, for a user key.
    pub user: Option<User>,
}

/// The owner of a usable key: its service, which must exist and be enabled,
/// and for a user key its user, who must exist and be enabled.
pub open spec fn resolve_owner(store: Store, key: KeyWithValue) -> Result<
    Authenticated,
    DriverError,
> {
    match key.service_id {
        None => Ok(Authenticated { key, service: None, user: None }),
        Some(sid) => match store.service(sid) {
            None => Err(DriverError::ServiceNotFound),
            Some(service) => if !service.is_enabled {
                Err(DriverError::ServiceDisabled)
            } else {
                match key.user_id {
                    None => Ok(Authenticated { key, service: Some(service), user: None }),
                    Some(uid) => match store.user_by_id(uid) {
                        None => Err(DriverError::UserNotFound),
                        Some(user) => if !user.is_enabled {
                            Err(DriverError::UserDisabled)
                        } else {
                            Ok(Authenticated { key, service: Some(service), user: Some(user) })
                        },
                    },
                }
            },
        },
    }
}

/// What [`authenticate`] returns.
pub open spec fn authenticate_spec(
    store: Store,
    key_value: Option<Seq<char>>,
    required_type: Option<KeyType>,
) -> Result<Authenticated, DriverError> {
    match key_value {
        None => Err(DriverError::KeyUndefined),
        Some(v) => match store.key_by_value(v) {
            None => Err(DriverError::KeyNotFound),
            Some(key) => if !key.is_enabled {
                Err(DriverError::KeyDisabled)
            } else if key.is_revoked {
                Err(DriverError::KeyRevoked)
            } else if required_type matches Some(t) && t != key.type_ {
                Err(DriverError::KeyTypeMismatch)
            } else {
                resolve_owner(store, key)
            },
        },
    }
}

/// What the audit builder knows after [`authenticate`]: once the key is
/// found, its identifier, service and user, whether or not the key is accepted.
pub open spec fn authenticate_audit(
    store: Store,
    key_value: Option<Seq<char>>,
    audit: AuditBuilder,
) -> AuditBuilder {
    match key_value {
        None => audit,
        Some(v) => match store.key_by_value(v) {
            None => audit,
            Some(key) => match key.user_id {
                None => AuditBuilder { key: Some(key.id), service: key.service_id, ..audit },
                Some(uid) => AuditBuilder {
                    user_key: Some(key.id),
                    service: key.service_id,
                    user: Some(uid),
                    ..audit
                },
            },
        },
    }
}

fn owner<D: Driver>(driver: &D, key: KeyWithValue) -> (r: DriverResult<Authenticated>)
    requires
        driver.store().wf(),
    ensures
        r == resolve_owner(driver.store(), key),
{
    match key.service_id {
        None => Ok(Authenticated { key, service: None, user: None }),
        Some(sid) => match driver.service_read(sid) {
            None => Err(DriverError::ServiceNotFound),
            Some(service) => if !service.is_enabled {
                Err(DriverError::ServiceDisabled)
            } else {
                match key.user_id {
                    None => Ok(Authenticated { key, service: Some(service), user: None }),
                    Some(uid) => match driver.user_read_id(uid) {
                        None => Err(DriverError::UserNotFound),
                        Some(user) => if !user.is_enabled {
                            Err(DriverError::UserDisabled)
                        } else {
                            Ok(Authenticated { key, service: Some(service), user: Some(user) })
                        },
                    },
                }
            },
        },
    }
}

/// Resolves a key value. Fails when no value is given, when no key has it,
/// when the key is disabled or revoked, when `required_type` is given and the
/// key is of another type, and when the key's service or user is missing or
/// disabled. Changes nothing in the store.
pub fn authenticate<D: Driver>(
    driver: &D,
    audit: &mut AuditBuilder,
    key_value: &Option<String>,
    required_type: Option<KeyType>,
) -> (r: DriverResult<Authenticated>)
    requires
        driver.store().wf(),
    ensures
        r == authenticate_spec(driver.store(), opt_view(*key_value), required_type),
        *final(audit) == authenticate_audit(driver.store(), opt_view(*key_value), *old(audit)),
{
    match key_value {
        None => Err(DriverError::KeyUndefined),
        Some(v) => match driver.key_read_value(v.as_str()) {
            None => Err(DriverError::KeyNotFound),
            Some(key) => {
                audit.service = key.service_id;
                match key.user_id {
                    None => {
                        audit.key = Some(key.id);
                    },
                    Some(uid) => {
                        audit.user_key = Some(key.id);
                        audit.user = Some(uid);
                    },
                }
                if !key.is_enabled {
                    Err(DriverError::KeyDisabled)
                } else if key.is_revoked {
                    Err(DriverError::KeyRevoked)
                } else {
                    let type_ok = match required_type {
                        Some(t) => t == key.type_,
                        None => true,
                    };
                    if !type_ok {
                        Err(DriverError::KeyTypeMismatch)
                    } else {
                        owner(driver, key)
                    }
                }
            },
        },
    }
}

/// What [`authenticate_service`] returns.
pub open spec fn authenticate_service_spec(store: Store, key_value: Option<Seq<char>>) -> Result<
    Service,
    DriverError,
> {
    match authenticate_spec(store, key_value, None) {
        Err(e) => Err(e),
        Ok(a) => if a.key.user_id is Some {
            Err(DriverError::KeyUserDefined)
        } else {
            match a.service {
                Some(s) => Ok(s),
                None => Err(DriverError::KeyServiceUndefined),
            }
        },
    }
}

/// Resolves the value of a service key: as [`authenticate`], and the key must
/// belong to a service and to no user.
pub fn authenticate_service<D: Driver>(
    driver: &D,
    audit: &mut AuditBuilder,
    key_value: &Option<String>,
) -> (r: DriverResult<Service>)
    requires
        driver.store().wf(),
    ensures
        r == authenticate_service_spec(driver.store(), opt_view(*key_value)),
        *final(audit) == authenticate_audit(driver.store(), opt_view(*key_value), *old(audit)),
{
    match authenticate(driver, audit, key_value, None) {
        Err(e) => Err(e),
        Ok(a) => if a.key.user_id.is_some() {
            Err(DriverError::KeyUserDefined)
        } else {
            match a.service {
                Some(s) => Ok(s),
                None => Err(DriverError::KeyServiceUndefined),
            }
        },
    }
}

/// What [`authenticate_root`] returns.
pub open spec fn authenticate_root_spec(store: Store, key_value: Option<Seq<char>>) -> Result<
    (),
    DriverError,
> {
    match authenticate_spec(store, key_value, None) {
        Err(e) => Err(e),
        Ok(a) => if a.key.service_id is Some {
            Err(DriverError::KeyServiceDefined)
        } else {
            Ok(())
        },
    }
}

/// Resolves the value of a root key: as [`authenticate`], and the key must
/// belong to no service.
pub fn authenticate_root<D: Driver>(
    driver: &D,
    audit: &mut AuditBuilder,
    key_value: &Option<String>,
) -> (r: DriverResult<()>)
    requires
        driver.store().wf(),
    ensures
        r == authenticate_root_spec(driver.store(), opt_view(*key_value)),
        *final(audit) == authenticate_audit(driver.store(), opt_view(*key_value), *old(audit)),
{
    match authenticate(driver, audit, key_value, None) {
        Err(e) => Err(e),
        Ok(a) => if a.key.service_id.is_some() {
            Err(DriverError::KeyServiceDefined)
        } else {
            Ok(())
        },
    }
}

/// What [`authenticate_any`] returns: the service of a service key, `None`
/// for a root key.
pub open spec fn authenticate_any_spec(store: Store, key_value: Option<Seq<char>>) -> Result<
    Option<Service>,
    DriverError,
> {
    match authenticate_spec(store, key_value, None) {
        Err(e) => Err(e),
        Ok(a) => if a.key.user_id is Some {
            Err(DriverError::KeyUserDefined)
        } else {
            Ok(a.service)
        },
    }
}

/// Resolves the value of a root key or of a service key.
pub fn authenticate_any<D: Driver>(
    driver: &D,
    audit: &mut AuditBuilder,
    key_value: &Option<String>,
) -> (r: DriverResult<Option<Service>>)
    requires
        driver.store().wf(),
    ensures
        r == authenticate_any_spec(driver.store(), opt_view(*key_value)),
        *final(audit) == authenticate_audit(driver.store(), opt_view(*key_value), *old(audit)),
{
    match authenticate(driver, audit, key_value, None) {
        Err(e) => Err(e),
        Ok(a) => if a.key.user_id.is_some() {
            Err(DriverError::KeyUserDefined)
        } else {
            Ok(a.service)
        },
    }
}

/// A user as an operation may use it: found, and enabled where `checked`.
pub open spec fn usable_user(found: Option<User>, checked: bool) -> Result<User, DriverError> {
    match found {
        None => Err(DriverError::UserNotFound),
        Some(u) => if checked && !u.is_enabled {
            Err(DriverError::UserDisabled)
        } else {
            Ok(u)
        },
    }
}

/// What the audit builder knows once a user was looked up.
pub open spec fn audit_with_user(audit: AuditBuilder, found: Option<User>) -> AuditBuilder {
    match found {
        None => audit,
        Some(u) => AuditBuilder { user: Some(u.id), ..audit },
    }
}

fn check_user(audit: &mut AuditBuilder, found: Option<User>, checked: bool) -> (r: DriverResult<
    User,
>)
    ensures
        r == usable_user(found, checked),
        *final(audit) == audit_with_user(*old(audit), found),
{
    match found {
        None => Err(DriverError::UserNotFound),
        Some(u) => {
            audit.user = Some(u.id);
            if checked && !u.is_enabled {
                Err(DriverError::UserDisabled)
            } else {
                Ok(u)
            }
        },
    }
}

/// Reads the user with an email address, who must be enabled.
pub fn user_read_email_checked<D: Driver>(driver: &D, audit: &mut AuditBuilder, email: &str) -> (r:
    DriverResult<User>)
    requires
        driver.store().wf(),
    ensures
        r == usable_user(driver.store().user_by_email(email@), true),
        *final(audit) == audit_with_user(*old(audit), driver.store().user_by_email(email@)),
{
    check_user(audit, driver.user_read_email(email), true)
}

/// Reads the user with an identifier, who must be enabled.
pub fn user_read_id_checked<D: Driver>(driver: &D, audit: &mut AuditBuilder, id: Id) -> (r:
    DriverResult<User>)
    requires
        driver.store().wf(),
    ensures
        r == usable_user(driver.store().user_by_id(id), true),
        *final(audit) == audit_with_user(*old(audit), driver.store().user_by_id(id)),
{
    check_user(audit, driver.user_read_id(id), true)
}

/// Reads the user with an identifier, enabled or not.
pub fn user_read_id_unchecked<D: Driver>(driver: &D, audit: &mut AuditBuilder, id: Id) -> (r:
    DriverResult<User>)
    requires
        driver.store().wf(),
    ensures
        r == usable_user(driver.store().user_by_id(id), false),
        *final(audit) == audit_with_user(*old(audit), driver.store().user_by_id(id)),
{
    check_user(audit, driver.user_read_id(id), false)
}

/// The key of a user as an operation may use it.
pub open spec fn user_key(found: Option<KeyWithValue>) -> Result<KeyWithValue, DriverError> {
    match found {
        None => Err(DriverError::KeyNotFound),
        Some(k) => Ok(k),
    }
}

/// What the audit builder knows once a user's key was looked up.
pub open spec fn audit_with_user_key(audit: AuditBuilder, found: Option<KeyWithValue>)
    -> AuditBuilder {
    match found {
        None => audit,
        Some(k) => AuditBuilder { user_key: Some(k.id), ..audit },
    }
}

fn key_read_user<D: Driver>(
    driver: &D,
    service: &Service,
    audit: &mut AuditBuilder,
    user: &User,
    type_: KeyType,
    usable_only: bool,
) -> (r: DriverResult<KeyWithValue>)
    requires
        driver.store().wf(),
    ensures
        r == user_key(driver.store().key_of_user(service.id, user.id, type_, usable_only)),
        *final(audit) == audit_with_user_key(
            *old(audit),
            driver.store().key_of_user(service.id, user.id, type_, usable_only),
        ),
{
    match driver.key_read_user(service.id, user.id, type_, usable_only) {
        None => Err(DriverError::KeyNotFound),
        Some(k) => {
            audit.user_key = Some(k.id);
            Ok(k)
        },
    }
}

/// Reads the oldest key of one type that a user holds within a service and
/// that is enabled and not revoked.
pub fn key_read_user_checked<D: Driver>(
    driver: &D,
    service: &Service,
    audit: &mut AuditBuilder,
    user: &User,
    type_: KeyType,
) -> (r: DriverResult<KeyWithValue>)
    requires
        driver.store().wf(),
    ensures
        r == user_key(driver.store().key_of_user(service.id, user.id, type_, true)),
        *final(audit) == audit_with_user_key(
            *old(audit),
            driver.store().key_of_user(service.id, user.id, type_, true),
        ),
{
    key_read_user(driver, service, audit, user, type_, true)
}

/// Reads the oldest key of one type that a user holds within a service,
/// usable or not.
pub fn key_read_user_unchecked<D: Driver>(
    driver: &D,
    service: &Service,
    audit: &mut AuditBuilder,
    user: &User,
    type_: KeyType,
) -> (r: DriverResult<KeyWithValue>)
    requires
        driver.store().wf(),
    ensures
        r == user_key(driver.store().key_of_user(service.id, user.id, type_, false)),
        *final(audit) == audit_with_user_key(
            *old(audit),
            driver.store().key_of_user(service.id, user.id, type_, false),
        ),
{
    key_read_user(driver, service, audit, user, type_, false)
}

/// A revoked key authenticates nobody, whether it is enabled or not and
/// whatever type is asked for.
pub proof fn lemma_revoked_key_is_refused(
    store: Store,
    key_value: Seq<char>,
    required_type: Option<KeyType>,
)
    requires
        store.key_by_value(key_value) matches Some(k) && k.is_revoked,
    ensures
        authenticate_spec(store, Some(key_value), required_type) is Err,
        authenticate_service_spec(store, Some(key_value)) is Err,
        authenticate_root_spec(store, Some(key_value)) is Err,
        authenticate_any_spec(store, Some(key_value)) is Err,
{
}

/// A key that was revoked stays revoked: no update brings it back, so it
/// authenticates nobody afterwards either.
pub proof fn lemma_revoked_key_stays_refused(
    store: Store,
    id: Id,
    update: KeyUpdate,
    now: i64,
    required_type: Option<KeyType>,
)
    requires
        store.wf(),
        store.key_by_id(id) matches Some(k) && k.is_revoked,
    ensures
        store.key_update(id, update, now).1.key_by_id(id) matches Some(k) && k.is_revoked,
        authenticate_spec(
            store.key_update(id, update, now).1,
            Some(store.key_by_id(id)->0.value@),
            required_type,
        ) is Err,
{
    let after = store.key_update(id, update, now).1;
    let v = store.key_by_id(id)->0.value@;
    store.lemma_key_update_wf(id, update, now);
    lemma_first_match(store.keys, key_has_id(id));
    lemma_first_match(after.keys, key_has_id(id));
    lemma_first_match(after.keys, key_has_value(v));
    let i = crate::text::first_match(store.keys, key_has_id(id))->0;
    assert(after.keys[i].id == id);
    assert(after.keys[i].value@ == v);
    assert(key_has_id(id)(after.keys[i]));
    assert(key_has_value(v)(after.keys[i]));
}

} // verus!
