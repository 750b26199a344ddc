//! What every operation of the engine shares: how it authenticates the
//! service that calls, how it finds the user it is about, and how its outcome
//! reaches the audit trail.

use vstd::prelude::*;
use crate::audit::{audit_result, AuditBuilder, AuditCreate2, AuditData, AuditKind};
use crate::auth;
use crate::context::Context;
use crate::driver::Driver;
use crate::error::{DriverError, MethodError, MethodResult};
use crate::model::{Id, KeyType, KeyWithValue, Service, User};
use crate::store::Store;
use crate::text::opt_view;

verus! {

/// What an operation did before its outcome is recorded: why it failed, if
/// it did, what it left in the store, and what it learnt of its actors.
pub struct Outcome {
    pub failure: Option<MethodError>,
    pub store: Store,
    pub audit: AuditBuilder,
}

/// The error of an outcome, `None` for a success.
pub open spec fn failure_of<T>(r: MethodResult<T>) -> Option<MethodError> {
    match r {
        Ok(_) => None,
        Err(e) => Some(e),
    }
}

/// What the audit trail says of an outcome.
pub open spec fn failure_data(failure: Option<MethodError>) -> AuditData {
    match failure {
        None => AuditData::Empty,
        Some(e) => AuditData::Failure(e),
    }
}

/// A failure of the store as an operation reports it.
pub open spec fn rejected_by(e: Option<DriverError>) -> Option<MethodError> {
    match e {
        None => None,
        Some(e) => Some(MethodError::rejected(e)),
    }
}

/// The store once the outcome is recorded: one more audit record, of the
/// operation's own name, with the actors it learnt of and the failure if any.
pub open spec fn recorded(o: Outcome, now: i64) -> Store {
    o.store.audit_create(o.audit.own_request(None, failure_data(o.failure)), now).1
}

/// What the caller is told: a failure as it is; a success, unless the audit
/// record could not be written, which fails the operation.
pub open spec fn reported(o: Outcome) -> Option<MethodError> {
    match o.failure {
        Some(e) => Some(e),
        None => if o.store.next_id == Id::MAX {
            Some(MethodError::BadRequest(DriverError::IdExhausted))
        } else {
            None
        },
    }
}

/// Records the outcome of an operation and hands it on.
pub fn finish<D: Driver, T>(
    driver: &mut D,
    ctx: &Context,
    audit: &AuditBuilder,
    res: MethodResult<T>,
) -> (r: MethodResult<T>)
    requires
        old(driver).store().wf(),
    ensures
        final(driver).store().wf(),
        final(driver).store() == recorded(
            Outcome { failure: failure_of(res), store: old(driver).store(), audit: *audit },
            ctx.now,
        ),
        failure_of(r) == reported(
            Outcome { failure: failure_of(res), store: old(driver).store(), audit: *audit },
        ),
        r is Ok ==> r == res,
{
    audit_result(driver, ctx, audit, res)
}

/// The service that a key value authenticates, as an operation sees it.
pub open spec fn service_of(store: Store, auth: Option<Seq<char>>) -> Result<
    Service,
    MethodError,
> {
    match auth::authenticate_service_spec(store, auth) {
        Ok(s) => Ok(s),
        Err(e) => Err(MethodError::Unauthorised(e)),
    }
}

/// Authenticates the service that makes a request. Every failure is `Unauthorised`.
pub fn key_service_authenticate<D: Driver>(
    driver: &D,
    audit: &mut AuditBuilder,
    auth: &Option<String>,
) -> (r: MethodResult<Service>)
    requires
        driver.store().wf(),
    ensures
        r == service_of(driver.store(), opt_view(*auth)),
        *final(audit) == auth::authenticate_audit(driver.store(), opt_view(*auth), *old(audit)),
{
    match auth::authenticate_service(driver, audit, auth) {
        Ok(s) => Ok(s),
        Err(e) => Err(MethodError::Unauthorised(e)),
    }
}

/// The root key or the service that a key value authenticates.
pub open spec fn caller_of(store: Store, auth: Option<Seq<char>>) -> Result<
    Option<Service>,
    MethodError,
> {
    match auth::authenticate_any_spec(store, auth) {
        Ok(s) => Ok(s),
        Err(e) => Err(MethodError::Unauthorised(e)),
    }
}

/// Authenticates the root key or the service that makes a request.
pub fn key_authenticate<D: Driver>(
    driver: &D,
    audit: &mut AuditBuilder,
    auth: &Option<String>,
) -> (r: MethodResult<Option<Service>>)
    requires
        driver.store().wf(),
    ensures
        r == caller_of(driver.store(), opt_view(*auth)),
        *final(audit) == auth::authenticate_audit(driver.store(), opt_view(*auth), *old(audit)),
{
    match auth::authenticate_any(driver, audit, auth) {
        Ok(s) => Ok(s),
        Err(e) => Err(MethodError::Unauthorised(e)),
    }
}

/// The user that a request is about and the key of that user that the
/// operation works with: the user must be found, the key must be found, and
/// where `checked` the user must be enabled and the key usable.
pub open spec fn party(
    store: Store,
    service_id: Id,
    found: Option<User>,
    type_: KeyType,
    checked: bool,
) -> Result<(User, KeyWithValue), MethodError> {
    match auth::usable_user(found, checked) {
        Err(e) => Err(MethodError::BadRequest(e)),
        Ok(user) => match auth::user_key(store.key_of_user(service_id, user.id, type_, checked)) {
            Err(e) => Err(MethodError::BadRequest(e)),
            Ok(key) => Ok((user, key)),
        },
    }
}

/// What the audit builder knows after the lookups of [`party`].
pub open spec fn party_audit(
    store: Store,
    service_id: Id,
    found: Option<User>,
    type_: KeyType,
    checked: bool,
    audit: AuditBuilder,
) -> AuditBuilder {
    let with_user = auth::audit_with_user(audit, found);
    match auth::usable_user(found, checked) {
        Err(_) => with_user,
        Ok(user) => auth::audit_with_user_key(
            with_user,
            store.key_of_user(service_id, user.id, type_, checked),
        ),
    }
}

fn party_key<D: Driver>(
    driver: &D,
    audit: &mut AuditBuilder,
    service: &Service,
    user: User,
    type_: KeyType,
    checked: bool,
) -> (r: MethodResult<(User, KeyWithValue)>)
    requires
        driver.store().wf(),
    ensures
        r == (match auth::user_key(driver.store().key_of_user(service.id, user.id, type_, checked)) {
            Err(e) => Err(MethodError::BadRequest(e)),
            Ok(key) => Ok((user, key)),
        }),
        *final(audit) == auth::audit_with_user_key(
            *old(audit),
            driver.store().key_of_user(service.id, user.id, type_, checked),
        ),
{
    let key = if checked {
        auth::key_read_user_checked(driver, service, audit, &user, type_)
    } else {
        auth::key_read_user_unchecked(driver, service, audit, &user, type_)
    };
    match key {
        Err(e) => Err(MethodError::BadRequest(e)),
        Ok(key) => Ok((user, key)),
    }
}

/// Finds the enabled user with an email address and the user's usable key
/// of one type. Every failure is `BadRequest`, so that the answer does not
/// tell whether the account exists.
pub fn party_by_email<D: Driver>(
    driver: &D,
    audit: &mut AuditBuilder,
    service: &Service,
    email: &str,
    type_: KeyType,
) -> (r: MethodResult<(User, KeyWithValue)>)
    requires
        driver.store().wf(),
    ensures
        r == party(driver.store(), service.id, driver.store().user_by_email(email@), type_, true),
        *final(audit) == party_audit(
            driver.store(),
            service.id,
            driver.store().user_by_email(email@),
            type_,
            true,
            *old(audit),
        ),
{
    match auth::user_read_email_checked(driver, audit, email) {
        Err(e) => Err(MethodError::BadRequest(e)),
        Ok(user) => party_key(driver, audit, service, user, type_, true),
    }
}

/// Finds the user with an identifier and the user's key of one type; where
/// `checked`, the user must be enabled and the key usable.
pub fn party_by_id<D: Driver>(
    driver: &D,
    audit: &mut AuditBuilder,
    service: &Service,
    id: Id,
    type_: KeyType,
    checked: bool,
) -> (r: MethodResult<(User, KeyWithValue)>)
    requires
        driver.store().wf(),
    ensures
        r == party(driver.store(), service.id, driver.store().user_by_id(id), type_, checked),
        *final(audit) == party_audit(
            driver.store(),
            service.id,
            driver.store().user_by_id(id),
            type_,
            checked,
            *old(audit),
        ),
{
    let user = if checked {
        auth::user_read_id_checked(driver, audit, id)
    } else {
        auth::user_read_id_unchecked(driver, audit, id)
    };
    match user {
        Err(e) => Err(MethodError::BadRequest(e)),
        Ok(user) => party_key(driver, audit, service, user, type_, checked),
    }
}

/// Wraps a failure of the store as an operation reports it.
pub fn rejected<T>(r: Result<T, DriverError>) -> (m: MethodResult<T>)
    ensures
        m == (match r {
            Ok(t) => Ok(t),
            Err(e) => Err(MethodError::rejected(e)),
        }),
{
    match r {
        Ok(t) => Ok(t),
        Err(e) => Err(MethodError::reject(e)),
    }
}

/// Writing the audit record that a caller asked for under a name of its
/// own, if it asked for one.
pub open spec fn custom_audit_spec(
    store: Store,
    audit: AuditBuilder,
    name: Option<String>,
    now: i64,
) -> (Option<MethodError>, Store) {
    match name {
        None => (None, store),
        Some(name) => {
            let (made, after) = store.audit_create(
                audit.request(AuditKind::Custom(name), None, AuditData::Empty),
                now,
            );
            (
                match made {
                    Ok(_) => None,
                    Err(e) => Some(MethodError::BadRequest(e)),
                },
                after,
            )
        },
    }
}

/// The identifier of the audit record that a caller asked for.
pub open spec fn custom_audit_id(store: Store, name: Option<String>) -> Option<Id> {
    match name {
        None => None,
        Some(_) => Some(store.next_id),
    }
}

/// Writes the audit record that a caller asked for, with the actors
/// collected so far, and returns its identifier.
pub fn custom_audit<D: Driver>(
    driver: &mut D,
    ctx: &Context,
    audit: &AuditBuilder,
    name: Option<String>,
) -> (r: MethodResult<Option<Id>>)
    requires
        old(driver).store().wf(),
    ensures
        final(driver).store().wf(),
        (failure_of(r), final(driver).store()) == custom_audit_spec(
            old(driver).store(),
            *audit,
            name,
            ctx.now,
        ),
        r matches Ok(id) ==> id == custom_audit_id(old(driver).store(), name),
{
    match name {
        Some(name) => {
            match audit.create(driver, ctx, AuditCreate2::new(name, None, AuditData::Empty)) {
                Ok(a) => Ok(Some(a.id)),
                Err(e) => Err(MethodError::BadRequest(e)),
            }
        },
        None => Ok(None),
    }
}

/// The store once the outcome of an operation on a subject is recorded: a
/// success under `subject` and with `data`, both of the operation's choice;
/// a failure without subject and with the failure as data.
pub open spec fn recorded_with(o: Outcome, subject: Option<String>, data: AuditData, now: i64)
    -> Store {
    o.store.audit_create(
        o.audit.own_request(
            match o.failure {
                None => subject,
                Some(_) => None,
            },
            match o.failure {
                None => data,
                Some(e) => AuditData::Failure(e),
            },
        ),
        now,
    ).1
}

/// The store once an outcome is recorded if it is a failure, and left as it
/// is otherwise.
pub open spec fn recorded_err(o: Outcome, now: i64) -> Store {
    match o.failure {
        None => o.store,
        Some(_) => recorded(o, now),
    }
}

/// What the caller is told where only failures are recorded: the
/// operation's own outcome.
pub open spec fn reported_err(o: Outcome) -> Option<MethodError> {
    o.failure
}

/// Records the outcome of an operation if it failed and hands it on.
pub fn finish_err<D: Driver, T>(
    driver: &mut D,
    ctx: &Context,
    audit: &AuditBuilder,
    res: MethodResult<T>,
) -> (r: MethodResult<T>)
    requires
        old(driver).store().wf(),
    ensures
        final(driver).store().wf(),
        final(driver).store() == recorded_err(
            Outcome { failure: failure_of(res), store: old(driver).store(), audit: *audit },
            ctx.now,
        ),
        failure_of(r) == reported_err(
            Outcome { failure: failure_of(res), store: old(driver).store(), audit: *audit },
        ),
        r is Ok ==> r == res,
{
    crate::audit::audit_result_err(driver, ctx, audit, res)
}

} // verus!
