//! The administration of services: creating them with a root key, and
//! reading them.

use vstd::prelude::*;
use crate::audit::{
    audit_result_subject, written, AuditBuilder, AuditData, AuditMeta, AuditSubject,
};
use crate::audit_type::AuditType;
use crate::auth;
use crate::context::Context;
use crate::driver::Driver;
use crate::error::{DriverError, MethodError, MethodResult};
use crate::jwt::{uuid_text, uuid_to_string};
use crate::method::{
    caller_of, failure_of, finish, key_authenticate, recorded, recorded_with,
    rejected, reported, Outcome,
};
use crate::model::{Id, Service, ServiceCreate};
use crate::store::Store;
use crate::text::opt_view;

verus! {

impl AuditSubject for Service {
    open spec fn subject_spec(&self) -> Seq<char> {
        uuid_text(self.id)
    }

    fn subject(&self) -> (r: String) {
        uuid_to_string(self.id)
    }
}

/// What creating a service does before its outcome is recorded: the caller
/// must hold a root key, and the service gets the next identifier.
pub open spec fn create_spec(
    store: Store,
    ctx: Context,
    audit: AuditBuilder,
    auth: Option<Seq<char>>,
    req: ServiceCreate,
) -> Outcome {
    let audit = auth::authenticate_audit(store, auth, audit);
    match auth::authenticate_root_spec(store, auth) {
        Err(e) => Outcome { failure: Some(MethodError::Unauthorised(e)), store, audit },
        Ok(()) => match store.service_create(req, ctx.now) {
            (Err(e), s) => Outcome { failure: Some(MethodError::rejected(e)), store: s, audit },
            (Ok(_), s) => Outcome { failure: None, store: s, audit },
        },
    }
}

fn create_inner<D: Driver>(
    driver: &mut D,
    ctx: &Context,
    audit: &mut AuditBuilder,
    auth: &Option<String>,
    req: ServiceCreate,
) -> (r: MethodResult<Service>)
    requires
        old(driver).store().wf(),
    ensures
        final(driver).store().wf(),
        (Outcome { failure: failure_of(r), store: final(driver).store(), audit: *final(audit) })
            == create_spec(old(driver).store(), *ctx, *old(audit), opt_view(*auth), req),
        r matches Ok(s) ==> s == Service::created(req, old(driver).store().next_id, ctx.now),
{
    match auth::authenticate_root(driver, audit, auth) {
        Err(e) => Err(MethodError::Unauthorised(e)),
        Ok(()) => rejected(driver.service_create(req, ctx.now)),
    }
}

/// Creates a service. Only a root key may do so: every other caller fails
/// `Unauthorised`. The outcome is recorded in the audit trail, on success
/// under the new service's identifier as subject.
pub fn create<D: Driver>(
    driver: &mut D,
    ctx: &Context,
    audit_meta: AuditMeta,
    auth: Option<String>,
    req: ServiceCreate,
) -> (r: MethodResult<Service>)
    requires
        old(driver).store().wf(),
    ensures
        final(driver).store().wf(),
        final(driver).store() == recorded_with(
            create_spec(
                old(driver).store(),
                *ctx,
                AuditBuilder::new_spec(audit_meta, AuditType::ServiceCreate),
                opt_view(auth),
                req,
            ),
            written(final(driver).store()).subject,
            AuditData::Empty,
            ctx.now,
        ),
        failure_of(r) == reported(
            create_spec(
                old(driver).store(),
                *ctx,
                AuditBuilder::new_spec(audit_meta, AuditType::ServiceCreate),
                opt_view(auth),
                req,
            ),
        ),
        r matches Ok(s) ==> s == Service::created(req, old(driver).store().next_id, ctx.now) && (
        written(final(driver).store()).subject matches Some(t) && t@ == uuid_text(s.id)),
{
    let mut audit = AuditBuilder::new(audit_meta, AuditType::ServiceCreate);
    let res = create_inner(driver, ctx, &mut audit, &auth, req);
    audit_result_subject(driver, ctx, &audit, res)
}

/// The service that a caller may read: any for a root key, itself for a
/// service; `NotFound` otherwise.
pub open spec fn read_for(store: Store, auth: Option<Seq<char>>, id: Id) -> MethodResult<Service> {
    match caller_of(store, auth) {
        Err(e) => Err(e),
        Ok(caller) => match store.service(id) {
            Some(s) => if caller matches Some(c) && c.id != id {
                Err(MethodError::NotFound(DriverError::ServiceNotFound))
            } else {
                Ok(s)
            },
            None => Err(MethodError::NotFound(DriverError::ServiceNotFound)),
        },
    }
}

fn read_inner<D: Driver>(driver: &D, audit: &mut AuditBuilder, auth: &Option<String>, id: Id) -> (r:
    MethodResult<Service>)
    requires
        driver.store().wf(),
    ensures
        r == read_for(driver.store(), opt_view(*auth), id),
        *final(audit) == auth::authenticate_audit(driver.store(), opt_view(*auth), *old(audit)),
{
    let caller = key_authenticate(driver, audit, auth)?;
    match driver.service_read(id) {
        Some(s) => {
            let other = match &caller {
                Some(c) => c.id != id,
                None => false,
            };
            if other {
                Err(MethodError::NotFound(DriverError::ServiceNotFound))
            } else {
                Ok(s)
            }
        },
        None => Err(MethodError::NotFound(DriverError::ServiceNotFound)),
    }
}

/// Reads a service for a root key, or for the service itself. The outcome
/// is recorded in the audit trail.
pub fn read<D: Driver>(
    driver: &mut D,
    ctx: &Context,
    audit_meta: AuditMeta,
    auth: Option<String>,
    id: Id,
) -> (r: MethodResult<Service>)
    requires
        old(driver).store().wf(),
    ensures
        final(driver).store().wf(),
        final(driver).store() == recorded(
            Outcome {
                failure: failure_of(read_for(old(driver).store(), opt_view(auth), id)),
                store: old(driver).store(),
                audit: auth::authenticate_audit(
                    old(driver).store(),
                    opt_view(auth),
                    AuditBuilder::new_spec(audit_meta, AuditType::ServiceRead),
                ),
            },
            ctx.now,
        ),
        failure_of(r) == reported(
            Outcome {
                failure: failure_of(read_for(old(driver).store(), opt_view(auth), id)),
                store: old(driver).store(),
                audit: auth::authenticate_audit(
                    old(driver).store(),
                    opt_view(auth),
                    AuditBuilder::new_spec(audit_meta, AuditType::ServiceRead),
                ),
            },
        ),
        r is Ok ==> r == read_for(old(driver).store(), opt_view(auth), id),
{
    let mut audit = AuditBuilder::new(audit_meta, AuditType::ServiceRead);
    let res = read_inner(driver, &mut audit, &auth, id);
    finish(driver, ctx, &audit, res)
}

} // verus!
