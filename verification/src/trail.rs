//! Reading the audit trail and writing to it on behalf of a root key or a
//! service.

use vstd::prelude::*;
use crate::audit::{
    Audit, AuditBuilder, AuditCreate2, AuditKind, AuditList, AuditListFilter, AuditListQuery,
    AuditMeta, AuditRead,
};
use crate::audit_type::AuditType;
use crate::auth;
use crate::context::Context;
use crate::driver::Driver;
use crate::error::{DriverError, MethodError, MethodResult};
use crate::key::mask_of;
use crate::method::{
    caller_of, failure_of, finish, finish_err, key_authenticate, recorded, recorded_err, reported,
    reported_err, Outcome,
};
use crate::model::{Id, Service};
use crate::store::Store;
use crate::text::opt_view;

verus! {

/// The page of the audit trail that a caller may see: all tenants for a
/// root key, its own records for a service.
pub open spec fn audit_list_for(
    store: Store,
    auth: Option<Seq<char>>,
    query: AuditListQuery,
    filter: AuditListFilter,
) -> MethodResult<Seq<Audit>> {
    match caller_of(store, auth) {
        Err(e) => Err(e),
        Ok(caller) => Ok(
            store.audit_list(
                AuditList { query: &query, filter: &filter, service_id_mask: mask_of(caller) },
            ),
        ),
    }
}

fn mask(caller: &Option<Service>) -> (r: Option<Id>)
    ensures
        r == mask_of(*caller),
{
    match caller {
        Some(s) => Some(s.id),
        None => None,
    }
}

/// Lists a page of the audit trail, as it was before this request, for a
/// root key or a service. A service sees the records of its own tenant
/// only. The outcome is recorded in the audit trail.
pub fn audit_list<D: Driver>(
    driver: &mut D,
    ctx: &Context,
    audit_meta: AuditMeta,
    auth: Option<String>,
    query: &AuditListQuery,
    filter: &AuditListFilter,
) -> (r: MethodResult<Vec<Audit>>)
    requires
        old(driver).store().wf(),
    ensures
        final(driver).store().wf(),
        final(driver).store() == recorded(
            Outcome {
                failure: failure_of(caller_of(old(driver).store(), opt_view(auth))),
                store: old(driver).store(),
                audit: auth::authenticate_audit(
                    old(driver).store(),
                    opt_view(auth),
                    AuditBuilder::new_spec(audit_meta, AuditType::AuditList),
                ),
            },
            ctx.now,
        ),
        failure_of(r) == reported(
            Outcome {
                failure: failure_of(caller_of(old(driver).store(), opt_view(auth))),
                store: old(driver).store(),
                audit: auth::authenticate_audit(
                    old(driver).store(),
                    opt_view(auth),
                    AuditBuilder::new_spec(audit_meta, AuditType::AuditList),
                ),
            },
        ),
        r matches Ok(page) ==> audit_list_for(old(driver).store(), opt_view(auth), *query, *filter)
            == Ok::<Seq<Audit>, MethodError>(page@),
{
    let mut audit = AuditBuilder::new(audit_meta, AuditType::AuditList);
    let res = match key_authenticate(driver, &mut audit, &auth) {
        Err(e) => Err(e),
        Ok(caller) => Ok(
            driver.audit_list(&AuditList { query, filter, service_id_mask: mask(&caller) }),
        ),
    };
    finish(driver, ctx, &audit, res)
}

/// The audit record that a caller may read: `NotFound` where there is none
/// with the identifier within the caller's tenant.
pub open spec fn audit_read_for(store: Store, auth: Option<Seq<char>>, id: Id) -> MethodResult<
    Audit,
> {
    match caller_of(store, auth) {
        Err(e) => Err(e),
        Ok(caller) => match store.audit_read(AuditRead { id, service_id_mask: mask_of(caller) }) {
            Some(a) => Ok(a),
            None => Err(MethodError::NotFound(DriverError::AuditNotFound)),
        },
    }
}

/// Reads one audit record for a root key or a service. The outcome is
/// recorded in the audit trail.
pub fn audit_read<D: Driver>(
    driver: &mut D,
    ctx: &Context,
    audit_meta: AuditMeta,
    auth: Option<String>,
    id: Id,
) -> (r: MethodResult<Audit>)
    requires
        old(driver).store().wf(),
    ensures
        final(driver).store().wf(),
        final(driver).store() == recorded(
            Outcome {
                failure: failure_of(audit_read_for(old(driver).store(), opt_view(auth), id)),
                store: old(driver).store(),
                audit: auth::authenticate_audit(
                    old(driver).store(),
                    opt_view(auth),
                    AuditBuilder::new_spec(audit_meta, AuditType::AuditRead),
                ),
            },
            ctx.now,
        ),
        failure_of(r) == reported(
            Outcome {
                failure: failure_of(audit_read_for(old(driver).store(), opt_view(auth), id)),
                store: old(driver).store(),
                audit: auth::authenticate_audit(
                    old(driver).store(),
                    opt_view(auth),
                    AuditBuilder::new_spec(audit_meta, AuditType::AuditRead),
                ),
            },
        ),
        r is Ok ==> r == audit_read_for(old(driver).store(), opt_view(auth), id),
{
    let mut audit = AuditBuilder::new(audit_meta, AuditType::AuditRead);
    let res = match key_authenticate(driver, &mut audit, &auth) {
        Err(e) => Err(e),
        Ok(caller) => match driver.audit_read(&AuditRead::new(id).service_id_mask(mask(&caller))) {
            Some(a) => Ok(a),
            None => Err(MethodError::NotFound(DriverError::AuditNotFound)),
        },
    };
    finish(driver, ctx, &audit, res)
}

/// What writing a record of a caller's own does before a failure is
/// recorded: the caller is authenticated, and the record is appended under
/// the name, subject and data that the caller chose, with the caller as actor.
pub open spec fn audit_create_spec(
    store: Store,
    ctx: Context,
    audit: AuditBuilder,
    auth: Option<Seq<char>>,
    req: AuditCreate2,
) -> Outcome {
    let audit = auth::authenticate_audit(store, auth, audit);
    match caller_of(store, auth) {
        Err(e) => Outcome { failure: Some(e), store, audit },
        Ok(_) => match store.audit_create(
            audit.request(AuditKind::Custom(req.type_), req.subject, req.data),
            ctx.now,
        ) {
            (Err(e), s) => Outcome { failure: Some(MethodError::BadRequest(e)), store: s, audit },
            (Ok(_), s) => Outcome { failure: None, store: s, audit },
        },
    }
}

fn audit_create_inner<D: Driver>(
    driver: &mut D,
    ctx: &Context,
    audit: &mut AuditBuilder,
    auth: &Option<String>,
    req: AuditCreate2,
) -> (r: MethodResult<Audit>)
    requires
        old(driver).store().wf(),
    ensures
        final(driver).store().wf(),
        (Outcome { failure: failure_of(r), store: final(driver).store(), audit: *final(audit) })
            == audit_create_spec(old(driver).store(), *ctx, *old(audit), opt_view(*auth), req),
        r matches Ok(a) ==> a == audit_create_spec(
            old(driver).store(),
            *ctx,
            *old(audit),
            opt_view(*auth),
            req,
        ).audit.request(AuditKind::Custom(req.type_), req.subject, req.data).record(
            old(driver).store().next_id,
            ctx.now,
        ),
{
    key_authenticate(driver, audit, auth)?;
    match audit.create(driver, ctx, req) {
        Ok(a) => Ok(a),
        Err(e) => Err(MethodError::BadRequest(e)),
    }
}

/// Appends a record of the caller's own to the audit trail, for a root key
/// or a service. A failure is recorded under the engine's own name.
pub fn audit_create<D: Driver>(
    driver: &mut D,
    ctx: &Context,
    audit_meta: AuditMeta,
    auth: Option<String>,
    req: AuditCreate2,
) -> (r: MethodResult<Audit>)
    requires
        old(driver).store().wf(),
    ensures
        final(driver).store().wf(),
        final(driver).store() == recorded_err(
            audit_create_spec(
                old(driver).store(),
                *ctx,
                AuditBuilder::new_spec(audit_meta, AuditType::AuditCreate),
                opt_view(auth),
                req,
            ),
            ctx.now,
        ),
        failure_of(r) == reported_err(
            audit_create_spec(
                old(driver).store(),
                *ctx,
                AuditBuilder::new_spec(audit_meta, AuditType::AuditCreate),
                opt_view(auth),
                req,
            ),
        ),
        r matches Ok(a) ==> a == audit_create_spec(
            old(driver).store(),
            *ctx,
            AuditBuilder::new_spec(audit_meta, AuditType::AuditCreate),
            opt_view(auth),
            req,
        ).audit.request(AuditKind::Custom(req.type_), req.subject, req.data).record(
            old(driver).store().next_id,
            ctx.now,
        ),
{
    let mut audit = AuditBuilder::new(audit_meta, AuditType::AuditCreate);
    let res = audit_create_inner(driver, ctx, &mut audit, &auth, req);
    finish_err(driver, ctx, &audit, res)
}

/// The audit trail only grows where a record is appended: the records that
/// were there stay as they were, in their order, and the new record comes
/// last, under an identifier greater than all before it.
pub proof fn lemma_audit_create_appends(store: Store, create: crate::audit::AuditCreate, now: i64)
    requires
        store.wf(),
        store.audit_create(create, now).0 is Ok,
    ensures
        store.audit_create(create, now).1.audit.drop_last() == store.audit,
        store.audit_create(create, now).1.audit.last() == store.audit_create(create, now).0->Ok_0,
        forall|i: int|
            0 <= i < store.audit.len() ==> (#[trigger] store.audit[i]).id < store.audit_create(
                create,
                now,
            ).0->Ok_0.id,
        store.audit_create(create, now).1.services == store.services,
        store.audit_create(create, now).1.keys == store.keys,
        store.audit_create(create, now).1.users == store.users,
        store.audit_create(create, now).1.csrf == store.csrf,
{
    assert(store.audit_create(create, now).1.audit.drop_last() =~= store.audit);
}

} // verus!
