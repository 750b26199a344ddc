//! The administration of keys: listing, creating, reading, changing and
//! deleting them on behalf of a root key or a service.

use vstd::prelude::*;
use vstd::string::StringExecFns;
use crate::audit::{
    audit_result_diff, audit_result_subject, compared, flag_text, typed_json, written,
    AuditBuilder, AuditData, AuditDiff, AuditDiffBuilder, AuditMeta, AuditSubject, DiffRow,
};
use crate::audit_type::AuditType;
use crate::auth;
use crate::context::Context;
use crate::driver::Driver;
use crate::error::{DriverError, MethodError, MethodResult};
use crate::jwt::{uuid_text, uuid_to_string};
use crate::listing::{mask_admits, Page};
use crate::method::{
    caller_of, failure_of, finish, key_authenticate, recorded, recorded_with,
    rejected, reported, Outcome,
};
use crate::model::{
    Id, Key, KeyCreate, KeyList, KeyListFilter, KeyListQuery, KeyType, KeyUpdate, KeyWithValue,
    Service, DEFAULT_LIMIT,
};
use crate::store::{key_has_id, Store};
use crate::text::{lemma_first_match, opt_view};

verus! {

impl AuditSubject for Key {
    open spec fn subject_spec(&self) -> Seq<char> {
        uuid_text(self.id)
    }

    fn subject(&self) -> (r: String) {
        uuid_to_string(self.id)
    }
}

impl AuditSubject for KeyWithValue {
    open spec fn subject_spec(&self) -> Seq<char> {
        uuid_text(self.id)
    }

    fn subject(&self) -> (r: String) {
        uuid_to_string(self.id)
    }
}

/// The rows that tell what changed from `previous` to `current`.
pub open spec fn key_diff_rows(current: Key, previous: Key) -> Seq<DiffRow> {
    let rows = Seq::<DiffRow>::empty();
    let rows = compared(
        rows,
        "is_enabled"@,
        flag_text(current.is_enabled),
        flag_text(previous.is_enabled),
    );
    let rows = compared(
        rows,
        "is_revoked"@,
        flag_text(current.is_revoked),
        flag_text(previous.is_revoked),
    );
    compared(rows, "name"@, current.name@, previous.name@)
}

impl AuditDiff for Key {
    open spec fn diff_spec(&self, previous: &Self) -> Seq<char> {
        typed_json("diff"@, key_diff_rows(*self, *previous))
    }

    fn diff(&self, previous: &Self) -> (r: AuditData) {
        AuditDiffBuilder::default().compare_flag(
            "is_enabled",
            self.is_enabled,
            previous.is_enabled,
        ).compare_flag("is_revoked", self.is_revoked, previous.is_revoked).compare(
            "name",
            self.name.as_str(),
            previous.name.as_str(),
        ).into_value()
    }
}

/// A request for a page of keys.
#[derive(Debug)]
pub struct KeyListRequest {
    pub gt: Option<Id>,
    pub lt: Option<Id>,
    pub limit: Option<i64>,
    pub id: Option<Vec<Id>>,
    pub is_enabled: Option<bool>,
    pub is_revoked: Option<bool>,
    pub type_: Option<Vec<KeyType>>,
    pub service_id: Option<Vec<Id>>,
    pub user_id: Option<Vec<Id>>,
}

impl KeyListRequest {
    /// The page that the request asks for: after `gt` where it is given,
    /// else before `lt` where that is given, else from the start; of the
    /// default length where no limit is given.
    pub open spec fn query(self) -> KeyListQuery {
        let limit = match self.limit {
            Some(n) => n,
            None => DEFAULT_LIMIT,
        };
        match (self.gt, self.lt) {
            (Some(gt), _) => Page::IdGt(gt, limit),
            (None, Some(lt)) => Page::IdLt(lt, limit),
            (None, None) => Page::Limit(limit),
        }
    }

    /// The filter that the request asks for.
    pub open spec fn filter(self) -> KeyListFilter {
        KeyListFilter {
            id: self.id,
            is_enabled: self.is_enabled,
            is_revoked: self.is_revoked,
            type_: self.type_,
            service_id: self.service_id,
            user_id: self.user_id,
        }
    }

    /// Splits the request into the page and the filter that it asks for.
    pub fn into_query_filter(self) -> (r: (KeyListQuery, KeyListFilter))
        ensures
            r == (self.query(), self.filter()),
    {
        let limit = match self.limit {
            Some(n) => n,
            None => DEFAULT_LIMIT,
        };
        let query = match (self.gt, self.lt) {
            (Some(gt), Some(_lt)) => Page::IdGt(gt, limit),
            (Some(gt), None) => Page::IdGt(gt, limit),
            (None, Some(lt)) => Page::IdLt(lt, limit),
            (None, None) => Page::Limit(limit),
        };
        let filter = KeyListFilter {
            id: self.id,
            is_enabled: self.is_enabled,
            is_revoked: self.is_revoked,
            type_: self.type_,
            service_id: self.service_id,
            user_id: self.user_id,
        };
        (query, filter)
    }

    /// The request that asks for a page and a filter.
    pub open spec fn of(query: KeyListQuery, filter: KeyListFilter) -> KeyListRequest {
        KeyListRequest {
            gt: match query {
                Page::IdGt(gt, _) => Some(gt),
                _ => None,
            },
            lt: match query {
                Page::IdLt(lt, _) => Some(lt),
                _ => None,
            },
            limit: Some(query.limit() as i64),
            id: filter.id,
            is_enabled: filter.is_enabled,
            is_revoked: filter.is_revoked,
            type_: filter.type_,
            service_id: filter.service_id,
            user_id: filter.user_id,
        }
    }

    /// Puts a page and a filter together into the request that asks for them.
    pub fn from_query_filter(query: KeyListQuery, filter: KeyListFilter) -> (r: Self)
        ensures
            r == KeyListRequest::of(query, filter),
    {
        match query {
            Page::Limit(limit) => KeyListRequest {
                gt: None,
                lt: None,
                limit: Some(limit),
                id: filter.id,
                is_enabled: filter.is_enabled,
                is_revoked: filter.is_revoked,
                type_: filter.type_,
                service_id: filter.service_id,
                user_id: filter.user_id,
            },
            Page::IdGt(gt, limit) => KeyListRequest {
                gt: Some(gt),
                lt: None,
                limit: Some(limit),
                id: filter.id,
                is_enabled: filter.is_enabled,
                is_revoked: filter.is_revoked,
                type_: filter.type_,
                service_id: filter.service_id,
                user_id: filter.user_id,
            },
            Page::IdLt(lt, limit) => KeyListRequest {
                gt: None,
                lt: Some(lt),
                limit: Some(limit),
                id: filter.id,
                is_enabled: filter.is_enabled,
                is_revoked: filter.is_revoked,
                type_: filter.type_,
                service_id: filter.service_id,
                user_id: filter.user_id,
            },
        }
    }
}

/// A request put together from a page and a filter asks for that page and
/// that filter.
pub proof fn lemma_query_filter_round_trip(query: KeyListQuery, filter: KeyListFilter)
    ensures
        KeyListRequest::of(query, filter).query() == query,
        KeyListRequest::of(query, filter).filter() == filter,
{
}

/// A page of keys and the request that asked for it.
#[derive(Debug)]
pub struct KeyListResponse {
    pub meta: KeyListRequest,
    pub data: Vec<Key>,
}

/// A request to create a key.
#[derive(Debug)]
pub struct KeyCreateRequest {
    pub is_enabled: bool,
    pub type_: KeyType,
    pub name: String,
    pub service_id: Option<Id>,
    pub user_id: Option<Id>,
}

impl KeyCreateRequest {
    /// A request that names neither a service nor a user.
    pub fn new(is_enabled: bool, type_: KeyType, name: &str) -> (r: Self)
        ensures
            r.name@ == name@,
            r.is_enabled == is_enabled,
            r.type_ == type_,
            r.service_id is None,
            r.user_id is None,
    {
        KeyCreateRequest {
            is_enabled,
            type_,
            name: String::from_str(name),
            service_id: None,
            user_id: None,
        }
    }

    /// A request for a key of a service.
    pub fn with_service_id(is_enabled: bool, type_: KeyType, name: &str, service_id: Id) -> (r:
        Self)
        ensures
            r.name@ == name@,
            r.is_enabled == is_enabled,
            r.type_ == type_,
            r.service_id == Some(service_id),
            r.user_id is None,
    {
        KeyCreateRequest {
            is_enabled,
            type_,
            name: String::from_str(name),
            service_id: Some(service_id),
            user_id: None,
        }
    }

    /// A request for a key of a user, within the service that asks.
    pub fn with_user_id(is_enabled: bool, type_: KeyType, name: &str, user_id: Id) -> (r: Self)
        ensures
            r.name@ == name@,
            r.is_enabled == is_enabled,
            r.type_ == type_,
            r.service_id is None,
            r.user_id == Some(user_id),
    {
        KeyCreateRequest {
            is_enabled,
            type_,
            name: String::from_str(name),
            service_id: None,
            user_id: Some(user_id),
        }
    }
}

/// A key that was created, with its value.
#[derive(Debug)]
pub struct KeyCreateResponse {
    pub data: KeyWithValue,
}

/// A key that was read or changed.
#[derive(Debug)]
pub struct KeyReadResponse {
    pub data: Key,
}

/// A request to change a key.
#[derive(Debug)]
pub struct KeyUpdateRequest {
    pub is_enabled: Option<bool>,
    pub name: Option<String>,
}

/// The tenant that a caller may see: its own for a service, all for a root key.
pub open spec fn mask_of(caller: Option<Service>) -> Option<Id> {
    match caller {
        Some(s) => Some(s.id),
        None => None,
    }
}

/// What listing keys yields for a caller.
pub open spec fn list_spec(
    store: Store,
    auth: Option<Seq<char>>,
    query: KeyListQuery,
    filter: KeyListFilter,
) -> MethodResult<Seq<Key>> {
    match caller_of(store, auth) {
        Err(e) => Err(e),
        Ok(caller) => Ok(
            store.key_list(KeyList { query: &query, filter: &filter, service_id_mask: mask_of(caller) }),
        ),
    }
}

/// Same outcome, a list compared by its items.
pub open spec fn same_list<T>(r: MethodResult<Vec<T>>, s: MethodResult<Seq<T>>) -> bool {
    match (r, s) {
        (Ok(a), Ok(b)) => a@ == b,
        (Err(a), Err(b)) => a == b,
        _ => false,
    }
}

/// Lists the keys that the caller may see: all of them for a root key, its
/// own for a service.
pub fn list<D: Driver>(
    driver: &D,
    audit: &mut AuditBuilder,
    key_value: &Option<String>,
    query: &KeyListQuery,
    filter: &KeyListFilter,
) -> (r: MethodResult<Vec<Key>>)
    requires
        driver.store().wf(),
    ensures
        same_list(r, list_spec(driver.store(), opt_view(*key_value), *query, *filter)),
        *final(audit) == auth::authenticate_audit(driver.store(), opt_view(*key_value), *old(audit)),
{
    let service = key_authenticate(driver, audit, key_value)?;
    let list = KeyList {
        query,
        filter,
        service_id_mask: match &service {
            Some(s) => Some(s.id),
            None => None,
        },
    };
    Ok(driver.key_list(&list))
}

/// The key that a request asks for, given who asks and the value drawn for it.
pub open spec fn create_key(req: KeyCreateRequest, value: String, service_id: Id) -> KeyCreate {
    match req.user_id {
        Some(user_id) => KeyCreate {
            is_enabled: req.is_enabled,
            is_revoked: false,
            type_: req.type_,
            name: req.name,
            value,
            service_id: Some(service_id),
            user_id: Some(user_id),
        },
        None => KeyCreate {
            is_enabled: req.is_enabled,
            is_revoked: false,
            type_: KeyType::Key,
            name: req.name,
            value,
            service_id: Some(service_id),
            user_id: None,
        },
    }
}

/// What creating a key does before its outcome is recorded. A request that
/// names a service needs a root key, and creates a key of that service, or
/// of a user within it. A request that names none needs a service key, and
/// creates a key of a user within that service: a service cannot create
/// service keys.
pub open spec fn create_spec(
    store: Store,
    ctx: Context,
    audit: AuditBuilder,
    auth: Option<Seq<char>>,
    req: KeyCreateRequest,
) -> Outcome {
    let audit = auth::authenticate_audit(store, auth, audit);
    match req.service_id {
        Some(service_id) => match auth::authenticate_root_spec(store, auth) {
            Err(e) => Outcome { failure: Some(MethodError::Unauthorised(e)), store, audit },
            Ok(()) => match store.key_create(create_key(req, ctx.key_value, service_id), ctx.now) {
                (Err(e), s) => Outcome { failure: Some(MethodError::rejected(e)), store: s, audit },
                (Ok(_), s) => Outcome { failure: None, store: s, audit },
            },
        },
        None => match auth::authenticate_service_spec(store, auth) {
            Err(e) => Outcome { failure: Some(MethodError::Unauthorised(e)), store, audit },
            Ok(service) => match req.user_id {
                None => Outcome {
                    failure: Some(
                        MethodError::BadRequest(DriverError::ServiceCannotCreateServiceKey),
                    ),
                    store,
                    audit,
                },
                Some(_) => match store.key_create(
                    create_key(req, ctx.key_value, service.id),
                    ctx.now,
                ) {
                    (Err(e), s) => Outcome {
                        failure: Some(MethodError::rejected(e)),
                        store: s,
                        audit,
                    },
                    (Ok(_), s) => Outcome { failure: None, store: s, audit },
                },
            },
        },
    }
}

/// The service that a key is created for.
pub open spec fn create_service_id(store: Store, auth: Option<Seq<char>>, req: KeyCreateRequest)
    -> Id {
    match req.service_id {
        Some(service_id) => service_id,
        None => auth::authenticate_service_spec(store, auth)->Ok_0.id,
    }
}

fn create_for<D: Driver>(
    driver: &mut D,
    ctx: &Context,
    req: KeyCreateRequest,
    service_id: Id,
) -> (r: MethodResult<KeyWithValue>)
    requires
        old(driver).store().wf(),
    ensures
        final(driver).store().wf(),
        (
            match r {
                Ok(k) => Ok(k),
                Err(_) => Err(DriverError::KeyValueConflict),
            },
            final(driver).store(),
        ) == (
            match old(driver).store().key_create(
                create_key(req, ctx.key_value, service_id),
                ctx.now,
            ).0 {
                Ok(k) => Ok(k),
                Err(_) => Err(DriverError::KeyValueConflict),
            },
            old(driver).store().key_create(create_key(req, ctx.key_value, service_id), ctx.now).1,
        ),
        r matches Err(e) ==> old(driver).store().key_create(
            create_key(req, ctx.key_value, service_id),
            ctx.now,
        ).0 matches Err(d) && e == MethodError::rejected(d),
{
    let create = match req.user_id {
        Some(user_id) => KeyCreate::user(
            req.is_enabled,
            req.type_,
            req.name,
            ctx.key_value.clone(),
            service_id,
            user_id,
        ),
        None => KeyCreate::service(req.is_enabled, req.name, ctx.key_value.clone(), service_id),
    };
    rejected(driver.key_create(create, ctx.now))
}

/// Creates a key, with the value that the context drew for it, as
/// [`create_spec`] describes.
pub fn create<D: Driver>(
    driver: &mut D,
    ctx: &Context,
    audit: &mut AuditBuilder,
    key_value: &Option<String>,
    request: KeyCreateRequest,
) -> (r: MethodResult<KeyWithValue>)
    requires
        old(driver).store().wf(),
    ensures
        final(driver).store().wf(),
        (Outcome { failure: failure_of(r), store: final(driver).store(), audit: *final(audit) })
            == create_spec(old(driver).store(), *ctx, *old(audit), opt_view(*key_value), request),
        r matches Ok(k) ==> k == KeyWithValue::created(
            create_key(
                request,
                ctx.key_value,
                create_service_id(old(driver).store(), opt_view(*key_value), request),
            ),
            old(driver).store().next_id,
            ctx.now,
        ),
{
    match request.service_id {
        Some(service_id) => {
            match auth::authenticate_root(driver, audit, key_value) {
                Err(e) => Err(MethodError::Unauthorised(e)),
                Ok(()) => create_for(driver, ctx, request, service_id),
            }
        },
        None => {
            match auth::authenticate_service(driver, audit, key_value) {
                Err(e) => Err(MethodError::Unauthorised(e)),
                Ok(service) => {
                    if request.user_id.is_none() {
                        Err(MethodError::BadRequest(DriverError::ServiceCannotCreateServiceKey))
                    } else {
                        create_for(driver, ctx, request, service.id)
                    }
                },
            }
        },
    }
}

/// The key with an identifier as a caller may see it: `NotFound` where
/// there is none, or where it belongs to another tenant than the caller's.
pub open spec fn read_spec(store: Store, caller: Option<Service>, key_id: Id) -> MethodResult<
    KeyWithValue,
> {
    match store.key_by_id(key_id) {
        Some(k) => if mask_admits(mask_of(caller), k.service_id) {
            Ok(k)
        } else {
            Err(MethodError::NotFound(DriverError::KeyNotFound))
        },
        None => Err(MethodError::NotFound(DriverError::KeyNotFound)),
    }
}

fn read_inner<D: Driver>(driver: &D, caller: &Option<Service>, key_id: Id) -> (r: MethodResult<
    KeyWithValue,
>)
    requires
        driver.store().wf(),
    ensures
        r == read_spec(driver.store(), *caller, key_id),
{
    match driver.key_read_id(key_id) {
        Some(k) => {
            let mask = match caller {
                Some(s) => Some(s.id),
                None => None,
            };
            if crate::listing::is_mask_admitted(mask, k.service_id) {
                Ok(k)
            } else {
                Err(MethodError::NotFound(DriverError::KeyNotFound))
            }
        },
        None => Err(MethodError::NotFound(DriverError::KeyNotFound)),
    }
}

/// What reading a key yields for a caller.
pub open spec fn read_for(store: Store, auth: Option<Seq<char>>, key_id: Id) -> MethodResult<
    KeyWithValue,
> {
    match caller_of(store, auth) {
        Err(e) => Err(e),
        Ok(caller) => read_spec(store, caller, key_id),
    }
}

/// The key without its value, where there is one.
pub open spec fn public_of(r: MethodResult<KeyWithValue>) -> MethodResult<Key> {
    match r {
        Ok(k) => Ok(k.public()),
        Err(e) => Err(e),
    }
}

/// Reads a key, without its value, for a root key or a service.
pub fn read<D: Driver>(
    driver: &D,
    audit: &mut AuditBuilder,
    key_value: &Option<String>,
    key_id: Id,
) -> (r: MethodResult<Key>)
    requires
        driver.store().wf(),
    ensures
        r == public_of(read_for(driver.store(), opt_view(*key_value), key_id)),
        *final(audit) == auth::authenticate_audit(driver.store(), opt_view(*key_value), *old(audit)),
{
    let caller = key_authenticate(driver, audit, key_value)?;
    match read_inner(driver, &caller, key_id) {
        Ok(k) => Ok(k.into_key()),
        Err(e) => Err(e),
    }
}

/// The change that a request asks for. A request cannot revoke a key, nor
/// bring a revoked key back.
pub open spec fn update_key(req: KeyUpdateRequest) -> KeyUpdate {
    KeyUpdate { is_enabled: req.is_enabled, is_revoked: None, name: req.name }
}

/// What changing a key does before its outcome is recorded.
pub open spec fn update_spec(
    store: Store,
    ctx: Context,
    audit: AuditBuilder,
    auth: Option<Seq<char>>,
    key_id: Id,
    req: KeyUpdateRequest,
) -> Outcome {
    let audit = auth::authenticate_audit(store, auth, audit);
    match read_for(store, auth, key_id) {
        Err(e) => Outcome { failure: Some(e), store, audit },
        Ok(_) => match store.key_update(key_id, update_key(req), ctx.now) {
            (Err(e), s) => Outcome { failure: Some(MethodError::rejected(e)), store: s, audit },
            (Ok(_), s) => Outcome { failure: None, store: s, audit },
        },
    }
}

/// Changes a key for a root key or a service, and returns the key as it
/// was and as it is.
pub fn update<D: Driver>(
    driver: &mut D,
    ctx: &Context,
    audit: &mut AuditBuilder,
    key_value: &Option<String>,
    key_id: Id,
    request: KeyUpdateRequest,
) -> (r: MethodResult<(Key, Key)>)
    requires
        old(driver).store().wf(),
    ensures
        final(driver).store().wf(),
        (Outcome { failure: failure_of(r), store: final(driver).store(), audit: *final(audit) })
            == update_spec(
            old(driver).store(),
            *ctx,
            *old(audit),
            opt_view(*key_value),
            key_id,
            request,
        ),
        r matches Ok((previous, current)) ==> (old(driver).store().key_by_id(key_id) matches Some(
            k,
        ) && previous == k.public() && current == k.updated(update_key(request), ctx.now).public()),
{
    let caller = key_authenticate(driver, audit, key_value)?;
    let previous = read_inner(driver, &caller, key_id)?;
    proof {
        lemma_first_match(driver.store().keys, key_has_id(key_id));
    }
    let update = KeyUpdate { is_enabled: request.is_enabled, is_revoked: None, name: request.name };
    let current = rejected(driver.key_update(key_id, update, ctx.now))?;
    Ok((previous.into_key(), current.into_key()))
}

/// What deleting a key does before its outcome is recorded.
pub open spec fn delete_spec(store: Store, audit: AuditBuilder, auth: Option<Seq<char>>, key_id: Id)
    -> Outcome {
    let audit = auth::authenticate_audit(store, auth, audit);
    match read_for(store, auth, key_id) {
        Err(e) => Outcome { failure: Some(e), store, audit },
        Ok(_) => match store.key_delete(key_id) {
            (Err(e), s) => Outcome { failure: Some(MethodError::rejected(e)), store: s, audit },
            (Ok(_), s) => Outcome { failure: None, store: s, audit },
        },
    }
}

/// Deletes a key for a root key or a service, and returns the key as it was.
pub fn delete<D: Driver>(
    driver: &mut D,
    audit: &mut AuditBuilder,
    key_value: &Option<String>,
    key_id: Id,
) -> (r: MethodResult<Key>)
    requires
        old(driver).store().wf(),
    ensures
        final(driver).store().wf(),
        (Outcome { failure: failure_of(r), store: final(driver).store(), audit: *final(audit) })
            == delete_spec(old(driver).store(), *old(audit), opt_view(*key_value), key_id),
        r is Ok ==> r == public_of(read_for(old(driver).store(), opt_view(*key_value), key_id)),
{
    let caller = key_authenticate(driver, audit, key_value)?;
    let key = read_inner(driver, &caller, key_id)?;
    match driver.key_delete(key_id) {
        Ok(_) => Ok(key.into_key()),
        Err(e) => Err(MethodError::reject(e)),
    }
}

/// Lists keys. The outcome is recorded in the audit trail.
pub fn key_list<D: Driver>(
    driver: &mut D,
    ctx: &Context,
    audit_meta: AuditMeta,
    key_value: Option<String>,
    request: KeyListRequest,
) -> (r: MethodResult<KeyListResponse>)
    requires
        old(driver).store().wf(),
    ensures
        final(driver).store().wf(),
        final(driver).store() == recorded(
            Outcome {
                failure: failure_of(caller_of(old(driver).store(), opt_view(key_value))),
                store: old(driver).store(),
                audit: auth::authenticate_audit(
                    old(driver).store(),
                    opt_view(key_value),
                    AuditBuilder::new_spec(audit_meta, AuditType::KeyList),
                ),
            },
            ctx.now,
        ),
        failure_of(r) == reported(
            Outcome {
                failure: failure_of(caller_of(old(driver).store(), opt_view(key_value))),
                store: old(driver).store(),
                audit: auth::authenticate_audit(
                    old(driver).store(),
                    opt_view(key_value),
                    AuditBuilder::new_spec(audit_meta, AuditType::KeyList),
                ),
            },
        ),
        r matches Ok(page) ==> page.meta == KeyListRequest::of(request.query(), request.filter())
            && list_spec(
            old(driver).store(),
            opt_view(key_value),
            request.query(),
            request.filter(),
        ) == Ok::<Seq<Key>, MethodError>(page.data@),
{
    let mut audit = AuditBuilder::new(audit_meta, AuditType::KeyList);
    let (query, filter) = request.into_query_filter();
    let res = list(driver, &mut audit, &key_value, &query, &filter);
    match finish(driver, ctx, &audit, res) {
        Ok(data) => Ok(KeyListResponse { meta: KeyListRequest::from_query_filter(query, filter), data }),
        Err(e) => Err(e),
    }
}

/// Creates a key. The outcome is recorded in the audit trail, on success
/// under the new key's identifier as subject.
pub fn key_create<D: Driver>(
    driver: &mut D,
    ctx: &Context,
    audit_meta: AuditMeta,
    key_value: Option<String>,
    request: KeyCreateRequest,
) -> (r: MethodResult<KeyCreateResponse>)
    requires
        old(driver).store().wf(),
    ensures
        final(driver).store().wf(),
        final(driver).store() == recorded_with(
            create_spec(
                old(driver).store(),
                *ctx,
                AuditBuilder::new_spec(audit_meta, AuditType::KeyCreate),
                opt_view(key_value),
                request,
            ),
            written(final(driver).store()).subject,
            AuditData::Empty,
            ctx.now,
        ),
        failure_of(r) == reported(
            create_spec(
                old(driver).store(),
                *ctx,
                AuditBuilder::new_spec(audit_meta, AuditType::KeyCreate),
                opt_view(key_value),
                request,
            ),
        ),
        r matches Ok(made) ==> made.data == KeyWithValue::created(
            create_key(
                request,
                ctx.key_value,
                create_service_id(old(driver).store(), opt_view(key_value), request),
            ),
            old(driver).store().next_id,
            ctx.now,
        ) && (written(final(driver).store()).subject matches Some(s) && s@ == uuid_text(
            made.data.id,
        )),
{
    let mut audit = AuditBuilder::new(audit_meta, AuditType::KeyCreate);
    let res = create(driver, ctx, &mut audit, &key_value, request);
    match audit_result_subject(driver, ctx, &audit, res) {
        Ok(key) => Ok(KeyCreateResponse { data: key }),
        Err(e) => Err(e),
    }
}

/// Reads a key. The outcome is recorded in the audit trail.
pub fn key_read<D: Driver>(
    driver: &mut D,
    ctx: &Context,
    audit_meta: AuditMeta,
    key_value: Option<String>,
    key_id: Id,
) -> (r: MethodResult<KeyReadResponse>)
    requires
        old(driver).store().wf(),
    ensures
        final(driver).store().wf(),
        final(driver).store() == recorded(
            Outcome {
                failure: failure_of(read_for(old(driver).store(), opt_view(key_value), key_id)),
                store: old(driver).store(),
                audit: auth::authenticate_audit(
                    old(driver).store(),
                    opt_view(key_value),
                    AuditBuilder::new_spec(audit_meta, AuditType::KeyRead),
                ),
            },
            ctx.now,
        ),
        failure_of(r) == reported(
            Outcome {
                failure: failure_of(read_for(old(driver).store(), opt_view(key_value), key_id)),
                store: old(driver).store(),
                audit: auth::authenticate_audit(
                    old(driver).store(),
                    opt_view(key_value),
                    AuditBuilder::new_spec(audit_meta, AuditType::KeyRead),
                ),
            },
        ),
        r matches Ok(found) ==> Ok::<Key, MethodError>(found.data) == public_of(
            read_for(old(driver).store(), opt_view(key_value), key_id),
        ),
{
    let mut audit = AuditBuilder::new(audit_meta, AuditType::KeyRead);
    let res = read(driver, &mut audit, &key_value, key_id);
    match finish(driver, ctx, &audit, res) {
        Ok(data) => Ok(KeyReadResponse { data }),
        Err(e) => Err(e),
    }
}

/// Changes a key. The outcome is recorded in the audit trail, on success
/// with what changed.
pub fn key_update<D: Driver>(
    driver: &mut D,
    ctx: &Context,
    audit_meta: AuditMeta,
    key_value: Option<String>,
    key_id: Id,
    request: KeyUpdateRequest,
) -> (r: MethodResult<KeyReadResponse>)
    requires
        old(driver).store().wf(),
    ensures
        final(driver).store().wf(),
        final(driver).store() == recorded_with(
            update_spec(
                old(driver).store(),
                *ctx,
                AuditBuilder::new_spec(audit_meta, AuditType::KeyUpdate),
                opt_view(key_value),
                key_id,
                request,
            ),
            written(final(driver).store()).subject,
            written(final(driver).store()).data,
            ctx.now,
        ),
        failure_of(r) == reported(
            update_spec(
                old(driver).store(),
                *ctx,
                AuditBuilder::new_spec(audit_meta, AuditType::KeyUpdate),
                opt_view(key_value),
                key_id,
                request,
            ),
        ),
        r matches Ok(changed) ==> (old(driver).store().key_by_id(key_id) matches Some(k)
            && changed.data == k.updated(update_key(request), ctx.now).public() && (written(
            final(driver).store(),
        ).data matches AuditData::Json(j) && j@ == changed.data.diff_spec(&k.public()))),
{
    let mut audit = AuditBuilder::new(audit_meta, AuditType::KeyUpdate);
    let res = update(driver, ctx, &mut audit, &key_value, key_id, request);
    match audit_result_diff(driver, ctx, &audit, res) {
        Ok(key) => Ok(KeyReadResponse { data: key }),
        Err(e) => Err(e),
    }
}

/// Deletes a key. The outcome is recorded in the audit trail, on success
/// under the key's identifier as subject.
pub fn key_delete<D: Driver>(
    driver: &mut D,
    ctx: &Context,
    audit_meta: AuditMeta,
    key_value: Option<String>,
    key_id: Id,
) -> (r: MethodResult<()>)
    requires
        old(driver).store().wf(),
    ensures
        final(driver).store().wf(),
        final(driver).store() == recorded_with(
            delete_spec(
                old(driver).store(),
                AuditBuilder::new_spec(audit_meta, AuditType::KeyDelete),
                opt_view(key_value),
                key_id,
            ),
            written(final(driver).store()).subject,
            AuditData::Empty,
            ctx.now,
        ),
        failure_of(r) == reported(
            delete_spec(
                old(driver).store(),
                AuditBuilder::new_spec(audit_meta, AuditType::KeyDelete),
                opt_view(key_value),
                key_id,
            ),
        ),
{
    let mut audit = AuditBuilder::new(audit_meta, AuditType::KeyDelete);
    let res = delete(driver, &mut audit, &key_value, key_id);
    match audit_result_subject(driver, ctx, &audit, res) {
        Ok(_) => Ok(()),
        Err(e) => Err(e),
    }
}

} // verus!
