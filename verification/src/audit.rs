//! The records of the audit trail and the requests that read and write them.

use vstd::prelude::*;
use vstd::string::StringExecFns;
use crate::audit_type::AuditType;
use crate::context::Context;
use crate::driver::Driver;
use crate::error::{DriverError, DriverResult, MethodError, MethodResult};
use crate::listing::{keeps_id, keeps_opt_id, keeps_text, mask_admits, Page};
use crate::model::{Id, KeyWithValue, Service, User};
use crate::store::Store;
use crate::text::{clone_opt, str_eq};

verus! {

/// Longest accepted name of an operation.
pub const AUDIT_TYPE_MAX_LEN: usize = 200;

/// Longest accepted subject.
pub const AUDIT_SUBJECT_MAX_LEN: usize = 200;

/// What an audit record says beyond who did what.
#[derive(Debug)]
pub enum AuditData {
    /// Nothing more.
    Empty,
    /// The operation failed, and why.
    Failure(MethodError),
    /// A JSON document: the changes an update made, or what the caller supplied.
    Json(String),
}

impl Clone for AuditData {
    fn clone(&self) -> (r: Self)
        ensures
            r == *self,
    {
        match self {
            AuditData::Empty => AuditData::Empty,
            AuditData::Failure(e) => AuditData::Failure(*e),
            AuditData::Json(s) => AuditData::Json(s.clone()),
        }
    }
}

/// The name of the operation that a record is about: one of the engine's
/// own, or one that a caller chose.
#[derive(Debug)]
pub enum AuditKind {
    Known(AuditType),
    Custom(String),
}

impl Clone for AuditKind {
    fn clone(&self) -> (r: Self)
        ensures
            r == *self,
    {
        match self {
            AuditKind::Known(t) => AuditKind::Known(*t),
            AuditKind::Custom(s) => AuditKind::Custom(s.clone()),
        }
    }
}

impl AuditKind {
    /// The name as it is written out.
    pub open spec fn name(self) -> Seq<char> {
        match self {
            AuditKind::Known(t) => t.name(),
            AuditKind::Custom(s) => s@,
        }
    }

    /// The name as it is written out.
    pub fn to_string(&self) -> (r: String)
        ensures
            r@ == self.name(),
    {
        match self {
            AuditKind::Known(t) => t.to_string(),
            AuditKind::Custom(s) => s.clone(),
        }
    }
}

/// Where a request came from.
#[derive(Debug)]
pub struct AuditMeta {
    user_agent: String,
    remote: String,
    forwarded: Option<String>,
}

impl Clone for AuditMeta {
    fn clone(&self) -> (r: Self)
        ensures
            r == *self,
    {
        AuditMeta {
            user_agent: self.user_agent.clone(),
            remote: self.remote.clone(),
            forwarded: clone_opt(&self.forwarded),
        }
    }
}

impl AuditMeta {
    /// The user agent of the request.
    pub closed spec fn spec_user_agent(self) -> String {
        self.user_agent
    }

    /// The remote address of the request.
    pub closed spec fn spec_remote(self) -> String {
        self.remote
    }

    /// The address the request was forwarded for, if any.
    pub closed spec fn spec_forwarded(self) -> Option<String> {
        self.forwarded
    }

    /// Metadata from its three parts.
    pub fn new(user_agent: &str, remote: &str, forwarded: Option<String>) -> (r: Self)
        ensures
            r.spec_user_agent()@ == user_agent@,
            r.spec_remote()@ == remote@,
            r.spec_forwarded() == forwarded,
    {
        AuditMeta {
            user_agent: String::from_str(user_agent),
            remote: String::from_str(remote),
            forwarded,
        }
    }

    /// The user agent of the request.
    pub fn user_agent(&self) -> (r: &str)
        ensures
            r@ == self.spec_user_agent()@,
    {
        self.user_agent.as_str()
    }

    /// The remote address of the request.
    pub fn remote(&self) -> (r: &str)
        ensures
            r@ == self.spec_remote()@,
    {
        self.remote.as_str()
    }

    /// The address the request was forwarded for, if any.
    pub fn forwarded(&self) -> (r: Option<&str>)
        ensures
            r is Some == self.spec_forwarded() is Some,
            r matches Some(s) ==> s@ == self.spec_forwarded()->0@,
    {
        match &self.forwarded {
            Some(x) => Some(x.as_str()),
            None => None,
        }
    }
}

/// One entry of the audit trail.
#[derive(Debug)]
pub struct Audit {
    pub created_at: i64,
    pub updated_at: i64,
    pub id: Id,
    pub user_agent: String,
    pub remote: String,
    pub forwarded: Option<String>,
    pub type_: AuditKind,
    pub subject: Option<String>,
    pub data: AuditData,
    pub key_id: Option<Id>,
    pub service_id: Option<Id>,
    pub user_id: Option<Id>,
    pub user_key_id: Option<Id>,
}

impl Clone for Audit {
    fn clone(&self) -> (r: Self)
        ensures
            r == *self,
    {
        Audit {
            created_at: self.created_at,
            updated_at: self.updated_at,
            id: self.id,
            user_agent: self.user_agent.clone(),
            remote: self.remote.clone(),
            forwarded: clone_opt(&self.forwarded),
            type_: self.type_.clone(),
            subject: clone_opt(&self.subject),
            data: self.data.clone(),
            key_id: self.key_id,
            service_id: self.service_id,
            user_id: self.user_id,
            user_key_id: self.user_key_id,
        }
    }
}

/// What is needed to append an audit record.
#[derive(Debug)]
pub struct AuditCreate {
    pub meta: AuditMeta,
    pub type_: AuditKind,
    pub subject: Option<String>,
    pub data: AuditData,
    pub key_id: Option<Id>,
    pub service_id: Option<Id>,
    pub user_id: Option<Id>,
    pub user_key_id: Option<Id>,
}

impl AuditCreate {
    /// A record without an actor.
    pub fn new(meta: AuditMeta, type_: AuditKind, subject: Option<String>, data: AuditData) -> (r:
        Self)
        ensures
            r == (AuditCreate {
                meta,
                type_,
                subject,
                data,
                key_id: None,
                service_id: None,
                user_id: None,
                user_key_id: None,
            }),
    {
        AuditCreate {
            meta,
            type_,
            subject,
            data,
            key_id: None,
            service_id: None,
            user_id: None,
            user_key_id: None,
        }
    }

    /// Sets the key that authenticated the request.
    pub fn key_id(self, key_id: Option<Id>) -> (r: Self)
        ensures
            r == (AuditCreate { key_id, ..self }),
    {
        let mut s = self;
        s.key_id = key_id;
        s
    }

    /// Sets the service on whose behalf the request was made.
    pub fn service_id(self, service_id: Option<Id>) -> (r: Self)
        ensures
            r == (AuditCreate { service_id, ..self }),
    {
        let mut s = self;
        s.service_id = service_id;
        s
    }

    /// Sets the user the request was about.
    pub fn user_id(self, user_id: Option<Id>) -> (r: Self)
        ensures
            r == (AuditCreate { user_id, ..self }),
    {
        let mut s = self;
        s.user_id = user_id;
        s
    }

    /// Sets the user's key that the request used.
    pub fn user_key_id(self, user_key_id: Option<Id>) -> (r: Self)
        ensures
            r == (AuditCreate { user_key_id, ..self }),
    {
        let mut s = self;
        s.user_key_id = user_key_id;
        s
    }

    /// The record that the store appends for this request at `now` under `id`.
    pub open spec fn record(self, id: Id, now: i64) -> Audit {
        Audit {
            created_at: now,
            updated_at: now,
            id,
            user_agent: self.meta.spec_user_agent(),
            remote: self.meta.spec_remote(),
            forwarded: self.meta.spec_forwarded(),
            type_: self.type_,
            subject: self.subject,
            data: self.data,
            key_id: self.key_id,
            service_id: self.service_id,
            user_id: self.user_id,
            user_key_id: self.user_key_id,
        }
    }

    /// Builds the record that the store appends for this request at `now` under `id`.
    pub fn into_record(self, id: Id, now: i64) -> (r: Audit)
        ensures
            r == self.record(id, now),
    {
        let AuditMeta { user_agent, remote, forwarded } = self.meta;
        Audit {
            created_at: now,
            updated_at: now,
            id,
            user_agent,
            remote,
            forwarded,
            type_: self.type_,
            subject: self.subject,
            data: self.data,
            key_id: self.key_id,
            service_id: self.service_id,
            user_id: self.user_id,
            user_key_id: self.user_key_id,
        }
    }
}

/// A record that a caller asks to be written under a name of its own.
#[derive(Debug)]
pub struct AuditCreate2 {
    pub type_: String,
    pub subject: Option<String>,
    pub data: AuditData,
}

impl AuditCreate2 {
    /// A record under a name, with an optional subject and data.
    pub fn new(type_: String, subject: Option<String>, data: AuditData) -> (r: Self)
        ensures
            r == (AuditCreate2 { type_, subject, data }),
    {
        AuditCreate2 { type_, subject, data }
    }
}

/// Where a page of the audit trail starts and how long it is.
pub type AuditListQuery = Page;

/// Which records a listing keeps. A field that is `None` keeps everything.
#[derive(Debug)]
pub struct AuditListFilter {
    pub id: Option<Vec<Id>>,
    pub type_: Option<Vec<String>>,
    pub subject: Option<Vec<String>>,
    pub service_id: Option<Vec<Id>>,
    pub user_id: Option<Vec<Id>>,
}

/// A listing of the audit trail, restricted to one tenant when the mask is set.
#[derive(Debug)]
pub struct AuditList<'a> {
    pub query: &'a AuditListQuery,
    pub filter: &'a AuditListFilter,
    pub service_id_mask: Option<Id>,
}

/// A read of one audit record, restricted to one tenant when the mask is set.
#[derive(Clone, Copy, Debug, PartialEq, Eq, Structural)]
pub struct AuditRead {
    pub id: Id,
    pub service_id_mask: Option<Id>,
}

impl AuditRead {
    /// A read of the record with an identifier, in any tenant.
    pub fn new(id: Id) -> (r: Self)
        ensures
            r == (AuditRead { id, service_id_mask: None }),
    {
        AuditRead { id, service_id_mask: None }
    }

    /// Restricts the read to the records of one tenant.
    pub fn service_id_mask(self, service_id_mask: Option<Id>) -> (r: Self)
        ensures
            r == (AuditRead { id: self.id, service_id_mask }),
    {
        AuditRead { id: self.id, service_id_mask }
    }
}

impl<'a> AuditList<'a> {
    /// Whether the listing keeps a record: the record lies on the page's
    /// side of its cursor, passes every filter, and belongs to the tenant of
    /// the mask.
    pub open spec fn keeps(self, a: Audit) -> bool {
        &&& self.query.admits(a.id)
        &&& keeps_id(self.filter.id, a.id)
        &&& keeps_text(self.filter.type_, a.type_.name())
        &&& match self.filter.subject {
            None => true,
            Some(v) => a.subject is Some && crate::text::has_text(v@, a.subject->0@),
        }
        &&& keeps_opt_id(self.filter.service_id, a.service_id)
        &&& keeps_opt_id(self.filter.user_id, a.user_id)
        &&& mask_admits(self.service_id_mask, a.service_id)
    }

    /// Computes [`AuditList::keeps`].
    pub fn is_kept(&self, a: &Audit) -> (r: bool)
        ensures
            r == self.keeps(*a),
    {
        let name = a.type_.to_string();
        let subject_ok = match &self.filter.subject {
            None => true,
            Some(v) => match &a.subject {
                Some(s) => crate::text::contains_text(v, s.as_str()),
                None => false,
            },
        };
        self.query.is_admitted(a.id) && crate::listing::is_id_kept(&self.filter.id, a.id)
            && crate::listing::is_text_kept(&self.filter.type_, name.as_str()) && subject_ok
            && crate::listing::is_opt_id_kept(&self.filter.service_id, a.service_id)
            && crate::listing::is_opt_id_kept(&self.filter.user_id, a.user_id)
            && crate::listing::is_mask_admitted(self.service_id_mask, a.service_id)
    }
}

impl AuditRead {
    /// Whether the read may see a record.
    pub open spec fn sees(self, a: Audit) -> bool {
        a.id == self.id && mask_admits(self.service_id_mask, a.service_id)
    }
}

impl Audit {
    /// The record after `update` at `now`.
    pub open spec fn updated(self, update: AuditUpdate, now: i64) -> Audit {
        Audit {
            updated_at: now,
            subject: match update.subject {
                Some(s) => Some(s),
                None => self.subject,
            },
            data: match update.data {
                Some(d) => d,
                None => self.data,
            },
            ..self
        }
    }
}

/// What may still be attached to a record after it was written.
#[derive(Debug)]
pub struct AuditUpdate {
    pub subject: Option<String>,
    pub data: Option<AuditData>,
}

/// Tells an audit record what it is about.
pub trait AuditSubject {
    /// The characters of the subject.
    spec fn subject_spec(&self) -> Seq<char>;

    /// The subject under which the value is recorded.
    fn subject(&self) -> (r: String)
        ensures
            r@ == self.subject_spec(),
    ;
}

/// Collects, while a request is handled, who made it and about whom it is.
#[derive(Debug)]
pub struct AuditBuilder {
    pub meta: AuditMeta,
    pub type_: AuditType,
    pub key: Option<Id>,
    pub service: Option<Id>,
    pub user: Option<Id>,
    pub user_key: Option<Id>,
}

/// The identifier of an optional key.
pub open spec fn key_id_of(key: Option<&KeyWithValue>) -> Option<Id> {
    match key {
        Some(k) => Some(k.id),
        None => None,
    }
}

/// The identifier of an optional service.
pub open spec fn service_id_of(service: Option<&Service>) -> Option<Id> {
    match service {
        Some(s) => Some(s.id),
        None => None,
    }
}

/// The identifier of an optional user.
pub open spec fn user_id_of(user: Option<&User>) -> Option<Id> {
    match user {
        Some(u) => Some(u.id),
        None => None,
    }
}

impl AuditBuilder {
    /// The builder that knows the request and the operation, and no actor yet.
    pub open spec fn new_spec(meta: AuditMeta, type_: AuditType) -> AuditBuilder {
        AuditBuilder { meta, type_, key: None, service: None, user: None, user_key: None }
    }

    /// A builder that knows the request and the operation, and no actor yet.
    pub fn new(meta: AuditMeta, type_: AuditType) -> (r: Self)
        ensures
            r == AuditBuilder::new_spec(meta, type_),
    {
        AuditBuilder { meta, type_, key: None, service: None, user: None, user_key: None }
    }

    /// Sets the key that authenticated the request.
    pub fn key(&mut self, key: Option<&KeyWithValue>) -> (r: &mut Self)
        ensures
            *r == (AuditBuilder { key: key_id_of(key), ..*old(self) }),
            *final(self) == *final(r),
    {
        self.key = match key {
            Some(k) => Some(k.id),
            None => None,
        };
        self
    }

    /// Sets the service on whose behalf the request is made.
    pub fn service(&mut self, service: Option<&Service>) -> (r: &mut Self)
        ensures
            *r == (AuditBuilder { service: service_id_of(service), ..*old(self) }),
            *final(self) == *final(r),
    {
        self.service = match service {
            Some(s) => Some(s.id),
            None => None,
        };
        self
    }

    /// Sets the user that the request is about.
    pub fn user(&mut self, user: Option<&User>) -> (r: &mut Self)
        ensures
            *r == (AuditBuilder { user: user_id_of(user), ..*old(self) }),
            *final(self) == *final(r),
    {
        self.user = match user {
            Some(u) => Some(u.id),
            None => None,
        };
        self
    }

    /// Sets the user that the request is about, by identifier.
    pub fn user_id(&mut self, user: Option<Id>) -> (r: &mut Self)
        ensures
            *r == (AuditBuilder { user, ..*old(self) }),
            *final(self) == *final(r),
    {
        self.user = user;
        self
    }

    /// Sets the user's key that the request works with.
    pub fn user_key(&mut self, key: Option<&KeyWithValue>) -> (r: &mut Self)
        ensures
            *r == (AuditBuilder { user_key: key_id_of(key), ..*old(self) }),
            *final(self) == *final(r),
    {
        self.user_key = match key {
            Some(k) => Some(k.id),
            None => None,
        };
        self
    }

    /// Sets the user's key that the request works with, by identifier.
    pub fn user_key_id(&mut self, key: Option<Id>) -> (r: &mut Self)
        ensures
            *r == (AuditBuilder { user_key: key, ..*old(self) }),
            *final(self) == *final(r),
    {
        self.user_key = key;
        self
    }

    /// The request metadata.
    pub fn meta(&self) -> (r: &AuditMeta)
        ensures
            *r == self.meta,
    {
        &self.meta
    }

    /// The record that the builder asks the store to append.
    pub open spec fn request(self, type_: AuditKind, subject: Option<String>, data: AuditData)
        -> AuditCreate {
        AuditCreate {
            meta: self.meta,
            type_,
            subject,
            data,
            key_id: self.key,
            service_id: self.service,
            user_id: self.user,
            user_key_id: self.user_key,
        }
    }

    /// The record of the builder's own operation.
    pub open spec fn own_request(self, subject: Option<String>, data: AuditData) -> AuditCreate {
        self.request(AuditKind::Known(self.type_), subject, data)
    }

    /// Appends a record under a name that the caller chose, with the actors
    /// collected so far.
    pub fn create<D: Driver>(&self, driver: &mut D, ctx: &Context, create: AuditCreate2) -> (r:
        DriverResult<Audit>)
        requires
            old(driver).store().wf(),
        ensures
            final(driver).store().wf(),
            (r, final(driver).store()) == old(driver).store().audit_create(
                self.request(AuditKind::Custom(create.type_), create.subject, create.data),
                ctx.now,
            ),
    {
        let data = AuditCreate::new(
            self.meta.clone(),
            AuditKind::Custom(create.type_),
            create.subject,
            create.data,
        ).key_id(self.key).service_id(self.service).user_id(self.user).user_key_id(self.user_key);
        driver.audit_create(data, ctx.now)
    }

    /// Appends a record of the builder's own operation, with the actors
    /// collected so far.
    pub fn create_data<D: Driver>(
        &self,
        driver: &mut D,
        ctx: &Context,
        subject: Option<String>,
        data: AuditData,
    ) -> (r: DriverResult<Audit>)
        requires
            old(driver).store().wf(),
        ensures
            final(driver).store().wf(),
            (r, final(driver).store()) == old(driver).store().audit_create(
                self.own_request(subject, data),
                ctx.now,
            ),
    {
        let audit_data = AuditCreate::new(
            self.meta.clone(),
            AuditKind::Known(self.type_),
            subject,
            data,
        ).key_id(self.key).service_id(self.service).user_id(self.user).user_key_id(self.user_key);
        driver.audit_create(audit_data, ctx.now)
    }
}

/// What the audit trail says of an outcome: nothing more on success, the
/// error on failure.
pub open spec fn outcome_data<T>(res: MethodResult<T>) -> AuditData {
    match res {
        Ok(_) => AuditData::Empty,
        Err(e) => AuditData::Failure(e),
    }
}

/// The result of an operation once its audit record is written: a failure
/// stays the failure it is; a success stays a success unless the record
/// could not be written, which fails the operation.
pub open spec fn audited<T>(written: Result<Audit, DriverError>, res: MethodResult<T>)
    -> MethodResult<T> {
    match res {
        Err(e) => Err(e),
        Ok(_) => match written {
            Ok(_) => res,
            Err(w) => Err(MethodError::BadRequest(w)),
        },
    }
}

/// Records the outcome of an operation, success or failure, and hands the
/// outcome on unchanged. A success whose record cannot be written fails.
pub fn audit_result<D: Driver, T>(
    driver: &mut D,
    ctx: &Context,
    audit: &AuditBuilder,
    res: MethodResult<T>,
) -> (r: MethodResult<T>)
    requires
        old(driver).store().wf(),
    ensures
        final(driver).store().wf(),
        final(driver).store() == old(driver).store().audit_create(
            audit.own_request(None, outcome_data(res)),
            ctx.now,
        ).1,
        r == audited(
            old(driver).store().audit_create(audit.own_request(None, outcome_data(res)), ctx.now).0,
            res,
        ),
{
    let data = match &res {
        Ok(_) => AuditData::Empty,
        Err(e) => AuditData::Failure(*e),
    };
    match audit.create_data(driver, ctx, None, data) {
        Ok(_) => res,
        Err(w) => match res {
            Ok(_) => Err(MethodError::BadRequest(w)),
            Err(e) => Err(e),
        },
    }
}

/// What [`audit_result_err`] leaves in the store.
pub open spec fn audit_result_err_store<T>(
    store: Store,
    audit: AuditBuilder,
    res: MethodResult<T>,
    now: i64,
) -> Store {
    match res {
        Ok(_) => store,
        Err(e) => store.audit_create(audit.own_request(None, AuditData::Failure(e)), now).1,
    }
}

/// Records the outcome of an operation if it failed, and hands the outcome on
/// unchanged.
pub fn audit_result_err<D: Driver, T>(
    driver: &mut D,
    ctx: &Context,
    audit: &AuditBuilder,
    res: MethodResult<T>,
) -> (r: MethodResult<T>)
    requires
        old(driver).store().wf(),
    ensures
        final(driver).store().wf(),
        final(driver).store() == audit_result_err_store(old(driver).store(), *audit, res, ctx.now),
        r == res,
{
    match res {
        Ok(t) => Ok(t),
        Err(e) => {
            let _ = audit.create_data(driver, ctx, None, AuditData::Failure(e));
            Err(e)
        },
    }
}

/// One change: the name of a field, its previous value and its current value.
pub type DiffRow = (Seq<char>, Seq<char>, Seq<char>);

/// The characters of the rows of a diff.
pub open spec fn rows_view(rows: Seq<(String, String, String)>) -> Seq<DiffRow> {
    Seq::new(rows.len(), |i: int| (rows[i].0@, rows[i].1@, rows[i].2@))
}

/// The JSON text of an object with the property `type` and, under `data`,
/// the rows as an array of arrays of three strings.
pub uninterp spec fn typed_json(type_: Seq<char>, rows: Seq<DiffRow>) -> Seq<char>;

/// Writes rows as JSON, wrapped in an object that names their type.
///
/// Builds a `serde_json::Map` with the two properties `type` and `data`,
/// the rows converted by `serde_json::to_value`, and writes it out with
/// `Value::to_string`.
#[verifier::external_body]
fn typed_json_text(type_: &str, rows: &Vec<(String, String, String)>) -> (r: String)
    ensures
        r@ == typed_json(type_@, rows_view(rows@)),
{
    let mut m = serde_json::Map::new();
    m.insert("type".to_owned(), serde_json::Value::from(type_));
    m.insert("data".to_owned(), serde_json::to_value(rows).unwrap_or_default());
    serde_json::Value::Object(m).to_string()
}

/// The rows of a diff after one more field is compared: a field that
/// changed adds a row, a field that did not adds nothing.
pub open spec fn compared(rows: Seq<DiffRow>, key: Seq<char>, current: Seq<char>, previous: Seq<char>)
    -> Seq<DiffRow> {
    if current == previous {
        rows
    } else {
        rows.push((key, previous, current))
    }
}

/// The text of a flag.
pub open spec fn flag_text(b: bool) -> Seq<char> {
    if b {
        "true"@
    } else {
        "false"@
    }
}

/// The text of an optional text: nothing for `None`.
pub open spec fn opt_text(s: Option<String>) -> Seq<char> {
    match s {
        Some(x) => x@,
        None => Seq::empty(),
    }
}

/// Tells what changed between two versions of a value.
pub trait AuditDiff {
    /// The JSON text of the changes from `previous` to `self`.
    spec fn diff_spec(&self, previous: &Self) -> Seq<char>;

    /// The changes from `previous` to `self`, for the audit trail.
    fn diff(&self, previous: &Self) -> (r: AuditData)
        ensures
            r matches AuditData::Json(j) && j@ == self.diff_spec(previous),
    ;
}

/// Collects the fields that an update changed: for each, its name, its
/// previous value and its current value.
#[derive(Debug)]
pub struct AuditDiffBuilder {
    data: Vec<(String, String, String)>,
}

impl Default for AuditDiffBuilder {
    fn default() -> (r: Self)
        ensures
            r.rows() == Seq::<DiffRow>::empty(),
    {
        let r = AuditDiffBuilder { data: Vec::new() };
        assert(r.rows() =~= Seq::<DiffRow>::empty());
        r
    }
}

impl AuditDiffBuilder {
    /// The rows collected so far.
    pub closed spec fn rows(self) -> Seq<DiffRow> {
        rows_view(self.data@)
    }

    /// Compares two versions of a value, each written out as text; if they
    /// differ, a row is added that holds the name, the previous and the
    /// current value, in that order.
    pub fn compare(self, key: &str, current: &str, previous: &str) -> (r: Self)
        ensures
            r.rows() == compared(self.rows(), key@, current@, previous@),
    {
        let mut s = self;
        if !str_eq(current, previous) {
            let ghost before = s.data@;
            s.data.push((String::from_str(key), String::from_str(previous), String::from_str(current)));
            assert(rows_view(s.data@) =~= rows_view(before).push((key@, previous@, current@)));
        }
        s
    }

    /// Compares two versions of a flag; if they differ, a row is added.
    pub fn compare_flag(self, key: &str, current: bool, previous: bool) -> (r: Self)
        ensures
            r.rows() == compared(self.rows(), key@, flag_text(current), flag_text(previous)),
    {
        proof {
            reveal_strlit("true");
            reveal_strlit("false");
            assert("true"@.len() != "false"@.len());
        }
        let c = if current { "true" } else { "false" };
        let p = if previous { "true" } else { "false" };
        self.compare(key, c, p)
    }

    /// The JSON text of the diff: an object of type `diff` with the rows.
    pub open spec fn value(self) -> Seq<char> {
        typed_json("diff"@, self.rows())
    }

    /// The diff as data of an audit record.
    pub fn into_value(self) -> (r: AuditData)
        ensures
            r matches AuditData::Json(j) && j@ == self.value(),
    {
        AuditData::Json(AuditDiffBuilder::typed_data("diff", &self.data))
    }

    /// The JSON text of rows wrapped in an object that names their type.
    pub fn typed_data(type_: &str, data: &Vec<(String, String, String)>) -> (r: String)
        ensures
            r@ == typed_json(type_@, rows_view(data@)),
    {
        typed_json_text(type_, data)
    }
}

/// The audit record that [`audit_result_subject`] and [`audit_result_diff`]
/// write: the last one of the trail.
pub open spec fn written(store: Store) -> Audit {
    store.audit.last()
}

/// The subject under which an outcome is recorded: the one given on
/// success, none on failure.
pub open spec fn subject_on<T>(res: MethodResult<T>, subject: Option<String>) -> Option<String> {
    match res {
        Ok(_) => subject,
        Err(_) => None,
    }
}

/// Records the outcome of an operation on a subject: on success the subject
/// of the value, on failure the error. Hands the outcome on unchanged,
/// unless the record cannot be written.
pub fn audit_result_subject<D: Driver, T: AuditSubject>(
    driver: &mut D,
    ctx: &Context,
    audit: &AuditBuilder,
    res: MethodResult<T>,
) -> (r: MethodResult<T>)
    requires
        old(driver).store().wf(),
    ensures
        final(driver).store().wf(),
        final(driver).store() == old(driver).store().audit_create(
            audit.own_request(subject_on(res, written(final(driver).store()).subject), outcome_data(res)),
            ctx.now,
        ).1,
        r == audited(
            old(driver).store().audit_create(
                audit.own_request(
                    subject_on(res, written(final(driver).store()).subject),
                    outcome_data(res),
                ),
                ctx.now,
            ).0,
            res,
        ),
        old(driver).store().next_id != Id::MAX ==> (match res {
            Ok(t) => written(final(driver).store()).subject matches Some(s) && s@
                == t.subject_spec(),
            Err(_) => written(final(driver).store()).subject is None,
        }),
{
    let (subject, data) = match &res {
        Ok(t) => (Some(t.subject()), AuditData::Empty),
        Err(e) => (None, AuditData::Failure(*e)),
    };
    match audit.create_data(driver, ctx, subject, data) {
        Ok(_) => res,
        Err(w) => match res {
            Ok(_) => Err(MethodError::BadRequest(w)),
            Err(e) => Err(e),
        },
    }
}

/// The data that the audit trail holds of an update: the diff on success,
/// the error on failure.
pub open spec fn diff_data<T>(res: MethodResult<(T, T)>, diff: AuditData) -> AuditData {
    match res {
        Ok(_) => diff,
        Err(e) => AuditData::Failure(e),
    }
}

/// What [`audit_result_diff`] hands on: the current version.
pub open spec fn current_of<T>(res: MethodResult<(T, T)>) -> MethodResult<T> {
    match res {
        Ok((_, current)) => Ok(current),
        Err(e) => Err(e),
    }
}

/// Records the outcome of an update: on success the subject and what
/// changed from the previous version, the first of the pair, to the current
/// one, the second; on failure the error. Hands the current version on,
/// unless the record cannot be written.
pub fn audit_result_diff<D: Driver, T: AuditSubject + AuditDiff>(
    driver: &mut D,
    ctx: &Context,
    audit: &AuditBuilder,
    res: MethodResult<(T, T)>,
) -> (r: MethodResult<T>)
    requires
        old(driver).store().wf(),
    ensures
        final(driver).store().wf(),
        final(driver).store() == old(driver).store().audit_create(
            audit.own_request(
                subject_on(res, written(final(driver).store()).subject),
                diff_data(res, written(final(driver).store()).data),
            ),
            ctx.now,
        ).1,
        r == audited(
            old(driver).store().audit_create(
                audit.own_request(
                    subject_on(res, written(final(driver).store()).subject),
                    diff_data(res, written(final(driver).store()).data),
                ),
                ctx.now,
            ).0,
            current_of(res),
        ),
        old(driver).store().next_id != Id::MAX ==> (match res {
            Ok((previous, current)) => (written(final(driver).store()).subject matches Some(s)
                && s@ == current.subject_spec()) && (written(final(driver).store()).data
                matches AuditData::Json(j) && j@ == current.diff_spec(&previous)),
            Err(_) => written(final(driver).store()).subject is None,
        }),
{
    match res {
        Ok((previous, current)) => {
            let subject = Some(current.subject());
            let data = current.diff(&previous);
            match audit.create_data(driver, ctx, subject, data) {
                Ok(_) => Ok(current),
                Err(e) => Err(MethodError::BadRequest(e)),
            }
        },
        Err(e) => {
            let _ = audit.create_data(driver, ctx, None, AuditData::Failure(e));
            Err(e)
        },
    }
}

} // verus!
