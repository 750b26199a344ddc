//! The administration of users: listing, creating, reading, changing and
//! deleting them on behalf of a root key or a service.

use vstd::prelude::*;
use crate::audit::{
    audit_result_diff, audit_result_subject, compared, flag_text, opt_text, typed_json, written,
    AuditBuilder, AuditData, AuditDiff, AuditDiffBuilder, AuditMeta, AuditSubject, DiffRow,
};
use crate::audit_type::AuditType;
use crate::auth;
use crate::context::Context;
use crate::driver::Driver;
use crate::error::{DriverError, MethodError, MethodResult};
use crate::jwt::{uuid_text, uuid_to_string};
use crate::method::{
    caller_of, failure_of, finish, key_authenticate, recorded, recorded_with,
    rejected, reported, Outcome,
};
use crate::model::{Id, User, UserCreate, UserList, UserListFilter, UserListQuery, UserRead, UserUpdate};
use crate::password::{bcrypt_verified, hash_password};
use crate::store::{user_has_id, Store};
use crate::text::{lemma_first_match, opt_view};

verus! {

impl AuditSubject for User {
    open spec fn subject_spec(&self) -> Seq<char> {
        uuid_text(self.id)
    }

    fn subject(&self) -> (r: String) {
        uuid_to_string(self.id)
    }
}

/// The rows that tell what changed from `previous` to `current`.
pub open spec fn user_diff_rows(current: User, previous: User) -> Seq<DiffRow> {
    let rows = Seq::<DiffRow>::empty();
    let rows = compared(
        rows,
        "is_enabled"@,
        flag_text(current.is_enabled),
        flag_text(previous.is_enabled),
    );
    let rows = compared(rows, "name"@, current.name@, previous.name@);
    let rows = compared(rows, "email"@, current.email@, previous.email@);
    let rows = compared(rows, "locale"@, opt_text(current.locale), opt_text(previous.locale));
    let rows = compared(rows, "timezone"@, opt_text(current.timezone), opt_text(previous.timezone));
    let rows = compared(
        rows,
        "password_allow_reset"@,
        flag_text(current.password_allow_reset),
        flag_text(previous.password_allow_reset),
    );
    compared(
        rows,
        "password_require_update"@,
        flag_text(current.password_require_update),
        flag_text(previous.password_require_update),
    )
}

fn opt_as_str(s: &Option<String>) -> (r: &str)
    ensures
        r@ == opt_text(*s),
{
    match s {
        Some(x) => x.as_str(),
        None => {
            let e = "";
            proof {
                reveal_strlit("");
            }
            assert(e@ =~= Seq::<char>::empty());
            e
        },
    }
}

impl AuditDiff for User {
    open spec fn diff_spec(&self, previous: &Self) -> Seq<char> {
        typed_json("diff"@, user_diff_rows(*self, *previous))
    }

    fn diff(&self, previous: &Self) -> (r: AuditData) {
        AuditDiffBuilder::default().compare_flag(
            "is_enabled",
            self.is_enabled,
            previous.is_enabled,
        ).compare("name", self.name.as_str(), previous.name.as_str()).compare(
            "email",
            self.email.as_str(),
            previous.email.as_str(),
        ).compare("locale", opt_as_str(&self.locale), opt_as_str(&previous.locale)).compare(
            "timezone",
            opt_as_str(&self.timezone),
            opt_as_str(&previous.timezone),
        ).compare_flag(
            "password_allow_reset",
            self.password_allow_reset,
            previous.password_allow_reset,
        ).compare_flag(
            "password_require_update",
            self.password_require_update,
            previous.password_require_update,
        ).into_value()
    }
}

/// A request for a page of users.
#[derive(Debug)]
pub struct UserListRequest {
    pub query: UserListQuery,
    pub filter: UserListFilter,
}

/// What listing users does before its outcome is recorded.
pub open spec fn list_spec(store: Store, audit: AuditBuilder, auth: Option<Seq<char>>) -> Outcome {
    let audit = auth::authenticate_audit(store, auth, audit);
    Outcome { failure: failure_of(caller_of(store, auth)), store, audit }
}

/// Lists users for a root key or a service. The outcome is recorded in the
/// audit trail.
pub fn list<D: Driver>(
    driver: &mut D,
    ctx: &Context,
    audit_meta: AuditMeta,
    auth: Option<String>,
    req: &UserListRequest,
) -> (r: MethodResult<Vec<User>>)
    requires
        old(driver).store().wf(),
    ensures
        final(driver).store().wf(),
        final(driver).store() == recorded(
            list_spec(
                old(driver).store(),
                AuditBuilder::new_spec(audit_meta, AuditType::UserList),
                opt_view(auth),
            ),
            ctx.now,
        ),
        failure_of(r) == reported(
            list_spec(
                old(driver).store(),
                AuditBuilder::new_spec(audit_meta, AuditType::UserList),
                opt_view(auth),
            ),
        ),
        r matches Ok(users) ==> users@ == old(driver).store().user_list(
            UserList { query: &req.query, filter: &req.filter },
        ),
{
    let mut audit = AuditBuilder::new(audit_meta, AuditType::UserList);
    let res = match key_authenticate(driver, &mut audit, &auth) {
        Err(e) => Err(e),
        Ok(_) => Ok(driver.user_list(&UserList { query: &req.query, filter: &req.filter })),
    };
    finish(driver, ctx, &audit, res)
}

/// What reading a user yields: `NotFound` where there is none.
pub open spec fn read_spec(store: Store, read: UserRead) -> MethodResult<User> {
    let found = match read {
        UserRead::Id(id) => store.user_by_id(id),
        UserRead::Email(email) => store.user_by_email(email@),
    };
    match found {
        Some(u) => Ok(u),
        None => Err(MethodError::NotFound(DriverError::UserNotFound)),
    }
}

fn read_inner<D: Driver>(driver: &D, read: &UserRead) -> (r: MethodResult<User>)
    requires
        driver.store().wf(),
    ensures
        r == read_spec(driver.store(), *read),
{
    let found = match read {
        UserRead::Id(id) => driver.user_read_id(*id),
        UserRead::Email(email) => driver.user_read_email(email.as_str()),
    };
    match found {
        Some(u) => Ok(u),
        None => Err(MethodError::NotFound(DriverError::UserNotFound)),
    }
}

/// What reading a user for a caller yields.
pub open spec fn read_for(store: Store, auth: Option<Seq<char>>, read: UserRead) -> MethodResult<
    User,
> {
    match caller_of(store, auth) {
        Err(e) => Err(e),
        Ok(_) => read_spec(store, read),
    }
}

/// Reads a user for a root key or a service. Fails `NotFound` where there
/// is no such user. The outcome is recorded in the audit trail.
pub fn read<D: Driver>(
    driver: &mut D,
    ctx: &Context,
    audit_meta: AuditMeta,
    auth: Option<String>,
    req: &UserRead,
) -> (r: MethodResult<User>)
    requires
        old(driver).store().wf(),
    ensures
        final(driver).store().wf(),
        final(driver).store() == recorded(
            Outcome {
                failure: failure_of(read_for(old(driver).store(), opt_view(auth), *req)),
                store: old(driver).store(),
                audit: auth::authenticate_audit(
                    old(driver).store(),
                    opt_view(auth),
                    AuditBuilder::new_spec(audit_meta, AuditType::UserRead),
                ),
            },
            ctx.now,
        ),
        failure_of(r) == reported(
            Outcome {
                failure: failure_of(read_for(old(driver).store(), opt_view(auth), *req)),
                store: old(driver).store(),
                audit: auth::authenticate_audit(
                    old(driver).store(),
                    opt_view(auth),
                    AuditBuilder::new_spec(audit_meta, AuditType::UserRead),
                ),
            },
        ),
        r is Ok ==> r == read_for(old(driver).store(), opt_view(auth), *req),
{
    let mut audit = AuditBuilder::new(audit_meta, AuditType::UserRead);
    let res = match key_authenticate(driver, &mut audit, &auth) {
        Err(e) => Err(e),
        Ok(_) => read_inner(driver, req),
    };
    finish(driver, ctx, &audit, res)
}

/// A request to create a user.
#[derive(Debug)]
pub struct UserCreateRequest {
    pub is_enabled: bool,
    pub name: String,
    pub email: String,
    pub locale: Option<String>,
    pub timezone: Option<String>,
    pub password_allow_reset: bool,
    pub password_require_update: bool,
    pub password: Option<String>,
}

/// The user that a request asks for, with the hash of its password.
pub open spec fn create_user(req: UserCreateRequest, password_hash: Option<String>) -> UserCreate {
    UserCreate {
        is_enabled: req.is_enabled,
        name: req.name,
        email: req.email,
        locale: req.locale,
        timezone: req.timezone,
        password_allow_reset: req.password_allow_reset,
        password_require_update: req.password_require_update,
        password_hash,
    }
}

/// Whether an outcome says that no hash of the password could be made.
pub open spec fn hash_failed(failure: Option<MethodError>) -> bool {
    failure == Some(MethodError::BadRequest(DriverError::PasswordHash))
}

/// The password hash of the user that the store created last.
pub open spec fn created_hash(after: Store) -> Option<String> {
    after.users.last().password_hash
}

/// What creating a user does before its outcome is recorded: the caller is
/// authenticated, the password, if one is given, is hashed, and the user is
/// created. `hash_failed` tells whether no hash could be made, `hashed` is
/// the hash that was made.
pub open spec fn create_spec(
    store: Store,
    ctx: Context,
    audit: AuditBuilder,
    auth: Option<Seq<char>>,
    req: UserCreateRequest,
    hash_failed: bool,
    hashed: Option<String>,
) -> Outcome {
    let audit = auth::authenticate_audit(store, auth, audit);
    match caller_of(store, auth) {
        Err(e) => Outcome { failure: Some(e), store, audit },
        Ok(_) => if req.password is Some && hash_failed {
            Outcome {
                failure: Some(MethodError::BadRequest(DriverError::PasswordHash)),
                store,
                audit,
            }
        } else {
            match store.user_create(
                create_user(
                    req,
                    if req.password is Some {
                        hashed
                    } else {
                        None
                    },
                ),
                ctx.now,
            ) {
                (Err(e), s) => Outcome { failure: Some(MethodError::rejected(e)), store: s, audit },
                (Ok(_), s) => Outcome { failure: None, store: s, audit },
            }
        },
    }
}

fn password_of(req: &UserCreateRequest) -> (r: Option<&str>)
    ensures
        crate::password::opt_str_view(r) == opt_view(req.password),
        r is Some == req.password is Some,
{
    match &req.password {
        Some(p) => Some(p.as_str()),
        None => None,
    }
}

fn create_inner<D: Driver>(
    driver: &mut D,
    ctx: &Context,
    audit: &mut AuditBuilder,
    auth: &Option<String>,
    req: UserCreateRequest,
) -> (r: MethodResult<User>)
    requires
        old(driver).store().wf(),
    ensures
        final(driver).store().wf(),
        (Outcome { failure: failure_of(r), store: final(driver).store(), audit: *final(audit) })
            == create_spec(
            old(driver).store(),
            *ctx,
            *old(audit),
            opt_view(*auth),
            req,
            hash_failed(failure_of(r)),
            created_hash(final(driver).store()),
        ),
        r matches Ok(u) ==> u == User::created(
            create_user(req, u.password_hash),
            old(driver).store().next_id,
            ctx.now,
        ) && u.password_hash == created_hash(final(driver).store()) && (u.password_hash is Some
            == req.password is Some) && (req.password matches Some(p) ==> bcrypt_verified(
            p@,
            u.password_hash->0@,
        ) == Some(true)),
{
    key_authenticate(driver, audit, auth)?;
    let password_hash = match hash_password(password_of(&req)) {
        Ok(h) => h,
        Err(e) => {
            return Err(MethodError::BadRequest(e));
        },
    };
    let create = UserCreate {
        is_enabled: req.is_enabled,
        name: req.name,
        email: req.email,
        locale: req.locale,
        timezone: req.timezone,
        password_allow_reset: req.password_allow_reset,
        password_require_update: req.password_require_update,
        password_hash,
    };
    rejected(driver.user_create(create, ctx.now))
}

/// Creates a user for a root key or a service. Fails `Conflict` where the
/// email address belongs to another user. The outcome is recorded in the
/// audit trail, on success under the new user's identifier as subject, on
/// failure without subject. Wherever the user was created with a password,
/// the password verifies against the hash that the store holds.
pub fn create<D: Driver>(
    driver: &mut D,
    ctx: &Context,
    audit_meta: AuditMeta,
    auth: Option<String>,
    req: UserCreateRequest,
) -> (r: MethodResult<User>)
    requires
        old(driver).store().wf(),
    ensures
        final(driver).store().wf(),
        final(driver).store() == recorded_with(
            create_spec(
                old(driver).store(),
                *ctx,
                AuditBuilder::new_spec(audit_meta, AuditType::UserCreate),
                opt_view(auth),
                req,
                hash_failed(failure_of(r)),
                final(driver).store().users.last().password_hash,
            ),
            written(final(driver).store()).subject,
            AuditData::Empty,
            ctx.now,
        ),
        failure_of(r) == reported(
            create_spec(
                old(driver).store(),
                *ctx,
                AuditBuilder::new_spec(audit_meta, AuditType::UserCreate),
                opt_view(auth),
                req,
                hash_failed(failure_of(r)),
                final(driver).store().users.last().password_hash,
            ),
        ),
        create_spec(
            old(driver).store(),
            *ctx,
            AuditBuilder::new_spec(audit_meta, AuditType::UserCreate),
            opt_view(auth),
            req,
            hash_failed(failure_of(r)),
            final(driver).store().users.last().password_hash,
        ).failure is None && req.password is Some ==> (final(driver).store().users.last().password_hash
            matches Some(h) && bcrypt_verified(req.password->0@, h@) == Some(true)),
        r matches Ok(u) ==> u == User::created(
            create_user(req, u.password_hash),
            old(driver).store().next_id,
            ctx.now,
        ) && (u.password_hash is Some == req.password is Some) && (written(
            final(driver).store(),
        ).subject matches Some(s) && s@ == uuid_text(u.id)),
{
    let mut audit = AuditBuilder::new(audit_meta, AuditType::UserCreate);
    let res = create_inner(driver, ctx, &mut audit, &auth, req);
    audit_result_subject(driver, ctx, &audit, res)
}

/// What changing a user does before its outcome is recorded: the caller is
/// authenticated, the user is read, `NotFound` where there is none, and
/// changed.
pub open spec fn update_spec(
    store: Store,
    ctx: Context,
    audit: AuditBuilder,
    auth: Option<Seq<char>>,
    req: UserUpdate,
) -> Outcome {
    let audit = auth::authenticate_audit(store, auth, audit);
    match read_for(store, auth, UserRead::Id(req.id)) {
        Err(e) => Outcome { failure: Some(e), store, audit },
        Ok(_) => match store.user_update(req, ctx.now) {
            (Err(e), s) => Outcome { failure: Some(MethodError::rejected(e)), store: s, audit },
            (Ok(_), s) => Outcome { failure: None, store: s, audit },
        },
    }
}

fn update_inner<D: Driver>(
    driver: &mut D,
    ctx: &Context,
    audit: &mut AuditBuilder,
    auth: &Option<String>,
    req: UserUpdate,
) -> (r: MethodResult<(User, User)>)
    requires
        old(driver).store().wf(),
    ensures
        final(driver).store().wf(),
        (Outcome { failure: failure_of(r), store: final(driver).store(), audit: *final(audit) })
            == update_spec(old(driver).store(), *ctx, *old(audit), opt_view(*auth), req),
        r matches Ok((previous, current)) ==> Some(previous) == old(driver).store().user_by_id(
            req.id,
        ) && current == previous.updated(req, ctx.now),
{
    key_authenticate(driver, audit, auth)?;
    let previous = read_inner(driver, &UserRead::Id(req.id))?;
    proof {
        lemma_first_match(driver.store().users, user_has_id(req.id));
    }
    let current = rejected(driver.user_update(req, ctx.now))?;
    Ok((previous, current))
}

/// Changes a user for a root key or a service. Fails `NotFound` where there
/// is no such user and `Conflict` where the new email address belongs to
/// another user. The outcome is recorded in the audit trail, on success with
/// what changed.
pub fn update<D: Driver>(
    driver: &mut D,
    ctx: &Context,
    audit_meta: AuditMeta,
    auth: Option<String>,
    req: UserUpdate,
) -> (r: MethodResult<User>)
    requires
        old(driver).store().wf(),
    ensures
        final(driver).store().wf(),
        final(driver).store() == recorded_with(
            update_spec(
                old(driver).store(),
                *ctx,
                AuditBuilder::new_spec(audit_meta, AuditType::UserUpdate),
                opt_view(auth),
                req,
            ),
            written(final(driver).store()).subject,
            written(final(driver).store()).data,
            ctx.now,
        ),
        failure_of(r) == reported(
            update_spec(
                old(driver).store(),
                *ctx,
                AuditBuilder::new_spec(audit_meta, AuditType::UserUpdate),
                opt_view(auth),
                req,
            ),
        ),
        r matches Ok(current) ==> (old(driver).store().user_by_id(req.id) matches Some(previous)
            && current == previous.updated(req, ctx.now) && (written(
            final(driver).store(),
        ).subject matches Some(s) && s@ == uuid_text(current.id)) && (written(
            final(driver).store(),
        ).data matches AuditData::Json(j) && j@ == current.diff_spec(&previous))),
{
    let mut audit = AuditBuilder::new(audit_meta, AuditType::UserUpdate);
    let res = update_inner(driver, ctx, &mut audit, &auth, req);
    audit_result_diff(driver, ctx, &audit, res)
}

/// What deleting a user does before its outcome is recorded: the caller is
/// authenticated, the user is read, `NotFound` where there is none, and
/// deleted together with the user's keys.
pub open spec fn delete_spec(
    store: Store,
    audit: AuditBuilder,
    auth: Option<Seq<char>>,
    req: UserRead,
) -> Outcome {
    let audit = auth::authenticate_audit(store, auth, audit);
    match read_for(store, auth, req) {
        Err(e) => Outcome { failure: Some(e), store, audit },
        Ok(user) => match store.user_delete(user.id) {
            (Err(e), s) => Outcome { failure: Some(MethodError::rejected(e)), store: s, audit },
            (Ok(_), s) => Outcome { failure: None, store: s, audit },
        },
    }
}

fn delete_inner<D: Driver>(
    driver: &mut D,
    audit: &mut AuditBuilder,
    auth: &Option<String>,
    req: &UserRead,
) -> (r: MethodResult<User>)
    requires
        old(driver).store().wf(),
    ensures
        final(driver).store().wf(),
        (Outcome { failure: failure_of(r), store: final(driver).store(), audit: *final(audit) })
            == delete_spec(old(driver).store(), *old(audit), opt_view(*auth), *req),
        r is Ok ==> r == read_for(old(driver).store(), opt_view(*auth), *req),
{
    key_authenticate(driver, audit, auth)?;
    let user = read_inner(driver, req)?;
    proof {
        lemma_first_match(driver.store().users, user_has_id(user.id));
    }
    match driver.user_delete(user.id) {
        Ok(_) => Ok(user),
        Err(e) => Err(MethodError::reject(e)),
    }
}

/// Deletes a user, and with the user the user's keys, for a root key or a
/// service. Fails `NotFound` where there is no such user. The outcome is
/// recorded in the audit trail, on success under the user's identifier as
/// subject.
pub fn delete<D: Driver>(
    driver: &mut D,
    ctx: &Context,
    audit_meta: AuditMeta,
    auth: Option<String>,
    req: &UserRead,
) -> (r: MethodResult<()>)
    requires
        old(driver).store().wf(),
    ensures
        final(driver).store().wf(),
        final(driver).store() == recorded_with(
            delete_spec(
                old(driver).store(),
                AuditBuilder::new_spec(audit_meta, AuditType::UserDelete),
                opt_view(auth),
                *req,
            ),
            written(final(driver).store()).subject,
            AuditData::Empty,
            ctx.now,
        ),
        failure_of(r) == reported(
            delete_spec(
                old(driver).store(),
                AuditBuilder::new_spec(audit_meta, AuditType::UserDelete),
                opt_view(auth),
                *req,
            ),
        ),
        r is Ok ==> (written(final(driver).store()).subject matches Some(s) && s@ == uuid_text(
            read_for(old(driver).store(), opt_view(auth), *req)->Ok_0.id,
        )),
{
    let mut audit = AuditBuilder::new(audit_meta, AuditType::UserDelete);
    let res = delete_inner(driver, &mut audit, &auth, req);
    match audit_result_subject(driver, ctx, &audit, res) {
        Ok(_) => Ok(()),
        Err(e) => Err(e),
    }
}

} // verus!
