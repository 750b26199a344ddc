//! The interface through which the engine reaches the credential store.

use vstd::prelude::*;
use crate::audit::{Audit, AuditCreate, AuditList, AuditRead, AuditUpdate};
use crate::error::DriverResult;
use crate::model::{
    Csrf, CsrfCreate, Id, Key, KeyCreate, KeyList, KeyType, KeyUpdate, KeyWithValue, Service,
    ServiceCreate, User, UserCreate, UserList, UserUpdate,
};
use crate::store::Store;

verus! {

/// A credential store. Every operation is a single durable step; what it
/// returns and how it changes the store is given by the model in [`Store`].
pub trait Driver {
    /// What the store holds.
    spec fn store(&self) -> Store;

    /// Reads the service with an identifier.
    fn service_read(&self, id: Id) -> (r: Option<Service>)
        requires
            self.store().wf(),
        ensures
            r == self.store().service(id),
    ;

    /// Creates a service.
    fn service_create(&mut self, create: ServiceCreate, now: i64) -> (r: DriverResult<Service>)
        requires
            old(self).store().wf(),
        ensures
            final(self).store().wf(),
            (r, final(self).store()) == old(self).store().service_create(create, now),
    ;

    /// Reads the key with an identifier.
    fn key_read_id(&self, id: Id) -> (r: Option<KeyWithValue>)
        requires
            self.store().wf(),
        ensures
            r == self.store().key_by_id(id),
    ;

    /// Reads the key with a value.
    fn key_read_value(&self, value: &str) -> (r: Option<KeyWithValue>)
        requires
            self.store().wf(),
        ensures
            r == self.store().key_by_value(value@),
    ;

    /// Reads the oldest key of one type that a user holds within a service;
    /// with `usable_only`, the oldest that is enabled and not revoked.
    fn key_read_user(&self, service_id: Id, user_id: Id, type_: KeyType, usable_only: bool) -> (r:
        Option<KeyWithValue>)
        requires
            self.store().wf(),
        ensures
            r == self.store().key_of_user(service_id, user_id, type_, usable_only),
    ;

    /// Creates a key. Fails with `KeyValueConflict` where another key has the value.
    fn key_create(&mut self, create: KeyCreate, now: i64) -> (r: DriverResult<KeyWithValue>)
        requires
            old(self).store().wf(),
        ensures
            final(self).store().wf(),
            (r, final(self).store()) == old(self).store().key_create(create, now),
    ;

    /// Changes a key. A revoked key stays revoked.
    fn key_update(&mut self, id: Id, update: KeyUpdate, now: i64) -> (r: DriverResult<
        KeyWithValue,
    >)
        requires
            old(self).store().wf(),
        ensures
            final(self).store().wf(),
            (r, final(self).store()) == old(self).store().key_update(id, update, now),
    ;

    /// Deletes a key and returns it as it was.
    fn key_delete(&mut self, id: Id) -> (r: DriverResult<KeyWithValue>)
        requires
            old(self).store().wf(),
        ensures
            final(self).store().wf(),
            (r, final(self).store()) == old(self).store().key_delete(id),
    ;

    /// Reads the user with an identifier.
    fn user_read_id(&self, id: Id) -> (r: Option<User>)
        requires
            self.store().wf(),
        ensures
            r == self.store().user_by_id(id),
    ;

    /// Reads the user with an email address.
    fn user_read_email(&self, email: &str) -> (r: Option<User>)
        requires
            self.store().wf(),
        ensures
            r == self.store().user_by_email(email@),
    ;

    /// Creates a user. Fails with `UserEmailConflict` where another user has
    /// the email address.
    fn user_create(&mut self, create: UserCreate, now: i64) -> (r: DriverResult<User>)
        requires
            old(self).store().wf(),
        ensures
            final(self).store().wf(),
            (r, final(self).store()) == old(self).store().user_create(create, now),
    ;

    /// Changes a user.
    fn user_update(&mut self, update: UserUpdate, now: i64) -> (r: DriverResult<User>)
        requires
            old(self).store().wf(),
        ensures
            final(self).store().wf(),
            (r, final(self).store()) == old(self).store().user_update(update, now),
    ;

    /// Deletes a user, and with the user the user's keys.
    fn user_delete(&mut self, id: Id) -> (r: DriverResult<User>)
        requires
            old(self).store().wf(),
        ensures
            final(self).store().wf(),
            (r, final(self).store()) == old(self).store().user_delete(id),
    ;

    /// Creates a single-use entry. Fails with `CsrfKeyConflict` while an
    /// entry under the same key can still be read.
    fn csrf_create(&mut self, create: CsrfCreate, now: i64) -> (r: DriverResult<Csrf>)
        requires
            old(self).store().wf(),
        ensures
            final(self).store().wf(),
            (r, final(self).store()) == old(self).store().csrf_create(create, now),
    ;

    /// Reads the entry under `key` and deletes it, in one step.
    fn csrf_read(&mut self, key: &str, now: i64) -> (r: Option<Csrf>)
        requires
            old(self).store().wf(),
        ensures
            final(self).store().wf(),
            (r, final(self).store()) == old(self).store().csrf_consume(key@, now),
    ;

    /// Appends a record to the audit trail.
    fn audit_create(&mut self, create: AuditCreate, now: i64) -> (r: DriverResult<Audit>)
        requires
            old(self).store().wf(),
        ensures
            final(self).store().wf(),
            (r, final(self).store()) == old(self).store().audit_create(create, now),
    ;

    /// Lists a page of keys, without their values.
    fn key_list(&self, list: &KeyList) -> (r: Vec<Key>)
        requires
            self.store().wf(),
        ensures
            r@ == self.store().key_list(*list),
    ;

    /// Lists a page of users.
    fn user_list(&self, list: &UserList) -> (r: Vec<User>)
        requires
            self.store().wf(),
        ensures
            r@ == self.store().user_list(*list),
    ;

    /// Lists a page of the audit trail.
    fn audit_list(&self, list: &AuditList) -> (r: Vec<Audit>)
        requires
            self.store().wf(),
        ensures
            r@ == self.store().audit_list(*list),
    ;

    /// Reads one audit record.
    fn audit_read(&self, read: &AuditRead) -> (r: Option<Audit>)
        requires
            self.store().wf(),
        ensures
            r == self.store().audit_read(*read),
    ;

    /// Attaches a subject or data to an audit record.
    fn audit_update(&mut self, read: &AuditRead, update: AuditUpdate, now: i64) -> (r:
        DriverResult<Audit>)
        requires
            old(self).store().wf(),
        ensures
            final(self).store().wf(),
            (r, final(self).store()) == old(self).store().audit_update(*read, update, now),
    ;
}

} // verus!
