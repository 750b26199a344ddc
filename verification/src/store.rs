//! The mathematical model of the credential store: what it holds and how each
//! operation changes it.

use vstd::prelude::*;
use crate::audit::{Audit, AuditCreate, AuditList, AuditRead, AuditUpdate};
use crate::listing::hits;
use crate::error::DriverError;
use crate::model::{
    Csrf, CsrfCreate, Id, Key, KeyCreate, KeyList, KeyType, KeyUpdate, KeyWithValue, Service,
    ServiceCreate, User, UserCreate, UserList, UserUpdate,
};
use crate::text::{first_match, lemma_first_match};

verus! {

/// Everything the credential store holds.
pub struct Store {
    pub services: Seq<Service>,
    pub keys: Seq<KeyWithValue>,
    pub users: Seq<User>,
    /// The single-use entries that were created and not yet read.
    pub csrf: Seq<Csrf>,
    /// The audit trail, oldest record first.
    pub audit: Seq<Audit>,
    /// The identifier that the next new record gets.
    pub next_id: Id,
}

/// Accepts the service with an identifier.
pub open spec fn service_has_id(id: Id) -> spec_fn(Service) -> bool {
    |s: Service| s.id == id
}

/// Accepts the key with an identifier.
pub open spec fn key_has_id(id: Id) -> spec_fn(KeyWithValue) -> bool {
    |k: KeyWithValue| k.id == id
}

/// Accepts the key with a value.
pub open spec fn key_has_value(value: Seq<char>) -> spec_fn(KeyWithValue) -> bool {
    |k: KeyWithValue| k.value@ == value
}

/// Accepts the keys of one type that one user holds within one service;
/// with `usable_only`, only those that are enabled and not revoked.
pub open spec fn key_is_of_user(service_id: Id, user_id: Id, type_: KeyType, usable_only: bool)
    -> spec_fn(KeyWithValue) -> bool {
    |k: KeyWithValue|
        k.service_id == Some(service_id) && k.user_id == Some(user_id) && k.type_ == type_ && (
        usable_only ==> k.is_usable())
}

/// Accepts the user with an identifier.
pub open spec fn user_has_id(id: Id) -> spec_fn(User) -> bool {
    |u: User| u.id == id
}

/// Accepts the user with an email address.
pub open spec fn user_has_email(email: Seq<char>) -> spec_fn(User) -> bool {
    |u: User| u.email@ == email
}

/// Accepts the single-use entry under a key.
pub open spec fn csrf_has_key(key: Seq<char>) -> spec_fn(Csrf) -> bool {
    |c: Csrf| c.key@ == key
}

/// The first item of `s` that `p` accepts.
pub open spec fn pick<T>(s: Seq<T>, p: spec_fn(T) -> bool) -> Option<T> {
    match first_match(s, p) {
        Some(i) => Some(s[i]),
        None => None,
    }
}

/// The keys that remain when a user is deleted.
pub open spec fn keys_without_user(keys: Seq<KeyWithValue>, user_id: Id) -> Seq<KeyWithValue>
    decreases keys.len(),
{
    if keys.len() == 0 {
        keys
    } else if keys.last().user_id == Some(user_id) {
        keys_without_user(keys.drop_last(), user_id)
    } else {
        keys_without_user(keys.drop_last(), user_id).push(keys.last())
    }
}

impl KeyWithValue {
    /// The key that `create` asks for, under `id` at `now`.
    pub open spec fn created(create: KeyCreate, id: Id, now: i64) -> KeyWithValue {
        KeyWithValue {
            created_at: now,
            updated_at: now,
            id,
            is_enabled: create.is_enabled,
            is_revoked: create.is_revoked,
            type_: create.type_,
            name: create.name,
            value: create.value,
            service_id: create.service_id,
            user_id: create.user_id,
        }
    }

    /// The key after `update` at `now`. A revoked key stays revoked.
    pub open spec fn updated(self, update: KeyUpdate, now: i64) -> KeyWithValue {
        KeyWithValue {
            updated_at: now,
            is_enabled: match update.is_enabled {
                Some(b) => b,
                None => self.is_enabled,
            },
            is_revoked: self.is_revoked || update.is_revoked == Some(true),
            name: match update.name {
                Some(n) => n,
                None => self.name,
            },
            ..self
        }
    }
}

impl Service {
    /// The service that `create` asks for, under `id` at `now`.
    pub open spec fn created(create: ServiceCreate, id: Id, now: i64) -> Service {
        Service {
            created_at: now,
            updated_at: now,
            id,
            is_enabled: create.is_enabled,
            name: create.name,
            url: create.url,
            user_allow_register: create.user_allow_register,
            provider_microsoft_oauth2_url: create.provider_microsoft_oauth2_url,
        }
    }
}

impl User {
    /// The user that `create` asks for, under `id` at `now`.
    pub open spec fn created(create: UserCreate, id: Id, now: i64) -> User {
        User {
            created_at: now,
            updated_at: now,
            id,
            is_enabled: create.is_enabled,
            name: create.name,
            email: create.email,
            locale: create.locale,
            timezone: create.timezone,
            password_allow_reset: create.password_allow_reset,
            password_require_update: create.password_require_update,
            password_hash: create.password_hash,
        }
    }

    /// The user after `update` at `now`.
    pub open spec fn updated(self, update: UserUpdate, now: i64) -> User {
        User {
            created_at: self.created_at,
            updated_at: now,
            id: self.id,
            is_enabled: match update.is_enabled {
                Some(b) => b,
                None => self.is_enabled,
            },
            name: match update.name {
                Some(n) => n,
                None => self.name,
            },
            email: match update.email {
                Some(e) => e,
                None => self.email,
            },
            locale: match update.locale {
                Some(l) => Some(l),
                None => self.locale,
            },
            timezone: match update.timezone {
                Some(t) => Some(t),
                None => self.timezone,
            },
            password_allow_reset: match update.password_allow_reset {
                Some(b) => b,
                None => self.password_allow_reset,
            },
            password_require_update: match update.password_require_update {
                Some(b) => b,
                None => self.password_require_update,
            },
            password_hash: match update.password_hash {
                Some(h) => Some(h),
                None => self.password_hash,
            },
        }
    }
}

impl Csrf {
    /// The entry that `create` asks for at `now`.
    pub open spec fn created(create: CsrfCreate, now: i64) -> Csrf {
        Csrf {
            created_at: now,
            key: create.key,
            value: create.value,
            ttl: create.ttl,
            service_id: create.service_id,
        }
    }
}

impl Store {
    /// The invariant of the store: identifiers, key values, email addresses
    /// and single-use keys are unique, every identifier was handed out
    /// before `next_id`, and the audit trail is in the order of its identifiers.
    pub open spec fn wf(self) -> bool {
        &&& forall|i: int, j: int|
            #![trigger self.services[i], self.services[j]]
            0 <= i < j < self.services.len() ==> self.services[i].id != self.services[j].id
        &&& forall|i: int|
            0 <= i < self.services.len() ==> (#[trigger] self.services[i]).id < self.next_id
        &&& forall|i: int, j: int|
            #![trigger self.keys[i], self.keys[j]]
            0 <= i < j < self.keys.len() ==> self.keys[i].id != self.keys[j].id
                && self.keys[i].value@ != self.keys[j].value@
        &&& forall|i: int| 0 <= i < self.keys.len() ==> (#[trigger] self.keys[i]).id < self.next_id
        &&& forall|i: int, j: int|
            #![trigger self.users[i], self.users[j]]
            0 <= i < j < self.users.len() ==> self.users[i].id != self.users[j].id
                && self.users[i].email@ != self.users[j].email@
        &&& forall|i: int|
            0 <= i < self.users.len() ==> (#[trigger] self.users[i]).id < self.next_id
        &&& forall|i: int, j: int|
            #![trigger self.csrf[i], self.csrf[j]]
            0 <= i < j < self.csrf.len() ==> self.csrf[i].key@ != self.csrf[j].key@
        &&& forall|i: int, j: int|
            #![trigger self.audit[i], self.audit[j]]
            0 <= i < j < self.audit.len() ==> self.audit[i].id < self.audit[j].id
        &&& forall|i: int|
            0 <= i < self.audit.len() ==> (#[trigger] self.audit[i]).id < self.next_id
    }

    /// The store that holds nothing.
    pub open spec fn empty() -> Store {
        Store {
            services: Seq::empty(),
            keys: Seq::empty(),
            users: Seq::empty(),
            csrf: Seq::empty(),
            audit: Seq::empty(),
            next_id: 1,
        }
    }

    /// The service with an identifier.
    pub open spec fn service(self, id: Id) -> Option<Service> {
        pick(self.services, service_has_id(id))
    }

    /// The key with an identifier.
    pub open spec fn key_by_id(self, id: Id) -> Option<KeyWithValue> {
        pick(self.keys, key_has_id(id))
    }

    /// The key with a value.
    pub open spec fn key_by_value(self, value: Seq<char>) -> Option<KeyWithValue> {
        pick(self.keys, key_has_value(value))
    }

    /// The oldest key of one type that a user holds within a service.
    pub open spec fn key_of_user(
        self,
        service_id: Id,
        user_id: Id,
        type_: KeyType,
        usable_only: bool,
    ) -> Option<KeyWithValue> {
        pick(self.keys, key_is_of_user(service_id, user_id, type_, usable_only))
    }

    /// The user with an identifier.
    pub open spec fn user_by_id(self, id: Id) -> Option<User> {
        pick(self.users, user_has_id(id))
    }

    /// The user with an email address.
    pub open spec fn user_by_email(self, email: Seq<char>) -> Option<User> {
        pick(self.users, user_has_email(email))
    }

    /// The single-use entry under `key`, expired or not.
    pub open spec fn csrf_entry(self, key: Seq<char>) -> Option<Csrf> {
        pick(self.csrf, csrf_has_key(key))
    }

    /// The single-use entry under `key` that can still be read at `now`.
    pub open spec fn csrf_live(self, key: Seq<char>, now: i64) -> Option<Csrf> {
        match self.csrf_entry(key) {
            Some(c) => if c.expired_at(now) {
                None
            } else {
                Some(c)
            },
            None => None,
        }
    }

    /// The store without the single-use entry under `key`.
    pub open spec fn without_csrf(self, key: Seq<char>) -> Store {
        match first_match(self.csrf, csrf_has_key(key)) {
            Some(i) => Store { csrf: self.csrf.remove(i), ..self },
            None => self,
        }
    }

    /// Creating a single-use entry: refused while an entry under the same key
    /// can still be read; an expired one is replaced.
    pub open spec fn csrf_create(self, create: CsrfCreate, now: i64) -> (
        Result<Csrf, DriverError>,
        Store,
    ) {
        if self.csrf_live(create.key@, now) is Some {
            (Err(DriverError::CsrfKeyConflict), self)
        } else {
            let entry = Csrf::created(create, now);
            let rest = self.without_csrf(create.key@);
            (Ok(entry), Store { csrf: rest.csrf.push(entry), ..rest })
        }
    }

    /// Reading a single-use entry: the entry leaves the store, and is handed
    /// out unless it has expired.
    pub open spec fn csrf_consume(self, key: Seq<char>, now: i64) -> (Option<Csrf>, Store) {
        (self.csrf_live(key, now), self.without_csrf(key))
    }

    /// Creating a service: it gets the next identifier.
    pub open spec fn service_create(self, create: ServiceCreate, now: i64) -> (
        Result<Service, DriverError>,
        Store,
    ) {
        if self.next_id == Id::MAX {
            (Err(DriverError::IdExhausted), self)
        } else {
            let s = Service::created(create, self.next_id, now);
            (
                Ok(s),
                Store { services: self.services.push(s), next_id: (self.next_id + 1) as Id, ..self },
            )
        }
    }

    /// Creating a key: refused where another key has the value.
    pub open spec fn key_create(self, create: KeyCreate, now: i64) -> (
        Result<KeyWithValue, DriverError>,
        Store,
    ) {
        if self.key_by_value(create.value@) is Some {
            (Err(DriverError::KeyValueConflict), self)
        } else if self.next_id == Id::MAX {
            (Err(DriverError::IdExhausted), self)
        } else {
            let k = KeyWithValue::created(create, self.next_id, now);
            (Ok(k), Store { keys: self.keys.push(k), next_id: (self.next_id + 1) as Id, ..self })
        }
    }

    /// Changing a key: refused where there is no such key.
    pub open spec fn key_update(self, id: Id, update: KeyUpdate, now: i64) -> (
        Result<KeyWithValue, DriverError>,
        Store,
    ) {
        match first_match(self.keys, key_has_id(id)) {
            Some(i) => {
                let k = self.keys[i].updated(update, now);
                (Ok(k), Store { keys: self.keys.update(i, k), ..self })
            },
            None => (Err(DriverError::KeyNotFound), self),
        }
    }

    /// Deleting a key: refused where there is no such key.
    pub open spec fn key_delete(self, id: Id) -> (Result<KeyWithValue, DriverError>, Store) {
        match first_match(self.keys, key_has_id(id)) {
            Some(i) => (Ok(self.keys[i]), Store { keys: self.keys.remove(i), ..self }),
            None => (Err(DriverError::KeyNotFound), self),
        }
    }

    /// Creating a user: refused where another user has the email address.
    pub open spec fn user_create(self, create: UserCreate, now: i64) -> (
        Result<User, DriverError>,
        Store,
    ) {
        if self.user_by_email(create.email@) is Some {
            (Err(DriverError::UserEmailConflict), self)
        } else if self.next_id == Id::MAX {
            (Err(DriverError::IdExhausted), self)
        } else {
            let u = User::created(create, self.next_id, now);
            (Ok(u), Store { users: self.users.push(u), next_id: (self.next_id + 1) as Id, ..self })
        }
    }

    /// Changing a user: refused when there is no such user, or when the new
    /// email address belongs to another user.
    pub open spec fn user_update(self, update: UserUpdate, now: i64) -> (
        Result<User, DriverError>,
        Store,
    ) {
        match first_match(self.users, user_has_id(update.id)) {
            Some(i) => {
                if update.email matches Some(e) && self.user_by_email(e@) matches Some(other)
                    && other.id != update.id {
                    (Err(DriverError::UserEmailConflict), self)
                } else {
                    let u = self.users[i].updated(update, now);
                    (Ok(u), Store { users: self.users.update(i, u), ..self })
                }
            },
            None => (Err(DriverError::UserNotFound), self),
        }
    }

    /// Deleting a user takes the user's keys along.
    pub open spec fn user_delete(self, id: Id) -> (Result<User, DriverError>, Store) {
        match first_match(self.users, user_has_id(id)) {
            Some(i) => (
                Ok(self.users[i]),
                Store {
                    users: self.users.remove(i),
                    keys: keys_without_user(self.keys, id),
                    ..self
                },
            ),
            None => (Err(DriverError::UserNotFound), self),
        }
    }

    /// Appending to the audit trail.
    pub open spec fn audit_create(self, create: AuditCreate, now: i64) -> (
        Result<Audit, DriverError>,
        Store,
    ) {
        if self.next_id == Id::MAX {
            (Err(DriverError::IdExhausted), self)
        } else {
            let a = create.record(self.next_id, now);
            (Ok(a), Store { audit: self.audit.push(a), next_id: (self.next_id + 1) as Id, ..self })
        }
    }
}

/// Every key that survives the deletion of a user was there before, with the
/// order of the survivors unchanged.
pub proof fn lemma_keys_without_user(keys: Seq<KeyWithValue>, user_id: Id)
    ensures
        keys_without_user(keys, user_id).len() <= keys.len(),
        forall|a: int|
            0 <= a < keys_without_user(keys, user_id).len() ==> (#[trigger] keys_without_user(
                keys,
                user_id,
            )[a]).user_id != Some(user_id),
        forall|a: int, b: int|
            #![trigger keys_without_user(keys, user_id)[a], keys_without_user(keys, user_id)[b]]
            0 <= a < b < keys_without_user(keys, user_id).len() ==> exists|c: int, d: int|
                0 <= c < d < keys.len() && keys[c] == keys_without_user(keys, user_id)[a] && keys[d]
                    == keys_without_user(keys, user_id)[b],
        forall|a: int|
            0 <= a < keys_without_user(keys, user_id).len() ==> exists|c: int|
                0 <= c < keys.len() && keys[c] == #[trigger] keys_without_user(keys, user_id)[a],
    decreases keys.len(),
{
    if keys.len() == 0 {
    } else {
        let rest = keys.drop_last();
        lemma_keys_without_user(rest, user_id);
        let out = keys_without_user(keys, user_id);
        let out_rest = keys_without_user(rest, user_id);
        assert forall|a: int| 0 <= a < out.len() implies exists|c: int|
            0 <= c < keys.len() && keys[c] == #[trigger] out[a] by {
            if a < out_rest.len() {
                let c = choose|c: int| 0 <= c < rest.len() && rest[c] == out_rest[a];
                assert(keys[c] == out[a]);
            } else {
                assert(keys[keys.len() - 1] == out[a]);
            }
        }
        assert forall|a: int, b: int| 0 <= a < b < out.len() implies exists|c: int, d: int|
            0 <= c < d < keys.len() && keys[c] == #[trigger] out[a] && keys[d] == #[trigger] out[b] by {
            if b < out_rest.len() {
                let (c, d) = choose|c: int, d: int|
                    0 <= c < d < rest.len() && rest[c] == out_rest[a] && rest[d] == out_rest[b];
                assert(keys[c] == out[a] && keys[d] == out[b]);
            } else {
                let c = choose|c: int| 0 <= c < rest.len() && rest[c] == out_rest[a];
                assert(keys[c] == out[a] && keys[keys.len() - 1] == out[b]);
            }
        }
    }
}

impl Store {
    /// Creating a service keeps the store valid.
    pub proof fn lemma_service_create_wf(self, create: ServiceCreate, now: i64)
        requires
            self.wf(),
        ensures
            self.service_create(create, now).1.wf(),
    {
    }

    /// Creating a key keeps the store valid.
    pub proof fn lemma_key_create_wf(self, create: KeyCreate, now: i64)
        requires
            self.wf(),
        ensures
            self.key_create(create, now).1.wf(),
    {
        lemma_first_match(self.keys, key_has_value(create.value@));
    }

    /// Changing a key keeps the store valid.
    pub proof fn lemma_key_update_wf(self, id: Id, update: KeyUpdate, now: i64)
        requires
            self.wf(),
        ensures
            self.key_update(id, update, now).1.wf(),
    {
        lemma_first_match(self.keys, key_has_id(id));
    }

    /// Deleting a key keeps the store valid.
    pub proof fn lemma_key_delete_wf(self, id: Id)
        requires
            self.wf(),
        ensures
            self.key_delete(id).1.wf(),
    {
        lemma_first_match(self.keys, key_has_id(id));
    }

    /// Creating a user keeps the store valid.
    pub proof fn lemma_user_create_wf(self, create: UserCreate, now: i64)
        requires
            self.wf(),
        ensures
            self.user_create(create, now).1.wf(),
    {
        lemma_first_match(self.users, user_has_email(create.email@));
    }

    /// Changing a user keeps the store valid.
    pub proof fn lemma_user_update_wf(self, update: UserUpdate, now: i64)
        requires
            self.wf(),
        ensures
            self.user_update(update, now).1.wf(),
    {
        lemma_first_match(self.users, user_has_id(update.id));
        if let Some(e) = update.email {
            lemma_first_match(self.users, user_has_email(e@));
        }
    }

    /// Deleting a user keeps the store valid.
    pub proof fn lemma_user_delete_wf(self, id: Id)
        requires
            self.wf(),
        ensures
            self.user_delete(id).1.wf(),
    {
        lemma_first_match(self.users, user_has_id(id));
        lemma_keys_without_user(self.keys, id);
        let after = self.user_delete(id).1;
        if first_match(self.users, user_has_id(id)) is Some {
            assert forall|a: int, b: int| 0 <= a < b < after.keys.len() implies (#[trigger] after.keys[a]).id
                != (#[trigger] after.keys[b]).id && after.keys[a].value@ != after.keys[b].value@ by {
                let (c, d) = choose|c: int, d: int|
                    0 <= c < d < self.keys.len() && self.keys[c] == after.keys[a] && self.keys[d]
                        == after.keys[b];
            }
            assert forall|a: int| 0 <= a < after.keys.len() implies (#[trigger] after.keys[a]).id
                < after.next_id by {
                let c = choose|c: int| 0 <= c < self.keys.len() && self.keys[c] == after.keys[a];
            }
        }
    }

    /// Taking a single-use entry out keeps the store valid.
    pub proof fn lemma_without_csrf_wf(self, key: Seq<char>)
        requires
            self.wf(),
        ensures
            self.without_csrf(key).wf(),
            self.without_csrf(key).csrf_entry(key) is None,
    {
        lemma_first_match(self.csrf, csrf_has_key(key));
        let after = self.without_csrf(key);
        lemma_first_match(after.csrf, csrf_has_key(key));
        if let Some(i) = first_match(self.csrf, csrf_has_key(key)) {
            if let Some(j) = first_match(after.csrf, csrf_has_key(key)) {
                if j < i {
                    assert(after.csrf[j] == self.csrf[j]);
                } else {
                    assert(after.csrf[j] == self.csrf[j + 1]);
                }
            }
        }
    }

    /// Creating a single-use entry keeps the store valid.
    pub proof fn lemma_csrf_create_wf(self, create: CsrfCreate, now: i64)
        requires
            self.wf(),
        ensures
            self.csrf_create(create, now).1.wf(),
    {
        self.lemma_without_csrf_wf(create.key@);
        let rest = self.without_csrf(create.key@);
        lemma_first_match(rest.csrf, csrf_has_key(create.key@));
    }

    /// Reading a single-use entry keeps the store valid.
    pub proof fn lemma_csrf_consume_wf(self, key: Seq<char>, now: i64)
        requires
            self.wf(),
        ensures
            self.csrf_consume(key, now).1.wf(),
    {
        self.lemma_without_csrf_wf(key);
    }

    /// Appending to the audit trail keeps the store valid.
    pub proof fn lemma_audit_create_wf(self, create: AuditCreate, now: i64)
        requires
            self.wf(),
        ensures
            self.audit_create(create, now).1.wf(),
    {
    }
}

impl Store {
    /// A user that was changed is found under its identifier as changed.
    pub proof fn lemma_user_update_reads_back(self, update: UserUpdate, now: i64)
        requires
            self.wf(),
            self.user_update(update, now).0 is Ok,
        ensures
            self.user_update(update, now).1.user_by_id(update.id) == Some(
                self.user_update(update, now).0->Ok_0,
            ),
    {
        let after = self.user_update(update, now).1;
        lemma_first_match(self.users, user_has_id(update.id));
        lemma_first_match(after.users, user_has_id(update.id));
        let i = first_match(self.users, user_has_id(update.id))->0;
        assert(user_has_id(update.id)(after.users[i]));
        if let Some(j) = first_match(after.users, user_has_id(update.id)) {
            if j != i {
                assert(after.users[j] == self.users[j]);
            }
        }
    }
}

/// Accepts the audit records that a read may see.
pub open spec fn audit_is_seen(read: AuditRead) -> spec_fn(Audit) -> bool {
    |a: Audit| read.sees(a)
}

impl Store {
    /// Which keys a listing keeps, position by position.
    pub open spec fn key_mask(self, list: KeyList) -> Seq<bool> {
        Seq::new(self.keys.len(), |i: int| list.keeps(self.keys[i]))
    }

    /// A page of keys, without their values.
    pub open spec fn key_list(self, list: KeyList) -> Seq<Key> {
        let at = hits(self.key_mask(list), list.query.limit(), list.query.newest_first());
        Seq::new(at.len(), |k: int| self.keys[at[k]].public())
    }

    /// Which users a listing keeps, position by position.
    pub open spec fn user_mask(self, list: UserList) -> Seq<bool> {
        Seq::new(self.users.len(), |i: int| list.keeps(self.users[i]))
    }

    /// A page of users.
    pub open spec fn user_list(self, list: UserList) -> Seq<User> {
        let at = hits(self.user_mask(list), list.query.limit(), list.query.newest_first());
        Seq::new(at.len(), |k: int| self.users[at[k]])
    }

    /// Which audit records a listing keeps, position by position.
    pub open spec fn audit_mask(self, list: AuditList) -> Seq<bool> {
        Seq::new(self.audit.len(), |i: int| list.keeps(self.audit[i]))
    }

    /// A page of the audit trail.
    pub open spec fn audit_list(self, list: AuditList) -> Seq<Audit> {
        let at = hits(self.audit_mask(list), list.query.limit(), list.query.newest_first());
        Seq::new(at.len(), |k: int| self.audit[at[k]])
    }

    /// The audit record that a read asks for, if the read may see it.
    pub open spec fn audit_read(self, read: AuditRead) -> Option<Audit> {
        pick(self.audit, audit_is_seen(read))
    }

    /// Attaching a subject or data to an audit record that the read may see.
    pub open spec fn audit_update(self, read: AuditRead, update: AuditUpdate, now: i64) -> (
        Result<Audit, DriverError>,
        Store,
    ) {
        match first_match(self.audit, audit_is_seen(read)) {
            Some(i) => {
                let a = self.audit[i].updated(update, now);
                (Ok(a), Store { audit: self.audit.update(i, a), ..self })
            },
            None => (Err(DriverError::AuditNotFound), self),
        }
    }

    /// Changing an audit record keeps the store valid.
    pub proof fn lemma_audit_update_wf(self, read: AuditRead, update: AuditUpdate, now: i64)
        requires
            self.wf(),
        ensures
            self.audit_update(read, update, now).1.wf(),
    {
        lemma_first_match(self.audit, audit_is_seen(read));
    }
}

} // verus!
