//! A credential store kept in memory.

use vstd::prelude::*;
use crate::audit::{Audit, AuditCreate, AuditList, AuditRead, AuditUpdate};
use crate::listing::{as_positions, hits, select};
use crate::driver::Driver;
use crate::error::{DriverError, DriverResult};
use crate::model::{
    Csrf, CsrfCreate, Id, Key, KeyCreate, KeyList, KeyType, KeyUpdate, KeyWithValue, Service,
    ServiceCreate, User, UserCreate, UserList, UserUpdate,
};
use crate::store::{
    audit_is_seen, csrf_has_key, key_has_id, key_has_value, key_is_of_user, keys_without_user,
    service_has_id, user_has_email, user_has_id, Store,
};
use crate::text::{first_match, lemma_first_match, lemma_first_match_is, lemma_first_match_none, str_eq};

verus! {

/// The credential store as plain vectors, each in the order of creation.
pub struct MemoryDriver {
    services: Vec<Service>,
    keys: Vec<KeyWithValue>,
    users: Vec<User>,
    csrf: Vec<Csrf>,
    audit: Vec<Audit>,
    next_id: Id,
}

impl MemoryDriver {
    /// A store that holds nothing.
    pub fn new() -> (r: Self)
        ensures
            r.store() == Store::empty(),
            r.store().wf(),
    {
        let r = MemoryDriver {
            services: Vec::new(),
            keys: Vec::new(),
            users: Vec::new(),
            csrf: Vec::new(),
            audit: Vec::new(),
            next_id: 1,
        };
        assert(r.store().services =~= Seq::empty());
        assert(r.store().keys =~= Seq::empty());
        assert(r.store().users =~= Seq::empty());
        assert(r.store().csrf =~= Seq::empty());
        assert(r.store().audit =~= Seq::empty());
        r
    }

    /// A store that holds nothing and hands out identifiers from `next_id` on.
    pub fn starting_at(next_id: Id) -> (r: Self)
        ensures
            r.store() == (Store { next_id, ..Store::empty() }),
            r.store().wf(),
    {
        let r = MemoryDriver {
            services: Vec::new(),
            keys: Vec::new(),
            users: Vec::new(),
            csrf: Vec::new(),
            audit: Vec::new(),
            next_id,
        };
        assert(r.store().services =~= Seq::empty());
        assert(r.store().keys =~= Seq::empty());
        assert(r.store().users =~= Seq::empty());
        assert(r.store().csrf =~= Seq::empty());
        assert(r.store().audit =~= Seq::empty());
        r
    }

    fn find_service(&self, id: Id) -> (r: Option<usize>)
        ensures
            r matches Some(i) ==> first_match(self.services@, service_has_id(id)) == Some(i as int)
                && i < self.services.len(),
            r is None ==> first_match(self.services@, service_has_id(id)) is None,
    {
        let mut i: usize = 0;
        while i < self.services.len()
            invariant
                i <= self.services.len(),
                forall|j: int| 0 <= j < i ==> !service_has_id(id)(#[trigger] self.services@[j]),
            decreases self.services.len() - i,
        {
            if self.services[i].id == id {
                proof {
                    lemma_first_match_is(self.services@, service_has_id(id), i as int);
                }
                return Some(i);
            }
            i += 1;
        }
        proof {
            lemma_first_match_none(self.services@, service_has_id(id));
        }
        None
    }

    fn find_key_id(&self, id: Id) -> (r: Option<usize>)
        ensures
            r matches Some(i) ==> first_match(self.keys@, key_has_id(id)) == Some(i as int) && i
                < self.keys.len(),
            r is None ==> first_match(self.keys@, key_has_id(id)) is None,
    {
        let mut i: usize = 0;
        while i < self.keys.len()
            invariant
                i <= self.keys.len(),
                forall|j: int| 0 <= j < i ==> !key_has_id(id)(#[trigger] self.keys@[j]),
            decreases self.keys.len() - i,
        {
            if self.keys[i].id == id {
                proof {
                    lemma_first_match_is(self.keys@, key_has_id(id), i as int);
                }
                return Some(i);
            }
            i += 1;
        }
        proof {
            lemma_first_match_none(self.keys@, key_has_id(id));
        }
        None
    }

    fn find_key_value(&self, value: &str) -> (r: Option<usize>)
        ensures
            r matches Some(i) ==> first_match(self.keys@, key_has_value(value@)) == Some(i as int)
                && i < self.keys.len(),
            r is None ==> first_match(self.keys@, key_has_value(value@)) is None,
    {
        let mut i: usize = 0;
        while i < self.keys.len()
            invariant
                i <= self.keys.len(),
                forall|j: int| 0 <= j < i ==> !key_has_value(value@)(#[trigger] self.keys@[j]),
            decreases self.keys.len() - i,
        {
            if str_eq(self.keys[i].value.as_str(), value) {
                proof {
                    lemma_first_match_is(self.keys@, key_has_value(value@), i as int);
                }
                return Some(i);
            }
            i += 1;
        }
        proof {
            lemma_first_match_none(self.keys@, key_has_value(value@));
        }
        None
    }

    fn find_key_user(&self, service_id: Id, user_id: Id, type_: KeyType, usable_only: bool) -> (r:
        Option<usize>)
        ensures
            r matches Some(i) ==> first_match(
                self.keys@,
                key_is_of_user(service_id, user_id, type_, usable_only),
            ) == Some(i as int) && i < self.keys.len(),
            r is None ==> first_match(
                self.keys@,
                key_is_of_user(service_id, user_id, type_, usable_only),
            ) is None,
    {
        let ghost p = key_is_of_user(service_id, user_id, type_, usable_only);
        let mut i: usize = 0;
        while i < self.keys.len()
            invariant
                i <= self.keys.len(),
                p == key_is_of_user(service_id, user_id, type_, usable_only),
                forall|j: int| 0 <= j < i ==> !p(#[trigger] self.keys@[j]),
            decreases self.keys.len() - i,
        {
            let k = &self.keys[i];
            if k.service_id == Some(service_id) && k.user_id == Some(user_id) && k.type_ == type_
                && (!usable_only || (k.is_enabled && !k.is_revoked)) {
                proof {
                    lemma_first_match_is(self.keys@, p, i as int);
                }
                return Some(i);
            }
            i += 1;
        }
        proof {
            lemma_first_match_none(self.keys@, p);
        }
        None
    }

    fn find_user_id(&self, id: Id) -> (r: Option<usize>)
        ensures
            r matches Some(i) ==> first_match(self.users@, user_has_id(id)) == Some(i as int) && i
                < self.users.len(),
            r is None ==> first_match(self.users@, user_has_id(id)) is None,
    {
        let mut i: usize = 0;
        while i < self.users.len()
            invariant
                i <= self.users.len(),
                forall|j: int| 0 <= j < i ==> !user_has_id(id)(#[trigger] self.users@[j]),
            decreases self.users.len() - i,
        {
            if self.users[i].id == id {
                proof {
                    lemma_first_match_is(self.users@, user_has_id(id), i as int);
                }
                return Some(i);
            }
            i += 1;
        }
        proof {
            lemma_first_match_none(self.users@, user_has_id(id));
        }
        None
    }

    fn find_user_email(&self, email: &str) -> (r: Option<usize>)
        ensures
            r matches Some(i) ==> first_match(self.users@, user_has_email(email@)) == Some(
                i as int,
            ) && i < self.users.len(),
            r is None ==> first_match(self.users@, user_has_email(email@)) is None,
    {
        let mut i: usize = 0;
        while i < self.users.len()
            invariant
                i <= self.users.len(),
                forall|j: int| 0 <= j < i ==> !user_has_email(email@)(#[trigger] self.users@[j]),
            decreases self.users.len() - i,
        {
            if str_eq(self.users[i].email.as_str(), email) {
                proof {
                    lemma_first_match_is(self.users@, user_has_email(email@), i as int);
                }
                return Some(i);
            }
            i += 1;
        }
        proof {
            lemma_first_match_none(self.users@, user_has_email(email@));
        }
        None
    }

    fn find_csrf(&self, key: &str) -> (r: Option<usize>)
        ensures
            r matches Some(i) ==> first_match(self.csrf@, csrf_has_key(key@)) == Some(i as int)
                && i < self.csrf.len(),
            r is None ==> first_match(self.csrf@, csrf_has_key(key@)) is None,
    {
        let mut i: usize = 0;
        while i < self.csrf.len()
            invariant
                i <= self.csrf.len(),
                forall|j: int| 0 <= j < i ==> !csrf_has_key(key@)(#[trigger] self.csrf@[j]),
            decreases self.csrf.len() - i,
        {
            if str_eq(self.csrf[i].key.as_str(), key) {
                proof {
                    lemma_first_match_is(self.csrf@, csrf_has_key(key@), i as int);
                }
                return Some(i);
            }
            i += 1;
        }
        proof {
            lemma_first_match_none(self.csrf@, csrf_has_key(key@));
        }
        None
    }
}

impl MemoryDriver {
    fn find_audit(&self, read: &AuditRead) -> (r: Option<usize>)
        ensures
            r matches Some(i) ==> first_match(self.audit@, audit_is_seen(*read)) == Some(i as int)
                && i < self.audit.len(),
            r is None ==> first_match(self.audit@, audit_is_seen(*read)) is None,
    {
        let mut i: usize = 0;
        while i < self.audit.len()
            invariant
                i <= self.audit.len(),
                forall|j: int| 0 <= j < i ==> !audit_is_seen(*read)(#[trigger] self.audit@[j]),
            decreases self.audit.len() - i,
        {
            let a = &self.audit[i];
            if a.id == read.id && crate::listing::is_mask_admitted(
                read.service_id_mask,
                a.service_id,
            ) {
                proof {
                    lemma_first_match_is(self.audit@, audit_is_seen(*read), i as int);
                }
                return Some(i);
            }
            i += 1;
        }
        proof {
            lemma_first_match_none(self.audit@, audit_is_seen(*read));
        }
        None
    }
}

impl Driver for MemoryDriver {
    closed spec fn store(&self) -> Store {
        Store {
            services: self.services@,
            keys: self.keys@,
            users: self.users@,
            csrf: self.csrf@,
            audit: self.audit@,
            next_id: self.next_id,
        }
    }

    fn service_read(&self, id: Id) -> (r: Option<Service>) {
        match self.find_service(id) {
            Some(i) => Some(self.services[i].clone()),
            None => None,
        }
    }

    fn service_create(&mut self, create: ServiceCreate, now: i64) -> (r: DriverResult<Service>) {
        if self.next_id == Id::MAX {
            return Err(DriverError::IdExhausted);
        }
        let s = Service {
            created_at: now,
            updated_at: now,
            id: self.next_id,
            is_enabled: create.is_enabled,
            name: create.name,
            url: create.url,
            user_allow_register: create.user_allow_register,
            provider_microsoft_oauth2_url: create.provider_microsoft_oauth2_url,
        };
        let r = s.clone();
        self.services.push(s);
        self.next_id = self.next_id + 1;
        proof {
            old(self).store().lemma_service_create_wf(create, now);
        }
        Ok(r)
    }

    fn key_read_id(&self, id: Id) -> (r: Option<KeyWithValue>) {
        match self.find_key_id(id) {
            Some(i) => Some(self.keys[i].clone()),
            None => None,
        }
    }

    fn key_read_value(&self, value: &str) -> (r: Option<KeyWithValue>) {
        match self.find_key_value(value) {
            Some(i) => Some(self.keys[i].clone()),
            None => None,
        }
    }

    fn key_read_user(&self, service_id: Id, user_id: Id, type_: KeyType, usable_only: bool) -> (r:
        Option<KeyWithValue>) {
        match self.find_key_user(service_id, user_id, type_, usable_only) {
            Some(i) => Some(self.keys[i].clone()),
            None => None,
        }
    }

    fn key_create(&mut self, create: KeyCreate, now: i64) -> (r: DriverResult<KeyWithValue>) {
        if self.find_key_value(create.value.as_str()).is_some() {
            return Err(DriverError::KeyValueConflict);
        }
        if self.next_id == Id::MAX {
            return Err(DriverError::IdExhausted);
        }
        proof {
            lemma_first_match(self.keys@, key_has_value(create.value@));
        }
        let k = KeyWithValue {
            created_at: now,
            updated_at: now,
            id: self.next_id,
            is_enabled: create.is_enabled,
            is_revoked: create.is_revoked,
            type_: create.type_,
            name: create.name,
            value: create.value,
            service_id: create.service_id,
            user_id: create.user_id,
        };
        let r = k.clone();
        self.keys.push(k);
        self.next_id = self.next_id + 1;
        proof {
            old(self).store().lemma_key_create_wf(create, now);
        }
        Ok(r)
    }

    fn key_update(&mut self, id: Id, update: KeyUpdate, now: i64) -> (r: DriverResult<
        KeyWithValue,
    >) {
        match self.find_key_id(id) {
            Some(i) => {
                proof {
                    lemma_first_match(self.keys@, key_has_id(id));
                }
                let old_key = self.keys[i].clone();
                let k = KeyWithValue {
                    created_at: old_key.created_at,
                    updated_at: now,
                    id: old_key.id,
                    is_enabled: match update.is_enabled {
                        Some(b) => b,
                        None => old_key.is_enabled,
                    },
                    is_revoked: old_key.is_revoked || update.is_revoked == Some(true),
                    type_: old_key.type_,
                    name: match update.name {
                        Some(n) => n,
                        None => old_key.name,
                    },
                    value: old_key.value,
                    service_id: old_key.service_id,
                    user_id: old_key.user_id,
                };
                let r = k.clone();
                self.keys.set(i, k);
                proof {
                    old(self).store().lemma_key_update_wf(id, update, now);
                }
                Ok(r)
            },
            None => Err(DriverError::KeyNotFound),
        }
    }

    fn key_delete(&mut self, id: Id) -> (r: DriverResult<KeyWithValue>) {
        match self.find_key_id(id) {
            Some(i) => {
                let k = self.keys.remove(i);
                proof {
                    old(self).store().lemma_key_delete_wf(id);
                }
                Ok(k)
            },
            None => Err(DriverError::KeyNotFound),
        }
    }

    fn user_read_id(&self, id: Id) -> (r: Option<User>) {
        match self.find_user_id(id) {
            Some(i) => Some(self.users[i].clone()),
            None => None,
        }
    }

    fn user_read_email(&self, email: &str) -> (r: Option<User>) {
        match self.find_user_email(email) {
            Some(i) => Some(self.users[i].clone()),
            None => None,
        }
    }

    fn user_create(&mut self, create: UserCreate, now: i64) -> (r: DriverResult<User>) {
        if self.find_user_email(create.email.as_str()).is_some() {
            return Err(DriverError::UserEmailConflict);
        }
        if self.next_id == Id::MAX {
            return Err(DriverError::IdExhausted);
        }
        proof {
            lemma_first_match(self.users@, user_has_email(create.email@));
        }
        let u = User {
            created_at: now,
            updated_at: now,
            id: self.next_id,
            is_enabled: create.is_enabled,
            name: create.name,
            email: create.email,
            locale: create.locale,
            timezone: create.timezone,
            password_allow_reset: create.password_allow_reset,
            password_require_update: create.password_require_update,
            password_hash: create.password_hash,
        };
        let r = u.clone();
        self.users.push(u);
        self.next_id = self.next_id + 1;
        proof {
            old(self).store().lemma_user_create_wf(create, now);
        }
        Ok(r)
    }

    fn user_update(&mut self, update: UserUpdate, now: i64) -> (r: DriverResult<User>) {
        match self.find_user_id(update.id) {
            Some(i) => {
                proof {
                    lemma_first_match(self.users@, user_has_id(update.id));
                }
                if let Some(e) = &update.email {
                    if let Some(j) = self.find_user_email(e.as_str()) {
                        if self.users[j].id != update.id {
                            return Err(DriverError::UserEmailConflict);
                        }
                    }
                    proof {
                        lemma_first_match(self.users@, user_has_email(e@));
                    }
                }
                let old_user = self.users[i].clone();
                let u = User {
                    created_at: old_user.created_at,
                    updated_at: now,
                    id: old_user.id,
                    is_enabled: match update.is_enabled {
                        Some(b) => b,
                        None => old_user.is_enabled,
                    },
                    name: match update.name {
                        Some(n) => n,
                        None => old_user.name,
                    },
                    email: match update.email {
                        Some(e) => e,
                        None => old_user.email,
                    },
                    locale: match update.locale {
                        Some(l) => Some(l),
                        None => old_user.locale,
                    },
                    timezone: match update.timezone {
                        Some(t) => Some(t),
                        None => old_user.timezone,
                    },
                    password_allow_reset: match update.password_allow_reset {
                        Some(b) => b,
                        None => old_user.password_allow_reset,
                    },
                    password_require_update: match update.password_require_update {
                        Some(b) => b,
                        None => old_user.password_require_update,
                    },
                    password_hash: match update.password_hash {
                        Some(h) => Some(h),
                        None => old_user.password_hash,
                    },
                };
                let r = u.clone();
                self.users.set(i, u);
                proof {
                    old(self).store().lemma_user_update_wf(update, now);
                }
                Ok(r)
            },
            None => Err(DriverError::UserNotFound),
        }
    }

    fn user_delete(&mut self, id: Id) -> (r: DriverResult<User>) {
        match self.find_user_id(id) {
            Some(i) => {
                let u = self.users.remove(i);
                let ghost before = self.keys@;
                let mut kept: Vec<KeyWithValue> = Vec::new();
                let mut n: usize = 0;
                while n < self.keys.len()
                    invariant
                        n <= self.keys.len(),
                        self.keys@ == before,
                        kept@ == keys_without_user(before.take(n as int), id),
                    decreases self.keys.len() - n,
                {
                    proof {
                        assert(before.take(n as int + 1).drop_last() =~= before.take(n as int));
                        assert(before.take(n as int + 1).last() == before[n as int]);
                    }
                    if self.keys[n].user_id != Some(id) {
                        let k = self.keys[n].clone();
                        kept.push(k);
                    }
                    n += 1;
                }
                proof {
                    assert(before.take(n as int) =~= before);
                    old(self).store().lemma_user_delete_wf(id);
                }
                self.keys = kept;
                Ok(u)
            },
            None => Err(DriverError::UserNotFound),
        }
    }

    fn csrf_create(&mut self, create: CsrfCreate, now: i64) -> (r: DriverResult<Csrf>) {
        let found = self.find_csrf(create.key.as_str());
        proof {
            lemma_first_match(self.csrf@, csrf_has_key(create.key@));
        }
        if let Some(i) = found {
            if !self.csrf[i].is_expired(now) {
                return Err(DriverError::CsrfKeyConflict);
            }
            self.csrf.remove(i);
        }
        let c = Csrf {
            created_at: now,
            key: create.key,
            value: create.value,
            ttl: create.ttl,
            service_id: create.service_id,
        };
        let r = c.clone();
        self.csrf.push(c);
        proof {
            old(self).store().lemma_csrf_create_wf(create, now);
        }
        Ok(r)
    }

    fn csrf_read(&mut self, key: &str, now: i64) -> (r: Option<Csrf>) {
        proof {
            old(self).store().lemma_csrf_consume_wf(key@, now);
        }
        match self.find_csrf(key) {
            Some(i) => {
                let c = self.csrf.remove(i);
                if c.is_expired(now) {
                    None
                } else {
                    Some(c)
                }
            },
            None => None,
        }
    }

    fn audit_create(&mut self, create: AuditCreate, now: i64) -> (r: DriverResult<Audit>) {
        if self.next_id == Id::MAX {
            return Err(DriverError::IdExhausted);
        }
        let a = create.into_record(self.next_id, now);
        let r = a.clone();
        self.audit.push(a);
        self.next_id = self.next_id + 1;
        proof {
            old(self).store().lemma_audit_create_wf(create, now);
        }
        Ok(r)
    }

    fn key_list(&self, list: &KeyList) -> (r: Vec<Key>) {
        let mut mask: Vec<bool> = Vec::new();
        let mut i: usize = 0;
        while i < self.keys.len()
            invariant
                i <= self.keys.len(),
                mask.len() == i,
                forall|j: int| 0 <= j < i ==> mask@[j] == list.keeps(self.keys@[j]),
            decreases self.keys.len() - i,
        {
            mask.push(list.is_kept(&self.keys[i]));
            i += 1;
        }
        assert(mask@ =~= self.store().key_mask(*list));
        let at = select(&mask, list.query.get_limit(), list.query.is_newest_first());
        let ghost want = hits(mask@, list.query.limit(), list.query.newest_first());
        let mut out: Vec<Key> = Vec::new();
        let mut k: usize = 0;
        while k < at.len()
            invariant
                k <= at.len(),
                out.len() == k,
                as_positions(at@) == want,
                mask.len() == self.keys.len(),
                forall|j: int| 0 <= j < at.len() ==> (#[trigger] at@[j]) < mask.len(),
                forall|j: int| 0 <= j < k ==> out@[j] == self.keys@[want[j]].public(),
            decreases at.len() - k,
        {
            assert(as_positions(at@)[k as int] == at@[k as int] as int);
            out.push(self.keys[at[k]].clone().into_key());
            k += 1;
        }
        assert(as_positions(at@).len() == at.len());
        assert(out@ =~= self.store().key_list(*list));
        out
    }

    fn user_list(&self, list: &UserList) -> (r: Vec<User>) {
        let mut mask: Vec<bool> = Vec::new();
        let mut i: usize = 0;
        while i < self.users.len()
            invariant
                i <= self.users.len(),
                mask.len() == i,
                forall|j: int| 0 <= j < i ==> mask@[j] == list.keeps(self.users@[j]),
            decreases self.users.len() - i,
        {
            mask.push(list.is_kept(&self.users[i]));
            i += 1;
        }
        assert(mask@ =~= self.store().user_mask(*list));
        let at = select(&mask, list.query.get_limit(), list.query.is_newest_first());
        let ghost want = hits(mask@, list.query.limit(), list.query.newest_first());
        let mut out: Vec<User> = Vec::new();
        let mut k: usize = 0;
        while k < at.len()
            invariant
                k <= at.len(),
                out.len() == k,
                as_positions(at@) == want,
                mask.len() == self.users.len(),
                forall|j: int| 0 <= j < at.len() ==> (#[trigger] at@[j]) < mask.len(),
                forall|j: int| 0 <= j < k ==> out@[j] == self.users@[want[j]],
            decreases at.len() - k,
        {
            assert(as_positions(at@)[k as int] == at@[k as int] as int);
            out.push(self.users[at[k]].clone());
            k += 1;
        }
        assert(as_positions(at@).len() == at.len());
        assert(out@ =~= self.store().user_list(*list));
        out
    }

    fn audit_list(&self, list: &AuditList) -> (r: Vec<Audit>) {
        let mut mask: Vec<bool> = Vec::new();
        let mut i: usize = 0;
        while i < self.audit.len()
            invariant
                i <= self.audit.len(),
                mask.len() == i,
                forall|j: int| 0 <= j < i ==> mask@[j] == list.keeps(self.audit@[j]),
            decreases self.audit.len() - i,
        {
            mask.push(list.is_kept(&self.audit[i]));
            i += 1;
        }
        assert(mask@ =~= self.store().audit_mask(*list));
        let at = select(&mask, list.query.get_limit(), list.query.is_newest_first());
        let ghost want = hits(mask@, list.query.limit(), list.query.newest_first());
        let mut out: Vec<Audit> = Vec::new();
        let mut k: usize = 0;
        while k < at.len()
            invariant
                k <= at.len(),
                out.len() == k,
                as_positions(at@) == want,
                mask.len() == self.audit.len(),
                forall|j: int| 0 <= j < at.len() ==> (#[trigger] at@[j]) < mask.len(),
                forall|j: int| 0 <= j < k ==> out@[j] == self.audit@[want[j]],
            decreases at.len() - k,
        {
            assert(as_positions(at@)[k as int] == at@[k as int] as int);
            out.push(self.audit[at[k]].clone());
            k += 1;
        }
        assert(as_positions(at@).len() == at.len());
        assert(out@ =~= self.store().audit_list(*list));
        out
    }

    fn audit_read(&self, read: &AuditRead) -> (r: Option<Audit>) {
        match self.find_audit(read) {
            Some(i) => Some(self.audit[i].clone()),
            None => None,
        }
    }

    fn audit_update(&mut self, read: &AuditRead, update: AuditUpdate, now: i64) -> (r:
        DriverResult<Audit>) {
        match self.find_audit(read) {
            Some(i) => {
                let before = self.audit[i].clone();
                let a = Audit {
                    created_at: before.created_at,
                    updated_at: now,
                    id: before.id,
                    user_agent: before.user_agent,
                    remote: before.remote,
                    forwarded: before.forwarded,
                    type_: before.type_,
                    subject: match update.subject {
                        Some(s) => Some(s),
                        None => before.subject,
                    },
                    data: match update.data {
                        Some(d) => d,
                        None => before.data,
                    },
                    key_id: before.key_id,
                    service_id: before.service_id,
                    user_id: before.user_id,
                    user_key_id: before.user_key_id,
                };
                let r = a.clone();
                self.audit.set(i, a);
                proof {
                    old(self).store().lemma_audit_update_wf(*read, update, now);
                }
                Ok(r)
            },
            None => Err(DriverError::AuditNotFound),
        }
    }
}

} // verus!
