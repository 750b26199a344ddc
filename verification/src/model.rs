//! The records of the credential store, and the requests that create and change them.

use vstd::prelude::*;
use crate::listing::{keeps_id, keeps_opt_id, keeps_text, mask_admits, Page};
use crate::text::clone_opt;

verus! {

/// Identifier of a record: the 128 bits of a UUID.
pub type Id = u128;

/// Default number of records in one page of a listing.
pub const DEFAULT_LIMIT: i64 = 50;

/// Default lifetime of a single-use entry, in seconds.
pub const DEFAULT_CSRF_EXPIRES_S: i64 = 1000;

/// What a key may be used for.
#[derive(Clone, Copy, Debug, PartialEq, Eq, Structural)]
pub enum KeyType {
    /// An opaque API key.
    Key,
    /// A key whose value signs tokens.
    Token,
    /// A key whose value seeds one-time passwords.
    Totp,
}

/// A tenant.
#[derive(Debug)]
pub struct Service {
    pub created_at: i64,
    pub updated_at: i64,
    pub id: Id,
    pub is_enabled: bool,
    pub name: String,
    pub url: String,
    pub user_allow_register: bool,
    pub provider_microsoft_oauth2_url: Option<String>,
}

impl Clone for Service {
    fn clone(&self) -> (r: Self)
        ensures
            r == *self,
    {
        Service {
            created_at: self.created_at,
            updated_at: self.updated_at,
            id: self.id,
            is_enabled: self.is_enabled,
            name: self.name.clone(),
            url: self.url.clone(),
            user_allow_register: self.user_allow_register,
            provider_microsoft_oauth2_url: clone_opt(&self.provider_microsoft_oauth2_url),
        }
    }
}

/// What is needed to create a service.
#[derive(Debug)]
pub struct ServiceCreate {
    pub is_enabled: bool,
    pub name: String,
    pub url: String,
    pub user_allow_register: bool,
    pub provider_microsoft_oauth2_url: Option<String>,
}

/// A key without its secret value.
#[derive(Debug)]
pub struct Key {
    pub created_at: i64,
    pub updated_at: i64,
    pub id: Id,
    pub is_enabled: bool,
    pub is_revoked: bool,
    pub type_: KeyType,
    pub name: String,
    pub service_id: Option<Id>,
    pub user_id: Option<Id>,
}

impl Clone for Key {
    fn clone(&self) -> (r: Self)
        ensures
            r == *self,
    {
        Key {
            created_at: self.created_at,
            updated_at: self.updated_at,
            id: self.id,
            is_enabled: self.is_enabled,
            is_revoked: self.is_revoked,
            type_: self.type_,
            name: self.name.clone(),
            service_id: self.service_id,
            user_id: self.user_id,
        }
    }
}

/// A key as the store holds it. The value authenticates its bearer and signs
/// the tokens issued against the key.
#[derive(Debug)]
pub struct KeyWithValue {
    pub created_at: i64,
    pub updated_at: i64,
    pub id: Id,
    pub is_enabled: bool,
    pub is_revoked: bool,
    pub type_: KeyType,
    pub name: String,
    pub value: String,
    pub service_id: Option<Id>,
    pub user_id: Option<Id>,
}

impl Clone for KeyWithValue {
    fn clone(&self) -> (r: Self)
        ensures
            r == *self,
    {
        KeyWithValue {
            created_at: self.created_at,
            updated_at: self.updated_at,
            id: self.id,
            is_enabled: self.is_enabled,
            is_revoked: self.is_revoked,
            type_: self.type_,
            name: self.name.clone(),
            value: self.value.clone(),
            service_id: self.service_id,
            user_id: self.user_id,
        }
    }
}

impl KeyWithValue {
    /// The key without its value.
    pub open spec fn public(self) -> Key {
        Key {
            created_at: self.created_at,
            updated_at: self.updated_at,
            id: self.id,
            is_enabled: self.is_enabled,
            is_revoked: self.is_revoked,
            type_: self.type_,
            name: self.name,
            service_id: self.service_id,
            user_id: self.user_id,
        }
    }

    /// Drops the value.
    pub fn into_key(self) -> (r: Key)
        ensures
            r == self.public(),
    {
        Key {
            created_at: self.created_at,
            updated_at: self.updated_at,
            id: self.id,
            is_enabled: self.is_enabled,
            is_revoked: self.is_revoked,
            type_: self.type_,
            name: self.name,
            service_id: self.service_id,
            user_id: self.user_id,
        }
    }

    /// A key that may still be used: enabled and never revoked.
    pub open spec fn is_usable(self) -> bool {
        self.is_enabled && !self.is_revoked
    }
}

/// What is needed to create a key. The value is chosen by the caller and must
/// be unique in the store.
#[derive(Debug)]
pub struct KeyCreate {
    pub is_enabled: bool,
    pub is_revoked: bool,
    pub type_: KeyType,
    pub name: String,
    pub value: String,
    pub service_id: Option<Id>,
    pub user_id: Option<Id>,
}

impl KeyCreate {
    /// A root key: no service, no user.
    pub fn root(is_enabled: bool, name: String, value: String) -> (r: Self)
        ensures
            r == (KeyCreate {
                is_enabled,
                is_revoked: false,
                type_: KeyType::Key,
                name,
                value,
                service_id: None,
                user_id: None,
            }),
    {
        KeyCreate {
            is_enabled,
            is_revoked: false,
            type_: KeyType::Key,
            name,
            value,
            service_id: None,
            user_id: None,
        }
    }

    /// A service key: authenticates the service itself.
    pub fn service(is_enabled: bool, name: String, value: String, service_id: Id) -> (r: Self)
        ensures
            r == (KeyCreate {
                is_enabled,
                is_revoked: false,
                type_: KeyType::Key,
                name,
                value,
                service_id: Some(service_id),
                user_id: None,
            }),
    {
        KeyCreate {
            is_enabled,
            is_revoked: false,
            type_: KeyType::Key,
            name,
            value,
            service_id: Some(service_id),
            user_id: None,
        }
    }

    /// A user key: authenticates one user within one service.
    pub fn user(
        is_enabled: bool,
        type_: KeyType,
        name: String,
        value: String,
        service_id: Id,
        user_id: Id,
    ) -> (r: Self)
        ensures
            r == (KeyCreate {
                is_enabled,
                is_revoked: false,
                type_,
                name,
                value,
                service_id: Some(service_id),
                user_id: Some(user_id),
            }),
    {
        KeyCreate {
            is_enabled,
            is_revoked: false,
            type_,
            name,
            value,
            service_id: Some(service_id),
            user_id: Some(user_id),
        }
    }
}

/// A change to a key. A field that is `None` keeps its value.
#[derive(Debug)]
pub struct KeyUpdate {
    pub is_enabled: Option<bool>,
    pub is_revoked: Option<bool>,
    pub name: Option<String>,
}

/// A user of a service.
#[derive(Debug)]
pub struct User {
    pub created_at: i64,
    pub updated_at: i64,
    pub id: Id,
    pub is_enabled: bool,
    pub name: String,
    pub email: String,
    pub locale: Option<String>,
    pub timezone: Option<String>,
    pub password_allow_reset: bool,
    pub password_require_update: bool,
    pub password_hash: Option<String>,
}

impl Clone for User {
    fn clone(&self) -> (r: Self)
        ensures
            r == *self,
    {
        User {
            created_at: self.created_at,
            updated_at: self.updated_at,
            id: self.id,
            is_enabled: self.is_enabled,
            name: self.name.clone(),
            email: self.email.clone(),
            locale: clone_opt(&self.locale),
            timezone: clone_opt(&self.timezone),
            password_allow_reset: self.password_allow_reset,
            password_require_update: self.password_require_update,
            password_hash: clone_opt(&self.password_hash),
        }
    }
}

/// What is needed to create a user.
#[derive(Debug)]
pub struct UserCreate {
    pub is_enabled: bool,
    pub name: String,
    pub email: String,
    pub locale: Option<String>,
    pub timezone: Option<String>,
    pub password_allow_reset: bool,
    pub password_require_update: bool,
    pub password_hash: Option<String>,
}

impl UserCreate {
    /// The request for a user without a password, who may neither reset nor
    /// has to update one.
    pub open spec fn plain(is_enabled: bool, name: String, email: String) -> UserCreate {
        UserCreate {
            is_enabled,
            name,
            email,
            locale: None,
            timezone: None,
            password_allow_reset: false,
            password_require_update: false,
            password_hash: None,
        }
    }

    /// A user without a password, who may neither reset nor has to update one.
    pub fn new(is_enabled: bool, name: String, email: String) -> (r: Self)
        ensures
            r == UserCreate::plain(is_enabled, name, email),
    {
        UserCreate {
            is_enabled,
            name,
            email,
            locale: None,
            timezone: None,
            password_allow_reset: false,
            password_require_update: false,
            password_hash: None,
        }
    }

    /// Sets the password hash and whether the password has to be updated.
    pub fn with_password_hash(self, password_hash: Option<String>, require_update: bool) -> (r:
        Self)
        ensures
            r == (UserCreate { password_hash, password_require_update: require_update, ..self }),
    {
        let mut s = self;
        s.password_hash = password_hash;
        s.password_require_update = require_update;
        s
    }

    /// Sets whether the user may ask for a password reset.
    pub fn password_allow_reset(self, allow: bool) -> (r: Self)
        ensures
            r == (UserCreate { password_allow_reset: allow, ..self }),
    {
        let mut s = self;
        s.password_allow_reset = allow;
        s
    }

    /// Sets the locale.
    pub fn locale(self, locale: String) -> (r: Self)
        ensures
            r == (UserCreate { locale: Some(locale), ..self }),
    {
        let mut s = self;
        s.locale = Some(locale);
        s
    }

    /// Sets the time zone.
    pub fn timezone(self, timezone: String) -> (r: Self)
        ensures
            r == (UserCreate { timezone: Some(timezone), ..self }),
    {
        let mut s = self;
        s.timezone = Some(timezone);
        s
    }
}

/// A change to a user. A field that is `None` keeps its value.
#[derive(Debug)]
pub struct UserUpdate {
    pub id: Id,
    pub is_enabled: Option<bool>,
    pub name: Option<String>,
    pub email: Option<String>,
    pub locale: Option<String>,
    pub timezone: Option<String>,
    pub password_allow_reset: Option<bool>,
    pub password_require_update: Option<bool>,
    pub password_hash: Option<String>,
}

impl UserUpdate {
    /// A change that changes nothing.
    pub fn new(id: Id) -> (r: Self)
        ensures
            r == UserUpdate::unchanged(id),
    {
        UserUpdate {
            id,
            is_enabled: None,
            name: None,
            email: None,
            locale: None,
            timezone: None,
            password_allow_reset: None,
            password_require_update: None,
            password_hash: None,
        }
    }

    /// The change that changes nothing.
    pub open spec fn unchanged(id: Id) -> UserUpdate {
        UserUpdate {
            id,
            is_enabled: None,
            name: None,
            email: None,
            locale: None,
            timezone: None,
            password_allow_reset: None,
            password_require_update: None,
            password_hash: None,
        }
    }

    /// A change of the email address alone.
    pub fn new_email(id: Id, email: String) -> (r: Self)
        ensures
            r == (UserUpdate { email: Some(email), ..UserUpdate::unchanged(id) }),
    {
        let mut u = UserUpdate::new(id);
        u.email = Some(email);
        u
    }

    /// A change of the password hash; the user no longer has to update the password.
    pub fn with_password_hash(id: Id, password_hash: String) -> (r: Self)
        ensures
            r == UserUpdate::password_change(id, password_hash),
    {
        let mut u = UserUpdate::new(id);
        u.password_hash = Some(password_hash);
        u.password_require_update = Some(false);
        u
    }

    /// The change that stores a new password hash and clears the update requirement.
    pub open spec fn password_change(id: Id, password_hash: String) -> UserUpdate {
        UserUpdate {
            password_hash: Some(password_hash),
            password_require_update: Some(false),
            ..UserUpdate::unchanged(id)
        }
    }
}

/// A single-use entry: read once, then gone.
#[derive(Debug)]
pub struct Csrf {
    pub created_at: i64,
    pub key: String,
    pub value: String,
    /// The last second at which the entry can still be read.
    pub ttl: i64,
    pub service_id: Id,
}

impl Clone for Csrf {
    fn clone(&self) -> (r: Self)
        ensures
            r == *self,
    {
        Csrf {
            created_at: self.created_at,
            key: self.key.clone(),
            value: self.value.clone(),
            ttl: self.ttl,
            service_id: self.service_id,
        }
    }
}

impl Csrf {
    /// Past its time to live at `now`.
    pub open spec fn expired_at(self, now: i64) -> bool {
        self.ttl < now
    }

    /// Tells whether the entry is past its time to live at `now`.
    pub fn is_expired(&self, now: i64) -> (r: bool)
        ensures
            r == self.expired_at(now),
    {
        self.ttl < now
    }
}

/// What is needed to create a single-use entry.
#[derive(Debug)]
pub struct CsrfCreate {
    pub key: String,
    pub value: String,
    /// The last second at which the entry can still be read.
    pub ttl: i64,
    pub service_id: Id,
}

/// An access token and the refresh token that renews it.
#[derive(Debug)]
pub struct UserToken {
    pub user_id: Id,
    pub access_token: String,
    pub access_token_expires: i64,
    pub refresh_token: String,
    pub refresh_token_expires: i64,
}

/// A user and the value of one of the user's keys.
#[derive(Debug)]
pub struct UserKey {
    pub user_id: Id,
    pub key: String,
}

/// Where a page of keys starts and how long it is.
pub type KeyListQuery = Page;

/// Which keys a listing keeps. A field that is `None` keeps everything.
#[derive(Debug)]
pub struct KeyListFilter {
    pub id: Option<Vec<Id>>,
    pub is_enabled: Option<bool>,
    pub is_revoked: Option<bool>,
    pub type_: Option<Vec<KeyType>>,
    pub service_id: Option<Vec<Id>>,
    pub user_id: Option<Vec<Id>>,
}

/// A listing of keys, restricted to one tenant when the mask is set.
#[derive(Debug)]
pub struct KeyList<'a> {
    pub query: &'a KeyListQuery,
    pub filter: &'a KeyListFilter,
    pub service_id_mask: Option<Id>,
}

/// Whether an optional list of key types keeps `t`: no list keeps everything.
pub open spec fn keeps_type(types: Option<Vec<KeyType>>, t: KeyType) -> bool {
    match types {
        None => true,
        Some(v) => v@.contains(t),
    }
}

/// True when `types` holds `t`.
pub fn contains_type(types: &Vec<KeyType>, t: KeyType) -> (r: bool)
    ensures
        r == types@.contains(t),
{
    let mut i: usize = 0;
    while i < types.len()
        invariant
            i <= types.len(),
            forall|j: int| 0 <= j < i ==> types@[j] != t,
        decreases types.len() - i,
    {
        if types[i] == t {
            return true;
        }
        i += 1;
    }
    false
}

/// Computes [`keeps_type`].
pub fn is_type_kept(types: &Option<Vec<KeyType>>, t: KeyType) -> (r: bool)
    ensures
        r == keeps_type(*types, t),
{
    match types {
        None => true,
        Some(v) => contains_type(v, t),
    }
}

/// Whether an optional flag keeps a value: no flag keeps everything.
pub open spec fn keeps_flag(flag: Option<bool>, value: bool) -> bool {
    match flag {
        None => true,
        Some(b) => b == value,
    }
}

impl<'a> KeyList<'a> {
    /// Whether the listing keeps a key: the key lies on the page's side of
    /// its cursor, passes every filter, and belongs to the tenant of the mask.
    pub open spec fn keeps(self, k: KeyWithValue) -> bool {
        &&& self.query.admits(k.id)
        &&& keeps_id(self.filter.id, k.id)
        &&& keeps_flag(self.filter.is_enabled, k.is_enabled)
        &&& keeps_flag(self.filter.is_revoked, k.is_revoked)
        &&& keeps_type(self.filter.type_, k.type_)
        &&& keeps_opt_id(self.filter.service_id, k.service_id)
        &&& keeps_opt_id(self.filter.user_id, k.user_id)
        &&& mask_admits(self.service_id_mask, k.service_id)
    }

    /// Computes [`KeyList::keeps`].
    pub fn is_kept(&self, k: &KeyWithValue) -> (r: bool)
        ensures
            r == self.keeps(*k),
    {
        let enabled_ok = match self.filter.is_enabled {
            None => true,
            Some(b) => b == k.is_enabled,
        };
        let revoked_ok = match self.filter.is_revoked {
            None => true,
            Some(b) => b == k.is_revoked,
        };
        self.query.is_admitted(k.id) && crate::listing::is_id_kept(&self.filter.id, k.id)
            && enabled_ok && revoked_ok && is_type_kept(&self.filter.type_, k.type_)
            && crate::listing::is_opt_id_kept(&self.filter.service_id, k.service_id)
            && crate::listing::is_opt_id_kept(&self.filter.user_id, k.user_id)
            && crate::listing::is_mask_admitted(self.service_id_mask, k.service_id)
    }
}

/// Where a page of users starts and how long it is.
pub type UserListQuery = Page;

/// Which users a listing keeps. A field that is `None` keeps everything.
#[derive(Debug)]
pub struct UserListFilter {
    pub id: Option<Vec<Id>>,
    pub email: Option<Vec<String>>,
}

/// A listing of users.
#[derive(Debug)]
pub struct UserList<'a> {
    pub query: &'a UserListQuery,
    pub filter: &'a UserListFilter,
}

impl<'a> UserList<'a> {
    /// Whether the listing keeps a user.
    pub open spec fn keeps(self, u: User) -> bool {
        &&& self.query.admits(u.id)
        &&& keeps_id(self.filter.id, u.id)
        &&& keeps_text(self.filter.email, u.email@)
    }

    /// Computes [`UserList::keeps`].
    pub fn is_kept(&self, u: &User) -> (r: bool)
        ensures
            r == self.keeps(*u),
    {
        self.query.is_admitted(u.id) && crate::listing::is_id_kept(&self.filter.id, u.id)
            && crate::listing::is_text_kept(&self.filter.email, u.email.as_str())
    }
}

/// Which user a read asks for.
#[derive(Debug)]
pub enum UserRead {
    Id(Id),
    Email(String),
}

} // verus!
