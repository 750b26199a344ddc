//! The single-use store: entries that are created once and read at most once.

use vstd::prelude::*;
use crate::context::Context;
use crate::driver::Driver;
use crate::error::{DriverError, DriverResult};
use crate::model::{Csrf, CsrfCreate, Id, Service};
use crate::store::{csrf_has_key, Store};
use crate::text::lemma_first_match;

verus! {

/// What [`create`] returns and leaves in the store.
pub open spec fn create_spec(
    store: Store,
    service_id: Id,
    key: String,
    value: String,
    expires_s: i64,
    ctx: Context,
) -> (Result<Csrf, DriverError>, Store) {
    match ctx.after(expires_s) {
        Some(ttl) => store.csrf_create(CsrfCreate { key, value, ttl, service_id }, ctx.now),
        None => (Err(DriverError::ExpiryOverflow), store),
    }
}

/// Creates an entry for `service` that can be read during the next
/// `expires_s` seconds. Fails with `CsrfKeyConflict` while an entry under the
/// same key can still be read: an entry is never silently overwritten.
pub fn create<D: Driver>(
    driver: &mut D,
    ctx: &Context,
    service: &Service,
    key: String,
    value: String,
    expires_s: i64,
) -> (r: DriverResult<Csrf>)
    requires
        old(driver).store().wf(),
    ensures
        final(driver).store().wf(),
        (r, final(driver).store()) == create_spec(
            old(driver).store(),
            service.id,
            key,
            value,
            expires_s,
            *ctx,
        ),
{
    match ctx.expires_at(expires_s) {
        Some(ttl) => driver.csrf_create(CsrfCreate { key, value, ttl, service_id: service.id }, ctx.now),
        None => Err(DriverError::ExpiryOverflow),
    }
}

/// Reads the entry under `key` and deletes it, in one step. Returns `None`
/// when there is no such entry or it has expired.
pub fn consume<D: Driver>(driver: &mut D, ctx: &Context, key: &str) -> (r: Option<Csrf>)
    requires
        old(driver).store().wf(),
    ensures
        final(driver).store().wf(),
        (r, final(driver).store()) == old(driver).store().csrf_consume(key@, ctx.now),
{
    driver.csrf_read(key, ctx.now)
}

/// Whether an entry belongs to the service that presents it.
pub open spec fn verify_service_spec(entry: Csrf, expected_service_id: Id) -> Result<
    (),
    DriverError,
> {
    if entry.service_id == expected_service_id {
        Ok(())
    } else {
        Err(DriverError::CsrfServiceMismatch)
    }
}

/// Fails with `CsrfServiceMismatch` when `entry` was created for another
/// service than `expected_service_id`.
pub fn verify_service(entry: &Csrf, expected_service_id: Id) -> (r: DriverResult<()>)
    ensures
        r == verify_service_spec(*entry, expected_service_id),
{
    if entry.service_id == expected_service_id {
        Ok(())
    } else {
        Err(DriverError::CsrfServiceMismatch)
    }
}

/// What [`verify`] returns and leaves in the store.
pub open spec fn verify_spec(store: Store, service_id: Id, key: Seq<char>, now: i64) -> (
    Result<Csrf, DriverError>,
    Store,
) {
    let (entry, after) = store.csrf_consume(key, now);
    match entry {
        Some(c) => match verify_service_spec(c, service_id) {
            Ok(()) => (Ok(c), after),
            Err(e) => (Err(e), after),
        },
        None => (Err(DriverError::CsrfNotFoundOrUsed), after),
    }
}

/// Redeems the entry under `key` for `service`: consumes it, and fails with
/// `CsrfNotFoundOrUsed` when it is absent, expired or was read before, and
/// with `CsrfServiceMismatch` when it belongs to another service. The entry
/// is gone afterwards in every case.
pub fn verify<D: Driver>(driver: &mut D, ctx: &Context, service: &Service, key: &str) -> (r:
    DriverResult<Csrf>)
    requires
        old(driver).store().wf(),
    ensures
        final(driver).store().wf(),
        (r, final(driver).store()) == verify_spec(old(driver).store(), service.id, key@, ctx.now),
{
    match consume(driver, ctx, key) {
        Some(c) => match verify_service(&c, service.id) {
            Ok(()) => Ok(c),
            Err(e) => Err(e),
        },
        None => Err(DriverError::CsrfNotFoundOrUsed),
    }
}

/// An entry is read at most once: whatever the first read returned, a second
/// read of the same key returns nothing, at any later or earlier time.
pub proof fn lemma_consume_once(store: Store, key: Seq<char>, first: i64, second: i64)
    requires
        store.wf(),
    ensures
        store.csrf_consume(key, first).1.csrf_consume(key, second).0 is None,
{
    store.lemma_without_csrf_wf(key);
}

/// An entry that can be read is handed out by the first read and by no read
/// after it.
pub proof fn lemma_consume_some_then_none(store: Store, key: Seq<char>, first: i64, second: i64)
    requires
        store.wf(),
        store.csrf_live(key, first) is Some,
    ensures
        store.csrf_consume(key, first).0 == store.csrf_live(key, first),
        store.csrf_consume(key, first).1.csrf_consume(key, second).0 is None,
{
    lemma_consume_once(store, key, first, second);
}

/// Reading an entry leaves every entry under another key as it was.
pub proof fn lemma_consume_keeps_others(store: Store, key: Seq<char>, other: Seq<char>)
    requires
        store.wf(),
        key != other,
    ensures
        store.without_csrf(key).csrf_entry(other) == store.csrf_entry(other),
{
    let after = store.without_csrf(key);
    lemma_first_match(store.csrf, csrf_has_key(key));
    lemma_first_match(store.csrf, csrf_has_key(other));
    lemma_first_match(after.csrf, csrf_has_key(other));
    if let Some(i) = crate::text::first_match(store.csrf, csrf_has_key(key)) {
        match crate::text::first_match(store.csrf, csrf_has_key(other)) {
            Some(a) => {
                let a2 = if a < i { a } else { a - 1 };
                assert(after.csrf[a2] == store.csrf[a]);
                match crate::text::first_match(after.csrf, csrf_has_key(other)) {
                    Some(b) => {
                        let b2 = if b < i { b } else { b + 1 };
                        assert(after.csrf[b] == store.csrf[b2]);
                        if b2 < a {
                        } else if b2 > a {
                            assert(a2 < b);
                        }
                    },
                    None => {},
                }
            },
            None => {
                match crate::text::first_match(after.csrf, csrf_has_key(other)) {
                    Some(b) => {
                        let b2 = if b < i { b } else { b + 1 };
                        assert(after.csrf[b] == store.csrf[b2]);
                    },
                    None => {},
                }
            },
        }
    }
}

/// Creating an entry leaves every entry under another key as it was.
pub proof fn lemma_create_keeps_others(store: Store, create: CsrfCreate, now: i64, other: Seq<char>)
    requires
        store.wf(),
        create.key@ != other,
    ensures
        store.csrf_create(create, now).1.csrf_entry(other) == store.csrf_entry(other),
{
    let after = store.csrf_create(create, now).1;
    if store.csrf_live(create.key@, now) is None {
        let rest = store.without_csrf(create.key@);
        lemma_consume_keeps_others(store, create.key@, other);
        let entry = Csrf::created(create, now);
        lemma_first_match(rest.csrf, csrf_has_key(other));
        lemma_first_match(after.csrf, csrf_has_key(other));
        match crate::text::first_match(rest.csrf, csrf_has_key(other)) {
            Some(a) => {
                assert(after.csrf[a] == rest.csrf[a]);
                match crate::text::first_match(after.csrf, csrf_has_key(other)) {
                    Some(b) => {
                        if b < a {
                            assert(after.csrf[b] == rest.csrf[b]);
                        }
                    },
                    None => {},
                }
            },
            None => {
                match crate::text::first_match(after.csrf, csrf_has_key(other)) {
                    Some(b) => {
                        if b < rest.csrf.len() {
                            assert(after.csrf[b] == rest.csrf[b]);
                        }
                    },
                    None => {},
                }
            },
        }
    }
}

/// An entry that was created is found under its key, as it was created.
pub proof fn lemma_create_reads_back(store: Store, create: CsrfCreate, now: i64)
    requires
        store.wf(),
        store.csrf_create(create, now).0 is Ok,
    ensures
        store.csrf_create(create, now).1.csrf_entry(create.key@) == Some(
            Csrf::created(create, now),
        ),
{
    let rest = store.without_csrf(create.key@);
    let after = store.csrf_create(create, now).1;
    store.lemma_without_csrf_wf(create.key@);
    lemma_first_match(rest.csrf, csrf_has_key(create.key@));
    lemma_first_match(after.csrf, csrf_has_key(create.key@));
    let last = rest.csrf.len() as int;
    assert(after.csrf[last] == Csrf::created(create, now));
    assert(csrf_has_key(create.key@)(after.csrf[last]));
    if let Some(j) = crate::text::first_match(after.csrf, csrf_has_key(create.key@)) {
        if j < last {
            assert(after.csrf[j] == rest.csrf[j]);
        }
    }
}

} // verus!
