//! What a request draws from the outside world before the engine runs.

use vstd::prelude::*;

verus! {

/// The wall-clock time of a request and the fresh secrets it may use up.
///
/// Everything the engine decides is a function of the store, the request and
/// this value.
#[derive(Debug)]
pub struct Context {
    /// Seconds since the Unix epoch.
    pub now: i64,
    /// Key of the single-use entry that the request may create.
    pub csrf_key: String,
    /// Value of the single-use entry that the request may create.
    pub csrf_value: String,
    /// Value of the key that the request may create.
    pub key_value: String,
}

/// The current time in seconds since the Unix epoch.
///
/// Calls `chrono::Utc::now` and `DateTime::timestamp`. Nothing is claimed of
/// the result: two calls may differ.
#[verifier::external_body]
fn clock_now() -> i64 {
    chrono::Utc::now().timestamp()
}

/// A digit of lower-case hexadecimal notation.
pub open spec fn is_lower_hex(c: char) -> bool {
    ('0' <= c && c <= '9') || ('a' <= c && c <= 'f')
}

/// A character of the URL-safe base64 alphabet.
pub open spec fn is_base64url(c: char) -> bool {
    ('A' <= c && c <= 'Z') || ('a' <= c && c <= 'z') || ('0' <= c && c <= '9') || c == '-' || c
        == '_'
}

/// The shape of a key value that the engine draws: 64 lower-case
/// hexadecimal digits.
pub open spec fn is_secret(s: Seq<char>) -> bool {
    s.len() == 64 && forall|i: int| 0 <= i < s.len() ==> is_lower_hex(#[trigger] s[i])
}

/// The shape of a single-use key that the engine draws: 16 random bytes in
/// URL-safe base64 without padding, which is 22 characters.
pub open spec fn is_state(s: Seq<char>) -> bool {
    s.len() == 22 && forall|i: int| 0 <= i < s.len() ==> is_base64url(#[trigger] s[i])
}

/// The shape of a single-use value that the engine draws: 32 random bytes
/// in URL-safe base64 without padding, which is 43 characters.
pub open spec fn is_verifier(s: Seq<char>) -> bool {
    s.len() == 43 && forall|i: int| 0 <= i < s.len() ==> is_base64url(#[trigger] s[i])
}

/// A single-use value that the engine drew takes one byte for each of its
/// characters.
pub proof fn lemma_verifier_bytes(s: Seq<char>)
    requires
        is_verifier(s),
    ensures
        vstd::utf8::is_ascii_chars(s),
        vstd::utf8::encode_utf8(s).len() == 43,
{
    assert forall|i: int| 0 <= i < s.len() implies '\0' <= #[trigger] s[i] <= '\u{7f}' by {
        assert(is_base64url(s[i]));
    }
    vstd::utf8::is_ascii_chars_encode_utf8(s);
}

/// A fresh random key value of 64 lower-case hexadecimal digits.
///
/// Calls `uuid::Uuid::new_v4` twice and writes both results in the crate's
/// `Simple` form, which is 32 lower-case hexadecimal digits without hyphens.
/// Which digits come back is not claimed: two calls may differ.
#[verifier::external_body]
fn random_secret() -> (r: String)
    ensures
        is_secret(r@),
{
    format!("{}{}", uuid::Uuid::new_v4().simple(), uuid::Uuid::new_v4().simple())
}

/// A fresh random single-use key.
///
/// Calls `oauth2::CsrfToken::new_random`, which encodes 16 random bytes in
/// URL-safe base64 without padding. Which characters come back is not
/// claimed: two calls may differ.
#[verifier::external_body]
fn random_state() -> (r: String)
    ensures
        is_state(r@),
{
    oauth2::CsrfToken::new_random().secret().clone()
}

/// A fresh random single-use value that can serve as a code verifier.
///
/// Calls `oauth2::PkceCodeChallenge::new_random_sha256` and keeps the code
/// verifier, which is 32 random bytes in URL-safe base64 without padding.
/// Which characters come back is not claimed: two calls may differ.
#[verifier::external_body]
fn random_verifier() -> (r: String)
    ensures
        is_verifier(r@),
{
    oauth2::PkceCodeChallenge::new_random_sha256().1.secret().clone()
}

impl Context {
    /// A context from given parts.
    pub fn new(now: i64, csrf_key: String, csrf_value: String, key_value: String) -> (r: Self)
        ensures
            r == (Context { now, csrf_key, csrf_value, key_value }),
    {
        Context { now, csrf_key, csrf_value, key_value }
    }

    /// Reads the clock and draws a fresh single-use key and value and a
    /// fresh key value. The time may be any value; the three texts have the
    /// shapes of what is drawn, whichever they are.
    pub fn capture() -> (r: Self)
        ensures
            is_state(r.csrf_key@),
            is_verifier(r.csrf_value@),
            is_secret(r.key_value@),
    {
        Context {
            now: clock_now(),
            csrf_key: random_state(),
            csrf_value: random_verifier(),
            key_value: random_secret(),
        }
    }

    /// The time `seconds` after the request, or `None` where that is beyond
    /// what a timestamp can hold.
    pub open spec fn after(self, seconds: i64) -> Option<i64> {
        if i64::MIN <= self.now + seconds <= i64::MAX {
            Some((self.now + seconds) as i64)
        } else {
            None
        }
    }

    /// Computes [`Context::after`].
    pub fn expires_at(&self, seconds: i64) -> (r: Option<i64>)
        ensures
            r == self.after(seconds),
    {
        self.now.checked_add(seconds)
    }
}

} // verus!
