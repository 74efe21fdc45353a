//! Confirmation tokens: unguessable, URL-safe, fixed-length strings.
use vstd::prelude::*;

verus! {

/// The number of characters of a confirmation token.
pub const TOKEN_LENGTH: usize = 25;

pub open spec fn is_ascii_alphanumeric(c: char) -> bool {
    ('a' <= c && c <= 'z') || ('A' <= c && c <= 'Z') || ('0' <= c && c <= '9')
}

/// The shape of every token this library issues.
pub open spec fn is_token_shaped(s: Seq<char>) -> bool {
    &&& s.len() == TOKEN_LENGTH
    &&& forall|i: int| 0 <= i < s.len() ==> is_ascii_alphanumeric(#[trigger] s[i])
}

/// Relies on rand's `DistString::sample_string` for `Alphanumeric`, drawn from
/// the thread-local generator that the system seeds: `len` characters, each an
/// ASCII letter or digit.
#[verifier::external_body]
fn random_alphanumeric(len: usize) -> (r: String)
    ensures
        r@.len() == len,
        forall|i: int| 0 <= i < r@.len() ==> is_ascii_alphanumeric(#[trigger] r@[i]),
{
    rand::distributions::DistString::sample_string(
        &rand::distributions::Alphanumeric,
        &mut rand::thread_rng(),
        len,
    )
}

/// Draws a fresh confirmation token from a cryptographically seeded source.
pub fn generate_token() -> (t: String)
    ensures
        is_token_shaped(t@),
{
    random_alphanumeric(TOKEN_LENGTH)
}

} // verus!
