//! Submission identifiers: opaque handles generated at intake and
//! validated before they are interpolated into a spool path.

use vstd::prelude::*;
use crate::chars::{ascii_alnum, identifier_char, char_is_alphanumeric};

verus! {

/// A well-formed identifier: non-empty, every character alphanumeric.
/// This is what keeps an identifier from escaping the spool directory
/// once it is spliced into a file path.
pub open spec fn identifier_ok(s: Seq<char>) -> bool {
    s.len() > 0 && forall|i: int| 0 <= i < s.len() ==> identifier_char(s[i])
}

/// Relies on `rand::rng` and `rand::Rng::sample` with
/// `rand::distr::Alphanumeric`: one byte drawn uniformly from the ASCII
/// letters and digits (`a`-`z`, `A`-`Z`, `0`-`9`).
#[verifier::external_body]
fn sample_alphanumeric() -> (b: u8)
    ensures
        ascii_alnum(b as char),
{
    rand::Rng::sample(&mut rand::rng(), rand::distr::Alphanumeric)
}

/// Draws a fresh identifier of the requested length from the
/// alphanumeric alphabet. Uniqueness is probabilistic: no check is made
/// against identifiers already present in the spool.
pub fn random_string(length: usize) -> (r: String)
    ensures
        r@.len() == length as int,
        forall|i: int| 0 <= i < r@.len() ==> ascii_alnum(#[trigger] r@[i]),
{
    let mut s = String::new();
    let mut k: usize = 0;
    while k < length
        invariant
            s@.len() == k as int,
            k <= length,
            forall|i: int| 0 <= i < s@.len() ==> ascii_alnum(#[trigger] s@[i]),
        decreases length - k,
    {
        let b = sample_alphanumeric();
        crate::strutil::push_char(&mut s, b as char);
        k += 1;
    }
    s
}

/// Every string of ASCII letters and digits is a well-formed identifier,
/// so a freshly generated identifier always passes validation.
pub proof fn lemma_alnum_identifier_ok(s: Seq<char>)
    requires
        s.len() > 0,
        forall|i: int| 0 <= i < s.len() ==> ascii_alnum(#[trigger] s[i]),
    ensures
        identifier_ok(s),
{
}

/// Decides whether every character of `id` is alphanumeric.
pub fn all_chars_alphanumeric(id: &str) -> (r: bool)
    ensures
        r == forall|i: int| 0 <= i < id@.len() ==> identifier_char(#[trigger] id@[i]),
{
    let n = id.unicode_len();
    let mut i: usize = 0;
    while i < n
        invariant
            n == id@.len(),
            i <= n,
            forall|k: int| 0 <= k < i ==> identifier_char(#[trigger] id@[k]),
        decreases n - i,
    {
        if !char_is_alphanumeric(id.get_char(i)) {
            return false;
        }
        i += 1;
    }
    true
}

} // verus!
