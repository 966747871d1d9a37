//! Character classification for submission identifiers.

use vstd::prelude::*;

verus! {

/// A character of the identifier alphabet: an ASCII letter or digit.
pub open spec fn ascii_alnum(c: char) -> bool {
    (97 <= c as int && c as int <= 122)  // 'a'..='z'
    || (65 <= c as int && c as int <= 90)  // 'A'..='Z'
    || (48 <= c as int && c as int <= 57)  // '0'..='9'
}

/// What `char::is_alphanumeric` answers for a character outside the ASCII
/// range: membership in the Unicode alphabetic or numeric categories.
pub uninterp spec fn unicode_alphanumeric(c: char) -> bool;

/// A character an identifier may contain. `char::is_alphanumeric` accepts
/// an ASCII character exactly when it is a letter or digit, and beyond
/// ASCII exactly the Unicode alphanumerics, so this is what it accepts.
pub open spec fn identifier_char(c: char) -> bool {
    ascii_alnum(c) || ((c as int) >= 128 && unicode_alphanumeric(c))
}

/// Relies on `char::is_alphanumeric` (std): true for characters in the
/// Unicode Alphabetic, Nd, Nl or No categories, which include every ASCII
/// letter and digit and exclude every other ASCII character.
#[verifier::external_body]
pub(crate) fn char_is_alphanumeric(c: char) -> (r: bool)
    ensures
        r == identifier_char(c),
        (c as int) >= 128 ==> r == unicode_alphanumeric(c),
        ascii_alnum(c) ==> r,
        (c as int) < 128 && !ascii_alnum(c) ==> !r,
{
    c.is_alphanumeric()
}

} // verus!
