//! The JSON response envelope shared by every endpoint:
//! `{"id": <id>, "status": <status>, "message": <message or null>}`,
//! rendered with standard JSON string escaping.

use vstd::prelude::*;

verus! {

/// The character for one lowercase hexadecimal digit.
pub open spec fn hex_char(d: nat) -> char
    recommends
        d < 16,
{
    if d < 10 {
        crate::numfmt::digit_char(d)
    } else if d == 10 { 'a' }
    else if d == 11 { 'b' }
    else if d == 12 { 'c' }
    else if d == 13 { 'd' }
    else if d == 14 { 'e' }
    else { 'f' }
}

/// How one character appears inside a JSON string literal: quote and
/// backslash are escaped, the named control characters take their short
/// escapes, the remaining control characters take a `\u00..` escape, and
/// every other character stands as itself.
pub open spec fn escape_char(c: char) -> Seq<char> {
    if c == '"' {
        seq!['\\', '"']
    } else if c == '\\' {
        seq!['\\', '\\']
    } else if c == '\u{8}' {
        seq!['\\', 'b']
    } else if c == '\t' {
        seq!['\\', 't']
    } else if c == '\n' {
        seq!['\\', 'n']
    } else if c == '\u{c}' {
        seq!['\\', 'f']
    } else if c == '\r' {
        seq!['\\', 'r']
    } else if (c as int) < 32 {
        seq!['\\', 'u', '0', '0', hex_char((c as nat) / 16), hex_char((c as nat) % 16)]
    } else {
        seq![c]
    }
}

/// A whole string escaped for inclusion in a JSON string literal.
pub open spec fn escape_string(s: Seq<char>) -> Seq<char>
    decreases s.len(),
{
    if s.len() == 0 {
        Seq::empty()
    } else {
        escape_string(s.drop_last()) + escape_char(s.last())
    }
}

/// A JSON string literal: the escaped text between double quotes.
pub open spec fn quoted(s: Seq<char>) -> Seq<char> {
    seq!['"'] + escape_string(s) + seq!['"']
}

/// The response envelope with fields in the fixed order `id`, `status`,
/// `message`; an absent message renders as JSON `null`.
pub open spec fn envelope_json(id: Seq<char>, status: Seq<char>, message: Option<Seq<char>>) -> Seq<char> {
    "{\"id\":"@ + quoted(id) + ",\"status\":"@ + quoted(status) + ",\"message\":"@ + (match message {
        Option::None => "null"@,
        Option::Some(m) => quoted(m),
    }) + "}"@
}

fn hex_char_exec(d: u32) -> (c: char)
    requires
        d < 16,
    ensures
        c == hex_char(d as nat),
{
    if d == 10 { 'a' }
    else if d == 11 { 'b' }
    else if d == 12 { 'c' }
    else if d == 13 { 'd' }
    else if d == 14 { 'e' }
    else if d == 15 { 'f' }
    else if d == 0 { '0' }
    else if d == 1 { '1' }
    else if d == 2 { '2' }
    else if d == 3 { '3' }
    else if d == 4 { '4' }
    else if d == 5 { '5' }
    else if d == 6 { '6' }
    else if d == 7 { '7' }
    else if d == 8 { '8' }
    else { '9' }
}

fn escape_one(out: &mut String, c: char)
    ensures
        final(out)@ == old(out)@ + escape_char(c),
{
    if c == '"' {
        crate::strutil::push_char(out, '\\');
        crate::strutil::push_char(out, '"');
    } else if c == '\\' {
        crate::strutil::push_char(out, '\\');
        crate::strutil::push_char(out, '\\');
    } else if c == '\u{8}' {
        crate::strutil::push_char(out, '\\');
        crate::strutil::push_char(out, 'b');
    } else if c == '\t' {
        crate::strutil::push_char(out, '\\');
        crate::strutil::push_char(out, 't');
    } else if c == '\n' {
        crate::strutil::push_char(out, '\\');
        crate::strutil::push_char(out, 'n');
    } else if c == '\u{c}' {
        crate::strutil::push_char(out, '\\');
        crate::strutil::push_char(out, 'f');
    } else if c == '\r' {
        crate::strutil::push_char(out, '\\');
        crate::strutil::push_char(out, 'r');
    } else if (c as u32) < 32 {
        crate::strutil::push_char(out, '\\');
        crate::strutil::push_char(out, 'u');
        crate::strutil::push_char(out, '0');
        crate::strutil::push_char(out, '0');
        crate::strutil::push_char(out, hex_char_exec((c as u32) / 16));
        crate::strutil::push_char(out, hex_char_exec((c as u32) % 16));
    } else {
        crate::strutil::push_char(out, c);
    }
    proof {
        assert(final(out)@ =~= old(out)@ + escape_char(c));
    }
}

/// Appends the escaped form of `s` to `out`.
fn escape_append(out: &mut String, s: &str)
    ensures
        final(out)@ == old(out)@ + escape_string(s@),
{
    let n = s.unicode_len();
    let mut i: usize = 0;
    while i < n
        invariant
            n == s@.len(),
            i <= n,
            out@ == old(out)@ + escape_string(s@.subrange(0, i as int)),
        decreases n - i,
    {
        let c = s.get_char(i);
        escape_one(out, c);
        proof {
            let pre = s@.subrange(0, i as int);
            let post = s@.subrange(0, i as int + 1);
            assert(post.drop_last() =~= pre);
            assert(post.last() == s@[i as int]);
            assert(out@ =~= old(out)@ + escape_string(post));
        }
        i += 1;
    }
    proof {
        assert(s@.subrange(0, n as int) =~= s@);
    }
}

fn append_quoted(out: &mut String, s: &str)
    ensures
        final(out)@ == old(out)@ + quoted(s@),
{
    crate::strutil::push_char(out, '"');
    escape_append(out, s);
    crate::strutil::push_char(out, '"');
    proof {
        assert(final(out)@ =~= old(out)@ + quoted(s@));
    }
}

/// The view of an optional message.
pub open spec fn message_view(message: Option<String>) -> Option<Seq<char>> {
    match message {
        Option::None => Option::None,
        Option::Some(m) => Option::Some(m@),
    }
}

/// Renders the response envelope for the given status, identifier and
/// optional message, exactly as every endpoint answers.
pub fn generate_answer(status: &str, id: &str, message: Option<String>) -> (r: String)
    ensures
        r@ == envelope_json(id@, status@, message_view(message)),
{
    let mut out = String::new();
    out.append("{\"id\":");
    append_quoted(&mut out, id);
    out.append(",\"status\":");
    append_quoted(&mut out, status);
    out.append(",\"message\":");
    match &message {
        Option::None => {
            out.append("null");
        },
        Option::Some(m) => {
            append_quoted(&mut out, m.as_str());
        },
    }
    out.append("}");
    proof {
        assert(out@ =~= envelope_json(id@, status@, message_view(message)));
    }
    out
}

} // verus!
