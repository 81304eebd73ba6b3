use vstd::prelude::*;
use crate::text::push_char;

verus! {

/// The lowercase hexadecimal digit for a value below sixteen.
pub open spec fn hex_digit(n: int) -> char {
    if n < 10 {
        ((n + 48) as u8) as char
    } else {
        ((n + 87) as u8) as char
    }
}

/// How one character appears inside a JSON string literal: quote and
/// backslash escaped, the short escapes for the named control characters,
/// `\u00..` for the remaining control characters, and everything else as is.
pub open spec fn json_escaped_char(c: char) -> Seq<char> {
    if c == '"' {
        seq!['\\', '"']
    } else if c == '\\' {
        seq!['\\', '\\']
    } else if c == '\u{8}' {
        seq!['\\', 'b']
    } else if c == '\t' {
        seq!['\\', 't']
    } else if c == '\n' {
        seq!['\\', 'n']
    } else if c == '\u{c}' {
        seq!['\\', 'f']
    } else if c == '\r' {
        seq!['\\', 'r']
    } else if (c as u32) < 32 {
        seq!['\\', 'u', '0', '0', hex_digit((c as u32 / 16) as int), hex_digit((c as u32 % 16) as int)]
    } else {
        seq![c]
    }
}

/// The body of the JSON string literal encoding the sequence.
pub open spec fn json_escaped(s: Seq<char>) -> Seq<char>
    decreases s.len(),
{
    if s.len() == 0 {
        Seq::<char>::empty()
    } else {
        json_escaped(s.drop_last()) + json_escaped_char(s.last())
    }
}

/// The full JSON string literal encoding the sequence, quotes included.
pub open spec fn json_string_of(s: Seq<char>) -> Seq<char> {
    seq!['"'] + json_escaped(s) + seq!['"']
}

fn hex_digit_char(n: u8) -> (r: char)
    requires
        n < 16,
    ensures
        r == hex_digit(n as int),
{
    if n < 10 {
        (n + 48) as char
    } else {
        (n + 87) as char
    }
}

fn push_escaped_char(r: &mut String, c: char)
    ensures
        final(r)@ == old(r)@ + json_escaped_char(c),
{
    if c == '"' {
        push_char(r, '\\');
        push_char(r, '"');
        assert(r@ =~= old(r)@ + json_escaped_char(c));
    } else if c == '\\' {
        push_char(r, '\\');
        push_char(r, '\\');
        assert(r@ =~= old(r)@ + json_escaped_char(c));
    } else if c == '\u{8}' {
        push_char(r, '\\');
        push_char(r, 'b');
        assert(r@ =~= old(r)@ + json_escaped_char(c));
    } else if c == '\t' {
        push_char(r, '\\');
        push_char(r, 't');
        assert(r@ =~= old(r)@ + json_escaped_char(c));
    } else if c == '\n' {
        push_char(r, '\\');
        push_char(r, 'n');
        assert(r@ =~= old(r)@ + json_escaped_char(c));
    } else if c == '\u{c}' {
        push_char(r, '\\');
        push_char(r, 'f');
        assert(r@ =~= old(r)@ + json_escaped_char(c));
    } else if c == '\r' {
        push_char(r, '\\');
        push_char(r, 'r');
        assert(r@ =~= old(r)@ + json_escaped_char(c));
    } else if (c as u32) < 32 {
        let u = c as u32;
        push_char(r, '\\');
        push_char(r, 'u');
        push_char(r, '0');
        push_char(r, '0');
        push_char(r, hex_digit_char((u / 16) as u8));
        push_char(r, hex_digit_char((u % 16) as u8));
        assert(r@ =~= old(r)@ + json_escaped_char(c));
    } else {
        push_char(r, c);
        assert(r@ =~= old(r)@ + json_escaped_char(c));
    }
}

pub fn json_escape_str(s: &str) -> (r: String)
    ensures
        r@ == json_escaped(s@),
{
    let n = s.unicode_len();
    let mut r = String::new();
    let mut i: usize = 0;
    while i < n
        invariant
            n == s@.len(),
            i <= n,
            r@ == json_escaped(s@.take(i as int)),
        decreases n - i,
    {
        let c = s.get_char(i);
        proof {
            assert(s@.take(i + 1).drop_last() =~= s@.take(i as int));
            assert(s@.take(i + 1).last() == s@[i as int]);
        }
        push_escaped_char(&mut r, c);
        i += 1;
    }
    assert(s@.take(n as int) =~= s@);
    r
}

pub fn json_quote(s: &str) -> (r: String)
    ensures
        r@ == json_string_of(s@),
{
    let mut r = String::new();
    push_char(&mut r, '"');
    let esc = json_escape_str(s);
    r.append(esc.as_str());
    push_char(&mut r, '"');
    assert(r@ =~= json_string_of(s@));
    r
}

} // verus!
