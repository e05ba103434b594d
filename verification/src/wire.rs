//! The JSON wire format of the two endpoints, built character by character.
//!
//! The submission body `{"name":...,"age":...}` and the persistence-failure
//! body `{"error":...}` are JSON objects of string fields.  String contents
//! are escaped exactly as the JSON grammar demands: `"` and `\` get a
//! backslash escape, control characters below `0x20` get their short escape
//! or a `\u00xx` escape, every other character stands as itself.

use vstd::prelude::*;

verus! {

/// Lowercase hexadecimal digit character for a value below 16.
pub open spec fn hex_char(d: int) -> char {
    if d == 0 {
        '0'
    } else if d == 1 {
        '1'
    } else if d == 2 {
        '2'
    } else if d == 3 {
        '3'
    } else if d == 4 {
        '4'
    } else if d == 5 {
        '5'
    } else if d == 6 {
        '6'
    } else if d == 7 {
        '7'
    } else if d == 8 {
        '8'
    } else if d == 9 {
        '9'
    } else if d == 10 {
        'a'
    } else if d == 11 {
        'b'
    } else if d == 12 {
        'c'
    } else if d == 13 {
        'd'
    } else if d == 14 {
        'e'
    } else {
        'f'
    }
}

/// How one character appears inside a JSON string: itself, unless the JSON
/// grammar requires an escape.
pub open spec fn json_escaped_char(c: char) -> Seq<char> {
    if c == '"' {
        seq!['\\', '"']
    } else if c == '\\' {
        seq!['\\', '\\']
    } else if c == '\u{08}' {
        seq!['\\', 'b']
    } else if c == '\t' {
        seq!['\\', 't']
    } else if c == '\n' {
        seq!['\\', 'n']
    } else if c == '\u{0c}' {
        seq!['\\', 'f']
    } else if c == '\r' {
        seq!['\\', 'r']
    } else if (c as int) < 0x20 {
        seq!['\\', 'u', '0', '0', hex_char((c as int) / 16), hex_char((c as int) % 16)]
    } else {
        seq![c]
    }
}

/// The escaped contents of a JSON string.
pub open spec fn json_escaped(s: Seq<char>) -> Seq<char>
    decreases s.len(),
{
    if s.len() == 0 {
        Seq::<char>::empty()
    } else {
        json_escaped(s.drop_last()) + json_escaped_char(s.last())
    }
}

/// A JSON string token: the escaped contents between double quotes.
pub open spec fn json_string(s: Seq<char>) -> Seq<char> {
    seq!['"'] + json_escaped(s) + seq!['"']
}

/// Relies on `String::push`: appends the given character to the end of the
/// string.
#[verifier::external_body]
pub(crate) fn push_char(out: &mut String, c: char)
    ensures
        final(out)@ == old(out)@ + seq![c],
{
    out.push(c);
}

/// Lowercase hexadecimal digit character for a value below 16.
pub(crate) fn hex_char_digit(d: u8) -> (c: char)
    requires
        d < 16,
    ensures
        c == hex_char(d as int),
{
    if d == 0 {
        '0'
    } else if d == 1 {
        '1'
    } else if d == 2 {
        '2'
    } else if d == 3 {
        '3'
    } else if d == 4 {
        '4'
    } else if d == 5 {
        '5'
    } else if d == 6 {
        '6'
    } else if d == 7 {
        '7'
    } else if d == 8 {
        '8'
    } else if d == 9 {
        '9'
    } else if d == 10 {
        'a'
    } else if d == 11 {
        'b'
    } else if d == 12 {
        'c'
    } else if d == 13 {
        'd'
    } else if d == 14 {
        'e'
    } else {
        'f'
    }
}

/// Append one character of JSON string contents, escaped as the grammar
/// demands.
fn push_escaped(out: &mut String, c: char)
    ensures
        final(out)@ == old(out)@ + json_escaped_char(c),
{
    if c == '"' {
        push_char(out, '\\');
        push_char(out, '"');
    } else if c == '\\' {
        push_char(out, '\\');
        push_char(out, '\\');
    } else if c == '\u{08}' {
        push_char(out, '\\');
        push_char(out, 'b');
    } else if c == '\t' {
        push_char(out, '\\');
        push_char(out, 't');
    } else if c == '\n' {
        push_char(out, '\\');
        push_char(out, 'n');
    } else if c == '\u{0c}' {
        push_char(out, '\\');
        push_char(out, 'f');
    } else if c == '\r' {
        push_char(out, '\\');
        push_char(out, 'r');
    } else if (c as u32) < 0x20 {
        let code = c as u32;
        push_char(out, '\\');
        push_char(out, 'u');
        push_char(out, '0');
        push_char(out, '0');
        push_char(out, hex_char_digit((code / 16) as u8));
        push_char(out, hex_char_digit((code % 16) as u8));
        proof {
            assert(old(out)@ + json_escaped_char(c) =~= old(out)@ + seq![
                '\\',
                'u',
                '0',
                '0',
                hex_char((c as int) / 16),
                hex_char((c as int) % 16),
            ]);
            assert(out@ =~= old(out)@ + seq![
                '\\',
                'u',
                '0',
                '0',
                hex_char((c as int) / 16),
                hex_char((c as int) % 16),
            ]);
        }
    } else {
        push_char(out, c);
    }
    proof {
        assert(out@ =~= old(out)@ + json_escaped_char(c));
    }
}

/// Append a whole JSON string token for `s`.
pub(crate) fn push_json_string(out: &mut String, s: &str)
    ensures
        final(out)@ == old(out)@ + json_string(s@),
{
    push_char(out, '"');
    let len = s.unicode_len();
    let mut i: usize = 0;
    while i < len
        invariant
            i <= len,
            len == s@.len(),
            out@ == old(out)@ + seq!['"'] + json_escaped(s@.take(i as int)),
        decreases len - i,
    {
        let c = s.get_char(i);
        push_escaped(out, c);
        proof {
            let taken = s@.take(i as int);
            let taken1 = s@.take(i + 1 as int);
            assert(taken1.drop_last() =~= taken);
            assert(taken1.last() == s@[i as int]);
            assert(json_escaped(taken1) == json_escaped(taken) + json_escaped_char(s@[i as int]));
            assert(out@ =~= old(out)@ + seq!['"'] + json_escaped(taken1));
        }
        i = i + 1;
    }
    push_char(out, '"');
    proof {
        assert(s@.take(len as int) =~= s@);
        assert(out@ =~= old(out)@ + json_string(s@));
    }
}

} // verus!
