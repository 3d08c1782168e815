//! Building blocks of the outbound envelope's JSON text: string escaping,
//! quoting, decimal number rendering, and arrays and objects of strings.
//!
//! The outbound envelope is this adapter's own wire format, so its exact
//! text is specified here character by character and the builders are
//! proved to produce it.

use vstd::prelude::*;

use crate::strutil::str_chars;

verus! {

/// The hexadecimal digit for a value below sixteen, lower case.
pub open spec fn hex_digit(n: int) -> char {
    if n == 0 {
        '0'
    } else if n == 1 {
        '1'
    } else if n == 2 {
        '2'
    } else if n == 3 {
        '3'
    } else if n == 4 {
        '4'
    } else if n == 5 {
        '5'
    } else if n == 6 {
        '6'
    } else if n == 7 {
        '7'
    } else if n == 8 {
        '8'
    } else if n == 9 {
        '9'
    } else if n == 10 {
        'a'
    } else if n == 11 {
        'b'
    } else if n == 12 {
        'c'
    } else if n == 13 {
        'd'
    } else if n == 14 {
        'e'
    } else {
        'f'
    }
}

/// How one character appears inside a JSON string literal: quote and
/// backslash are escaped, the common control characters get their short
/// escapes, any other control character becomes a `\u00XY` escape, and
/// every other character stands for itself.
pub open spec fn escape_char(c: char) -> Seq<char> {
    if c == '"' {
        seq!['\\', '"']
    } else if c == '\\' {
        seq!['\\', '\\']
    } else if c == '\n' {
        seq!['\\', 'n']
    } else if c == '\r' {
        seq!['\\', 'r']
    } else if c == '\t' {
        seq!['\\', 't']
    } else if (c as u32) < 0x20 {
        seq!['\\', 'u', '0', '0', hex_digit(c as u32 as int / 16), hex_digit(c as u32 as int % 16)]
    } else {
        seq![c]
    }
}

/// A whole string with every character escaped.
pub open spec fn escape_string(s: Seq<char>) -> Seq<char>
    decreases s.len(),
{
    if s.len() == 0 {
        Seq::empty()
    } else {
        escape_char(s[0]) + escape_string(s.drop_first())
    }
}

/// A JSON string literal: the escaped text between double quotes.
pub open spec fn quoted(s: Seq<char>) -> Seq<char> {
    seq!['"'] + escape_string(s) + seq!['"']
}

/// The decimal digit character for a value below ten.
pub open spec fn dec_digit(n: int) -> char {
    if n == 0 {
        '0'
    } else if n == 1 {
        '1'
    } else if n == 2 {
        '2'
    } else if n == 3 {
        '3'
    } else if n == 4 {
        '4'
    } else if n == 5 {
        '5'
    } else if n == 6 {
        '6'
    } else if n == 7 {
        '7'
    } else if n == 8 {
        '8'
    } else {
        '9'
    }
}

/// The usual decimal rendering of a natural number, without leading zeros
/// (a lone zero for zero).
pub open spec fn dec_rep(n: nat) -> Seq<char>
    decreases n,
{
    if n < 10 {
        seq![dec_digit(n as int)]
    } else {
        dec_rep(n / 10).push(dec_digit((n % 10) as int))
    }
}

/// The members of a JSON array of strings: the quoted items separated by
/// commas.
pub open spec fn comma_sep_quoted(items: Seq<Seq<char>>) -> Seq<char>
    decreases items.len(),
{
    if items.len() == 0 {
        Seq::empty()
    } else if items.len() == 1 {
        quoted(items[0])
    } else {
        comma_sep_quoted(items.drop_last()) + seq![','] + quoted(items.last())
    }
}

/// A JSON array holding the given strings in order.
pub open spec fn json_string_array(items: Seq<Seq<char>>) -> Seq<char> {
    seq!['['] + comma_sep_quoted(items) + seq![']']
}

/// One `"name":"value"` member of a JSON object.
pub open spec fn object_member(pair: (Seq<char>, Seq<char>)) -> Seq<char> {
    quoted(pair.0) + seq![':'] + quoted(pair.1)
}

/// The members of a JSON object of string fields, in the given order.
pub open spec fn comma_sep_members(pairs: Seq<(Seq<char>, Seq<char>)>) -> Seq<char>
    decreases pairs.len(),
{
    if pairs.len() == 0 {
        Seq::empty()
    } else if pairs.len() == 1 {
        object_member(pairs[0])
    } else {
        comma_sep_members(pairs.drop_last()) + seq![','] + object_member(pairs.last())
    }
}

/// A JSON object whose fields are the given name/value string pairs, in
/// order.
pub open spec fn json_string_object(pairs: Seq<(Seq<char>, Seq<char>)>) -> Seq<char> {
    seq!['{'] + comma_sep_members(pairs) + seq!['}']
}

/// The escaped form of a string grows by appending the escape of each
/// further character.
pub proof fn lemma_escape_push(s: Seq<char>, c: char)
    ensures
        escape_string(s.push(c)) =~= escape_string(s) + escape_char(c),
    decreases s.len(),
{
    if s.len() == 0 {
        assert(s.push(c).drop_first() =~= Seq::<char>::empty());
        assert(s =~= Seq::<char>::empty());
    } else {
        assert(s.push(c).drop_first() =~= s.drop_first().push(c));
        lemma_escape_push(s.drop_first(), c);
    }
}

/// The hexadecimal digit character for a value below sixteen.
fn hex_digit_char(n: u8) -> (c: char)
    requires
        n < 16,
    ensures
        c == hex_digit(n as int),
{
    match n {
        0 => '0',
        1 => '1',
        2 => '2',
        3 => '3',
        4 => '4',
        5 => '5',
        6 => '6',
        7 => '7',
        8 => '8',
        9 => '9',
        10 => 'a',
        11 => 'b',
        12 => 'c',
        13 => 'd',
        14 => 'e',
        _ => 'f',
    }
}

/// The decimal digit character for a value below ten.
pub(crate) fn dec_digit_char(n: u8) -> (c: char)
    requires
        n < 10,
    ensures
        c == dec_digit(n as int),
{
    match n {
        0 => '0',
        1 => '1',
        2 => '2',
        3 => '3',
        4 => '4',
        5 => '5',
        6 => '6',
        7 => '7',
        8 => '8',
        _ => '9',
    }
}

/// Append the escape of one character.
fn push_escaped_char(out: &mut Vec<char>, c: char)
    ensures
        final(out)@ == old(out)@ + escape_char(c),
{
    if c == '"' {
        out.push('\\');
        out.push('"');
    } else if c == '\\' {
        out.push('\\');
        out.push('\\');
    } else if c == '\n' {
        out.push('\\');
        out.push('n');
    } else if c == '\r' {
        out.push('\\');
        out.push('r');
    } else if c == '\t' {
        out.push('\\');
        out.push('t');
    } else if (c as u32) < 0x20 {
        let code = c as u32;
        out.push('\\');
        out.push('u');
        out.push('0');
        out.push('0');
        out.push(hex_digit_char((code / 16) as u8));
        out.push(hex_digit_char((code % 16) as u8));
    } else {
        out.push(c);
    }
    assert(final(out)@ =~= old(out)@ + escape_char(c));
}

/// Append a JSON string literal holding `s`.
pub fn push_quoted(out: &mut Vec<char>, s: &str)
    ensures
        final(out)@ == old(out)@ + quoted(s@),
{
    let sv = str_chars(s);
    let n = sv.len();
    out.push('"');
    let mut i: usize = 0;
    while i < n
        invariant
            n == sv.len(),
            sv@ == s@,
            i <= n,
            out@ == old(out)@ + seq!['"'] + escape_string(sv@.take(i as int)),
        decreases n - i,
    {
        push_escaped_char(out, sv[i]);
        proof {
            lemma_escape_push(sv@.take(i as int), sv@[i as int]);
            assert(sv@.take(i + 1 as int) =~= sv@.take(i as int).push(sv@[i as int]));
        }
        i = i + 1;
    }
    assert(sv@.take(n as int) =~= sv@);
    out.push('"');
    assert(final(out)@ =~= old(out)@ + quoted(s@));
}

/// Append the decimal rendering of `n`.
pub fn push_dec_u64(out: &mut Vec<char>, n: u64)
    ensures
        final(out)@ == old(out)@ + dec_rep(n as nat),
    decreases n,
{
    if n >= 10 {
        push_dec_u64(out, n / 10);
    }
    out.push(dec_digit_char((n % 10) as u8));
}

/// Append a JSON array holding the given strings in order.
pub fn push_string_array(out: &mut Vec<char>, items: &Vec<String>)
    ensures
        final(out)@ == old(out)@ + json_string_array(items@.map_values(|s: String| s@)),
{
    let ghost view = items@.map_values(|s: String| s@);
    out.push('[');
    let n = items.len();
    let mut i: usize = 0;
    while i < n
        invariant
            n == items.len(),
            view == items@.map_values(|s: String| s@),
            i <= n,
            out@ == old(out)@ + seq!['['] + comma_sep_quoted(view.take(i as int)),
        decreases n - i,
    {
        if i > 0 {
            out.push(',');
        }
        push_quoted(out, items[i].as_str());
        proof {
            assert(view.take(i + 1 as int).drop_last() =~= view.take(i as int));
            assert(view.take(i + 1 as int).last() == view[i as int]);
            if i > 0 {
                assert(comma_sep_quoted(view.take(i + 1 as int)) == comma_sep_quoted(
                    view.take(i as int),
                ) + seq![','] + quoted(view[i as int]));
            } else {
                assert(view.take(1int) =~= seq![view[0int]]);
            }
        }
        i = i + 1;
        assert(out@ =~= old(out)@ + seq!['['] + comma_sep_quoted(view.take(i as int)));
    }
    assert(view.take(n as int) =~= view);
    out.push(']');
    assert(final(out)@ =~= old(out)@ + json_string_array(view));
}

/// Append a JSON object whose fields are the given name/value pairs in
/// order.
pub fn push_string_object(out: &mut Vec<char>, pairs: &Vec<(String, String)>)
    ensures
        final(out)@ == old(out)@ + json_string_object(
            pairs@.map_values(|p: (String, String)| (p.0@, p.1@)),
        ),
{
    let ghost view = pairs@.map_values(|p: (String, String)| (p.0@, p.1@));
    out.push('{');
    let n = pairs.len();
    let mut i: usize = 0;
    while i < n
        invariant
            n == pairs.len(),
            view == pairs@.map_values(|p: (String, String)| (p.0@, p.1@)),
            i <= n,
            out@ == old(out)@ + seq!['{'] + comma_sep_members(view.take(i as int)),
        decreases n - i,
    {
        if i > 0 {
            out.push(',');
        }
        push_quoted(out, pairs[i].0.as_str());
        out.push(':');
        push_quoted(out, pairs[i].1.as_str());
        proof {
            assert(view.take(i + 1 as int).drop_last() =~= view.take(i as int));
            assert(view.take(i + 1 as int).last() == view[i as int]);
            if i > 0 {
                assert(comma_sep_members(view.take(i + 1 as int)) == comma_sep_members(
                    view.take(i as int),
                ) + seq![','] + object_member(view[i as int]));
            } else {
                assert(view.take(1int) =~= seq![view[0int]]);
            }
        }
        i = i + 1;
        assert(out@ =~= old(out)@ + seq!['{'] + comma_sep_members(view.take(i as int)));
    }
    assert(view.take(n as int) =~= view);
    out.push('}');
    assert(final(out)@ =~= old(out)@ + json_string_object(view));
}

} // verus!
