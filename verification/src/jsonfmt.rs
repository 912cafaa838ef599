//! Verified construction of the JSON texts this crate puts on the wire.
//!
//! The payloads the facades send are objects of strings, booleans, arrays
//! and byte arrays.  Each writer appends to a growing output string and is
//! proved to append exactly the text its specification function describes;
//! string values are escaped per the JSON grammar.

use vstd::prelude::*;

verus! {

/// Relies on `String::push`: appends exactly the one character.
#[verifier::external_body]
pub fn push_char(out: &mut String, c: char)
    ensures
        final(out)@ == old(out)@ + seq![c],
{
    out.push(c);
}

/// The lower-case hexadecimal digit for a value below 16.
pub open spec fn hex_char(n: u8) -> char {
    match n {
        0 => '0',
        1 => '1',
        2 => '2',
        3 => '3',
        4 => '4',
        5 => '5',
        6 => '6',
        7 => '7',
        8 => '8',
        9 => '9',
        10 => 'a',
        11 => 'b',
        12 => 'c',
        13 => 'd',
        14 => 'e',
        _ => 'f',
    }
}

/// The decimal digit for a value below 10.
pub open spec fn dec_char(n: u8) -> char {
    match n {
        0 => '0',
        1 => '1',
        2 => '2',
        3 => '3',
        4 => '4',
        5 => '5',
        6 => '6',
        7 => '7',
        8 => '8',
        _ => '9',
    }
}

fn hex_char_exec(n: u8) -> (r: char)
    ensures
        r == hex_char(n),
{
    match n {
        0 => '0',
        1 => '1',
        2 => '2',
        3 => '3',
        4 => '4',
        5 => '5',
        6 => '6',
        7 => '7',
        8 => '8',
        9 => '9',
        10 => 'a',
        11 => 'b',
        12 => 'c',
        13 => 'd',
        14 => 'e',
        _ => 'f',
    }
}

fn dec_char_exec(n: u8) -> (r: char)
    ensures
        r == dec_char(n),
{
    match n {
        0 => '0',
        1 => '1',
        2 => '2',
        3 => '3',
        4 => '4',
        5 => '5',
        6 => '6',
        7 => '7',
        8 => '8',
        _ => '9',
    }
}

/// The JSON escape of one character: the two-character escapes of the
/// grammar, `\u00..` for the remaining control characters, and the
/// character itself otherwise.
pub open spec fn json_escape_char(c: char) -> Seq<char> {
    if c == '"' {
        "\\\""@
    } else if c == '\\' {
        "\\\\"@
    } else if c == '\u{8}' {
        "\\b"@
    } else if c == '\u{c}' {
        "\\f"@
    } else if c == '\n' {
        "\\n"@
    } else if c == '\r' {
        "\\r"@
    } else if c == '\t' {
        "\\t"@
    } else if (c as u32) < 0x20 {
        "\\u00"@ + seq![hex_char((c as u32 / 16) as u8), hex_char((c as u32 % 16) as u8)]
    } else {
        seq![c]
    }
}

/// The JSON escape of a whole text.
pub open spec fn json_escaped(s: Seq<char>) -> Seq<char>
    decreases s.len(),
{
    if s.len() == 0 {
        Seq::<char>::empty()
    } else {
        json_escaped(s.drop_last()) + json_escape_char(s.last())
    }
}

/// A JSON string value: the escaped text between quotes.
pub open spec fn json_string(s: Seq<char>) -> Seq<char> {
    seq!['"'] + json_escaped(s) + seq!['"']
}

/// A JSON boolean value.
pub open spec fn json_bool(b: bool) -> Seq<char> {
    if b {
        "true"@
    } else {
        "false"@
    }
}

/// The decimal text of a byte value.
pub open spec fn dec_u8(b: u8) -> Seq<char> {
    if b >= 100 {
        seq![dec_char(b / 100), dec_char((b / 10) % 10), dec_char(b % 10)]
    } else if b >= 10 {
        seq![dec_char(b / 10), dec_char(b % 10)]
    } else {
        seq![dec_char(b)]
    }
}

/// Comma-separated concatenation of already rendered items.
pub open spec fn comma_sep(items: Seq<Seq<char>>) -> Seq<char>
    decreases items.len(),
{
    if items.len() == 0 {
        Seq::<char>::empty()
    } else if items.len() == 1 {
        items[0]
    } else {
        comma_sep(items.drop_last()) + seq![','] + items.last()
    }
}

/// A JSON array of byte values, rendered in decimal.
pub open spec fn json_u8_array(bs: Seq<u8>) -> Seq<char> {
    seq!['['] + comma_sep(bs.map_values(|b: u8| dec_u8(b))) + seq![']']
}

/// A JSON array of string values.
pub open spec fn json_string_array(ss: Seq<Seq<char>>) -> Seq<char> {
    seq!['['] + comma_sep(ss.map_values(|s: Seq<char>| json_string(s))) + seq![']']
}

/// One escape step: escaping a text is escaping its prefix and then its
/// last character.
proof fn lemma_escaped_step(s: Seq<char>, i: int)
    requires
        0 <= i < s.len(),
    ensures
        json_escaped(s.take(i + 1)) == json_escaped(s.take(i)) + json_escape_char(s[i]),
{
    assert(s.take(i + 1).drop_last() =~= s.take(i));
    assert(s.take(i + 1).last() == s[i]);
}

/// One separator step: rendering one more item appends a comma (except
/// before the first) and the item.
pub proof fn lemma_comma_sep_step(items: Seq<Seq<char>>, i: int)
    requires
        0 <= i < items.len(),
    ensures
        i == 0 ==> comma_sep(items.take(1)) == items[0],
        i >= 1 ==> comma_sep(items.take(i + 1)) == comma_sep(items.take(i)) + seq![',']
            + items[i],
{
    assert(items.take(i + 1).drop_last() =~= items.take(i));
    assert(items.take(i + 1).last() == items[i]);
    if i == 0 {
        assert(items.take(1)[0] == items[0]);
    }
}

/// Concatenation of sequences is associative.
pub proof fn lemma_concat_assoc<A>(a: Seq<A>, b: Seq<A>, c: Seq<A>)
    ensures
        (a + b) + c == a + (b + c),
{
    assert((a + b) + c =~= a + (b + c));
}

/// The empty sequence is a right identity of concatenation.
pub proof fn lemma_concat_empty<A>(a: Seq<A>)
    ensures
        a + Seq::<A>::empty() == a,
{
    assert(a + Seq::<A>::empty() =~= a);
}

/// Appends the JSON escape of `s`.
pub fn write_escaped(out: &mut String, s: &str)
    ensures
        final(out)@ == old(out)@ + json_escaped(s@),
{
    let ghost base = out@;
    let n = s.unicode_len();
    let mut i: usize = 0;
    while i < n
        invariant
            n == s@.len(),
            i <= n,
            out@ == base + json_escaped(s@.take(i as int)),
        decreases n - i,
    {
        let c = s.get_char(i);
        if c == '"' {
            out.append("\\\"");
        } else if c == '\\' {
            out.append("\\\\");
        } else if c == '\u{8}' {
            out.append("\\b");
        } else if c == '\u{c}' {
            out.append("\\f");
        } else if c == '\n' {
            out.append("\\n");
        } else if c == '\r' {
            out.append("\\r");
        } else if c == '\t' {
            out.append("\\t");
        } else if (c as u32) < 0x20 {
            out.append("\\u00");
            let hi = hex_char_exec(((c as u32) / 16) as u8);
            let lo = hex_char_exec(((c as u32) % 16) as u8);
            push_char(out, hi);
            push_char(out, lo);
            proof {
                assert(json_escape_char(c) =~= "\\u00"@ + seq![hi, lo]);
            }
        } else {
            push_char(out, c);
        }
        proof {
            lemma_escaped_step(s@, i as int);
            assert(out@ =~= base + json_escaped(s@.take(i as int + 1)));
        }
        i += 1;
    }
    proof {
        assert(s@.take(n as int) =~= s@);
    }
}

/// Appends the JSON string value of `s`: quotes around the escaped text.
pub fn write_json_string(out: &mut String, s: &str)
    ensures
        final(out)@ == old(out)@ + json_string(s@),
{
    let ghost base = out@;
    push_char(out, '"');
    write_escaped(out, s);
    push_char(out, '"');
    proof {
        assert(out@ =~= base + json_string(s@));
    }
}

/// Appends the JSON boolean value of `b`.
pub fn write_json_bool(out: &mut String, b: bool)
    ensures
        final(out)@ == old(out)@ + json_bool(b),
{
    if b {
        out.append("true");
    } else {
        out.append("false");
    }
}

/// Appends the decimal text of a byte value.
pub fn write_dec_u8(out: &mut String, b: u8)
    ensures
        final(out)@ == old(out)@ + dec_u8(b),
{
    let ghost base = out@;
    if b >= 100 {
        push_char(out, dec_char_exec(b / 100));
        push_char(out, dec_char_exec((b / 10) % 10));
        push_char(out, dec_char_exec(b % 10));
        proof {
            assert(out@ =~= base + dec_u8(b));
        }
    } else if b >= 10 {
        push_char(out, dec_char_exec(b / 10));
        push_char(out, dec_char_exec(b % 10));
        proof {
            assert(out@ =~= base + dec_u8(b));
        }
    } else {
        push_char(out, dec_char_exec(b));
        proof {
            assert(out@ =~= base + dec_u8(b));
        }
    }
}

/// Appends the JSON array of byte values rendered in decimal.
pub fn write_json_u8_array(out: &mut String, bs: &Vec<u8>)
    ensures
        final(out)@ == old(out)@ + json_u8_array(bs@),
{
    let ghost base = out@;
    let ghost items = bs@.map_values(|b: u8| dec_u8(b));
    push_char(out, '[');
    let n = bs.len();
    let mut i: usize = 0;
    while i < n
        invariant
            n == bs@.len(),
            i <= n,
            items == bs@.map_values(|b: u8| dec_u8(b)),
            out@ == base + seq!['['] + comma_sep(items.take(i as int)),
        decreases n - i,
    {
        if i > 0 {
            push_char(out, ',');
        }
        write_dec_u8(out, bs[i]);
        proof {
            lemma_comma_sep_step(items, i as int);
            assert(items[i as int] == dec_u8(bs@[i as int]));
            assert(out@ =~= base + seq!['['] + comma_sep(items.take(i as int + 1)));
        }
        i += 1;
    }
    push_char(out, ']');
    proof {
        assert(items.take(n as int) =~= items);
        assert(out@ =~= base + json_u8_array(bs@));
    }
}

/// Appends the already rendered parts, comma-separated.
pub fn write_comma_sep(out: &mut String, parts: &Vec<String>)
    ensures
        final(out)@ == old(out)@ + comma_sep(parts.deep_view()),
{
    let ghost base = out@;
    let ghost items = parts.deep_view();
    let n = parts.len();
    let mut i: usize = 0;
    while i < n
        invariant
            n == parts@.len(),
            i <= n,
            items == parts.deep_view(),
            items.len() == n,
            out@ == base + comma_sep(items.take(i as int)),
        decreases n - i,
    {
        if i > 0 {
            push_char(out, ',');
        }
        out.append(parts[i].as_str());
        proof {
            lemma_comma_sep_step(items, i as int);
            assert(items[i as int] == parts@[i as int]@);
            assert(out@ =~= base + comma_sep(items.take(i as int + 1)));
        }
        i += 1;
    }
    proof {
        assert(items.take(n as int) =~= items);
    }
}

/// Appends the JSON array of the given string values.
pub fn write_json_string_array(out: &mut String, ss: &Vec<String>)
    ensures
        final(out)@ == old(out)@ + json_string_array(ss.deep_view()),
{
    let ghost base = out@;
    let ghost items = ss.deep_view().map_values(|s: Seq<char>| json_string(s));
    push_char(out, '[');
    let n = ss.len();
    let mut i: usize = 0;
    while i < n
        invariant
            n == ss@.len(),
            i <= n,
            items == ss.deep_view().map_values(|s: Seq<char>| json_string(s)),
            items.len() == n,
            out@ == base + seq!['['] + comma_sep(items.take(i as int)),
        decreases n - i,
    {
        if i > 0 {
            push_char(out, ',');
        }
        write_json_string(out, ss[i].as_str());
        proof {
            lemma_comma_sep_step(items, i as int);
            assert(ss.deep_view()[i as int] == ss@[i as int]@);
            assert(items[i as int] == json_string(ss@[i as int]@));
            assert(out@ =~= base + seq!['['] + comma_sep(items.take(i as int + 1)));
        }
        i += 1;
    }
    push_char(out, ']');
    proof {
        assert(items.take(n as int) =~= items);
        assert(out@ =~= base + json_string_array(ss.deep_view()));
    }
}

} // verus!
