//! JSON text for strings and arrays, as serde_json writes it compactly.

use vstd::prelude::*;
use crate::text::{push_char, push_decimal, push_str, chars_of, decimal};

verus! {

/// The four hexadecimal digits of a code unit below 0x100, in lower case.
pub open spec fn hex_digit(d: nat) -> char {
    if d < 10 {
        crate::text::digit_char(d)
    } else if d == 10 {
        'a'
    } else if d == 11 {
        'b'
    } else if d == 12 {
        'c'
    } else if d == 13 {
        'd'
    } else if d == 14 {
        'e'
    } else {
        'f'
    }
}

/// How one character stands inside a JSON string literal.
pub open spec fn json_char(c: char) -> Seq<char> {
    if c == '"' {
        seq!['\\', '"']
    } else if c == '\\' {
        seq!['\\', '\\']
    } else if c == '\n' {
        seq!['\\', 'n']
    } else if c == '\r' {
        seq!['\\', 'r']
    } else if c == '\t' {
        seq!['\\', 't']
    } else if c as u32 == 0x08 {
        seq!['\\', 'b']
    } else if c as u32 == 0x0c {
        seq!['\\', 'f']
    } else if (c as u32) < 0x20 {
        seq!['\\', 'u', '0', '0', hex_digit((c as u32 / 16) as nat), hex_digit((c as u32 % 16) as nat)]
    } else {
        seq![c]
    }
}

/// The characters of a text escaped for a JSON string literal.
pub open spec fn json_escaped(s: Seq<char>) -> Seq<char>
    decreases s.len(),
{
    if s.len() == 0 {
        Seq::empty()
    } else {
        json_escaped(s.drop_last()) + json_char(s.last())
    }
}

/// A text as a JSON string literal.
pub open spec fn json_string(s: Seq<char>) -> Seq<char> {
    seq!['"'] + json_escaped(s) + seq!['"']
}

/// A sequence of JSON values written as a compact array.
pub open spec fn json_array(items: Seq<Seq<char>>) -> Seq<char> {
    seq!['['] + joined(items, seq![',']) + seq![']']
}

/// The items with the separator between each two of them.
pub open spec fn joined(items: Seq<Seq<char>>, sep: Seq<char>) -> Seq<char>
    decreases items.len(),
{
    if items.len() == 0 {
        Seq::empty()
    } else if items.len() == 1 {
        items[0]
    } else {
        joined(items.drop_last(), sep) + sep + items.last()
    }
}

/// The items concatenated, each followed by the terminator.
pub open spec fn terminated(items: Seq<Seq<char>>, term: Seq<char>) -> Seq<char>
    decreases items.len(),
{
    if items.len() == 0 {
        Seq::empty()
    } else {
        terminated(items.drop_last(), term) + items.last() + term
    }
}

fn hex_char(d: u32) -> (c: char)
    requires
        d < 16,
    ensures
        c == hex_digit(d as nat),
{
    if d == 0 {
        '0'
    } else if d == 1 {
        '1'
    } else if d == 2 {
        '2'
    } else if d == 3 {
        '3'
    } else if d == 4 {
        '4'
    } else if d == 5 {
        '5'
    } else if d == 6 {
        '6'
    } else if d == 7 {
        '7'
    } else if d == 8 {
        '8'
    } else if d == 9 {
        '9'
    } else if d == 10 {
        'a'
    } else if d == 11 {
        'b'
    } else if d == 12 {
        'c'
    } else if d == 13 {
        'd'
    } else if d == 14 {
        'e'
    } else {
        'f'
    }
}

/// Appends a text as a JSON string literal.
pub fn push_json_string(out: &mut String, s: &str)
    ensures
        final(out)@ == old(out)@ + json_string(s@),
{
    let v = chars_of(s);
    let ghost start = out@;
    push_char(out, '"');
    let mut i: usize = 0;
    while i < v.len()
        invariant
            v@ == s@,
            i <= v.len(),
            out@ == start + seq!['"'] + json_escaped(s@.take(i as int)),
        decreases v.len() - i,
    {
        let c = v[i];
        assert(s@.take(i + 1).drop_last() =~= s@.take(i as int));
        let u = c as u32;
        if c == '"' {
            push_str(out, "\\\"");
        } else if c == '\\' {
            push_str(out, "\\\\");
        } else if c == '\n' {
            push_str(out, "\\n");
        } else if c == '\r' {
            push_str(out, "\\r");
        } else if c == '\t' {
            push_str(out, "\\t");
        } else if u == 0x08 {
            push_str(out, "\\b");
        } else if u == 0x0c {
            push_str(out, "\\f");
        } else if u < 0x20 {
            push_str(out, "\\u00");
            push_char(out, hex_char(u / 16));
            push_char(out, hex_char(u % 16));
        } else {
            push_char(out, c);
        }
        proof {
            reveal_strlit("\\\"");
            reveal_strlit("\\\\");
            reveal_strlit("\\n");
            reveal_strlit("\\r");
            reveal_strlit("\\t");
            reveal_strlit("\\b");
            reveal_strlit("\\f");
            reveal_strlit("\\u00");
        }
        i = i + 1;
        assert(out@ =~= start + seq!['"'] + json_escaped(s@.take(i as int)));
    }
    assert(s@.take(v.len() as int) =~= s@);
    push_char(out, '"');
    assert(out@ =~= start + json_string(s@));
}

/// The JSON string literals of texts.
pub open spec fn json_strings(items: Seq<String>) -> Seq<Seq<char>> {
    items.map_values(|t: String| json_string(t@))
}

/// The decimal notations of bytes.
pub open spec fn byte_numbers(b: Seq<u8>) -> Seq<Seq<char>> {
    b.map_values(|x: u8| decimal(x as nat))
}

/// A list of texts as a compact JSON array of strings.
pub fn json_string_array(items: &Vec<String>) -> (r: String)
    ensures
        r@ == json_array(json_strings(items@)),
{
    let mut r = String::new();
    push_char(&mut r, '[');
    let mut i: usize = 0;
    while i < items.len()
        invariant
            i <= items.len(),
            r@ == seq!['['] + joined(json_strings(items@.take(i as int)), seq![',']),
        decreases items.len() - i,
    {
        let ghost before = json_strings(items@.take(i as int));
        if i > 0 {
            push_char(&mut r, ',');
        }
        push_json_string(&mut r, items[i].as_str());
        i = i + 1;
        assert(json_strings(items@.take(i as int)).drop_last() =~= before);
        assert(r@ =~= seq!['['] + joined(json_strings(items@.take(i as int)), seq![',']));
    }
    assert(items@.take(items.len() as int) =~= items@);
    push_char(&mut r, ']');
    r
}

/// Bytes as a compact JSON array of numbers.
pub fn json_byte_array(b: &Vec<u8>) -> (r: String)
    ensures
        r@ == json_array(byte_numbers(b@)),
{
    let mut r = String::new();
    push_char(&mut r, '[');
    let mut i: usize = 0;
    while i < b.len()
        invariant
            i <= b.len(),
            r@ == seq!['['] + joined(byte_numbers(b@.take(i as int)), seq![',']),
        decreases b.len() - i,
    {
        let ghost before = byte_numbers(b@.take(i as int));
        if i > 0 {
            push_char(&mut r, ',');
        }
        push_decimal(&mut r, b[i] as u64);
        i = i + 1;
        assert(byte_numbers(b@.take(i as int)).drop_last() =~= before);
        assert(r@ =~= seq!['['] + joined(byte_numbers(b@.take(i as int)), seq![',']));
    }
    assert(b@.take(b.len() as int) =~= b@);
    push_char(&mut r, ']');
    r
}

} // verus!
