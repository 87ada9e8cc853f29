//! Texts written as JSON: strings with their escapes, and arrays.

use vstd::prelude::*;
use vstd::string::*;
use crate::outside::push_char;
use crate::text::{chars_of, joined, lemma_joined_step, string_views};

verus! {

/// The digit that stands for `n` in base sixteen.
pub open spec fn hex_digit(n: int) -> char {
    "0123456789abcdef"@[n]
}

/// How one character is written inside a JSON string.
pub open spec fn escaped_char(c: char) -> Seq<char> {
    if c == '"' {
        "\\\""@
    } else if c == '\\' {
        "\\\\"@
    } else if c == '\n' {
        "\\n"@
    } else if c == '\r' {
        "\\r"@
    } else if c == '\t' {
        "\\t"@
    } else if (c as int) < 32 {
        "\\u00"@.push(hex_digit((c as int) / 16)).push(hex_digit((c as int) % 16))
    } else {
        seq![c]
    }
}

/// How a text is written inside a JSON string: character by character.
pub open spec fn escaped(s: Seq<char>) -> Seq<char>
    decreases s.len(),
{
    if s.len() == 0 {
        Seq::empty()
    } else {
        escaped(s.drop_last()) + escaped_char(s.last())
    }
}

/// A text as a JSON string.
pub open spec fn quoted(s: Seq<char>) -> Seq<char> {
    "\""@ + escaped(s) + "\""@
}

/// Texts as the items of a JSON array.
pub open spec fn array_json(items: Seq<Seq<char>>) -> Seq<char> {
    "["@ + joined(items, ","@) + "]"@
}

/// Appends to `out` the character `c` as a JSON string holds it.
fn push_escaped_char(out: &mut String, c: char)
    ensures
        final(out)@ == old(out)@ + escaped_char(c),
{
    if c == '"' {
        out.append("\\\"");
    } else if c == '\\' {
        out.append("\\\\");
    } else if c == '\n' {
        out.append("\\n");
    } else if c == '\r' {
        out.append("\\r");
    } else if c == '\t' {
        out.append("\\t");
    } else if (c as u32) < 32 {
        let digits = chars_of("0123456789abcdef");
        let code: u32 = c as u32;
        let high: usize = (code / 16) as usize;
        let low: usize = (code % 16) as usize;
        proof {
            reveal_strlit("0123456789abcdef");
        }
        out.append("\\u00");
        push_char(out, digits[high]);
        push_char(out, digits[low]);
    } else {
        push_char(out, c);
    }
}

/// Appends to `out` the text `s` as a JSON string.
pub fn push_quoted(out: &mut String, s: &str)
    ensures
        final(out)@ == old(out)@ + quoted(s@),
{
    let chars = chars_of(s);
    out.append("\"");
    let ghost head = out@;
    let mut i: usize = 0;
    while i < chars.len()
        invariant
            i <= chars.len(),
            out@ == head + escaped(chars@.take(i as int)),
        decreases chars.len() - i,
    {
        assert(chars@.take(i + 1).drop_last() =~= chars@.take(i as int));
        push_escaped_char(out, chars[i]);
        i = i + 1;
    }
    assert(chars@.take(chars.len() as int) =~= chars@);
    out.append("\"");
}

/// Appends to `out` the texts `items`, with `separator` between neighbours.
pub fn push_joined(out: &mut String, items: &Vec<String>, separator: &str)
    ensures
        final(out)@ == old(out)@ + joined(string_views(items@), separator@),
{
    let ghost parts = string_views(items@);
    let ghost head = out@;
    let mut i: usize = 0;
    while i < items.len()
        invariant
            i <= items.len(),
            parts == string_views(items@),
            out@ == head + joined(parts.take(i as int), separator@),
        decreases items.len() - i,
    {
        proof {
            lemma_joined_step(parts, separator@, i as int);
        }
        if i > 0 {
            out.append(separator);
        }
        out.append(items[i].as_str());
        i = i + 1;
    }
    assert(parts.take(items.len() as int) =~= parts);
}

/// Appends to `out` the JSON array whose items are the texts `items`.
pub fn push_array(out: &mut String, items: &Vec<String>)
    ensures
        final(out)@ == old(out)@ + array_json(string_views(items@)),
{
    out.append("[");
    push_joined(out, items, ",");
    out.append("]");
}

} // verus!
