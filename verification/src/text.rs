//! Small verified operations on text, seen as sequences of characters.

use vstd::prelude::*;
use vstd::string::*;
use crate::outside::push_char;

verus! {

/// The characters of `s`, in order.
pub fn chars_of(s: &str) -> (v: Vec<char>)
    ensures
        v@ == s@,
{
    let mut v: Vec<char> = Vec::new();
    for c in it: s.chars()
        invariant
            v@ == it.seq().take(it.index() as int),
            it.seq() == s@,
    {
        v.push(c);
    }
    v
}

/// The text made of the characters `chars[from..to]`.
pub fn string_of(chars: &Vec<char>, from: usize, to: usize) -> (s: String)
    requires
        from <= to <= chars.len(),
    ensures
        s@ == chars@.subrange(from as int, to as int),
{
    let mut s = String::new();
    let mut i: usize = from;
    while i < to
        invariant
            from <= i <= to <= chars.len(),
            s@ == chars@.subrange(from as int, i as int),
        decreases to - i,
    {
        push_char(&mut s, chars[i]);
        i = i + 1;
    }
    s
}

/// Whether two texts hold the same characters.
pub fn same_text(a: &str, b: &str) -> (r: bool)
    ensures
        r == (a@ == b@),
{
    let x = a.to_owned();
    let y = b.to_owned();
    x == y
}

/// The texts of `strings` as sequences of characters.
pub open spec fn string_views(strings: Seq<String>) -> Seq<Seq<char>> {
    Seq::new(strings.len(), |i: int| strings[i]@)
}

/// The place of the first `c` in `s`, or the length of `s` where there is
/// none.
pub open spec fn position(s: Seq<char>, c: char) -> int
    decreases s.len(),
{
    if s.len() == 0 {
        0
    } else if s[0] == c {
        0
    } else {
        1 + position(s.drop_first(), c)
    }
}

/// `position` finds the first occurrence and nothing before it.
pub proof fn lemma_position(s: Seq<char>, c: char)
    ensures
        0 <= position(s, c) <= s.len(),
        position(s, c) < s.len() ==> s[position(s, c)] == c,
        forall|j: int| 0 <= j < position(s, c) ==> s[j] != c,
    decreases s.len(),
{
    if s.len() > 0 && s[0] != c {
        let rest = s.drop_first();
        lemma_position(rest, c);
        assert forall|j: int| 0 <= j < position(s, c) implies s[j] != c by {
            if j > 0 {
                assert(s[j] == rest[j - 1]);
            }
        }
    }
}

/// A place that holds the first occurrence, or the length where there is
/// none, is the `position`.
pub proof fn lemma_position_unique(s: Seq<char>, c: char, i: int)
    requires
        0 <= i <= s.len(),
        i < s.len() ==> s[i] == c,
        forall|j: int| 0 <= j < i ==> s[j] != c,
    ensures
        position(s, c) == i,
{
    lemma_position(s, c);
}

/// The place of the first `c` in `s`, or the length of `s` where there is
/// none.
pub fn find_char(s: &Vec<char>, c: char) -> (i: usize)
    ensures
        i == position(s@, c),
{
    let mut i: usize = 0;
    while i < s.len() && s[i] != c
        invariant
            i <= s.len(),
            forall|j: int| 0 <= j < i ==> s[j] != c,
        decreases s.len() - i,
    {
        i = i + 1;
    }
    proof {
        lemma_position_unique(s@, c, i as int);
    }
    i
}

/// Whether one of `strings` holds the characters of `s`.
pub fn contains_text(strings: &Vec<String>, s: &str) -> (r: bool)
    ensures
        r == string_views(strings@).contains(s@),
{
    let mut i: usize = 0;
    while i < strings.len()
        invariant
            i <= strings.len(),
            forall|j: int| 0 <= j < i ==> string_views(strings@)[j] != s@,
        decreases strings.len() - i,
    {
        if same_text(strings[i].as_str(), s) {
            assert(string_views(strings@)[i as int] == s@);
            return true;
        }
        i = i + 1;
    }
    false
}

/// `parts` written one after another with `separator` between neighbours.
pub open spec fn joined(parts: Seq<Seq<char>>, separator: Seq<char>) -> Seq<char>
    decreases parts.len(),
{
    if parts.len() == 0 {
        Seq::empty()
    } else if parts.len() == 1 {
        parts[0]
    } else {
        joined(parts.drop_last(), separator) + separator + parts.last()
    }
}

/// How `joined` grows by one part: the first part stands alone, every later
/// one follows a separator.
pub proof fn lemma_joined_step(parts: Seq<Seq<char>>, separator: Seq<char>, i: int)
    requires
        0 <= i < parts.len(),
    ensures
        joined(parts.take(i + 1), separator) == if i == 0 {
            parts[0]
        } else {
            joined(parts.take(i), separator) + separator + parts[i]
        },
{
    assert(parts.take(i + 1).drop_last() =~= parts.take(i));
}

/// `s` without the repetitions: of equal items only the first stays, and the
/// order of what stays is kept.
pub open spec fn distinct<A>(s: Seq<A>) -> Seq<A>
    decreases s.len(),
{
    if s.len() == 0 {
        s
    } else if distinct(s.drop_last()).contains(s.last()) {
        distinct(s.drop_last())
    } else {
        distinct(s.drop_last()).push(s.last())
    }
}

/// `distinct` repeats nothing, and holds exactly the items of its argument.
pub proof fn lemma_distinct<A>(s: Seq<A>)
    ensures
        distinct(s).no_duplicates(),
        forall|a: A| distinct(s).contains(a) <==> s.contains(a),
    decreases s.len(),
{
    if s.len() > 0 {
        let init = s.drop_last();
        lemma_distinct(init);
        let d = distinct(init);
        assert forall|a: A| distinct(s).contains(a) <==> s.contains(a) by {
            if s.contains(a) {
                if a == s.last() {
                    if !d.contains(s.last()) {
                        assert(d.push(s.last())[d.len() as int] == a);
                    }
                } else {
                    let i = choose|i: int| 0 <= i < s.len() && s[i] == a;
                    assert(init[i] == a);
                    assert(init.contains(a));
                    assert(d.contains(a));
                    let k = choose|k: int| 0 <= k < d.len() && d[k] == a;
                    assert(d.push(s.last())[k] == a);
                }
                assert(distinct(s).contains(a));
            }
            if distinct(s).contains(a) {
                if a == s.last() {
                    assert(s[s.len() - 1] == a);
                } else {
                    let k = choose|k: int| 0 <= k < distinct(s).len() && distinct(s)[k] == a;
                    assert(d[k] == a);
                    assert(init.contains(a));
                    let i = choose|i: int| 0 <= i < init.len() && init[i] == a;
                    assert(s[i] == a);
                }
                assert(s.contains(a));
            }
        }
    }
}

/// Whether `c` is blank: a space, a tab, or the end of a line.
pub open spec fn is_space(c: char) -> bool {
    c == ' ' || c == '\t' || c == '\n' || c == '\r'
}

/// Whether `c` is blank.
pub fn is_space_char(c: char) -> (r: bool)
    ensures
        r == is_space(c),
{
    c == ' ' || c == '\t' || c == '\n' || c == '\r'
}

/// How many blank characters open `s`.
pub open spec fn leading_spaces(s: Seq<char>) -> int
    decreases s.len(),
{
    if s.len() == 0 || !is_space(s[0]) {
        0
    } else {
        1 + leading_spaces(s.drop_first())
    }
}

/// How many blank characters close `s`.
pub open spec fn trailing_spaces(s: Seq<char>) -> int
    decreases s.len(),
{
    if s.len() == 0 || !is_space(s.last()) {
        0
    } else {
        1 + trailing_spaces(s.drop_last())
    }
}

/// `s` without the blank characters that open and close it.
pub open spec fn trimmed(s: Seq<char>) -> Seq<char> {
    let kept = s.take(s.len() - trailing_spaces(s));
    kept.skip(leading_spaces(kept))
}

/// `leading_spaces` counts the blank characters that open `s`, all of them.
pub proof fn lemma_leading_spaces(s: Seq<char>)
    ensures
        0 <= leading_spaces(s) <= s.len(),
        forall|j: int| 0 <= j < leading_spaces(s) ==> is_space(s[j]),
        leading_spaces(s) < s.len() ==> !is_space(s[leading_spaces(s)]),
    decreases s.len(),
{
    if s.len() > 0 && is_space(s[0]) {
        let rest = s.drop_first();
        lemma_leading_spaces(rest);
        assert forall|j: int| 0 <= j < leading_spaces(s) implies is_space(s[j]) by {
            if j > 0 {
                assert(s[j] == rest[j - 1]);
            }
        }
    }
}

/// `trailing_spaces` counts the blank characters that close `s`, all of them.
pub proof fn lemma_trailing_spaces(s: Seq<char>)
    ensures
        0 <= trailing_spaces(s) <= s.len(),
        forall|j: int| s.len() - trailing_spaces(s) <= j < s.len() ==> is_space(s[j]),
        trailing_spaces(s) < s.len() ==> !is_space(s[s.len() - trailing_spaces(s) - 1]),
    decreases s.len(),
{
    if s.len() > 0 && is_space(s.last()) {
        let rest = s.drop_last();
        lemma_trailing_spaces(rest);
        assert forall|j: int| s.len() - trailing_spaces(s) <= j < s.len() implies is_space(
            s[j],
        ) by {
            if j < s.len() - 1 {
                assert(s[j] == rest[j]);
            }
        }
    }
}

/// A trimmed text neither opens nor closes with a blank character, and is a
/// stretch of the text it was trimmed from.
pub proof fn lemma_trimmed(s: Seq<char>)
    ensures
        trimmed(s).len() > 0 ==> !is_space(trimmed(s)[0]) && !is_space(trimmed(s).last()),
        trimmed(s) == s.subrange(
            leading_spaces(s.take(s.len() - trailing_spaces(s))),
            s.len() - trailing_spaces(s),
        ),
        leading_spaces(s.take(s.len() - trailing_spaces(s))) <= s.len() - trailing_spaces(s),
{
    lemma_trailing_spaces(s);
    let kept = s.take(s.len() - trailing_spaces(s));
    lemma_leading_spaces(kept);
    assert(trimmed(s) =~= s.subrange(leading_spaces(kept), s.len() - trailing_spaces(s)));
    if trimmed(s).len() > 0 {
        assert(trimmed(s)[0] == kept[leading_spaces(kept)]);
        assert(trimmed(s).last() == s[s.len() - trailing_spaces(s) - 1]);
    }
}

/// A count of blank characters that open `s`, with a character behind them
/// that is not blank or with nothing behind them, is `leading_spaces`.
pub proof fn lemma_leading_spaces_unique(s: Seq<char>, n: int)
    requires
        0 <= n <= s.len(),
        forall|j: int| 0 <= j < n ==> is_space(s[j]),
        n < s.len() ==> !is_space(s[n]),
    ensures
        leading_spaces(s) == n,
    decreases s.len(),
{
    if n > 0 {
        let rest = s.drop_first();
        assert forall|j: int| 0 <= j < n - 1 implies is_space(rest[j]) by {
            assert(rest[j] == s[j + 1]);
        }
        lemma_leading_spaces_unique(rest, n - 1);
    }
}

/// A count of blank characters that close `s`, with a character before them
/// that is not blank or with nothing before them, is `trailing_spaces`.
pub proof fn lemma_trailing_spaces_unique(s: Seq<char>, n: int)
    requires
        0 <= n <= s.len(),
        forall|j: int| s.len() - n <= j < s.len() ==> is_space(s[j]),
        n < s.len() ==> !is_space(s[s.len() - n - 1]),
    ensures
        trailing_spaces(s) == n,
    decreases s.len(),
{
    if n > 0 {
        let rest = s.drop_last();
        assert forall|j: int| rest.len() - (n - 1) <= j < rest.len() implies is_space(rest[j]) by {
            assert(rest[j] == s[j]);
        }
        lemma_trailing_spaces_unique(rest, n - 1);
    }
}

/// The bounds of `trimmed(chars[..end])` within `chars`.
pub fn trim_bounds(chars: &Vec<char>, end: usize) -> (bounds: (usize, usize))
    requires
        end <= chars.len(),
    ensures
        bounds.0 <= bounds.1 <= end,
        chars@.subrange(bounds.0 as int, bounds.1 as int) == trimmed(chars@.take(end as int)),
{
    let ghost s = chars@.take(end as int);
    let mut to: usize = end;
    while to > 0 && is_space_char(chars[to - 1])
        invariant
            to <= end <= chars.len(),
            forall|j: int| to <= j < end ==> is_space(chars[j]),
        decreases to,
    {
        to = to - 1;
    }
    proof {
        lemma_trailing_spaces_unique(s, end - to);
    }
    let ghost kept = s.take(to as int);
    let mut from: usize = 0;
    while from < to && is_space_char(chars[from])
        invariant
            from <= to <= end <= chars.len(),
            forall|j: int| 0 <= j < from ==> is_space(chars[j]),
        decreases to - from,
    {
        from = from + 1;
    }
    proof {
        lemma_leading_spaces_unique(kept, from as int);
    }
    (from, to)
}

/// The lowercase of an ASCII capital; any other character itself.
pub open spec fn ascii_lower(c: char) -> char {
    if 'A' <= c && c <= 'Z' {
        ((c as u8) + 32) as char
    } else {
        c
    }
}

/// The lowercase of an ASCII capital; any other character itself.
pub fn ascii_lower_char(c: char) -> (r: char)
    ensures
        r == ascii_lower(c),
{
    if 'A' <= c && c <= 'Z' {
        ((c as u8) + 32) as char
    } else {
        c
    }
}

} // verus!
