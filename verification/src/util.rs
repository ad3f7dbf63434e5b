//! Text helpers shared by the widgets, and the loading marker type.

use vstd::prelude::*;

verus! {

/// What `str::to_lowercase` returns: a function of the characters alone.
pub uninterp spec fn lower_of(s: Seq<char>) -> Seq<char>;

/// What `char::to_uppercase` returns: a function of the character alone.
pub uninterp spec fn upper_of(c: char) -> Seq<char>;

/// What `str::trim` returns: a function of the characters alone.
pub uninterp spec fn trim_of(s: Seq<char>) -> Seq<char>;

/// `needle` occurs contiguously inside `hay`.
pub open spec fn seq_contains(hay: Seq<char>, needle: Seq<char>) -> bool {
    exists|i: int|
        0 <= i <= hay.len() - needle.len() && #[trigger] hay.subrange(i, i + needle.len())
            == needle
}

/// Relies on `str::to_lowercase`: the lowercase equivalent of the string,
/// a function of its characters alone.
#[verifier::external_body]
pub fn lowercase(s: &str) -> (r: String)
    ensures
        r@ == lower_of(s@),
{
    s.to_lowercase()
}

/// Relies on `str::contains` with a string pattern: true exactly when the
/// pattern matches a sub-slice of the string.
#[verifier::external_body]
pub fn contains_sub(hay: &str, needle: &str) -> (r: bool)
    ensures
        r == seq_contains(hay@, needle@),
{
    hay.contains(needle)
}

/// Relies on `str::trim`: the string with leading and trailing whitespace
/// removed, a function of its characters alone.
#[verifier::external_body]
pub fn trim(s: &str) -> (r: String)
    ensures
        r@ == trim_of(s@),
{
    s.trim().to_owned()
}

/// Relies on `char::to_uppercase`: the uppercase mapping of the character
/// alone, which yields one or more characters.
#[verifier::external_body]
pub fn uppercase_char(c: char) -> (r: String)
    ensures
        r@ == upper_of(c),
        r@.len() >= 1,
{
    c.to_uppercase().collect()
}

/// The position of the first occurrence of `c` in `s` at or after `pos`,
/// or the length of `s` when there is none.
pub open spec fn find_from(s: Seq<char>, c: char, pos: int) -> int
    recommends
        0 <= pos <= s.len(),
    decreases s.len() - pos,
{
    if pos < 0 || pos >= s.len() {
        s.len() as int
    } else if s[pos] == c {
        pos
    } else {
        find_from(s, c, pos + 1)
    }
}

/// Nothing before the found position matches, and the found position does.
pub proof fn lemma_find_from_props(s: Seq<char>, c: char, pos: int)
    requires
        0 <= pos <= s.len(),
    ensures
        pos <= find_from(s, c, pos) <= s.len(),
        find_from(s, c, pos) < s.len() ==> s[find_from(s, c, pos)] == c,
        forall|k: int| pos <= k < find_from(s, c, pos) ==> s[k] != c,
    decreases s.len() - pos,
{
    if pos < s.len() && s[pos] != c {
        lemma_find_from_props(s, c, pos + 1);
    }
}

/// Where `c` first occurs at `j` and nowhere earlier, the search finds
/// exactly `j`.
pub proof fn lemma_find_from_hits(s: Seq<char>, c: char, pos: int, j: int)
    requires
        0 <= pos <= j < s.len(),
        s[j] == c,
        forall|k: int| pos <= k < j ==> s[k] != c,
    ensures
        find_from(s, c, pos) == j,
    decreases j - pos,
{
    if pos < j {
        lemma_find_from_hits(s, c, pos + 1, j);
    }
}

/// Find the first occurrence of `c` in `s` at or after `from`.
pub fn scan_char(s: &str, c: char, from: usize) -> (r: usize)
    requires
        from <= s@.len(),
    ensures
        r as int == find_from(s@, c, from as int),
        from <= r <= s@.len(),
{
    let len = s.unicode_len();
    let mut i = from;
    while i < len
        invariant
            from <= i <= len,
            len == s@.len(),
            find_from(s@, c, from as int) == find_from(s@, c, i as int),
        decreases len - i,
    {
        if s.get_char(i) == c {
            return i;
        }
        i = i + 1;
    }
    len
}

/// A value that is either still being fetched or already present.
#[derive(Debug, Clone, Copy, PartialEq, Eq, PartialOrd, Ord)]
pub enum LoadingItem<V> {
    Loading,
    Loaded(V),
}

/// Truncate a string to at most `max_chars` characters (not bytes).
pub fn truncate_on_indices(s: &mut String, max_chars: usize)
    ensures
        old(s)@.len() > max_chars ==> final(s)@ == old(s)@.subrange(0, max_chars as int),
        old(s)@.len() <= max_chars ==> final(s)@ == old(s)@,
{
    let len = s.as_str().unicode_len();
    if len > max_chars {
        let t = s.as_str().substring_char(0, max_chars).to_owned();
        *s = t;
    }
}

/// The string with its first character mapped to uppercase.
pub open spec fn upper_first(s: Seq<char>) -> Seq<char> {
    if s.len() == 0 {
        s
    } else {
        upper_of(s[0]) + s.subrange(1, s.len() as int)
    }
}

/// Uppercase the first character of a string, keeping the rest.
pub fn upper_case_first_char(value: String) -> (r: String)
    ensures
        r@ == upper_first(value@),
{
    let len = value.as_str().unicode_len();
    if len == 0 {
        return value;
    }
    let c = value.as_str().get_char(0);
    let mut first = uppercase_char(c);
    let rest = value.as_str().substring_char(1, len);
    first.append(rest);
    first
}

} // verus!
