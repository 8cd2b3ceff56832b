//! Text primitives that the classification rules are built from.
//!
//! Strings are modelled by their sequence of characters. Searching, trimming,
//! splitting and ordering are implemented here and proved against that model.
//! Case folding and the Unicode character classes come from the standard
//! library; their results are named, not defined.

use vstd::prelude::*;

verus! {

/// The lowercase form that `str::to_lowercase` gives to a sequence of characters.
pub uninterp spec fn lowercase(s: Seq<char>) -> Seq<char>;

/// The uppercase form that `str::to_uppercase` gives to a sequence of characters.
pub uninterp spec fn uppercase(s: Seq<char>) -> Seq<char>;

/// Whether `char::is_whitespace` holds of a character.
pub uninterp spec fn white_space(c: char) -> bool;

/// Whether `char::is_alphanumeric` holds of a character.
pub uninterp spec fn alphanumeric(c: char) -> bool;

/// Whether `char::is_numeric` holds of a character.
pub uninterp spec fn numeric(c: char) -> bool;

/// Calls `str::to_lowercase`. The contract only names the result: it is the
/// lowercase form of the input, whatever Unicode says that is.
#[verifier::external_body]
pub(crate) fn to_lowercase(s: &str) -> (r: String)
    ensures
        r@ == lowercase(s@),
{
    s.to_lowercase()
}

/// Calls `str::to_uppercase`. The contract only names the result: it is the
/// uppercase form of the input, whatever Unicode says that is.
#[verifier::external_body]
pub(crate) fn to_uppercase(s: &str) -> (r: String)
    ensures
        r@ == uppercase(s@),
{
    s.to_uppercase()
}

/// Calls `char::is_whitespace`. The contract only names the result.
#[verifier::external_body]
pub(crate) fn is_whitespace(c: char) -> (r: bool)
    ensures
        r == white_space(c),
{
    c.is_whitespace()
}

/// Calls `char::is_alphanumeric`. The contract only names the result.
#[verifier::external_body]
pub(crate) fn is_alphanumeric(c: char) -> (r: bool)
    ensures
        r == alphanumeric(c),
{
    c.is_alphanumeric()
}

/// Calls `char::is_numeric`. The contract only names the result.
#[verifier::external_body]
pub(crate) fn is_numeric(c: char) -> (r: bool)
    ensures
        r == numeric(c),
{
    c.is_numeric()
}

/// Whether `needle` stands in `hay` at offset `at`.
pub open spec fn occurs_at(hay: Seq<char>, needle: Seq<char>, at: int) -> bool {
    &&& 0 <= at
    &&& at + needle.len() <= hay.len()
    &&& hay.subrange(at, at + needle.len()) == needle
}

/// Whether `needle` occurs in `hay` as a contiguous run of characters.
pub open spec fn has_substring(hay: Seq<char>, needle: Seq<char>) -> bool {
    exists|at: int| occurs_at(hay, needle, at)
}

/// Whether `word` stands in `hay` at offset `at` with no alphanumeric
/// character directly before or after it.
pub open spec fn word_at(hay: Seq<char>, word: Seq<char>, at: int) -> bool {
    &&& occurs_at(hay, word, at)
    &&& (at == 0 || !alphanumeric(hay[at - 1]))
    &&& (at + word.len() == hay.len() || !alphanumeric(hay[at + word.len()]))
}

/// Whether `word` occurs in `hay` as a whole word, that is, bounded on both
/// sides by the ends of `hay` or by characters that are not alphanumeric.
pub open spec fn has_word(hay: Seq<char>, word: Seq<char>) -> bool {
    exists|at: int| word_at(hay, word, at)
}

/// Whether one of the strings of the list has `needle` as a substring.
pub open spec fn any_has(list: Seq<Seq<char>>, needle: Seq<char>) -> bool {
    exists|i: int| 0 <= i < list.len() && has_substring(#[trigger] list[i], needle)
}

/// `s` without its leading whitespace.
pub open spec fn trim_start(s: Seq<char>) -> Seq<char>
    decreases s.len(),
{
    if s.len() > 0 && white_space(s.first()) {
        trim_start(s.drop_first())
    } else {
        s
    }
}

/// `s` without its trailing whitespace.
pub open spec fn trim_end(s: Seq<char>) -> Seq<char>
    decreases s.len(),
{
    if s.len() > 0 && white_space(s.last()) {
        trim_end(s.drop_last())
    } else {
        s
    }
}

/// `s` without leading and trailing whitespace.
pub open spec fn trimmed(s: Seq<char>) -> Seq<char> {
    trim_end(trim_start(s))
}

/// Strict lexicographic order on character sequences, by code point.
pub open spec fn lex_less(a: Seq<char>, b: Seq<char>) -> bool
    decreases a.len(),
{
    if b.len() == 0 {
        false
    } else if a.len() == 0 {
        true
    } else if a.first() != b.first() {
        (a.first() as u32) < (b.first() as u32)
    } else {
        lex_less(a.drop_first(), b.drop_first())
    }
}

/// The pieces of `s` between occurrences of `sep`. There is always at least
/// one piece; an empty `s` gives one empty piece.
pub open spec fn split_on(s: Seq<char>, sep: char) -> Seq<Seq<char>>
    decreases s.len(),
{
    if s.len() == 0 {
        seq![Seq::<char>::empty()]
    } else if s.last() == sep {
        split_on(s.drop_last(), sep).push(Seq::<char>::empty())
    } else {
        let head = split_on(s.drop_last(), sep);
        head.drop_last().push(head.last().push(s.last()))
    }
}

/// The view of an optional string.
pub open spec fn opt_view(o: Option<String>) -> Option<Seq<char>> {
    match o {
        Some(s) => Some(s@),
        None => None,
    }
}

/// The views of a list of strings.
pub open spec fn views(v: Seq<String>) -> Seq<Seq<char>> {
    v.map_values(|s: String| s@)
}

/// The views of an optional list of strings.
pub open spec fn opt_views(o: Option<Vec<String>>) -> Option<Seq<Seq<char>>> {
    match o {
        Some(v) => Some(views(v@)),
        None => None,
    }
}

/// The characters of a string slice, in order.
pub fn chars_of(s: &str) -> (v: Vec<char>)
    ensures
        v@ == s@,
{
    let mut v: Vec<char> = Vec::new();
    for c in it: s.chars()
        invariant
            v@ == it.seq().take(it.index()),
    {
        v.push(c);
    }
    v
}

/// Whether two slices hold the same characters.
pub fn chars_equal(a: &[char], b: &[char]) -> (r: bool)
    ensures
        r == (a@ == b@),
{
    if a.len() != b.len() {
        return false;
    }
    let mut k: usize = 0;
    while k < a.len()
        invariant
            a.len() == b.len(),
            k <= a.len(),
            forall|m: int| 0 <= m < k ==> a@[m] == b@[m],
        decreases a.len() - k,
    {
        if a[k] != b[k] {
            return false;
        }
        k += 1;
    }
    assert(a@ =~= b@);
    true
}

/// Whether `needle` stands in `hay` at offset `at`.
fn chars_occur_at(hay: &[char], needle: &[char], at: usize) -> (r: bool)
    requires
        at + needle.len() <= hay.len(),
    ensures
        r == occurs_at(hay@, needle@, at as int),
{
    let mut k: usize = 0;
    while k < needle.len()
        invariant
            at + needle.len() <= hay.len(),
            k <= needle.len(),
            forall|m: int| 0 <= m < k ==> hay@[at + m] == needle@[m],
        decreases needle.len() - k,
    {
        if hay[at + k] != needle[k] {
            assert(hay@.subrange(at as int, at + needle.len())[k as int] == hay@[at + k]);
            return false;
        }
        k += 1;
    }
    assert(hay@.subrange(at as int, at + needle.len()) =~= needle@);
    true
}

/// Whether `needle` occurs somewhere in `hay`.
pub fn chars_contain(hay: &[char], needle: &[char]) -> (r: bool)
    ensures
        r == has_substring(hay@, needle@),
{
    if needle.len() > hay.len() {
        return false;
    }
    let last: usize = hay.len() - needle.len();
    let mut at: usize = 0;
    loop
        invariant
            last + needle.len() == hay.len(),
            at <= last,
            forall|j: int| 0 <= j < at ==> !occurs_at(hay@, needle@, j),
        decreases last - at,
    {
        if chars_occur_at(hay, needle, at) {
            return true;
        }
        if at == last {
            return false;
        }
        at += 1;
    }
}

/// Whether `word` occurs in `hay` as a whole word.
pub fn chars_contain_word(hay: &[char], word: &[char]) -> (r: bool)
    ensures
        r == has_word(hay@, word@),
{
    if word.len() > hay.len() {
        return false;
    }
    let last: usize = hay.len() - word.len();
    let mut at: usize = 0;
    loop
        invariant
            last + word.len() == hay.len(),
            at <= last,
            forall|j: int| 0 <= j < at ==> !word_at(hay@, word@, j),
        decreases last - at,
    {
        if chars_occur_at(hay, word, at) {
            let open_before = at == 0 || !is_alphanumeric(hay[at - 1]);
            let open_after = at == last || !is_alphanumeric(hay[at + word.len()]);
            if open_before && open_after {
                assert(word_at(hay@, word@, at as int));
                return true;
            }
        }
        if at == last {
            return false;
        }
        at += 1;
    }
}

/// Whether two string slices hold the same characters.
pub fn equals(a: &str, b: &str) -> (r: bool)
    ensures
        r == (a@ == b@),
{
    let x = chars_of(a);
    let y = chars_of(b);
    chars_equal(x.as_slice(), y.as_slice())
}

/// Whether `needle` occurs somewhere in `hay`.
pub fn contains(hay: &str, needle: &str) -> (r: bool)
    ensures
        r == has_substring(hay@, needle@),
{
    let x = chars_of(hay);
    let y = chars_of(needle);
    chars_contain(x.as_slice(), y.as_slice())
}

/// Whether `word` occurs in `hay` as a whole word.
pub fn contains_word(hay: &str, word: &str) -> (r: bool)
    ensures
        r == has_word(hay@, word@),
{
    let x = chars_of(hay);
    let y = chars_of(word);
    chars_contain_word(x.as_slice(), y.as_slice())
}

/// Whether `a` comes strictly before `b` in lexicographic order.
pub fn chars_less(a: &[char], b: &[char]) -> (r: bool)
    ensures
        r == lex_less(a@, b@),
{
    let mut k: usize = 0;
    assert(a@.skip(0) =~= a@ && b@.skip(0) =~= b@);
    while k < a.len() && k < b.len()
        invariant
            k <= a.len(),
            k <= b.len(),
            lex_less(a@, b@) == lex_less(a@.skip(k as int), b@.skip(k as int)),
        decreases a.len() - k,
    {
        if a[k] != b[k] {
            return (a[k] as u32) < (b[k] as u32);
        }
        assert(a@.skip(k as int).drop_first() =~= a@.skip(k + 1));
        assert(b@.skip(k as int).drop_first() =~= b@.skip(k + 1));
        k += 1;
    }
    k < b.len()
}

/// Whether `a` comes strictly before `b` in lexicographic order.
pub fn less_than(a: &str, b: &str) -> (r: bool)
    ensures
        r == lex_less(a@, b@),
{
    let x = chars_of(a);
    let y = chars_of(b);
    chars_less(x.as_slice(), y.as_slice())
}

/// The slice without leading and trailing whitespace.
pub fn trim(s: &str) -> (r: &str)
    ensures
        r@ == trimmed(s@),
{
    let v = chars_of(s);
    let mut start: usize = 0;
    assert(v@.skip(0) =~= v@);
    while start < v.len() && is_whitespace(v[start])
        invariant
            start <= v.len(),
            trim_start(v@) == trim_start(v@.skip(start as int)),
        decreases v.len() - start,
    {
        assert(v@.skip(start as int).drop_first() =~= v@.skip(start + 1));
        start += 1;
    }
    assert(trim_start(v@) == v@.skip(start as int));
    let mut end: usize = v.len();
    assert(v@.skip(start as int) =~= v@.subrange(start as int, v.len() as int));
    while end > start && is_whitespace(v[end - 1])
        invariant
            start <= end <= v.len(),
            trim_end(v@.skip(start as int)) == trim_end(v@.subrange(start as int, end as int)),
        decreases end,
    {
        assert(v@.subrange(start as int, end as int).drop_last() =~= v@.subrange(
            start as int,
            end - 1,
        ));
        end -= 1;
    }
    s.substring_char(start, end)
}

/// The pieces of `s` between occurrences of `sep`.
pub fn split(s: &str, sep: char) -> (r: Vec<String>)
    ensures
        views(r@) == split_on(s@, sep),
{
    let v = chars_of(s);
    let mut out: Vec<String> = Vec::new();
    let mut start: usize = 0;
    let mut k: usize = 0;
    assert(v@.take(0) =~= Seq::<char>::empty());
    assert(views(out@).push(v@.subrange(0, 0)) =~= seq![Seq::<char>::empty()]);
    while k < v.len()
        invariant
            v@ == s@,
            start <= k <= v.len(),
            split_on(v@.take(k as int), sep) == views(out@).push(
                v@.subrange(start as int, k as int),
            ),
        decreases v.len() - k,
    {
        let ghost before = views(out@);
        let ghost piece = v@.subrange(start as int, k as int);
        assert(v@.take(k + 1).drop_last() =~= v@.take(k as int));
        assert(v@.take(k + 1).last() == v@[k as int]);
        assert(before.push(piece).drop_last() =~= before);
        if v[k] == sep {
            out.push(s.substring_char(start, k).to_owned());
            start = k + 1;
            assert(views(out@) =~= before.push(piece));
            assert(v@.subrange(start as int, k + 1) =~= Seq::<char>::empty());
        } else {
            assert(piece.push(v@[k as int]) =~= v@.subrange(start as int, k + 1));
        }
        k += 1;
    }
    let ghost before = views(out@);
    out.push(s.substring_char(start, k).to_owned());
    assert(views(out@) =~= before.push(v@.subrange(start as int, k as int)));
    assert(v@.take(k as int) =~= v@);
    out
}

/// Each string of the list without leading and trailing whitespace.
pub fn trim_each(parts: &Vec<String>) -> (r: Vec<String>)
    ensures
        views(r@) == views(parts@).map_values(|p: Seq<char>| trimmed(p)),
{
    let mut out: Vec<String> = Vec::new();
    let mut k: usize = 0;
    while k < parts.len()
        invariant
            k <= parts.len(),
            out.len() == k,
            forall|m: int| 0 <= m < k ==> out@[m]@ == trimmed(parts@[m]@),
        decreases parts.len() - k,
    {
        out.push(trim(parts[k].as_str()).to_owned());
        k += 1;
    }
    assert(views(out@) =~= views(parts@).map_values(|p: Seq<char>| trimmed(p)));
    out
}

/// Whether one of the strings of the list has `needle` as a substring.
pub fn any_contains(list: &Vec<String>, needle: &str) -> (r: bool)
    ensures
        r == any_has(views(list@), needle@),
{
    let n = chars_of(needle);
    let mut k: usize = 0;
    while k < list.len()
        invariant
            n@ == needle@,
            k <= list.len(),
            forall|i: int| 0 <= i < k ==> !has_substring(#[trigger] views(list@)[i], needle@),
        decreases list.len() - k,
    {
        let item = chars_of(list[k].as_str());
        if chars_contain(item.as_slice(), n.as_slice()) {
            assert(has_substring(views(list@)[k as int], needle@));
            return true;
        }
        k += 1;
    }
    false
}

/// Each string of the list in lowercase.
pub fn lowercase_each(list: &Vec<String>) -> (r: Vec<String>)
    ensures
        views(r@) == views(list@).map_values(|p: Seq<char>| lowercase(p)),
{
    let mut out: Vec<String> = Vec::new();
    let mut k: usize = 0;
    while k < list.len()
        invariant
            k <= list.len(),
            out.len() == k,
            forall|m: int| 0 <= m < k ==> out@[m]@ == lowercase(list@[m]@),
        decreases list.len() - k,
    {
        out.push(to_lowercase(list[k].as_str()));
        k += 1;
    }
    assert(views(out@) =~= views(list@).map_values(|p: Seq<char>| lowercase(p)));
    out
}

/// Whether the characters `s` are exactly those of `lit`.
pub fn is_lit(s: &Vec<char>, lit: &str) -> (r: bool)
    ensures
        r == (s@ == lit@),
{
    let l = chars_of(lit);
    chars_equal(s.as_slice(), l.as_slice())
}

/// Whether `lit` occurs somewhere in the characters `s`.
pub fn has_lit(s: &Vec<char>, lit: &str) -> (r: bool)
    ensures
        r == has_substring(s@, lit@),
{
    let l = chars_of(lit);
    chars_contain(s.as_slice(), l.as_slice())
}

/// Whether `lit` occurs in the characters `s` as a whole word.
pub fn has_word_lit(s: &Vec<char>, lit: &str) -> (r: bool)
    ensures
        r == has_word(s@, lit@),
{
    let l = chars_of(lit);
    chars_contain_word(s.as_slice(), l.as_slice())
}

} // verus!
