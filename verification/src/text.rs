//! Text primitives: the Unicode operations of the standard library that
//! the rules lean on, and small verified scans over characters.

use vstd::prelude::*;

verus! {

/// Whether a character is Unicode white space.
pub uninterp spec fn is_whitespace(c: char) -> bool;

/// The place of the first character from `from` on that is not white
/// space; the length of the text where there is none.
pub open spec fn text_start(s: Seq<char>, from: int) -> int
    decreases s.len() - from,
{
    if from < 0 || from >= s.len() {
        s.len() as int
    } else if !is_whitespace(s[from]) {
        from
    } else {
        text_start(s, from + 1)
    }
}

/// The place behind the last character before `to` that is not white
/// space; 0 where there is none.
pub open spec fn text_end(s: Seq<char>, to: int) -> int
    decreases to,
{
    if to <= 0 || to > s.len() {
        0
    } else if !is_whitespace(s[to - 1]) {
        to
    } else {
        text_end(s, to - 1)
    }
}

/// The text left when leading and trailing white space is removed.
pub open spec fn trimmed(s: Seq<char>) -> Seq<char> {
    if text_start(s, 0) >= text_end(s, s.len() as int) {
        Seq::empty()
    } else {
        s.subrange(text_start(s, 0), text_end(s, s.len() as int))
    }
}

/// Only white space lies between `from` and the start of the text, and
/// the start is no white space.
pub proof fn lemma_text_start(s: Seq<char>, from: int)
    requires
        0 <= from <= s.len(),
    ensures
        from <= text_start(s, from) <= s.len(),
        forall|k: int| from <= k < text_start(s, from) ==> is_whitespace(#[trigger] s[k]),
        text_start(s, from) < s.len() ==> !is_whitespace(s[text_start(s, from)]),
    decreases s.len() - from,
{
    if from < s.len() && is_whitespace(s[from]) {
        lemma_text_start(s, from + 1);
    }
}

/// Only white space lies between the end of the text and `to`, and the
/// text does not end with white space.
pub proof fn lemma_text_end(s: Seq<char>, to: int)
    requires
        0 <= to <= s.len(),
    ensures
        0 <= text_end(s, to) <= to,
        forall|k: int| text_end(s, to) <= k < to ==> is_whitespace(#[trigger] s[k]),
        text_end(s, to) > 0 ==> !is_whitespace(s[text_end(s, to) - 1]),
    decreases to,
{
    if to > 0 && is_whitespace(s[to - 1]) {
        lemma_text_end(s, to - 1);
    }
}

/// A trimmed text neither begins nor ends with white space, and is empty
/// exactly when the text holds nothing but white space.
pub proof fn lemma_trimmed(s: Seq<char>)
    ensures
        trimmed(s).len() <= s.len(),
        trimmed(s).len() > 0 ==> !is_whitespace(trimmed(s)[0]) && !is_whitespace(
            trimmed(s)[trimmed(s).len() - 1],
        ),
        trimmed(s).len() == 0 <==> forall|i: int|
            0 <= i < s.len() ==> is_whitespace(#[trigger] s[i]),
{
    lemma_text_start(s, 0);
    lemma_text_end(s, s.len() as int);
    let (a, b) = (text_start(s, 0), text_end(s, s.len() as int));
    if a < s.len() {
        // The start is no white space, so the end lies behind it.
        if b <= a {
            assert(is_whitespace(s[a]));
        }
        assert(trimmed(s)[0] == s[a]);
        assert(trimmed(s)[trimmed(s).len() - 1] == s[b - 1]);
    }
}

/// Trimming a trimmed text changes nothing.
pub proof fn lemma_trim_twice(s: Seq<char>)
    ensures
        trimmed(trimmed(s)) == trimmed(s),
{
    lemma_trimmed(s);
    let t = trimmed(s);
    if t.len() > 0 {
        lemma_text_end(t, t.len() as int);
        assert(t.subrange(0, t.len() as int) =~= t);
    }
}

/// The Unicode lower-case form of a text.
pub uninterp spec fn lowercased(s: Seq<char>) -> Seq<char>;

/// Whether a character belongs to the Unicode control codes.
pub uninterp spec fn is_control(c: char) -> bool;

/// Whether a character is a Unicode letter or number.
pub uninterp spec fn is_alphanumeric(c: char) -> bool;

/// `str::trim` of the standard library. Trusted: the slice handed back is
/// the argument without its leading and trailing white space, so that it
/// neither begins nor ends with white space.
pub assume_specification[ str::trim ](s: &str) -> (r: &str)
    ensures
        r@ == trimmed(s@),
        r@.len() > 0 ==> !is_whitespace(r@[0]) && !is_whitespace(r@[r@.len() - 1]),
;

/// `str::to_lowercase` of the standard library. Trusted: the new string is
/// the lower-case form of the argument.
pub assume_specification[ str::to_lowercase ](s: &str) -> (r: String)
    ensures
        r@ == lowercased(s@),
;

/// `char::is_control` of the standard library. Trusted: the answer is the
/// control-code predicate of the character.
pub assume_specification[ char::is_control ](c: char) -> (r: bool)
    ensures
        r == is_control(c),
;

/// `char::is_alphanumeric` of the standard library. Trusted: the answer is
/// the letter-or-number predicate of the character.
pub assume_specification[ char::is_alphanumeric ](c: char) -> (r: bool)
    ensures
        r == is_alphanumeric(c),
;

/// Two adjacent full stops somewhere in the text.
pub open spec fn has_consecutive_dots(s: Seq<char>) -> bool {
    exists|i: int| 0 <= i && i + 1 < s.len() && s[i] == '.' && #[trigger] s[i + 1] == '.'
}

/// Some character of the text is a control code.
pub open spec fn has_control(s: Seq<char>) -> bool {
    exists|i: int| 0 <= i < s.len() && is_control(#[trigger] s[i])
}

/// Whether a character may stand in a tag.
pub open spec fn is_tag_char(c: char) -> bool {
    is_alphanumeric(c) || c == '-' || c == '_'
}

/// Every character of the text may stand in a tag.
pub open spec fn all_tag_chars(s: Seq<char>) -> bool {
    forall|i: int| 0 <= i < s.len() ==> is_tag_char(#[trigger] s[i])
}

/// The position of the last full stop, or -1 where the text has none.
pub open spec fn last_dot(s: Seq<char>) -> int
    decreases s.len(),
{
    if s.len() == 0 {
        -1
    } else if s.last() == '.' {
        s.len() - 1
    } else {
        last_dot(s.drop_last())
    }
}

pub fn contains_consecutive_dots(s: &str) -> (r: bool)
    ensures
        r == has_consecutive_dots(s@),
{
    let n: usize = s.unicode_len();
    let mut i: usize = 1;
    while i < n
        invariant
            1 <= i,
            n == s@.len(),
            forall|j: int| 0 <= j && j + 1 < i ==> !(s@[j] == '.' && #[trigger] s@[j + 1] == '.'),
        decreases n - i,
    {
        if s.get_char(i - 1) == '.' && s.get_char(i) == '.' {
            assert(s@[(i - 1) as int] == '.' && s@[(i - 1) + 1] == '.');
            return true;
        }
        i = i + 1;
    }
    false
}

pub fn contains_control(s: &str) -> (r: bool)
    ensures
        r == has_control(s@),
{
    let n: usize = s.unicode_len();
    let mut i: usize = 0;
    while i < n
        invariant
            i <= n,
            n == s@.len(),
            forall|j: int| 0 <= j < i ==> !is_control(#[trigger] s@[j]),
        decreases n - i,
    {
        if s.get_char(i).is_control() {
            return true;
        }
        i = i + 1;
    }
    false
}

pub fn only_tag_chars(s: &str) -> (r: bool)
    ensures
        r == all_tag_chars(s@),
{
    let n: usize = s.unicode_len();
    let mut i: usize = 0;
    while i < n
        invariant
            i <= n,
            n == s@.len(),
            forall|j: int| 0 <= j < i ==> is_tag_char(#[trigger] s@[j]),
        decreases n - i,
    {
        let c: char = s.get_char(i);
        if !(c.is_alphanumeric() || c == '-' || c == '_') {
            return false;
        }
        i = i + 1;
    }
    true
}

/// Whether `s` begins with `prefix`.
pub fn starts_with(s: &str, prefix: &str) -> (r: bool)
    ensures
        r == prefix@.is_prefix_of(s@),
{
    let n: usize = s.unicode_len();
    let m: usize = prefix.unicode_len();
    if m > n {
        return false;
    }
    let mut i: usize = 0;
    while i < m
        invariant
            i <= m <= n,
            n == s@.len(),
            m == prefix@.len(),
            forall|j: int| 0 <= j < i ==> s@[j] == prefix@[j],
        decreases m - i,
    {
        if s.get_char(i) != prefix.get_char(i) {
            return false;
        }
        i = i + 1;
    }
    assert(prefix@ =~= s@.subrange(0, m as int));
    true
}

/// Whether two texts are the same, character by character.
pub fn same_text(a: &str, b: &str) -> (r: bool)
    ensures
        r == (a@ == b@),
{
    let n: usize = a.unicode_len();
    if n != b.unicode_len() {
        return false;
    }
    let mut i: usize = 0;
    while i < n
        invariant
            i <= n,
            n == a@.len(),
            n == b@.len(),
            forall|j: int| 0 <= j < i ==> a@[j] == b@[j],
        decreases n - i,
    {
        if a.get_char(i) != b.get_char(i) {
            return false;
        }
        i = i + 1;
    }
    assert(a@ =~= b@);
    true
}

/// The position of the last full stop, if the text has one.
pub fn find_last_dot(s: &str) -> (r: Option<usize>)
    ensures
        r is None <==> last_dot(s@) == -1,
        r matches Some(i) ==> i == last_dot(s@) && i < s@.len(),
{
    let n: usize = s.unicode_len();
    let mut i: usize = n;
    assert(s@.take(n as int) =~= s@);
    while i > 0
        invariant
            i <= n,
            n == s@.len(),
            last_dot(s@) == last_dot(s@.take(i as int)),
        decreases i,
    {
        if s.get_char(i - 1) == '.' {
            return Some(i - 1);
        }
        proof {
            assert(s@.take(i as int).drop_last() =~= s@.take(i - 1));
        }
        i = i - 1;
    }
    None
}

} // verus!
