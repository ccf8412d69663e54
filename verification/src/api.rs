//! The file-name part of an HTTP `Content-Disposition` header, as the file
//! download reports it.

use vstd::prelude::*;
use vstd::string::*;

use crate::text::{chars_of, is_unicode_whitespace, is_whitespace_char, opt_text, string_from_chars};

verus! {

// ---------------------------------------------------------------------
// Outside computation

/// The decoded value of the first query pair of a URL: the query of
/// `url::Url::parse(url)` split by `form_urlencoded` into pairs, the value
/// of the first one percent-decoded (with `+` as space, lossy UTF-8);
/// `None` when the text does not parse as a URL or its query has no pair.
/// For the URLs that `percent_decode` builds, whose query starts with
/// `v=`, the first pair is the one named `v`.
pub uninterp spec fn url_first_query_value(url: Seq<char>) -> Option<Seq<char>>;

/// Calls `url::Url::parse` and then `query_pairs().next()`. The contract
/// claims only that the outcome is the named result for the text.
#[verifier::external_body]
fn first_query_value(url_text: &str) -> (r: Option<String>)
    ensures
        opt_text(r) == url_first_query_value(url_text@),
{
    match url::Url::parse(url_text) {
        Ok(u) => u.query_pairs().next().map(|(_, v)| v.to_string()),
        Err(_) => None,
    }
}

/// The lower case of a text, as `str::to_lowercase` gives it: Unicode's
/// lower-case mapping of each character, which may change the number of
/// characters and of bytes.
pub uninterp spec fn unicode_lowercase(s: Seq<char>) -> Seq<char>;

/// Every character is ASCII.
pub open spec fn is_ascii_text(s: Seq<char>) -> bool {
    forall|i: int| 0 <= i < s.len() ==> (#[trigger] s[i] as u32) < 0x80
}

/// ASCII lower case of a character: `A`-`Z` to `a`-`z`, others unchanged.
pub open spec fn ascii_lower(c: char) -> char {
    if 'A' <= c <= 'Z' { ((c as u32) + 32) as char } else { c }
}

/// ASCII lower case of a text, character by character.
pub open spec fn ascii_lowercase_text(s: Seq<char>) -> Seq<char> {
    Seq::new(s.len(), |i: int| ascii_lower(s[i]))
}

/// Calls `str::to_lowercase`. The outcome is the named result for the
/// text; for an ASCII text, as the documentation of Unicode's lower-case
/// mapping (and std's ASCII fast path) gives it, each letter `A`-`Z` becomes
/// its lower case and every other character stays. Other texts' mapping is
/// left to the name.
#[verifier::external_body]
fn lowercase_of(s: &str) -> (r: String)
    ensures
        r@ == unicode_lowercase(s@),
        is_ascii_text(s@) ==> r@ == ascii_lowercase_text(s@),
{
    s.to_lowercase()
}

// ---------------------------------------------------------------------
// Model

/// The number of bytes of a character in UTF-8.
pub open spec fn utf8_len(c: char) -> int {
    if (c as u32) < 0x80 {
        1
    } else if (c as u32) < 0x800 {
        2
    } else if (c as u32) < 0x10000 {
        3
    } else {
        4
    }
}

/// The number of bytes of a text in UTF-8.
pub open spec fn utf8_byte_len(s: Seq<char>) -> int
    decreases s.len(),
{
    if s.len() == 0 { 0 } else { utf8_byte_len(s.drop_last()) + utf8_len(s.last()) }
}

/// The index of the character at which byte offset `b` of the UTF-8 text
/// `s` falls (`s.len()` at the end); `None` when `b` is not on a character
/// boundary or lies beyond the end.
pub open spec fn char_at_byte(s: Seq<char>, b: int) -> Option<int>
    decreases s.len(),
{
    if b == 0 {
        Some(0)
    } else if s.len() == 0 || b < 0 {
        None
    } else {
        match char_at_byte(s.drop_first(), b - utf8_len(s[0])) {
            Some(k) => Some(k + 1),
            None => None,
        }
    }
}

/// `pat` occurs in `s` at position `i`.
pub open spec fn occurs_at(s: Seq<char>, pat: Seq<char>, i: int) -> bool {
    &&& 0 <= i
    &&& i + pat.len() <= s.len()
    &&& forall|j: int| 0 <= j < pat.len() ==> #[trigger] pat[j] == s[i + j]
}

/// The first position at which `pat` occurs in `s`.
#[verifier::opaque]
pub open spec fn find_first(s: Seq<char>, pat: Seq<char>) -> Option<int> {
    if exists|i: int| occurs_at(s, pat, i) {
        Some(choose|i: int| occurs_at(s, pat, i) && forall|k: int| 0 <= k < i ==> !occurs_at(s, pat, k))
    } else {
        None
    }
}

/// The part of `h` after the first occurrence of `pat` in `lower`, the
/// occurrence's byte offset in `lower` being taken as a byte offset in `h`,
/// as slicing `h` by an index found in another text does. `None` when
/// `pat` does not occur; `Some(None)` when the offset is not a character
/// boundary of `h` or lies beyond its end, where slicing panics.
pub open spec fn after_match_in(h: Seq<char>, lower: Seq<char>, pat: Seq<char>) -> Option<Option<Seq<char>>> {
    match find_first(lower, pat) {
        Some(i) => match char_at_byte(h, utf8_byte_len(lower.take(i)) + utf8_byte_len(pat)) {
            Some(k) => Some(Some(h.skip(k))),
            None => Some(None),
        },
        None => None,
    }
}

/// `after_match_in`, the match being sought in the lower case of `h`.
pub open spec fn after_lowercase_match(h: Seq<char>, pat: Seq<char>) -> Option<Option<Seq<char>>> {
    after_match_in(h, unicode_lowercase(h), pat)
}

/// `s` without its leading copies of `c`.
pub open spec fn strip_leading(s: Seq<char>, c: char) -> Seq<char>
    decreases s.len(),
{
    if s.len() > 0 && s[0] == c { strip_leading(s.drop_first(), c) } else { s }
}

/// `s` without its trailing copies of `c`.
pub open spec fn strip_trailing(s: Seq<char>, c: char) -> Seq<char>
    decreases s.len(),
{
    if s.len() > 0 && s.last() == c { strip_trailing(s.drop_last(), c) } else { s }
}

/// `s` without leading white space.
pub open spec fn strip_leading_ws(s: Seq<char>) -> Seq<char>
    decreases s.len(),
{
    if s.len() > 0 && is_unicode_whitespace(s[0]) { strip_leading_ws(s.drop_first()) } else { s }
}

/// `s` without trailing white space.
pub open spec fn strip_trailing_ws(s: Seq<char>) -> Seq<char>
    decreases s.len(),
{
    if s.len() > 0 && is_unicode_whitespace(s.last()) { strip_trailing_ws(s.drop_last()) } else { s }
}

/// `s` without white space at either end (`str::trim`).
pub open spec fn trim_ws(s: Seq<char>) -> Seq<char> {
    strip_trailing_ws(strip_leading_ws(s))
}

/// The part of `s` before the first `c` (all of `s` when there is none).
pub open spec fn before_first(s: Seq<char>, c: char) -> Seq<char>
    decreases s.len(),
{
    if s.len() == 0 {
        s
    } else if s[0] == c {
        Seq::empty()
    } else {
        seq![s[0]] + before_first(s.drop_first(), c)
    }
}

/// The still encoded file name in a `Content-Disposition` header: after
/// `filename*=` (found in the header's lower case) and the charset's `''`,
/// or else after `filename=` (found the same way) with its quotes removed;
/// up to the next `;` and without surrounding white space. The outer
/// `None` stands for a header on which the slicing at a found offset
/// panics; `Some(None)` for a header that names no file.
pub open spec fn disposition_outcome(h: Seq<char>) -> Option<Option<Seq<char>>> {
    match after_lowercase_match(h, "filename*="@) {
        Some(Some(rest)) => {
            let v = strip_leading(rest, ' ');
            match find_first(v, "''"@) {
                Some(p) => Some(Some(trim_ws(before_first(v.skip(p + "''"@.len()), ';')))),
                None => plain_disposition_outcome(h),
            }
        },
        Some(None) => None,
        None => plain_disposition_outcome(h),
    }
}

/// The value after `filename=`, without its quotes, as `disposition_outcome`
/// reads it.
pub open spec fn plain_disposition_outcome(h: Seq<char>) -> Option<Option<Seq<char>>> {
    match after_lowercase_match(h, "filename="@) {
        Some(Some(rest)) => {
            let v = strip_trailing(strip_leading(strip_leading(rest, ' '), '"'), '"');
            Some(Some(trim_ws(before_first(v, ';'))))
        },
        Some(None) => None,
        None => Some(None),
    }
}

/// The header can be read without a slicing panic.
pub open spec fn disposition_in_bounds(h: Seq<char>) -> bool {
    disposition_outcome(h) is Some
}

/// The still encoded file name of a header that can be read.
pub open spec fn disposition_value(h: Seq<char>) -> Option<Seq<char>> {
    match disposition_outcome(h) {
        Some(v) => v,
        None => None,
    }
}

/// The percent-decoded form of a query value.
pub open spec fn percent_decoded(value: Seq<char>) -> Option<Seq<char>> {
    url_first_query_value("https://dummy/?v="@ + value)
}

/// The file name that a `Content-Disposition` header gives.
pub open spec fn disposition_filename(h: Seq<char>) -> Option<Seq<char>> {
    match disposition_value(h) {
        Some(v) => percent_decoded(v),
        None => None,
    }
}

// ---------------------------------------------------------------------
// Code

fn subvec(s: &[char], a: usize, b: usize) -> (v: Vec<char>)
    requires
        a <= b <= s@.len(),
    ensures
        v@ == s@.subrange(a as int, b as int),
{
    let mut v: Vec<char> = Vec::new();
    let mut i = a;
    while i < b
        invariant
            a <= i <= b,
            b <= s@.len(),
            v@ == s@.subrange(a as int, i as int),
        decreases b - i,
    {
        v.push(s[i]);
        i = i + 1;
        assert(v@ =~= s@.subrange(a as int, i as int));
    }
    v
}

proof fn lemma_first_occurrence(s: Seq<char>, pat: Seq<char>, i: int)
    requires
        occurs_at(s, pat, i),
        forall|k: int| 0 <= k < i ==> !occurs_at(s, pat, k),
    ensures
        find_first(s, pat) == Some(i),
{
    reveal(find_first);
    let m = choose|m: int| occurs_at(s, pat, m) && forall|k: int| 0 <= k < m ==> !occurs_at(s, pat, k);
    assert(occurs_at(s, pat, m) && forall|k: int| 0 <= k < m ==> !occurs_at(s, pat, k));
    if m < i {
        assert(!occurs_at(s, pat, m));
    } else if m > i {
        assert(!occurs_at(s, pat, i));
    }
}

proof fn lemma_least_occurrence(s: Seq<char>, pat: Seq<char>, k: int)
    requires
        occurs_at(s, pat, k),
    ensures
        exists|i: int| occurs_at(s, pat, i) && forall|j: int| 0 <= j < i ==> !occurs_at(s, pat, j),
    decreases k,
{
    if exists|j: int| 0 <= j < k && occurs_at(s, pat, j) {
        let j = choose|j: int| 0 <= j < k && occurs_at(s, pat, j);
        lemma_least_occurrence(s, pat, j);
    } else {
        assert(occurs_at(s, pat, k) && forall|j: int| 0 <= j < k ==> !occurs_at(s, pat, j));
    }
}

proof fn lemma_find_first_occurs(s: Seq<char>, pat: Seq<char>)
    ensures
        find_first(s, pat) matches Some(i) ==> occurs_at(s, pat, i),
{
    reveal(find_first);
    if exists|i: int| occurs_at(s, pat, i) {
        let k = choose|i: int| occurs_at(s, pat, i);
        lemma_least_occurrence(s, pat, k);
    }
}

proof fn lemma_ascii_byte_len(s: Seq<char>)
    requires
        is_ascii_text(s),
    ensures
        utf8_byte_len(s) == s.len(),
    decreases s.len(),
{
    if s.len() > 0 {
        assert(is_ascii_text(s.drop_last())) by {
            assert forall|i: int| 0 <= i < s.drop_last().len() implies (#[trigger] s.drop_last()[i] as u32) < 0x80 by {
                assert(s.drop_last()[i] == s[i]);
            }
        }
        lemma_ascii_byte_len(s.drop_last());
        assert((s.last() as u32) < 0x80);
    }
}

proof fn lemma_ascii_char_at_byte(s: Seq<char>, b: int)
    requires
        is_ascii_text(s),
        0 <= b <= s.len(),
    ensures
        char_at_byte(s, b) == Some(b),
    decreases s.len(),
{
    if b > 0 {
        assert((s[0] as u32) < 0x80);
        assert(is_ascii_text(s.drop_first())) by {
            assert forall|i: int| 0 <= i < s.drop_first().len() implies (#[trigger] s.drop_first()[i] as u32) < 0x80 by {
                assert(s.drop_first()[i] == s[i + 1]);
            }
        }
        lemma_ascii_char_at_byte(s.drop_first(), b - 1);
    }
}

proof fn lemma_ascii_lowercase_is_ascii(h: Seq<char>)
    requires
        is_ascii_text(h),
    ensures
        is_ascii_text(ascii_lowercase_text(h)),
        ascii_lowercase_text(h).len() == h.len(),
{
    let l = ascii_lowercase_text(h);
    assert forall|i: int| 0 <= i < l.len() implies (#[trigger] l[i] as u32) < 0x80 by {
        assert(l[i] == ascii_lower(h[i]));
        assert((h[i] as u32) < 0x80);
    }
}

/// In an ASCII text whose lower case is ASCII of the same length, the part
/// after a match of an ASCII pattern is always found.
proof fn lemma_ascii_after_match(h: Seq<char>, pat: Seq<char>)
    requires
        is_ascii_text(h),
        is_ascii_text(pat),
    ensures
        after_match_in(h, ascii_lowercase_text(h), pat) != Some(None::<Seq<char>>),
{
    let lower = ascii_lowercase_text(h);
    lemma_ascii_lowercase_is_ascii(h);
    lemma_find_first_occurs(lower, pat);
    if let Some(i) = find_first(lower, pat) {
        assert(is_ascii_text(lower.take(i))) by {
            assert forall|j: int| 0 <= j < lower.take(i).len() implies (#[trigger] lower.take(i)[j] as u32) < 0x80 by {
                assert(lower.take(i)[j] == lower[j]);
            }
        }
        lemma_ascii_byte_len(lower.take(i));
        lemma_ascii_byte_len(pat);
        lemma_ascii_char_at_byte(h, i + pat.len());
    }
}

/// An ASCII header is read without the slicing panic.
proof fn lemma_ascii_header_in_bounds(h: Seq<char>)
    requires
        is_ascii_text(h),
        unicode_lowercase(h) == ascii_lowercase_text(h),
    ensures
        disposition_in_bounds(h),
{
    reveal_strlit("filename*=");
    reveal_strlit("filename=");
    assert(is_ascii_text("filename*="@));
    assert(is_ascii_text("filename="@));
    lemma_ascii_after_match(h, "filename*="@);
    lemma_ascii_after_match(h, "filename="@);
}

fn occurs_here(s: &[char], pat: &[char], i: usize) -> (b: bool)
    requires
        i + pat@.len() <= s@.len(),
    ensures
        b == occurs_at(s@, pat@, i as int),
{
    let n = s.len();
    let mut j: usize = 0;
    while j < pat.len()
        invariant
            n == s@.len(),
            i + pat@.len() <= s@.len(),
            j <= pat@.len(),
            forall|k: int| 0 <= k < j ==> #[trigger] pat@[k] == s@[i + k],
        decreases pat.len() - j,
    {
        assert(i + j < s@.len());
        if s[i + j] != pat[j] {
            return false;
        }
        j = j + 1;
    }
    true
}

fn find_in(s: &[char], pat: &[char]) -> (r: Option<usize>)
    ensures
        match r {
            Some(i) => find_first(s@, pat@) == Some(i as int) && occurs_at(s@, pat@, i as int),
            None => find_first(s@, pat@) is None,
        },
{
    reveal(find_first);
    if pat.len() > s.len() {
        assert(!exists|i: int| occurs_at(s@, pat@, i));
        return None;
    }
    let last = s.len() - pat.len();
    let mut i: usize = 0;
    while i <= last
        invariant
            last == s@.len() - pat@.len(),
            forall|k: int| 0 <= k < i ==> !occurs_at(s@, pat@, k),
        decreases last + 1 - i,
    {
        if occurs_here(s, pat, i) {
            proof {
                lemma_first_occurrence(s@, pat@, i as int);
            }
            return Some(i);
        }
        if i == last {
            assert(!exists|k: int| occurs_at(s@, pat@, k)) by {
                assert forall|k: int| !occurs_at(s@, pat@, k) by {
                    if 0 <= k <= last {
                        assert(k < i || k == i);
                    }
                }
            }
            reveal(find_first);
            return None;
        }
        i = i + 1;
    }
    None
}

fn char_utf8_len(c: char) -> (n: u128)
    ensures
        n == utf8_len(c),
{
    let u = c as u32;
    if u < 0x80 {
        1
    } else if u < 0x800 {
        2
    } else if u < 0x10000 {
        3
    } else {
        4
    }
}

/// The number of bytes of the first `n` characters in UTF-8.
fn utf8_prefix_len(s: &[char], n: usize) -> (b: u128)
    requires
        n <= s@.len(),
    ensures
        b == utf8_byte_len(s@.take(n as int)),
        b <= 4 * n,
{
    let mut b: u128 = 0;
    let mut i: usize = 0;
    assert(s@.take(0) =~= Seq::<char>::empty());
    while i < n
        invariant
            i <= n <= s@.len(),
            b == utf8_byte_len(s@.take(i as int)),
            b <= 4 * i,
        decreases n - i,
    {
        assert(s@.take(i + 1).drop_last() =~= s@.take(i as int));
        let l = char_utf8_len(s[i]);
        b = b + l;
        i = i + 1;
    }
    b
}

/// The index of the character at byte offset `b`, as `char_at_byte`.
fn char_index_at_byte(s: &[char], b: u128) -> (r: Option<usize>)
    ensures
        match r {
            Some(k) => char_at_byte(s@, b as int) == Some(k as int) && k <= s@.len(),
            None => char_at_byte(s@, b as int) is None,
        },
{
    let mut k: usize = 0;
    let mut acc: u128 = 0;
    assert(s@.skip(0) =~= s@);
    while acc < b && k < s.len()
        invariant
            k <= s@.len(),
            acc <= b,
            match char_at_byte(s@.skip(k as int), b - acc) {
                Some(j) => char_at_byte(s@, b as int) == Some(j + k),
                None => char_at_byte(s@, b as int) is None,
            },
        decreases s.len() - k,
    {
        let l = char_utf8_len(s[k as usize]);
        assert(s@.skip(k as int).drop_first() =~= s@.skip(k + 1));
        assert(s@.skip(k as int)[0] == s@[k as int]);
        if l > b - acc {
            assert(char_at_byte(s@.skip(k + 1), b - acc - l) is None);
            return None;
        }
        acc = acc + l;
        k = k + 1;
    }
    if acc == b {
        Some(k)
    } else {
        assert(s@.skip(k as int) =~= Seq::<char>::empty());
        None
    }
}

/// The characters of `h` after the first occurrence of `pat` in `lower`,
/// as `after_match_in`.
fn after_match(h: &[char], lower: &[char], pat: &[char]) -> (r: Option<Option<Vec<char>>>)
    ensures
        match r {
            Some(Some(v)) => after_match_in(h@, lower@, pat@) == Some(Some(v@)),
            Some(None) => after_match_in(h@, lower@, pat@) == Some(None::<Seq<char>>),
            None => after_match_in(h@, lower@, pat@) is None,
        },
{
    match find_in(lower, pat) {
        Some(i) => {
            let a = utf8_prefix_len(lower, i);
            let p = utf8_prefix_len(pat, pat.len());
            assert(pat@.take(pat@.len() as int) =~= pat@);
            match char_index_at_byte(h, a + p) {
                Some(k) => {
                    let v = subvec(h, k, h.len());
                    assert(v@ =~= h@.skip(k as int));
                    Some(Some(v))
                },
                None => Some(None),
            }
        },
        None => None,
    }
}

fn without_leading(s: &[char], c: char) -> (v: Vec<char>)
    ensures
        v@ == strip_leading(s@, c),
{
    let mut i: usize = 0;
    assert(s@.skip(0) =~= s@);
    while i < s.len() && s[i] == c
        invariant
            i <= s@.len(),
            strip_leading(s@, c) == strip_leading(s@.skip(i as int), c),
        decreases s.len() - i,
    {
        assert(s@.skip(i as int).drop_first() =~= s@.skip(i + 1));
        i = i + 1;
    }
    assert(s@.subrange(i as int, s@.len() as int) =~= s@.skip(i as int));
    subvec(s, i, s.len())
}

fn without_trailing(s: &[char], c: char) -> (v: Vec<char>)
    ensures
        v@ == strip_trailing(s@, c),
{
    let mut j: usize = s.len();
    assert(s@.take(s@.len() as int) =~= s@);
    while j > 0 && s[j - 1] == c
        invariant
            j <= s@.len(),
            strip_trailing(s@, c) == strip_trailing(s@.take(j as int), c),
        decreases j,
    {
        assert(s@.take(j as int).drop_last() =~= s@.take(j - 1));
        j = j - 1;
    }
    assert(s@.subrange(0, j as int) =~= s@.take(j as int));
    subvec(s, 0, j)
}

fn trimmed(s: &[char]) -> (v: Vec<char>)
    ensures
        v@ == trim_ws(s@),
{
    let mut i: usize = 0;
    assert(s@.skip(0) =~= s@);
    while i < s.len() && is_whitespace_char(s[i])
        invariant
            i <= s@.len(),
            strip_leading_ws(s@) == strip_leading_ws(s@.skip(i as int)),
        decreases s.len() - i,
    {
        assert(s@.skip(i as int).drop_first() =~= s@.skip(i + 1));
        i = i + 1;
    }
    let ghost lead = s@.skip(i as int);
    assert(strip_leading_ws(s@) == lead);
    let mut j: usize = s.len();
    assert(lead =~= s@.subrange(i as int, s@.len() as int));
    while j > i && is_whitespace_char(s[j - 1])
        invariant
            i <= j <= s@.len(),
            lead == s@.skip(i as int),
            strip_trailing_ws(lead) == strip_trailing_ws(s@.subrange(i as int, j as int)),
        decreases j,
    {
        assert(s@.subrange(i as int, j as int).drop_last() =~= s@.subrange(i as int, j - 1));
        j = j - 1;
    }
    assert(lead =~= s@.subrange(i as int, s@.len() as int));
    subvec(s, i, j)
}

fn up_to(s: &[char], c: char) -> (v: Vec<char>)
    ensures
        v@ == before_first(s@, c),
{
    let mut i: usize = 0;
    assert(s@.skip(0) =~= s@);
    assert(s@.take(0) + before_first(s@, c) =~= before_first(s@, c));
    while i < s.len() && s[i] != c
        invariant
            i <= s@.len(),
            before_first(s@, c) == s@.take(i as int) + before_first(s@.skip(i as int), c),
        decreases s.len() - i,
    {
        assert(s@.skip(i as int).drop_first() =~= s@.skip(i + 1));
        assert(s@.take(i as int) + seq![s@[i as int]] =~= s@.take(i + 1));
        i = i + 1;
    }
    assert(before_first(s@.skip(i as int), c) =~= Seq::<char>::empty());
    assert(s@.subrange(0, i as int) =~= s@.take(i as int));
    subvec(s, 0, i)
}

fn unquoted(rest: &[char]) -> (v: Vec<char>)
    ensures
        v@ == strip_trailing(strip_leading(strip_leading(rest@, ' '), '"'), '"'),
{
    let a = without_leading(rest, ' ');
    let b = without_leading(a.as_slice(), '"');
    without_trailing(b.as_slice(), '"')
}

fn first_field_trimmed(v: &[char]) -> (s: String)
    ensures
        s@ == trim_ws(before_first(v@, ';')),
{
    let part = up_to(v, ';');
    let t = trimmed(part.as_slice());
    string_from_chars(t.as_slice())
}

fn plain_outcome(h: &[char], lower: &[char]) -> (r: Option<Option<String>>)
    requires
        lower@ == unicode_lowercase(h@),
    ensures
        match r {
            Some(v) => plain_disposition_outcome(h@) == Some(opt_text(v)),
            None => plain_disposition_outcome(h@) is None,
        },
{
    let plain = chars_of("filename=");
    match after_match(h, lower, plain.as_slice()) {
        Some(Some(rest)) => {
            let v = unquoted(rest.as_slice());
            let r = first_field_trimmed(v.as_slice());
            Some(Some(r))
        },
        Some(None) => None,
        None => Some(None),
    }
}

/// The outcome of reading a header: `None` where the original slicing
/// panics, else the still encoded file name, if any.
fn disposition_outcome_of(header: &str) -> (r: Option<Option<String>>)
    ensures
        match r {
            Some(v) => disposition_outcome(header@) == Some(opt_text(v)),
            None => disposition_outcome(header@) is None,
        },
        is_ascii_text(header@) ==> unicode_lowercase(header@) == ascii_lowercase_text(header@),
{
    let h = chars_of(header);
    let lower_text = lowercase_of(header);
    let lower = chars_of(lower_text.as_str());
    let star = chars_of("filename*=");
    let quotes = chars_of("''");
    match after_match(h.as_slice(), lower.as_slice(), star.as_slice()) {
        Some(Some(rest)) => {
            let v = without_leading(rest.as_slice(), ' ');
            let vl = v.len();
            match find_in(v.as_slice(), quotes.as_slice()) {
                Some(p) => {
                    let after = subvec(v.as_slice(), p + quotes.len(), vl);
                    assert(after@ =~= v@.skip(p + "''"@.len()));
                    let r = first_field_trimmed(after.as_slice());
                    Some(Some(r))
                },
                None => plain_outcome(h.as_slice(), lower.as_slice()),
            }
        },
        Some(None) => None,
        None => plain_outcome(h.as_slice(), lower.as_slice()),
    }
}

/// The still encoded file name of a `Content-Disposition` header value.
/// The header must be one that the reading can slice (see
/// `disposition_in_bounds`).
pub fn content_disposition_value(header: &str) -> (r: Option<String>)
    requires
        disposition_in_bounds(header@),
    ensures
        opt_text(r) == disposition_value(header@),
{
    match disposition_outcome_of(header) {
        Some(v) => v,
        None => None,
    }
}

/// Percent-decodes a query value (`+` as space), as the query of a URL
/// `https://dummy/?v=<value>` is decoded.
pub fn percent_decode(value: &str) -> (r: Option<String>)
    ensures
        opt_text(r) == percent_decoded(value@),
{
    let mut url_text = String::from_str("https://dummy/?v=");
    url_text.append(value);
    first_query_value(url_text.as_str())
}

/// The file name that a `Content-Disposition` header value gives, decoded.
/// The header must be one that the reading can slice (see
/// `disposition_in_bounds`).
pub fn parse_content_disposition_filename(header: &str) -> (r: Option<String>)
    requires
        disposition_in_bounds(header@),
    ensures
        opt_text(r) == disposition_filename(header@),
{
    match content_disposition_value(header) {
        Some(v) => percent_decode(v.as_str()),
        None => None,
    }
}

/// As `parse_content_disposition_filename`, for any header: `None` for a
/// header whose reading cannot slice it at the offset found in its lower
/// case (where the reading would panic), else `Some` of the file name. An
/// ASCII header is always read; it names no file unless its lower case
/// holds `filename*=` or `filename=`.
pub fn try_parse_content_disposition_filename(header: &str) -> (r: Option<Option<String>>)
    ensures
        r is None <==> !disposition_in_bounds(header@),
        r matches Some(f) ==> opt_text(f) == disposition_filename(header@),
        is_ascii_text(header@) ==> r is Some,
        is_ascii_text(header@) && find_first(ascii_lowercase_text(header@), "filename*="@) is None
            && find_first(ascii_lowercase_text(header@), "filename="@) is None ==> r == Some(None::<String>),
{
    let outcome = disposition_outcome_of(header);
    proof {
        if is_ascii_text(header@) {
            lemma_ascii_header_in_bounds(header@);
        }
    }
    if outcome.is_some() {
        Some(parse_content_disposition_filename(header))
    } else {
        None
    }
}

// ---------------------------------------------------------------------
// Laws

proof fn lemma_before_first_lacks(s: Seq<char>, c: char)
    ensures
        !before_first(s, c).contains(c),
        before_first(s, c).len() <= s.len(),
    decreases s.len(),
{
    if s.len() > 0 && s[0] != c {
        lemma_before_first_lacks(s.drop_first(), c);
        let b = before_first(s, c);
        let r = before_first(s.drop_first(), c);
        assert(b == seq![s[0]] + r);
        if b.contains(c) {
            let i = choose|i: int| 0 <= i < b.len() && b[i] == c;
            if i > 0 {
                assert(r[i - 1] == c);
            }
        }
    } else if s.len() > 0 {
        assert(before_first(s, c) =~= Seq::<char>::empty());
    }
}

proof fn lemma_before_first_at(value: Seq<char>, tail: Seq<char>, c: char)
    requires
        !value.contains(c),
    ensures
        before_first(value + seq![c] + tail, c) == value,
    decreases value.len(),
{
    let s = value + seq![c] + tail;
    if value.len() == 0 {
        assert(s[0] == c);
        assert(before_first(s, c) =~= value);
    } else {
        assert(value[0] != c);
        assert(!value.drop_first().contains(c)) by {
            if value.drop_first().contains(c) {
                let i = choose|i: int| 0 <= i < value.drop_first().len() && value.drop_first()[i] == c;
                assert(value[i + 1] == c);
            }
        }
        lemma_before_first_at(value.drop_first(), tail, c);
        assert(s.drop_first() =~= value.drop_first() + seq![c] + tail);
        assert(before_first(s, c) =~= seq![value[0]] + value.drop_first());
        assert(seq![value[0]] + value.drop_first() =~= value);
    }
}

proof fn lemma_trim_lacks(s: Seq<char>, c: char)
    requires
        !s.contains(c),
    ensures
        !trim_ws(s).contains(c),
{
    lemma_strip_leading_ws_lacks(s, c);
    lemma_strip_trailing_ws_lacks(strip_leading_ws(s), c);
}

proof fn lemma_strip_leading_ws_lacks(s: Seq<char>, c: char)
    requires
        !s.contains(c),
    ensures
        !strip_leading_ws(s).contains(c),
    decreases s.len(),
{
    if s.len() > 0 && is_unicode_whitespace(s[0]) {
        assert(!s.drop_first().contains(c)) by {
            if s.drop_first().contains(c) {
                let i = choose|i: int| 0 <= i < s.drop_first().len() && s.drop_first()[i] == c;
                assert(s[i + 1] == c);
            }
        }
        lemma_strip_leading_ws_lacks(s.drop_first(), c);
    }
}

proof fn lemma_strip_trailing_ws_lacks(s: Seq<char>, c: char)
    requires
        !s.contains(c),
    ensures
        !strip_trailing_ws(s).contains(c),
    decreases s.len(),
{
    if s.len() > 0 && is_unicode_whitespace(s.last()) {
        assert(!s.drop_last().contains(c)) by {
            if s.drop_last().contains(c) {
                let i = choose|i: int| 0 <= i < s.drop_last().len() && s.drop_last()[i] == c;
                assert(s[i] == c);
            }
        }
        lemma_strip_trailing_ws_lacks(s.drop_last(), c);
    }
}

/// The encoded file name of a header never holds a `;`: whichever of
/// `filename*=` and `filename=` gives it, it ends before the next
/// parameter.
pub proof fn lemma_disposition_value_lacks_semicolon(h: Seq<char>)
    ensures
        disposition_value(h) matches Some(v) ==> !v.contains(';'),
{
    match after_lowercase_match(h, "filename*="@) {
        Some(Some(rest)) => {
            let v = strip_leading(rest, ' ');
            if let Some(p) = find_first(v, "''"@) {
                let x = before_first(v.skip(p + "''"@.len()), ';');
                lemma_before_first_lacks(v.skip(p + "''"@.len()), ';');
                lemma_trim_lacks(x, ';');
            }
        },
        _ => {},
    }
    match after_lowercase_match(h, "filename="@) {
        Some(Some(rest)) => {
            let v = strip_trailing(strip_leading(strip_leading(rest, ' '), '"'), '"');
            lemma_before_first_lacks(v, ';');
            lemma_trim_lacks(before_first(v, ';'), ';');
        },
        _ => {},
    }
}

/// When the part after `filename*=` and the charset's `''` is a value, a
/// `;` and further parameters, the encoded file name is that value without
/// surrounding white space, and the file name its percent-decoding.
pub proof fn lemma_extended_value_ends_at_semicolon(
    h: Seq<char>,
    rest: Seq<char>,
    p: int,
    value: Seq<char>,
    tail: Seq<char>,
)
    requires
        after_lowercase_match(h, "filename*="@) == Some(Some(rest)),
        find_first(strip_leading(rest, ' '), "''"@) == Some(p),
        strip_leading(rest, ' ').skip(p + "''"@.len()) == value + seq![';'] + tail,
        !value.contains(';'),
    ensures
        disposition_value(h) == Some(trim_ws(value)),
        disposition_filename(h) == percent_decoded(trim_ws(value)),
{
    lemma_before_first_at(value, tail, ';');
}

} // verus!
