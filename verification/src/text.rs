//! Verified character and string utilities.
//!
//! The rest of the library states its contracts over `Seq<char>` views; this
//! module supplies the spec-level vocabulary (substring matching, leftmost
//! occurrence, trimming, line splitting, decimal numerals) together with
//! verified executable counterparts that operate on `&str` and `Vec<char>`.

use vstd::prelude::*;

verus! {

// ---------------------------------------------------------------------------
// Substring matching and leftmost occurrence
// ---------------------------------------------------------------------------

/// The needle occurs in the haystack starting at position `i`.
pub open spec fn match_at(hay: Seq<char>, needle: Seq<char>, i: int) -> bool {
    0 <= i && i + needle.len() <= hay.len() && hay.subrange(i, i + needle.len() as int) == needle
}

/// The needle occurs somewhere in the haystack.
pub open spec fn contains_seq(hay: Seq<char>, needle: Seq<char>) -> bool {
    exists|i: int| match_at(hay, needle, i)
}

/// Index of the leftmost occurrence of the needle, or -1 when it does not
/// occur.
pub open spec fn find_index(hay: Seq<char>, needle: Seq<char>) -> int
    decreases hay.len(),
{
    if hay.len() < needle.len() {
        -1
    } else if hay.subrange(0, needle.len() as int) == needle {
        0
    } else if hay.len() == 0 {
        -1
    } else {
        let r = find_index(hay.drop_first(), needle);
        if r < 0 {
            -1
        } else {
            r + 1
        }
    }
}

/// A match of the needle inside `hay.drop_first()` at `i` is a match inside
/// `hay` at `i + 1`, and conversely.
proof fn lemma_match_at_drop_first(hay: Seq<char>, needle: Seq<char>, i: int)
    requires
        hay.len() > 0,
        0 <= i,
    ensures
        match_at(hay.drop_first(), needle, i) == match_at(hay, needle, i + 1),
{
    if match_at(hay.drop_first(), needle, i) {
        assert(hay.subrange(i + 1, i + 1 + needle.len() as int) =~= hay.drop_first().subrange(
            i,
            i + needle.len() as int,
        ));
    }
    if match_at(hay, needle, i + 1) {
        assert(hay.drop_first().subrange(i, i + needle.len() as int) =~= hay.subrange(
            i + 1,
            i + 1 + needle.len() as int,
        ));
    }
}

/// `find_index` returns the leftmost match: a nonnegative result is a match
/// preceded by none, and -1 means the needle does not occur at all.
pub proof fn lemma_find_index(hay: Seq<char>, needle: Seq<char>)
    ensures
        find_index(hay, needle) >= 0 ==> {
            &&& match_at(hay, needle, find_index(hay, needle))
            &&& find_index(hay, needle) + needle.len() <= hay.len()
            &&& forall|j: int| 0 <= j < find_index(hay, needle) ==> !match_at(hay, needle, j)
        },
        find_index(hay, needle) < 0 ==> !contains_seq(hay, needle),
    decreases hay.len(),
{
    if hay.len() < needle.len() {
        assert forall|i: int| !match_at(hay, needle, i) by {}
    } else if hay.subrange(0, needle.len() as int) == needle {
        assert(match_at(hay, needle, 0));
    } else if hay.len() == 0 {
        assert(needle.len() == 0);
        assert(hay.subrange(0, 0) =~= needle);
    } else {
        lemma_find_index(hay.drop_first(), needle);
        let r = find_index(hay.drop_first(), needle);
        assert forall|j: int| 0 <= j implies match_at(hay, needle, j + 1) == match_at(
            hay.drop_first(),
            needle,
            j,
        ) by {
            lemma_match_at_drop_first(hay, needle, j);
        }
        if r < 0 {
            assert forall|i: int| !match_at(hay, needle, i) by {
                if i > 0 {
                    assert(!match_at(hay.drop_first(), needle, i - 1));
                }
            }
        } else {
            assert(match_at(hay, needle, r + 1));
            assert forall|j: int| 0 <= j < r + 1 implies !match_at(hay, needle, j) by {
                if j > 0 {
                    assert(!match_at(hay.drop_first(), needle, j - 1));
                }
            }
        }
    }
}

/// Leftmost matches are unique, so any position that is a match with no match
/// before it equals `find_index`.
pub proof fn lemma_find_index_unique(hay: Seq<char>, needle: Seq<char>, i: int)
    requires
        match_at(hay, needle, i),
        forall|j: int| 0 <= j < i ==> !match_at(hay, needle, j),
    ensures
        find_index(hay, needle) == i,
{
    lemma_find_index(hay, needle);
    let f = find_index(hay, needle);
    if f < 0 {
        assert(contains_seq(hay, needle));
    } else if f < i {
        assert(!match_at(hay, needle, f));
    } else if i < f {
        assert(!match_at(hay, needle, i));
    }
}

/// When the needle does not occur, `find_index` is -1.
pub proof fn lemma_find_index_none(hay: Seq<char>, needle: Seq<char>)
    requires
        forall|j: int| !match_at(hay, needle, j),
    ensures
        find_index(hay, needle) == -1,
{
    lemma_find_index(hay, needle);
    if find_index(hay, needle) >= 0 {
        assert(match_at(hay, needle, find_index(hay, needle)));
    }
}

// ---------------------------------------------------------------------------
// Executable scanning
// ---------------------------------------------------------------------------

/// Collects the characters of a string slice.
pub fn chars_of(s: &str) -> (v: Vec<char>)
    ensures
        v@ == s@,
{
    let n = s.unicode_len();
    let mut v: Vec<char> = Vec::new();
    let mut i: usize = 0;
    while i < n
        invariant
            n == s@.len(),
            i <= n,
            v@ == s@.take(i as int),
        decreases n - i,
    {
        let c = s.get_char(i);
        v.push(c);
        assert(v@ =~= s@.take(i + 1));
        i = i + 1;
    }
    assert(v@ =~= s@);
    v
}

/// Character-wise equality of two string slices.
pub fn str_eq(a: &str, b: &str) -> (r: bool)
    ensures
        r == (a@ == b@),
{
    let na = a.unicode_len();
    let nb = b.unicode_len();
    if na != nb {
        assert(a@ != b@);
        return false;
    }
    let mut i: usize = 0;
    while i < na
        invariant
            na == a@.len(),
            na == b@.len(),
            i <= na,
            forall|j: int| 0 <= j < i ==> a@[j] == b@[j],
        decreases na - i,
    {
        if a.get_char(i) != b.get_char(i) {
            return false;
        }
        i = i + 1;
    }
    assert(a@ =~= b@);
    true
}

/// The needle matches the haystack at position `i`.
fn match_here(hay: &Vec<char>, needle: &Vec<char>, i: usize) -> (r: bool)
    requires
        i + needle@.len() <= hay@.len(),
    ensures
        r == match_at(hay@, needle@, i as int),
{
    let n = needle.len();
    let hlen = hay.len();
    let mut k: usize = 0;
    while k < n
        invariant
            n == needle@.len(),
            hlen == hay@.len(),
            i + n <= hlen,
            k <= n,
            forall|j: int| 0 <= j < k ==> hay@[i + j] == needle@[j],
        decreases n - k,
    {
        if hay[i + k] != needle[k] {
            assert(hay@.subrange(i as int, i + n as int)[k as int] != needle@[k as int]);
            return false;
        }
        k = k + 1;
    }
    assert(hay@.subrange(i as int, i + n as int) =~= needle@);
    true
}

/// Finds the leftmost occurrence of the needle at or after `from`.
pub fn find_from(hay: &Vec<char>, from: usize, needle: &Vec<char>) -> (r: Option<usize>)
    ensures
        match r {
            Some(i) => {
                &&& from <= i
                &&& match_at(hay@, needle@, i as int)
                &&& forall|j: int| from <= j < i ==> !match_at(hay@, needle@, j)
            },
            None => forall|j: int| from <= j ==> !match_at(hay@, needle@, j),
        },
{
    let hlen = hay.len();
    let nlen = needle.len();
    if from > hlen {
        assert forall|j: int| from <= j implies !match_at(hay@, needle@, j) by {}
        return None;
    }
    if nlen == 0 {
        assert(hay@.subrange(from as int, from as int) =~= needle@);
        return Some(from);
    }
    if nlen > hlen {
        assert forall|j: int| from <= j implies !match_at(hay@, needle@, j) by {}
        return None;
    }
    let last = hlen - nlen;
    if from > last {
        assert forall|j: int| from <= j implies !match_at(hay@, needle@, j) by {}
        return None;
    }
    let mut i: usize = from;
    while i <= last
        invariant
            hlen == hay@.len(),
            nlen == needle@.len(),
            1 <= nlen <= hlen,
            last == hlen - nlen,
            from <= i <= last + 1,
            forall|j: int| from <= j < i ==> !match_at(hay@, needle@, j),
        decreases last + 1 - i,
    {
        if match_here(hay, needle, i) {
            return Some(i);
        }
        i = i + 1;
    }
    assert forall|j: int| from <= j implies !match_at(hay@, needle@, j) by {}
    None
}

/// Whether the needle occurs anywhere in the haystack.
pub fn contains_chars(hay: &Vec<char>, needle: &Vec<char>) -> (r: bool)
    ensures
        r == contains_seq(hay@, needle@),
{
    match find_from(hay, 0, needle) {
        Some(i) => {
            assert(match_at(hay@, needle@, i as int));
            true
        },
        None => {
            assert forall|j: int| !match_at(hay@, needle@, j) by {}
            false
        },
    }
}

/// Finds the leftmost occurrence of the needle, tied to `find_index`.
pub fn find_first(hay: &Vec<char>, needle: &Vec<char>) -> (r: Option<usize>)
    ensures
        match r {
            Some(i) => i as int == find_index(hay@, needle@) && match_at(hay@, needle@, i as int),
            None => find_index(hay@, needle@) == -1,
        },
{
    match find_from(hay, 0, needle) {
        Some(i) => {
            proof {
                lemma_find_index_unique(hay@, needle@, i as int);
            }
            Some(i)
        },
        None => {
            proof {
                lemma_find_index_none(hay@, needle@);
            }
            None
        },
    }
}

/// Matching inside a suffix corresponds to matching in the whole sequence,
/// shifted by the start of the suffix.
pub proof fn lemma_match_at_skip(hay: Seq<char>, needle: Seq<char>, from: int, j: int)
    requires
        0 <= from <= hay.len(),
        0 <= j,
    ensures
        match_at(hay.skip(from), needle, j) == match_at(hay, needle, from + j),
{
    if match_at(hay.skip(from), needle, j) {
        assert(hay.subrange(from + j, from + j + needle.len() as int) =~= hay.skip(from).subrange(
            j,
            j + needle.len() as int,
        ));
    }
    if match_at(hay, needle, from + j) {
        assert(hay.skip(from).subrange(j, j + needle.len() as int) =~= hay.subrange(
            from + j,
            from + j + needle.len() as int,
        ));
    }
}

/// Finds the leftmost occurrence of the needle at or after `from`, tied to
/// `find_index` of the corresponding suffix.
pub fn find_in_suffix(hay: &Vec<char>, from: usize, needle: &Vec<char>) -> (r: Option<usize>)
    requires
        from <= hay@.len(),
    ensures
        match r {
            Some(i) => {
                &&& from <= i
                &&& i - from == find_index(hay@.skip(from as int), needle@)
                &&& match_at(hay@, needle@, i as int)
            },
            None => find_index(hay@.skip(from as int), needle@) == -1,
        },
{
    let ghost suffix = hay@.skip(from as int);
    match find_from(hay, from, needle) {
        Some(i) => {
            proof {
                lemma_match_at_skip(hay@, needle@, from as int, i - from);
                assert forall|k: int| 0 <= k < i - from implies !match_at(suffix, needle@, k) by {
                    lemma_match_at_skip(hay@, needle@, from as int, k);
                }
                lemma_find_index_unique(suffix, needle@, i - from);
            }
            Some(i)
        },
        None => {
            proof {
                assert forall|k: int| !match_at(suffix, needle@, k) by {
                    if k >= 0 {
                        lemma_match_at_skip(hay@, needle@, from as int, k);
                    }
                }
                lemma_find_index_none(suffix, needle@);
            }
            None
        },
    }
}

// ---------------------------------------------------------------------------
// Whitespace and trimming
// ---------------------------------------------------------------------------

/// The Unicode `White_Space` characters, as honored by `char::is_whitespace`.
pub open spec fn is_space_char(c: char) -> bool {
    ||| c == '\u{9}'
    ||| c == '\u{A}'
    ||| c == '\u{B}'
    ||| c == '\u{C}'
    ||| c == '\u{D}'
    ||| c == ' '
    ||| c == '\u{85}'
    ||| c == '\u{A0}'
    ||| c == '\u{1680}'
    ||| ('\u{2000}' <= c && c <= '\u{200A}')
    ||| c == '\u{2028}'
    ||| c == '\u{2029}'
    ||| c == '\u{202F}'
    ||| c == '\u{205F}'
    ||| c == '\u{3000}'
}

/// Decides membership in the Unicode `White_Space` set.
pub fn is_space(c: char) -> (r: bool)
    ensures
        r == is_space_char(c),
{
    c == '\u{9}' || c == '\u{A}' || c == '\u{B}' || c == '\u{C}' || c == '\u{D}' || c == ' ' || c
        == '\u{85}' || c == '\u{A0}' || c == '\u{1680}' || ('\u{2000}' <= c && c <= '\u{200A}') || c
        == '\u{2028}' || c == '\u{2029}' || c == '\u{202F}' || c == '\u{205F}' || c == '\u{3000}'
}

/// The sequence with its leading whitespace removed.
pub open spec fn trim_start_seq(s: Seq<char>) -> Seq<char>
    decreases s.len(),
{
    if s.len() > 0 && is_space_char(s.first()) {
        trim_start_seq(s.drop_first())
    } else {
        s
    }
}

/// The sequence with its trailing whitespace removed.
pub open spec fn trim_end_seq(s: Seq<char>) -> Seq<char>
    decreases s.len(),
{
    if s.len() > 0 && is_space_char(s.last()) {
        trim_end_seq(s.drop_last())
    } else {
        s
    }
}

/// The sequence with whitespace removed from both ends.
pub open spec fn trimmed(s: Seq<char>) -> Seq<char> {
    trim_end_seq(trim_start_seq(s))
}

/// Dropping `k` leading whitespace characters, up to the first character that
/// is not whitespace, yields the start-trimmed sequence.
proof fn lemma_trim_start_skip(s: Seq<char>, k: int)
    requires
        0 <= k <= s.len(),
        forall|i: int| 0 <= i < k ==> is_space_char(s[i]),
        k == s.len() || !is_space_char(s[k]),
    ensures
        trim_start_seq(s) == s.skip(k),
    decreases k,
{
    if k == 0 {
        assert(s.skip(0) =~= s);
    } else {
        assert(is_space_char(s.first()));
        lemma_trim_start_skip(s.drop_first(), k - 1);
        assert(s.drop_first().skip(k - 1) =~= s.skip(k));
    }
}

/// Keeping the first `k` characters, where everything after them is
/// whitespace and the `k`-th from the left is not, yields the end-trimmed
/// sequence.
proof fn lemma_trim_end_take(s: Seq<char>, k: int)
    requires
        0 <= k <= s.len(),
        forall|i: int| k <= i < s.len() ==> is_space_char(s[i]),
        k == 0 || !is_space_char(s[k - 1]),
    ensures
        trim_end_seq(s) == s.take(k),
    decreases s.len() - k,
{
    if k == s.len() {
        assert(s.take(k) =~= s);
    } else {
        assert(is_space_char(s.last()));
        lemma_trim_end_take(s.drop_last(), k);
        assert(s.drop_last().take(k) =~= s.take(k));
    }
}

/// Computes the bounds of `trimmed(v@.subrange(from, to))` inside `v`.
pub fn trim_range(v: &Vec<char>, from: usize, to: usize) -> (r: (usize, usize))
    requires
        from <= to <= v@.len(),
    ensures
        from <= r.0 <= r.1 <= to,
        v@.subrange(r.0 as int, r.1 as int) == trimmed(v@.subrange(from as int, to as int)),
{
    let ghost s = v@.subrange(from as int, to as int);
    let mut a: usize = from;
    while a < to && is_space(v[a])
        invariant
            from <= a <= to <= v@.len(),
            forall|i: int| from <= i < a ==> is_space_char(v@[i]),
        decreases to - a,
    {
        a = a + 1;
    }
    proof {
        assert forall|i: int| 0 <= i < a - from implies is_space_char(s[i]) by {}
        lemma_trim_start_skip(s, a - from);
    }
    let ghost t = s.skip(a - from);
    assert(t =~= v@.subrange(a as int, to as int));
    let mut b: usize = to;
    while b > a && is_space(v[b - 1])
        invariant
            from <= a <= b <= to <= v@.len(),
            forall|i: int| b <= i < to ==> is_space_char(v@[i]),
        decreases b,
    {
        b = b - 1;
    }
    proof {
        assert forall|i: int| b - a <= i < t.len() implies is_space_char(t[i]) by {}
        lemma_trim_end_take(t, b - a);
        assert(t.take(b - a) =~= v@.subrange(a as int, b as int));
    }
    (a, b)
}

/// The string with whitespace removed from both ends.
pub fn trim_of(s: &str) -> (r: String)
    ensures
        r@ == trimmed(s@),
{
    let v = chars_of(s);
    let (a, b) = trim_range(&v, 0, v.len());
    proof {
        assert(v@.subrange(0, v@.len() as int) =~= v@);
    }
    s.substring_char(a, b).to_owned()
}

// ---------------------------------------------------------------------------
// Lines
// ---------------------------------------------------------------------------

/// The first line of a nonempty text: everything before the first line feed,
/// with a carriage return immediately preceding that line feed removed.
pub open spec fn first_line(s: Seq<char>) -> Seq<char> {
    let i = find_index(s, seq!['\n']);
    if i < 0 || i > s.len() {
        s
    } else if i > 0 && s[i - 1] == '\r' {
        s.take(i - 1)
    } else {
        s.take(i)
    }
}

/// The lines of a text, split at line feeds, each stripped of a trailing
/// carriage return; a final line ending produces no empty last line.
pub open spec fn lines_of(s: Seq<char>) -> Seq<Seq<char>>
    decreases s.len(),
{
    if s.len() == 0 {
        Seq::empty()
    } else {
        // A found line feed lies within the text; the guard makes that
        // evident to the termination check.
        let i = find_index(s, seq!['\n']);
        if i < 0 || i >= s.len() {
            seq![s]
        } else {
            seq![first_line(s)] + lines_of(s.skip(i + 1))
        }
    }
}

// ---------------------------------------------------------------------------
// Whitespace splitting
// ---------------------------------------------------------------------------

/// The length of the word at the start of the sequence: the number of
/// characters before the first whitespace.
pub open spec fn word_end(s: Seq<char>) -> nat
    decreases s.len(),
{
    if s.len() == 0 || is_space_char(s.first()) {
        0
    } else {
        1 + word_end(s.drop_first())
    }
}

/// A run of non-whitespace characters bounded by whitespace or the end is
/// exactly the word at the start.
proof fn lemma_word_end_char(s: Seq<char>, k: int)
    requires
        0 <= k <= s.len(),
        forall|i: int| 0 <= i < k ==> !is_space_char(s[i]),
        k == s.len() || is_space_char(s[k]),
    ensures
        word_end(s) == k,
    decreases k,
{
    if k == 0 {
    } else {
        lemma_word_end_char(s.drop_first(), k - 1);
    }
}

/// The whitespace-separated words of a sequence, in order, with no empty
/// words.
pub open spec fn split_ws(s: Seq<char>) -> Seq<Seq<char>>
    decreases s.len(),
{
    if s.len() == 0 {
        Seq::empty()
    } else if is_space_char(s.first()) {
        split_ws(s.drop_first())
    } else {
        // The word is nonempty and never runs past the end; the guard makes
        // that evident to the termination check.
        let e = word_end(s) as int;
        if e < 1 || e > s.len() {
            seq![s]
        } else {
            seq![s.take(e)] + split_ws(s.skip(e))
        }
    }
}

/// The views of a sequence of strings.
pub open spec fn views_of(ss: Seq<String>) -> Seq<Seq<char>> {
    ss.map_values(|x: String| x@)
}

/// Splits a string into its whitespace-separated words.
pub fn split_whitespace(s: &str) -> (r: Vec<String>)
    ensures
        views_of(r@) == split_ws(s@),
        r@.len() == split_ws(s@).len(),
        forall|i: int| 0 <= i < r@.len() ==> #[trigger] r@[i]@ == split_ws(s@)[i],
{
    let v = chars_of(s);
    let len = v.len();
    let mut out: Vec<String> = Vec::new();
    let mut i: usize = 0;
    proof {
        assert(v@.skip(0) =~= v@);
        assert(views_of(out@) + split_ws(v@) =~= split_ws(v@));
    }
    while i < len
        invariant
            len == v@.len(),
            v@ == s@,
            i <= len,
            split_ws(v@) == views_of(out@) + split_ws(v@.skip(i as int)),
        decreases len - i,
    {
        if is_space(v[i]) {
            proof {
                assert(v@.skip(i as int).drop_first() =~= v@.skip(i + 1));
            }
            i = i + 1;
        } else {
            let start = i;
            i = i + 1;
            while i < len && !is_space(v[i])
                invariant
                    len == v@.len(),
                    start < i <= len,
                    forall|j: int| start <= j < i ==> !is_space_char(v@[j]),
                decreases len - i,
            {
                i = i + 1;
            }
            proof {
                let suffix = v@.skip(start as int);
                assert forall|k: int| 0 <= k < i - start implies !is_space_char(suffix[k]) by {}
                if i < len {
                    assert(is_space_char(suffix[i - start]));
                }
                lemma_word_end_char(suffix, i - start);
                assert(suffix.take(i - start) =~= v@.subrange(start as int, i as int));
                assert(suffix.skip(i - start) =~= v@.skip(i as int));
            }
            let word = s.substring_char(start, i).to_owned();
            proof {
                let ghost prev = out@;
                assert(split_ws(v@.skip(start as int)) =~= seq![word@] + split_ws(
                    v@.skip(i as int),
                ));
            }
            let ghost prev = out@;
            out.push(word);
            proof {
                assert(views_of(out@) =~= views_of(prev).push(word@));
                assert(views_of(prev).push(word@) + split_ws(v@.skip(i as int)) =~= views_of(prev)
                    + (seq![word@] + split_ws(v@.skip(i as int))));
            }
        }
    }
    proof {
        assert(v@.skip(len as int) =~= Seq::<char>::empty());
        assert(views_of(out@) + split_ws(v@.skip(len as int)) =~= views_of(out@));
        assert forall|k: int| 0 <= k < out@.len() implies #[trigger] out@[k]@ == split_ws(s@)[k] by {
            assert(views_of(out@)[k] == out@[k]@);
        }
    }
    out
}

// ---------------------------------------------------------------------------
// Decimal numerals
// ---------------------------------------------------------------------------

/// The character is a decimal digit.
pub open spec fn is_digit_char(c: char) -> bool {
    '0' <= c && c <= '9'
}

/// The numeric value of a decimal digit character.
pub open spec fn digit_val(c: char) -> int {
    c as int - '0' as int
}

/// Every character of the sequence is a decimal digit.
pub open spec fn all_digits(s: Seq<char>) -> bool {
    forall|i: int| 0 <= i < s.len() ==> is_digit_char(s[i])
}

/// The value of a sequence of decimal digits, most significant first.
pub open spec fn digits_val(s: Seq<char>) -> int
    decreases s.len(),
{
    if s.len() == 0 {
        0
    } else {
        digits_val(s.drop_last()) * 10 + digit_val(s.last())
    }
}

/// A digit string has a nonnegative value.
pub proof fn lemma_digits_val_nonneg(s: Seq<char>)
    requires
        all_digits(s),
    ensures
        digits_val(s) >= 0,
    decreases s.len(),
{
    if s.len() > 0 {
        assert(all_digits(s.drop_last()));
        lemma_digits_val_nonneg(s.drop_last());
    }
}

/// The value of a prefix of a digit string never exceeds the value of the
/// whole string.
pub proof fn lemma_digits_val_prefix(s: Seq<char>, k: int)
    requires
        all_digits(s),
        0 <= k <= s.len(),
    ensures
        digits_val(s.take(k)) <= digits_val(s),
    decreases s.len() - k,
{
    if k == s.len() {
        assert(s.take(k) =~= s);
    } else {
        lemma_digits_val_prefix(s, k + 1);
        let t = s.take(k + 1);
        assert(t.drop_last() =~= s.take(k));
        assert(all_digits(t.drop_last()));
        lemma_digits_val_nonneg(t.drop_last());
        assert(digits_val(t) == digits_val(s.take(k)) * 10 + digit_val(t.last()));
        assert(digit_val(t.last()) >= 0);
    }
}

/// Parses the digit run `v[from..to]` as a number, refusing empty runs,
/// non-digits, and values above `limit`.
pub fn parse_digits_bounded(v: &Vec<char>, from: usize, to: usize, limit: u64) -> (r: Option<u64>)
    requires
        from <= to <= v@.len(),
    ensures
        ({
            let s = v@.subrange(from as int, to as int);
            match r {
                Some(n) => {
                    &&& s.len() > 0
                    &&& all_digits(s)
                    &&& n as int == digits_val(s)
                    &&& n <= limit
                },
                None => s.len() == 0 || !all_digits(s) || digits_val(s) > limit,
            }
        }),
{
    let ghost s = v@.subrange(from as int, to as int);
    if from == to {
        return None;
    }
    let mut acc: u64 = 0;
    let mut i: usize = from;
    while i < to
        invariant
            from <= i <= to <= v@.len(),
            s == v@.subrange(from as int, to as int),
            acc <= limit,
            all_digits(s.take(i - from)),
            acc as int == digits_val(s.take(i - from)),
        decreases to - i,
    {
        let c = v[i];
        if !(c >= '0' && c <= '9') {
            assert(!is_digit_char(s[i - from]));
            return None;
        }
        let d = (c as u32 - '0' as u32) as u64;
        assert(d as int == digit_val(s[i - from]));
        if d > limit || acc > (limit - d) / 10 {
            proof {
                let t = s.take(i - from + 1);
                assert(t.drop_last() =~= s.take(i - from));
                assert(digits_val(t) == acc * 10 + d);
                assert(acc * 10 + d > limit);
                if all_digits(s) {
                    lemma_digits_val_prefix(s, i - from + 1);
                }
            }
            return None;
        }
        proof {
            let t = s.take(i - from + 1);
            assert(t.drop_last() =~= s.take(i - from));
            assert(digits_val(t) == acc * 10 + d);
        }
        acc = acc * 10 + d;
        i = i + 1;
    }
    assert(s.take(to - from) =~= s);
    Some(acc)
}

/// The numeral accepted by a signed 32-bit parse: an optional sign followed
/// by at least one digit, the value within the type's range.
pub open spec fn parse_i32_spec(s: Seq<char>) -> Option<int> {
    if s.len() == 0 {
        None
    } else {
        let neg = s[0] == '-';
        let b = if s[0] == '-' || s[0] == '+' {
            s.drop_first()
        } else {
            s
        };
        if b.len() == 0 || !all_digits(b) {
            None
        } else {
            let v = digits_val(b);
            if neg {
                if v <= 0x8000_0000 {
                    Some(-v)
                } else {
                    None
                }
            } else {
                if v <= 0x7FFF_FFFF {
                    Some(v)
                } else {
                    None
                }
            }
        }
    }
}

/// Parses `v[from..]` as a signed 32-bit numeral.
pub fn parse_i32_from(v: &Vec<char>, from: usize) -> (r: Option<i32>)
    requires
        from <= v@.len(),
    ensures
        match r {
            Some(n) => parse_i32_spec(v@.skip(from as int)) == Some(n as int),
            None => parse_i32_spec(v@.skip(from as int)) is None,
        },
{
    let ghost s = v@.skip(from as int);
    let len = v.len();
    if from == len {
        return None;
    }
    let c0 = v[from];
    let neg = c0 == '-';
    let body = if c0 == '-' || c0 == '+' {
        from + 1
    } else {
        from
    };
    let ghost b = if c0 == '-' || c0 == '+' {
        s.drop_first()
    } else {
        s
    };
    assert(b =~= v@.subrange(body as int, len as int));
    let limit: u64 = if neg {
        0x8000_0000
    } else {
        0x7FFF_FFFF
    };
    match parse_digits_bounded(v, body, len, limit) {
        Some(n) => {
            proof {
                lemma_digits_val_nonneg(b);
            }
            if neg {
                let m = (0i64 - (n as i64)) as i32;
                Some(m)
            } else {
                Some(n as i32)
            }
        },
        None => {
            proof {
                if b.len() > 0 && all_digits(b) {
                    lemma_digits_val_nonneg(b);
                }
            }
            None
        },
    }
}

/// The numeral accepted by an unsigned size parse: an optional plus sign
/// followed by at least one digit, the value within the type's range.
pub open spec fn parse_usize_spec(s: Seq<char>) -> Option<int> {
    let b = if s.len() > 0 && s[0] == '+' {
        s.drop_first()
    } else {
        s
    };
    if b.len() > 0 && all_digits(b) && digits_val(b) <= usize::MAX {
        Some(digits_val(b))
    } else {
        None
    }
}

/// Parses the whole of `v` as an unsigned size numeral.
pub fn parse_usize_chars(v: &Vec<char>) -> (r: Option<usize>)
    ensures
        match r {
            Some(n) => parse_usize_spec(v@) == Some(n as int),
            None => parse_usize_spec(v@) is None,
        },
{
    let len = v.len();
    let body = if len > 0 && v[0] == '+' {
        1
    } else {
        0
    };
    let ghost b = if v@.len() > 0 && v@[0] == '+' {
        v@.drop_first()
    } else {
        v@
    };
    assert(b =~= v@.subrange(body as int, len as int));
    let limit: u64 = usize::MAX as u64;
    match parse_digits_bounded(v, body, len, limit) {
        Some(n) => {
            proof {
                lemma_digits_val_nonneg(b);
            }
            Some(n as usize)
        },
        None => {
            proof {
                if b.len() > 0 && all_digits(b) {
                    lemma_digits_val_nonneg(b);
                }
            }
            None
        },
    }
}

/// The sequence with every leading copy of `c` removed.
pub open spec fn strip_leading(s: Seq<char>, c: char) -> Seq<char>
    decreases s.len(),
{
    if s.len() > 0 && s.first() == c {
        strip_leading(s.drop_first(), c)
    } else {
        s
    }
}

/// Dropping `k` leading copies of `c`, up to the first other character,
/// yields the stripped sequence.
pub proof fn lemma_strip_leading_skip(s: Seq<char>, c: char, k: int)
    requires
        0 <= k <= s.len(),
        forall|i: int| 0 <= i < k ==> s[i] == c,
        k == s.len() || s[k] != c,
    ensures
        strip_leading(s, c) == s.skip(k),
    decreases k,
{
    if k == 0 {
        assert(s.skip(0) =~= s);
    } else {
        lemma_strip_leading_skip(s.drop_first(), c, k - 1);
        assert(s.drop_first().skip(k - 1) =~= s.skip(k));
    }
}

/// Counts the leading copies of `c` in `v`.
pub fn count_leading(v: &Vec<char>, c: char) -> (r: usize)
    ensures
        r <= v@.len(),
        v@.skip(r as int) == strip_leading(v@, c),
{
    let len = v.len();
    let mut a: usize = 0;
    while a < len && v[a] == c
        invariant
            a <= len == v@.len(),
            forall|i: int| 0 <= i < a ==> v@[i] == c,
        decreases len - a,
    {
        a = a + 1;
    }
    proof {
        lemma_strip_leading_skip(v@, c, a as int);
    }
    a
}

/// The decimal digit character for a value below ten.
pub open spec fn digit_char(d: int) -> char {
    if d == 0 {
        '0'
    } else if d == 1 {
        '1'
    } else if d == 2 {
        '2'
    } else if d == 3 {
        '3'
    } else if d == 4 {
        '4'
    } else if d == 5 {
        '5'
    } else if d == 6 {
        '6'
    } else if d == 7 {
        '7'
    } else if d == 8 {
        '8'
    } else {
        '9'
    }
}

/// The decimal representation of a nonnegative number, most significant
/// digit first, with no leading zeros.
pub open spec fn dec_rep(n: int) -> Seq<char>
    decreases n,
{
    if n < 10 {
        seq![digit_char(n)]
    } else {
        dec_rep(n / 10).push(digit_char(n % 10))
    }
}

/// A one-character string for a decimal digit.
fn digit_str(d: u64) -> (r: &'static str)
    requires
        d < 10,
    ensures
        r@ == seq![digit_char(d as int)],
{
    proof {
        reveal_strlit("0");
        reveal_strlit("1");
        reveal_strlit("2");
        reveal_strlit("3");
        reveal_strlit("4");
        reveal_strlit("5");
        reveal_strlit("6");
        reveal_strlit("7");
        reveal_strlit("8");
        reveal_strlit("9");
    }
    let r = match d {
        0 => "0",
        1 => "1",
        2 => "2",
        3 => "3",
        4 => "4",
        5 => "5",
        6 => "6",
        7 => "7",
        8 => "8",
        _ => "9",
    };
    assert(r@ =~= seq![digit_char(d as int)]);
    r
}

/// Renders a number in decimal.
pub fn u64_to_string(n: u64) -> (r: String)
    ensures
        r@ == dec_rep(n as int),
    decreases n,
{
    if n < 10 {
        digit_str(n).to_owned()
    } else {
        let mut s = u64_to_string(n / 10);
        s.append(digit_str(n % 10));
        assert(s@ =~= dec_rep(n as int / 10).push(digit_char(n as int % 10)));
        s
    }
}

} // verus!
