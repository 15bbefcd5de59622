//! Character-level helpers: finding, splitting and trimming windows of a
//! character vector, each against a specification over `Seq<char>`.

use vstd::prelude::*;

verus! {

/// The characters of `s`, in order.
pub fn chars_of(s: &str) -> (r: Vec<char>)
    ensures
        r@ == s@,
{
    let n = s.unicode_len();
    let mut out: Vec<char> = Vec::new();
    let mut i: usize = 0;
    while i < n
        invariant
            n == s@.len(),
            i <= n,
            out@ == s@.subrange(0, i as int),
        decreases n - i,
    {
        out.push(s.get_char(i));
        i = i + 1;
    }
    assert(out@ =~= s@);
    out
}

/// `i` is the first position of `c` in `s`.
pub open spec fn first_at(s: Seq<char>, c: char, i: int) -> bool {
    &&& 0 <= i < s.len()
    &&& s[i] == c
    &&& forall|j: int| 0 <= j < i ==> s[j] != c
}

/// The first position of `c` in `s`, if `c` occurs.
pub open spec fn index_of(s: Seq<char>, c: char) -> Option<int> {
    if exists|i: int| first_at(s, c, i) {
        Some(choose|i: int| first_at(s, c, i))
    } else {
        None
    }
}

/// The pieces of `s` between occurrences of `sep`: one more piece than there
/// are occurrences.
pub open spec fn split_on(s: Seq<char>, sep: char) -> Seq<Seq<char>>
    decreases s.len(),
{
    match index_of(s, sep) {
        Some(i) => seq![s.subrange(0, i)] + split_on(s.subrange(i + 1, s.len() as int), sep),
        None => seq![s],
    }
}

/// The characters that `char::is_whitespace` accepts: those of Unicode's
/// `White_Space` property.
pub open spec fn is_white_space(c: char) -> bool {
    ||| '\t' <= c <= '\r'
    ||| c == ' '
    ||| c == '\u{85}'
    ||| c == '\u{a0}'
    ||| c == '\u{1680}'
    ||| '\u{2000}' <= c <= '\u{200a}'
    ||| c == '\u{2028}'
    ||| c == '\u{2029}'
    ||| c == '\u{202f}'
    ||| c == '\u{205f}'
    ||| c == '\u{3000}'
}

/// `s` without its leading white space.
pub open spec fn trim_start(s: Seq<char>) -> Seq<char>
    decreases s.len(),
{
    if s.len() > 0 && is_white_space(s[0]) {
        trim_start(s.drop_first())
    } else {
        s
    }
}

/// `s` without its trailing white space.
pub open spec fn trim_end(s: Seq<char>) -> Seq<char>
    decreases s.len(),
{
    if s.len() > 0 && is_white_space(s.last()) {
        trim_end(s.drop_last())
    } else {
        s
    }
}

/// `s` without white space at either end.
pub open spec fn trim(s: Seq<char>) -> Seq<char> {
    trim_end(trim_start(s))
}

/// The window `[lo, hi)` of `s`.
pub open spec fn window(s: Seq<char>, lo: usize, hi: usize) -> Seq<char> {
    s.subrange(lo as int, hi as int)
}

/// The windows of `s` that `ranges` mark.
pub open spec fn windows(s: Seq<char>, ranges: Seq<(usize, usize)>) -> Seq<Seq<char>> {
    ranges.map_values(|p: (usize, usize)| window(s, p.0, p.1))
}

/// A first position of `c` is the position that `index_of` gives.
pub proof fn lemma_index_of_first(s: Seq<char>, c: char, i: int)
    requires
        first_at(s, c, i),
    ensures
        index_of(s, c) == Some(i),
{
    let k = choose|k: int| first_at(s, c, k);
    assert(first_at(s, c, k));
    if k < i {
        assert(s[k] != c);
    } else if k > i {
        assert(s[i] != c);
    }
}

/// Where `c` does not occur, `index_of` gives nothing.
pub proof fn lemma_index_of_absent(s: Seq<char>, c: char)
    requires
        forall|j: int| 0 <= j < s.len() ==> s[j] != c,
    ensures
        index_of(s, c) is None,
{
    if exists|i: int| first_at(s, c, i) {
        let k = choose|k: int| first_at(s, c, k);
        assert(s[k] == c);
    }
}

/// The first position of `c` in the window `[lo, hi)` of `s`.
pub fn find_in(s: &Vec<char>, c: char, lo: usize, hi: usize) -> (r: Option<usize>)
    requires
        lo <= hi <= s@.len(),
    ensures
        match r {
            Some(k) => lo <= k < hi && index_of(window(s@, lo, hi), c) == Some(k - lo),
            None => index_of(window(s@, lo, hi), c) is None,
        },
{
    let ghost w = window(s@, lo, hi);
    let mut i: usize = lo;
    while i < hi
        invariant
            lo <= i <= hi <= s@.len(),
            w == window(s@, lo, hi),
            forall|j: int| lo <= j < i ==> s@[j] != c,
        decreases hi - i,
    {
        if s[i] == c {
            proof {
                assert forall|j: int| 0 <= j < i - lo implies w[j] != c by {
                    assert(w[j] == s@[lo + j]);
                }
                lemma_index_of_first(w, c, i - lo);
            }
            return Some(i);
        }
        i = i + 1;
    }
    proof {
        assert forall|j: int| 0 <= j < w.len() implies w[j] != c by {
            assert(w[j] == s@[lo + j]);
        }
        lemma_index_of_absent(w, c);
    }
    None
}

/// The pieces of the window `[lo, hi)` of `s` between occurrences of `sep`,
/// as windows of `s`.
pub fn split_in(s: &Vec<char>, sep: char, lo: usize, hi: usize) -> (r: Vec<(usize, usize)>)
    requires
        lo <= hi <= s@.len(),
    ensures
        windows(s@, r@) == split_on(window(s@, lo, hi), sep),
        forall|k: int| 0 <= k < r@.len() ==> lo <= #[trigger] r@[k].0 <= r@[k].1 <= hi,
{
    let mut out: Vec<(usize, usize)> = Vec::new();
    let mut start: usize = lo;
    let mut i: usize = lo;
    while i < hi
        invariant
            lo <= start <= i <= hi <= s@.len(),
            forall|j: int| start <= j < i ==> s@[j] != sep,
            windows(s@, out@) + split_on(window(s@, start, hi), sep) == split_on(
                window(s@, lo, hi),
                sep,
            ),
            forall|k: int| 0 <= k < out@.len() ==> lo <= #[trigger] out@[k].0 <= out@[k].1 <= hi,
        decreases hi - i,
    {
        if s[i] == sep {
            proof {
                let t = window(s@, start, hi);
                assert forall|j: int| 0 <= j < i - start implies t[j] != sep by {
                    assert(t[j] == s@[start + j]);
                }
                lemma_index_of_first(t, sep, i - start);
                assert(t.subrange(0, i - start) =~= window(s@, start, i));
                assert(t.subrange(i - start + 1, t.len() as int) =~= window(s@, (i + 1) as usize, hi));
                assert(windows(s@, out@.push((start, i))) =~= windows(s@, out@).push(
                    window(s@, start, i),
                ));
                assert(windows(s@, out@).push(window(s@, start, i)) + split_on(
                    window(s@, (i + 1) as usize, hi),
                    sep,
                ) =~= windows(s@, out@) + split_on(t, sep));
            }
            out.push((start, i));
            start = i + 1;
        }
        i = i + 1;
    }
    proof {
        let t = window(s@, start, hi);
        assert forall|j: int| 0 <= j < t.len() implies t[j] != sep by {
            assert(t[j] == s@[start + j]);
        }
        lemma_index_of_absent(t, sep);
        assert(windows(s@, out@.push((start, hi))) =~= windows(s@, out@).push(t));
        assert(windows(s@, out@).push(t) =~= windows(s@, out@) + split_on(t, sep));
    }
    out.push((start, hi));
    assert forall|k: int| 0 <= k < out@.len() implies lo <= #[trigger] out@[k].0 <= out@[k].1
        <= hi by {
        if k == out@.len() - 1 {
            assert(out@[k] == (start, hi));
        }
    }
    out
}

/// Whether `c` is white space.
pub fn white_space(c: char) -> (r: bool)
    ensures
        r == is_white_space(c),
{
    ('\t' <= c && c <= '\r') || c == ' ' || c == '\u{85}' || c == '\u{a0}' || c == '\u{1680}'
        || ('\u{2000}' <= c && c <= '\u{200a}') || c == '\u{2028}' || c == '\u{2029}' || c
        == '\u{202f}' || c == '\u{205f}' || c == '\u{3000}'
}

/// The window `[lo, hi)` of `s` without white space at either end, as a
/// window of `s`.
pub fn trim_in(s: &Vec<char>, lo: usize, hi: usize) -> (r: (usize, usize))
    requires
        lo <= hi <= s@.len(),
    ensures
        lo <= r.0 <= r.1 <= hi,
        window(s@, r.0, r.1) == trim(window(s@, lo, hi)),
{
    let mut a: usize = lo;
    while a < hi && white_space(s[a])
        invariant
            lo <= a <= hi <= s@.len(),
            trim_start(window(s@, a, hi)) == trim_start(window(s@, lo, hi)),
        decreases hi - a,
    {
        assert(window(s@, a, hi).drop_first() =~= window(s@, (a + 1) as usize, hi));
        a = a + 1;
    }
    assert(trim_start(window(s@, a, hi)) == window(s@, a, hi));
    let mut b: usize = hi;
    while b > a && white_space(s[b - 1])
        invariant
            lo <= a <= b <= hi <= s@.len(),
            trim_end(window(s@, a, b)) == trim(window(s@, lo, hi)),
        decreases b - a,
    {
        assert(window(s@, a, b).drop_last() =~= window(s@, a, (b - 1) as usize));
        b = b - 1;
    }
    (a, b)
}

/// `pat` occurs in `s` starting at position `i`.
pub open spec fn occurs_at(s: Seq<char>, pat: Seq<char>, i: int) -> bool {
    0 <= i && i + pat.len() <= s.len() && s.subrange(i, i + pat.len()) == pat
}

/// `pat` occurs somewhere in `s`.
pub open spec fn contains(s: Seq<char>, pat: Seq<char>) -> bool {
    exists|i: int| occurs_at(s, pat, i)
}

/// `s` ends with `pat`.
pub open spec fn ends_with(s: Seq<char>, pat: Seq<char>) -> bool {
    pat.len() <= s.len() && s.subrange(s.len() - pat.len(), s.len() as int) == pat
}

/// Whether `pat` occurs in `s` at position `i`.
fn matches_at(s: &Vec<char>, i: usize, pat: &Vec<char>) -> (r: bool)
    requires
        i + pat@.len() <= s@.len(),
    ensures
        r == (s@.subrange(i as int, i + pat@.len()) == pat@),
{
    let n = s.len();
    let mut k: usize = 0;
    while k < pat.len()
        invariant
            n == s@.len(),
            i + pat@.len() <= s@.len(),
            k <= pat@.len(),
            forall|j: int| 0 <= j < k ==> s@[i + j] == pat@[j],
        decreases pat@.len() - k,
    {
        if s[i + k] != pat[k] {
            assert(s@.subrange(i as int, i + pat@.len())[k as int] != pat@[k as int]);
            return false;
        }
        k = k + 1;
    }
    assert(s@.subrange(i as int, i + pat@.len()) =~= pat@);
    true
}

/// Whether `pat` occurs in the window `[lo, hi)` of `s`.
pub fn contains_in(s: &Vec<char>, lo: usize, hi: usize, pat: &Vec<char>) -> (r: bool)
    requires
        lo <= hi <= s@.len(),
    ensures
        r == contains(window(s@, lo, hi), pat@),
{
    let ghost w = window(s@, lo, hi);
    if pat.len() > hi - lo {
        return false;
    }
    if pat.len() == 0 {
        assert(w.subrange(0, 0) =~= pat@);
        assert(occurs_at(w, pat@, 0));
        return true;
    }
    let last: usize = hi - pat.len();
    let mut i: usize = lo;
    while i <= last
        invariant
            lo <= i <= last + 1,
            last + pat@.len() == hi,
            pat@.len() > 0,
            hi <= s@.len(),
            w == window(s@, lo, hi),
            forall|j: int| 0 <= j < i - lo ==> !occurs_at(w, pat@, j),
        decreases last + 1 - i,
    {
        let found = matches_at(s, i, pat);
        assert(w.subrange(i - lo, i - lo + pat@.len()) =~= s@.subrange(i as int, i + pat@.len()));
        if found {
            assert(occurs_at(w, pat@, i - lo));
            return true;
        }
        i = i + 1;
    }
    assert forall|j: int| !occurs_at(w, pat@, j) by {
        if 0 <= j < i - lo {
        }
    }
    false
}

/// Whether the window `[lo, hi)` of `s` ends with `pat`.
pub fn ends_with_in(s: &Vec<char>, lo: usize, hi: usize, pat: &Vec<char>) -> (r: bool)
    requires
        lo <= hi <= s@.len(),
    ensures
        r == ends_with(window(s@, lo, hi), pat@),
{
    if pat.len() > hi - lo {
        return false;
    }
    let r = matches_at(s, hi - pat.len(), pat);
    assert(window(s@, lo, hi).subrange(hi - lo - pat@.len(), hi - lo) =~= s@.subrange(
        hi - pat@.len(),
        hi as int,
    ));
    r
}

/// Whether the window `[lo, hi)` of `s` is `pat`.
pub fn equals_in(s: &Vec<char>, lo: usize, hi: usize, pat: &Vec<char>) -> (r: bool)
    requires
        lo <= hi <= s@.len(),
    ensures
        r == (window(s@, lo, hi) == pat@),
{
    if pat.len() != hi - lo {
        return false;
    }
    matches_at(s, lo, pat)
}

/// A decimal digit.
pub open spec fn is_digit(c: char) -> bool {
    '0' <= c <= '9'
}

/// The number that the decimal digits `s` write.
pub open spec fn digits_value(s: Seq<char>) -> int
    decreases s.len(),
{
    if s.len() == 0 {
        0
    } else {
        digits_value(s.drop_last()) * 10 + (s.last() as u32 - '0' as u32)
    }
}

/// `s` without one leading `+`.
pub open spec fn unsigned_part(s: Seq<char>) -> Seq<char> {
    if s.len() > 0 && s[0] == '+' {
        s.drop_first()
    } else {
        s
    }
}

/// Every character of `s` is a decimal digit.
pub open spec fn all_digits(s: Seq<char>) -> bool {
    forall|i: int| 0 <= i < s.len() ==> is_digit(#[trigger] s[i])
}

/// The number that `s` writes in the form `usize::from_str` reads: an
/// optional `+`, then one decimal digit or more.
pub open spec fn decimal_value(s: Seq<char>) -> Option<int> {
    let d = unsigned_part(s);
    if d.len() > 0 && all_digits(d) {
        Some(digits_value(d))
    } else {
        None
    }
}

/// What `usize::from_str` gives for `s`: the number it writes, where that
/// fits in a `usize`.
pub open spec fn parse_usize(s: Seq<char>) -> Option<usize> {
    match decimal_value(s) {
        Some(v) => if v <= usize::MAX {
            Some(v as usize)
        } else {
            None
        },
        None => None,
    }
}

/// Digits never write a negative number, and a prefix of digits never
/// writes more than the whole.
proof fn lemma_digits_value_prefix(s: Seq<char>, k: int)
    requires
        0 <= k <= s.len(),
        forall|i: int| 0 <= i < s.len() ==> is_digit(#[trigger] s[i]),
    ensures
        0 <= digits_value(s.subrange(0, k)) <= digits_value(s),
    decreases s.len(),
{
    if s.len() > 0 {
        let t = s.drop_last();
        if k == s.len() {
            lemma_digits_value_prefix(t, 0);
            assert(s.subrange(0, k) =~= s);
        } else {
            lemma_digits_value_prefix(t, k);
            assert(t.subrange(0, k) =~= s.subrange(0, k));
        }
        assert(is_digit(s[s.len() - 1]));
    } else {
        assert(s.subrange(0, k) =~= s);
    }
}

/// The number that the window `[lo, hi)` of `s` writes, read as
/// `usize::from_str` reads it.
pub fn parse_usize_in(s: &Vec<char>, lo: usize, hi: usize) -> (r: Option<usize>)
    requires
        lo <= hi <= s@.len(),
    ensures
        r == parse_usize(window(s@, lo, hi)),
{
    let ghost w = window(s@, lo, hi);
    let mut a: usize = lo;
    if a < hi && s[a] == '+' {
        a = a + 1;
    }
    let ghost d = window(s@, a, hi);
    assert(d =~= unsigned_part(w));
    if a == hi {
        return None;
    }
    let mut i: usize = a;
    while i < hi
        invariant
            a <= i <= hi <= s@.len(),
            d == window(s@, a, hi),
            w == window(s@, lo, hi),
            d == unsigned_part(w),
            forall|j: int| 0 <= j < i - a ==> is_digit(#[trigger] d[j]),
        decreases hi - i,
    {
        let c = s[i];
        if !('0' <= c && c <= '9') {
            proof {
                assert(!is_digit(d[i - a]));
                assert(!all_digits(d));
            }
            return None;
        }
        i = i + 1;
    }
    let mut v: usize = 0;
    i = a;
    while i < hi
        invariant
            a <= i <= hi <= s@.len(),
            d == window(s@, a, hi),
            w == window(s@, lo, hi),
            d == unsigned_part(w),
            forall|j: int| 0 <= j < d.len() ==> is_digit(#[trigger] d[j]),
            v == digits_value(window(s@, a, i)),
        decreases hi - i,
    {
        let ghost next = window(s@, a, (i + 1) as usize);
        proof {
            assert(next.drop_last() =~= window(s@, a, i));
            assert(d.subrange(0, i + 1 - a) =~= next);
            lemma_digits_value_prefix(d, i + 1 - a);
            assert(is_digit(d[i - a]));
        }
        let digit = (s[i] as u32 - '0' as u32) as usize;
        match v.checked_mul(10) {
            None => {
                return None;
            },
            Some(t) => match t.checked_add(digit) {
                None => {
                    return None;
                },
                Some(u) => {
                    v = u;
                },
            },
        }
        i = i + 1;
    }
    Some(v)
}

} // verus!
