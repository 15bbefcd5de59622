//! The count resolver: how many items a paginated collection holds, read from
//! one page of size one and its pagination relation header.
//!
//! The header lists comma-separated segments `<url>; rel="name"`. A `last`
//! relation gives the count as the `page` parameter of its URL; a `next`
//! relation alone says only that there are at least two items; with neither,
//! the body's array is counted.

use vstd::prelude::*;
use crate::text::{
    chars_of, contains, contains_in, ends_with, ends_with_in, equals_in, find_in, index_of,
    parse_usize, parse_usize_in, split_in, split_on, trim, trim_in, window, windows,
};

verus! {

/// The step that one `rel="last"` segment gives while the last page is sought.
#[derive(Clone, Copy, Debug, PartialEq, Eq)]
pub enum LastPageStep {
    /// The segment names this page.
    Page(usize),
    /// The segment is malformed: the search gives up.
    Stop,
    /// The segment names no page: the search goes on.
    Next,
}

/// Why a response could not be counted.
#[derive(Clone, Copy, Debug, PartialEq, Eq)]
pub enum CountError {
    /// The body is not a JSON document.
    InvalidJson,
}

/// `page`, the query key that names the page.
pub open spec fn page_key() -> Seq<char> {
    seq!['p', 'a', 'g', 'e']
}

/// `rel="last"`, the mark of the segment that links the last page.
pub open spec fn rel_last() -> Seq<char> {
    seq!['r', 'e', 'l', '=', '"', 'l', 'a', 's', 't', '"']
}

/// `next`, the relation of the following page.
pub open spec fn next_rel() -> Seq<char> {
    seq!['n', 'e', 'x', 't']
}

/// `rel="<rel>"`, the mark that ends a segment of relation `rel`.
pub open spec fn rel_pattern(rel: Seq<char>) -> Seq<char> {
    seq!['r', 'e', 'l', '=', '"'] + rel + seq!['"']
}

/// The key of a query pair `key=value`: all of it where it holds no `=`.
pub open spec fn pair_key(kv: Seq<char>) -> Seq<char> {
    match index_of(kv, '=') {
        Some(e) => kv.subrange(0, e),
        None => kv,
    }
}

/// The value of a query pair `key=value`: empty where it holds no `=`.
pub open spec fn pair_value(kv: Seq<char>) -> Seq<char> {
    match index_of(kv, '=') {
        Some(e) => kv.subrange(e + 1, kv.len() as int),
        None => Seq::empty(),
    }
}

/// The page that query pairs name: the value of the first `page` pair whose
/// value reads as a number.
pub open spec fn page_in_pairs(pairs: Seq<Seq<char>>) -> Option<usize>
    decreases pairs.len(),
{
    if pairs.len() == 0 {
        None
    } else if pair_key(pairs[0]) == page_key() && parse_usize(pair_value(pairs[0])) is Some {
        parse_usize(pair_value(pairs[0]))
    } else {
        page_in_pairs(pairs.drop_first())
    }
}

/// The text between the first `<` and the first `>` of a segment, where both
/// occur in that order.
pub open spec fn bracketed(p: Seq<char>) -> Option<Seq<char>> {
    match (index_of(p, '<'), index_of(p, '>')) {
        (Some(a), Some(b)) => if a < b {
            Some(p.subrange(a + 1, b))
        } else {
            None
        },
        _ => None,
    }
}

/// What a trimmed `rel="last"` segment gives: the `page` pair of the query of
/// its URL (the text after its first `?`, up to any second one).
pub open spec fn segment_last_page(p: Seq<char>) -> LastPageStep {
    match bracketed(p) {
        None => LastPageStep::Stop,
        Some(url) => {
            let parts = split_on(url, '?');
            if parts.len() < 2 {
                LastPageStep::Stop
            } else {
                match page_in_pairs(split_on(parts[1], '&')) {
                    Some(n) => LastPageStep::Page(n),
                    None => LastPageStep::Next,
                }
            }
        },
    }
}

/// What one segment gives while the last page is sought: segments without
/// the `rel="last"` mark let the search go on.
pub open spec fn last_page_step(seg: Seq<char>) -> LastPageStep {
    if contains(trim(seg), rel_last()) {
        segment_last_page(trim(seg))
    } else {
        LastPageStep::Next
    }
}

/// The last page that the segments name, searched in order.
pub open spec fn last_page_in(segs: Seq<Seq<char>>) -> Option<usize>
    decreases segs.len(),
{
    if segs.len() == 0 {
        None
    } else {
        match last_page_step(segs[0]) {
            LastPageStep::Page(n) => Some(n),
            LastPageStep::Stop => None,
            LastPageStep::Next => last_page_in(segs.drop_first()),
        }
    }
}

/// The last page that a relation header names.
pub open spec fn last_page(header: Seq<char>) -> Option<usize> {
    last_page_in(split_on(header, ','))
}

/// The URL of the first segment whose trimmed text ends with `rel="<rel>"`;
/// nothing where that segment holds no `<...>`.
pub open spec fn rel_url_in(segs: Seq<Seq<char>>, rel: Seq<char>) -> Option<Seq<char>>
    decreases segs.len(),
{
    if segs.len() == 0 {
        None
    } else if ends_with(trim(segs[0]), rel_pattern(rel)) {
        bracketed(trim(segs[0]))
    } else {
        rel_url_in(segs.drop_first(), rel)
    }
}

/// The URL of relation `rel` in a relation header.
pub open spec fn rel_url(header: Seq<char>, rel: Seq<char>) -> Option<Seq<char>> {
    rel_url_in(split_on(header, ','), rel)
}

/// What a relation header alone says of the count: the last page, else two
/// where a next page is linked, else nothing.
pub open spec fn link_count(header: Seq<char>) -> Option<usize> {
    match last_page(header) {
        Some(n) => Some(n),
        None => if rel_url(header, next_rel()) is Some {
            Some(2)
        } else {
            None
        },
    }
}

/// The count of a page of size one, from its relation header (if any) and
/// its body.
pub open spec fn response_count(header: Option<Seq<char>>, body: Seq<char>) -> Result<
    usize,
    CountError,
> {
    let from_link = match header {
        Some(h) => link_count(h),
        None => None,
    };
    match from_link {
        Some(n) => Ok(n),
        None => match json_array_len(body) {
            None => Err(CountError::InvalidJson),
            Some(None) => Ok(0),
            Some(Some(n)) => Ok(n as usize),
        },
    }
}

/// The commit count that the pagination answer settles: the answer where it
/// exceeds one; otherwise nothing, and the search endpoint decides.
pub open spec fn settled_commit_count(via_link: usize) -> Option<usize> {
    if via_link > 1 {
        Some(via_link)
    } else {
        None
    }
}

/// The characters of `rel="last"`.
fn rel_last_chars() -> (r: Vec<char>)
    ensures
        r@ == rel_last(),
{
    let r = vec!['r', 'e', 'l', '=', '"', 'l', 'a', 's', 't', '"'];
    assert(r@ =~= rel_last());
    r
}

/// The characters of `rel="<rel>"`.
fn rel_pattern_chars(rel: &Vec<char>) -> (r: Vec<char>)
    ensures
        r@ == rel_pattern(rel@),
{
    let mut r = vec!['r', 'e', 'l', '=', '"'];
    let mut i: usize = 0;
    while i < rel.len()
        invariant
            i <= rel@.len(),
            r@ == seq!['r', 'e', 'l', '=', '"'] + rel@.subrange(0, i as int),
        decreases rel@.len() - i,
    {
        r.push(rel[i]);
        i = i + 1;
        assert(r@ =~= seq!['r', 'e', 'l', '=', '"'] + rel@.subrange(0, i as int));
    }
    r.push('"');
    assert(r@ =~= rel_pattern(rel@));
    r
}

/// The window of the text between the first `<` and the first `>` of the
/// window `[lo, hi)` of `s`.
fn bracketed_in(s: &Vec<char>, lo: usize, hi: usize) -> (r: Option<(usize, usize)>)
    requires
        lo <= hi <= s@.len(),
    ensures
        match r {
            Some((a, b)) => lo <= a <= b <= hi && bracketed(window(s@, lo, hi)) == Some(
                window(s@, a, b),
            ),
            None => bracketed(window(s@, lo, hi)) is None,
        },
{
    let open = find_in(s, '<', lo, hi);
    let close = find_in(s, '>', lo, hi);
    match (open, close) {
        (Some(a), Some(b)) => {
            if a < b {
                assert(window(s@, lo, hi).subrange(a - lo + 1, b - lo) =~= window(
                    s@,
                    (a + 1) as usize,
                    b,
                ));
                Some((a + 1, b))
            } else {
                None
            }
        },
        _ => None,
    }
}

/// The page that the query pairs marked by `pairs` name.
fn page_in_pairs_in(s: &Vec<char>, pairs: &Vec<(usize, usize)>) -> (r: Option<usize>)
    requires
        forall|k: int|
            0 <= k < pairs@.len() ==> #[trigger] pairs@[k].0 <= pairs@[k].1 <= s@.len(),
    ensures
        r == page_in_pairs(windows(s@, pairs@)),
{
    let ghost all = windows(s@, pairs@);
    assert(all.subrange(0, all.len() as int) =~= all);
    let key = vec!['p', 'a', 'g', 'e'];
    assert(key@ =~= page_key());
    let mut i: usize = 0;
    while i < pairs.len()
        invariant
            i <= pairs@.len(),
            all == windows(s@, pairs@),
            key@ == page_key(),
            forall|k: int|
                0 <= k < pairs@.len() ==> #[trigger] pairs@[k].0 <= pairs@[k].1 <= s@.len(),
            page_in_pairs(all) == page_in_pairs(all.subrange(i as int, all.len() as int)),
        decreases pairs@.len() - i,
    {
        let (lo, hi) = pairs[i];
        let ghost kv = window(s@, lo, hi);
        let ghost rest = all.subrange(i as int, all.len() as int);
        assert(rest[0] == kv);
        assert(rest.drop_first() =~= all.subrange(i + 1, all.len() as int));
        let (klo, khi, vlo, vhi) = match find_in(s, '=', lo, hi) {
            Some(e) => {
                assert(kv.subrange(0, e - lo) =~= window(s@, lo, e));
                assert(kv.subrange(e - lo + 1, kv.len() as int) =~= window(s@, (e + 1) as usize, hi));
                (lo, e, e + 1, hi)
            },
            None => {
                assert(window(s@, hi, hi) =~= Seq::<char>::empty());
                (lo, hi, hi, hi)
            },
        };
        assert(window(s@, klo, khi) == pair_key(kv));
        assert(window(s@, vlo, vhi) == pair_value(kv));
        if equals_in(s, klo, khi, &key) {
            let v = parse_usize_in(s, vlo, vhi);
            if v.is_some() {
                return v;
            }
        }
        i = i + 1;
    }
    None
}

/// What the `rel="last"` segment `[lo, hi)` of `s` gives.
fn segment_last_page_in(s: &Vec<char>, lo: usize, hi: usize) -> (r: LastPageStep)
    requires
        lo <= hi <= s@.len(),
    ensures
        r == segment_last_page(window(s@, lo, hi)),
{
    match bracketed_in(s, lo, hi) {
        None => LastPageStep::Stop,
        Some((a, b)) => {
            let parts = split_in(s, '?', a, b);
            if parts.len() < 2 {
                LastPageStep::Stop
            } else {
                let (qlo, qhi) = parts[1];
                assert(0 <= 1 < parts@.len());
                assert(windows(s@, parts@)[1] == window(s@, qlo, qhi));
                assert(a <= parts@[1].0 <= parts@[1].1 <= b);
                let pairs = split_in(s, '&', qlo, qhi);
                match page_in_pairs_in(s, &pairs) {
                    Some(n) => LastPageStep::Page(n),
                    None => LastPageStep::Next,
                }
            }
        },
    }
}

/// What the segment `[lo, hi)` of `s` gives while the last page is sought.
fn last_page_step_in(s: &Vec<char>, lo: usize, hi: usize, mark: &Vec<char>) -> (r: LastPageStep)
    requires
        lo <= hi <= s@.len(),
        mark@ == rel_last(),
    ensures
        r == last_page_step(window(s@, lo, hi)),
{
    let (a, b) = trim_in(s, lo, hi);
    if contains_in(s, a, b, mark) {
        segment_last_page_in(s, a, b)
    } else {
        LastPageStep::Next
    }
}

/// The last page named by the relation header whose characters are `s`.
fn last_page_of(s: &Vec<char>) -> (r: Option<usize>)
    ensures
        r == last_page(s@),
{
    let n = s.len();
    let segs = split_in(s, ',', 0, n);
    assert(window(s@, 0, n) =~= s@);
    let ghost all = windows(s@, segs@);
    assert(all.subrange(0, all.len() as int) =~= all);
    let mark = rel_last_chars();
    let mut i: usize = 0;
    while i < segs.len()
        invariant
            n == s@.len(),
            i <= segs@.len(),
            all == windows(s@, segs@),
            mark@ == rel_last(),
            forall|k: int| 0 <= k < segs@.len() ==> 0 <= #[trigger] segs@[k].0 <= segs@[k].1 <= n,
            last_page(s@) == last_page_in(all.subrange(i as int, all.len() as int)),
        decreases segs@.len() - i,
    {
        let (lo, hi) = segs[i];
        let ghost rest = all.subrange(i as int, all.len() as int);
        assert(rest[0] == window(s@, lo, hi));
        assert(rest.drop_first() =~= all.subrange(i + 1, all.len() as int));
        match last_page_step_in(s, lo, hi, &mark) {
            LastPageStep::Page(p) => {
                return Some(p);
            },
            LastPageStep::Stop => {
                return None;
            },
            LastPageStep::Next => {},
        }
        i = i + 1;
    }
    None
}

/// Whether the segment `[lo, hi)` of `s` is the one of relation `rel`, and
/// the window of its URL.
fn rel_segment_in(s: &Vec<char>, lo: usize, hi: usize, mark: &Vec<char>) -> (r: (
    bool,
    Option<(usize, usize)>,
))
    requires
        lo <= hi <= s@.len(),
    ensures
        r.0 == ends_with(trim(window(s@, lo, hi)), mark@),
        match r.1 {
            Some((a, b)) => a <= b <= s@.len() && bracketed(trim(window(s@, lo, hi))) == Some(
                window(s@, a, b),
            ),
            None => bracketed(trim(window(s@, lo, hi))) is None,
        },
{
    let (a, b) = trim_in(s, lo, hi);
    (ends_with_in(s, a, b, mark), bracketed_in(s, a, b))
}

/// The window of the URL of relation `rel` in the relation header whose
/// characters are `s`.
fn rel_url_of(s: &Vec<char>, rel: &Vec<char>) -> (r: Option<(usize, usize)>)
    ensures
        match r {
            Some((a, b)) => a <= b <= s@.len() && rel_url(s@, rel@) == Some(window(s@, a, b)),
            None => rel_url(s@, rel@) is None,
        },
{
    let n = s.len();
    let segs = split_in(s, ',', 0, n);
    assert(window(s@, 0, n) =~= s@);
    let ghost all = windows(s@, segs@);
    assert(all.subrange(0, all.len() as int) =~= all);
    let mark = rel_pattern_chars(rel);
    let mut i: usize = 0;
    while i < segs.len()
        invariant
            n == s@.len(),
            i <= segs@.len(),
            all == windows(s@, segs@),
            mark@ == rel_pattern(rel@),
            forall|k: int| 0 <= k < segs@.len() ==> 0 <= #[trigger] segs@[k].0 <= segs@[k].1 <= n,
            rel_url(s@, rel@) == rel_url_in(all.subrange(i as int, all.len() as int), rel@),
        decreases segs@.len() - i,
    {
        let (lo, hi) = segs[i];
        let ghost rest = all.subrange(i as int, all.len() as int);
        assert(rest[0] == window(s@, lo, hi));
        assert(rest.drop_first() =~= all.subrange(i + 1, all.len() as int));
        let (found, url) = rel_segment_in(s, lo, hi, &mark);
        if found {
            return url;
        }
        i = i + 1;
    }
    None
}

/// The last page that a relation header names: the `page` query parameter of
/// the URL of the first segment marked `rel="last"` that names one. Nothing
/// where a marked segment is malformed (no `<...>`, or no query).
pub fn parse_last_page(link_header: &str) -> (r: Option<usize>)
    ensures
        r == last_page(link_header@),
{
    let s = chars_of(link_header);
    last_page_of(&s)
}

/// The URL of relation `rel` in a relation header: the text inside `<...>` of
/// the first segment whose trimmed text ends with `rel="<rel>"`.
pub fn parse_rel_url(link_header: &str, rel: &str) -> (r: Option<String>)
    ensures
        match r {
            Some(u) => rel_url(link_header@, rel@) == Some(u@),
            None => rel_url(link_header@, rel@) is None,
        },
{
    let s = chars_of(link_header);
    let rs = chars_of(rel);
    match rel_url_of(&s, &rs) {
        Some((a, b)) => Some(link_header.substring_char(a, b).to_owned()),
        None => None,
    }
}

/// A name for what `serde_json` reads from `text`: `None` where it is not one
/// JSON document; for one, `Some(Some(n))` where it is an array of `n`
/// elements and `Some(None)` where it is anything else.
pub uninterp spec fn json_array_len(text: Seq<char>) -> Option<Option<nat>>;

#[verifier::external_type_specification]
#[verifier::external_body]
pub struct ExJsonValue(serde_json::Value);

#[verifier::external_type_specification]
#[verifier::external_body]
pub struct ExJsonError(serde_json::Error);

/// Relies on `serde_json::from_str` into a `serde_json::Value`: the elements
/// of the document that `text` holds, where it is an array.
#[verifier::external_body]
fn json_array_elements(text: &str) -> (r: Result<Option<Vec<serde_json::Value>>, serde_json::Error>)
    ensures
        match r {
            Ok(Some(items)) => json_array_len(text@) == Some(Some(items@.len())),
            Ok(None) => json_array_len(text@) == Some(None::<nat>),
            Err(_) => json_array_len(text@) is None,
        },
{
    match serde_json::from_str::<serde_json::Value>(text) {
        Ok(serde_json::Value::Array(items)) => Ok(Some(items)),
        Ok(_) => Ok(None),
        Err(e) => Err(e),
    }
}

/// What a relation header alone says of a collection's size: the last page
/// it names; else two, a lower bound, where it links a next page; else
/// nothing, and the body must be counted.
pub fn link_count_of(link_header: &str) -> (r: Option<usize>)
    ensures
        r == link_count(link_header@),
{
    let s = chars_of(link_header);
    if let Some(n) = last_page_of(&s) {
        return Some(n);
    }
    let next = vec!['n', 'e', 'x', 't'];
    assert(next@ =~= next_rel());
    if rel_url_of(&s, &next).is_some() {
        Some(2)
    } else {
        None
    }
}

/// The size of a collection from one page of size one: the last page that
/// the relation header names; else two where it links a next page; else the
/// number of elements of the body's array (zero for a body that is no
/// array). An error where that body is needed and is not JSON.
pub fn count_from_response(link_header: Option<&str>, body: &str) -> (r: Result<usize, CountError>)
    ensures
        r == response_count(
            match link_header {
                Some(h) => Some(h@),
                None => None,
            },
            body@,
        ),
{
    if let Some(h) = link_header {
        if let Some(n) = link_count_of(h) {
            return Ok(n);
        }
    }
    match json_array_elements(body) {
        Ok(Some(items)) => Ok(items.len()),
        Ok(None) => Ok(0),
        Err(_) => Err(CountError::InvalidJson),
    }
}

/// The commit count that the pagination answer settles: the answer where it
/// exceeds one. Nothing where it is one or zero, which cannot tell an empty
/// history from a cut-short one: the search endpoint's `total_count` decides.
pub fn commit_count_from_link(via_link: usize) -> (r: Option<usize>)
    ensures
        r == settled_commit_count(via_link),
{
    if via_link > 1 {
        Some(via_link)
    } else {
        None
    }
}

/// A relation header that names a last page decides the count, whatever the
/// body holds.
pub proof fn law_last_page_decides(header: Seq<char>, body: Seq<char>)
    requires
        last_page(header) is Some,
    ensures
        response_count(Some(header), body) == Ok::<usize, CountError>(last_page(header)->0),
{
}

} // verus!
