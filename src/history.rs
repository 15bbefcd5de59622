//! The history differ: the report of the previous run, and how much one
//! field of the report has changed since.
//!
//! A field is named by a dotted path (`commits_total`,
//! `last_commit.date_utc`). Each segment descends one level of the report's
//! fixed schema; the first that names nothing is reported with the path.

use vstd::prelude::*;
use crate::output::{CriteriaInfo, LastCommitInfo, LastReleaseInfo, RepositoryReport};
use crate::text::{chars_of, contains, contains_in, split_in, split_on, window, windows};
use crate::time::{
    days_between, instant_nanos, parse_timestamp, parsed_instant, whole_days_between, UtcTime,
    NANOS_PER_DAY,
};
use vstd::arithmetic::div_mod::lemma_div_multiples_vanish;

verus! {

/// The single record that the history store keeps: the previous report.
#[derive(Clone, Debug)]
pub struct HistoryData {
    pub last_data: RepositoryReport,
}

/// A field of the report schema.
#[derive(Clone, Copy, Debug, PartialEq, Eq)]
pub enum FieldId {
    Owner,
    Repo,
    CommitsTotal,
    ContributorsTotal,
    OpenPullRequests,
    OpenIssues,
    LastCommit,
    LastRelease,
    ProjectAlive,
    Criteria,
    CommitSha,
    CommitAuthorName,
    CommitAuthorEmail,
    CommitDate,
    CommitMessage,
    ReleaseTagName,
    ReleaseName,
    ReleaseDate,
    ReleasePrerelease,
    CriteriaMaxDays,
    CriteriaMinContributors,
    CriteriaMinCommits,
}

/// The value of one field of a report.
#[derive(Clone, Debug)]
pub enum FieldValue {
    /// An absent optional value.
    Null,
    Bool(bool),
    Number(i128),
    Text(String),
    Date(UtcTime),
    Commit(LastCommitInfo),
    Release(LastReleaseInfo),
    Criteria(CriteriaInfo),
}

/// A path segment that names no field where it stands.
#[derive(Clone, Debug)]
pub struct FieldNotFound {
    /// The segment that names nothing.
    pub segment: String,
    /// The whole path.
    pub path: String,
}

/// The top-level field that `name` names.
pub open spec fn top_field(name: Seq<char>) -> Option<FieldId> {
    if name == "owner"@ {
        Some(FieldId::Owner)
    } else if name == "repo"@ {
        Some(FieldId::Repo)
    } else if name == "commits_total"@ {
        Some(FieldId::CommitsTotal)
    } else if name == "contributors_total"@ {
        Some(FieldId::ContributorsTotal)
    } else if name == "open_pull_requests"@ {
        Some(FieldId::OpenPullRequests)
    } else if name == "open_issues"@ {
        Some(FieldId::OpenIssues)
    } else if name == "last_commit"@ {
        Some(FieldId::LastCommit)
    } else if name == "last_release"@ {
        Some(FieldId::LastRelease)
    } else if name == "project_alive"@ {
        Some(FieldId::ProjectAlive)
    } else if name == "criteria"@ {
        Some(FieldId::Criteria)
    } else {
        None
    }
}

/// The field that `name` names inside `parent`, in `report`. An absent
/// release has no fields.
pub open spec fn child_field(report: RepositoryReport, parent: FieldId, name: Seq<char>) -> Option<
    FieldId,
> {
    match parent {
        FieldId::LastCommit => if name == "sha"@ {
            Some(FieldId::CommitSha)
        } else if name == "author_name"@ {
            Some(FieldId::CommitAuthorName)
        } else if name == "author_email"@ {
            Some(FieldId::CommitAuthorEmail)
        } else if name == "date_utc"@ {
            Some(FieldId::CommitDate)
        } else if name == "message"@ {
            Some(FieldId::CommitMessage)
        } else {
            None
        },
        FieldId::LastRelease => if report.last_release is None {
            None
        } else if name == "tag_name"@ {
            Some(FieldId::ReleaseTagName)
        } else if name == "name"@ {
            Some(FieldId::ReleaseName)
        } else if name == "date_utc"@ {
            Some(FieldId::ReleaseDate)
        } else if name == "is_prerelease"@ {
            Some(FieldId::ReleasePrerelease)
        } else {
            None
        },
        FieldId::Criteria => if name == "max_days"@ {
            Some(FieldId::CriteriaMaxDays)
        } else if name == "min_contributors"@ {
            Some(FieldId::CriteriaMinContributors)
        } else if name == "min_commits"@ {
            Some(FieldId::CriteriaMinCommits)
        } else {
            None
        },
        _ => None,
    }
}

/// The field that the segments name in `report`, or the position of the
/// first segment that names nothing.
pub open spec fn resolve_path(report: RepositoryReport, segs: Seq<Seq<char>>) -> Result<FieldId, int> {
    if segs.len() == 0 {
        Err(0)
    } else {
        match top_field(segs[0]) {
            None => Err(0),
            Some(top) => if segs.len() == 1 {
                Ok(top)
            } else {
                match child_field(report, top, segs[1]) {
                    None => Err(1),
                    Some(child) => if segs.len() == 2 {
                        Ok(child)
                    } else {
                        Err(2)
                    },
                }
            },
        }
    }
}

/// The segments of a dotted path.
pub open spec fn path_segments(path: Seq<char>) -> Seq<Seq<char>> {
    split_on(path, '.')
}

/// The value of field `id` in `report`.
pub open spec fn field_value(report: RepositoryReport, id: FieldId) -> FieldValue {
    match id {
        FieldId::Owner => FieldValue::Text(report.owner),
        FieldId::Repo => FieldValue::Text(report.repo),
        FieldId::CommitsTotal => FieldValue::Number(report.commits_total as i128),
        FieldId::ContributorsTotal => FieldValue::Number(report.contributors_total as i128),
        FieldId::OpenPullRequests => FieldValue::Number(report.open_pull_requests as i128),
        FieldId::OpenIssues => FieldValue::Number(report.open_issues as i128),
        FieldId::LastCommit => FieldValue::Commit(report.last_commit),
        FieldId::LastRelease => match report.last_release {
            Some(r) => FieldValue::Release(r),
            None => FieldValue::Null,
        },
        FieldId::ProjectAlive => FieldValue::Bool(report.project_alive),
        FieldId::Criteria => FieldValue::Criteria(report.criteria),
        FieldId::CommitSha => FieldValue::Text(report.last_commit.sha),
        FieldId::CommitAuthorName => FieldValue::Text(report.last_commit.author_name),
        FieldId::CommitAuthorEmail => FieldValue::Text(report.last_commit.author_email),
        FieldId::CommitDate => FieldValue::Date(report.last_commit.date_utc),
        FieldId::CommitMessage => FieldValue::Text(report.last_commit.message),
        FieldId::ReleaseTagName => match report.last_release {
            Some(r) => FieldValue::Text(r.tag_name),
            None => FieldValue::Null,
        },
        FieldId::ReleaseName => match report.last_release {
            Some(r) => match r.name {
                Some(n) => FieldValue::Text(n),
                None => FieldValue::Null,
            },
            None => FieldValue::Null,
        },
        FieldId::ReleaseDate => match report.last_release {
            Some(r) => match r.date_utc {
                Some(d) => FieldValue::Date(d),
                None => FieldValue::Null,
            },
            None => FieldValue::Null,
        },
        FieldId::ReleasePrerelease => match report.last_release {
            Some(r) => FieldValue::Bool(r.is_prerelease),
            None => FieldValue::Null,
        },
        FieldId::CriteriaMaxDays => FieldValue::Number(report.criteria.max_days as i128),
        FieldId::CriteriaMinContributors => FieldValue::Number(
            report.criteria.min_contributors as i128,
        ),
        FieldId::CriteriaMinCommits => FieldValue::Number(report.criteria.min_commits as i128),
    }
}

/// Two optional texts are the same.
pub open spec fn same_text(a: Option<String>, b: Option<String>) -> bool {
    match (a, b) {
        (Some(x), Some(y)) => x@ == y@,
        (None, None) => true,
        _ => false,
    }
}

/// Two commits are shown alike.
pub open spec fn same_commit(a: LastCommitInfo, b: LastCommitInfo) -> bool {
    &&& a.sha@ == b.sha@
    &&& a.author_name@ == b.author_name@
    &&& a.author_email@ == b.author_email@
    &&& a.date_utc == b.date_utc
    &&& a.message@ == b.message@
}

/// Two releases are shown alike.
pub open spec fn same_release(a: LastReleaseInfo, b: LastReleaseInfo) -> bool {
    &&& a.tag_name@ == b.tag_name@
    &&& same_text(a.name, b.name)
    &&& a.date_utc == b.date_utc
    &&& a.is_prerelease == b.is_prerelease
}

/// `date`, the mark of a path whose texts are read as timestamps.
pub open spec fn date_mark() -> Seq<char> {
    seq!['d', 'a', 't', 'e']
}

/// Zero for equal, one for different.
pub open spec fn changed(same: bool) -> int {
    if same {
        0
    } else {
        1
    }
}

/// The absolute value of `x`, capped at `i64::MAX`.
pub open spec fn capped_abs(x: int) -> int {
    let a = if x >= 0 {
        x
    } else {
        -x
    };
    if a > i64::MAX {
        i64::MAX as int
    } else {
        a
    }
}

/// The change magnitude between two values of the field at `path`, given
/// the instants that texts read as (used for two texts on a path marked
/// `date`): numbers by their distance; dates on a `date` path by whole days
/// apart; booleans, texts, records and dates elsewhere by equality; two nulls
/// agree; anything else is a change.
pub open spec fn change_given(
    current: FieldValue,
    last: FieldValue,
    path: Seq<char>,
    current_instant: Option<UtcTime>,
    last_instant: Option<UtcTime>,
) -> int {
    match (current, last) {
        (FieldValue::Number(a), FieldValue::Number(b)) => capped_abs(a - b),
        (FieldValue::Bool(a), FieldValue::Bool(b)) => changed(a == b),
        (FieldValue::Date(a), FieldValue::Date(b)) => if contains(path, date_mark()) {
            capped_abs(whole_days_between(a, b))
        } else {
            changed(a == b)
        },
        (FieldValue::Text(a), FieldValue::Text(b)) => if contains(path, date_mark())
            && current_instant is Some && last_instant is Some {
            capped_abs(whole_days_between(current_instant->0, last_instant->0))
        } else {
            changed(a@ == b@)
        },
        (FieldValue::Commit(a), FieldValue::Commit(b)) => changed(same_commit(a, b)),
        (FieldValue::Release(a), FieldValue::Release(b)) => changed(same_release(a, b)),
        (FieldValue::Criteria(a), FieldValue::Criteria(b)) => changed(a == b),
        (FieldValue::Null, FieldValue::Null) => 0,
        _ => 1,
    }
}

/// The instant that a text value reads as.
pub open spec fn text_instant(v: FieldValue) -> Option<UtcTime> {
    match v {
        FieldValue::Text(t) => parsed_instant(t@),
        _ => None,
    }
}

/// The change magnitude between two values of the field at `path`, texts
/// on a `date` path read as timestamps.
pub open spec fn field_change(current: FieldValue, last: FieldValue, path: Seq<char>) -> int {
    change_given(current, last, path, text_instant(current), text_instant(last))
}

/// The change of the field at `path` from report `last` to report
/// `current`; or the position of the segment that names nothing, in
/// `current` first.
pub open spec fn report_change(current: RepositoryReport, last: RepositoryReport, path: Seq<char>) -> Result<int, int> {
    let segs = path_segments(path);
    match resolve_path(current, segs) {
        Err(k) => Err(k),
        Ok(a) => match resolve_path(last, segs) {
            Err(k) => Err(k),
            Ok(b) => Ok(field_change(field_value(current, a), field_value(last, b), path)),
        },
    }
}


/// Whether `name` is the text `lit`.
fn is_named(name: &String, lit: &str) -> (r: bool)
    ensures
        r == (name@ == lit@),
{
    let l = String::from_str(lit);
    *name == l
}

/// The top-level field that `name` names.
fn top_field_of(name: &String) -> (r: Option<FieldId>)
    ensures
        r == top_field(name@),
{
    if is_named(name, "owner") {
        Some(FieldId::Owner)
    } else if is_named(name, "repo") {
        Some(FieldId::Repo)
    } else if is_named(name, "commits_total") {
        Some(FieldId::CommitsTotal)
    } else if is_named(name, "contributors_total") {
        Some(FieldId::ContributorsTotal)
    } else if is_named(name, "open_pull_requests") {
        Some(FieldId::OpenPullRequests)
    } else if is_named(name, "open_issues") {
        Some(FieldId::OpenIssues)
    } else if is_named(name, "last_commit") {
        Some(FieldId::LastCommit)
    } else if is_named(name, "last_release") {
        Some(FieldId::LastRelease)
    } else if is_named(name, "project_alive") {
        Some(FieldId::ProjectAlive)
    } else if is_named(name, "criteria") {
        Some(FieldId::Criteria)
    } else {
        None
    }
}

/// The field that `name` names inside `parent`, in `report`.
fn child_field_of(report: &RepositoryReport, parent: FieldId, name: &String) -> (r: Option<FieldId>)
    ensures
        r == child_field(*report, parent, name@),
{
    match parent {
        FieldId::LastCommit => if is_named(name, "sha") {
            Some(FieldId::CommitSha)
        } else if is_named(name, "author_name") {
            Some(FieldId::CommitAuthorName)
        } else if is_named(name, "author_email") {
            Some(FieldId::CommitAuthorEmail)
        } else if is_named(name, "date_utc") {
            Some(FieldId::CommitDate)
        } else if is_named(name, "message") {
            Some(FieldId::CommitMessage)
        } else {
            None
        },
        FieldId::LastRelease => if report.last_release.is_none() {
            None
        } else if is_named(name, "tag_name") {
            Some(FieldId::ReleaseTagName)
        } else if is_named(name, "name") {
            Some(FieldId::ReleaseName)
        } else if is_named(name, "date_utc") {
            Some(FieldId::ReleaseDate)
        } else if is_named(name, "is_prerelease") {
            Some(FieldId::ReleasePrerelease)
        } else {
            None
        },
        FieldId::Criteria => if is_named(name, "max_days") {
            Some(FieldId::CriteriaMaxDays)
        } else if is_named(name, "min_contributors") {
            Some(FieldId::CriteriaMinContributors)
        } else if is_named(name, "min_commits") {
            Some(FieldId::CriteriaMinCommits)
        } else {
            None
        },
        _ => None,
    }
}

/// A copy of an optional text.
fn copy_text(t: &Option<String>) -> (r: Option<String>)
    ensures
        r == *t,
{
    match t {
        Some(s) => Some(s.clone()),
        None => None,
    }
}

/// A copy of a commit record.
fn copy_commit(c: &LastCommitInfo) -> (r: LastCommitInfo)
    ensures
        r == *c,
{
    LastCommitInfo {
        sha: c.sha.clone(),
        author_name: c.author_name.clone(),
        author_email: c.author_email.clone(),
        date_utc: c.date_utc,
        message: c.message.clone(),
    }
}

/// A copy of a release record.
fn copy_release(c: &LastReleaseInfo) -> (r: LastReleaseInfo)
    ensures
        r == *c,
{
    LastReleaseInfo {
        tag_name: c.tag_name.clone(),
        name: copy_text(&c.name),
        date_utc: c.date_utc,
        is_prerelease: c.is_prerelease,
    }
}

/// The value of field `id` in `report`.
fn value_of(report: &RepositoryReport, id: FieldId) -> (r: FieldValue)
    ensures
        r == field_value(*report, id),
{
    match id {
        FieldId::Owner => FieldValue::Text(report.owner.clone()),
        FieldId::Repo => FieldValue::Text(report.repo.clone()),
        FieldId::CommitsTotal => FieldValue::Number(report.commits_total as i128),
        FieldId::ContributorsTotal => FieldValue::Number(report.contributors_total as i128),
        FieldId::OpenPullRequests => FieldValue::Number(report.open_pull_requests as i128),
        FieldId::OpenIssues => FieldValue::Number(report.open_issues as i128),
        FieldId::LastCommit => FieldValue::Commit(copy_commit(&report.last_commit)),
        FieldId::LastRelease => match &report.last_release {
            Some(r) => FieldValue::Release(copy_release(r)),
            None => FieldValue::Null,
        },
        FieldId::ProjectAlive => FieldValue::Bool(report.project_alive),
        FieldId::Criteria => FieldValue::Criteria(report.criteria),
        FieldId::CommitSha => FieldValue::Text(report.last_commit.sha.clone()),
        FieldId::CommitAuthorName => FieldValue::Text(report.last_commit.author_name.clone()),
        FieldId::CommitAuthorEmail => FieldValue::Text(report.last_commit.author_email.clone()),
        FieldId::CommitDate => FieldValue::Date(report.last_commit.date_utc),
        FieldId::CommitMessage => FieldValue::Text(report.last_commit.message.clone()),
        FieldId::ReleaseTagName => match &report.last_release {
            Some(r) => FieldValue::Text(r.tag_name.clone()),
            None => FieldValue::Null,
        },
        FieldId::ReleaseName => match &report.last_release {
            Some(r) => match &r.name {
                Some(n) => FieldValue::Text(n.clone()),
                None => FieldValue::Null,
            },
            None => FieldValue::Null,
        },
        FieldId::ReleaseDate => match &report.last_release {
            Some(r) => match r.date_utc {
                Some(d) => FieldValue::Date(d),
                None => FieldValue::Null,
            },
            None => FieldValue::Null,
        },
        FieldId::ReleasePrerelease => match &report.last_release {
            Some(r) => FieldValue::Bool(r.is_prerelease),
            None => FieldValue::Null,
        },
        FieldId::CriteriaMaxDays => FieldValue::Number(report.criteria.max_days as i128),
        FieldId::CriteriaMinContributors => FieldValue::Number(
            report.criteria.min_contributors as i128,
        ),
        FieldId::CriteriaMinCommits => FieldValue::Number(report.criteria.min_commits as i128),
    }
}

/// The value of the field that a dotted path names in `report`; an error
/// naming the first segment that names nothing, with the whole path.
pub fn extract_field_value(report: &RepositoryReport, field_path: &str) -> (r: Result<
    FieldValue,
    FieldNotFound,
>)
    ensures
        match resolve_path(*report, path_segments(field_path@)) {
            Ok(id) => r == Ok::<FieldValue, FieldNotFound>(field_value(*report, id)),
            Err(k) => r matches Err(e) && e.segment@ == path_segments(field_path@)[k] && e.path@
                == field_path@,
        },
{
    let v = chars_of(field_path);
    let n = v.len();
    assert(window(v@, 0, n) =~= field_path@);
    let segs = split_in(&v, '.', 0, n);
    let ghost all = windows(v@, segs@);
    assert(all.len() >= 1);
    let (lo0, hi0) = segs[0];
    let first = field_path.substring_char(lo0, hi0).to_owned();
    assert(all[0] == window(v@, lo0, hi0));
    match top_field_of(&first) {
        None => Err(FieldNotFound { segment: first, path: field_path.to_owned() }),
        Some(top) => {
            if segs.len() == 1 {
                Ok(value_of(report, top))
            } else {
                let (lo1, hi1) = segs[1];
                let second = field_path.substring_char(lo1, hi1).to_owned();
                assert(all[1] == window(v@, lo1, hi1));
                match child_field_of(report, top, &second) {
                    None => Err(FieldNotFound { segment: second, path: field_path.to_owned() }),
                    Some(child) => {
                        if segs.len() == 2 {
                            Ok(value_of(report, child))
                        } else {
                            let (lo2, hi2) = segs[2];
                            assert(all[2] == window(v@, lo2, hi2));
                            Err(
                                FieldNotFound {
                                    segment: field_path.substring_char(lo2, hi2).to_owned(),
                                    path: field_path.to_owned(),
                                },
                            )
                        }
                    },
                }
            }
        },
    }
}

/// The absolute value of a whole-day count.
fn day_distance(d: i64) -> (r: i64)
    requires
        -0x4_0000_0000_0000 < d < 0x4_0000_0000_0000,
    ensures
        r == capped_abs(d as int),
{
    if d >= 0 {
        d
    } else {
        -d
    }
}

/// The distance between two numbers, capped at `i64::MAX`.
fn number_distance(a: i128, b: i128) -> (r: i64)
    ensures
        r == capped_abs(a - b),
{
    match a.checked_sub(b) {
        None => i64::MAX,
        Some(d) => {
            if d >= 0 {
                if d > i64::MAX as i128 {
                    i64::MAX
                } else {
                    d as i64
                }
            } else if d < -(i64::MAX as i128) {
                i64::MAX
            } else {
                (-d) as i64
            }
        },
    }
}

/// Whether two optional texts are the same.
fn same_text_of(a: &Option<String>, b: &Option<String>) -> (r: bool)
    ensures
        r == same_text(*a, *b),
{
    match (a, b) {
        (Some(x), Some(y)) => *x == *y,
        (None, None) => true,
        _ => false,
    }
}

/// Whether two optional instants are the same.
fn same_instant_of(a: &Option<UtcTime>, b: &Option<UtcTime>) -> (r: bool)
    ensures
        r == (*a == *b),
{
    match (a, b) {
        (Some(x), Some(y)) => x.secs == y.secs && x.nanos == y.nanos,
        (None, None) => true,
        _ => false,
    }
}

/// Whether `path` is marked `date`.
fn is_date_path(path: &str) -> (r: bool)
    ensures
        r == contains(path@, date_mark()),
{
    let v = chars_of(path);
    let n = v.len();
    assert(window(v@, 0, n) =~= path@);
    let mark = vec!['d', 'a', 't', 'e'];
    assert(mark@ =~= date_mark());
    contains_in(&v, 0, n, &mark)
}

/// The change magnitude between two values of the field at `field_path`,
/// given the instants that texts read as.
pub fn field_change_given(
    current: &FieldValue,
    last: &FieldValue,
    field_path: &str,
    current_instant: Option<UtcTime>,
    last_instant: Option<UtcTime>,
) -> (r: i64)
    ensures
        r == change_given(*current, *last, field_path@, current_instant, last_instant),
{
    match (current, last) {
        (FieldValue::Number(a), FieldValue::Number(b)) => number_distance(*a, *b),
        (FieldValue::Bool(a), FieldValue::Bool(b)) => if *a == *b {
            0
        } else {
            1
        },
        (FieldValue::Date(a), FieldValue::Date(b)) => {
            if is_date_path(field_path) {
                day_distance(days_between(a, b))
            } else if a.secs == b.secs && a.nanos == b.nanos {
                0
            } else {
                1
            }
        },
        (FieldValue::Text(a), FieldValue::Text(b)) => {
            if is_date_path(field_path) && current_instant.is_some() && last_instant.is_some() {
                match (current_instant, last_instant) {
                    (Some(x), Some(y)) => day_distance(days_between(&x, &y)),
                    _ => 1,
                }
            } else if *a == *b {
                0
            } else {
                1
            }
        },
        (FieldValue::Commit(a), FieldValue::Commit(b)) => {
            if a.sha == b.sha && a.author_name == b.author_name && a.author_email == b.author_email
                && a.date_utc.secs == b.date_utc.secs && a.date_utc.nanos == b.date_utc.nanos
                && a.message == b.message {
                0
            } else {
                1
            }
        },
        (FieldValue::Release(a), FieldValue::Release(b)) => {
            if a.tag_name == b.tag_name && same_text_of(&a.name, &b.name) && same_instant_of(
                &a.date_utc,
                &b.date_utc,
            ) && a.is_prerelease == b.is_prerelease {
                0
            } else {
                1
            }
        },
        (FieldValue::Criteria(a), FieldValue::Criteria(b)) => {
            if a.max_days == b.max_days && a.min_contributors == b.min_contributors
                && a.min_commits == b.min_commits {
                0
            } else {
                1
            }
        },
        (FieldValue::Null, FieldValue::Null) => 0,
        _ => 1,
    }
}

/// The change magnitude between two values of the field at `field_path`:
/// numbers by their distance (capped at `i64::MAX`); dates, and texts that
/// both read as timestamps, on a path marked `date` by whole days apart;
/// other booleans, texts and records by equality (zero or one); two nulls
/// agree; one null, or values of different kinds, count as one change.
pub fn calculate_field_change(current: &FieldValue, last: &FieldValue, field_path: &str) -> (r: i64)
    ensures
        r == field_change(*current, *last, field_path@),
{
    let (current_instant, last_instant) = match (current, last) {
        (FieldValue::Text(a), FieldValue::Text(b)) => {
            if is_date_path(field_path) {
                (parse_timestamp(a.as_str()), parse_timestamp(b.as_str()))
            } else {
                (None, None)
            }
        },
        _ => (None, None),
    };
    field_change_given(current, last, field_path, current_instant, last_instant)
}

impl HistoryData {
    /// The change of the field at `field_path` from the stored report to
    /// `current`; an error naming the first segment that names nothing,
    /// in `current` first, then in the stored report.
    pub fn calculate_change(&self, current: &RepositoryReport, field_path: &str) -> (r: Result<
        i64,
        FieldNotFound,
    >)
        ensures
            match report_change(*current, self.last_data, field_path@) {
                Ok(n) => r matches Ok(m) && m == n,
                Err(k) => r matches Err(e) && e.segment@ == path_segments(field_path@)[k] && e.path@
                    == field_path@,
            },
    {
        let current_value = match extract_field_value(current, field_path) {
            Ok(v) => v,
            Err(e) => {
                return Err(e);
            },
        };
        let last_value = match extract_field_value(&self.last_data, field_path) {
            Ok(v) => v,
            Err(e) => {
                return Err(e);
            },
        };
        Ok(calculate_field_change(&current_value, &last_value, field_path))
    }
}

/// The exit status of a change check: the change since the stored report
/// where there is one, and zero on a first run.
pub fn change_since(previous: Option<&HistoryData>, current: &RepositoryReport, field_path: &str) -> (r: Result<i64, FieldNotFound>)
    ensures
        match previous {
            None => r == Ok::<i64, FieldNotFound>(0),
            Some(h) => match report_change(*current, h.last_data, field_path@) {
                Ok(n) => r matches Ok(m) && m == n,
                Err(k) => r matches Err(e) && e.segment@ == path_segments(field_path@)[k]
                    && e.path@ == field_path@,
            },
        },
{
    match previous {
        None => Ok(0),
        Some(h) => h.calculate_change(current, field_path),
    }
}

/// A value never differs from itself.
proof fn lemma_change_reflexive(v: FieldValue, path: Seq<char>)
    ensures
        field_change(v, v, path) == 0,
{
    match v {
        FieldValue::Date(a) => {
            assert(whole_days_between(a, a) == 0);
        },
        FieldValue::Text(_) => {
            if let Some(i) = text_instant(v) {
                assert(whole_days_between(i, i) == 0);
            }
        },
        _ => {},
    }
}

/// Diffing a report against itself finds no change, on every path that
/// names one of its fields.
pub proof fn law_diff_identity(report: RepositoryReport, path: Seq<char>)
    requires
        resolve_path(report, path_segments(path)) is Ok,
    ensures
        report_change(report, report, path) == Ok::<int, int>(0),
{
    let id = resolve_path(report, path_segments(path))->Ok_0;
    lemma_change_reflexive(field_value(report, id), path);
}

/// Whole days apart, counted either way, differ only in sign.
proof fn lemma_days_antisymmetric(a: UtcTime, b: UtcTime)
    ensures
        whole_days_between(a, b) == -whole_days_between(b, a),
{
}

/// The change between two values does not depend on which is current.
pub proof fn law_change_symmetric(a: FieldValue, b: FieldValue, path: Seq<char>)
    ensures
        field_change(a, b, path) == field_change(b, a, path),
{
    match (a, b) {
        (FieldValue::Date(x), FieldValue::Date(y)) => {
            lemma_days_antisymmetric(x, y);
        },
        (FieldValue::Text(x), FieldValue::Text(y)) => {
            if text_instant(a) is Some && text_instant(b) is Some {
                lemma_days_antisymmetric(text_instant(a)->0, text_instant(b)->0);
            }
        },
        _ => {},
    }
}

/// On a path marked `date`, two instants a whole number `k` of days apart
/// differ by `|k|`.
pub proof fn law_date_change_counts_days(a: UtcTime, b: UtcTime, path: Seq<char>, k: int)
    requires
        contains(path, date_mark()),
        instant_nanos(a) - instant_nanos(b) == k * NANOS_PER_DAY,
        -0x8000_0000_0000_0000 < k < 0x8000_0000_0000_0000,
    ensures
        field_change(FieldValue::Date(a), FieldValue::Date(b), path) == if k >= 0 {
            k
        } else {
            -k
        },
{
    lemma_div_multiples_vanish(k, NANOS_PER_DAY as int);
    lemma_div_multiples_vanish(-k, NANOS_PER_DAY as int);
    assert((-k) * NANOS_PER_DAY == -(k * NANOS_PER_DAY)) by (nonlinear_arith);
}

/// A path whose first segment names no field of the current report fails
/// on that segment.
pub proof fn law_unknown_field_fails(current: RepositoryReport, last: RepositoryReport, path: Seq<char>)
    requires
        top_field(path_segments(path)[0]) is None,
    ensures
        report_change(current, last, path) == Err::<int, int>(0),
{
}

} // verus!
