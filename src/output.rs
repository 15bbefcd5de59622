//! The report of one run, the output formats it can be shown in, and how a
//! report is put together from what was fetched.

use vstd::prelude::*;
use crate::config::Config;
use crate::text::{chars_of, equals_in, find_in, index_of, window};
use crate::time::UtcTime;
use crate::types::{CommitInfo, ReleaseInfo};

verus! {

/// How a report is shown.
#[derive(Clone, Debug)]
pub enum OutputFormat {
    /// Aligned text for people.
    Default,
    /// The whole report as JSON.
    Json,
    /// One field of the report, named by a dotted path.
    Field(String),
}

/// Why a text names no output format.
#[derive(Clone, Debug)]
pub enum FormatError {
    /// `field:` with no field after it.
    EmptyField,
    /// Neither `default`, `json` nor `field:<path>`; the text is kept.
    Invalid(String),
}

/// `default`.
pub open spec fn default_name() -> Seq<char> {
    seq!['d', 'e', 'f', 'a', 'u', 'l', 't']
}

/// `json`.
pub open spec fn json_name() -> Seq<char> {
    seq!['j', 's', 'o', 'n']
}

/// `field:`, the prefix of a field format.
pub open spec fn field_prefix() -> Seq<char> {
    seq!['f', 'i', 'e', 'l', 'd', ':']
}

/// `s` begins with `field:`.
pub open spec fn has_field_prefix(s: Seq<char>) -> bool {
    s.len() >= 6 && s.subrange(0, 6) == field_prefix()
}

/// The name of an output format, as `from_str` reads it back.
pub open spec fn format_name(f: OutputFormat) -> Seq<char> {
    match f {
        OutputFormat::Default => default_name(),
        OutputFormat::Json => json_name(),
        OutputFormat::Field(path) => field_prefix() + path@,
    }
}

/// The first line of `s`: the text before its first `\n`, without a `\r`
/// just before that `\n`; all of `s` where it holds no `\n`.
pub open spec fn first_line_of(s: Seq<char>) -> Seq<char> {
    match index_of(s, '\n') {
        Some(k) => if k > 0 && s[k - 1] == '\r' {
            s.subrange(0, k - 1)
        } else {
            s.subrange(0, k)
        },
        None => s,
    }
}

impl OutputFormat {
    /// Reads `default`, `json` or `field:<path>`.
    pub fn from_str(s: &str) -> (r: Result<OutputFormat, FormatError>)
        ensures
            match r {
                Ok(OutputFormat::Default) => s@ == default_name(),
                Ok(OutputFormat::Json) => s@ == json_name(),
                Ok(OutputFormat::Field(path)) => path@.len() > 0 && s@ == field_prefix() + path@,
                Err(FormatError::EmptyField) => s@ == field_prefix(),
                Err(FormatError::Invalid(t)) => t@ == s@ && s@ != default_name() && s@
                    != json_name() && !has_field_prefix(s@),
            },
    {
        let v = chars_of(s);
        let n = v.len();
        assert(window(v@, 0, n) =~= s@);
        let dflt = vec!['d', 'e', 'f', 'a', 'u', 'l', 't'];
        assert(dflt@ =~= default_name());
        if equals_in(&v, 0, n, &dflt) {
            return Ok(OutputFormat::Default);
        }
        let json = vec!['j', 's', 'o', 'n'];
        assert(json@ =~= json_name());
        if equals_in(&v, 0, n, &json) {
            return Ok(OutputFormat::Json);
        }
        let prefix = vec!['f', 'i', 'e', 'l', 'd', ':'];
        assert(prefix@ =~= field_prefix());
        if n >= 6 && equals_in(&v, 0, 6, &prefix) {
            assert(window(v@, 0, 6) == s@.subrange(0, 6));
            if n == 6 {
                assert(s@ =~= field_prefix());
                return Err(FormatError::EmptyField);
            }
            let path = s.substring_char(6, n).to_owned();
            assert(s@ =~= field_prefix() + path@);
            return Ok(OutputFormat::Field(path));
        }
        assert(n >= 6 ==> window(v@, 0, 6) == s@.subrange(0, 6));
        Err(FormatError::Invalid(s.to_owned()))
    }

    /// The name of the format: `default`, `json` or `field:<path>`.
    pub fn to_string(&self) -> (r: String)
        ensures
            r@ == format_name(*self),
    {
        proof {
            reveal_strlit("default");
            reveal_strlit("json");
            reveal_strlit("field:");
        }
        match self {
            OutputFormat::Default => {
                let r = String::from_str("default");
                assert(r@ =~= default_name());
                r
            },
            OutputFormat::Json => {
                let r = String::from_str("json");
                assert(r@ =~= json_name());
                r
            },
            OutputFormat::Field(path) => {
                let r = String::from_str("field:").concat(path.as_str());
                assert(r@ =~= field_prefix() + path@);
                r
            },
        }
    }
}

/// The first line of a commit message.
pub fn first_line(s: &str) -> (r: &str)
    ensures
        r@ == first_line_of(s@),
{
    let v = chars_of(s);
    let n = v.len();
    assert(window(v@, 0, n) =~= s@);
    match find_in(&v, '\n', 0, n) {
        Some(k) => {
            if k > 0 && v[k - 1] == '\r' {
                s.substring_char(0, k - 1)
            } else {
                s.substring_char(0, k)
            }
        },
        None => s,
    }
}

/// Everything one run found out about a repository.
#[derive(Clone, Debug)]
pub struct RepositoryReport {
    pub owner: String,
    pub repo: String,
    pub commits_total: usize,
    pub contributors_total: usize,
    pub open_pull_requests: usize,
    pub open_issues: usize,
    pub last_commit: LastCommitInfo,
    pub last_release: Option<LastReleaseInfo>,
    pub project_alive: bool,
    pub criteria: CriteriaInfo,
}

/// The newest commit, as the report shows it.
#[derive(Clone, Debug)]
pub struct LastCommitInfo {
    pub sha: String,
    pub author_name: String,
    pub author_email: String,
    pub date_utc: UtcTime,
    pub message: String,
}

/// The latest release, as the report shows it.
#[derive(Clone, Debug)]
pub struct LastReleaseInfo {
    pub tag_name: String,
    pub name: Option<String>,
    pub date_utc: Option<UtcTime>,
    pub is_prerelease: bool,
}

/// The thresholds that the verdict of a report was reached with.
#[derive(Clone, Copy, Debug, PartialEq, Eq, Structural)]
pub struct CriteriaInfo {
    pub max_days: i64,
    pub min_contributors: usize,
    pub min_commits: usize,
}

/// The report's view of a release.
pub open spec fn release_shown(r: ReleaseInfo, shown: LastReleaseInfo) -> bool {
    &&& shown.tag_name@ == r.tag_name@
    &&& shown.name == r.name
    &&& shown.date_utc == r.published_at
    &&& shown.is_prerelease == r.prerelease
}

/// A copy of an optional text.
fn copy_text(t: &Option<String>) -> (r: Option<String>)
    ensures
        r == *t,
{
    match t {
        Some(s) => Some(s.clone()),
        None => None,
    }
}

/// Puts the report of one run together: the repository named by the
/// configuration, the counts, the newest commit with the first line of its
/// message, the latest release, the verdict, and the thresholds in force.
pub fn create_repository_report(
    config: &Config,
    commits_count: usize,
    contributors_count: usize,
    open_prs: usize,
    open_issues: usize,
    last_commit: &CommitInfo,
    last_release: Option<&ReleaseInfo>,
    alive: bool,
) -> (r: RepositoryReport)
    requires
        config.owner is Some,
        config.repo is Some,
        config.max_days is Some,
        config.min_contributors is Some,
        config.min_commits is Some,
    ensures
        r.owner@ == config.owner->0@,
        r.repo@ == config.repo->0@,
        r.commits_total == commits_count,
        r.contributors_total == contributors_count,
        r.open_pull_requests == open_prs,
        r.open_issues == open_issues,
        r.last_commit.sha@ == last_commit.sha@,
        r.last_commit.author_name@ == last_commit.commit.author.name@,
        r.last_commit.author_email@ == last_commit.commit.author.email@,
        r.last_commit.date_utc == last_commit.commit.author.date,
        r.last_commit.message@ == first_line_of(last_commit.commit.message@),
        match last_release {
            Some(rel) => r.last_release is Some && release_shown(*rel, r.last_release->0),
            None => r.last_release is None,
        },
        r.project_alive == alive,
        r.criteria == (CriteriaInfo {
            max_days: config.max_days->0,
            min_contributors: config.min_contributors->0,
            min_commits: config.min_commits->0,
        }),
{
    let release = match last_release {
        Some(rel) => Some(
            LastReleaseInfo {
                tag_name: rel.tag_name.clone(),
                name: copy_text(&rel.name),
                date_utc: rel.published_at,
                is_prerelease: rel.prerelease,
            },
        ),
        None => None,
    };
    RepositoryReport {
        owner: config.get_owner().to_owned(),
        repo: config.get_repo().to_owned(),
        commits_total: commits_count,
        contributors_total: contributors_count,
        open_pull_requests: open_prs,
        open_issues,
        last_commit: LastCommitInfo {
            sha: last_commit.sha.clone(),
            author_name: last_commit.commit.author.name.clone(),
            author_email: last_commit.commit.author.email.clone(),
            date_utc: last_commit.commit.author.date,
            message: first_line(last_commit.commit.message.as_str()).to_owned(),
        },
        last_release: release,
        project_alive: alive,
        criteria: CriteriaInfo {
            max_days: config.get_max_days(),
            min_contributors: config.get_min_contributors(),
            min_commits: config.get_min_commits(),
        },
    }
}

/// How fresh the latest release is, as the text report labels it.
#[derive(Clone, Copy, Debug, PartialEq, Eq, Structural)]
pub enum ReleaseStatus {
    FreshRelease,
    RecentPrerelease,
    StaleRelease,
    StalePrerelease,
}

/// The label of a release `days_since_release` days old: fresh up to the
/// release age limit, stale past it; prereleases apart.
pub fn release_status(days_since_release: i64, max_release_days: i64, prerelease: bool) -> (r:
    ReleaseStatus)
    ensures
        r == if days_since_release <= max_release_days {
            if prerelease {
                ReleaseStatus::RecentPrerelease
            } else {
                ReleaseStatus::FreshRelease
            }
        } else if prerelease {
            ReleaseStatus::StalePrerelease
        } else {
            ReleaseStatus::StaleRelease
        },
{
    if days_since_release <= max_release_days {
        if prerelease {
            ReleaseStatus::RecentPrerelease
        } else {
            ReleaseStatus::FreshRelease
        }
    } else if prerelease {
        ReleaseStatus::StalePrerelease
    } else {
        ReleaseStatus::StaleRelease
    }
}

} // verus!
