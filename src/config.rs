//! The run's configuration: what the command line gives, what a file fills
//! in, and the defaults for the rest.

use vstd::prelude::*;
use crate::output::OutputFormat;

verus! {

/// The commit count that makes a project established, by default.
pub const DEFAULT_MIN_COMMITS: usize = 100;

/// The contributor count that makes a project established, by default.
pub const DEFAULT_MIN_CONTRIBUTORS: usize = 3;

/// The days without a commit that a project may go, by default.
pub const DEFAULT_MAX_DAYS: i64 = 60;

/// The open pull requests that earn full marks, by default.
pub const DEFAULT_PRS_SCALE: u64 = 10;

/// The open issues that earn full marks, by default.
pub const DEFAULT_ISSUES_SCALE: u64 = 20;

/// The age in days at which a release earns nothing, by default.
pub const DEFAULT_MAX_RELEASE_DAYS: i64 = 365;

/// The configuration of one run. Every threshold is optional until
/// `with_defaults` fills it in.
#[derive(Clone, Debug, Default)]
pub struct Config {
    /// The owner of the repository.
    pub owner: Option<String>,
    /// The name of the repository.
    pub repo: Option<String>,
    /// A configuration file to merge in.
    pub config_file: Option<String>,
    /// How the report is shown.
    pub format: Option<OutputFormat>,
    /// The commit count that makes a project established.
    pub min_commits: Option<usize>,
    /// The contributor count that makes a project established.
    pub min_contributors: Option<usize>,
    /// The days without a commit that a project may go.
    pub max_days: Option<i64>,
    /// The open pull requests that earn full marks.
    pub prs_scale: Option<u64>,
    /// The open issues that earn full marks.
    pub issues_scale: Option<u64>,
    /// The age in days at which a release earns nothing.
    pub max_release_days: Option<i64>,
    /// Where the report of the previous run is kept.
    pub history: Option<String>,
    /// The field whose change since the previous run becomes the exit status.
    pub check: Option<String>,
    /// Whether to tell what the run is doing.
    pub verbose: bool,
}

/// Why a configuration cannot start a run.
#[derive(Clone, Copy, Debug, PartialEq, Eq)]
pub enum ConfigError {
    /// No repository owner was given.
    MissingOwner,
    /// No repository name was given.
    MissingRepo,
    /// A change check was asked for with no history file to compare against.
    CheckWithoutHistory,
}

/// `first` where it is set, else `second`.
pub open spec fn first_set<T>(first: Option<T>, second: Option<T>) -> Option<T> {
    if first is Some {
        first
    } else {
        second
    }
}

/// `first` where it is set, else `second`.
fn or_else_take<T>(first: Option<T>, second: Option<T>) -> (r: Option<T>)
    ensures
        r == first_set(first, second),
{
    match first {
        Some(v) => Some(v),
        None => second,
    }
}

/// The thresholds are all set.
pub open spec fn thresholds_set(c: Config) -> bool {
    &&& c.min_commits is Some
    &&& c.min_contributors is Some
    &&& c.max_days is Some
    &&& c.prs_scale is Some
    &&& c.issues_scale is Some
    &&& c.max_release_days is Some
}

impl Config {
    /// Fills the format and thresholds that are unset from `file_config`;
    /// what is set here wins.
    pub fn merge(self, file_config: Config) -> (r: Config)
        ensures
            r.format == first_set(self.format, file_config.format),
            r.min_commits == first_set(self.min_commits, file_config.min_commits),
            r.min_contributors == first_set(self.min_contributors, file_config.min_contributors),
            r.max_days == first_set(self.max_days, file_config.max_days),
            r.prs_scale == first_set(self.prs_scale, file_config.prs_scale),
            r.issues_scale == first_set(self.issues_scale, file_config.issues_scale),
            r.max_release_days == first_set(self.max_release_days, file_config.max_release_days),
            r.owner == self.owner,
            r.repo == self.repo,
            r.config_file == self.config_file,
            r.history == self.history,
            r.check == self.check,
            r.verbose == self.verbose,
    {
        Config {
            owner: self.owner,
            repo: self.repo,
            config_file: self.config_file,
            format: or_else_take(self.format, file_config.format),
            min_commits: or_else_take(self.min_commits, file_config.min_commits),
            min_contributors: or_else_take(self.min_contributors, file_config.min_contributors),
            max_days: or_else_take(self.max_days, file_config.max_days),
            prs_scale: or_else_take(self.prs_scale, file_config.prs_scale),
            issues_scale: or_else_take(self.issues_scale, file_config.issues_scale),
            max_release_days: or_else_take(self.max_release_days, file_config.max_release_days),
            history: self.history,
            check: self.check,
            verbose: self.verbose,
        }
    }

    /// Fills the format and thresholds that are unset with the defaults.
    pub fn with_defaults(self) -> (r: Config)
        ensures
            r.format == first_set(self.format, Some(OutputFormat::Default)),
            r.min_commits == first_set(self.min_commits, Some(DEFAULT_MIN_COMMITS)),
            r.min_contributors == first_set(self.min_contributors, Some(DEFAULT_MIN_CONTRIBUTORS)),
            r.max_days == first_set(self.max_days, Some(DEFAULT_MAX_DAYS)),
            r.prs_scale == first_set(self.prs_scale, Some(DEFAULT_PRS_SCALE)),
            r.issues_scale == first_set(self.issues_scale, Some(DEFAULT_ISSUES_SCALE)),
            r.max_release_days == first_set(self.max_release_days, Some(DEFAULT_MAX_RELEASE_DAYS)),
            r.owner == self.owner,
            r.repo == self.repo,
            r.config_file == self.config_file,
            r.history == self.history,
            r.check == self.check,
            r.verbose == self.verbose,
            r.format is Some,
            thresholds_set(r),
    {
        Config {
            owner: self.owner,
            repo: self.repo,
            config_file: self.config_file,
            format: or_else_take(self.format, Some(OutputFormat::Default)),
            min_commits: or_else_take(self.min_commits, Some(DEFAULT_MIN_COMMITS)),
            min_contributors: or_else_take(self.min_contributors, Some(DEFAULT_MIN_CONTRIBUTORS)),
            max_days: or_else_take(self.max_days, Some(DEFAULT_MAX_DAYS)),
            prs_scale: or_else_take(self.prs_scale, Some(DEFAULT_PRS_SCALE)),
            issues_scale: or_else_take(self.issues_scale, Some(DEFAULT_ISSUES_SCALE)),
            max_release_days: or_else_take(self.max_release_days, Some(DEFAULT_MAX_RELEASE_DAYS)),
            history: self.history,
            check: self.check,
            verbose: self.verbose,
        }
    }

    /// The repository owner.
    pub fn get_owner(&self) -> (r: &str)
        requires
            self.owner is Some,
        ensures
            r@ == self.owner->0@,
    {
        match &self.owner {
            Some(o) => o.as_str(),
            None => "",
        }
    }

    /// The repository name.
    pub fn get_repo(&self) -> (r: &str)
        requires
            self.repo is Some,
        ensures
            r@ == self.repo->0@,
    {
        match &self.repo {
            Some(o) => o.as_str(),
            None => "",
        }
    }

    /// The output format.
    pub fn get_format(&self) -> (r: &OutputFormat)
        requires
            self.format is Some,
        ensures
            *r == self.format->0,
    {
        match &self.format {
            Some(f) => f,
            None => &OutputFormat::Default,
        }
    }

    /// The commit count that makes a project established.
    pub fn get_min_commits(&self) -> (r: usize)
        requires
            self.min_commits is Some,
        ensures
            r == self.min_commits->0,
    {
        self.min_commits.unwrap_or(0)
    }

    /// The contributor count that makes a project established.
    pub fn get_min_contributors(&self) -> (r: usize)
        requires
            self.min_contributors is Some,
        ensures
            r == self.min_contributors->0,
    {
        self.min_contributors.unwrap_or(0)
    }

    /// The days without a commit that a project may go.
    pub fn get_max_days(&self) -> (r: i64)
        requires
            self.max_days is Some,
        ensures
            r == self.max_days->0,
    {
        self.max_days.unwrap_or(0)
    }

    /// The open pull requests that earn full marks.
    pub fn get_prs_scale(&self) -> (r: u64)
        requires
            self.prs_scale is Some,
        ensures
            r == self.prs_scale->0,
    {
        self.prs_scale.unwrap_or(0)
    }

    /// The open issues that earn full marks.
    pub fn get_issues_scale(&self) -> (r: u64)
        requires
            self.issues_scale is Some,
        ensures
            r == self.issues_scale->0,
    {
        self.issues_scale.unwrap_or(0)
    }

    /// The age in days at which a release earns nothing.
    pub fn get_max_release_days(&self) -> (r: i64)
        requires
            self.max_release_days is Some,
        ensures
            r == self.max_release_days->0,
    {
        self.max_release_days.unwrap_or(0)
    }

    /// Whether the repository is named and every threshold is set: what
    /// scoring and building a report need.
    pub fn ready_to_score(&self) -> (r: bool)
        ensures
            r == (self.owner is Some && self.repo is Some && thresholds_set(*self)),
    {
        self.owner.is_some() && self.repo.is_some() && self.min_commits.is_some()
            && self.min_contributors.is_some() && self.max_days.is_some() && self.prs_scale.is_some()
            && self.issues_scale.is_some() && self.max_release_days.is_some()
    }

    /// Checks, before any request is made, that the run can start: an owner
    /// and a repository are named, and a change check comes with a history
    /// file.
    pub fn validate(&self) -> (r: Result<(), ConfigError>)
        ensures
            r == if self.owner is None {
                Err(ConfigError::MissingOwner)
            } else if self.repo is None {
                Err(ConfigError::MissingRepo)
            } else if self.check is Some && self.history is None {
                Err(ConfigError::CheckWithoutHistory)
            } else {
                Ok(())
            },
    {
        if self.owner.is_none() {
            return Err(ConfigError::MissingOwner);
        }
        if self.repo.is_none() {
            return Err(ConfigError::MissingRepo);
        }
        if self.check.is_some() && self.history.is_none() {
            return Err(ConfigError::CheckWithoutHistory);
        }
        Ok(())
    }
}

} // verus!
