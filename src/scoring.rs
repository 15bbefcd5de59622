//! The liveness scorer: normalized signals, weighted, against thresholds.
//!
//! Every sub-score is a fixed-point number of millionths in
//! `[0, SCORE_UNIT]`, rounded down. Weights and thresholds are in hundredths.

use vstd::prelude::*;
use vstd::arithmetic::div_mod::{lemma_div_is_ordered, lemma_multiply_divide_lt};
use crate::config::Config;
use crate::time::{days_between, now_utc, whole_days_between, UtcTime};
use crate::types::ReleaseInfo;

verus! {

/// A full score: one, in millionths.
pub const SCORE_UNIT: u64 = 1_000_000;

/// How much each normalized signal counts, in hundredths.
#[derive(Clone, Copy, Debug, PartialEq, Eq)]
pub struct ScoringWeights {
    pub recency: u32,
    pub commits: u32,
    pub contributors: u32,
    pub prs: u32,
    pub issues: u32,
    pub releases: u32,
}

/// The thresholds of the verdict, in hundredths, and how many times the
/// staleness limit it takes for recency to reach nothing.
#[derive(Clone, Copy, Debug, PartialEq, Eq)]
pub struct ScoringThresholds {
    pub activity_threshold: u32,
    pub recency_threshold: u32,
    pub recency_scale_multiplier: u32,
}

/// Decides liveness from the signals of one repository.
#[derive(Clone, Copy, Debug, PartialEq, Eq)]
pub struct ProjectScorer {
    pub weights: ScoringWeights,
    pub thresholds: ScoringThresholds,
}

impl Default for ScoringWeights {
    fn default() -> (r: Self)
        ensures
            r == (ScoringWeights {
                recency: 35,
                commits: 15,
                contributors: 15,
                prs: 10,
                issues: 10,
                releases: 15,
            }),
    {
        ScoringWeights {
            recency: 35,
            commits: 15,
            contributors: 15,
            prs: 10,
            issues: 10,
            releases: 15,
        }
    }
}

impl Default for ScoringThresholds {
    fn default() -> (r: Self)
        ensures
            r == (ScoringThresholds {
                activity_threshold: 45,
                recency_threshold: 80,
                recency_scale_multiplier: 2,
            }),
    {
        ScoringThresholds { activity_threshold: 45, recency_threshold: 80, recency_scale_multiplier: 2 }
    }
}

impl Default for ProjectScorer {
    fn default() -> (r: Self)
        ensures
            r == ProjectScorer::spec_new(),
    {
        ProjectScorer::new()
    }
}

/// A count against its scale: full at or past the scale, else the share
/// reached.
pub open spec fn ratio_score(count: int, scale: int) -> int {
    if count >= scale {
        SCORE_UNIT as int
    } else {
        count * (SCORE_UNIT as int) / scale
    }
}

/// Linear decay with age: full at age zero or less, nothing at `horizon` days
/// or more.
pub open spec fn decay_score(age: int, horizon: int) -> int {
    if age >= horizon {
        0
    } else if age <= 0 {
        SCORE_UNIT as int
    } else {
        (horizon - age) * (SCORE_UNIT as int) / horizon
    }
}

/// Recency of a commit `days` old: it decays to nothing at the staleness
/// limit times the scorer's multiplier.
pub open spec fn recency_score(scorer: ProjectScorer, max_days: int, days: int) -> int {
    decay_score(days, max_days * scorer.thresholds.recency_scale_multiplier)
}

/// The release signal: nothing without a release, half for one without a
/// date, else decay with its age, cut to seven tenths for a prerelease.
pub open spec fn release_score(release: Option<ReleaseInfo>, now: UtcTime, max_release_days: int) -> int {
    match release {
        None => 0,
        Some(r) => match r.published_at {
            None => (SCORE_UNIT / 2) as int,
            Some(p) => {
                let base = decay_score(whole_days_between(now, p), max_release_days);
                if r.prerelease {
                    base * 7 / 10
                } else {
                    base
                }
            },
        },
    }
}

/// The weighted sum of the six signals, in hundredths of millionths.
pub open spec fn weighted_activity(
    w: ScoringWeights,
    recency: int,
    commits: int,
    contributors: int,
    prs: int,
    issues: int,
    release: int,
) -> int {
    w.recency * recency + w.commits * commits + w.contributors * contributors + w.prs * prs
        + w.issues * issues + w.releases * release
}

/// A project is alive where the weighted sum meets the activity threshold,
/// or where recency alone meets the recency threshold.
pub open spec fn verdict(t: ScoringThresholds, weighted: int, recency: int) -> bool {
    weighted >= t.activity_threshold * (SCORE_UNIT as int) || recency * 100 >= t.recency_threshold
        * (SCORE_UNIT as int)
}

/// Whether a project is alive at instant `now`.
pub open spec fn alive_at(
    scorer: ProjectScorer,
    now: UtcTime,
    last_commit_date: UtcTime,
    commits: int,
    contributors: int,
    open_prs: int,
    open_issues: int,
    latest_release: Option<ReleaseInfo>,
    config: Config,
) -> bool {
    let recency = recency_score(
        scorer,
        config.max_days->0 as int,
        whole_days_between(now, last_commit_date),
    );
    let weighted = weighted_activity(
        scorer.weights,
        recency,
        ratio_score(commits, config.min_commits->0 as int),
        ratio_score(contributors, config.min_contributors->0 as int),
        ratio_score(open_prs, config.prs_scale->0 as int),
        ratio_score(open_issues, config.issues_scale->0 as int),
        release_score(latest_release, now, config.max_release_days->0 as int),
    );
    verdict(scorer.thresholds, weighted, recency)
}


/// Recency never rises with age. A commit of age zero earns full recency,
/// and one as old as the staleness limit times the multiplier (twice the
/// limit for the default scorer), or older, earns none.
pub proof fn law_recency_decays(scorer: ProjectScorer, max_days: int, d1: int, d2: int)
    requires
        0 <= d1 <= d2,
        max_days > 0,
        scorer.thresholds.recency_scale_multiplier > 0,
    ensures
        recency_score(scorer, max_days, d1) >= recency_score(scorer, max_days, d2),
        recency_score(scorer, max_days, 0) == SCORE_UNIT,
        d2 >= max_days * scorer.thresholds.recency_scale_multiplier ==> recency_score(
            scorer,
            max_days,
            d2,
        ) == 0,
{
    let m = scorer.thresholds.recency_scale_multiplier as int;
    let h = max_days * m;
    assert(h > 0) by (nonlinear_arith)
        requires
            max_days > 0,
            m > 0,
            h == max_days * m,
    ;
    let u = SCORE_UNIT as int;
    if 0 < d1 < h {
        lemma_multiply_divide_lt((h - d1) * u, h, u);
        lemma_div_is_ordered(0, (h - d1) * u, h);
    }
    if 0 < d2 < h {
        lemma_multiply_divide_lt((h - d2) * u, h, u);
        lemma_div_is_ordered(0, (h - d2) * u, h);
    }
    if 0 < d1 && d2 < h {
        lemma_div_is_ordered((h - d2) * u, (h - d1) * u, h);
    }
}

/// A count earns full marks at or past its scale, and never fewer marks for
/// a larger count.
pub proof fn law_ratio_saturates(scale: int, c1: int, c2: int)
    requires
        0 <= c1 <= c2,
        scale >= 0,
    ensures
        ratio_score(c1, scale) <= ratio_score(c2, scale),
        c2 >= scale ==> ratio_score(c2, scale) == SCORE_UNIT,
{
    let u = SCORE_UNIT as int;
    if c1 < scale {
        lemma_multiply_divide_lt(c1 * u, scale, u);
        if c2 < scale {
            lemma_div_is_ordered(c1 * u, c2 * u, scale);
        }
    }
}

/// A commit recent enough to reach the recency threshold keeps a project
/// alive, whatever its other signals say.
pub proof fn law_recent_commit_keeps_alive(
    scorer: ProjectScorer,
    now: UtcTime,
    last_commit_date: UtcTime,
    commits: int,
    contributors: int,
    open_prs: int,
    open_issues: int,
    latest_release: Option<ReleaseInfo>,
    config: Config,
)
    requires
        recency_score(
            scorer,
            config.max_days->0 as int,
            whole_days_between(now, last_commit_date),
        ) * 100 >= scorer.thresholds.recency_threshold * SCORE_UNIT,
    ensures
        alive_at(
            scorer,
            now,
            last_commit_date,
            commits,
            contributors,
            open_prs,
            open_issues,
            latest_release,
            config,
        ),
{
}

/// The release a reference points to, if any.
pub open spec fn release_of(r: Option<&ReleaseInfo>) -> Option<ReleaseInfo> {
    match r {
        Some(x) => Some(*x),
        None => None,
    }
}

/// A count against its scale.
fn ratio_score_of(count: u64, scale: u64) -> (r: u64)
    ensures
        r == ratio_score(count as int, scale as int),
        r <= SCORE_UNIT,
{
    if count >= scale {
        SCORE_UNIT
    } else {
        assert(count * SCORE_UNIT <= 0x1_0000_0000_0000_0000 * SCORE_UNIT) by (nonlinear_arith)
            requires
                count < 0x1_0000_0000_0000_0000,
                SCORE_UNIT == 1_000_000,
        ;
        let x: u128 = count as u128 * SCORE_UNIT as u128;
        proof {
            lemma_multiply_divide_lt(x as int, scale as int, SCORE_UNIT as int);
        }
        (x / scale as u128) as u64
    }
}

/// Linear decay with age.
fn decay_score_of(age: i64, horizon: i128) -> (r: u64)
    requires
        -0x8000_0000_0000_0000_0000_0000 < horizon < 0x8000_0000_0000_0000_0000_0000,
    ensures
        r == decay_score(age as int, horizon as int),
        r <= SCORE_UNIT,
{
    if age as i128 >= horizon {
        0
    } else if age <= 0 {
        SCORE_UNIT
    } else {
        let x: i128 = (horizon - age as i128) * SCORE_UNIT as i128;
        proof {
            lemma_multiply_divide_lt(x as int, horizon as int, SCORE_UNIT as int);
            lemma_div_is_ordered(0, x as int, horizon as int);
        }
        (x / horizon) as u64
    }
}

/// The weight of one signal applied to its score.
fn weigh(weight: u32, score: u64) -> (r: u128)
    requires
        score <= SCORE_UNIT,
    ensures
        r == weight * score,
        r <= 0x1_0000_0000 * SCORE_UNIT,
{
    assert(weight * score <= 0x1_0000_0000 * SCORE_UNIT) by (nonlinear_arith)
        requires
            weight < 0x1_0000_0000,
            score <= SCORE_UNIT,
    ;
    weight as u128 * score as u128
}

impl ProjectScorer {
    /// The scorer with the default weights and thresholds.
    pub open spec fn spec_new() -> ProjectScorer {
        ProjectScorer {
            weights: ScoringWeights {
                recency: 35,
                commits: 15,
                contributors: 15,
                prs: 10,
                issues: 10,
                releases: 15,
            },
            thresholds: ScoringThresholds {
                activity_threshold: 45,
                recency_threshold: 80,
                recency_scale_multiplier: 2,
            },
        }
    }

    /// The scorer with the default weights and thresholds.
    pub fn new() -> (r: Self)
        ensures
            r == ProjectScorer::spec_new(),
    {
        ProjectScorer { weights: ScoringWeights::default(), thresholds: ScoringThresholds::default() }
    }

    /// The release signal at instant `now`.
    fn release_score_at(
        &self,
        now: &UtcTime,
        latest_release: Option<&ReleaseInfo>,
        config: &Config,
    ) -> (r: u64)
        requires
            config.max_release_days is Some,
        ensures
            r == release_score(release_of(latest_release), *now, config.max_release_days->0 as int),
            r <= SCORE_UNIT,
    {
        match latest_release {
            None => 0,
            Some(release) => match release.published_at {
                None => SCORE_UNIT / 2,
                Some(published) => {
                    let age = days_between(now, &published);
                    let base = decay_score_of(age, config.get_max_release_days() as i128);
                    if release.prerelease {
                        base * 7 / 10
                    } else {
                        base
                    }
                },
            },
        }
    }

    /// Whether a project is alive at instant `now`: recency of the last
    /// commit against the staleness limit, commits and contributors against
    /// the established-project minimums, open pull requests and issues
    /// against their scales, and the latest release, weighted and held
    /// against the activity threshold; or recency alone against the recency
    /// threshold.
    pub fn is_project_alive_at(
        &self,
        now: &UtcTime,
        last_commit_date: &UtcTime,
        commits: usize,
        contributors: usize,
        open_prs: usize,
        open_issues: usize,
        latest_release: Option<&ReleaseInfo>,
        config: &Config,
    ) -> (r: bool)
        requires
            config.min_commits is Some,
            config.min_contributors is Some,
            config.max_days is Some,
            config.prs_scale is Some,
            config.issues_scale is Some,
            config.max_release_days is Some,
        ensures
            r == alive_at(
                *self,
                *now,
                *last_commit_date,
                commits as int,
                contributors as int,
                open_prs as int,
                open_issues as int,
                release_of(latest_release),
                *config,
            ),
    {
        let days = days_between(now, last_commit_date);
        let max_days = config.get_max_days();
        let multiplier = self.thresholds.recency_scale_multiplier;
        assert(-0x8000_0000_0000_0000_0000_0000 < max_days * multiplier
            < 0x8000_0000_0000_0000_0000_0000) by (nonlinear_arith)
            requires
                i64::MIN <= max_days <= i64::MAX,
                0 <= multiplier < 0x1_0000_0000,
        ;
        let horizon: i128 = max_days as i128 * multiplier as i128;
        let recency = decay_score_of(days, horizon);
        let commits_score = ratio_score_of(commits as u64, config.get_min_commits() as u64);
        let contributors_score = ratio_score_of(
            contributors as u64,
            config.get_min_contributors() as u64,
        );
        let prs_score = ratio_score_of(open_prs as u64, config.get_prs_scale());
        let issues_score = ratio_score_of(open_issues as u64, config.get_issues_scale());
        let release = self.release_score_at(now, latest_release, config);
        assert(SCORE_UNIT == 1_000_000);
        let weighted: u128 = weigh(self.weights.recency, recency) + weigh(
            self.weights.commits,
            commits_score,
        ) + weigh(self.weights.contributors, contributors_score) + weigh(
            self.weights.prs,
            prs_score,
        ) + weigh(self.weights.issues, issues_score) + weigh(self.weights.releases, release);
        let activity_floor: u128 = self.thresholds.activity_threshold as u128 * 1_000_000;
        let recency_floor: u128 = self.thresholds.recency_threshold as u128 * 1_000_000;
        weighted >= activity_floor || recency as u128 * 100 >= recency_floor
    }

    /// Whether a project is alive now: the verdict of `is_project_alive_at`
    /// at the current instant, which the contract cannot name.
    pub fn is_project_alive(
        &self,
        last_commit_date: &UtcTime,
        commits: usize,
        contributors: usize,
        open_prs: usize,
        open_issues: usize,
        latest_release: Option<&ReleaseInfo>,
        config: &Config,
    ) -> (r: bool)
        requires
            config.min_commits is Some,
            config.min_contributors is Some,
            config.max_days is Some,
            config.prs_scale is Some,
            config.issues_scale is Some,
            config.max_release_days is Some,
        ensures
            exists|now: UtcTime|
                r == alive_at(
                    *self,
                    now,
                    *last_commit_date,
                    commits as int,
                    contributors as int,
                    open_prs as int,
                    open_issues as int,
                    release_of(latest_release),
                    *config,
                ),
    {
        let now = now_utc();
        self.is_project_alive_at(
            &now,
            last_commit_date,
            commits,
            contributors,
            open_prs,
            open_issues,
            latest_release,
            config,
        )
    }
}

} // verus!
