use github_activity_check::config::Config;
use github_activity_check::scoring::{ProjectScorer, ScoringThresholds, ScoringWeights};
use github_activity_check::time::{utc_time, UtcTime};
use github_activity_check::types::ReleaseInfo;

fn create_test_config() -> Config {
    Config {
        owner: Some("test".to_string()),
        repo: Some("repo".to_string()),
        min_commits: Some(100),
        min_contributors: Some(3),
        max_days: Some(60),
        prs_scale: Some(10),
        issues_scale: Some(20),
        max_release_days: Some(365),
        ..Default::default()
    }
}

fn days_ago(days: i64) -> UtcTime {
    let t = chrono::Utc::now() - chrono::Duration::days(days);
    utc_time(t.timestamp(), t.timestamp_subsec_nanos())
}

const DAY: i64 = 86_400;
const NOW: i64 = 1_700_000_000;

fn at(days_before_now: i64) -> UtcTime {
    utc_time(NOW - days_before_now * DAY, 0)
}

fn release(published_days_ago: Option<i64>, prerelease: bool) -> ReleaseInfo {
    ReleaseInfo {
        tag_name: "v1".to_string(),
        name: None,
        published_at: published_days_ago.map(at),
        prerelease,
        draft: false,
    }
}

#[test]
fn test_recent_commit_is_alive() {
    let scorer = ProjectScorer::new();
    let config = create_test_config();
    let recent_date = days_ago(1);

    let result = scorer.is_project_alive(&recent_date, 50, 1, 0, 0, None, &config);
    assert!(result, "Recent commit should make project alive");
}

#[test]
fn test_old_but_established_project_is_alive() {
    let scorer = ProjectScorer::new();
    let config = create_test_config();
    let old_date = days_ago(100);

    let result = scorer.is_project_alive(&old_date, 1000, 10, 5, 10, None, &config);
    assert!(result, "Established project should be alive even with old commits");
}

#[test]
fn test_old_and_small_project_is_dead() {
    let scorer = ProjectScorer::new();
    let config = create_test_config();
    let old_date = days_ago(200);

    let result = scorer.is_project_alive(&old_date, 10, 1, 0, 0, None, &config);
    assert!(!result, "Old and small project should be dead");
}

#[test]
fn test_edge_case_exact_thresholds() {
    let scorer = ProjectScorer::new();
    let config = create_test_config();
    let threshold_date = days_ago(60);

    // Exactly at thresholds
    let result = scorer.is_project_alive(&threshold_date, 100, 3, 10, 20, None, &config);
    assert!(result, "Project at exact thresholds should be alive");
}

#[test]
fn override_fires_for_one_day_old_commit_despite_weak_metrics() {
    let scorer = ProjectScorer::new();
    let config = create_test_config();
    let now = at(0);
    assert!(scorer.is_project_alive_at(&now, &at(1), 50, 1, 0, 0, None, &config));
    assert!(scorer.is_project_alive_at(&now, &at(1), 0, 0, 0, 0, None, &config));
}

#[test]
fn two_hundred_days_old_small_project_without_release_is_dead() {
    let scorer = ProjectScorer::new();
    let config = create_test_config();
    assert!(!scorer.is_project_alive_at(&at(0), &at(200), 10, 1, 0, 0, None, &config));
}

#[test]
fn recency_override_holds_exactly_at_its_threshold() {
    // The horizon is 2 * 60 = 120 days: 24 days leaves 96/120 = 0.8.
    let scorer = ProjectScorer::new();
    let config = create_test_config();
    assert!(scorer.is_project_alive_at(&at(0), &at(24), 0, 0, 0, 0, None, &config));
    assert!(!scorer.is_project_alive_at(&at(0), &at(25), 0, 0, 0, 0, None, &config));
}

#[test]
fn commit_dated_in_the_future_counts_as_fresh() {
    let scorer = ProjectScorer::new();
    let config = create_test_config();
    assert!(scorer.is_project_alive_at(&at(0), &at(-3), 0, 0, 0, 0, None, &config));
}

#[test]
fn release_signal_tips_the_weighted_sum() {
    // 100 days: recency 20/120; commits and contributors full.
    // Without a release the sum is 0.0583 + 0.15 + 0.15 = 0.358 < 0.45.
    let scorer = ProjectScorer::new();
    let config = create_test_config();
    let now = at(0);
    let commit = at(100);
    assert!(!scorer.is_project_alive_at(&now, &commit, 100, 3, 0, 0, None, &config));
    let fresh = release(Some(0), false);
    assert!(scorer.is_project_alive_at(&now, &commit, 100, 3, 0, 0, Some(&fresh), &config));
    let fresh_pre = release(Some(0), true);
    assert!(scorer.is_project_alive_at(&now, &commit, 100, 3, 0, 0, Some(&fresh_pre), &config));
    let undated = release(None, false);
    assert!(!scorer.is_project_alive_at(&now, &commit, 100, 3, 0, 0, Some(&undated), &config));
    let old = release(Some(400), false);
    assert!(!scorer.is_project_alive_at(&now, &commit, 100, 3, 0, 0, Some(&old), &config));
}

#[test]
fn open_pull_requests_and_issues_saturate_at_their_scales() {
    // 110 days: recency 10/120 = 0.0833; commits and contributors full.
    // Base 0.0292 + 0.30 = 0.329; full PRs and issues add 0.20.
    let scorer = ProjectScorer::new();
    let config = create_test_config();
    let now = at(0);
    let commit = at(110);
    assert!(!scorer.is_project_alive_at(&now, &commit, 100, 3, 5, 10, None, &config));
    assert!(scorer.is_project_alive_at(&now, &commit, 100, 3, 10, 20, None, &config));
    assert!(scorer.is_project_alive_at(&now, &commit, 100, 3, 1000, 1000, None, &config));
}

#[test]
fn default_weights_and_thresholds() {
    let w = ScoringWeights::default();
    assert_eq!(
        (w.recency, w.commits, w.contributors, w.prs, w.issues, w.releases),
        (35, 15, 15, 10, 10, 15)
    );
    let t = ScoringThresholds::default();
    assert_eq!((t.activity_threshold, t.recency_threshold, t.recency_scale_multiplier), (45, 80, 2));
    assert_eq!(ProjectScorer::default(), ProjectScorer::new());
}
