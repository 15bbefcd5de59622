use github_activity_check::history::{
    calculate_field_change, change_since, extract_field_value, field_change_given, FieldValue,
    HistoryData,
};
use github_activity_check::output::{
    CriteriaInfo, LastCommitInfo, LastReleaseInfo, RepositoryReport,
};
use github_activity_check::time::utc_time;

const DAY: i64 = 86_400;

fn report(commits: usize, release: Option<LastReleaseInfo>) -> RepositoryReport {
    RepositoryReport {
        owner: "test".to_string(),
        repo: "repo".to_string(),
        commits_total: commits,
        contributors_total: 10,
        open_pull_requests: 5,
        open_issues: 20,
        last_commit: LastCommitInfo {
            sha: "abc123".to_string(),
            author_name: "author".to_string(),
            author_email: "author@test.com".to_string(),
            date_utc: utc_time(1_700_000_000, 0),
            message: "test commit".to_string(),
        },
        last_release: release,
        project_alive: true,
        criteria: CriteriaInfo { max_days: 60, min_contributors: 3, min_commits: 100 },
    }
}

fn sample_release() -> LastReleaseInfo {
    LastReleaseInfo {
        tag_name: "v1.0.0".to_string(),
        name: None,
        date_utc: Some(utc_time(1_690_000_000, 0)),
        is_prerelease: false,
    }
}

#[test]
fn test_calculate_field_change() {
    // Numbers
    assert_eq!(calculate_field_change(&FieldValue::Number(100), &FieldValue::Number(90), "commits"), 10);
    assert_eq!(calculate_field_change(&FieldValue::Number(90), &FieldValue::Number(100), "commits"), 10);

    // Booleans
    assert_eq!(calculate_field_change(&FieldValue::Bool(true), &FieldValue::Bool(true), "alive"), 0);
    assert_eq!(calculate_field_change(&FieldValue::Bool(true), &FieldValue::Bool(false), "alive"), 1);

    // Strings
    let text = |s: &str| FieldValue::Text(s.to_string());
    assert_eq!(calculate_field_change(&text("same"), &text("same"), "owner"), 0);
    assert_eq!(calculate_field_change(&text("diff"), &text("other"), "owner"), 1);
}

#[test]
fn commits_total_differs_by_ten_either_way() {
    let prior = HistoryData { last_data: report(90, None) };
    assert_eq!(prior.calculate_change(&report(100, None), "commits_total").unwrap(), 10);
    let prior = HistoryData { last_data: report(100, None) };
    assert_eq!(prior.calculate_change(&report(90, None), "commits_total").unwrap(), 10);
}

#[test]
fn report_against_itself_has_no_change_on_any_field() {
    let r = report(42, Some(sample_release()));
    let h = HistoryData { last_data: r.clone() };
    for path in [
        "owner", "repo", "commits_total", "contributors_total", "open_pull_requests",
        "open_issues", "last_commit", "last_commit.sha", "last_commit.author_name",
        "last_commit.author_email", "last_commit.date_utc", "last_commit.message",
        "last_release", "last_release.tag_name", "last_release.name", "last_release.date_utc",
        "last_release.is_prerelease", "project_alive", "criteria", "criteria.max_days",
        "criteria.min_contributors", "criteria.min_commits",
    ] {
        assert_eq!(h.calculate_change(&r, path).unwrap(), 0, "path {path}");
    }
}

#[test]
fn commit_dates_ten_days_apart_differ_by_ten() {
    let prior = report(1, None);
    let mut current = report(1, None);
    current.last_commit.date_utc = utc_time(1_700_000_000 + 10 * DAY, 0);
    let h = HistoryData { last_data: prior };
    assert_eq!(h.calculate_change(&current, "last_commit.date_utc").unwrap(), 10);
    assert_eq!(h.calculate_change(&current, "last_commit").unwrap(), 1);
}

#[test]
fn timestamp_texts_on_a_date_path_differ_by_whole_days() {
    let a = FieldValue::Text("2024-01-11T00:00:00Z".to_string());
    let b = FieldValue::Text("2024-01-01T00:00:00Z".to_string());
    assert_eq!(calculate_field_change(&a, &b, "release.date"), 10);
    assert_eq!(calculate_field_change(&b, &a, "release.date"), 10);
    let c = FieldValue::Text("2024-01-01T12:00:00+02:00".to_string());
    assert_eq!(calculate_field_change(&a, &c, "release.date"), 9);
    // Elsewhere, or when a text is no timestamp, equality decides.
    assert_eq!(calculate_field_change(&a, &b, "owner"), 1);
    let d = FieldValue::Text("yesterday".to_string());
    assert_eq!(calculate_field_change(&a, &d, "release.date"), 1);
    assert_eq!(calculate_field_change(&d, &d, "release.date"), 0);
}

#[test]
fn given_instants_decide_only_texts_on_date_paths() {
    let a = FieldValue::Text("x".to_string());
    let b = FieldValue::Text("y".to_string());
    let t0 = Some(utc_time(0, 0));
    let t3 = Some(utc_time(3 * DAY, 0));
    assert_eq!(field_change_given(&a, &b, "a.date", t3, t0), 3);
    assert_eq!(field_change_given(&a, &b, "a.date", t3, None), 1);
    assert_eq!(field_change_given(&a, &b, "owner", t3, t0), 1);
    assert_eq!(field_change_given(&a, &a, "owner", t3, t0), 0);
}

#[test]
fn dates_off_a_date_path_compare_by_equality() {
    let a = FieldValue::Date(utc_time(0, 0));
    let b = FieldValue::Date(utc_time(30 * DAY, 0));
    assert_eq!(calculate_field_change(&a, &b, "when"), 1);
    assert_eq!(calculate_field_change(&a, &a, "when"), 0);
    assert_eq!(calculate_field_change(&a, &b, "date_utc"), 30);
}

#[test]
fn nulls_and_mismatched_kinds() {
    assert_eq!(calculate_field_change(&FieldValue::Null, &FieldValue::Null, "x"), 0);
    assert_eq!(calculate_field_change(&FieldValue::Null, &FieldValue::Number(3), "x"), 1);
    assert_eq!(calculate_field_change(&FieldValue::Bool(true), &FieldValue::Null, "x"), 1);
    assert_eq!(
        calculate_field_change(&FieldValue::Number(1), &FieldValue::Text("1".to_string()), "x"),
        1
    );
}

#[test]
fn number_distance_is_not_clamped_to_exit_codes_but_fits_i64() {
    assert_eq!(calculate_field_change(&FieldValue::Number(300), &FieldValue::Number(0), "n"), 300);
    assert_eq!(
        calculate_field_change(&FieldValue::Number(i128::MAX), &FieldValue::Number(i128::MIN), "n"),
        i64::MAX
    );
    assert_eq!(
        calculate_field_change(&FieldValue::Number(-5), &FieldValue::Number(5), "n"),
        10
    );
}

#[test]
fn missing_segment_is_named_with_the_path() {
    let h = HistoryData { last_data: report(1, None) };
    let e = h.calculate_change(&report(1, None), "nonexistent.field").unwrap_err();
    assert_eq!(e.segment, "nonexistent");
    assert_eq!(e.path, "nonexistent.field");

    let e = extract_field_value(&report(1, None), "owner.name").unwrap_err();
    assert_eq!((e.segment.as_str(), e.path.as_str()), ("name", "owner.name"));
    let e = extract_field_value(&report(1, None), "criteria.max_days.x").unwrap_err();
    assert_eq!(e.segment, "x");
    let e = extract_field_value(&report(1, None), "").unwrap_err();
    assert_eq!(e.segment, "");
    let e = extract_field_value(&report(1, None), "criteria.").unwrap_err();
    assert_eq!(e.segment, "");
}

#[test]
fn absent_release_has_no_fields_and_reads_as_null() {
    let without = report(1, None);
    let with = report(1, Some(sample_release()));
    assert!(matches!(extract_field_value(&without, "last_release"), Ok(FieldValue::Null)));
    let e = extract_field_value(&without, "last_release.tag_name").unwrap_err();
    assert_eq!(e.segment, "tag_name");
    assert!(matches!(extract_field_value(&with, "last_release.name"), Ok(FieldValue::Null)));
    match extract_field_value(&with, "last_release.tag_name") {
        Ok(FieldValue::Text(t)) => assert_eq!(t, "v1.0.0"),
        other => panic!("unexpected {:?}", other),
    }
    // The stored report lacks the release that the current one has.
    let h = HistoryData { last_data: without };
    let e = h.calculate_change(&with, "last_release.tag_name").unwrap_err();
    assert_eq!(e.segment, "tag_name");
    assert_eq!(h.calculate_change(&with, "last_release").unwrap(), 1);
}

#[test]
fn field_values_follow_the_schema() {
    let r = report(7, None);
    assert!(matches!(extract_field_value(&r, "commits_total"), Ok(FieldValue::Number(7))));
    assert!(matches!(extract_field_value(&r, "project_alive"), Ok(FieldValue::Bool(true))));
    assert!(matches!(extract_field_value(&r, "criteria.max_days"), Ok(FieldValue::Number(60))));
    match extract_field_value(&r, "last_commit.sha") {
        Ok(FieldValue::Text(t)) => assert_eq!(t, "abc123"),
        other => panic!("unexpected {:?}", other),
    }
    match extract_field_value(&r, "last_commit.date_utc") {
        Ok(FieldValue::Date(d)) => assert_eq!(d, utc_time(1_700_000_000, 0)),
        other => panic!("unexpected {:?}", other),
    }
}

#[test]
fn first_run_without_history_reports_no_change() {
    assert_eq!(change_since(None, &report(5, None), "commits_total").unwrap(), 0);
    let h = HistoryData { last_data: report(2, None) };
    assert_eq!(change_since(Some(&h), &report(5, None), "commits_total").unwrap(), 3);
}
