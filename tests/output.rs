use github_activity_check::config::Config;
use github_activity_check::output::{
    create_repository_report, first_line, release_status, FormatError, OutputFormat, ReleaseStatus,
};
use github_activity_check::time::utc_time;
use github_activity_check::types::{AuthorMeta, CommitInfo, CommitMeta, ReleaseInfo};

#[test]
fn test_output_format_from_str() {
    assert!(matches!(OutputFormat::from_str("default").unwrap(), OutputFormat::Default));
    assert!(matches!(OutputFormat::from_str("json").unwrap(), OutputFormat::Json));

    if let OutputFormat::Field(field) = OutputFormat::from_str("field:commits_total").unwrap() {
        assert_eq!(field, "commits_total");
    } else {
        panic!("Expected Field variant");
    }

    assert!(OutputFormat::from_str("field:").is_err());
    assert!(OutputFormat::from_str("invalid").is_err());
}

#[test]
fn test_output_format_display() {
    assert_eq!(OutputFormat::Default.to_string(), "default");
    assert_eq!(OutputFormat::Json.to_string(), "json");
    assert_eq!(OutputFormat::Field("test".to_string()).to_string(), "field:test");
}

#[test]
fn test_first_line() {
    assert_eq!(first_line("single line"), "single line");
    assert_eq!(first_line("first line\nsecond line"), "first line");
    assert_eq!(first_line(""), "");
    assert_eq!(first_line("line\n\n"), "line");
}

#[test]
fn first_line_drops_carriage_return_before_newline() {
    assert_eq!(first_line("subject\r\nbody"), "subject");
    assert_eq!(first_line("\nbody"), "");
    assert_eq!(first_line("ends with cr\r"), "ends with cr\r");
}

#[test]
fn format_errors_tell_empty_field_from_unknown_name() {
    assert!(matches!(OutputFormat::from_str("field:"), Err(FormatError::EmptyField)));
    match OutputFormat::from_str("yaml") {
        Err(FormatError::Invalid(t)) => assert_eq!(t, "yaml"),
        other => panic!("unexpected {:?}", other),
    }
    assert!(matches!(OutputFormat::from_str("Default"), Err(FormatError::Invalid(_))));
    assert!(matches!(OutputFormat::from_str("field"), Err(FormatError::Invalid(_))));
    if let OutputFormat::Field(path) = OutputFormat::from_str("field:a:b").unwrap() {
        assert_eq!(path, "a:b");
    } else {
        panic!("Expected Field variant");
    }
}

#[test]
fn format_name_reads_back() {
    for name in ["default", "json", "field:last_commit.sha"] {
        assert_eq!(OutputFormat::from_str(name).unwrap().to_string(), name);
    }
}

fn sample_commit() -> CommitInfo {
    CommitInfo {
        sha: "abc123".to_string(),
        commit: CommitMeta {
            author: AuthorMeta {
                name: "author".to_string(),
                email: "author@test.com".to_string(),
                date: utc_time(1_700_000_000, 5),
            },
            message: "Fix the parser\n\nLonger explanation".to_string(),
        },
    }
}

fn sample_config() -> Config {
    Config {
        owner: Some("test".to_string()),
        repo: Some("repo".to_string()),
        ..Default::default()
    }
    .with_defaults()
}

#[test]
fn report_takes_counts_commit_release_and_criteria() {
    let config = sample_config();
    let commit = sample_commit();
    let release = ReleaseInfo {
        tag_name: "v1.2.0".to_string(),
        name: Some("Spring".to_string()),
        published_at: Some(utc_time(1_690_000_000, 0)),
        prerelease: true,
        draft: false,
    };
    let report =
        create_repository_report(&config, 100, 10, 5, 20, &commit, Some(&release), true);
    assert_eq!(report.owner, "test");
    assert_eq!(report.repo, "repo");
    assert_eq!(report.commits_total, 100);
    assert_eq!(report.contributors_total, 10);
    assert_eq!(report.open_pull_requests, 5);
    assert_eq!(report.open_issues, 20);
    assert_eq!(report.last_commit.sha, "abc123");
    assert_eq!(report.last_commit.author_name, "author");
    assert_eq!(report.last_commit.author_email, "author@test.com");
    assert_eq!(report.last_commit.date_utc, utc_time(1_700_000_000, 5));
    assert_eq!(report.last_commit.message, "Fix the parser");
    let shown = report.last_release.expect("release kept");
    assert_eq!(shown.tag_name, "v1.2.0");
    assert_eq!(shown.name.as_deref(), Some("Spring"));
    assert_eq!(shown.date_utc, Some(utc_time(1_690_000_000, 0)));
    assert!(shown.is_prerelease);
    assert!(report.project_alive);
    assert_eq!(report.criteria.max_days, 60);
    assert_eq!(report.criteria.min_contributors, 3);
    assert_eq!(report.criteria.min_commits, 100);

    let without = create_repository_report(&config, 0, 0, 0, 0, &commit, None, false);
    assert!(without.last_release.is_none());
    assert!(!without.project_alive);
}

#[test]
fn release_status_by_age_and_kind() {
    assert_eq!(release_status(365, 365, false), ReleaseStatus::FreshRelease);
    assert_eq!(release_status(10, 365, true), ReleaseStatus::RecentPrerelease);
    assert_eq!(release_status(366, 365, false), ReleaseStatus::StaleRelease);
    assert_eq!(release_status(400, 365, true), ReleaseStatus::StalePrerelease);
}
