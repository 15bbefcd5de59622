use github_activity_check::config::{Config, ConfigError};
use github_activity_check::output::OutputFormat;

#[test]
fn defaults_fill_every_threshold() {
    let c = Config::default().with_defaults();
    assert!(matches!(c.format, Some(OutputFormat::Default)));
    assert_eq!(c.get_min_commits(), 100);
    assert_eq!(c.get_min_contributors(), 3);
    assert_eq!(c.get_max_days(), 60);
    assert_eq!(c.get_prs_scale(), 10);
    assert_eq!(c.get_issues_scale(), 20);
    assert_eq!(c.get_max_release_days(), 365);
}

#[test]
fn command_line_wins_over_file_and_file_over_defaults() {
    let cli = Config {
        owner: Some("o".to_string()),
        repo: Some("r".to_string()),
        min_commits: Some(7),
        verbose: true,
        ..Default::default()
    };
    let file = Config {
        owner: Some("ignored".to_string()),
        min_commits: Some(500),
        max_days: Some(90),
        format: Some(OutputFormat::Json),
        ..Default::default()
    };
    let c = cli.merge(file).with_defaults();
    assert_eq!(c.get_owner(), "o");
    assert_eq!(c.get_repo(), "r");
    assert_eq!(c.get_min_commits(), 7);
    assert_eq!(c.get_max_days(), 90);
    assert!(matches!(c.get_format(), OutputFormat::Json));
    assert_eq!(c.get_min_contributors(), 3);
    assert!(c.verbose);
}

#[test]
fn validation_names_what_is_missing() {
    assert_eq!(Config::default().validate(), Err(ConfigError::MissingOwner));
    let only_owner = Config { owner: Some("o".to_string()), ..Default::default() };
    assert_eq!(only_owner.validate(), Err(ConfigError::MissingRepo));
    let check_alone = Config {
        owner: Some("o".to_string()),
        repo: Some("r".to_string()),
        check: Some("commits_total".to_string()),
        ..Default::default()
    };
    assert_eq!(check_alone.validate(), Err(ConfigError::CheckWithoutHistory));
    let with_history = Config { history: Some("h.json".to_string()), ..check_alone };
    assert_eq!(with_history.validate(), Ok(()));
}

#[test]
fn ready_to_score_once_named_and_defaulted() {
    let named = Config {
        owner: Some("o".to_string()),
        repo: Some("r".to_string()),
        ..Default::default()
    };
    assert!(!named.ready_to_score());
    let named = named.with_defaults();
    assert!(named.ready_to_score());
    assert!(!Config::default().with_defaults().ready_to_score());
}
