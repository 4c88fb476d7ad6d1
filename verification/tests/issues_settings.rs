use risk_core::issues::{filter_issues, IgnoredIssue, IgnoredReason, Issue, IssueImpacts};
use risk_core::policy::{Action, Threshold};
use risk_core::settings::{Setting, UserProject, UserSettings};
use risk_core::taxonomy::{RiskDomain, RiskLevel};

fn issue(id: Option<&str>, tag: Option<&str>, severity: RiskLevel) -> Issue {
    Issue {
        tag: tag.map(|t| t.to_owned()),
        id: id.map(|i| i.to_owned()),
        title: "a title".to_owned(),
        description: "a description".to_owned(),
        severity,
        domain: RiskDomain::Vulnerabilities,
    }
}

fn ignored(id: &str, tag: &str) -> IgnoredIssue {
    IgnoredIssue { id: id.to_owned(), tag: tag.to_owned(), reason: IgnoredReason::FalsePositive }
}

#[test]
fn aggregate_counts_each_band() {
    let issues = vec![
        issue(Some("a"), Some("t"), RiskLevel::Info),
        issue(Some("b"), Some("t"), RiskLevel::Low),
        issue(Some("c"), Some("t"), RiskLevel::Medium),
        issue(Some("d"), Some("t"), RiskLevel::High),
        issue(Some("e"), Some("t"), RiskLevel::Critical),
        issue(Some("f"), Some("t"), RiskLevel::Critical),
    ];
    let impacts = IssueImpacts::aggregate(&issues);
    // Info weighs 100 and lands in the low band together with Low.
    assert_eq!(impacts.low, 2);
    assert_eq!(impacts.medium, 1);
    assert_eq!(impacts.high, 1);
    assert_eq!(impacts.critical, 2);
    assert_eq!(impacts.total(), issues.len() as u64);
}

#[test]
fn aggregate_of_nothing_is_zero() {
    let impacts = IssueImpacts::aggregate(&Vec::new());
    assert_eq!(impacts, IssueImpacts::default());
    assert_eq!(impacts.total(), 0);
}

#[test]
fn ignoring_by_exact_match_removes_from_counts() {
    let issues = vec![
        issue(Some("a"), Some("t"), RiskLevel::Critical),
        issue(Some("b"), Some("t"), RiskLevel::Critical),
    ];
    let kept = filter_issues(&issues, &vec![ignored("a", "t")]);
    let impacts = IssueImpacts::aggregate(&kept);
    assert_eq!(impacts.critical, 1);
    assert_eq!(kept.len(), 1);
    assert_eq!(kept[0].id.as_deref(), Some("b"));
}

#[test]
fn non_matching_id_or_tag_stays_counted() {
    let issues = vec![issue(Some("a"), Some("t"), RiskLevel::High)];
    // Wrong id.
    let kept = filter_issues(&issues, &vec![ignored("other", "t")]);
    assert_eq!(IssueImpacts::aggregate(&kept).high, 1);
    // Wrong tag.
    let kept = filter_issues(&issues, &vec![ignored("a", "other")]);
    assert_eq!(IssueImpacts::aggregate(&kept).high, 1);
    // Both match: removed.
    let kept = filter_issues(&issues, &vec![ignored("a", "t")]);
    assert_eq!(IssueImpacts::aggregate(&kept).high, 0);
}

#[test]
fn absent_id_or_tag_never_matches() {
    let issues = vec![
        issue(None, Some("t"), RiskLevel::Low),
        issue(Some("a"), None, RiskLevel::Low),
        issue(None, None, RiskLevel::Low),
    ];
    let kept = filter_issues(&issues, &vec![ignored("a", "t")]);
    assert_eq!(kept.len(), 3);
}

#[test]
fn filtering_never_touches_its_inputs() {
    let issues = vec![issue(Some("a"), Some("t"), RiskLevel::Low)];
    let overrides = vec![ignored("a", "t")];
    let kept = filter_issues(&issues, &overrides);
    assert!(kept.is_empty());
    assert_eq!(issues.len(), 1);
    assert_eq!(overrides.len(), 1);
}

#[test]
fn counts_sum_to_filtered_issue_count() {
    let issues = vec![
        issue(Some("a"), Some("t"), RiskLevel::Info),
        issue(Some("b"), Some("t"), RiskLevel::Medium),
        issue(Some("c"), Some("t"), RiskLevel::Critical),
        issue(Some("d"), Some("t"), RiskLevel::High),
    ];
    let kept = filter_issues(&issues, &vec![ignored("b", "t")]);
    let impacts = IssueImpacts::aggregate(&kept);
    assert_eq!(impacts.total(), kept.len() as u64);
    assert_eq!(kept.len(), 3);
}

fn threshold(action: Action, cutoff: u32) -> Threshold {
    Threshold { action, active: true, threshold: cutoff }
}

fn lookup_project<'a>(settings: &'a UserSettings, id: &str) -> Option<&'a Setting> {
    settings.projects.iter().find(|(k, _)| k == id).map(|(_, s)| s)
}

fn lookup_threshold<'a>(project: &'a UserProject, name: &str) -> Option<&'a Threshold> {
    project.thresholds.iter().find(|(k, _)| k == name).map(|(_, t)| t)
}

#[test]
fn set_threshold_creates_project_entry() {
    let mut settings = UserSettings { version: 1, projects: Vec::new() };
    settings.set_threshold("p1".to_owned(), "vulnerability".to_owned(), threshold(Action::Warn, 40));
    assert_eq!(settings.version, 1);
    match lookup_project(&settings, "p1") {
        Some(Setting::Project(project)) => {
            assert_eq!(lookup_threshold(project, "vulnerability"), Some(&threshold(Action::Warn, 40)));
        },
        other => panic!("expected a project-shaped setting, got {other:?}"),
    }
}

#[test]
fn second_set_threshold_wins_and_other_domains_survive() {
    let mut settings = UserSettings { version: 3, projects: Vec::new() };
    settings.set_threshold("p1".to_owned(), "license".to_owned(), threshold(Action::Break, 80));
    settings.set_threshold("p1".to_owned(), "vulnerability".to_owned(), threshold(Action::Warn, 40));
    settings.set_threshold("p1".to_owned(), "vulnerability".to_owned(), threshold(Action::Break, 70));
    match lookup_project(&settings, "p1") {
        Some(Setting::Project(project)) => {
            // Only the second value for the domain is present.
            assert_eq!(
                lookup_threshold(project, "vulnerability"),
                Some(&threshold(Action::Break, 70))
            );
            let count = project.thresholds.iter().filter(|(k, _)| k == "vulnerability").count();
            assert_eq!(count, 1);
            // The other domain of the same project is untouched.
            assert_eq!(lookup_threshold(project, "license"), Some(&threshold(Action::Break, 80)));
        },
        other => panic!("expected a project-shaped setting, got {other:?}"),
    }
}

#[test]
fn set_threshold_preserves_other_projects() {
    let mut settings = UserSettings { version: 0, projects: Vec::new() };
    settings.set_threshold("p1".to_owned(), "total".to_owned(), threshold(Action::Warn, 10));
    settings.set_threshold("p2".to_owned(), "total".to_owned(), threshold(Action::Break, 20));
    match lookup_project(&settings, "p1") {
        Some(Setting::Project(project)) => {
            assert_eq!(lookup_threshold(project, "total"), Some(&threshold(Action::Warn, 10)));
        },
        other => panic!("expected a project-shaped setting, got {other:?}"),
    }
}

#[test]
fn set_threshold_discards_default_label_setting() {
    let mut settings = UserSettings {
        version: 0,
        projects: vec![(
            "p1".to_owned(),
            Setting::DefaultLabel(vec![("defaultLabel".to_owned(), "main".to_owned())]),
        )],
    };
    settings.set_threshold("p1".to_owned(), "author".to_owned(), threshold(Action::Warn, 30));
    match lookup_project(&settings, "p1") {
        Some(Setting::Project(project)) => {
            assert_eq!(project.thresholds.len(), 1);
            assert_eq!(lookup_threshold(project, "author"), Some(&threshold(Action::Warn, 30)));
        },
        other => panic!("expected the default-label setting to be replaced, got {other:?}"),
    }
}
