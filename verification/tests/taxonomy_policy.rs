use risk_core::policy::{evaluate, Action, RiskScores, RiskThresholds, Threshold};
use risk_core::taxonomy::{bucket, parse_domain, parse_level, RiskDomain, RiskLevel, RiskType};
use risk_core::errors::CoreError;

fn inactive() -> Threshold {
    Threshold { action: Action::NoAction, active: false, threshold: 0 }
}

fn thresholds_all_inactive() -> RiskThresholds {
    RiskThresholds {
        total: inactive(),
        author: inactive(),
        engineering: inactive(),
        license: inactive(),
        malicious_code: inactive(),
        vulnerability: inactive(),
    }
}

fn scores_all(v: u32) -> RiskScores {
    RiskScores { total: v, vulnerability: v, malicious: v, author: v, engineering: v, license: v }
}

#[test]
fn level_weights_are_fixed() {
    assert_eq!(RiskLevel::Info.score(), 100);
    assert_eq!(RiskLevel::Low.score(), 80);
    assert_eq!(RiskLevel::Medium.score(), 65);
    assert_eq!(RiskLevel::High.score(), 35);
    assert_eq!(RiskLevel::Critical.score(), 10);
}

#[test]
fn bucket_maps_every_level_to_a_counted_band() {
    // Info has weight 100, which is >= 80: it lands in the low band, it
    // is not excluded.
    assert_eq!(bucket(RiskLevel::Info), RiskLevel::Low);
    assert_eq!(bucket(RiskLevel::Low), RiskLevel::Low);
    assert_eq!(bucket(RiskLevel::Medium), RiskLevel::Medium);
    assert_eq!(bucket(RiskLevel::High), RiskLevel::High);
    assert_eq!(bucket(RiskLevel::Critical), RiskLevel::Critical);
    for level in [
        RiskLevel::Info,
        RiskLevel::Low,
        RiskLevel::Medium,
        RiskLevel::High,
        RiskLevel::Critical,
    ] {
        assert_ne!(bucket(level), RiskLevel::Info);
    }
}

#[test]
fn risk_type_codes() {
    assert_eq!(RiskType::TotalRisk.code(), "ALL");
    assert_eq!(RiskType::Vulnerabilities.code(), "VLN");
    assert_eq!(RiskType::MaliciousRisk.code(), "MAL");
    assert_eq!(RiskType::EngineeringRisk.code(), "ENG");
    assert_eq!(RiskType::AuthorsRisk.code(), "AUT");
    assert_eq!(RiskType::LicenseRisk.code(), "LIC");
    assert_eq!(RiskDomain::Malicious.code(), "MAL");
    assert_eq!(RiskDomain::Vulnerabilities.code(), "VLN");
}

#[test]
fn risk_type_from_domain() {
    assert_eq!(RiskType::from_domain(RiskDomain::AuthorRisk), RiskType::AuthorsRisk);
    assert_eq!(RiskType::from_domain(RiskDomain::EngineeringRisk), RiskType::EngineeringRisk);
    assert_eq!(RiskType::from_domain(RiskDomain::Malicious), RiskType::MaliciousRisk);
    assert_eq!(RiskType::from_domain(RiskDomain::Vulnerabilities), RiskType::Vulnerabilities);
    assert_eq!(RiskType::from_domain(RiskDomain::LicenseRisk), RiskType::LicenseRisk);
    assert_eq!(RiskType::from(RiskDomain::Malicious), RiskType::MaliciousRisk);
}

#[test]
fn level_names_are_lowercase() {
    assert_eq!(RiskLevel::Info.name(), "info");
    assert_eq!(RiskLevel::Low.name(), "low");
    assert_eq!(RiskLevel::Medium.name(), "medium");
    assert_eq!(RiskLevel::High.name(), "high");
    assert_eq!(RiskLevel::Critical.name(), "critical");
}

#[test]
fn domain_alias_parses_like_canonical() {
    let canonical = parse_domain("malicious_code").unwrap();
    let alias = parse_domain("malicious").unwrap();
    assert_eq!(canonical, alias);
    assert_eq!(canonical, RiskDomain::Malicious);
    assert_eq!(parse_domain("author").unwrap(), RiskDomain::AuthorRisk);
    assert_eq!(parse_domain("engineering").unwrap(), RiskDomain::EngineeringRisk);
    assert_eq!(parse_domain("vulnerability").unwrap(), RiskDomain::Vulnerabilities);
    assert_eq!(parse_domain("license").unwrap(), RiskDomain::LicenseRisk);
}

#[test]
fn domain_parsing_is_exact_and_case_sensitive() {
    assert_eq!(
        parse_domain("Malicious"),
        Err(CoreError::UnknownTaxonomyLabel("Malicious".to_owned()))
    );
    assert_eq!(
        parse_domain("maliciou"),
        Err(CoreError::UnknownTaxonomyLabel("maliciou".to_owned()))
    );
    assert!(parse_domain("").is_err());
}

#[test]
fn level_label_parsing() {
    assert_eq!(parse_level("info").unwrap(), RiskLevel::Info);
    assert_eq!(parse_level("critical").unwrap(), RiskLevel::Critical);
    assert_eq!(
        parse_level("Critical"),
        Err(CoreError::UnknownTaxonomyLabel("Critical".to_owned()))
    );
}

#[test]
fn action_order_is_explicit() {
    assert_eq!(Action::NoAction.rank(), 0);
    assert_eq!(Action::Warn.rank(), 1);
    assert_eq!(Action::Break.rank(), 2);
    assert_eq!(Action::Warn.max(Action::Break), Action::Break);
    assert_eq!(Action::Warn.max(Action::NoAction), Action::Warn);
}

#[test]
fn evaluate_passes_when_nothing_is_active() {
    let outcome = evaluate(&scores_all(0), &thresholds_all_inactive());
    assert!(outcome.pass);
    assert_eq!(outcome.action, Action::NoAction);
}

#[test]
fn evaluate_single_active_vulnerability_warns() {
    // Only the vulnerability domain is active, cutoff one half, action
    // warn; the package scores 0.3 there and 1.0 everywhere else.
    let mut thresholds = thresholds_all_inactive();
    thresholds.vulnerability = Threshold { action: Action::Warn, active: true, threshold: 50 };
    let mut scores = scores_all(100);
    scores.vulnerability = 30;
    let outcome = evaluate(&scores, &thresholds);
    assert!(!outcome.pass);
    assert_eq!(outcome.action, Action::Warn);
}

#[test]
fn evaluate_break_dominates_warn() {
    // Two active thresholds fail at once, one configured to warn and one
    // to break: break wins.
    let mut thresholds = thresholds_all_inactive();
    thresholds.vulnerability = Threshold { action: Action::Warn, active: true, threshold: 50 };
    thresholds.malicious_code = Threshold { action: Action::Break, active: true, threshold: 50 };
    let mut scores = scores_all(100);
    scores.vulnerability = 30;
    scores.malicious = 10;
    let outcome = evaluate(&scores, &thresholds);
    assert!(!outcome.pass);
    assert_eq!(outcome.action, Action::Break);
}

#[test]
fn evaluate_cutoff_is_strict() {
    // A score exactly at the cutoff does not fail the threshold.
    let mut thresholds = thresholds_all_inactive();
    thresholds.total = Threshold { action: Action::Break, active: true, threshold: 50 };
    let mut scores = scores_all(100);
    scores.total = 50;
    let outcome = evaluate(&scores, &thresholds);
    assert!(outcome.pass);
    assert_eq!(outcome.action, Action::NoAction);
}

#[test]
fn evaluate_inactive_threshold_never_fires() {
    let mut thresholds = thresholds_all_inactive();
    thresholds.total = Threshold { action: Action::Break, active: false, threshold: 100 };
    let outcome = evaluate(&scores_all(0), &thresholds);
    assert!(outcome.pass);
    assert_eq!(outcome.action, Action::NoAction);
}

#[test]
fn evaluate_pass_means_no_action_even_with_break_configured() {
    let mut thresholds = thresholds_all_inactive();
    thresholds.total = Threshold { action: Action::Break, active: true, threshold: 10 };
    let outcome = evaluate(&scores_all(90), &thresholds);
    assert!(outcome.pass);
    assert_eq!(outcome.action, Action::NoAction);
}
