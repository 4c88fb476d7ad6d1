//! Wire types describing packages as the analysis service reports them.
//! All scores are in hundredths of the unit interval: 0 is worst, 100 is
//! best.

use std::collections::HashMap;

use vstd::prelude::*;

use crate::common::Status;
use crate::issues::{IgnoredReason, Issue, IssueImpacts};
use crate::identity::{PackageSpecifier, PackageType};
use crate::policy::RiskScores;
use crate::taxonomy::{RiskDomain, RiskLevel, RiskType};
use crate::common::Timestamp;

verus! {

/// One scored version of a package.
#[derive(PartialEq, Eq, Clone, Debug)]
pub struct ScoredVersion {
    pub version: String,
    pub total_risk_score: Option<u32>,
}

/// Change in score over time.
#[derive(PartialEq, Eq, Clone, Debug)]
pub struct ScoreDynamicsPoint {
    pub date_time: Timestamp,
    pub score: u32,
    pub label: String,
}

/// Issue description as the package listing renders it.
#[derive(PartialEq, Eq, Clone, Debug)]
pub struct IssuesListItem {
    pub risk_type: RiskType,
    pub score: u32,
    pub impact: RiskLevel,
    pub description: String,
    pub title: String,
    pub tag: Option<String>,
    pub id: Option<String>,
    pub ignored: IgnoredReason,
}

/// Author information.
#[derive(PartialEq, Eq, PartialOrd, Ord, Hash, Clone, Debug)]
pub struct Author {
    pub name: String,
    pub avatar_url: String,
    pub email: String,
    pub profile_url: String,
}

/// Responsiveness of developers.
#[derive(PartialEq, Eq, PartialOrd, Ord, Hash, Copy, Clone, Debug)]
pub struct DeveloperResponsiveness {
    pub open_issue_count: Option<usize>,
    pub total_issue_count: Option<usize>,
    pub open_issue_avg_duration: Option<u32>,
    pub open_pull_request_count: Option<usize>,
    pub total_pull_request_count: Option<usize>,
    pub open_pull_request_avg_duration: Option<u32>,
}

/// First and last release dates of a package.
#[derive(PartialEq, Eq, PartialOrd, Ord, Hash, Clone, Debug)]
pub struct PackageReleaseData {
    pub first_release_date: String,
    pub last_release_date: String,
}

/// Everything the analysis service reports about one package.
#[derive(Debug)]
pub struct Package {
    pub id: String,
    pub name: String,
    pub version: String,
    pub registry: String,
    pub published_date: Option<String>,
    pub latest_version: Option<String>,
    pub versions: Vec<ScoredVersion>,
    pub description: Option<String>,
    pub license: Option<String>,
    pub dep_specs: Vec<PackageSpecifier>,
    pub dependencies: Option<Vec<Package>>,
    pub download_count: u32,
    pub risk_scores: RiskScores,
    pub total_risk_score_dynamics: Option<Vec<ScoreDynamicsPoint>>,
    pub issues_details: Vec<Issue>,
    pub issues: Vec<IssuesListItem>,
    pub authors: Vec<Author>,
    pub developer_responsiveness: Option<DeveloperResponsiveness>,
    pub issue_impacts: IssueImpacts,
    pub complete: bool,
    pub release_data: Option<PackageReleaseData>,
    pub repo_url: Option<String>,
    pub maintainers_recently_changed: Option<bool>,
    pub is_abandonware: Option<bool>,
}

/// Initial response after a package submission has been looked up.
#[derive(Debug)]
pub enum PackageSubmitResponse {
    AlreadyProcessed(Package),
    AlreadySubmitted,
    New,
}

/// The results of an individual heuristic run.
#[derive(PartialEq, Eq, Copy, Clone, Debug)]
pub struct HeuristicResult {
    /// The risk domain.
    pub domain: RiskDomain,
    /// The score.
    pub score: u32,
    /// The risk level bucket it falls into.
    pub risk_level: RiskLevel,
}

/// A vulnerability.
#[derive(PartialEq, Eq, Clone, Debug)]
pub struct Vulnerability {
    /// If this vulnerability falls into one or more known CVEs.
    pub cve: Vec<String>,
    /// Severity of the vulnerability.
    pub base_severity: u32,
    /// What risk level bucket it falls into.
    pub risk_level: RiskLevel,
    /// Title of the vulnerability.
    pub title: String,
    /// A more in depth description.
    pub description: String,
    /// Remediation information if known.
    pub remediation: String,
}

/// Basic core package metadata.
#[derive(PartialEq, Eq, Clone, Debug)]
pub struct PackageStatus {
    /// Name of the package.
    pub name: String,
    /// Package version.
    pub version: String,
    /// Package processing status.
    pub status: Status,
    /// Last update, as epoch seconds.
    pub last_updated: u64,
    /// Package license.
    pub license: Option<String>,
    /// The overall quality score of the package.
    pub package_score: Option<u32>,
    /// Number of dependencies.
    pub num_dependencies: u32,
    /// Number of vulnerabilities found in this package and all transitive
    /// dependencies.
    pub num_vulnerabilities: u32,
}

/// Package metadata with extended info.
#[derive(PartialEq, Clone, Debug)]
pub struct PackageStatusExtended {
    pub basic_status: PackageStatus,
    /// The package ecosystem.
    pub package_type: PackageType,
    /// Per-vector risk scores, keyed by vector name.
    pub risk_vectors: HashMap<String, u32>,
    /// Dependencies of this package.
    pub dependencies: HashMap<String, String>,
    /// Any issues found that may need action, but aren't in and of
    /// themselves vulnerabilities.
    pub issues: Vec<Issue>,
}

} // verus!
