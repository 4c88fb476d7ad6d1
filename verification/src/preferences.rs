//! Per-project preferences: the default label, the risk thresholds to
//! apply, and the project's ignored issues.

use vstd::prelude::*;

use crate::common::ProjectId;
use crate::issues::IgnoredIssue;
use crate::policy::RiskThresholds;

verus! {

/// The preference settings of one project.
#[derive(Clone, Debug)]
pub struct CorePreferences {
    /// The default label to use when none is supplied.
    pub default_label: Option<String>,
    /// The risk thresholds to apply.
    pub thresholds: RiskThresholds,
    /// Project specific ignored issues.
    pub ignored_issues: Option<Vec<IgnoredIssue>>,
}

/// The preferences for a given project.
#[derive(Clone, Debug)]
pub struct ProjectPreferences {
    /// The id of the project these preferences apply to.
    pub project_id: ProjectId,
    /// The preference settings.
    pub preferences: CorePreferences,
}

} // verus!
