//! The threshold policy evaluator: per-domain scores against a project's
//! configured thresholds, deciding pass/fail and the one remediation
//! action to surface.

use vstd::prelude::*;

use crate::taxonomy::RiskType;

verus! {

/// The remediation instruction returned to the caller when a requirement
/// is not met: take no action, print a warning, or block.
#[derive(PartialEq, Eq, Structural, PartialOrd, Ord, Hash, Copy, Clone, Debug)]
pub enum Action {
    NoAction,
    Warn,
    Break,
}

/// The explicit ranking that orders actions: none < warn < break. The
/// policy rule depends on this ranking, not on declaration order.
pub open spec fn action_rank(a: Action) -> int {
    match a {
        Action::NoAction => 0,
        Action::Warn => 1,
        Action::Break => 2,
    }
}

/// The stronger of two actions under the none < warn < break order.
pub open spec fn spec_action_max(a: Action, b: Action) -> Action {
    if action_rank(a) >= action_rank(b) {
        a
    } else {
        b
    }
}

impl Action {
    /// The rank of this action in the none < warn < break order.
    pub fn rank(&self) -> (r: u32)
        ensures
            r == action_rank(*self),
    {
        match self {
            Action::NoAction => 0,
            Action::Warn => 1,
            Action::Break => 2,
        }
    }

    /// The stronger of two actions.
    pub fn max(self, other: Action) -> (r: Action)
        ensures
            r == spec_action_max(self, other),
    {
        if self.rank() >= other.rank() {
            self
        } else {
            other
        }
    }
}

/// Per-domain policy: the action to take when the threshold fires, whether
/// the threshold is active at all, and the cutoff in hundredths of the
/// unit interval. An inactive threshold never fires regardless of score.
#[derive(PartialEq, Eq, Structural, PartialOrd, Ord, Hash, Copy, Clone, Debug)]
pub struct Threshold {
    pub action: Action,
    /// Is this threshold active.
    pub active: bool,
    /// The risk threshold cutoff, in hundredths of the unit interval.
    pub threshold: u32,
}

impl Default for Threshold {
    /// An inactive threshold that never fires.
    fn default() -> (r: Threshold)
        ensures
            r.action == Action::NoAction && !r.active && r.threshold == 0,
    {
        Threshold { action: Action::NoAction, active: false, threshold: 0 }
    }
}

/// A project's threshold settings: one threshold per risk domain plus one
/// for the total. Every domain's threshold is always present; this
/// evaluator never has to handle a missing one.
#[derive(PartialEq, Eq, Structural, PartialOrd, Ord, Hash, Copy, Clone, Debug)]
pub struct RiskThresholds {
    pub total: Threshold,
    pub author: Threshold,
    pub engineering: Threshold,
    pub license: Threshold,
    pub malicious_code: Threshold,
    pub vulnerability: Threshold,
}

impl Default for RiskThresholds {
    /// Every threshold inactive: nothing fires.
    fn default() -> (r: RiskThresholds)
        ensures
            r.total == (Threshold { action: Action::NoAction, active: false, threshold: 0 }),
            r.author == r.total && r.engineering == r.total && r.license == r.total,
            r.malicious_code == r.total && r.vulnerability == r.total,
    {
        let t = Threshold { action: Action::NoAction, active: false, threshold: 0 };
        RiskThresholds {
            total: t,
            author: t,
            engineering: t,
            license: t,
            malicious_code: t,
            vulnerability: t,
        }
    }
}

/// Per-domain risk scores of a package, in hundredths of the unit
/// interval: 0 is worst, 100 is best.
#[derive(PartialEq, Eq, Structural, PartialOrd, Ord, Hash, Copy, Clone, Debug)]
pub struct RiskScores {
    pub total: u32,
    pub vulnerability: u32,
    pub malicious: u32,
    pub author: u32,
    pub engineering: u32,
    pub license: u32,
}

impl Default for RiskScores {
    /// All scores zero.
    fn default() -> (r: RiskScores)
        ensures
            r.total == 0 && r.vulnerability == 0 && r.malicious == 0,
            r.author == 0 && r.engineering == 0 && r.license == 0,
    {
        RiskScores { total: 0, vulnerability: 0, malicious: 0, author: 0, engineering: 0, license: 0 }
    }
}

/// The score of one risk type, the total included.
pub open spec fn spec_domain_score(scores: RiskScores, t: RiskType) -> u32 {
    match t {
        RiskType::TotalRisk => scores.total,
        RiskType::Vulnerabilities => scores.vulnerability,
        RiskType::MaliciousRisk => scores.malicious,
        RiskType::AuthorsRisk => scores.author,
        RiskType::EngineeringRisk => scores.engineering,
        RiskType::LicenseRisk => scores.license,
    }
}

/// The configured threshold of one risk type, the total included.
pub open spec fn spec_domain_threshold(thresholds: RiskThresholds, t: RiskType) -> Threshold {
    match t {
        RiskType::TotalRisk => thresholds.total,
        RiskType::Vulnerabilities => thresholds.vulnerability,
        RiskType::MaliciousRisk => thresholds.malicious_code,
        RiskType::AuthorsRisk => thresholds.author,
        RiskType::EngineeringRisk => thresholds.engineering,
        RiskType::LicenseRisk => thresholds.license,
    }
}

/// A domain is failing when its threshold is active and the score falls
/// strictly below the cutoff.
pub open spec fn spec_fails(scores: RiskScores, thresholds: RiskThresholds, t: RiskType) -> bool {
    spec_domain_threshold(thresholds, t).active && spec_domain_score(scores, t)
        < spec_domain_threshold(thresholds, t).threshold
}

/// The action a domain contributes: its configured action when it is
/// failing, nothing otherwise.
pub open spec fn spec_candidate(scores: RiskScores, thresholds: RiskThresholds, t: RiskType) -> Action {
    if spec_fails(scores, thresholds, t) {
        spec_domain_threshold(thresholds, t).action
    } else {
        Action::NoAction
    }
}

/// The package passes when no domain is failing, the total included.
pub open spec fn spec_pass(scores: RiskScores, thresholds: RiskThresholds) -> bool {
    &&& !spec_fails(scores, thresholds, RiskType::TotalRisk)
    &&& !spec_fails(scores, thresholds, RiskType::Vulnerabilities)
    &&& !spec_fails(scores, thresholds, RiskType::MaliciousRisk)
    &&& !spec_fails(scores, thresholds, RiskType::AuthorsRisk)
    &&& !spec_fails(scores, thresholds, RiskType::EngineeringRisk)
    &&& !spec_fails(scores, thresholds, RiskType::LicenseRisk)
}

/// The single action to surface: the strongest action among the failing
/// domains under the none < warn < break order.
pub open spec fn spec_overall_action(scores: RiskScores, thresholds: RiskThresholds) -> Action {
    spec_action_max(
        spec_candidate(scores, thresholds, RiskType::TotalRisk),
        spec_action_max(
            spec_candidate(scores, thresholds, RiskType::Vulnerabilities),
            spec_action_max(
                spec_candidate(scores, thresholds, RiskType::MaliciousRisk),
                spec_action_max(
                    spec_candidate(scores, thresholds, RiskType::AuthorsRisk),
                    spec_action_max(
                        spec_candidate(scores, thresholds, RiskType::EngineeringRisk),
                        spec_candidate(scores, thresholds, RiskType::LicenseRisk),
                    ),
                ),
            ),
        ),
    )
}

/// The outcome of evaluating a package against a project's thresholds.
#[derive(PartialEq, Eq, Structural, Copy, Clone, Debug)]
pub struct PolicyEvaluation {
    pub pass: bool,
    pub action: Action,
}

/// Whether one domain is failing.
fn domain_fails(scores: &RiskScores, thresholds: &RiskThresholds, t: RiskType) -> (r: bool)
    ensures
        r == spec_fails(*scores, *thresholds, t),
{
    let threshold = match t {
        RiskType::TotalRisk => thresholds.total,
        RiskType::Vulnerabilities => thresholds.vulnerability,
        RiskType::MaliciousRisk => thresholds.malicious_code,
        RiskType::AuthorsRisk => thresholds.author,
        RiskType::EngineeringRisk => thresholds.engineering,
        RiskType::LicenseRisk => thresholds.license,
    };
    let score = match t {
        RiskType::TotalRisk => scores.total,
        RiskType::Vulnerabilities => scores.vulnerability,
        RiskType::MaliciousRisk => scores.malicious,
        RiskType::AuthorsRisk => scores.author,
        RiskType::EngineeringRisk => scores.engineering,
        RiskType::LicenseRisk => scores.license,
    };
    threshold.active && score < threshold.threshold
}

/// The action one domain contributes.
fn domain_candidate(scores: &RiskScores, thresholds: &RiskThresholds, t: RiskType) -> (r: Action)
    ensures
        r == spec_candidate(*scores, *thresholds, t),
{
    if domain_fails(scores, thresholds, t) {
        let threshold = match t {
            RiskType::TotalRisk => thresholds.total,
            RiskType::Vulnerabilities => thresholds.vulnerability,
            RiskType::MaliciousRisk => thresholds.malicious_code,
            RiskType::AuthorsRisk => thresholds.author,
            RiskType::EngineeringRisk => thresholds.engineering,
            RiskType::LicenseRisk => thresholds.license,
        };
        threshold.action
    } else {
        Action::NoAction
    }
}

/// Evaluate a package's scores against a project's thresholds.
///
/// The package passes exactly when no active threshold lies strictly
/// above its domain's score. When it fails, the surfaced action is the
/// strongest among the failing domains; when it passes, the action is
/// always none, whatever the domains have configured.
pub fn evaluate(scores: &RiskScores, thresholds: &RiskThresholds) -> (r: PolicyEvaluation)
    ensures
        r.pass == spec_pass(*scores, *thresholds),
        r.action == spec_overall_action(*scores, *thresholds),
        r.pass ==> r.action == Action::NoAction,
{
    let pass = !domain_fails(scores, thresholds, RiskType::TotalRisk)
        && !domain_fails(scores, thresholds, RiskType::Vulnerabilities)
        && !domain_fails(scores, thresholds, RiskType::MaliciousRisk)
        && !domain_fails(scores, thresholds, RiskType::AuthorsRisk)
        && !domain_fails(scores, thresholds, RiskType::EngineeringRisk)
        && !domain_fails(scores, thresholds, RiskType::LicenseRisk);
    let action = domain_candidate(scores, thresholds, RiskType::TotalRisk).max(
        domain_candidate(scores, thresholds, RiskType::Vulnerabilities).max(
            domain_candidate(scores, thresholds, RiskType::MaliciousRisk).max(
                domain_candidate(scores, thresholds, RiskType::AuthorsRisk).max(
                    domain_candidate(scores, thresholds, RiskType::EngineeringRisk).max(
                        domain_candidate(scores, thresholds, RiskType::LicenseRisk),
                    ),
                ),
            ),
        ),
    );
    PolicyEvaluation { pass, action }
}

/// Break dominates: when any failing domain is configured to break, the
/// overall action is break, whatever the other domains contribute.
pub proof fn lemma_break_dominates(scores: RiskScores, thresholds: RiskThresholds, t: RiskType)
    requires
        spec_fails(scores, thresholds, t),
        spec_domain_threshold(thresholds, t).action == Action::Break,
    ensures
        spec_overall_action(scores, thresholds) == Action::Break,
{
}

/// A failing domain's action is never stronger than the overall action,
/// and the overall action is always contributed by some domain.
pub proof fn lemma_overall_action_bounds(scores: RiskScores, thresholds: RiskThresholds, t: RiskType)
    ensures
        action_rank(spec_candidate(scores, thresholds, t)) <= action_rank(
            spec_overall_action(scores, thresholds),
        ),
        spec_overall_action(scores, thresholds) != Action::NoAction
            ==> exists|u: RiskType| spec_candidate(scores, thresholds, u) == spec_overall_action(
            scores,
            thresholds,
        ),
{
    let overall = spec_overall_action(scores, thresholds);
    if overall != Action::NoAction {
        if spec_candidate(scores, thresholds, RiskType::TotalRisk) == overall {
            assert(spec_candidate(scores, thresholds, RiskType::TotalRisk) == overall);
        } else if spec_candidate(scores, thresholds, RiskType::Vulnerabilities) == overall {
            assert(spec_candidate(scores, thresholds, RiskType::Vulnerabilities) == overall);
        } else if spec_candidate(scores, thresholds, RiskType::MaliciousRisk) == overall {
            assert(spec_candidate(scores, thresholds, RiskType::MaliciousRisk) == overall);
        } else if spec_candidate(scores, thresholds, RiskType::AuthorsRisk) == overall {
            assert(spec_candidate(scores, thresholds, RiskType::AuthorsRisk) == overall);
        } else if spec_candidate(scores, thresholds, RiskType::EngineeringRisk) == overall {
            assert(spec_candidate(scores, thresholds, RiskType::EngineeringRisk) == overall);
        } else {
            assert(spec_candidate(scores, thresholds, RiskType::LicenseRisk) == overall);
        }
    }
}

} // verus!
