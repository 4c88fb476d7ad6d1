//! The risk taxonomy: risk domains, display risk types, and the ordered
//! severity scale, with their numeric weights and canonical renderings.

use vstd::prelude::*;

use crate::errors::CoreError;
use crate::text::str_eq;

verus! {

/// One axis of supply-chain risk.
///
/// The declaration order is the display precedence:
/// author < engineering < malicious < vulnerabilities < license.
#[derive(PartialEq, Eq, Structural, PartialOrd, Ord, Hash, Copy, Clone, Debug)]
pub enum RiskDomain {
    /// One or more authors is a possible bad actor or other problems.
    AuthorRisk,
    /// Poor engineering practices and other code smells.
    EngineeringRisk,
    /// Malicious code such as malware or crypto miners.
    Malicious,
    /// A code vulnerability such as use-after-free or other code smell.
    Vulnerabilities,
    /// License is unknown, incompatible with the project, etc.
    LicenseRisk,
}

/// Issue severity, totally ordered from `Info` up to `Critical`.
#[derive(PartialEq, Eq, Structural, PartialOrd, Ord, Hash, Copy, Clone, Debug)]
pub enum RiskLevel {
    /// Informational, no action needs to be taken.
    Info,
    /// Minor issues like cosmetic code smells,
    /// possibly a problem in great number or rare circumstances.
    Low,
    /// May be indicative of overall quality issues.
    Medium,
    /// Possibly exploitable behavior in some circumstances.
    High,
    /// Should fix as soon as possible, may be under active exploitation.
    Critical,
}

/// Display form of a risk domain, plus a synthetic total over all domains.
#[derive(PartialEq, Eq, Structural, PartialOrd, Ord, Hash, Copy, Clone, Debug)]
pub enum RiskType {
    TotalRisk,
    Vulnerabilities,
    MaliciousRisk,
    AuthorsRisk,
    EngineeringRisk,
    LicenseRisk,
}

/// The canonical weight of a severity level, in hundredths of the unit
/// interval. The weight is a safety score, not a danger score: higher
/// severity means a lower weight.
pub open spec fn spec_weight(level: RiskLevel) -> u32 {
    match level {
        RiskLevel::Info => 100,
        RiskLevel::Low => 80,
        RiskLevel::Medium => 65,
        RiskLevel::High => 35,
        RiskLevel::Critical => 10,
    }
}

impl RiskLevel {
    /// The weight of this severity level, in hundredths of the unit
    /// interval (`Info` = 100 down to `Critical` = 10).
    pub fn score(&self) -> (w: u32)
        ensures
            w == spec_weight(*self),
    {
        match self {
            RiskLevel::Info => 100,
            RiskLevel::Low => 80,
            RiskLevel::Medium => 65,
            RiskLevel::High => 35,
            RiskLevel::Critical => 10,
        }
    }
}

/// The display risk type of a risk domain; every domain has exactly one,
/// and no domain maps to the total.
pub open spec fn spec_domain_type(domain: RiskDomain) -> RiskType {
    match domain {
        RiskDomain::Malicious => RiskType::MaliciousRisk,
        RiskDomain::Vulnerabilities => RiskType::Vulnerabilities,
        RiskDomain::EngineeringRisk => RiskType::EngineeringRisk,
        RiskDomain::AuthorRisk => RiskType::AuthorsRisk,
        RiskDomain::LicenseRisk => RiskType::LicenseRisk,
    }
}

/// The fixed three-letter code that renders a risk type.
pub open spec fn spec_code(t: RiskType) -> Seq<char> {
    match t {
        RiskType::MaliciousRisk => "MAL"@,
        RiskType::Vulnerabilities => "VLN"@,
        RiskType::EngineeringRisk => "ENG"@,
        RiskType::AuthorsRisk => "AUT"@,
        RiskType::LicenseRisk => "LIC"@,
        RiskType::TotalRisk => "ALL"@,
    }
}

impl RiskType {
    /// The display risk type that renders a risk domain.
    pub fn from_domain(domain: RiskDomain) -> (t: RiskType)
        ensures
            t == spec_domain_type(domain),
            t != RiskType::TotalRisk,
    {
        match domain {
            RiskDomain::Malicious => RiskType::MaliciousRisk,
            RiskDomain::Vulnerabilities => RiskType::Vulnerabilities,
            RiskDomain::EngineeringRisk => RiskType::EngineeringRisk,
            RiskDomain::AuthorRisk => RiskType::AuthorsRisk,
            RiskDomain::LicenseRisk => RiskType::LicenseRisk,
        }
    }

    /// The canonical three-letter code of this risk type.
    pub fn code(&self) -> (r: &'static str)
        ensures
            r@ == spec_code(*self),
    {
        match self {
            RiskType::MaliciousRisk => "MAL",
            RiskType::Vulnerabilities => "VLN",
            RiskType::EngineeringRisk => "ENG",
            RiskType::AuthorsRisk => "AUT",
            RiskType::LicenseRisk => "LIC",
            RiskType::TotalRisk => "ALL",
        }
    }
}

impl From<RiskDomain> for RiskType {
    /// The display risk type of a risk domain, as `spec_domain_type`
    /// describes it.
    fn from(domain: RiskDomain) -> (t: RiskType) {
        RiskType::from_domain(domain)
    }
}

impl vstd::std_specs::convert::FromSpecImpl<RiskDomain> for RiskType {
    open spec fn obeys_from_spec() -> bool {
        true
    }

    open spec fn from_spec(domain: RiskDomain) -> RiskType {
        spec_domain_type(domain)
    }
}

impl RiskDomain {
    /// A risk domain renders as the three-letter code of its risk type.
    pub fn code(&self) -> (r: &'static str)
        ensures
            r@ == spec_code(spec_domain_type(*self)),
    {
        RiskType::from_domain(*self).code()
    }
}

/// The canonical lowercase name of a severity level.
pub open spec fn spec_level_name(level: RiskLevel) -> Seq<char> {
    match level {
        RiskLevel::Info => "info"@,
        RiskLevel::Low => "low"@,
        RiskLevel::Medium => "medium"@,
        RiskLevel::High => "high"@,
        RiskLevel::Critical => "critical"@,
    }
}

impl RiskLevel {
    /// The canonical lowercase name of this severity level.
    pub fn name(&self) -> (r: &'static str)
        ensures
            r@ == spec_level_name(*self),
    {
        match self {
            RiskLevel::Info => "info",
            RiskLevel::Low => "low",
            RiskLevel::Medium => "medium",
            RiskLevel::High => "high",
            RiskLevel::Critical => "critical",
        }
    }
}

/// The impact band a severity level falls into, derived from its weight
/// with half-open bounds: weight >= 80 is low, 50 to 79 is medium, 20 to
/// 49 is high, below 20 is critical. `Info` has weight 100 and therefore
/// lands in the low band: informational issues count as low impact, they
/// are not excluded.
pub open spec fn spec_bucket(level: RiskLevel) -> RiskLevel {
    let w = spec_weight(level);
    if w >= 80 {
        RiskLevel::Low
    } else if w >= 50 {
        RiskLevel::Medium
    } else if w >= 20 {
        RiskLevel::High
    } else {
        RiskLevel::Critical
    }
}

/// Bucket a severity level into the impact band its weight selects.
/// The result is always one of the four counted bands, never `Info`.
pub fn bucket(level: RiskLevel) -> (b: RiskLevel)
    ensures
        b == spec_bucket(level),
        b != RiskLevel::Info,
        level == RiskLevel::Info ==> b == RiskLevel::Low,
        level == RiskLevel::Critical ==> b == RiskLevel::Critical,
{
    let w = level.score();
    if w >= 80 {
        RiskLevel::Low
    } else if w >= 50 {
        RiskLevel::Medium
    } else if w >= 20 {
        RiskLevel::High
    } else {
        RiskLevel::Critical
    }
}

/// Which domain a wire label denotes: each domain's canonical name, and
/// for malicious code also its deprecated prior name. Matching is exact
/// and case-sensitive; an unknown label denotes no domain.
pub open spec fn spec_parse_domain(s: Seq<char>) -> Option<RiskDomain> {
    if s == "author"@ {
        Some(RiskDomain::AuthorRisk)
    } else if s == "engineering"@ {
        Some(RiskDomain::EngineeringRisk)
    } else if s == "malicious_code"@ || s == "malicious"@ {
        Some(RiskDomain::Malicious)
    } else if s == "vulnerability"@ {
        Some(RiskDomain::Vulnerabilities)
    } else if s == "license"@ {
        Some(RiskDomain::LicenseRisk)
    } else {
        None
    }
}

/// Parse a risk-domain label. Exact, case-sensitive matching against the
/// canonical names and the deprecated alias; an unknown label is a hard
/// failure carrying the offending label.
pub fn parse_domain(label: &str) -> (r: Result<RiskDomain, CoreError>)
    ensures
        r matches Ok(d) ==> spec_parse_domain(label@) == Some(d),
        spec_parse_domain(label@) matches Some(d) ==> r == Ok::<RiskDomain, CoreError>(d),
        r matches Err(e) ==> e matches CoreError::UnknownTaxonomyLabel(l) && l@ == label@
            && spec_parse_domain(label@) is None,
{
    if str_eq(label, "author") {
        Ok(RiskDomain::AuthorRisk)
    } else if str_eq(label, "engineering") {
        Ok(RiskDomain::EngineeringRisk)
    } else if str_eq(label, "malicious_code") || str_eq(label, "malicious") {
        Ok(RiskDomain::Malicious)
    } else if str_eq(label, "vulnerability") {
        Ok(RiskDomain::Vulnerabilities)
    } else if str_eq(label, "license") {
        Ok(RiskDomain::LicenseRisk)
    } else {
        Err(CoreError::UnknownTaxonomyLabel(label.to_owned()))
    }
}

/// Which severity level a wire label denotes. Matching is exact and
/// case-sensitive against the canonical lowercase names.
pub open spec fn spec_parse_level(s: Seq<char>) -> Option<RiskLevel> {
    if s == "info"@ {
        Some(RiskLevel::Info)
    } else if s == "low"@ {
        Some(RiskLevel::Low)
    } else if s == "medium"@ {
        Some(RiskLevel::Medium)
    } else if s == "high"@ {
        Some(RiskLevel::High)
    } else if s == "critical"@ {
        Some(RiskLevel::Critical)
    } else {
        None
    }
}

/// Parse a severity label. Exact, case-sensitive matching against the
/// canonical names; an unknown label is a hard failure carrying the
/// offending label.
pub fn parse_level(label: &str) -> (r: Result<RiskLevel, CoreError>)
    ensures
        r matches Ok(l) ==> spec_parse_level(label@) == Some(l),
        spec_parse_level(label@) matches Some(l) ==> r == Ok::<RiskLevel, CoreError>(l),
        r matches Err(e) ==> e matches CoreError::UnknownTaxonomyLabel(l) && l@ == label@
            && spec_parse_level(label@) is None,
{
    if str_eq(label, "info") {
        Ok(RiskLevel::Info)
    } else if str_eq(label, "low") {
        Ok(RiskLevel::Low)
    } else if str_eq(label, "medium") {
        Ok(RiskLevel::Medium)
    } else if str_eq(label, "high") {
        Ok(RiskLevel::High)
    } else if str_eq(label, "critical") {
        Ok(RiskLevel::Critical)
    } else {
        Err(CoreError::UnknownTaxonomyLabel(label.to_owned()))
    }
}

/// The deprecated domain alias resolves to the same domain as the
/// canonical label it stands for.
pub proof fn lemma_alias_parses_like_canonical()
    ensures
        spec_parse_domain("malicious"@) == spec_parse_domain("malicious_code"@),
        spec_parse_domain("malicious"@) == Some(RiskDomain::Malicious),
{
    reveal_strlit("author");
    reveal_strlit("engineering");
    reveal_strlit("malicious_code");
    reveal_strlit("malicious");
    assert(("malicious"@).len() == 9);
    assert(("author"@).len() == 6);
    assert(("engineering"@).len() == 11);
    assert(("malicious_code"@).len() == 14);
}

} // verus!
