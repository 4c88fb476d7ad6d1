//! Issues discovered about a package, the per-severity impact counts
//! derived from them, and the user overrides that exclude single issues
//! from counting.

use vstd::prelude::*;

use crate::taxonomy::{spec_bucket, RiskDomain, RiskLevel};

verus! {

broadcast use vstd::seq_lib::group_filter_ensures;

/// Why a user chose to ignore an issue.
#[derive(PartialEq, Eq, Structural, PartialOrd, Ord, Hash, Copy, Clone, Debug)]
pub enum IgnoredReason {
    False,
    FalsePositive,
    NotRelevant,
    Other,
}

/// A single package issue: an immutable fact reported by the analysis
/// collaborator. Two issues with the same `(id, tag)` pair are the same
/// logical issue for override purposes, whatever their other fields say.
#[derive(PartialEq, Eq, PartialOrd, Ord, Hash, Clone, Debug)]
pub struct Issue {
    pub tag: Option<String>,
    pub id: Option<String>,
    pub title: String,
    pub description: String,
    pub severity: RiskLevel,
    pub domain: RiskDomain,
}

/// The mathematical content of an issue.
pub ghost struct IssueView {
    pub tag: Option<Seq<char>>,
    pub id: Option<Seq<char>>,
    pub title: Seq<char>,
    pub description: Seq<char>,
    pub severity: RiskLevel,
    pub domain: RiskDomain,
}

impl View for Issue {
    type V = IssueView;

    open spec fn view(&self) -> IssueView {
        IssueView {
            tag: match self.tag {
                Some(t) => Some(t@),
                None => None,
            },
            id: match self.id {
                Some(i) => Some(i@),
                None => None,
            },
            title: self.title@,
            description: self.description@,
            severity: self.severity,
            domain: self.domain,
        }
    }
}

impl DeepView for Issue {
    type V = IssueView;

    open spec fn deep_view(&self) -> IssueView {
        self@
    }
}

/// A user override: the issue with exactly this id and tag is excluded
/// from impact and score computation for the project.
#[derive(PartialEq, Eq, Clone, Debug)]
pub struct IgnoredIssue {
    pub id: String,
    pub tag: String,
    pub reason: IgnoredReason,
}

/// The mathematical content of an override record.
pub ghost struct IgnoredIssueView {
    pub id: Seq<char>,
    pub tag: Seq<char>,
    pub reason: IgnoredReason,
}

impl View for IgnoredIssue {
    type V = IgnoredIssueView;

    open spec fn view(&self) -> IgnoredIssueView {
        IgnoredIssueView { id: self.id@, tag: self.tag@, reason: self.reason }
    }
}

impl DeepView for IgnoredIssue {
    type V = IgnoredIssueView;

    open spec fn deep_view(&self) -> IgnoredIssueView {
        self@
    }
}

/// Whether an override entry matches an issue: both the id and the tag
/// must be present on the issue and equal the entry's, character for
/// character. An absent id or tag matches nothing, never a wildcard.
pub open spec fn matches_override(issue: IssueView, entry: IgnoredIssueView) -> bool {
    &&& issue.id matches Some(id) && id == entry.id
    &&& issue.tag matches Some(tag) && tag == entry.tag
}

/// Whether some entry of the override list matches the issue.
pub open spec fn is_ignored(issue: IssueView, ignored: Seq<IgnoredIssueView>) -> bool {
    exists|j: int| 0 <= j < ignored.len() && matches_override(issue, #[trigger] ignored[j])
}

/// The predicate that keeps an issue when the overrides are applied.
pub open spec fn keep_pred(ignored: Seq<IgnoredIssueView>) -> spec_fn(IssueView) -> bool {
    |issue: IssueView| !is_ignored(issue, ignored)
}

/// The issues left after removing every issue that an override matches.
pub open spec fn spec_filter_issues(
    issues: Seq<IssueView>,
    ignored: Seq<IgnoredIssueView>,
) -> Seq<IssueView> {
    issues.filter(keep_pred(ignored))
}

/// Whether this single override entry matches this issue.
fn issue_matches(issue: &Issue, entry: &IgnoredIssue) -> (r: bool)
    ensures
        r == matches_override(issue@, entry@),
{
    let id_matches = match &issue.id {
        Some(id) => id.eq(&entry.id),
        None => false,
    };
    let tag_matches = match &issue.tag {
        Some(tag) => tag.eq(&entry.tag),
        None => false,
    };
    id_matches && tag_matches
}

/// Whether any entry of the override list matches this issue.
pub fn issue_is_ignored(issue: &Issue, ignored: &Vec<IgnoredIssue>) -> (r: bool)
    ensures
        r == is_ignored(issue@, ignored.deep_view()),
{
    let ghost gv = ignored.deep_view();
    let mut k: usize = 0;
    while k < ignored.len()
        invariant
            k <= ignored.len(),
            gv == ignored.deep_view(),
            gv.len() == ignored@.len(),
            forall|j: int| 0 <= j < k ==> !matches_override(issue@, #[trigger] gv[j]),
        decreases ignored.len() - k,
    {
        if issue_matches(issue, &ignored[k]) {
            proof {
                assert(matches_override(issue@, gv[k as int]));
            }
            return true;
        }
        k = k + 1;
    }
    false
}

/// Duplicate an issue; the duplicate has the same mathematical content.
fn clone_issue(issue: &Issue) -> (r: Issue)
    ensures
        r@ == issue@,
{
    Issue {
        tag: match &issue.tag {
            Some(t) => Some(t.clone()),
            None => None,
        },
        id: match &issue.id {
            Some(i) => Some(i.clone()),
            None => None,
        },
        title: issue.title.clone(),
        description: issue.description.clone(),
        severity: issue.severity,
        domain: issue.domain,
    }
}

/// Apply the user overrides: keep exactly the issues that no override
/// entry matches, in their original order. A pure projection; neither
/// input is changed.
pub fn filter_issues(issues: &Vec<Issue>, ignored: &Vec<IgnoredIssue>) -> (r: Vec<Issue>)
    ensures
        r.deep_view() == spec_filter_issues(issues.deep_view(), ignored.deep_view()),
{
    let ghost dv = issues.deep_view();
    let ghost gv = ignored.deep_view();
    let mut out: Vec<Issue> = Vec::new();
    let mut i: usize = 0;
    while i < issues.len()
        invariant
            i <= issues.len(),
            dv == issues.deep_view(),
            gv == ignored.deep_view(),
            dv.len() == issues@.len(),
            out.deep_view() == dv.take(i as int).filter(keep_pred(gv)),
        decreases issues.len() - i,
    {
        let ghost prev = out.deep_view();
        if !issue_is_ignored(&issues[i], ignored) {
            let kept = clone_issue(&issues[i]);
            out.push(kept);
            proof {
                assert(out.deep_view() =~= prev.push(issues@[i as int]@));
            }
        }
        proof {
            lemma_filter_take_step(dv, i as int, keep_pred(gv));
            assert(dv[i as int] == issues@[i as int]@);
        }
        i = i + 1;
    }
    proof {
        assert(dv.take(issues@.len() as int) =~= dv);
    }
    out
}

/// Count of issues for each severity band.
#[derive(PartialEq, Eq, Structural, PartialOrd, Ord, Hash, Copy, Clone, Debug)]
pub struct IssueImpacts {
    pub low: u32,
    pub medium: u32,
    pub high: u32,
    pub critical: u32,
}

impl Default for IssueImpacts {
    /// All four counts start at zero.
    fn default() -> (r: IssueImpacts)
        ensures
            r.low == 0 && r.medium == 0 && r.high == 0 && r.critical == 0,
    {
        IssueImpacts { low: 0, medium: 0, high: 0, critical: 0 }
    }
}

/// The predicate that selects the issues of one severity band.
pub open spec fn band_pred(band: RiskLevel) -> spec_fn(IssueView) -> bool {
    |issue: IssueView| spec_bucket(issue.severity) == band
}

/// How many issues fall into the given severity band.
pub open spec fn count_with_bucket(issues: Seq<IssueView>, band: RiskLevel) -> nat {
    issues.filter(band_pred(band)).len()
}

impl IssueImpacts {
    /// Derive the per-band counts of a collection of issues: every issue
    /// increments exactly the band its severity buckets into. The order
    /// of the issues does not affect the result.
    pub fn aggregate(issues: &Vec<Issue>) -> (impacts: IssueImpacts)
        requires
            issues@.len() <= u32::MAX,
        ensures
            impacts.low == count_with_bucket(issues.deep_view(), RiskLevel::Low),
            impacts.medium == count_with_bucket(issues.deep_view(), RiskLevel::Medium),
            impacts.high == count_with_bucket(issues.deep_view(), RiskLevel::High),
            impacts.critical == count_with_bucket(issues.deep_view(), RiskLevel::Critical),
    {
        let ghost dv = issues.deep_view();
        let mut impacts = IssueImpacts { low: 0, medium: 0, high: 0, critical: 0 };
        let mut i: usize = 0;
        while i < issues.len()
            invariant
                i <= issues.len(),
                dv == issues.deep_view(),
                dv.len() == issues@.len(),
                issues@.len() <= u32::MAX,
                impacts.low == count_with_bucket(dv.take(i as int), RiskLevel::Low),
                impacts.medium == count_with_bucket(dv.take(i as int), RiskLevel::Medium),
                impacts.high == count_with_bucket(dv.take(i as int), RiskLevel::High),
                impacts.critical == count_with_bucket(dv.take(i as int), RiskLevel::Critical),
            decreases issues.len() - i,
        {
            proof {
                lemma_filter_take_step(dv, i as int, band_pred(RiskLevel::Low));
                lemma_filter_take_step(dv, i as int, band_pred(RiskLevel::Medium));
                lemma_filter_take_step(dv, i as int, band_pred(RiskLevel::High));
                lemma_filter_take_step(dv, i as int, band_pred(RiskLevel::Critical));
                assert(dv.take(i as int).len() == i as int);
                assert(dv[i as int] == issues@[i as int]@);
            }
            let band = crate::taxonomy::bucket(issues[i].severity);
            match band {
                RiskLevel::Low => impacts.low = impacts.low + 1,
                RiskLevel::Medium => impacts.medium = impacts.medium + 1,
                RiskLevel::High => impacts.high = impacts.high + 1,
                _ => impacts.critical = impacts.critical + 1,
            }
            i = i + 1;
        }
        proof {
            assert(dv.take(issues@.len() as int) =~= dv);
        }
        impacts
    }

    /// The total number of counted issues.
    pub fn total(&self) -> (t: u64)
        ensures
            t == self.low + self.medium + self.high + self.critical,
    {
        self.low as u64 + self.medium as u64 + self.high as u64 + self.critical as u64
    }
}

/// Filtering one element off the end of a prefix either appends it to the
/// filtered prefix or leaves the filtered prefix unchanged, by whether the
/// predicate keeps it.
proof fn lemma_filter_take_step(s: Seq<IssueView>, i: int, pred: spec_fn(IssueView) -> bool)
    requires
        0 <= i < s.len(),
    ensures
        s.take(i + 1).filter(pred) == if pred(s[i]) {
            s.take(i).filter(pred).push(s[i])
        } else {
            s.take(i).filter(pred)
        },
{
    reveal(Seq::filter);
    assert(s.take(i + 1).drop_last() =~= s.take(i));
    assert(s.take(i + 1).last() == s[i]);
}

/// Every issue lands in exactly one of the four bands, so the four counts
/// partition the collection: their sum is the number of issues.
pub proof fn lemma_impact_counts_partition(issues: Seq<IssueView>)
    ensures
        count_with_bucket(issues, RiskLevel::Low) + count_with_bucket(issues, RiskLevel::Medium)
            + count_with_bucket(issues, RiskLevel::High)
            + count_with_bucket(issues, RiskLevel::Critical) == issues.len(),
    decreases issues.len(),
{
    if issues.len() == 0 {
        reveal(Seq::filter);
    } else {
        let prefix = issues.drop_last();
        lemma_impact_counts_partition(prefix);
        assert(prefix == issues.take(issues.len() - 1));
        lemma_filter_take_step(issues, issues.len() - 1, band_pred(RiskLevel::Low));
        lemma_filter_take_step(issues, issues.len() - 1, band_pred(RiskLevel::Medium));
        lemma_filter_take_step(issues, issues.len() - 1, band_pred(RiskLevel::High));
        lemma_filter_take_step(issues, issues.len() - 1, band_pred(RiskLevel::Critical));
        assert(issues.take(issues.len() as int) =~= issues);
    }
}

/// After the overrides are applied, the four counts sum to the number of
/// issues that survived the filter.
pub proof fn lemma_counts_partition_after_filter(
    issues: Seq<IssueView>,
    ignored: Seq<IgnoredIssueView>,
)
    ensures
        count_with_bucket(spec_filter_issues(issues, ignored), RiskLevel::Low) + count_with_bucket(
            spec_filter_issues(issues, ignored),
            RiskLevel::Medium,
        ) + count_with_bucket(spec_filter_issues(issues, ignored), RiskLevel::High)
            + count_with_bucket(spec_filter_issues(issues, ignored), RiskLevel::Critical)
            == spec_filter_issues(issues, ignored).len(),
{
    lemma_impact_counts_partition(spec_filter_issues(issues, ignored));
}

/// Applying the overrides and then counting one band counts exactly the
/// issues of that band that no override matches: an ignored issue is
/// removed from the counts, and a non-matching issue stays counted.
pub proof fn lemma_override_counts(
    issues: Seq<IssueView>,
    ignored: Seq<IgnoredIssueView>,
    band: RiskLevel,
)
    ensures
        count_with_bucket(spec_filter_issues(issues, ignored), band) == issues.filter(
            |issue: IssueView|
                !is_ignored(issue, ignored) && spec_bucket(issue.severity) == band,
        ).len(),
    decreases issues.len(),
{
    let combined = |issue: IssueView|
        !is_ignored(issue, ignored) && spec_bucket(issue.severity) == band;
    if issues.len() == 0 {
        reveal(Seq::filter);
        assert(spec_filter_issues(issues, ignored).len() == 0);
    } else {
        let prefix = issues.drop_last();
        lemma_override_counts(prefix, ignored, band);
        assert(prefix == issues.take(issues.len() - 1));
        lemma_filter_take_step(issues, issues.len() - 1, keep_pred(ignored));
        lemma_filter_take_step(issues, issues.len() - 1, combined);
        let kept_prefix = spec_filter_issues(prefix, ignored);
        let last = issues.last();
        assert(issues[issues.len() - 1] == last);
        if keep_pred(ignored)(last) {
            lemma_filter_push_step(kept_prefix, last, band_pred(band));
        }
        assert(issues.take(issues.len() as int) =~= issues);
    }
}

/// Filtering after a push appends the pushed element when the predicate
/// keeps it and changes nothing otherwise.
proof fn lemma_filter_push_step(s: Seq<IssueView>, x: IssueView, pred: spec_fn(IssueView) -> bool)
    ensures
        s.push(x).filter(pred) == if pred(x) {
            s.filter(pred).push(x)
        } else {
            s.filter(pred)
        },
{
    reveal(Seq::filter);
    assert(s.push(x).drop_last() =~= s);
    assert(s.push(x).last() == x);
}

} // verus!
