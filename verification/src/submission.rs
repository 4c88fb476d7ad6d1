//! Resolution of an untagged submission payload: a list that is either
//! full package descriptors or flat specifier strings, with no
//! discriminator on the wire. The stricter descriptor shape is tried
//! first; the empty list deliberately resolves to the descriptor shape.

use vstd::prelude::*;

use crate::errors::CoreError;
use crate::identity::{
    spec_parse_canonical, DescriptorView, PackageDescriptor, PackageType,
};

verus! {

/// One element of an untagged submission payload after wire decoding:
/// either a flat string or a keyed record of whatever identity fields the
/// caller supplied.
#[derive(PartialEq, Eq, Clone, Debug)]
pub enum SubmissionEntry {
    /// A keyed record of optional identity fields.
    Record(SubmissionRecord),
    /// A flat specifier / package-url string.
    Text(String),
}

/// The identity fields a keyed record may carry. A field absent on the
/// wire is absent here; the record only forms a descriptor when all three
/// are present and the ecosystem label is one of the canonical names.
#[derive(PartialEq, Eq, Clone, Debug)]
pub struct SubmissionRecord {
    pub name: Option<String>,
    pub version: Option<String>,
    /// The ecosystem label, whichever of its recognized keys carried it.
    pub package_type: Option<String>,
}

/// The mathematical content of a keyed record.
pub ghost struct SubmissionRecordView {
    pub name: Option<Seq<char>>,
    pub version: Option<Seq<char>>,
    pub package_type: Option<Seq<char>>,
}

/// The mathematical content of a payload element.
pub ghost enum SubmissionEntryView {
    Record(SubmissionRecordView),
    Text(Seq<char>),
}

impl View for SubmissionRecord {
    type V = SubmissionRecordView;

    open spec fn view(&self) -> SubmissionRecordView {
        SubmissionRecordView {
            name: match self.name {
                Some(n) => Some(n@),
                None => None,
            },
            version: match self.version {
                Some(v) => Some(v@),
                None => None,
            },
            package_type: match self.package_type {
                Some(t) => Some(t@),
                None => None,
            },
        }
    }
}

impl DeepView for SubmissionRecord {
    type V = SubmissionRecordView;

    open spec fn deep_view(&self) -> SubmissionRecordView {
        self@
    }
}

impl View for SubmissionEntry {
    type V = SubmissionEntryView;

    open spec fn view(&self) -> SubmissionEntryView {
        match self {
            SubmissionEntry::Record(r) => SubmissionEntryView::Record(r@),
            SubmissionEntry::Text(t) => SubmissionEntryView::Text(t@),
        }
    }
}

impl DeepView for SubmissionEntry {
    type V = SubmissionEntryView;

    open spec fn deep_view(&self) -> SubmissionEntryView {
        self@
    }
}

/// Either a list of package descriptors or a list of flat specifier
/// strings (package urls).
#[derive(PartialEq, Eq, PartialOrd, Ord, Hash, Clone, Debug)]
pub enum PackageDescriptorsOrPurls {
    PackageDescriptors(Vec<PackageDescriptor>),
    Purls(Vec<String>),
}

/// The mathematical content of a resolved payload.
pub ghost enum PackagesView {
    PackageDescriptors(Seq<DescriptorView>),
    Purls(Seq<Seq<char>>),
}

impl View for PackageDescriptorsOrPurls {
    type V = PackagesView;

    open spec fn view(&self) -> PackagesView {
        match self {
            PackageDescriptorsOrPurls::PackageDescriptors(ds) => PackagesView::PackageDescriptors(
                ds.deep_view(),
            ),
            PackageDescriptorsOrPurls::Purls(ps) => PackagesView::Purls(ps.deep_view()),
        }
    }
}

impl Default for PackageDescriptorsOrPurls {
    /// The empty descriptor list, matching what the empty payload
    /// resolves to.
    fn default() -> (r: PackageDescriptorsOrPurls)
        ensures
            r@ == PackagesView::PackageDescriptors(Seq::<DescriptorView>::empty()),
    {
        let r = PackageDescriptorsOrPurls::PackageDescriptors(Vec::new());
        proof {
            assert(r@ matches PackagesView::PackageDescriptors(ds) && ds =~= Seq::<
                DescriptorView,
            >::empty());
        }
        r
    }
}

/// The descriptor a keyed record forms: all three fields present and the
/// ecosystem label canonical; nothing otherwise.
pub open spec fn spec_record_to_descriptor(r: SubmissionRecordView) -> Option<DescriptorView> {
    match (r.name, r.version, r.package_type) {
        (Some(name), Some(version), Some(label)) => match spec_parse_canonical(label) {
            Some(t) => Some(DescriptorView { name, version, package_type: t }),
            None => None,
        },
        _ => None,
    }
}

/// The descriptor a payload element forms; a flat string forms none.
pub open spec fn spec_entry_descriptor(e: SubmissionEntryView) -> Option<DescriptorView> {
    match e {
        SubmissionEntryView::Record(r) => spec_record_to_descriptor(r),
        SubmissionEntryView::Text(_) => None,
    }
}

/// Whether every payload element forms a descriptor: the descriptor-list
/// shape. The empty payload has this shape.
pub open spec fn all_descriptors(s: Seq<SubmissionEntryView>) -> bool {
    forall|i: int| 0 <= i < s.len() ==> spec_entry_descriptor(#[trigger] s[i]) is Some
}

/// Whether every payload element is a flat string: the specifier-list
/// shape.
pub open spec fn all_texts(s: Seq<SubmissionEntryView>) -> bool {
    forall|i: int| 0 <= i < s.len() ==> #[trigger] s[i] is Text
}

/// The descriptors a descriptor-shaped payload lists, in order.
pub open spec fn spec_descriptor_list(s: Seq<SubmissionEntryView>) -> Seq<DescriptorView> {
    Seq::new(s.len(), |i: int| spec_entry_descriptor(s[i]).unwrap())
}

/// The string of a payload element, empty for a keyed record.
pub open spec fn spec_entry_text(e: SubmissionEntryView) -> Seq<char> {
    match e {
        SubmissionEntryView::Text(t) => t,
        SubmissionEntryView::Record(_) => Seq::empty(),
    }
}

/// The strings a specifier-shaped payload lists, in order.
pub open spec fn spec_purl_list(s: Seq<SubmissionEntryView>) -> Seq<Seq<char>> {
    Seq::new(s.len(), |i: int| spec_entry_text(s[i]))
}

/// Form a descriptor from a keyed record, when all three fields are
/// present and the ecosystem label is canonical.
fn record_to_descriptor(record: &SubmissionRecord) -> (r: Option<PackageDescriptor>)
    ensures
        r matches Some(d) ==> spec_record_to_descriptor(record@) == Some(d@),
        r is Some <==> spec_record_to_descriptor(record@) is Some,
{
    match (&record.name, &record.version, &record.package_type) {
        (Some(name), Some(version), Some(label)) => match PackageType::from_canonical(
            label.as_str(),
        ) {
            Some(package_type) => Some(
                PackageDescriptor { name: name.clone(), version: version.clone(), package_type },
            ),
            None => None,
        },
        _ => None,
    }
}

/// Resolve an untagged submission payload as either a descriptor list or
/// a flat specifier-string list.
///
/// The stricter descriptor-list shape is tried first; only when some
/// element does not form a descriptor is the flat-string shape tried;
/// when both fail the whole payload is rejected. The empty payload is
/// ambiguous between the shapes and deliberately resolves to the empty
/// descriptor list.
pub fn resolve_submission(payload: &Vec<SubmissionEntry>) -> (r: Result<
    PackageDescriptorsOrPurls,
    CoreError,
>)
    ensures
        all_descriptors(payload.deep_view()) ==> (r matches Ok(out) && out@
            == PackagesView::PackageDescriptors(spec_descriptor_list(payload.deep_view()))),
        !all_descriptors(payload.deep_view()) && all_texts(payload.deep_view()) ==> (r matches Ok(
            out,
        ) && out@ == PackagesView::Purls(spec_purl_list(payload.deep_view()))),
        r is Err <==> !all_descriptors(payload.deep_view()) && !all_texts(payload.deep_view()),
        r matches Err(e) ==> e == CoreError::MalformedSubmission,
        payload@.len() == 0 ==> (r matches Ok(out) && out@ == PackagesView::PackageDescriptors(
            Seq::<DescriptorView>::empty(),
        )),
{
    let ghost dv = payload.deep_view();
    let mut descriptors: Vec<PackageDescriptor> = Vec::new();
    let mut descriptors_ok = true;
    let n = payload.len();
    let mut i: usize = 0;
    while i < n && descriptors_ok
        invariant
            i <= n,
            n == payload@.len(),
            dv == payload.deep_view(),
            dv.len() == payload@.len(),
            descriptors_ok ==> descriptors.deep_view() =~= spec_descriptor_list(dv.take(i as int)),
            descriptors_ok ==> all_descriptors(dv.take(i as int)),
            !descriptors_ok ==> !all_descriptors(dv),
        decreases n - i,
    {
        let ghost prev = descriptors.deep_view();
        proof {
            assert(dv[i as int] == payload@[i as int]@);
        }
        match &payload[i] {
            SubmissionEntry::Record(record) => {
                match record_to_descriptor(record) {
                    Some(d) => {
                        descriptors.push(d);
                        proof {
                            assert(spec_entry_descriptor(dv[i as int]) is Some);
                            assert(descriptors.deep_view() =~= prev.push(d@));
                            assert forall|j: int| 0 <= j < i + 1 implies spec_entry_descriptor(
                                #[trigger] dv.take(i + 1)[j],
                            ) is Some by {
                                assert(dv.take(i + 1)[j] == dv.take(i as int + 1)[j]);
                                if j < i {
                                    assert(dv.take(i as int)[j] == dv[j]);
                                }
                            }
                            assert(all_descriptors(dv.take(i + 1)));
                            assert(descriptors.deep_view() =~= spec_descriptor_list(
                                dv.take(i + 1),
                            ));
                        }
                    },
                    None => {
                        descriptors_ok = false;
                        proof {
                            assert(spec_entry_descriptor(dv[i as int]) is None);
                            assert(!all_descriptors(dv));
                        }
                    },
                }
            },
            SubmissionEntry::Text(_) => {
                descriptors_ok = false;
                proof {
                    assert(spec_entry_descriptor(dv[i as int]) is None);
                    assert(!all_descriptors(dv));
                }
            },
        }
        i = i + 1;
    }
    if descriptors_ok {
        proof {
            assert(dv.take(n as int) =~= dv);
            if n == 0 {
                assert(spec_descriptor_list(dv) =~= Seq::<DescriptorView>::empty());
            }
        }
        return Ok(PackageDescriptorsOrPurls::PackageDescriptors(descriptors));
    }
    let mut purls: Vec<String> = Vec::new();
    let mut k: usize = 0;
    while k < n
        invariant
            k <= n,
            n == payload@.len(),
            dv == payload.deep_view(),
            dv.len() == payload@.len(),
            purls.deep_view() =~= spec_purl_list(dv.take(k as int)),
            all_texts(dv.take(k as int)),
            !all_descriptors(dv),
        decreases n - k,
    {
        let ghost prev = purls.deep_view();
        proof {
            assert(dv[k as int] == payload@[k as int]@);
        }
        match &payload[k] {
            SubmissionEntry::Text(text) => {
                purls.push(text.clone());
                proof {
                    assert(purls.deep_view() =~= prev.push(text@));
                    assert forall|j: int| 0 <= j < k + 1 implies (#[trigger] dv.take(k + 1)[j])
                        is Text by {
                        if j < k {
                            assert(dv.take(k as int)[j] == dv[j]);
                        }
                    }
                    assert(all_texts(dv.take(k + 1)));
                    assert(purls.deep_view() =~= spec_purl_list(dv.take(k + 1)));
                }
            },
            SubmissionEntry::Record(_) => {
                proof {
                    assert(!(dv[k as int] is Text));
                    assert(!all_texts(dv));
                }
                return Err(CoreError::MalformedSubmission);
            },
        }
        k = k + 1;
    }
    proof {
        assert(dv.take(n as int) =~= dv);
    }
    Ok(PackageDescriptorsOrPurls::Purls(purls))
}

} // verus!
