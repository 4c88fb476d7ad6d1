//! The package identity model: ecosystems, typed descriptors, flat
//! specifiers, and the lossless conversions between them.

use vstd::prelude::*;

use crate::errors::CoreError;
use crate::text::{lower_eq, lower_seq, str_eq};

verus! {

/// The package ecosystem a package belongs to.
#[derive(PartialEq, Eq, Structural, PartialOrd, Ord, Hash, Copy, Clone, Debug)]
pub enum PackageType {
    Npm,
    PyPi,
    Maven,
    RubyGems,
    Nuget,
    Cargo,
    Golang,
}

/// The canonical lowercase name of an ecosystem; it doubles as the
/// registry field of a flat specifier.
pub open spec fn spec_registry(t: PackageType) -> Seq<char> {
    match t {
        PackageType::Npm => "npm"@,
        PackageType::PyPi => "pypi"@,
        PackageType::Maven => "maven"@,
        PackageType::RubyGems => "rubygems"@,
        PackageType::Nuget => "nuget"@,
        PackageType::Cargo => "cargo"@,
        PackageType::Golang => "golang"@,
    }
}

/// The language an ecosystem serves.
pub open spec fn spec_language(t: PackageType) -> Seq<char> {
    match t {
        PackageType::Npm => "Javascript"@,
        PackageType::RubyGems => "Ruby"@,
        PackageType::PyPi => "Python"@,
        PackageType::Maven => "Java"@,
        PackageType::Nuget => ".NET"@,
        PackageType::Cargo => "Rust"@,
        PackageType::Golang => "Golang"@,
    }
}

/// Which ecosystem a registry label denotes, case-insensitively: each
/// ecosystem's canonical lowercase name, and for the Python and Ruby
/// ecosystems also their documented aliases.
pub open spec fn spec_parse_package_type(s: Seq<char>) -> Option<PackageType> {
    let l = lower_seq(s);
    if l == "npm"@ {
        Some(PackageType::Npm)
    } else if l == "python"@ || l == "pypi"@ {
        Some(PackageType::PyPi)
    } else if l == "maven"@ {
        Some(PackageType::Maven)
    } else if l == "ruby"@ || l == "rubygems"@ {
        Some(PackageType::RubyGems)
    } else if l == "nuget"@ {
        Some(PackageType::Nuget)
    } else if l == "cargo"@ {
        Some(PackageType::Cargo)
    } else if l == "golang"@ {
        Some(PackageType::Golang)
    } else {
        None
    }
}

/// Which ecosystem a label denotes when only the canonical lowercase
/// names are admitted: the exact matching a keyed wire record uses, with
/// no aliases and no case folding.
pub open spec fn spec_parse_canonical(s: Seq<char>) -> Option<PackageType> {
    if s == "npm"@ {
        Some(PackageType::Npm)
    } else if s == "pypi"@ {
        Some(PackageType::PyPi)
    } else if s == "maven"@ {
        Some(PackageType::Maven)
    } else if s == "rubygems"@ {
        Some(PackageType::RubyGems)
    } else if s == "nuget"@ {
        Some(PackageType::Nuget)
    } else if s == "cargo"@ {
        Some(PackageType::Cargo)
    } else if s == "golang"@ {
        Some(PackageType::Golang)
    } else {
        None
    }
}

impl PackageType {
    /// The canonical lowercase name of this ecosystem.
    pub fn name(&self) -> (r: &'static str)
        ensures
            r@ == spec_registry(*self),
    {
        match self {
            PackageType::Npm => "npm",
            PackageType::PyPi => "pypi",
            PackageType::Maven => "maven",
            PackageType::RubyGems => "rubygems",
            PackageType::Nuget => "nuget",
            PackageType::Cargo => "cargo",
            PackageType::Golang => "golang",
        }
    }

    /// The language this ecosystem serves.
    pub fn language(&self) -> (r: &'static str)
        ensures
            r@ == spec_language(*self),
    {
        match self {
            PackageType::Npm => "Javascript",
            PackageType::RubyGems => "Ruby",
            PackageType::PyPi => "Python",
            PackageType::Maven => "Java",
            PackageType::Nuget => ".NET",
            PackageType::Cargo => "Rust",
            PackageType::Golang => "Golang",
        }
    }

    /// Parse an ecosystem label, case-insensitively, accepting the
    /// documented aliases. An unknown label is rejected, never defaulted.
    pub fn from_str(input: &str) -> (r: Result<PackageType, ()>)
        ensures
            r matches Ok(t) ==> spec_parse_package_type(input@) == Some(t),
            spec_parse_package_type(input@) matches Some(t) ==> r == Ok::<PackageType, ()>(t),
            r is Err <==> spec_parse_package_type(input@) is None,
    {
        if lower_eq(input, "npm") {
            Ok(PackageType::Npm)
        } else if lower_eq(input, "python") || lower_eq(input, "pypi") {
            Ok(PackageType::PyPi)
        } else if lower_eq(input, "maven") {
            Ok(PackageType::Maven)
        } else if lower_eq(input, "ruby") || lower_eq(input, "rubygems") {
            Ok(PackageType::RubyGems)
        } else if lower_eq(input, "nuget") {
            Ok(PackageType::Nuget)
        } else if lower_eq(input, "cargo") {
            Ok(PackageType::Cargo)
        } else if lower_eq(input, "golang") {
            Ok(PackageType::Golang)
        } else {
            Err(())
        }
    }

    /// Parse an ecosystem label admitting only the canonical lowercase
    /// names, exactly as a keyed wire record spells them.
    pub fn from_canonical(input: &str) -> (r: Option<PackageType>)
        ensures
            r == spec_parse_canonical(input@),
    {
        if str_eq(input, "npm") {
            Some(PackageType::Npm)
        } else if str_eq(input, "pypi") {
            Some(PackageType::PyPi)
        } else if str_eq(input, "maven") {
            Some(PackageType::Maven)
        } else if str_eq(input, "rubygems") {
            Some(PackageType::RubyGems)
        } else if str_eq(input, "nuget") {
            Some(PackageType::Nuget)
        } else if str_eq(input, "cargo") {
            Some(PackageType::Cargo)
        } else if str_eq(input, "golang") {
            Some(PackageType::Golang)
        } else {
            None
        }
    }
}

/// The typed identity of a package: its canonical identity key within
/// the system.
#[derive(PartialEq, Eq, PartialOrd, Ord, Hash, Clone, Debug)]
pub struct PackageDescriptor {
    pub name: String,
    pub version: String,
    pub package_type: PackageType,
}

/// The mathematical content of a descriptor.
pub ghost struct DescriptorView {
    pub name: Seq<char>,
    pub version: Seq<char>,
    pub package_type: PackageType,
}

impl View for PackageDescriptor {
    type V = DescriptorView;

    open spec fn view(&self) -> DescriptorView {
        DescriptorView { name: self.name@, version: self.version@, package_type: self.package_type }
    }
}

impl DeepView for PackageDescriptor {
    type V = DescriptorView;

    open spec fn deep_view(&self) -> DescriptorView {
        self@
    }
}

/// The loosely-typed wire identity of a package: the registry as a flat
/// label instead of a typed ecosystem.
#[derive(PartialEq, Eq, PartialOrd, Ord, Hash, Clone, Debug)]
pub struct PackageSpecifier {
    pub registry: String,
    pub name: String,
    pub version: String,
}

/// The mathematical content of a specifier.
pub ghost struct SpecifierView {
    pub registry: Seq<char>,
    pub name: Seq<char>,
    pub version: Seq<char>,
}

impl View for PackageSpecifier {
    type V = SpecifierView;

    open spec fn view(&self) -> SpecifierView {
        SpecifierView { registry: self.registry@, name: self.name@, version: self.version@ }
    }
}

impl DeepView for PackageSpecifier {
    type V = SpecifierView;

    open spec fn deep_view(&self) -> SpecifierView {
        self@
    }
}

/// The specifier a descriptor flattens to: the registry is the
/// ecosystem's canonical lowercase name, name and version are copied
/// verbatim. Always succeeds.
pub open spec fn spec_descriptor_to_specifier(d: DescriptorView) -> SpecifierView {
    SpecifierView { registry: spec_registry(d.package_type), name: d.name, version: d.version }
}

/// The descriptor a specifier parses to, when its registry label denotes
/// an ecosystem; nothing otherwise.
pub open spec fn spec_specifier_to_descriptor(s: SpecifierView) -> Option<DescriptorView> {
    match spec_parse_package_type(s.registry) {
        Some(t) => Some(DescriptorView { name: s.name, version: s.version, package_type: t }),
        None => None,
    }
}

/// Flatten a descriptor to its wire specifier. Lossless and total.
pub fn descriptor_to_specifier(descriptor: &PackageDescriptor) -> (r: PackageSpecifier)
    ensures
        r@ == spec_descriptor_to_specifier(descriptor@),
{
    PackageSpecifier {
        registry: descriptor.package_type.name().to_owned(),
        name: descriptor.name.clone(),
        version: descriptor.version.clone(),
    }
}

/// Parse a wire specifier into a typed descriptor. Fails exactly when the
/// registry label denotes no ecosystem, carrying the offending label.
pub fn specifier_to_descriptor(specifier: PackageSpecifier) -> (r: Result<
    PackageDescriptor,
    CoreError,
>)
    ensures
        r matches Ok(d) ==> spec_specifier_to_descriptor(specifier@) == Some(d@),
        spec_specifier_to_descriptor(specifier@) is Some ==> r is Ok,
        r matches Err(e) ==> e matches CoreError::UnknownEcosystem(reg) && reg@
            == specifier@.registry && spec_specifier_to_descriptor(specifier@) is None,
{
    let PackageSpecifier { registry, name, version } = specifier;
    match PackageType::from_str(registry.as_str()) {
        Ok(package_type) => Ok(PackageDescriptor { name, version, package_type }),
        Err(()) => Err(CoreError::UnknownEcosystem(registry)),
    }
}

/// The canonical lowercase name of every ecosystem parses back to that
/// ecosystem: registry canonicalization loses no ecosystem identity.
pub proof fn lemma_registry_parses_back(t: PackageType)
    ensures
        spec_parse_package_type(spec_registry(t)) == Some(t),
{
    reveal_strlit("npm");
    reveal_strlit("python");
    reveal_strlit("pypi");
    reveal_strlit("maven");
    reveal_strlit("ruby");
    reveal_strlit("rubygems");
    reveal_strlit("nuget");
    reveal_strlit("cargo");
    reveal_strlit("golang");
    assert(("npm"@).len() == 3);
    assert(("python"@).len() == 6);
    assert(("pypi"@).len() == 4);
    assert(("maven"@).len() == 5);
    assert(("ruby"@).len() == 4);
    assert(("rubygems"@).len() == 8);
    assert(("nuget"@).len() == 5);
    assert(("cargo"@).len() == 5);
    assert(("golang"@).len() == 6);
    assert(("nuget"@)[0] != ("maven"@)[0]);
    assert(("cargo"@)[0] != ("maven"@)[0]);
    assert(("cargo"@)[0] != ("nuget"@)[0]);
    assert(("golang"@)[0] != ("python"@)[0]);
    assert(("ruby"@)[0] != ("pypi"@)[0]);
    match t {
        PackageType::Npm => {
            assert(lower_seq("npm"@) =~= "npm"@);
        },
        PackageType::PyPi => {
            assert(lower_seq("pypi"@) =~= "pypi"@);
        },
        PackageType::Maven => {
            assert(lower_seq("maven"@) =~= "maven"@);
        },
        PackageType::RubyGems => {
            assert(lower_seq("rubygems"@) =~= "rubygems"@);
        },
        PackageType::Nuget => {
            assert(lower_seq("nuget"@) =~= "nuget"@);
        },
        PackageType::Cargo => {
            assert(lower_seq("cargo"@) =~= "cargo"@);
        },
        PackageType::Golang => {
            assert(lower_seq("golang"@) =~= "golang"@);
        },
    }
}

/// Round trip: flattening any descriptor and parsing the result yields
/// the descriptor again.
pub proof fn lemma_identity_round_trip(d: DescriptorView)
    ensures
        spec_specifier_to_descriptor(spec_descriptor_to_specifier(d)) == Some(d),
{
    lemma_registry_parses_back(d.package_type);
}

} // verus!
