use vstd::prelude::*;
use crate::toml_doc::TomlValue;

verus! {

/// A dependency set: names as written in the manifest, each bound to one
/// dependency, in document order.
pub type DepsSet = Vec<(String, Dependency)>;

/// Per build-target-platform dependency overrides, keyed by the platform
/// expression.
pub type TargetDepsSet = Vec<(String, Target)>;

/// Feature names, each bound to the list of features and optional dependencies
/// it enables.
pub type FeatureSet = Vec<(String, Vec<String>)>;

/// Patch sections, keyed by the registry or source being patched.
pub type PatchSet = Vec<(String, DepsSet)>;

/// The whole parsed manifest: a tree of optional sections.
///
/// The product lists (`lib`, `bin`, `test`, `example`, `bench`) and the
/// package's build-script reference may be left implicit in the document;
/// completion fills them in from the on-disk layout.
#[derive(Debug, Clone, PartialEq, Eq)]
pub struct Manifest {
    pub package: Option<Package>,
    pub cargo_features: Option<Vec<String>>,
    pub workspace: Option<Workspace>,
    pub dependencies: Option<DepsSet>,
    pub dev_dependencies: Option<DepsSet>,
    pub build_dependencies: Option<DepsSet>,
    pub target: Option<TargetDepsSet>,
    pub features: Option<FeatureSet>,
    pub bin: Option<Vec<Product>>,
    pub bench: Option<Vec<Product>>,
    pub test: Option<Vec<Product>>,
    pub example: Option<Vec<Product>>,
    pub patch: Option<PatchSet>,
    pub lib: Option<Product>,
    pub profile: Option<Profiles>,
    pub badges: Option<Badges>,
}

/// The workspace section: member path lists, the resolver choice, a shared
/// dependency set, and the fields member packages may inherit.
#[derive(Debug, Clone, PartialEq, Eq)]
pub struct Workspace {
    pub members: Vec<String>,
    pub default_members: Option<Vec<String>>,
    pub exclude: Option<Vec<String>>,
    pub resolver: Option<Resolver>,
    pub dependencies: Option<DepsSet>,
    pub package: Option<WorkspacePackage>,
}

/// The fields a workspace offers for member packages to inherit.
#[derive(Debug, Clone, PartialEq, Eq)]
pub struct WorkspacePackage {
    pub edition: Option<Edition>,
    pub version: Option<String>,
    pub authors: Option<Vec<String>>,
    pub description: Option<String>,
    pub homepage: Option<String>,
    pub documentation: Option<String>,
    pub readme: Option<StringOrBool>,
    pub keywords: Option<Vec<String>>,
    pub categories: Option<Vec<String>>,
    pub license: Option<String>,
    pub license_file: Option<String>,
    pub publish: Option<Publish>,
    pub exclude: Option<Vec<String>>,
    pub include_files: Option<Vec<String>>,
    pub repository: Option<String>,
    pub rust_version: Option<String>,
}

/// The package identity record.
#[derive(Debug, Clone, PartialEq, Eq)]
pub struct Package {
    pub name: String,
    pub edition: Option<MaybeInherited<Edition>>,
    pub version: MaybeInherited<String>,
    pub build: Option<TomlValue>,
    pub workspace: Option<String>,
    pub authors: Option<MaybeInherited<Vec<String>>>,
    pub links: Option<String>,
    pub description: Option<MaybeInherited<String>>,
    pub homepage: Option<MaybeInherited<String>>,
    pub documentation: Option<MaybeInherited<String>>,
    pub readme: Option<MaybeInherited<StringOrBool>>,
    pub keywords: Option<MaybeInherited<Vec<String>>>,
    pub categories: Option<MaybeInherited<Vec<String>>>,
    pub license: Option<MaybeInherited<String>>,
    pub license_file: Option<MaybeInherited<String>>,
    pub repository: Option<MaybeInherited<String>>,
    pub metadata: Option<TomlValue>,
    pub rust_version: Option<MaybeInherited<String>>,
    pub exclude: Option<MaybeInherited<Vec<String>>>,
    pub include_files: Option<MaybeInherited<Vec<String>>>,
    pub default_run: Option<String>,
    pub autobins: bool,
    pub autoexamples: bool,
    pub autotests: bool,
    pub autobenches: bool,
    pub publish: Option<MaybeInherited<Publish>>,
    pub resolver: Option<Resolver>,
}

/// A buildable unit: the library, or one binary, test, example or benchmark.
#[derive(Debug, Clone, PartialEq, Eq)]
pub struct Product {
    /// Where the crate source is located, relative to the manifest.
    pub path: Option<String>,
    /// The name of the library or binary that will be generated.
    pub name: Option<String>,
    pub test: bool,
    pub doctest: bool,
    pub bench: bool,
    pub doc: bool,
    pub plugin: bool,
    pub proc_macro: bool,
    pub harness: bool,
    pub edition: Option<Edition>,
    pub required_features: Vec<String>,
    pub crate_type: Option<Vec<String>>,
}

/// The boolean flags and list fields of a product at their documented defaults,
/// with the edition at the oldest supported one.
pub open spec fn product_defaults(p: Product) -> bool {
    &&& p.test
    &&& p.doctest
    &&& p.bench
    &&& p.doc
    &&& !p.plugin
    &&& !p.proc_macro
    &&& p.harness
    &&& p.required_features@.len() == 0
}

impl Default for Product {
    /// Default construction: every flag at its documented default, no path,
    /// name or crate type, and the oldest supported edition.
    fn default() -> (r: Self)
        ensures
            product_defaults(r),
            r.path is None,
            r.name is None,
            r.crate_type is None,
            r.edition == Some(Edition::E2015),
    {
        Product {
            path: None,
            name: None,
            test: true,
            doctest: true,
            bench: true,
            doc: true,
            plugin: false,
            proc_macro: false,
            harness: true,
            edition: Some(Edition::E2015),
            required_features: Vec::new(),
            crate_type: None,
        }
    }
}

/// Dependency overrides for one build-target platform.
#[derive(Debug, Clone, PartialEq, Eq)]
pub struct Target {
    pub dependencies: DepsSet,
    pub dev_dependencies: DepsSet,
    pub build_dependencies: DepsSet,
}

/// A dependency: either a bare version-requirement string, or a detailed record.
#[derive(Debug, Clone, PartialEq, Eq)]
pub enum Dependency {
    Simple(String),
    Detailed(DependencyDetail),
}

/// The version requirement of a dependency, defaulting to the wildcard when a
/// detailed record names none.
pub open spec fn spec_req(d: Dependency) -> Seq<char> {
    match d {
        Dependency::Simple(v) => v@,
        Dependency::Detailed(dd) => match dd.version {
            Some(s) => s@,
            None => "*"@,
        },
    }
}

/// Whether the dependency is resolvable from the default public registry by
/// name and version alone: no path, no alternative registry, no git source.
pub open spec fn spec_is_crates_io(d: Dependency) -> bool {
    match d {
        Dependency::Simple(_) => true,
        Dependency::Detailed(dd) => {
            &&& dd.path is None
            &&& dd.registry is None
            &&& dd.registry_index is None
            &&& dd.git is None
            &&& dd.tag is None
            &&& dd.branch is None
            &&& dd.rev is None
        },
    }
}

/// Whether the dependency is marked optional.
pub open spec fn spec_optional(d: Dependency) -> bool {
    match d {
        Dependency::Simple(_) => false,
        Dependency::Detailed(dd) => match dd.optional {
            Some(b) => b,
            None => false,
        },
    }
}

/// The package-rename target, set only by detailed records.
pub open spec fn spec_package_rename(d: Dependency) -> Option<Seq<char>> {
    match d {
        Dependency::Simple(_) => None,
        Dependency::Detailed(dd) => match dd.package {
            Some(s) => Some(s@),
            None => None,
        },
    }
}

/// The git URL of the dependency, if any.
pub open spec fn spec_git(d: Dependency) -> Option<Seq<char>> {
    match d {
        Dependency::Simple(_) => None,
        Dependency::Detailed(dd) => match dd.git {
            Some(s) => Some(s@),
            None => None,
        },
    }
}

impl Dependency {
    /// The detailed record, if this dependency has one.
    pub fn detail(&self) -> (r: Option<&DependencyDetail>)
        ensures
            match *self {
                Dependency::Simple(_) => r is None,
                Dependency::Detailed(dd) => r matches Some(d) && *d == dd,
            },
    {
        match self {
            Dependency::Simple(_) => None,
            Dependency::Detailed(d) => Some(d),
        }
    }

    /// The version requirement, `"*"` when a detailed record names none.
    pub fn req(&self) -> (r: &str)
        ensures
            r@ == spec_req(*self),
    {
        match self {
            Dependency::Simple(v) => v.as_str(),
            Dependency::Detailed(d) => match &d.version {
                Some(s) => s.as_str(),
                None => "*",
            },
        }
    }

    /// The features the dependency is requested with; empty when none are.
    pub fn req_features(&self) -> (r: &[String])
        ensures
            match *self {
                Dependency::Simple(_) => r@.len() == 0,
                Dependency::Detailed(dd) => match dd.features {
                    Some(f) => r@ == f@,
                    None => r@.len() == 0,
                },
            },
    {
        match self {
            Dependency::Simple(_) => &[],
            Dependency::Detailed(d) => match &d.features {
                Some(f) => f.as_slice(),
                None => &[],
            },
        }
    }

    /// Whether the dependency is marked optional.
    pub fn optional(&self) -> (r: bool)
        ensures
            r == spec_optional(*self),
    {
        match self {
            Dependency::Simple(_) => false,
            Dependency::Detailed(d) => match &d.optional {
                Some(b) => *b,
                None => false,
            },
        }
    }

    /// The package name this dependency renames, if it overrides one; when
    /// absent, the dependency name is the package name.
    pub fn package(&self) -> (r: Option<&str>)
        ensures
            match r {
                Some(s) => spec_package_rename(*self) == Some(s@),
                None => spec_package_rename(*self) is None,
            },
    {
        match self {
            Dependency::Simple(_) => None,
            Dependency::Detailed(d) => match &d.package {
                Some(s) => Some(s.as_str()),
                None => None,
            },
        }
    }

    /// The git URL of this dependency, if any.
    pub fn git(&self) -> (r: Option<&str>)
        ensures
            match r {
                Some(s) => spec_git(*self) == Some(s@),
                None => spec_git(*self) is None,
            },
    {
        match self {
            Dependency::Simple(_) => None,
            Dependency::Detailed(d) => match &d.git {
                Some(s) => Some(s.as_str()),
                None => None,
            },
        }
    }

    /// Whether this is a usual default-registry dependency, rather than one
    /// from a path, git source, or alternative registry.
    pub fn is_crates_io(&self) -> (r: bool)
        ensures
            r == spec_is_crates_io(*self),
    {
        match self {
            Dependency::Simple(_) => true,
            Dependency::Detailed(d) => {
                d.path.is_none() && d.registry.is_none() && d.registry_index.is_none()
                    && d.git.is_none() && d.tag.is_none() && d.branch.is_none() && d.rev.is_none()
            },
        }
    }
}

/// Dependency classification law: a simple dependency always resolves from the
/// default registry; a detailed record with none of the source fields set does
/// too; a git source on a detailed record makes it resolve elsewhere.
pub proof fn lemma_dependency_classification(v: String, d: DependencyDetail)
    ensures
        spec_is_crates_io(Dependency::Simple(v)),
        (d.path is None && d.registry is None && d.registry_index is None && d.git is None
            && d.tag is None && d.branch is None && d.rev is None) ==> spec_is_crates_io(
            Dependency::Detailed(d),
        ),
        d.git is Some ==> !spec_is_crates_io(Dependency::Detailed(d)),
{
}

/// The detailed form of a dependency: version, source (registry, path or git),
/// requested features, and flags.
#[derive(Debug, Clone, PartialEq, Eq)]
pub struct DependencyDetail {
    pub version: Option<String>,
    pub registry: Option<String>,
    pub registry_index: Option<String>,
    pub path: Option<String>,
    pub git: Option<String>,
    pub branch: Option<String>,
    pub tag: Option<String>,
    pub rev: Option<String>,
    pub features: Option<Vec<String>>,
    pub optional: Option<bool>,
    pub workspace: Option<bool>,
    pub default_features: Option<bool>,
    pub package: Option<String>,
}

impl Default for DependencyDetail {
    /// A record with no field set.
    fn default() -> (r: Self)
        ensures
            r == (DependencyDetail {
                version: None,
                registry: None,
                registry_index: None,
                path: None,
                git: None,
                branch: None,
                tag: None,
                rev: None,
                features: None,
                optional: None,
                workspace: None,
                default_features: None,
                package: None,
            }),
    {
        DependencyDetail {
            version: None,
            registry: None,
            registry_index: None,
            path: None,
            git: None,
            branch: None,
            tag: None,
            rev: None,
            features: None,
            optional: None,
            workspace: None,
            default_features: None,
            package: None,
        }
    }
}

/// A manifest value that is either given locally or deferred to the
/// workspace-level default (written as a literal `workspace = true` marker).
#[derive(Debug, Clone, PartialEq, Eq)]
pub enum MaybeInherited<T> {
    Inherited { workspace: True },
    Local(T),
}

impl<T> MaybeInherited<T> {
    /// The inherited-from-workspace marker.
    pub fn inherited() -> (r: Self)
        ensures
            r == (MaybeInherited::<T>::Inherited { workspace: True }),
    {
        MaybeInherited::Inherited { workspace: True }
    }
}

/// A type-level representation of a `true` boolean value: deserializing `false`
/// into it is an error.
#[derive(Debug, Clone, PartialEq, Eq, Structural)]
pub struct True;

/// Either a string or a boolean, as several descriptive fields allow.
#[derive(Debug, Clone, PartialEq, Eq)]
pub enum StringOrBool {
    Str(String),
    Bool(bool),
}

/// Where a package may be published: a plain flag, or a list of allowed
/// registry names.
#[derive(Debug, Clone, PartialEq, Eq)]
pub enum Publish {
    Flag(bool),
    Registry(Vec<String>),
}

/// Equivalence between a publish value and a plain boolean: a flag compares by
/// its value, and a registry list counts as publishable exactly when it is
/// non-empty.
pub open spec fn spec_publish_eq_bool(p: Publish, b: bool) -> bool {
    match p {
        Publish::Flag(f) => f == b,
        Publish::Registry(r) => (r@.len() > 0) == b,
    }
}

impl Publish {
    /// Whether this publish value is equivalent in effect to the plain boolean.
    pub fn eq_bool(&self, b: bool) -> (r: bool)
        ensures
            r == spec_publish_eq_bool(*self, b),
    {
        match self {
            Publish::Flag(f) => *f == b,
            Publish::Registry(r) => !r.is_empty() == b,
        }
    }
}

impl Default for Publish {
    /// Publishable anywhere.
    fn default() -> (r: Self)
        ensures
            r == Publish::Flag(true),
    {
        Publish::Flag(true)
    }
}

/// Publish equivalence law: a non-empty registry list is equivalent to the
/// boolean `true`, and the flag `false` is equivalent to `false` and only to
/// `false`. An empty registry list is left out: it is equivalent in effect to
/// `false`, not `true`.
pub proof fn lemma_publish_equivalence(p: Publish)
    ensures
        (p matches Publish::Registry(r) && r@.len() > 0) ==> spec_publish_eq_bool(p, true)
            && !spec_publish_eq_bool(p, false),
        p == Publish::Flag(false) ==> spec_publish_eq_bool(p, false) && !spec_publish_eq_bool(
            p,
            true,
        ),
{
}

/// One CI or service badge descriptor.
#[derive(Debug, Clone, PartialEq, Eq)]
pub struct Badge {
    pub repository: String,
    pub branch: String,
    pub service: Option<String>,
    pub id: Option<String>,
    pub project_name: Option<String>,
}

/// The badges section; each badge tolerates being malformed and falls back to
/// absent, except the maintenance status, which has a closed vocabulary.
#[derive(Debug, Clone, PartialEq, Eq)]
pub struct Badges {
    pub appveyor: Option<Badge>,
    pub circle_ci: Option<Badge>,
    pub gitlab: Option<Badge>,
    pub travis_ci: Option<Badge>,
    pub codecov: Option<Badge>,
    pub coveralls: Option<Badge>,
    pub is_it_maintained_issue_resolution: Option<Badge>,
    pub is_it_maintained_open_issues: Option<Badge>,
    pub maintenance: Maintenance,
}

impl Default for Badges {
    /// No badge present and the maintenance status unspecified.
    fn default() -> (r: Self)
        ensures
            r == (Badges {
                appveyor: None,
                circle_ci: None,
                gitlab: None,
                travis_ci: None,
                codecov: None,
                coveralls: None,
                is_it_maintained_issue_resolution: None,
                is_it_maintained_open_issues: None,
                maintenance: Maintenance { status: MaintenanceStatus::NoStatus },
            }),
    {
        Badges {
            appveyor: None,
            circle_ci: None,
            gitlab: None,
            travis_ci: None,
            codecov: None,
            coveralls: None,
            is_it_maintained_issue_resolution: None,
            is_it_maintained_open_issues: None,
            maintenance: Maintenance { status: MaintenanceStatus::NoStatus },
        }
    }
}

/// The maintenance badge: its status field alone.
#[derive(Debug, Clone, Copy, PartialEq, Eq, Structural)]
pub struct Maintenance {
    pub status: MaintenanceStatus,
}

impl Default for Maintenance {
    /// The documented default: no status given.
    fn default() -> (r: Self)
        ensures
            r == (Maintenance { status: MaintenanceStatus::NoStatus }),
    {
        Maintenance { status: MaintenanceStatus::NoStatus }
    }
}

/// The closed vocabulary of the maintenance badge; `NoStatus` is the documented
/// default and is written `none` in documents.
#[derive(Debug, Clone, Copy, PartialEq, Eq, Hash, Structural)]
pub enum MaintenanceStatus {
    NoStatus,
    ActivelyDeveloped,
    PassivelyMaintained,
    AsIs,
    Experimental,
    LookingForMaintainer,
    Deprecated,
}

impl Default for MaintenanceStatus {
    fn default() -> (r: Self)
        ensures
            r == MaintenanceStatus::NoStatus,
    {
        MaintenanceStatus::NoStatus
    }
}

/// The language edition a package or product is compiled with.
#[derive(Debug, Clone, Copy, PartialEq, Eq, Hash, Structural)]
pub enum Edition {
    E2015,
    E2018,
    E2021,
}

impl Default for Edition {
    /// The oldest supported edition.
    fn default() -> (r: Self)
        ensures
            r == Edition::E2015,
    {
        Edition::E2015
    }
}

/// The dependency-version resolution mode of a workspace.
#[derive(Debug, Clone, Copy, PartialEq, Eq, Hash, Structural)]
pub enum Resolver {
    V1,
    V2,
}

impl Default for Resolver {
    fn default() -> (r: Self)
        ensures
            r == Resolver::V1,
    {
        Resolver::V1
    }
}

/// Build-tuning knobs of one profile, plus per-package overrides and an
/// override for build scripts; several knobs are open-ended document values.
#[derive(Debug, Clone, PartialEq, Eq)]
pub struct Profile {
    pub opt_level: Option<TomlValue>,
    pub debug: Option<TomlValue>,
    pub rpath: Option<bool>,
    pub inherits: Option<String>,
    pub lto: Option<TomlValue>,
    pub debug_assertions: Option<bool>,
    pub codegen_units: Option<u16>,
    pub panic: Option<String>,
    pub incremental: Option<bool>,
    pub overflow_checks: Option<bool>,
    pub package: Vec<(String, TomlValue)>,
    pub build_override: Option<TomlValue>,
}

/// The profiles section: the five conventional profiles and any custom ones.
#[derive(Debug, Clone, PartialEq, Eq)]
pub struct Profiles {
    pub release: Option<Profile>,
    pub dev: Option<Profile>,
    pub test: Option<Profile>,
    pub bench: Option<Profile>,
    pub doc: Option<Profile>,
    pub custom: Vec<(String, Profile)>,
}

} // verus!
