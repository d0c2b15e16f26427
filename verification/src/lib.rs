//! Typed model of a package manifest: the `[package]`, dependency, build-product,
//! profile, workspace and badge sections, a loader that binds a parsed TOML
//! document to that model (with a legacy fallback for manifests that lack a
//! `[package]` header), and a completion engine that fills in product lists and
//! the build-script reference from directory-naming conventions.

pub mod strutil;
pub mod error;
pub mod toml_doc;
pub mod model;
pub mod afs;
pub mod complete;
pub mod de;
pub mod load;
pub mod ser;

pub use error::Error;
pub use toml_doc::TomlValue;
pub use afs::AbstractFilesystem;
pub use afs::StubFilesystem;
pub use afs::FsError;
pub use afs::DirSnapshot;
pub use complete::completes_to;
pub use complete::completion_stage;
pub use complete::lemma_completion_idempotent;
pub use load::lemma_legacy_fallback;
pub use ser::lemma_sections_preserved;
pub use ser::manifest_wf;
pub use model::lemma_publish_equivalence;
pub use model::lemma_dependency_classification;
pub use model::Manifest;
pub use model::Workspace;
pub use model::WorkspacePackage;
pub use model::Package;
pub use model::Product;
pub use model::Profiles;
pub use model::Profile;
pub use model::Target;
pub use model::Dependency;
pub use model::DependencyDetail;
pub use model::MaybeInherited;
pub use model::True;
pub use model::StringOrBool;
pub use model::Publish;
pub use model::Badge;
pub use model::Badges;
pub use model::Maintenance;
pub use model::MaintenanceStatus;
pub use model::Edition;
pub use model::Resolver;
pub use model::DepsSet;
pub use model::TargetDepsSet;
pub use model::FeatureSet;
pub use model::PatchSet;
