use cargo_toml::AbstractFilesystem;
use cargo_toml::Dependency;
use cargo_toml::DependencyDetail;
use cargo_toml::Edition;
use cargo_toml::Error;
use cargo_toml::Manifest;
use cargo_toml::MaybeInherited;
use cargo_toml::Product;
use cargo_toml::Publish;
use cargo_toml::Resolver;
use cargo_toml::StubFilesystem;
use cargo_toml::TomlValue;

fn stub(dirs: Vec<(&str, Vec<&str>)>) -> StubFilesystem {
    StubFilesystem {
        dirs: dirs
            .into_iter()
            .map(|(d, es)| (d.to_string(), es.into_iter().map(|e| e.to_string()).collect()))
            .collect(),
        broken: vec![],
    }
}

fn basic_manifest(extra: &str) -> Manifest {
    let text = format!("[package]\nname = \"demo\"\nversion = \"1.0.0\"\n{}", extra);
    Manifest::from_slice(text.as_bytes()).unwrap()
}

#[test]
fn parses_package_identity() {
    let m = basic_manifest("");
    let p = m.package.as_ref().unwrap();
    assert_eq!(p.name, "demo");
    assert_eq!(p.version, MaybeInherited::Local("1.0.0".to_string()));
    assert!(p.autobins && p.autoexamples && p.autotests && p.autobenches);
    assert!(m.workspace.is_none());
    assert!(m.lib.is_none());
}

#[test]
fn parses_dependencies() {
    let m = basic_manifest(
        "[dependencies]\nserde = \"1.0\"\nother = { version = \"0.3\", optional = true, features = [\"x\"] }\n",
    );
    let deps = m.dependencies.as_ref().unwrap();
    assert_eq!(deps.len(), 2);
    let (name, simple) = &deps[1];
    assert_eq!(name, "serde");
    assert_eq!(simple.req(), "1.0");
    assert!(simple.is_crates_io());
    assert!(!simple.optional());
    let (oname, detailed) = &deps[0];
    assert_eq!(oname, "other");
    assert_eq!(detailed.req(), "0.3");
    assert!(detailed.optional());
    assert_eq!(detailed.req_features(), &["x".to_string()]);
}

#[test]
fn dependency_classification() {
    let simple = Dependency::Simple("1.0".to_string());
    assert!(simple.is_crates_io());
    let bare = DependencyDetail {
        version: Some("1.0".to_string()),
        ..DependencyDetail::default()
    };
    assert!(Dependency::Detailed(bare.clone()).is_crates_io());
    let git = DependencyDetail {
        git: Some("https://example.invalid/repo".to_string()),
        ..bare
    };
    let gd = Dependency::Detailed(git);
    assert!(!gd.is_crates_io());
    assert_eq!(gd.git(), Some("https://example.invalid/repo"));
    assert_eq!(gd.package(), None);
}

#[test]
fn dependency_req_defaults_to_wildcard() {
    let d = Dependency::Detailed(DependencyDetail::default());
    assert_eq!(d.req(), "*");
    assert_eq!(d.req_features(), &[] as &[String]);
    assert!(d.detail().is_some());
}

#[test]
fn publish_equivalence() {
    assert!(Publish::Flag(true).eq_bool(true));
    assert!(Publish::Flag(false).eq_bool(false));
    assert!(!Publish::Flag(false).eq_bool(true));
    assert!(Publish::Registry(vec!["reg".to_string()]).eq_bool(true));
    assert!(!Publish::Registry(vec!["reg".to_string()]).eq_bool(false));
    assert!(Publish::Registry(vec![]).eq_bool(false));
    assert_eq!(Publish::default(), Publish::Flag(true));
}

#[test]
fn legacy_fallback_project_section() {
    let m = Manifest::from_slice(b"[project]\nname = \"old\"\nversion = \"0.1.0\"\n").unwrap();
    let p = m.package.unwrap();
    assert_eq!(p.name, "old");
    assert_eq!(p.version, MaybeInherited::Local("0.1.0".to_string()));
}

#[test]
fn legacy_fallback_document_root() {
    let m = Manifest::from_slice(b"name = \"bare\"\nversion = \"0.2.0\"\n").unwrap();
    let p = m.package.unwrap();
    assert_eq!(p.name, "bare");
    assert_eq!(p.version, MaybeInherited::Local("0.2.0".to_string()));
}

#[test]
fn utf8_error_kind() {
    let err = Manifest::from_slice(&[0xff, 0xfe, 0x00]).unwrap_err();
    assert!(matches!(err, Error::Utf8(_)));
}

#[test]
fn syntax_error_kind() {
    let err = Manifest::from_slice(b"[package\nname = ").unwrap_err();
    assert!(matches!(err, Error::Parse(_)));
    assert!(!err.message().is_empty());
}

#[test]
fn missing_version_is_rejected() {
    let err = Manifest::from_slice(b"[package]\nname = \"x\"\n").unwrap_err();
    assert!(matches!(err, Error::Parse(_)));
}

#[test]
fn workspace_marker_parses_as_inherited() {
    let m = basic_manifest("edition.workspace = true\n");
    let p = m.package.unwrap();
    assert_eq!(p.edition, Some(MaybeInherited::inherited()));
}

#[test]
fn workspace_marker_false_is_rejected() {
    let err =
        Manifest::from_slice(b"[package]\nname = \"x\"\nversion = \"1\"\nedition = { workspace = false }\n")
            .unwrap_err();
    assert!(matches!(err, Error::Parse(_)));
}

#[test]
fn workspace_section() {
    let m = Manifest::from_slice(
        b"[workspace]\nmembers = [\"a\", \"b\"]\nresolver = \"2\"\n",
    )
    .unwrap();
    let w = m.workspace.unwrap();
    assert_eq!(w.members, vec!["a".to_string(), "b".to_string()]);
    assert_eq!(w.resolver, Some(Resolver::V2));
    assert!(m.package.is_none());
}

#[test]
fn auto_scan_binaries() {
    let mut m = basic_manifest("");
    let fs = stub(vec![
        ("src", vec!["main.rs"]),
        ("src/bin", vec!["tool.rs", "helper"]),
        ("src/bin/helper", vec!["main.rs"]),
    ]);
    m.complete_from_abstract_filesystem(&fs).unwrap();
    let bins = m.bin.as_ref().unwrap();
    assert_eq!(bins.len(), 3);
    assert_eq!(bins[0].name.as_deref(), Some("tool"));
    assert_eq!(bins[0].path.as_deref(), Some("src/bin/tool.rs"));
    assert_eq!(bins[1].name.as_deref(), Some("helper"));
    assert_eq!(bins[1].path.as_deref(), Some("src/bin/helper/main.rs"));
    assert_eq!(bins[2].name.as_deref(), Some("demo"));
    assert_eq!(bins[2].path.as_deref(), Some("src/main.rs"));
}

#[test]
fn directory_not_found_is_not_an_error() {
    let mut m = basic_manifest("");
    let fs = stub(vec![]);
    assert!(m.complete_from_abstract_filesystem(&fs).is_ok());
    assert!(m.lib.is_none());
    assert_eq!(m.bin.as_ref().unwrap().len(), 0);
    assert_eq!(m.test.as_ref().unwrap().len(), 0);
}

#[test]
fn library_synthesis() {
    let mut m = basic_manifest("edition = \"2021\"\n");
    let fs = stub(vec![("src", vec!["lib.rs"]), (".", vec!["build.rs"])]);
    m.complete_from_abstract_filesystem(&fs).unwrap();
    let lib = m.lib.as_ref().unwrap();
    assert_eq!(lib.name.as_deref(), Some("demo"));
    assert_eq!(lib.path.as_deref(), Some("src/lib.rs"));
    assert_eq!(lib.edition, Some(Edition::E2021));
    assert_eq!(lib.crate_type, Some(vec!["rlib".to_string()]));
    assert!(lib.test && lib.doctest && lib.harness && !lib.plugin);
    let p = m.package.as_ref().unwrap();
    assert_eq!(p.build, Some(TomlValue::Str("build.rs".to_string())));
}

#[test]
fn dashes_become_underscores_in_library_name() {
    let mut m = Manifest::from_slice(b"[package]\nname = \"two-words\"\nversion = \"1\"\n").unwrap();
    let fs = stub(vec![("src", vec!["lib.rs"])]);
    m.complete_from_abstract_filesystem(&fs).unwrap();
    assert_eq!(m.lib.as_ref().unwrap().name.as_deref(), Some("two_words"));
}

#[test]
fn explicit_lib_required_features_cleared() {
    let mut m = basic_manifest("[lib]\nrequired-features = [\"gate\"]\n");
    assert_eq!(m.lib.as_ref().unwrap().required_features.len(), 1);
    let fs = stub(vec![("src", vec!["lib.rs"])]);
    m.complete_from_abstract_filesystem(&fs).unwrap();
    assert!(m.lib.as_ref().unwrap().required_features.is_empty());
}

#[test]
fn autobins_false_leaves_bins_unset() {
    let mut m = basic_manifest("autobins = false\n");
    let fs = stub(vec![("src", vec!["main.rs"])]);
    m.complete_from_abstract_filesystem(&fs).unwrap();
    assert!(m.bin.is_none());
}

#[test]
fn completion_is_idempotent() {
    let mut m = basic_manifest("");
    let fs = stub(vec![
        ("src", vec!["lib.rs", "main.rs"]),
        ("examples", vec!["demo.rs"]),
        (".", vec!["build.rs"]),
    ]);
    m.complete_from_abstract_filesystem(&fs).unwrap();
    let once = m.clone();
    m.complete_from_abstract_filesystem(&fs).unwrap();
    assert_eq!(m, once);
}

#[test]
fn completion_without_package_is_noop() {
    let mut m = Manifest::from_slice(b"[workspace]\nmembers = []\n").unwrap();
    let before = m.clone();
    let fs = stub(vec![("src", vec!["lib.rs"])]);
    m.complete_from_abstract_filesystem(&fs).unwrap();
    assert_eq!(m, before);
}

#[test]
fn stub_filesystem_listing() {
    let fs = stub(vec![("src", vec!["lib.rs"])]);
    assert_eq!(fs.file_names_in("src").unwrap(), vec!["lib.rs".to_string()]);
    assert!(fs.file_names_in("tests").is_err());
}

#[test]
fn product_defaults() {
    let p = Product::default();
    assert!(p.test && p.doctest && p.bench && p.doc && p.harness);
    assert!(!p.plugin && !p.proc_macro);
    assert!(p.required_features.is_empty());
    assert_eq!(p.edition, Some(Edition::E2015));
    assert_eq!(Edition::default(), Edition::E2015);
    assert_eq!(Resolver::default(), Resolver::V1);
}

#[test]
fn roundtrip_through_document_value() {
    let text = b"[package]\nname = \"demo\"\nversion = \"1.0.0\"\nedition = \"2018\"\nautobins = false\n\n[dependencies]\nserde = \"1.0\"\nlocal = { path = \"../local\", default-features = false }\n\n[lib]\nname = \"demo\"\npath = \"src/lib.rs\"\n\n[features]\ndefault = [\"std\"]\nstd = []\n\n[profile.release]\nopt-level = 3\nlto = true\n\n[badges]\nmaintenance = { status = \"actively-developed\" }\n";
    let m = Manifest::from_slice(text).unwrap();
    let doc = m.to_toml_value();
    let m2 = Manifest::from_toml_value(&doc).unwrap();
    assert_eq!(m, m2);
}

#[test]
fn roundtrip_of_constructed_dependency() {
    let mut m = Manifest::from_slice(b"[package]\nname = \"d\"\nversion = \"1\"\n").unwrap();
    m.dependencies = Some(vec![(
        "dep".to_string(),
        Dependency::Detailed(DependencyDetail {
            version: Some("2.1".to_string()),
            features: Some(vec!["a".to_string(), "b".to_string()]),
            optional: Some(true),
            ..DependencyDetail::default()
        }),
    )]);
    let doc = m.to_toml_value();
    let m2 = Manifest::from_toml_value(&doc).unwrap();
    assert_eq!(m, m2);
}

#[test]
fn serialization_omits_absent_sections() {
    let m = Manifest::from_slice(b"[package]\nname = \"d\"\nversion = \"1\"\n").unwrap();
    let doc = m.to_toml_value();
    match &doc {
        TomlValue::Table(entries) => {
            assert!(entries.iter().all(|(k, _)| k == "package"));
        }
        _ => panic!("expected a table"),
    }
}

#[test]
fn profiles_parse_with_custom_profile() {
    let m = basic_manifest(
        "[profile.release]\ncodegen-units = 1\n\n[profile.fast]\ninherits = \"release\"\n",
    );
    let pr = m.profile.as_ref().unwrap();
    assert_eq!(pr.release.as_ref().unwrap().codegen_units, Some(1));
    assert_eq!(pr.custom.len(), 1);
    assert_eq!(pr.custom[0].0, "fast");
    assert_eq!(pr.custom[0].1.inherits.as_deref(), Some("release"));
}

#[test]
fn malformed_badge_falls_back_to_absent() {
    let m = basic_manifest("[badges]\nappveyor = { branch = \"main\" }\n");
    let b = m.badges.as_ref().unwrap();
    assert!(b.appveyor.is_none());
    assert_eq!(
        b.maintenance,
        cargo_toml::Maintenance { status: cargo_toml::MaintenanceStatus::NoStatus }
    );
}

#[test]
fn badge_branch_defaults_to_master() {
    let m = basic_manifest("[badges]\ntravis-ci = { repository = \"u/p\" }\n");
    let b = m.badges.as_ref().unwrap();
    let badge = b.travis_ci.as_ref().unwrap();
    assert_eq!(badge.repository, "u/p");
    assert_eq!(badge.branch, "master");
}

#[test]
fn filesystem_error_aborts_completion() {
    let mut fs = stub(vec![("src", vec!["lib.rs"])]);
    fs.broken.push("src/bin".to_string());
    let mut m = Manifest::from_slice(b"[package]\nname = \"d\"\nversion = \"1\"\n").unwrap();
    let err = m.complete_from_abstract_filesystem(&fs).unwrap_err();
    assert!(matches!(err, Error::Io(_)));
    assert!(m.lib.is_some());
    assert!(m.bin.is_none());
}

#[test]
fn metadata_is_kept_as_document_value() {
    let m = basic_manifest("[package.metadata.tooling]\nkey = 7\n");
    let p = m.package.as_ref().unwrap();
    match p.metadata.as_ref().unwrap() {
        TomlValue::Table(entries) => {
            assert_eq!(entries[0].0, "tooling");
        }
        _ => panic!("expected a metadata table"),
    }
}
