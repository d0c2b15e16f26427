use vstd::prelude::*;
use vstd::string::StrSliceExecFns;
use vstd::string::StringExecFns;
use crate::afs::AbstractFilesystem;
use crate::afs::DirSnapshot;
use crate::afs::FsError;
use crate::error::Error;
use crate::model::Edition;
use crate::model::Manifest;
use crate::model::MaybeInherited;
use crate::model::Package;
use crate::model::Product;
use crate::model::product_defaults;
use crate::strutil::contains_name;
use crate::strutil::dash_to_underscore;
use crate::strutil::dashes_to_underscores;
use crate::strutil::ends_with_rs;
use crate::strutil::ends_with_rs_spec;
use crate::strutil::join_slash;
use crate::strutil::seq_contains_str;
use crate::strutil::strip_rs;
use crate::toml_doc::TomlValue;

verus! {

/// The directory views an abstract filesystem presents, as one spec-level
/// lookup from paths to snapshots.
pub open spec fn view_of<FS: AbstractFilesystem>(fs: &FS) -> spec_fn(Seq<char>) -> DirSnapshot {
    |path: Seq<char>| fs.dir_view(path)
}

/// The entry names of a snapshot, with a not-found condition normalized to no
/// entries.
pub open spec fn entries_of(s: DirSnapshot) -> Seq<Seq<char>> {
    match s {
        DirSnapshot::Found(es) => es,
        _ => Seq::empty(),
    }
}

/// The package's locally-declared edition; an inherited or absent edition
/// yields nothing, so synthesized products never inherit one.
pub open spec fn local_edition(p: Package) -> Option<Edition> {
    match p.edition {
        Some(MaybeInherited::Local(e)) => Some(e),
        _ => None,
    }
}

/// A product synthesized from disk: the given name and path, the package's
/// local edition, and every other field as default construction leaves it.
pub open spec fn synth_product(
    pr: Product,
    name: Seq<char>,
    path: Seq<char>,
    ed: Option<Edition>,
) -> bool {
    &&& pr.name matches Some(n) && n@ == name
    &&& pr.path matches Some(pa) && pa@ == path
    &&& pr.edition == ed
    &&& product_defaults(pr)
    &&& pr.crate_type is None
}

/// The synthesized library product: named after the package with dashes
/// replaced by underscores, at the conventional path, with the default library
/// crate type.
pub open spec fn synth_lib(pr: Product, pkg_name: Seq<char>, ed: Option<Edition>) -> bool {
    &&& pr.name matches Some(n) && n@ == dashes_to_underscores(pkg_name)
    &&& pr.path matches Some(pa) && pa@ == "src/lib.rs"@
    &&& pr.edition == ed
    &&& product_defaults(pr)
    &&& pr.crate_type matches Some(ct) && ct@.len() == 1 && ct@[0]@ == "rlib"@
}

/// Scanning the directory fails: the directory listing itself fails, or some
/// entry that is not a source file has a subdirectory listing that fails.
pub open spec fn autoset_aborts(dir: Seq<char>, f: spec_fn(Seq<char>) -> DirSnapshot) -> bool {
    match f(dir) {
        DirSnapshot::Failure(_) => true,
        DirSnapshot::Absent => false,
        DirSnapshot::Found(es) => exists|i: int|
            0 <= i < es.len() && !ends_with_rs_spec(#[trigger] es[i]) && f(
                dir + "/"@ + es[i],
            ) is Failure,
    }
}

/// The products the scan of the listed entries synthesizes, in entry order:
/// one per source file, named by stripping the extension, and one per
/// subdirectory that contains `main.rs`, named after the subdirectory; every
/// other entry is skipped.
pub open spec fn autoset_rel(
    dir: Seq<char>,
    ed: Option<Edition>,
    f: spec_fn(Seq<char>) -> DirSnapshot,
    es: Seq<Seq<char>>,
    ps: Seq<Product>,
) -> bool
    decreases es.len(),
{
    if es.len() == 0 {
        ps.len() == 0
    } else {
        let e = es.last();
        let front = es.drop_last();
        if ends_with_rs_spec(e) {
            &&& ps.len() >= 1
            &&& synth_product(ps.last(), e.subrange(0, e.len() - 3), dir + "/"@ + e, ed)
            &&& autoset_rel(dir, ed, f, front, ps.drop_last())
        } else {
            match f(dir + "/"@ + e) {
                DirSnapshot::Found(sub) => if seq_contains_str(sub, "main.rs"@) {
                    &&& ps.len() >= 1
                    &&& synth_product(ps.last(), e, dir + "/"@ + e + "/main.rs"@, ed)
                    &&& autoset_rel(dir, ed, f, front, ps.drop_last())
                } else {
                    autoset_rel(dir, ed, f, front, ps)
                },
                DirSnapshot::Absent => autoset_rel(dir, ed, f, front, ps),
                DirSnapshot::Failure(_) => false,
            }
        }
    }
}

/// The products the shared auto-scan rule yields for the directory: a
/// not-found condition yields none.
pub open spec fn autoset_products(
    dir: Seq<char>,
    ed: Option<Edition>,
    f: spec_fn(Seq<char>) -> DirSnapshot,
    ps: Seq<Product>,
) -> bool {
    match f(dir) {
        DirSnapshot::Found(es) => autoset_rel(dir, ed, f, es, ps),
        DirSnapshot::Absent => ps.len() == 0,
        DirSnapshot::Failure(_) => false,
    }
}

/// The scanned binary list: the auto-scan of `src/bin`, and, when `src` holds
/// `main.rs`, one more binary named after the package at the end.
pub open spec fn bin_list_rel(
    src: Seq<Seq<char>>,
    ed: Option<Edition>,
    f: spec_fn(Seq<char>) -> DirSnapshot,
    pkg_name: Seq<char>,
    bs: Seq<Product>,
) -> bool {
    if seq_contains_str(src, "main.rs"@) {
        &&& bs.len() >= 1
        &&& autoset_products("src/bin"@, ed, f, bs.drop_last())
        &&& synth_product(bs.last(), pkg_name, "src/main.rs"@, ed)
    } else {
        autoset_products("src/bin"@, ed, f, bs)
    }
}

/// The package root holds a `build.rs` file.
pub open spec fn root_has_build(f: spec_fn(Seq<char>) -> DirSnapshot) -> bool {
    f("."@) matches DirSnapshot::Found(es) && seq_contains_str(es, "build.rs"@)
}

/// Every section completion does not touch, unchanged.
pub open spec fn frame_eq(a: Manifest, b: Manifest) -> bool {
    &&& a.cargo_features == b.cargo_features
    &&& a.workspace == b.workspace
    &&& a.dependencies == b.dependencies
    &&& a.dev_dependencies == b.dev_dependencies
    &&& a.build_dependencies == b.build_dependencies
    &&& a.target == b.target
    &&& a.features == b.features
    &&& a.patch == b.patch
    &&& a.profile == b.profile
    &&& a.badges == b.badges
}

/// Every package field but the build-script reference, unchanged.
pub open spec fn package_eq_except_build(a: Package, b: Package) -> bool {
    &&& a.name == b.name
    &&& a.edition == b.edition
    &&& a.version == b.version
    &&& a.workspace == b.workspace
    &&& a.authors == b.authors
    &&& a.links == b.links
    &&& a.description == b.description
    &&& a.homepage == b.homepage
    &&& a.documentation == b.documentation
    &&& a.readme == b.readme
    &&& a.keywords == b.keywords
    &&& a.categories == b.categories
    &&& a.license == b.license
    &&& a.license_file == b.license_file
    &&& a.repository == b.repository
    &&& a.metadata == b.metadata
    &&& a.rust_version == b.rust_version
    &&& a.exclude == b.exclude
    &&& a.include_files == b.include_files
    &&& a.default_run == b.default_run
    &&& a.autobins == b.autobins
    &&& a.autoexamples == b.autoexamples
    &&& a.autotests == b.autotests
    &&& a.autobenches == b.autobenches
    &&& a.publish == b.publish
    &&& a.resolver == b.resolver
}

/// Every product field but the required-features list, unchanged.
pub open spec fn product_eq_except_rf(a: Product, b: Product) -> bool {
    &&& a.path == b.path
    &&& a.name == b.name
    &&& a.test == b.test
    &&& a.doctest == b.doctest
    &&& a.bench == b.bench
    &&& a.doc == b.doc
    &&& a.plugin == b.plugin
    &&& a.proc_macro == b.proc_macro
    &&& a.harness == b.harness
    &&& a.edition == b.edition
    &&& a.crate_type == b.crate_type
}

/// The library step: an explicit library keeps every field but has its
/// required-features list cleared (a library cannot be gated by required
/// features); otherwise a `lib.rs` under `src` synthesizes the library, and
/// without one there is none.
pub open spec fn lib_rel(
    old_lib: Option<Product>,
    src: Seq<Seq<char>>,
    pkg_name: Seq<char>,
    ed: Option<Edition>,
    new_lib: Option<Product>,
) -> bool {
    match old_lib {
        Some(l) => new_lib matches Some(l2) && product_eq_except_rf(l2, l)
            && l2.required_features@.len() == 0,
        None => if seq_contains_str(src, "lib.rs"@) {
            new_lib matches Some(l2) && synth_lib(l2, pkg_name, ed)
        } else {
            new_lib is None
        },
    }
}

/// Where completion stops: 0 when it runs to the end, otherwise the step whose
/// directory listing failed (1 `src`, 2 the binary scan, 3 examples, 4 tests,
/// 5 benchmarks, 6 the package root). A not-found condition never stops it.
pub open spec fn completion_stage(m: Manifest, f: spec_fn(Seq<char>) -> DirSnapshot) -> int {
    match m.package {
        None => 0,
        Some(p) => {
            if f("src"@) is Failure {
                1
            } else if p.autobins && m.bin is None && autoset_aborts("src/bin"@, f) {
                2
            } else if p.autoexamples && m.example is None && autoset_aborts("examples"@, f) {
                3
            } else if p.autotests && m.test is None && autoset_aborts("tests"@, f) {
                4
            } else if p.autobenches && m.bench is None && autoset_aborts("benches"@, f) {
                5
            } else if p.build is None && f("."@) is Failure {
                6
            } else {
                0
            }
        },
    }
}

/// How completion rewrites the manifest `m` into `r` against the directory
/// views `f`: a no-op without a package; otherwise the library step, then each
/// product category that its auto flag allows and that no explicit list
/// pre-empts, then the build-script reference. A listing failure stops the
/// run at its step, and what earlier steps wrote stands.
pub open spec fn completes_to(
    m: Manifest,
    f: spec_fn(Seq<char>) -> DirSnapshot,
    r: Manifest,
) -> bool {
    let st = completion_stage(m, f);
    if m.package is None {
        r == m
    } else if st == 1 {
        r == m
    } else {
        let p = m.package->Some_0;
        let src = entries_of(f("src"@));
        let ed = local_edition(p);
        &&& frame_eq(r, m)
        &&& r.package matches Some(q) && package_eq_except_build(q, p)
        &&& lib_rel(m.lib, src, p.name@, ed, r.lib)
        &&& if (st == 0 || st > 2) && p.autobins && m.bin is None {
            r.bin matches Some(bs) && bin_list_rel(src, ed, f, p.name@, bs@)
        } else {
            r.bin == m.bin
        }
        &&& if (st == 0 || st > 3) && p.autoexamples && m.example is None {
            r.example matches Some(es) && autoset_products("examples"@, ed, f, es@)
        } else {
            r.example == m.example
        }
        &&& if (st == 0 || st > 4) && p.autotests && m.test is None {
            r.test matches Some(ts) && autoset_products("tests"@, ed, f, ts@)
        } else {
            r.test == m.test
        }
        &&& if (st == 0 || st > 5) && p.autobenches && m.bench is None {
            r.bench matches Some(bs) && autoset_products("benches"@, ed, f, bs@)
        } else {
            r.bench == m.bench
        }
        &&& if st == 0 && p.build is None && root_has_build(f) {
            (r.package->Some_0).build matches Some(b) && b matches TomlValue::Str(s) && s@
                == "build.rs"@
        } else {
            (r.package->Some_0).build == p.build
        }
    }
}

/// One product synthesized from a source-file or subdirectory entry.
fn make_synth(name: String, path: String, ed: Option<Edition>) -> (r: Product)
    ensures
        synth_product(r, name@, path@, ed),
{
    let mut p = Product::default();
    p.name = Some(name);
    p.path = Some(path);
    p.edition = ed;
    p
}

/// The shared auto-scan rule over one conventional directory.
fn autoset<FS: AbstractFilesystem>(ed: Option<Edition>, dir: &str, fs: &FS) -> (r: Result<
    Vec<Product>,
    Error,
>)
    ensures
        match r {
            Ok(ps) => !autoset_aborts(dir@, view_of(fs)) && autoset_products(
                dir@,
                ed,
                view_of(fs),
                ps@,
            ),
            Err(e) => autoset_aborts(dir@, view_of(fs)) && e is Io,
        },
{
    proof {
        assert(forall|p: Seq<char>| #[trigger] view_of(fs)(p) == fs.dir_view(p));
    }
    let entries = match fs.file_names_in(dir) {
        Ok(v) => v,
        Err(FsError::NotFound) => {
            return Ok(Vec::new());
        },
        Err(FsError::Other(msg)) => {
            return Err(Error::Io(msg));
        },
    };
    let ghost es: Seq<Seq<char>> = entries.deep_view();
    let ghost f = view_of(fs);
    let mut out: Vec<Product> = Vec::new();
    let mut i: usize = 0;
    while i < entries.len()
        invariant
            f == view_of(fs),
            f(dir@) == DirSnapshot::Found(es),
            es == entries.deep_view(),
            i <= entries@.len(),
            es.len() == entries@.len(),
            forall|j: int|
                0 <= j < i ==> !(!ends_with_rs_spec(#[trigger] es[j]) && f(
                    dir@ + "/"@ + es[j],
                ) is Failure),
            autoset_rel(dir@, ed, f, es.take(i as int), out@),
        decreases entries@.len() - i,
    {
        let name = &entries[i];
        proof {
            assert(es[i as int] == name@);
            assert(es.take(i + 1 as int).drop_last() =~= es.take(i as int));
            assert(es.take(i + 1 as int).last() == es[i as int]);
        }
        if ends_with_rs(name.as_str()) {
            let stem = strip_rs(name.as_str());
            let path = join_slash(dir, name.as_str());
            let p = make_synth(stem, path, ed);
            let ghost out0 = out@;
            out.push(p);
            proof {
                assert(out@.drop_last() =~= out0);
                assert(autoset_rel(dir@, ed, f, es.take(i + 1 as int), out@));
            }
        } else {
            let rel_path = join_slash(dir, name.as_str());
            match fs.file_names_in(rel_path.as_str()) {
                Ok(sub) => {
                    if contains_name(&sub, "main.rs") {
                        let mut path = rel_path;
                        path.append("/main.rs");
                        let p = make_synth(name.clone(), path, ed);
                        let ghost out0 = out@;
                        out.push(p);
                        proof {
                            assert(out@.drop_last() =~= out0);
                            assert(autoset_rel(dir@, ed, f, es.take(i + 1 as int), out@));
                        }
                    } else {
                        proof {
                            assert(autoset_rel(dir@, ed, f, es.take(i + 1 as int), out@));
                        }
                    }
                },
                Err(FsError::NotFound) => {
                    proof {
                        assert(autoset_rel(dir@, ed, f, es.take(i + 1 as int), out@));
                    }
                },
                Err(FsError::Other(msg)) => {
                    proof {
                        assert(!ends_with_rs_spec(es[i as int]) && f(
                            dir@ + "/"@ + es[i as int],
                        ) is Failure);
                    }
                    return Err(Error::Io(msg));
                },
            }
        }
        i = i + 1;
    }
    proof {
        assert(es.take(es.len() as int) =~= es);
    }
    Ok(out)
}

impl Manifest {
    /// Fill in the product lists and build-script reference the manifest
    /// leaves implicit, from the directory conventions the filesystem shows.
    ///
    /// Operates only when a package is present. A not-found condition on a
    /// conventional directory yields no products and is not an error; any
    /// other listing failure stops the run there and is returned, and what
    /// earlier steps wrote stands.
    pub fn complete_from_abstract_filesystem<FS: AbstractFilesystem>(&mut self, fs: &FS) -> (r:
        Result<(), Error>)
        ensures
            completes_to(*old(self), view_of(fs), *final(self)),
            (r is Err) == (completion_stage(*old(self), view_of(fs)) != 0),
            r matches Err(e) ==> e is Io,
    {
        let ghost f = view_of(fs);
        let ghost m = *old(self);
        proof {
            assert(forall|p: Seq<char>| #[trigger] view_of(fs)(p) == fs.dir_view(p));
        }
        if self.package.is_none() {
            return Ok(());
        }
        let src = match fs.file_names_in("src") {
            Ok(v) => v,
            Err(FsError::NotFound) => Vec::new(),
            Err(FsError::Other(msg)) => {
                return Err(Error::Io(msg));
            },
        };
        proof {
            assert(src.deep_view() =~= entries_of(f("src"@)));
        }
        let (name, ed, autobins, autoexamples, autotests, autobenches, build_missing): (
            String,
            Option<Edition>,
            bool,
            bool,
            bool,
            bool,
            bool,
        ) = match &self.package {
            Some(p) => {
                let e: Option<Edition> = match &p.edition {
                    Some(MaybeInherited::Local(ed0)) => Some(*ed0),
                    _ => None,
                };
                (
                    p.name.clone(),
                    e,
                    p.autobins,
                    p.autoexamples,
                    p.autotests,
                    p.autobenches,
                    p.build.is_none(),
                )
            },
            None => {
                return Ok(());
            },
        };
        // Library step.
        if self.lib.is_some() {
            let mut l = self.lib.take().unwrap();
            l.required_features = Vec::new();
            self.lib = Some(l);
        } else {
            if contains_name(&src, "lib.rs") {
                let mut l = Product::default();
                l.name = Some(dash_to_underscore(name.as_str()));
                l.path = Some("src/lib.rs".to_owned());
                l.edition = ed;
                let mut ct: Vec<String> = Vec::new();
                ct.push("rlib".to_owned());
                l.crate_type = Some(ct);
                self.lib = Some(l);
            }
        }
        // Binaries.
        if autobins && self.bin.is_none() {
            let mut bins = match autoset(ed, "src/bin", fs) {
                Ok(b) => b,
                Err(e) => {
                    proof {
                        assert(completion_stage(m, f) == 2);
                        let p = m.package->Some_0;
                        assert(frame_eq(*self, m));
                        assert(self.package matches Some(q) && package_eq_except_build(q, p));
                        assert(lib_rel(m.lib, entries_of(f("src"@)), p.name@, local_edition(p), self.lib));
                        assert(completes_to(m, f, *self));
                    }
                    return Err(e);
                },
            };
            if contains_name(&src, "main.rs") {
                let b = make_synth(name.clone(), "src/main.rs".to_owned(), ed);
                let ghost bins0 = bins@;
                bins.push(b);
                proof {
                    assert(bins@.drop_last() =~= bins0);
                    assert(bins@.last() == b);
                }
            }
            self.bin = Some(bins);
            proof {
                let p = m.package->Some_0;
                assert(self.bin matches Some(bs) && bin_list_rel(
                    entries_of(f("src"@)),
                    local_edition(p),
                    f,
                    p.name@,
                    bs@,
                ));
            }
        }
        // Examples, tests, benchmarks.
        if autoexamples && self.example.is_none() {
            match autoset(ed, "examples", fs) {
                Ok(ps) => {
                    self.example = Some(ps);
                    proof {
                        let p = m.package->Some_0;
                        assert(self.example matches Some(es2) && autoset_products(
                            "examples"@,
                            local_edition(p),
                            f,
                            es2@,
                        ));
                    }
                },
                Err(e) => {
                    proof {
                        assert(completion_stage(m, f) == 3);
                        let p = m.package->Some_0;
                        assert(frame_eq(*self, m));
                        assert(self.package matches Some(q) && package_eq_except_build(q, p));
                        assert(lib_rel(m.lib, entries_of(f("src"@)), p.name@, local_edition(p), self.lib));
                        assert(completes_to(m, f, *self));
                    }
                    return Err(e);
                },
            }
        }
        if autotests && self.test.is_none() {
            match autoset(ed, "tests", fs) {
                Ok(ps) => {
                    self.test = Some(ps);
                    proof {
                        let p = m.package->Some_0;
                        assert(self.test matches Some(ts2) && autoset_products(
                            "tests"@,
                            local_edition(p),
                            f,
                            ts2@,
                        ));
                    }
                },
                Err(e) => {
                    proof {
                        assert(completion_stage(m, f) == 4);
                        let p = m.package->Some_0;
                        assert(frame_eq(*self, m));
                        assert(self.package matches Some(q) && package_eq_except_build(q, p));
                        assert(lib_rel(m.lib, entries_of(f("src"@)), p.name@, local_edition(p), self.lib));
                        assert(completes_to(m, f, *self));
                    }
                    return Err(e);
                },
            }
        }
        if autobenches && self.bench.is_none() {
            match autoset(ed, "benches", fs) {
                Ok(ps) => {
                    self.bench = Some(ps);
                    proof {
                        let p = m.package->Some_0;
                        assert(self.bench matches Some(bs2) && autoset_products(
                            "benches"@,
                            local_edition(p),
                            f,
                            bs2@,
                        ));
                    }
                },
                Err(e) => {
                    proof {
                        assert(completion_stage(m, f) == 5);
                        let p = m.package->Some_0;
                        assert(frame_eq(*self, m));
                        assert(self.package matches Some(q) && package_eq_except_build(q, p));
                        assert(lib_rel(m.lib, entries_of(f("src"@)), p.name@, local_edition(p), self.lib));
                        assert(completes_to(m, f, *self));
                    }
                    return Err(e);
                },
            }
        }
        // Build script.
        if build_missing {
            match fs.file_names_in(".") {
                Ok(root) => {
                    if contains_name(&root, "build.rs") {
                        let mut pkg = match self.package.take() {
                            Some(p) => p,
                            None => {
                                proof {
                                    assert(false);
                                }
                                return Ok(());
                            },
                        };
                        pkg.build = Some(TomlValue::Str("build.rs".to_owned()));
                        self.package = Some(pkg);
                    }
                },
                Err(FsError::NotFound) => {},
                Err(FsError::Other(msg)) => {
                    proof {
                        assert(completion_stage(m, f) == 6);
                        let p = m.package->Some_0;
                        assert(frame_eq(*self, m));
                        assert(self.package matches Some(q) && package_eq_except_build(q, p));
                        assert(lib_rel(m.lib, entries_of(f("src"@)), p.name@, local_edition(p), self.lib));
                        assert(completes_to(m, f, *self));
                    }
                    return Err(Error::Io(msg));
                },
            }
        }
        proof {
            assert(completion_stage(m, f) == 0);
            let p = m.package->Some_0;
            assert(frame_eq(*self, m));
            assert(self.package matches Some(q) && package_eq_except_build(q, p));
            assert(lib_rel(m.lib, entries_of(f("src"@)), p.name@, local_edition(p), self.lib));
            assert(completes_to(m, f, *self));
        }
        Ok(())
    }
}

/// Idempotence law: a manifest that one completed run produced is a fixed
/// point — running completion again on the same filesystem view changes
/// nothing and raises no error. (An explicit library's required-features list
/// is cleared again, but it is already empty.)
pub proof fn lemma_completion_idempotent(
    m: Manifest,
    f: spec_fn(Seq<char>) -> DirSnapshot,
    r: Manifest,
)
    requires
        completes_to(m, f, r),
        completion_stage(m, f) == 0,
    ensures
        completion_stage(r, f) == 0,
        completes_to(r, f, r),
{
    if m.package is None {
    } else {
        let p = m.package->Some_0;
        let q = r.package->Some_0;
        assert(completion_stage(r, f) == 0);
        assert(lib_rel(r.lib, entries_of(f("src"@)), q.name@, local_edition(q), r.lib));
    }
}

} // verus!
