use vstd::prelude::*;
use crate::strutil::str_eq;
use vstd::string::StrSliceExecFns;

verus! {

/// What listing one directory can yield: its entry names in order, a
/// not-found condition, or any other failure with its description.
pub enum DirSnapshot {
    Found(Seq<Seq<char>>),
    Absent,
    Failure(Seq<char>),
}

/// A directory-listing failure: the directory does not exist, or some other
/// error with a human-readable description.
#[derive(Debug, Clone, PartialEq, Eq)]
pub enum FsError {
    NotFound,
    Other(String),
}

/// The listing result agrees with the snapshot the view promises.
pub open spec fn snapshot_matches(s: DirSnapshot, r: Result<Vec<String>, FsError>) -> bool {
    match (s, r) {
        (DirSnapshot::Found(es), Ok(v)) => v.deep_view() == es,
        (DirSnapshot::Absent, Err(e)) => e == FsError::NotFound,
        (DirSnapshot::Failure(msg), Err(e)) => e matches FsError::Other(m) && m@ == msg,
        _ => false,
    }
}

/// The minimal directory-listing capability completion depends on: given a
/// directory path relative to the manifest root, the names of its entries, or
/// a not-found condition. The spec-level view fixes what each listing returns,
/// so repeated listings of one path agree.
pub trait AbstractFilesystem {
    /// The view of the directory tree this value presents.
    spec fn dir_view(&self, path: Seq<char>) -> DirSnapshot;

    /// The entry names (files and subdirectories, names only) in the directory
    /// at the relative path.
    fn file_names_in(&self, rel_path: &str) -> (r: Result<Vec<String>, FsError>)
        ensures
            snapshot_matches(self.dir_view(rel_path@), r),
    ;
}

/// An in-memory directory tree: a list of directory paths, each with its entry
/// names, and a list of paths whose listing fails outright. Paths in neither
/// list do not exist.
pub struct StubFilesystem {
    pub dirs: Vec<(String, Vec<String>)>,
    pub broken: Vec<String>,
}

/// First directory in the list whose path matches, as a snapshot.
pub open spec fn stub_lookup(dirs: Seq<(String, Vec<String>)>, path: Seq<char>) -> DirSnapshot
    decreases dirs.len(),
{
    if dirs.len() == 0 {
        DirSnapshot::Absent
    } else if dirs[0].0@ == path {
        DirSnapshot::Found(dirs[0].1.deep_view())
    } else {
        stub_lookup(dirs.drop_first(), path)
    }
}

proof fn lemma_stub_lookup_prefix(dirs: Seq<(String, Vec<String>)>, path: Seq<char>, i: int)
    requires
        0 <= i <= dirs.len(),
        forall|j: int| 0 <= j < i ==> (#[trigger] dirs[j]).0@ != path,
    ensures
        stub_lookup(dirs, path) == stub_lookup(dirs.skip(i), path),
    decreases i,
{
    if i > 0 {
        assert(dirs[0].0@ != path);
        assert forall|j: int| 0 <= j < i - 1 implies (#[trigger] dirs.drop_first()[j]).0@
            != path by {
            assert(dirs[j + 1].0@ != path);
        }
        lemma_stub_lookup_prefix(dirs.drop_first(), path, i - 1);
        assert(dirs.drop_first().skip(i - 1) =~= dirs.skip(i));
    } else {
        assert(dirs.skip(0) =~= dirs);
    }
}

fn clone_string_vec(v: &Vec<String>) -> (r: Vec<String>)
    ensures
        r@ == v@,
{
    let mut out: Vec<String> = Vec::new();
    let mut i: usize = 0;
    while i < v.len()
        invariant
            i <= v@.len(),
            out@ =~= v@.subrange(0, i as int),
        decreases v@.len() - i,
    {
        out.push(v[i].clone());
        proof {
            assert(out@ =~= v@.subrange(0, i + 1 as int));
        }
        i = i + 1;
    }
    proof {
        assert(v@.subrange(0, v@.len() as int) =~= v@);
    }
    out
}

impl AbstractFilesystem for StubFilesystem {
    open spec fn dir_view(&self, path: Seq<char>) -> DirSnapshot {
        if crate::strutil::seq_contains_str(self.broken.deep_view(), path) {
            DirSnapshot::Failure(path)
        } else {
            stub_lookup(self.dirs@, path)
        }
    }

    fn file_names_in(&self, rel_path: &str) -> (r: Result<Vec<String>, FsError>)
        ensures
            snapshot_matches(self.dir_view(rel_path@), r),
    {
        if crate::strutil::contains_name(&self.broken, rel_path) {
            return Err(FsError::Other(rel_path.to_owned()));
        }
        let mut i: usize = 0;
        while i < self.dirs.len()
            invariant
                !crate::strutil::seq_contains_str(self.broken.deep_view(), rel_path@),
                i <= self.dirs@.len(),
                forall|j: int| 0 <= j < i ==> (#[trigger] self.dirs@[j]).0@ != rel_path@,
            decreases self.dirs@.len() - i,
        {
            if str_eq(self.dirs[i].0.as_str(), rel_path) {
                proof {
                    lemma_stub_lookup_prefix(self.dirs@, rel_path@, i as int);
                    assert(self.dirs@.skip(i as int)[0] == self.dirs@[i as int]);
                }
                return Ok(clone_string_vec(&self.dirs[i].1));
            }
            i = i + 1;
        }
        proof {
            lemma_stub_lookup_prefix(self.dirs@, rel_path@, self.dirs@.len() as int);
        }
        Err(FsError::NotFound)
    }
}

} // verus!
