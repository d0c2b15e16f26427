use vstd::prelude::*;
use vstd::string::StrSliceExecFns;
use vstd::string::StringExecFns;

verus! {

/// Character-wise string equality.
pub fn str_eq(a: &str, b: &str) -> (r: bool)
    ensures
        r == (a@ == b@),
{
    let alen = a.unicode_len();
    let blen = b.unicode_len();
    if alen != blen {
        return false;
    }
    let mut i: usize = 0;
    while i < alen
        invariant
            a@.len() == alen,
            b@.len() == blen,
            alen == blen,
            i <= alen,
            forall|j: int| 0 <= j < i ==> a@[j] == b@[j],
        decreases alen - i,
    {
        if a.get_char(i) != b.get_char(i) {
            return false;
        }
        i = i + 1;
    }
    proof {
        assert(a@ =~= b@);
    }
    true
}

/// The name ends in the source-file extension `.rs`.
pub open spec fn ends_with_rs_spec(s: Seq<char>) -> bool {
    s.len() >= 3 && s[s.len() - 3] == '.' && s[s.len() - 2] == 'r' && s[s.len() - 1] == 's'
}

pub fn ends_with_rs(s: &str) -> (r: bool)
    ensures
        r == ends_with_rs_spec(s@),
{
    let n = s.unicode_len();
    if n < 3 {
        return false;
    }
    s.get_char(n - 3) == '.' && s.get_char(n - 2) == 'r' && s.get_char(n - 1) == 's'
}

/// The name with the `.rs` extension stripped.
pub fn strip_rs(s: &str) -> (r: String)
    requires
        ends_with_rs_spec(s@),
    ensures
        r@ == s@.subrange(0, s@.len() - 3),
{
    let n = s.unicode_len();
    let sub = s.substring_char(0, n - 3);
    sub.to_owned()
}

/// Every dash replaced with an underscore.
pub open spec fn dashes_to_underscores(s: Seq<char>) -> Seq<char> {
    s.map_values(|c: char| if c == '-' { '_' } else { c })
}

pub fn dash_to_underscore(s: &str) -> (r: String)
    ensures
        r@ == dashes_to_underscores(s@),
{
    let n = s.unicode_len();
    let mut out = String::new();
    let mut i: usize = 0;
    while i < n
        invariant
            s@.len() == n,
            i <= n,
            out@ =~= dashes_to_underscores(s@.subrange(0, i as int)),
        decreases n - i,
    {
        let c = s.get_char(i);
        if c == '-' {
            out.append("_");
            proof {
                reveal_strlit("_");
            }
        } else {
            let piece = s.substring_char(i, i + 1);
            out.append(piece);
        }
        proof {
            assert(out@ =~= dashes_to_underscores(s@.subrange(0, i + 1 as int)));
        }
        i = i + 1;
    }
    proof {
        assert(s@.subrange(0, n as int) =~= s@);
    }
    out
}

/// Some entry of the list equals the given name.
pub open spec fn seq_contains_str(entries: Seq<Seq<char>>, t: Seq<char>) -> bool {
    exists|i: int| 0 <= i < entries.len() && entries[i] == t
}

pub fn contains_name(entries: &Vec<String>, t: &str) -> (r: bool)
    ensures
        r == seq_contains_str(entries.deep_view(), t@),
{
    let mut i: usize = 0;
    while i < entries.len()
        invariant
            i <= entries@.len(),
            forall|j: int| 0 <= j < i ==> entries.deep_view()[j] != t@,
        decreases entries@.len() - i,
    {
        if str_eq(entries[i].as_str(), t) {
            proof {
                assert(entries.deep_view()[i as int] == t@);
            }
            return true;
        }
        i = i + 1;
    }
    false
}

/// The two names joined with a slash between them.
pub fn join_slash(dir: &str, name: &str) -> (r: String)
    ensures
        r@ == dir@ + "/"@ + name@,
{
    let mut out = dir.to_owned();
    out.append("/");
    out.append(name);
    out
}

/// Two character sequences that differ at one position are different.
pub proof fn lemma_seq_neq_at(a: Seq<char>, b: Seq<char>, i: int)
    requires
        0 <= i < a.len(),
        0 <= i < b.len(),
        a[i] != b[i],
    ensures
        a != b,
{
}

} // verus!
