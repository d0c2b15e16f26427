use vstd::prelude::*;
use crate::strutil::str_eq;

verus! {

broadcast use vstd::std_specs::vec::group_vec_axioms, vstd::seq::group_seq_axioms;

/// One node of a structured configuration document: scalar leaves (strings,
/// integers, booleans, and the textual forms of floats and datetimes), ordered
/// arrays, and tables of key/value pairs in document order.
///
/// Float and datetime leaves are carried in their textual form, so that the
/// model holds plain values only.
#[derive(Debug, PartialEq, Eq)]
pub enum TomlValue {
    Str(String),
    Int(i64),
    Float(String),
    Bool(bool),
    Datetime(String),
    Array(Vec<TomlValue>),
    Table(Vec<(String, TomlValue)>),
}

/// Structural equivalence of two document values: equal shape, with strings
/// compared by their character sequences.
pub open spec fn tv_eqv(a: TomlValue, b: TomlValue) -> bool
    decreases a,
{
    match (a, b) {
        (TomlValue::Str(x), TomlValue::Str(y)) => x@ == y@,
        (TomlValue::Int(x), TomlValue::Int(y)) => x == y,
        (TomlValue::Float(x), TomlValue::Float(y)) => x@ == y@,
        (TomlValue::Bool(x), TomlValue::Bool(y)) => x == y,
        (TomlValue::Datetime(x), TomlValue::Datetime(y)) => x@ == y@,
        (TomlValue::Array(x), TomlValue::Array(y)) => {
            &&& x@.len() == y@.len()
            &&& forall|i: int| 0 <= i < x@.len() ==> tv_eqv(#[trigger] x@[i], y@[i])
        },
        (TomlValue::Table(x), TomlValue::Table(y)) => {
            &&& x@.len() == y@.len()
            &&& forall|i: int|
                0 <= i < x@.len() ==> (#[trigger] x@[i]).0@ == y@[i].0@ && tv_eqv(x@[i].1, y@[i].1)
        },
        _ => false,
    }
}

impl Clone for TomlValue {
    /// A structural copy, equivalent to the original.
    fn clone(&self) -> (r: Self)
        ensures
            tv_eqv(r, *self),
            tv_eqv(*self, r),
        decreases *self,
    {
        match self {
            TomlValue::Str(s) => TomlValue::Str(s.clone()),
            TomlValue::Int(i) => TomlValue::Int(*i),
            TomlValue::Float(s) => TomlValue::Float(s.clone()),
            TomlValue::Bool(b) => TomlValue::Bool(*b),
            TomlValue::Datetime(s) => TomlValue::Datetime(s.clone()),
            TomlValue::Array(a) => {
                let mut out: Vec<TomlValue> = Vec::new();
                let mut i: usize = 0;
                while i < a.len()
                    invariant
                        *self == TomlValue::Array(*a),
                        i <= a@.len(),
                        out@.len() == i,
                        forall|j: int|
                            0 <= j < i ==> tv_eqv(#[trigger] out@[j], a@[j]) && tv_eqv(
                                a@[j],
                                out@[j],
                            ),
                    decreases a@.len() - i,
                {
                    proof {
                        assert(decreases_to!(*self => self->Array_0));
                        assert(decreases_to!(*a => a@[i as int]));
                        assert(decreases_to!(*self => a@[i as int]));
                    }
                    let e = a[i].clone();
                    out.push(e);
                    i = i + 1;
                }
                TomlValue::Array(out)
            },
            TomlValue::Table(t) => {
                let mut out: Vec<(String, TomlValue)> = Vec::new();
                let mut i: usize = 0;
                while i < t.len()
                    invariant
                        *self == TomlValue::Table(*t),
                        i <= t@.len(),
                        out@.len() == i,
                        forall|j: int|
                            0 <= j < i ==> (#[trigger] out@[j]).0@ == t@[j].0@ && tv_eqv(
                                out@[j].1,
                                t@[j].1,
                            ) && tv_eqv(t@[j].1, out@[j].1),
                    decreases t@.len() - i,
                {
                    proof {
                        assert(decreases_to!(*self => self->Table_0));
                        assert(decreases_to!(*t => t@[i as int]));
                        assert(decreases_to!(t@[i as int] => t@[i as int].1));
                        assert(decreases_to!(*self => t@[i as int].1));
                    }
                    let k = t[i].0.clone();
                    let v = t[i].1.clone();
                    out.push((k, v));
                    i = i + 1;
                }
                TomlValue::Table(out)
            },
        }
    }
}

/// First binding of the key in a table, in document order.
pub open spec fn table_lookup(t: Seq<(String, TomlValue)>, k: Seq<char>) -> Option<TomlValue>
    decreases t.len(),
{
    if t.len() == 0 {
        None
    } else if t[0].0@ == k {
        Some(t[0].1)
    } else {
        table_lookup(t.drop_first(), k)
    }
}

proof fn lemma_lookup_prefix(t: Seq<(String, TomlValue)>, k: Seq<char>, i: int)
    requires
        0 <= i <= t.len(),
        forall|j: int| 0 <= j < i ==> (#[trigger] t[j]).0@ != k,
    ensures
        table_lookup(t, k) == table_lookup(t.skip(i), k),
    decreases i,
{
    if i > 0 {
        assert(t[0].0@ != k);
        assert forall|j: int| 0 <= j < i - 1 implies (#[trigger] t.drop_first()[j]).0@ != k by {
            assert(t[j + 1].0@ != k);
        }
        lemma_lookup_prefix(t.drop_first(), k, i - 1);
        assert(t.drop_first().skip(i - 1) =~= t.skip(i));
    } else {
        assert(t.skip(0) =~= t);
    }
}

/// Appending an entry leaves every key that was already bound unchanged, binds
/// the new key if it was free, and binds nothing else.
pub broadcast proof fn lemma_lookup_push(t: Seq<(String, TomlValue)>, k: Seq<char>, e: (String, TomlValue))
    ensures
        #[trigger] table_lookup(t.push(e), k) == if table_lookup(t, k) is Some {
            table_lookup(t, k)
        } else if e.0@ == k {
            Some(e.1)
        } else {
            None
        },
    decreases t.len(),
{
    if t.len() == 0 {
        assert(t.push(e)[0] == e);
        assert(t.push(e).drop_first() =~= Seq::<(String, TomlValue)>::empty());
        if e.0@ == k {
            assert(table_lookup(t.push(e), k) == Some(e.1));
        } else {
            assert(table_lookup(t.push(e), k) == table_lookup(t.push(e).drop_first(), k));
            assert(table_lookup(t.push(e), k) is None);
        }
    } else {
        assert(t.push(e)[0] == t[0]);
        assert(t.push(e).drop_first() =~= t.drop_first().push(e));
        lemma_lookup_push(t.drop_first(), k, e);
        if t[0].0@ == k {
            assert(table_lookup(t.push(e), k) == Some(t[0].1));
            assert(table_lookup(t, k) == Some(t[0].1));
        } else {
            assert(table_lookup(t.push(e), k) == table_lookup(t.drop_first().push(e), k));
            assert(table_lookup(t, k) == table_lookup(t.drop_first(), k));
        }
    }
}

/// A reference to the value bound to the key, if the table binds it.
pub fn table_get<'a>(t: &'a Vec<(String, TomlValue)>, k: &str) -> (r: Option<&'a TomlValue>)
    ensures
        match r {
            Some(v) => table_lookup(t@, k@) == Some(*v),
            None => table_lookup(t@, k@) is None,
        },
{
    let mut i: usize = 0;
    while i < t.len()
        invariant
            i <= t@.len(),
            forall|j: int| 0 <= j < i ==> (#[trigger] t@[j]).0@ != k@,
        decreases t@.len() - i,
    {
        if str_eq(t[i].0.as_str(), k) {
            proof {
                lemma_lookup_prefix(t@, k@, i as int);
                assert(t@.skip(i as int)[0] == t@[i as int]);
            }
            return Some(&t[i].1);
        }
        i = i + 1;
    }
    proof {
        lemma_lookup_prefix(t@, k@, t@.len() as int);
    }
    None
}

} // verus!
