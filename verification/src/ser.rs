use vstd::prelude::*;
use vstd::string::StrSliceExecFns;
use crate::de::all_strings;
use crate::de::badge_from;
use crate::de::badge_ok;
use crate::de::badges_from;
use crate::de::badges_ok;
use crate::de::custom_entries;
use crate::de::custom_from;
use crate::de::dep_detail_from;
use crate::de::dep_detail_ok;
use crate::de::dependency_from;
use crate::de::dependency_ok;
use crate::de::deps_from;
use crate::de::deps_ok;
use crate::de::deps_value_from;
use crate::de::deps_value_ok;
use crate::de::edition_of;
use crate::de::features_from;
use crate::de::features_ok;
use crate::de::inherit_marker;
use crate::de::maintenance_of;
use crate::de::manifest_from;
use crate::de::manifest_ok;
use crate::de::maintenance_status_of;
use crate::de::package_table_from;
use crate::de::package_table_ok;
use crate::de::package_value_from;
use crate::de::package_value_ok;
use crate::de::patch_from;
use crate::de::patch_ok;
use crate::de::product_from;
use crate::de::product_ok;
use crate::de::products_from;
use crate::de::products_ok;
use crate::de::profile_from;
use crate::de::profile_ok;
use crate::de::profiles_fixed_key;
use crate::de::profiles_from;
use crate::de::profiles_ok;
use crate::de::publish_from;
use crate::de::publish_ok;
use crate::de::resolver_of;
use crate::de::string_or_bool_of;
use crate::de::string_vec_of;
use crate::de::strings_of;
use crate::de::target_from;
use crate::de::target_ok;
use crate::de::targets_from;
use crate::de::targets_ok;
use crate::de::workspace_from;
use crate::de::workspace_ok;
use crate::de::wsp_from;
use crate::de::wsp_ok;
use crate::model::Badge;
use crate::model::Badges;
use crate::model::Dependency;
use crate::model::DependencyDetail;
use crate::model::DepsSet;
use crate::model::Edition;
use crate::model::FeatureSet;
use crate::model::Maintenance;
use crate::model::MaintenanceStatus;
use crate::model::Manifest;
use crate::model::MaybeInherited;
use crate::model::Package;
use crate::model::PatchSet;
use crate::model::Product;
use crate::model::Profile;
use crate::model::Profiles;
use crate::model::Publish;
use crate::model::Resolver;
use crate::model::StringOrBool;
use crate::model::Target;
use crate::model::TargetDepsSet;
use crate::model::Workspace;
use crate::model::WorkspacePackage;
use crate::strutil::lemma_seq_neq_at;
use crate::toml_doc::TomlValue;
use crate::toml_doc::lemma_lookup_push;
use crate::toml_doc::table_lookup;
use crate::toml_doc::tv_eqv;

verus! {

/// Append a binding; every key already bound keeps its first binding, the new
/// key becomes bound if it was free, and every other key stays free.
fn push_value(t: &mut Vec<(String, TomlValue)>, k: &str, v: TomlValue)
    ensures
        forall|q: Seq<char>|
            #[trigger] table_lookup(final(t)@, q) == if table_lookup(old(t)@, q) is Some {
                table_lookup(old(t)@, q)
            } else if q == k@ {
                Some(v)
            } else {
                None::<TomlValue>
            },
        forall|j: int|
            0 <= j < final(t)@.len() ==> (j < old(t)@.len() && (#[trigger] final(t)@[j]) == old(
                t,
            )@[j]) || final(t)@[j].0@ == k@,
{
    let ks = k.to_owned();
    t.push((ks, v));
    proof {
        assert forall|q: Seq<char>|
            #[trigger] table_lookup(t@, q) == if table_lookup(old(t)@, q) is Some {
                table_lookup(old(t)@, q)
            } else if q == k@ {
                Some(v)
            } else {
                None::<TomlValue>
            } by {
            assert(t@ == old(t)@.push(t@.last()));
            lemma_lookup_push(old(t)@, q, t@.last());
        }
    }
}

/// Append a binding only when the value is present.
fn push_opt_value(t: &mut Vec<(String, TomlValue)>, k: &str, v: Option<TomlValue>)
    ensures
        forall|q: Seq<char>|
            #[trigger] table_lookup(final(t)@, q) == if table_lookup(old(t)@, q) is Some {
                table_lookup(old(t)@, q)
            } else if q == k@ && v is Some {
                v
            } else {
                None::<TomlValue>
            },
        forall|j: int|
            0 <= j < final(t)@.len() ==> (j < old(t)@.len() && (#[trigger] final(t)@[j]) == old(
                t,
            )@[j]) || final(t)@[j].0@ == k@,
{
    match v {
        Some(w) => push_value(t, k, w),
        None => {},
    }
}

/// A list of strings as an array value.
pub(crate) fn ser_strings(v: &Vec<String>) -> (r: TomlValue)
    ensures
        string_vec_of(r) == Some(v@),
{
    let mut a: Vec<TomlValue> = Vec::new();
    let mut i: usize = 0;
    while i < v.len()
        invariant
            i <= v@.len(),
            a@.len() == i,
            forall|j: int| 0 <= j < i ==> (#[trigger] a@[j]) is Str && a@[j]->Str_0 == v@[j],
        decreases v@.len() - i,
    {
        a.push(TomlValue::Str(v[i].clone()));
        i = i + 1;
    }
    proof {
        assert(all_strings(a@));
        assert(strings_of(a@) =~= v@);
    }
    TomlValue::Array(a)
}

/// An edition as its string form.
pub(crate) fn ser_edition(e: &Edition) -> (r: TomlValue)
    ensures
        edition_of(r) == Some(*e),
{
    match e {
        Edition::E2015 => {
            let s = "2015".to_owned();
            proof {
                assert(edition_of(TomlValue::Str(s)) == Some(Edition::E2015));
            }
            TomlValue::Str(s)
        },
        Edition::E2018 => {
            let s = "2018".to_owned();
            proof {
                reveal_strlit("2015");
                reveal_strlit("2018");
                lemma_seq_neq_at("2018"@, "2015"@, 3);
                assert(edition_of(TomlValue::Str(s)) == Some(Edition::E2018));
            }
            TomlValue::Str(s)
        },
        Edition::E2021 => {
            let s = "2021".to_owned();
            proof {
                reveal_strlit("2015");
                reveal_strlit("2018");
                reveal_strlit("2021");
                lemma_seq_neq_at("2021"@, "2015"@, 2);
                lemma_seq_neq_at("2021"@, "2018"@, 2);
                assert(edition_of(TomlValue::Str(s)) == Some(Edition::E2021));
            }
            TomlValue::Str(s)
        },
    }
}

/// A resolver as its string form.
pub(crate) fn ser_resolver(x: &Resolver) -> (r: TomlValue)
    ensures
        resolver_of(r) == Some(*x),
{
    match x {
        Resolver::V1 => {
            let s = "1".to_owned();
            proof {
                assert(resolver_of(TomlValue::Str(s)) == Some(Resolver::V1));
            }
            TomlValue::Str(s)
        },
        Resolver::V2 => {
            let s = "2".to_owned();
            proof {
                reveal_strlit("1");
                reveal_strlit("2");
                lemma_seq_neq_at("2"@, "1"@, 0);
                assert(resolver_of(TomlValue::Str(s)) == Some(Resolver::V2));
            }
            TomlValue::Str(s)
        },
    }
}

/// A maintenance status as its string form.
pub(crate) fn ser_maintenance_status(x: &MaintenanceStatus) -> (r: TomlValue)
    ensures
        maintenance_status_of(r) == Some(*x),
{
    proof {
        reveal_strlit("none");
        reveal_strlit("actively-developed");
        reveal_strlit("passively-maintained");
        reveal_strlit("as-is");
        reveal_strlit("experimental");
        reveal_strlit("looking-for-maintainer");
        reveal_strlit("deprecated");
        assert(("none"@).len() == 4);
        assert(("actively-developed"@).len() == 18);
        assert(("passively-maintained"@).len() == 20);
        assert(("as-is"@).len() == 5);
        assert(("experimental"@).len() == 12);
        assert(("looking-for-maintainer"@).len() == 22);
        assert(("deprecated"@).len() == 10);
    }
    match x {
        MaintenanceStatus::NoStatus => TomlValue::Str("none".to_owned()),
        MaintenanceStatus::ActivelyDeveloped => TomlValue::Str("actively-developed".to_owned()),
        MaintenanceStatus::PassivelyMaintained => TomlValue::Str("passively-maintained".to_owned()),
        MaintenanceStatus::AsIs => TomlValue::Str("as-is".to_owned()),
        MaintenanceStatus::Experimental => TomlValue::Str("experimental".to_owned()),
        MaintenanceStatus::LookingForMaintainer => TomlValue::Str(
            "looking-for-maintainer".to_owned(),
        ),
        MaintenanceStatus::Deprecated => TomlValue::Str("deprecated".to_owned()),
    }
}

/// The maintenance badge as a table with its status field.
pub(crate) fn ser_maintenance(m: &Maintenance) -> (r: TomlValue)
    ensures
        maintenance_of(r) == Some(*m),
{
    let mut t: Vec<(String, TomlValue)> = Vec::new();
    push_value(&mut t, "status", ser_maintenance_status(&m.status));
    proof {
        assert(table_lookup(t@, "status"@) is Some);
    }
    TomlValue::Table(t)
}

/// A string-or-boolean as the corresponding scalar.
pub(crate) fn ser_sob(x: &StringOrBool) -> (r: TomlValue)
    ensures
        string_or_bool_of(r) == Some(*x),
{
    match x {
        StringOrBool::Str(s) => TomlValue::Str(s.clone()),
        StringOrBool::Bool(b) => TomlValue::Bool(*b),
    }
}

/// A publish value as a boolean or a list of registry names.
pub(crate) fn ser_publish(p: &Publish) -> (r: TomlValue)
    ensures
        publish_ok(r) && publish_from(r, *p),
{
    match p {
        Publish::Flag(b) => TomlValue::Bool(*b),
        Publish::Registry(regs) => ser_strings(regs),
    }
}

/// The literal inherit-from-workspace marker.
fn marker_table() -> (r: TomlValue)
    ensures
        inherit_marker(r),
{
    let mut t: Vec<(String, TomlValue)> = Vec::new();
    push_value(&mut t, "workspace", TomlValue::Bool(true));
    proof {
        assert(table_lookup(t@, "workspace"@) == Some(TomlValue::Bool(true)));
    }
    TomlValue::Table(t)
}

fn ser_opt_string(o: &Option<String>) -> (r: Option<TomlValue>)
    ensures
        match o {
            Some(s) => r == Some(TomlValue::Str(*s)),
            None => r is None,
        },
{
    match o {
        Some(s) => Some(TomlValue::Str(s.clone())),
        None => None,
    }
}

fn ser_opt_bool(o: &Option<bool>) -> (r: Option<TomlValue>)
    ensures
        match o {
            Some(b) => r == Some(TomlValue::Bool(*b)),
            None => r is None,
        },
{
    match o {
        Some(b) => Some(TomlValue::Bool(*b)),
        None => None,
    }
}

fn ser_opt_strings(o: &Option<Vec<String>>) -> (r: Option<TomlValue>)
    ensures
        match o {
            Some(v) => r matches Some(w) && string_vec_of(w) == Some(v@),
            None => r is None,
        },
{
    match o {
        Some(v) => Some(ser_strings(v)),
        None => None,
    }
}

fn ser_opt_edition(o: &Option<Edition>) -> (r: Option<TomlValue>)
    ensures
        match o {
            Some(e) => r matches Some(w) && edition_of(w) == Some(*e),
            None => r is None,
        },
{
    match o {
        Some(e) => Some(ser_edition(e)),
        None => None,
    }
}

fn ser_opt_resolver(o: &Option<Resolver>) -> (r: Option<TomlValue>)
    ensures
        match o {
            Some(x) => r matches Some(w) && resolver_of(w) == Some(*x),
            None => r is None,
        },
{
    match o {
        Some(x) => Some(ser_resolver(x)),
        None => None,
    }
}

fn ser_opt_sob(o: &Option<StringOrBool>) -> (r: Option<TomlValue>)
    ensures
        match o {
            Some(x) => r matches Some(w) && string_or_bool_of(w) == Some(*x),
            None => r is None,
        },
{
    match o {
        Some(x) => Some(ser_sob(x)),
        None => None,
    }
}

fn ser_opt_publish(o: &Option<Publish>) -> (r: Option<TomlValue>)
    ensures
        match o {
            Some(p) => r matches Some(w) && publish_ok(w) && publish_from(w, *p),
            None => r is None,
        },
{
    match o {
        Some(p) => Some(ser_publish(p)),
        None => None,
    }
}

fn ser_opt_u16(o: &Option<u16>) -> (r: Option<TomlValue>)
    ensures
        match o {
            Some(n) => r matches Some(w) && w matches TomlValue::Int(i) && 0 <= i <= u16::MAX && i
                == *n as i64,
            None => r is None,
        },
{
    match o {
        Some(n) => Some(TomlValue::Int(*n as i64)),
        None => None,
    }
}

fn ser_opt_raw(o: &Option<TomlValue>) -> (r: Option<TomlValue>)
    ensures
        match o {
            Some(v) => r matches Some(w) && tv_eqv(*v, w) && tv_eqv(w, *v),
            None => r is None,
        },
{
    match o {
        Some(v) => Some(v.clone()),
        None => None,
    }
}

fn ser_opt_badge(o: &Option<Badge>) -> (r: Option<TomlValue>)
    ensures
        match o {
            Some(b) => r matches Some(w) && badge_ok(w) && badge_from(w, *b),
            None => r is None,
        },
{
    match o {
        Some(b) => Some(ser_badge(b)),
        None => None,
    }
}

fn ser_opt_deps(o: &Option<DepsSet>) -> (r: Option<TomlValue>)
    ensures
        match o {
            Some(ds) => r matches Some(w) && deps_value_ok(w) && deps_value_from(w, ds@),
            None => r is None,
        },
{
    match o {
        Some(ds) => Some(ser_deps(ds)),
        None => None,
    }
}

fn ser_opt_wsp(o: &Option<WorkspacePackage>) -> (r: Option<TomlValue>)
    ensures
        match o {
            Some(w) => r matches Some(v) && wsp_ok(v) && wsp_from(v, *w),
            None => r is None,
        },
{
    match o {
        Some(w) => Some(ser_wsp(w)),
        None => None,
    }
}

/// An inheritable string: the workspace marker or a local string.
fn ser_inh_string(o: &Option<MaybeInherited<String>>) -> (r: Option<TomlValue>)
    ensures
        match o {
            None => r is None,
            Some(MaybeInherited::Local(s)) => r == Some(TomlValue::Str(*s)),
            Some(MaybeInherited::Inherited { .. }) => r matches Some(v) && inherit_marker(v),
        },
{
    match o {
        None => None,
        Some(MaybeInherited::Local(s)) => Some(TomlValue::Str(s.clone())),
        Some(MaybeInherited::Inherited { .. }) => Some(marker_table()),
    }
}

/// A required inheritable string: the workspace marker or a local string.
fn ser_req_inh_string(v: &MaybeInherited<String>) -> (r: TomlValue)
    ensures
        match v {
            MaybeInherited::Local(s) => r == TomlValue::Str(*s),
            MaybeInherited::Inherited { .. } => inherit_marker(r),
        },
{
    match v {
        MaybeInherited::Local(s) => TomlValue::Str(s.clone()),
        MaybeInherited::Inherited { .. } => marker_table(),
    }
}

fn ser_inh_edition(o: &Option<MaybeInherited<Edition>>) -> (r: Option<TomlValue>)
    ensures
        match o {
            None => r is None,
            Some(MaybeInherited::Local(e)) => r matches Some(w) && edition_of(w) == Some(*e)
                && !inherit_marker(w),
            Some(MaybeInherited::Inherited { .. }) => r matches Some(v) && inherit_marker(v),
        },
{
    match o {
        None => None,
        Some(MaybeInherited::Local(e)) => {
            let w = ser_edition(e);
            proof {
                assert(w is Str);
            }
            Some(w)
        },
        Some(MaybeInherited::Inherited { .. }) => Some(marker_table()),
    }
}

fn ser_inh_sob(o: &Option<MaybeInherited<StringOrBool>>) -> (r: Option<TomlValue>)
    ensures
        match o {
            None => r is None,
            Some(MaybeInherited::Local(x)) => r matches Some(w) && string_or_bool_of(w) == Some(*x)
                && !inherit_marker(w),
            Some(MaybeInherited::Inherited { .. }) => r matches Some(v) && inherit_marker(v),
        },
{
    match o {
        None => None,
        Some(MaybeInherited::Local(x)) => {
            let w = ser_sob(x);
            proof {
                assert(!(w is Table));
            }
            Some(w)
        },
        Some(MaybeInherited::Inherited { .. }) => Some(marker_table()),
    }
}

fn ser_inh_strings(o: &Option<MaybeInherited<Vec<String>>>) -> (r: Option<TomlValue>)
    ensures
        match o {
            None => r is None,
            Some(MaybeInherited::Local(v)) => r matches Some(w) && string_vec_of(w) == Some(v@)
                && !inherit_marker(w),
            Some(MaybeInherited::Inherited { .. }) => r matches Some(v) && inherit_marker(v),
        },
{
    match o {
        None => None,
        Some(MaybeInherited::Local(v)) => {
            let w = ser_strings(v);
            proof {
                assert(!(w is Table));
            }
            Some(w)
        },
        Some(MaybeInherited::Inherited { .. }) => Some(marker_table()),
    }
}

fn ser_inh_publish(o: &Option<MaybeInherited<Publish>>) -> (r: Option<TomlValue>)
    ensures
        match o {
            None => r is None,
            Some(MaybeInherited::Local(p)) => r matches Some(w) && publish_ok(w) && publish_from(
                w,
                *p,
            ) && !inherit_marker(w),
            Some(MaybeInherited::Inherited { .. }) => r matches Some(v) && inherit_marker(v),
        },
{
    match o {
        None => None,
        Some(MaybeInherited::Local(p)) => {
            let w = ser_publish(p);
            proof {
                assert(!(w is Table));
            }
            Some(w)
        },
        Some(MaybeInherited::Inherited { .. }) => Some(marker_table()),
    }
}

/// A table of raw values, copied one binding at a time.
fn ser_raw_table(v: &Vec<(String, TomlValue)>) -> (r: TomlValue)
    ensures
        r matches TomlValue::Table(pt) && pt@.len() == v@.len() && forall|i: int|
            0 <= i < v@.len() ==> (#[trigger] v@[i]).0 == pt@[i].0 && tv_eqv(v@[i].1, pt@[i].1),
{
    let mut out: Vec<(String, TomlValue)> = Vec::new();
    let mut i: usize = 0;
    while i < v.len()
        invariant
            i <= v@.len(),
            out@.len() == i,
            forall|j: int|
                0 <= j < i ==> (#[trigger] v@[j]).0 == out@[j].0 && tv_eqv(v@[j].1, out@[j].1),
        decreases v@.len() - i,
    {
        out.push((v[i].0.clone(), v[i].1.clone()));
        i = i + 1;
    }
    TomlValue::Table(out)
}

/// A dependency as a bare version string or a detailed table.
pub(crate) fn ser_dependency(d: &Dependency) -> (r: TomlValue)
    ensures
        dependency_ok(r),
        dependency_from(r, *d),
{
    match d {
        Dependency::Simple(s) => TomlValue::Str(s.clone()),
        Dependency::Detailed(dd) => TomlValue::Table(ser_dep_detail(dd)),
    }
}

/// A dependency set as a table, in its stored order.
pub(crate) fn ser_deps(ds: &DepsSet) -> (r: TomlValue)
    ensures
        deps_value_ok(r),
        deps_value_from(r, ds@),
{
    let mut t: Vec<(String, TomlValue)> = Vec::new();
    let mut i: usize = 0;
    while i < ds.len()
        invariant
            i <= ds@.len(),
            t@.len() == i,
            forall|j: int| 0 <= j < i ==> dependency_ok((#[trigger] t@[j]).1),
            forall|j: int|
                0 <= j < i ==> (#[trigger] t@[j]).0 == ds@[j].0 && dependency_from(
                    t@[j].1,
                    ds@[j].1,
                ),
        decreases ds@.len() - i,
    {
        let dv = ser_dependency(&ds[i].1);
        t.push((ds[i].0.clone(), dv));
        i = i + 1;
    }
    proof {
        assert(deps_ok(t@));
        assert(deps_from(t@, ds@));
    }
    TomlValue::Table(t)
}

/// The target section as a table, in its stored order.
pub(crate) fn ser_targets(ts: &TargetDepsSet) -> (r: TomlValue)
    ensures
        targets_ok(r),
        targets_from(r, ts@),
{
    let mut t: Vec<(String, TomlValue)> = Vec::new();
    let mut i: usize = 0;
    while i < ts.len()
        invariant
            i <= ts@.len(),
            t@.len() == i,
            forall|j: int| 0 <= j < i ==> target_ok((#[trigger] t@[j]).1),
            forall|j: int|
                0 <= j < i ==> (#[trigger] t@[j]).0 == ts@[j].0 && target_from(t@[j].1, ts@[j].1),
        decreases ts@.len() - i,
    {
        let tv = ser_target(&ts[i].1);
        t.push((ts[i].0.clone(), tv));
        i = i + 1;
    }
    TomlValue::Table(t)
}

/// The features section as a table, in its stored order.
pub(crate) fn ser_features(fs: &FeatureSet) -> (r: TomlValue)
    ensures
        features_ok(r),
        features_from(r, fs@),
{
    let mut t: Vec<(String, TomlValue)> = Vec::new();
    let mut i: usize = 0;
    while i < fs.len()
        invariant
            i <= fs@.len(),
            t@.len() == i,
            forall|j: int| 0 <= j < i ==> string_vec_of((#[trigger] t@[j]).1) is Some,
            forall|j: int|
                0 <= j < i ==> (#[trigger] t@[j]).0 == fs@[j].0 && string_vec_of(t@[j].1) == Some(
                    fs@[j].1@,
                ),
        decreases fs@.len() - i,
    {
        let fv = ser_strings(&fs[i].1);
        t.push((fs[i].0.clone(), fv));
        i = i + 1;
    }
    TomlValue::Table(t)
}

/// The patch section as a table, in its stored order.
pub(crate) fn ser_patch(ps: &PatchSet) -> (r: TomlValue)
    ensures
        patch_ok(r),
        patch_from(r, ps@),
{
    let mut t: Vec<(String, TomlValue)> = Vec::new();
    let mut i: usize = 0;
    while i < ps.len()
        invariant
            i <= ps@.len(),
            t@.len() == i,
            forall|j: int| 0 <= j < i ==> deps_value_ok((#[trigger] t@[j]).1),
            forall|j: int|
                0 <= j < i ==> (#[trigger] t@[j]).0 == ps@[j].0 && deps_value_from(
                    t@[j].1,
                    ps@[j].1@,
                ),
        decreases ps@.len() - i,
    {
        let dv = ser_deps(&ps[i].1);
        t.push((ps[i].0.clone(), dv));
        i = i + 1;
    }
    TomlValue::Table(t)
}

/// An array of products.
pub(crate) fn ser_products(ps: &Vec<Product>) -> (r: TomlValue)
    ensures
        products_ok(r),
        products_from(r, ps@),
{
    let mut a: Vec<TomlValue> = Vec::new();
    let mut i: usize = 0;
    while i < ps.len()
        invariant
            i <= ps@.len(),
            a@.len() == i,
            forall|j: int| 0 <= j < i ==> product_ok(#[trigger] a@[j]),
            forall|j: int| 0 <= j < i ==> product_from(#[trigger] a@[j], ps@[j]),
        decreases ps@.len() - i,
    {
        let pv = ser_product(&ps[i]);
        a.push(pv);
        i = i + 1;
    }
    TomlValue::Array(a)
}

proof fn dep_key_facts()
    ensures
        "branch"@ != "default-features"@,
        "branch"@ != "default_features"@,
        "branch"@ != "features"@,
        "branch"@ != "git"@,
        "branch"@ != "optional"@,
        "branch"@ != "package"@,
        "branch"@ != "path"@,
        "branch"@ != "registry"@,
        "branch"@ != "registry-index"@,
        "branch"@ != "registry_index"@,
        "branch"@ != "rev"@,
        "branch"@ != "tag"@,
        "branch"@ != "version"@,
        "branch"@ != "workspace"@,
        "default-features"@ != "default_features"@,
        "default-features"@ != "features"@,
        "default-features"@ != "git"@,
        "default-features"@ != "optional"@,
        "default-features"@ != "package"@,
        "default-features"@ != "path"@,
        "default-features"@ != "registry"@,
        "default-features"@ != "registry-index"@,
        "default-features"@ != "registry_index"@,
        "default-features"@ != "rev"@,
        "default-features"@ != "tag"@,
        "default-features"@ != "version"@,
        "default-features"@ != "workspace"@,
        "default_features"@ != "features"@,
        "default_features"@ != "git"@,
        "default_features"@ != "optional"@,
        "default_features"@ != "package"@,
        "default_features"@ != "path"@,
        "default_features"@ != "registry"@,
        "default_features"@ != "registry-index"@,
        "default_features"@ != "registry_index"@,
        "default_features"@ != "rev"@,
        "default_features"@ != "tag"@,
        "default_features"@ != "version"@,
        "default_features"@ != "workspace"@,
        "features"@ != "git"@,
        "features"@ != "optional"@,
        "features"@ != "package"@,
        "features"@ != "path"@,
        "features"@ != "registry"@,
        "features"@ != "registry-index"@,
        "features"@ != "registry_index"@,
        "features"@ != "rev"@,
        "features"@ != "tag"@,
        "features"@ != "version"@,
        "features"@ != "workspace"@,
        "git"@ != "optional"@,
        "git"@ != "package"@,
        "git"@ != "path"@,
        "git"@ != "registry"@,
        "git"@ != "registry-index"@,
        "git"@ != "registry_index"@,
        "git"@ != "rev"@,
        "git"@ != "tag"@,
        "git"@ != "version"@,
        "git"@ != "workspace"@,
        "optional"@ != "package"@,
        "optional"@ != "path"@,
        "optional"@ != "registry"@,
        "optional"@ != "registry-index"@,
        "optional"@ != "registry_index"@,
        "optional"@ != "rev"@,
        "optional"@ != "tag"@,
        "optional"@ != "version"@,
        "optional"@ != "workspace"@,
        "package"@ != "path"@,
        "package"@ != "registry"@,
        "package"@ != "registry-index"@,
        "package"@ != "registry_index"@,
        "package"@ != "rev"@,
        "package"@ != "tag"@,
        "package"@ != "version"@,
        "package"@ != "workspace"@,
        "path"@ != "registry"@,
        "path"@ != "registry-index"@,
        "path"@ != "registry_index"@,
        "path"@ != "rev"@,
        "path"@ != "tag"@,
        "path"@ != "version"@,
        "path"@ != "workspace"@,
        "registry"@ != "registry-index"@,
        "registry"@ != "registry_index"@,
        "registry"@ != "rev"@,
        "registry"@ != "tag"@,
        "registry"@ != "version"@,
        "registry"@ != "workspace"@,
        "registry-index"@ != "registry_index"@,
        "registry-index"@ != "rev"@,
        "registry-index"@ != "tag"@,
        "registry-index"@ != "version"@,
        "registry-index"@ != "workspace"@,
        "registry_index"@ != "rev"@,
        "registry_index"@ != "tag"@,
        "registry_index"@ != "version"@,
        "registry_index"@ != "workspace"@,
        "rev"@ != "tag"@,
        "rev"@ != "version"@,
        "rev"@ != "workspace"@,
        "tag"@ != "version"@,
        "tag"@ != "workspace"@,
        "version"@ != "workspace"@,
{
    reveal_strlit("branch");
    reveal_strlit("default-features");
    reveal_strlit("default_features");
    reveal_strlit("features");
    reveal_strlit("git");
    reveal_strlit("optional");
    reveal_strlit("package");
    reveal_strlit("path");
    reveal_strlit("registry");
    reveal_strlit("registry-index");
    reveal_strlit("registry_index");
    reveal_strlit("rev");
    reveal_strlit("tag");
    reveal_strlit("version");
    reveal_strlit("workspace");
    assert(("branch"@).len() == 6);
    assert(("default-features"@).len() == 16);
    assert(("default_features"@).len() == 16);
    assert(("features"@).len() == 8);
    assert(("git"@).len() == 3);
    assert(("optional"@).len() == 8);
    assert(("package"@).len() == 7);
    assert(("path"@).len() == 4);
    assert(("registry"@).len() == 8);
    assert(("registry-index"@).len() == 14);
    assert(("registry_index"@).len() == 14);
    assert(("rev"@).len() == 3);
    assert(("tag"@).len() == 3);
    assert(("version"@).len() == 7);
    assert(("workspace"@).len() == 9);
    lemma_seq_neq_at("default-features"@, "default_features"@, 7);
    lemma_seq_neq_at("features"@, "optional"@, 0);
    lemma_seq_neq_at("features"@, "registry"@, 0);
    lemma_seq_neq_at("git"@, "rev"@, 0);
    lemma_seq_neq_at("git"@, "tag"@, 0);
    lemma_seq_neq_at("optional"@, "registry"@, 0);
    lemma_seq_neq_at("package"@, "version"@, 0);
    lemma_seq_neq_at("registry-index"@, "registry_index"@, 8);
    lemma_seq_neq_at("rev"@, "tag"@, 0);
}

/// A detailed dependency as a table, with absent fields omitted.

#[verifier::rlimit(100)]
pub(crate) fn ser_dep_detail(d: &DependencyDetail) -> (r: Vec<(String, TomlValue)>)
    ensures
        dep_detail_ok(r@),
        dep_detail_from(r@, *d),
{
    let mut t: Vec<(String, TomlValue)> = Vec::new();
    let g_version_v: Option<TomlValue> = ser_opt_string(&d.version);
    let ghost g_version = g_version_v;
    let g_registry_v: Option<TomlValue> = ser_opt_string(&d.registry);
    let ghost g_registry = g_registry_v;
    let g_registry_index_v: Option<TomlValue> = ser_opt_string(&d.registry_index);
    let ghost g_registry_index = g_registry_index_v;
    let g_path_v: Option<TomlValue> = ser_opt_string(&d.path);
    let ghost g_path = g_path_v;
    let g_git_v: Option<TomlValue> = ser_opt_string(&d.git);
    let ghost g_git = g_git_v;
    let g_branch_v: Option<TomlValue> = ser_opt_string(&d.branch);
    let ghost g_branch = g_branch_v;
    let g_tag_v: Option<TomlValue> = ser_opt_string(&d.tag);
    let ghost g_tag = g_tag_v;
    let g_rev_v: Option<TomlValue> = ser_opt_string(&d.rev);
    let ghost g_rev = g_rev_v;
    let g_features_v: Option<TomlValue> = ser_opt_strings(&d.features);
    let ghost g_features = g_features_v;
    let g_optional_v: Option<TomlValue> = ser_opt_bool(&d.optional);
    let ghost g_optional = g_optional_v;
    let g_workspace_v: Option<TomlValue> = ser_opt_bool(&d.workspace);
    let ghost g_workspace = g_workspace_v;
    let g_default_features_v: Option<TomlValue> = ser_opt_bool(&d.default_features);
    let ghost g_default_features = g_default_features_v;
    let g_package_v: Option<TomlValue> = ser_opt_string(&d.package);
    let ghost g_package = g_package_v;
    push_opt_value(&mut t, "version", g_version_v);
    proof {
        dep_key_facts();
        assert(table_lookup(t@, "version"@) == g_version);
        assert(table_lookup(t@, "registry"@) is None);
        assert(table_lookup(t@, "registry-index"@) is None);
        assert(table_lookup(t@, "path"@) is None);
        assert(table_lookup(t@, "git"@) is None);
        assert(table_lookup(t@, "branch"@) is None);
        assert(table_lookup(t@, "tag"@) is None);
        assert(table_lookup(t@, "rev"@) is None);
        assert(table_lookup(t@, "features"@) is None);
        assert(table_lookup(t@, "optional"@) is None);
        assert(table_lookup(t@, "workspace"@) is None);
        assert(table_lookup(t@, "default-features"@) is None);
        assert(table_lookup(t@, "package"@) is None);
        assert(table_lookup(t@, "registry_index"@) is None);
        assert(table_lookup(t@, "default_features"@) is None);
    }
    push_opt_value(&mut t, "registry", g_registry_v);
    proof {
        dep_key_facts();
        assert(table_lookup(t@, "version"@) == g_version);
        assert(table_lookup(t@, "registry"@) == g_registry);
        assert(table_lookup(t@, "registry-index"@) is None);
        assert(table_lookup(t@, "path"@) is None);
        assert(table_lookup(t@, "git"@) is None);
        assert(table_lookup(t@, "branch"@) is None);
        assert(table_lookup(t@, "tag"@) is None);
        assert(table_lookup(t@, "rev"@) is None);
        assert(table_lookup(t@, "features"@) is None);
        assert(table_lookup(t@, "optional"@) is None);
        assert(table_lookup(t@, "workspace"@) is None);
        assert(table_lookup(t@, "default-features"@) is None);
        assert(table_lookup(t@, "package"@) is None);
        assert(table_lookup(t@, "registry_index"@) is None);
        assert(table_lookup(t@, "default_features"@) is None);
    }
    push_opt_value(&mut t, "registry-index", g_registry_index_v);
    proof {
        dep_key_facts();
        assert(table_lookup(t@, "version"@) == g_version);
        assert(table_lookup(t@, "registry"@) == g_registry);
        assert(table_lookup(t@, "registry-index"@) == g_registry_index);
        assert(table_lookup(t@, "path"@) is None);
        assert(table_lookup(t@, "git"@) is None);
        assert(table_lookup(t@, "branch"@) is None);
        assert(table_lookup(t@, "tag"@) is None);
        assert(table_lookup(t@, "rev"@) is None);
        assert(table_lookup(t@, "features"@) is None);
        assert(table_lookup(t@, "optional"@) is None);
        assert(table_lookup(t@, "workspace"@) is None);
        assert(table_lookup(t@, "default-features"@) is None);
        assert(table_lookup(t@, "package"@) is None);
        assert(table_lookup(t@, "registry_index"@) is None);
        assert(table_lookup(t@, "default_features"@) is None);
    }
    push_opt_value(&mut t, "path", g_path_v);
    proof {
        dep_key_facts();
        assert(table_lookup(t@, "version"@) == g_version);
        assert(table_lookup(t@, "registry"@) == g_registry);
        assert(table_lookup(t@, "registry-index"@) == g_registry_index);
        assert(table_lookup(t@, "path"@) == g_path);
        assert(table_lookup(t@, "git"@) is None);
        assert(table_lookup(t@, "branch"@) is None);
        assert(table_lookup(t@, "tag"@) is None);
        assert(table_lookup(t@, "rev"@) is None);
        assert(table_lookup(t@, "features"@) is None);
        assert(table_lookup(t@, "optional"@) is None);
        assert(table_lookup(t@, "workspace"@) is None);
        assert(table_lookup(t@, "default-features"@) is None);
        assert(table_lookup(t@, "package"@) is None);
        assert(table_lookup(t@, "registry_index"@) is None);
        assert(table_lookup(t@, "default_features"@) is None);
    }
    push_opt_value(&mut t, "git", g_git_v);
    proof {
        dep_key_facts();
        assert(table_lookup(t@, "version"@) == g_version);
        assert(table_lookup(t@, "registry"@) == g_registry);
        assert(table_lookup(t@, "registry-index"@) == g_registry_index);
        assert(table_lookup(t@, "path"@) == g_path);
        assert(table_lookup(t@, "git"@) == g_git);
        assert(table_lookup(t@, "branch"@) is None);
        assert(table_lookup(t@, "tag"@) is None);
        assert(table_lookup(t@, "rev"@) is None);
        assert(table_lookup(t@, "features"@) is None);
        assert(table_lookup(t@, "optional"@) is None);
        assert(table_lookup(t@, "workspace"@) is None);
        assert(table_lookup(t@, "default-features"@) is None);
        assert(table_lookup(t@, "package"@) is None);
        assert(table_lookup(t@, "registry_index"@) is None);
        assert(table_lookup(t@, "default_features"@) is None);
    }
    push_opt_value(&mut t, "branch", g_branch_v);
    proof {
        dep_key_facts();
        assert(table_lookup(t@, "version"@) == g_version);
        assert(table_lookup(t@, "registry"@) == g_registry);
        assert(table_lookup(t@, "registry-index"@) == g_registry_index);
        assert(table_lookup(t@, "path"@) == g_path);
        assert(table_lookup(t@, "git"@) == g_git);
        assert(table_lookup(t@, "branch"@) == g_branch);
        assert(table_lookup(t@, "tag"@) is None);
        assert(table_lookup(t@, "rev"@) is None);
        assert(table_lookup(t@, "features"@) is None);
        assert(table_lookup(t@, "optional"@) is None);
        assert(table_lookup(t@, "workspace"@) is None);
        assert(table_lookup(t@, "default-features"@) is None);
        assert(table_lookup(t@, "package"@) is None);
        assert(table_lookup(t@, "registry_index"@) is None);
        assert(table_lookup(t@, "default_features"@) is None);
    }
    push_opt_value(&mut t, "tag", g_tag_v);
    proof {
        dep_key_facts();
        assert(table_lookup(t@, "version"@) == g_version);
        assert(table_lookup(t@, "registry"@) == g_registry);
        assert(table_lookup(t@, "registry-index"@) == g_registry_index);
        assert(table_lookup(t@, "path"@) == g_path);
        assert(table_lookup(t@, "git"@) == g_git);
        assert(table_lookup(t@, "branch"@) == g_branch);
        assert(table_lookup(t@, "tag"@) == g_tag);
        assert(table_lookup(t@, "rev"@) is None);
        assert(table_lookup(t@, "features"@) is None);
        assert(table_lookup(t@, "optional"@) is None);
        assert(table_lookup(t@, "workspace"@) is None);
        assert(table_lookup(t@, "default-features"@) is None);
        assert(table_lookup(t@, "package"@) is None);
        assert(table_lookup(t@, "registry_index"@) is None);
        assert(table_lookup(t@, "default_features"@) is None);
    }
    push_opt_value(&mut t, "rev", g_rev_v);
    proof {
        dep_key_facts();
        assert(table_lookup(t@, "version"@) == g_version);
        assert(table_lookup(t@, "registry"@) == g_registry);
        assert(table_lookup(t@, "registry-index"@) == g_registry_index);
        assert(table_lookup(t@, "path"@) == g_path);
        assert(table_lookup(t@, "git"@) == g_git);
        assert(table_lookup(t@, "branch"@) == g_branch);
        assert(table_lookup(t@, "tag"@) == g_tag);
        assert(table_lookup(t@, "rev"@) == g_rev);
        assert(table_lookup(t@, "features"@) is None);
        assert(table_lookup(t@, "optional"@) is None);
        assert(table_lookup(t@, "workspace"@) is None);
        assert(table_lookup(t@, "default-features"@) is None);
        assert(table_lookup(t@, "package"@) is None);
        assert(table_lookup(t@, "registry_index"@) is None);
        assert(table_lookup(t@, "default_features"@) is None);
    }
    push_opt_value(&mut t, "features", g_features_v);
    proof {
        dep_key_facts();
        assert(table_lookup(t@, "version"@) == g_version);
        assert(table_lookup(t@, "registry"@) == g_registry);
        assert(table_lookup(t@, "registry-index"@) == g_registry_index);
        assert(table_lookup(t@, "path"@) == g_path);
        assert(table_lookup(t@, "git"@) == g_git);
        assert(table_lookup(t@, "branch"@) == g_branch);
        assert(table_lookup(t@, "tag"@) == g_tag);
        assert(table_lookup(t@, "rev"@) == g_rev);
        assert(table_lookup(t@, "features"@) == g_features);
        assert(table_lookup(t@, "optional"@) is None);
        assert(table_lookup(t@, "workspace"@) is None);
        assert(table_lookup(t@, "default-features"@) is None);
        assert(table_lookup(t@, "package"@) is None);
        assert(table_lookup(t@, "registry_index"@) is None);
        assert(table_lookup(t@, "default_features"@) is None);
    }
    push_opt_value(&mut t, "optional", g_optional_v);
    proof {
        dep_key_facts();
        assert(table_lookup(t@, "version"@) == g_version);
        assert(table_lookup(t@, "registry"@) == g_registry);
        assert(table_lookup(t@, "registry-index"@) == g_registry_index);
        assert(table_lookup(t@, "path"@) == g_path);
        assert(table_lookup(t@, "git"@) == g_git);
        assert(table_lookup(t@, "branch"@) == g_branch);
        assert(table_lookup(t@, "tag"@) == g_tag);
        assert(table_lookup(t@, "rev"@) == g_rev);
        assert(table_lookup(t@, "features"@) == g_features);
        assert(table_lookup(t@, "optional"@) == g_optional);
        assert(table_lookup(t@, "workspace"@) is None);
        assert(table_lookup(t@, "default-features"@) is None);
        assert(table_lookup(t@, "package"@) is None);
        assert(table_lookup(t@, "registry_index"@) is None);
        assert(table_lookup(t@, "default_features"@) is None);
    }
    push_opt_value(&mut t, "workspace", g_workspace_v);
    proof {
        dep_key_facts();
        assert(table_lookup(t@, "version"@) == g_version);
        assert(table_lookup(t@, "registry"@) == g_registry);
        assert(table_lookup(t@, "registry-index"@) == g_registry_index);
        assert(table_lookup(t@, "path"@) == g_path);
        assert(table_lookup(t@, "git"@) == g_git);
        assert(table_lookup(t@, "branch"@) == g_branch);
        assert(table_lookup(t@, "tag"@) == g_tag);
        assert(table_lookup(t@, "rev"@) == g_rev);
        assert(table_lookup(t@, "features"@) == g_features);
        assert(table_lookup(t@, "optional"@) == g_optional);
        assert(table_lookup(t@, "workspace"@) == g_workspace);
        assert(table_lookup(t@, "default-features"@) is None);
        assert(table_lookup(t@, "package"@) is None);
        assert(table_lookup(t@, "registry_index"@) is None);
        assert(table_lookup(t@, "default_features"@) is None);
    }
    push_opt_value(&mut t, "default-features", g_default_features_v);
    proof {
        dep_key_facts();
        assert(table_lookup(t@, "version"@) == g_version);
        assert(table_lookup(t@, "registry"@) == g_registry);
        assert(table_lookup(t@, "registry-index"@) == g_registry_index);
        assert(table_lookup(t@, "path"@) == g_path);
        assert(table_lookup(t@, "git"@) == g_git);
        assert(table_lookup(t@, "branch"@) == g_branch);
        assert(table_lookup(t@, "tag"@) == g_tag);
        assert(table_lookup(t@, "rev"@) == g_rev);
        assert(table_lookup(t@, "features"@) == g_features);
        assert(table_lookup(t@, "optional"@) == g_optional);
        assert(table_lookup(t@, "workspace"@) == g_workspace);
        assert(table_lookup(t@, "default-features"@) == g_default_features);
        assert(table_lookup(t@, "package"@) is None);
        assert(table_lookup(t@, "registry_index"@) is None);
        assert(table_lookup(t@, "default_features"@) is None);
    }
    push_opt_value(&mut t, "package", g_package_v);
    proof {
        dep_key_facts();
        assert(table_lookup(t@, "version"@) == g_version);
        assert(table_lookup(t@, "registry"@) == g_registry);
        assert(table_lookup(t@, "registry-index"@) == g_registry_index);
        assert(table_lookup(t@, "path"@) == g_path);
        assert(table_lookup(t@, "git"@) == g_git);
        assert(table_lookup(t@, "branch"@) == g_branch);
        assert(table_lookup(t@, "tag"@) == g_tag);
        assert(table_lookup(t@, "rev"@) == g_rev);
        assert(table_lookup(t@, "features"@) == g_features);
        assert(table_lookup(t@, "optional"@) == g_optional);
        assert(table_lookup(t@, "workspace"@) == g_workspace);
        assert(table_lookup(t@, "default-features"@) == g_default_features);
        assert(table_lookup(t@, "package"@) == g_package);
        assert(table_lookup(t@, "registry_index"@) is None);
        assert(table_lookup(t@, "default_features"@) is None);
    }
    proof {
        dep_key_facts();
        assert(dep_detail_ok(t@));
        assert(dep_detail_from(t@, *d));
    }
    t
}

proof fn product_key_facts()
    ensures
        "bench"@ != "crate-type"@,
        "bench"@ != "crate_type"@,
        "bench"@ != "doc"@,
        "bench"@ != "doctest"@,
        "bench"@ != "edition"@,
        "bench"@ != "harness"@,
        "bench"@ != "name"@,
        "bench"@ != "path"@,
        "bench"@ != "plugin"@,
        "bench"@ != "proc-macro"@,
        "bench"@ != "proc_macro"@,
        "bench"@ != "required-features"@,
        "bench"@ != "required_features"@,
        "bench"@ != "test"@,
        "crate-type"@ != "crate_type"@,
        "crate-type"@ != "doc"@,
        "crate-type"@ != "doctest"@,
        "crate-type"@ != "edition"@,
        "crate-type"@ != "harness"@,
        "crate-type"@ != "name"@,
        "crate-type"@ != "path"@,
        "crate-type"@ != "plugin"@,
        "crate-type"@ != "proc-macro"@,
        "crate-type"@ != "proc_macro"@,
        "crate-type"@ != "required-features"@,
        "crate-type"@ != "required_features"@,
        "crate-type"@ != "test"@,
        "crate_type"@ != "doc"@,
        "crate_type"@ != "doctest"@,
        "crate_type"@ != "edition"@,
        "crate_type"@ != "harness"@,
        "crate_type"@ != "name"@,
        "crate_type"@ != "path"@,
        "crate_type"@ != "plugin"@,
        "crate_type"@ != "proc-macro"@,
        "crate_type"@ != "proc_macro"@,
        "crate_type"@ != "required-features"@,
        "crate_type"@ != "required_features"@,
        "crate_type"@ != "test"@,
        "doc"@ != "doctest"@,
        "doc"@ != "edition"@,
        "doc"@ != "harness"@,
        "doc"@ != "name"@,
        "doc"@ != "path"@,
        "doc"@ != "plugin"@,
        "doc"@ != "proc-macro"@,
        "doc"@ != "proc_macro"@,
        "doc"@ != "required-features"@,
        "doc"@ != "required_features"@,
        "doc"@ != "test"@,
        "doctest"@ != "edition"@,
        "doctest"@ != "harness"@,
        "doctest"@ != "name"@,
        "doctest"@ != "path"@,
        "doctest"@ != "plugin"@,
        "doctest"@ != "proc-macro"@,
        "doctest"@ != "proc_macro"@,
        "doctest"@ != "required-features"@,
        "doctest"@ != "required_features"@,
        "doctest"@ != "test"@,
        "edition"@ != "harness"@,
        "edition"@ != "name"@,
        "edition"@ != "path"@,
        "edition"@ != "plugin"@,
        "edition"@ != "proc-macro"@,
        "edition"@ != "proc_macro"@,
        "edition"@ != "required-features"@,
        "edition"@ != "required_features"@,
        "edition"@ != "test"@,
        "harness"@ != "name"@,
        "harness"@ != "path"@,
        "harness"@ != "plugin"@,
        "harness"@ != "proc-macro"@,
        "harness"@ != "proc_macro"@,
        "harness"@ != "required-features"@,
        "harness"@ != "required_features"@,
        "harness"@ != "test"@,
        "name"@ != "path"@,
        "name"@ != "plugin"@,
        "name"@ != "proc-macro"@,
        "name"@ != "proc_macro"@,
        "name"@ != "required-features"@,
        "name"@ != "required_features"@,
        "name"@ != "test"@,
        "path"@ != "plugin"@,
        "path"@ != "proc-macro"@,
        "path"@ != "proc_macro"@,
        "path"@ != "required-features"@,
        "path"@ != "required_features"@,
        "path"@ != "test"@,
        "plugin"@ != "proc-macro"@,
        "plugin"@ != "proc_macro"@,
        "plugin"@ != "required-features"@,
        "plugin"@ != "required_features"@,
        "plugin"@ != "test"@,
        "proc-macro"@ != "proc_macro"@,
        "proc-macro"@ != "required-features"@,
        "proc-macro"@ != "required_features"@,
        "proc-macro"@ != "test"@,
        "proc_macro"@ != "required-features"@,
        "proc_macro"@ != "required_features"@,
        "proc_macro"@ != "test"@,
        "required-features"@ != "required_features"@,
        "required-features"@ != "test"@,
        "required_features"@ != "test"@,
{
    reveal_strlit("bench");
    reveal_strlit("crate-type");
    reveal_strlit("crate_type");
    reveal_strlit("doc");
    reveal_strlit("doctest");
    reveal_strlit("edition");
    reveal_strlit("harness");
    reveal_strlit("name");
    reveal_strlit("path");
    reveal_strlit("plugin");
    reveal_strlit("proc-macro");
    reveal_strlit("proc_macro");
    reveal_strlit("required-features");
    reveal_strlit("required_features");
    reveal_strlit("test");
    assert(("bench"@).len() == 5);
    assert(("crate-type"@).len() == 10);
    assert(("crate_type"@).len() == 10);
    assert(("doc"@).len() == 3);
    assert(("doctest"@).len() == 7);
    assert(("edition"@).len() == 7);
    assert(("harness"@).len() == 7);
    assert(("name"@).len() == 4);
    assert(("path"@).len() == 4);
    assert(("plugin"@).len() == 6);
    assert(("proc-macro"@).len() == 10);
    assert(("proc_macro"@).len() == 10);
    assert(("required-features"@).len() == 17);
    assert(("required_features"@).len() == 17);
    assert(("test"@).len() == 4);
    lemma_seq_neq_at("crate-type"@, "crate_type"@, 5);
    lemma_seq_neq_at("crate-type"@, "proc-macro"@, 0);
    lemma_seq_neq_at("crate-type"@, "proc_macro"@, 0);
    lemma_seq_neq_at("crate_type"@, "proc-macro"@, 0);
    lemma_seq_neq_at("crate_type"@, "proc_macro"@, 0);
    lemma_seq_neq_at("doctest"@, "edition"@, 0);
    lemma_seq_neq_at("doctest"@, "harness"@, 0);
    lemma_seq_neq_at("edition"@, "harness"@, 0);
    lemma_seq_neq_at("name"@, "path"@, 0);
    lemma_seq_neq_at("name"@, "test"@, 0);
    lemma_seq_neq_at("path"@, "test"@, 0);
    lemma_seq_neq_at("proc-macro"@, "proc_macro"@, 4);
    lemma_seq_neq_at("required-features"@, "required_features"@, 8);
}

/// A product as a table: flags and the required-features list are always

/// written, the optional fields only when set.

#[verifier::rlimit(100)]
pub(crate) fn ser_product(p: &Product) -> (r: TomlValue)
    ensures
        product_ok(r),
        product_from(r, *p),
{
    let mut t: Vec<(String, TomlValue)> = Vec::new();
    let g_path_v: Option<TomlValue> = ser_opt_string(&p.path);
    let ghost g_path = g_path_v;
    let g_name_v: Option<TomlValue> = ser_opt_string(&p.name);
    let ghost g_name = g_name_v;
    let g_test_v: Option<TomlValue> = Some(TomlValue::Bool(p.test));
    let ghost g_test = g_test_v;
    let g_doctest_v: Option<TomlValue> = Some(TomlValue::Bool(p.doctest));
    let ghost g_doctest = g_doctest_v;
    let g_bench_v: Option<TomlValue> = Some(TomlValue::Bool(p.bench));
    let ghost g_bench = g_bench_v;
    let g_doc_v: Option<TomlValue> = Some(TomlValue::Bool(p.doc));
    let ghost g_doc = g_doc_v;
    let g_plugin_v: Option<TomlValue> = Some(TomlValue::Bool(p.plugin));
    let ghost g_plugin = g_plugin_v;
    let g_proc_macro_v: Option<TomlValue> = Some(TomlValue::Bool(p.proc_macro));
    let ghost g_proc_macro = g_proc_macro_v;
    let g_harness_v: Option<TomlValue> = Some(TomlValue::Bool(p.harness));
    let ghost g_harness = g_harness_v;
    let g_edition_v: Option<TomlValue> = ser_opt_edition(&p.edition);
    let ghost g_edition = g_edition_v;
    let g_required_features_v: Option<TomlValue> = Some(ser_strings(&p.required_features));
    let ghost g_required_features = g_required_features_v;
    let g_crate_type_v: Option<TomlValue> = ser_opt_strings(&p.crate_type);
    let ghost g_crate_type = g_crate_type_v;
    push_opt_value(&mut t, "path", g_path_v);
    proof {
        product_key_facts();
        assert(table_lookup(t@, "path"@) == g_path);
        assert(table_lookup(t@, "name"@) is None);
        assert(table_lookup(t@, "test"@) is None);
        assert(table_lookup(t@, "doctest"@) is None);
        assert(table_lookup(t@, "bench"@) is None);
        assert(table_lookup(t@, "doc"@) is None);
        assert(table_lookup(t@, "plugin"@) is None);
        assert(table_lookup(t@, "proc-macro"@) is None);
        assert(table_lookup(t@, "harness"@) is None);
        assert(table_lookup(t@, "edition"@) is None);
        assert(table_lookup(t@, "required-features"@) is None);
        assert(table_lookup(t@, "crate-type"@) is None);
        assert(table_lookup(t@, "proc_macro"@) is None);
        assert(table_lookup(t@, "required_features"@) is None);
        assert(table_lookup(t@, "crate_type"@) is None);
    }
    push_opt_value(&mut t, "name", g_name_v);
    proof {
        product_key_facts();
        assert(table_lookup(t@, "path"@) == g_path);
        assert(table_lookup(t@, "name"@) == g_name);
        assert(table_lookup(t@, "test"@) is None);
        assert(table_lookup(t@, "doctest"@) is None);
        assert(table_lookup(t@, "bench"@) is None);
        assert(table_lookup(t@, "doc"@) is None);
        assert(table_lookup(t@, "plugin"@) is None);
        assert(table_lookup(t@, "proc-macro"@) is None);
        assert(table_lookup(t@, "harness"@) is None);
        assert(table_lookup(t@, "edition"@) is None);
        assert(table_lookup(t@, "required-features"@) is None);
        assert(table_lookup(t@, "crate-type"@) is None);
        assert(table_lookup(t@, "proc_macro"@) is None);
        assert(table_lookup(t@, "required_features"@) is None);
        assert(table_lookup(t@, "crate_type"@) is None);
    }
    push_opt_value(&mut t, "test", g_test_v);
    proof {
        product_key_facts();
        assert(table_lookup(t@, "path"@) == g_path);
        assert(table_lookup(t@, "name"@) == g_name);
        assert(table_lookup(t@, "test"@) == g_test);
        assert(table_lookup(t@, "doctest"@) is None);
        assert(table_lookup(t@, "bench"@) is None);
        assert(table_lookup(t@, "doc"@) is None);
        assert(table_lookup(t@, "plugin"@) is None);
        assert(table_lookup(t@, "proc-macro"@) is None);
        assert(table_lookup(t@, "harness"@) is None);
        assert(table_lookup(t@, "edition"@) is None);
        assert(table_lookup(t@, "required-features"@) is None);
        assert(table_lookup(t@, "crate-type"@) is None);
        assert(table_lookup(t@, "proc_macro"@) is None);
        assert(table_lookup(t@, "required_features"@) is None);
        assert(table_lookup(t@, "crate_type"@) is None);
    }
    push_opt_value(&mut t, "doctest", g_doctest_v);
    proof {
        product_key_facts();
        assert(table_lookup(t@, "path"@) == g_path);
        assert(table_lookup(t@, "name"@) == g_name);
        assert(table_lookup(t@, "test"@) == g_test);
        assert(table_lookup(t@, "doctest"@) == g_doctest);
        assert(table_lookup(t@, "bench"@) is None);
        assert(table_lookup(t@, "doc"@) is None);
        assert(table_lookup(t@, "plugin"@) is None);
        assert(table_lookup(t@, "proc-macro"@) is None);
        assert(table_lookup(t@, "harness"@) is None);
        assert(table_lookup(t@, "edition"@) is None);
        assert(table_lookup(t@, "required-features"@) is None);
        assert(table_lookup(t@, "crate-type"@) is None);
        assert(table_lookup(t@, "proc_macro"@) is None);
        assert(table_lookup(t@, "required_features"@) is None);
        assert(table_lookup(t@, "crate_type"@) is None);
    }
    push_opt_value(&mut t, "bench", g_bench_v);
    proof {
        product_key_facts();
        assert(table_lookup(t@, "path"@) == g_path);
        assert(table_lookup(t@, "name"@) == g_name);
        assert(table_lookup(t@, "test"@) == g_test);
        assert(table_lookup(t@, "doctest"@) == g_doctest);
        assert(table_lookup(t@, "bench"@) == g_bench);
        assert(table_lookup(t@, "doc"@) is None);
        assert(table_lookup(t@, "plugin"@) is None);
        assert(table_lookup(t@, "proc-macro"@) is None);
        assert(table_lookup(t@, "harness"@) is None);
        assert(table_lookup(t@, "edition"@) is None);
        assert(table_lookup(t@, "required-features"@) is None);
        assert(table_lookup(t@, "crate-type"@) is None);
        assert(table_lookup(t@, "proc_macro"@) is None);
        assert(table_lookup(t@, "required_features"@) is None);
        assert(table_lookup(t@, "crate_type"@) is None);
    }
    push_opt_value(&mut t, "doc", g_doc_v);
    proof {
        product_key_facts();
        assert(table_lookup(t@, "path"@) == g_path);
        assert(table_lookup(t@, "name"@) == g_name);
        assert(table_lookup(t@, "test"@) == g_test);
        assert(table_lookup(t@, "doctest"@) == g_doctest);
        assert(table_lookup(t@, "bench"@) == g_bench);
        assert(table_lookup(t@, "doc"@) == g_doc);
        assert(table_lookup(t@, "plugin"@) is None);
        assert(table_lookup(t@, "proc-macro"@) is None);
        assert(table_lookup(t@, "harness"@) is None);
        assert(table_lookup(t@, "edition"@) is None);
        assert(table_lookup(t@, "required-features"@) is None);
        assert(table_lookup(t@, "crate-type"@) is None);
        assert(table_lookup(t@, "proc_macro"@) is None);
        assert(table_lookup(t@, "required_features"@) is None);
        assert(table_lookup(t@, "crate_type"@) is None);
    }
    push_opt_value(&mut t, "plugin", g_plugin_v);
    proof {
        product_key_facts();
        assert(table_lookup(t@, "path"@) == g_path);
        assert(table_lookup(t@, "name"@) == g_name);
        assert(table_lookup(t@, "test"@) == g_test);
        assert(table_lookup(t@, "doctest"@) == g_doctest);
        assert(table_lookup(t@, "bench"@) == g_bench);
        assert(table_lookup(t@, "doc"@) == g_doc);
        assert(table_lookup(t@, "plugin"@) == g_plugin);
        assert(table_lookup(t@, "proc-macro"@) is None);
        assert(table_lookup(t@, "harness"@) is None);
        assert(table_lookup(t@, "edition"@) is None);
        assert(table_lookup(t@, "required-features"@) is None);
        assert(table_lookup(t@, "crate-type"@) is None);
        assert(table_lookup(t@, "proc_macro"@) is None);
        assert(table_lookup(t@, "required_features"@) is None);
        assert(table_lookup(t@, "crate_type"@) is None);
    }
    push_opt_value(&mut t, "proc-macro", g_proc_macro_v);
    proof {
        product_key_facts();
        assert(table_lookup(t@, "path"@) == g_path);
        assert(table_lookup(t@, "name"@) == g_name);
        assert(table_lookup(t@, "test"@) == g_test);
        assert(table_lookup(t@, "doctest"@) == g_doctest);
        assert(table_lookup(t@, "bench"@) == g_bench);
        assert(table_lookup(t@, "doc"@) == g_doc);
        assert(table_lookup(t@, "plugin"@) == g_plugin);
        assert(table_lookup(t@, "proc-macro"@) == g_proc_macro);
        assert(table_lookup(t@, "harness"@) is None);
        assert(table_lookup(t@, "edition"@) is None);
        assert(table_lookup(t@, "required-features"@) is None);
        assert(table_lookup(t@, "crate-type"@) is None);
        assert(table_lookup(t@, "proc_macro"@) is None);
        assert(table_lookup(t@, "required_features"@) is None);
        assert(table_lookup(t@, "crate_type"@) is None);
    }
    push_opt_value(&mut t, "harness", g_harness_v);
    proof {
        product_key_facts();
        assert(table_lookup(t@, "path"@) == g_path);
        assert(table_lookup(t@, "name"@) == g_name);
        assert(table_lookup(t@, "test"@) == g_test);
        assert(table_lookup(t@, "doctest"@) == g_doctest);
        assert(table_lookup(t@, "bench"@) == g_bench);
        assert(table_lookup(t@, "doc"@) == g_doc);
        assert(table_lookup(t@, "plugin"@) == g_plugin);
        assert(table_lookup(t@, "proc-macro"@) == g_proc_macro);
        assert(table_lookup(t@, "harness"@) == g_harness);
        assert(table_lookup(t@, "edition"@) is None);
        assert(table_lookup(t@, "required-features"@) is None);
        assert(table_lookup(t@, "crate-type"@) is None);
        assert(table_lookup(t@, "proc_macro"@) is None);
        assert(table_lookup(t@, "required_features"@) is None);
        assert(table_lookup(t@, "crate_type"@) is None);
    }
    push_opt_value(&mut t, "edition", g_edition_v);
    proof {
        product_key_facts();
        assert(table_lookup(t@, "path"@) == g_path);
        assert(table_lookup(t@, "name"@) == g_name);
        assert(table_lookup(t@, "test"@) == g_test);
        assert(table_lookup(t@, "doctest"@) == g_doctest);
        assert(table_lookup(t@, "bench"@) == g_bench);
        assert(table_lookup(t@, "doc"@) == g_doc);
        assert(table_lookup(t@, "plugin"@) == g_plugin);
        assert(table_lookup(t@, "proc-macro"@) == g_proc_macro);
        assert(table_lookup(t@, "harness"@) == g_harness);
        assert(table_lookup(t@, "edition"@) == g_edition);
        assert(table_lookup(t@, "required-features"@) is None);
        assert(table_lookup(t@, "crate-type"@) is None);
        assert(table_lookup(t@, "proc_macro"@) is None);
        assert(table_lookup(t@, "required_features"@) is None);
        assert(table_lookup(t@, "crate_type"@) is None);
    }
    push_opt_value(&mut t, "required-features", g_required_features_v);
    proof {
        product_key_facts();
        assert(table_lookup(t@, "path"@) == g_path);
        assert(table_lookup(t@, "name"@) == g_name);
        assert(table_lookup(t@, "test"@) == g_test);
        assert(table_lookup(t@, "doctest"@) == g_doctest);
        assert(table_lookup(t@, "bench"@) == g_bench);
        assert(table_lookup(t@, "doc"@) == g_doc);
        assert(table_lookup(t@, "plugin"@) == g_plugin);
        assert(table_lookup(t@, "proc-macro"@) == g_proc_macro);
        assert(table_lookup(t@, "harness"@) == g_harness);
        assert(table_lookup(t@, "edition"@) == g_edition);
        assert(table_lookup(t@, "required-features"@) == g_required_features);
        assert(table_lookup(t@, "crate-type"@) is None);
        assert(table_lookup(t@, "proc_macro"@) is None);
        assert(table_lookup(t@, "required_features"@) is None);
        assert(table_lookup(t@, "crate_type"@) is None);
    }
    push_opt_value(&mut t, "crate-type", g_crate_type_v);
    proof {
        product_key_facts();
        assert(table_lookup(t@, "path"@) == g_path);
        assert(table_lookup(t@, "name"@) == g_name);
        assert(table_lookup(t@, "test"@) == g_test);
        assert(table_lookup(t@, "doctest"@) == g_doctest);
        assert(table_lookup(t@, "bench"@) == g_bench);
        assert(table_lookup(t@, "doc"@) == g_doc);
        assert(table_lookup(t@, "plugin"@) == g_plugin);
        assert(table_lookup(t@, "proc-macro"@) == g_proc_macro);
        assert(table_lookup(t@, "harness"@) == g_harness);
        assert(table_lookup(t@, "edition"@) == g_edition);
        assert(table_lookup(t@, "required-features"@) == g_required_features);
        assert(table_lookup(t@, "crate-type"@) == g_crate_type);
        assert(table_lookup(t@, "proc_macro"@) is None);
        assert(table_lookup(t@, "required_features"@) is None);
        assert(table_lookup(t@, "crate_type"@) is None);
    }
    proof {
        product_key_facts();
        assert(product_ok(TomlValue::Table(t)));
        assert(product_from(TomlValue::Table(t), *p));
    }
    TomlValue::Table(t)
}

proof fn badge_key_facts()
    ensures
        "branch"@ != "id"@,
        "branch"@ != "project-name"@,
        "branch"@ != "project_name"@,
        "branch"@ != "repository"@,
        "branch"@ != "service"@,
        "id"@ != "project-name"@,
        "id"@ != "project_name"@,
        "id"@ != "repository"@,
        "id"@ != "service"@,
        "project-name"@ != "project_name"@,
        "project-name"@ != "repository"@,
        "project-name"@ != "service"@,
        "project_name"@ != "repository"@,
        "project_name"@ != "service"@,
        "repository"@ != "service"@,
{
    reveal_strlit("branch");
    reveal_strlit("id");
    reveal_strlit("project-name");
    reveal_strlit("project_name");
    reveal_strlit("repository");
    reveal_strlit("service");
    assert(("branch"@).len() == 6);
    assert(("id"@).len() == 2);
    assert(("project-name"@).len() == 12);
    assert(("project_name"@).len() == 12);
    assert(("repository"@).len() == 10);
    assert(("service"@).len() == 7);
    lemma_seq_neq_at("project-name"@, "project_name"@, 7);
}

/// A badge as a table.

#[verifier::rlimit(100)]
pub(crate) fn ser_badge(b: &Badge) -> (r: TomlValue)
    ensures
        badge_ok(r),
        badge_from(r, *b),
{
    let mut t: Vec<(String, TomlValue)> = Vec::new();
    let g_repository_v: Option<TomlValue> = Some(TomlValue::Str(b.repository.clone()));
    let ghost g_repository = g_repository_v;
    let g_branch_v: Option<TomlValue> = Some(TomlValue::Str(b.branch.clone()));
    let ghost g_branch = g_branch_v;
    let g_service_v: Option<TomlValue> = ser_opt_string(&b.service);
    let ghost g_service = g_service_v;
    let g_id_v: Option<TomlValue> = ser_opt_string(&b.id);
    let ghost g_id = g_id_v;
    let g_project_name_v: Option<TomlValue> = ser_opt_string(&b.project_name);
    let ghost g_project_name = g_project_name_v;
    push_opt_value(&mut t, "repository", g_repository_v);
    proof {
        badge_key_facts();
        assert(table_lookup(t@, "repository"@) == g_repository);
        assert(table_lookup(t@, "branch"@) is None);
        assert(table_lookup(t@, "service"@) is None);
        assert(table_lookup(t@, "id"@) is None);
        assert(table_lookup(t@, "project-name"@) is None);
        assert(table_lookup(t@, "project_name"@) is None);
    }
    push_opt_value(&mut t, "branch", g_branch_v);
    proof {
        badge_key_facts();
        assert(table_lookup(t@, "repository"@) == g_repository);
        assert(table_lookup(t@, "branch"@) == g_branch);
        assert(table_lookup(t@, "service"@) is None);
        assert(table_lookup(t@, "id"@) is None);
        assert(table_lookup(t@, "project-name"@) is None);
        assert(table_lookup(t@, "project_name"@) is None);
    }
    push_opt_value(&mut t, "service", g_service_v);
    proof {
        badge_key_facts();
        assert(table_lookup(t@, "repository"@) == g_repository);
        assert(table_lookup(t@, "branch"@) == g_branch);
        assert(table_lookup(t@, "service"@) == g_service);
        assert(table_lookup(t@, "id"@) is None);
        assert(table_lookup(t@, "project-name"@) is None);
        assert(table_lookup(t@, "project_name"@) is None);
    }
    push_opt_value(&mut t, "id", g_id_v);
    proof {
        badge_key_facts();
        assert(table_lookup(t@, "repository"@) == g_repository);
        assert(table_lookup(t@, "branch"@) == g_branch);
        assert(table_lookup(t@, "service"@) == g_service);
        assert(table_lookup(t@, "id"@) == g_id);
        assert(table_lookup(t@, "project-name"@) is None);
        assert(table_lookup(t@, "project_name"@) is None);
    }
    push_opt_value(&mut t, "project-name", g_project_name_v);
    proof {
        badge_key_facts();
        assert(table_lookup(t@, "repository"@) == g_repository);
        assert(table_lookup(t@, "branch"@) == g_branch);
        assert(table_lookup(t@, "service"@) == g_service);
        assert(table_lookup(t@, "id"@) == g_id);
        assert(table_lookup(t@, "project-name"@) == g_project_name);
        assert(table_lookup(t@, "project_name"@) is None);
    }
    proof {
        badge_key_facts();
        assert(badge_ok(TomlValue::Table(t)));
        assert(badge_from(TomlValue::Table(t), *b));
    }
    TomlValue::Table(t)
}

proof fn badges_key_facts()
    ensures
        "appveyor"@ != "circle-ci"@,
        "appveyor"@ != "codecov"@,
        "appveyor"@ != "coveralls"@,
        "appveyor"@ != "gitlab"@,
        "appveyor"@ != "is-it-maintained-issue-resolution"@,
        "appveyor"@ != "is-it-maintained-open-issues"@,
        "appveyor"@ != "maintenance"@,
        "appveyor"@ != "travis-ci"@,
        "circle-ci"@ != "codecov"@,
        "circle-ci"@ != "coveralls"@,
        "circle-ci"@ != "gitlab"@,
        "circle-ci"@ != "is-it-maintained-issue-resolution"@,
        "circle-ci"@ != "is-it-maintained-open-issues"@,
        "circle-ci"@ != "maintenance"@,
        "circle-ci"@ != "travis-ci"@,
        "codecov"@ != "coveralls"@,
        "codecov"@ != "gitlab"@,
        "codecov"@ != "is-it-maintained-issue-resolution"@,
        "codecov"@ != "is-it-maintained-open-issues"@,
        "codecov"@ != "maintenance"@,
        "codecov"@ != "travis-ci"@,
        "coveralls"@ != "gitlab"@,
        "coveralls"@ != "is-it-maintained-issue-resolution"@,
        "coveralls"@ != "is-it-maintained-open-issues"@,
        "coveralls"@ != "maintenance"@,
        "coveralls"@ != "travis-ci"@,
        "gitlab"@ != "is-it-maintained-issue-resolution"@,
        "gitlab"@ != "is-it-maintained-open-issues"@,
        "gitlab"@ != "maintenance"@,
        "gitlab"@ != "travis-ci"@,
        "is-it-maintained-issue-resolution"@ != "is-it-maintained-open-issues"@,
        "is-it-maintained-issue-resolution"@ != "maintenance"@,
        "is-it-maintained-issue-resolution"@ != "travis-ci"@,
        "is-it-maintained-open-issues"@ != "maintenance"@,
        "is-it-maintained-open-issues"@ != "travis-ci"@,
        "maintenance"@ != "travis-ci"@,
{
    reveal_strlit("appveyor");
    reveal_strlit("circle-ci");
    reveal_strlit("codecov");
    reveal_strlit("coveralls");
    reveal_strlit("gitlab");
    reveal_strlit("is-it-maintained-issue-resolution");
    reveal_strlit("is-it-maintained-open-issues");
    reveal_strlit("maintenance");
    reveal_strlit("travis-ci");
    assert(("appveyor"@).len() == 8);
    assert(("circle-ci"@).len() == 9);
    assert(("codecov"@).len() == 7);
    assert(("coveralls"@).len() == 9);
    assert(("gitlab"@).len() == 6);
    assert(("is-it-maintained-issue-resolution"@).len() == 33);
    assert(("is-it-maintained-open-issues"@).len() == 28);
    assert(("maintenance"@).len() == 11);
    assert(("travis-ci"@).len() == 9);
    lemma_seq_neq_at("circle-ci"@, "coveralls"@, 1);
    lemma_seq_neq_at("circle-ci"@, "travis-ci"@, 0);
    lemma_seq_neq_at("coveralls"@, "travis-ci"@, 0);
}

/// The badges section as a table.

#[verifier::rlimit(100)]
pub(crate) fn ser_badges(b: &Badges) -> (r: TomlValue)
    ensures
        badges_ok(r),
        badges_from(r, *b),
{
    let mut t: Vec<(String, TomlValue)> = Vec::new();
    let g_appveyor_v: Option<TomlValue> = ser_opt_badge(&b.appveyor);
    let ghost g_appveyor = g_appveyor_v;
    let g_circle_ci_v: Option<TomlValue> = ser_opt_badge(&b.circle_ci);
    let ghost g_circle_ci = g_circle_ci_v;
    let g_gitlab_v: Option<TomlValue> = ser_opt_badge(&b.gitlab);
    let ghost g_gitlab = g_gitlab_v;
    let g_travis_ci_v: Option<TomlValue> = ser_opt_badge(&b.travis_ci);
    let ghost g_travis_ci = g_travis_ci_v;
    let g_codecov_v: Option<TomlValue> = ser_opt_badge(&b.codecov);
    let ghost g_codecov = g_codecov_v;
    let g_coveralls_v: Option<TomlValue> = ser_opt_badge(&b.coveralls);
    let ghost g_coveralls = g_coveralls_v;
    let g_is_it_maintained_issue_resolution_v: Option<TomlValue> = ser_opt_badge(&b.is_it_maintained_issue_resolution);
    let ghost g_is_it_maintained_issue_resolution = g_is_it_maintained_issue_resolution_v;
    let g_is_it_maintained_open_issues_v: Option<TomlValue> = ser_opt_badge(&b.is_it_maintained_open_issues);
    let ghost g_is_it_maintained_open_issues = g_is_it_maintained_open_issues_v;
    let g_maintenance_v: Option<TomlValue> = Some(ser_maintenance(&b.maintenance));
    let ghost g_maintenance = g_maintenance_v;
    push_opt_value(&mut t, "appveyor", g_appveyor_v);
    proof {
        badges_key_facts();
        assert(table_lookup(t@, "appveyor"@) == g_appveyor);
        assert(table_lookup(t@, "circle-ci"@) is None);
        assert(table_lookup(t@, "gitlab"@) is None);
        assert(table_lookup(t@, "travis-ci"@) is None);
        assert(table_lookup(t@, "codecov"@) is None);
        assert(table_lookup(t@, "coveralls"@) is None);
        assert(table_lookup(t@, "is-it-maintained-issue-resolution"@) is None);
        assert(table_lookup(t@, "is-it-maintained-open-issues"@) is None);
        assert(table_lookup(t@, "maintenance"@) is None);
    }
    push_opt_value(&mut t, "circle-ci", g_circle_ci_v);
    proof {
        badges_key_facts();
        assert(table_lookup(t@, "appveyor"@) == g_appveyor);
        assert(table_lookup(t@, "circle-ci"@) == g_circle_ci);
        assert(table_lookup(t@, "gitlab"@) is None);
        assert(table_lookup(t@, "travis-ci"@) is None);
        assert(table_lookup(t@, "codecov"@) is None);
        assert(table_lookup(t@, "coveralls"@) is None);
        assert(table_lookup(t@, "is-it-maintained-issue-resolution"@) is None);
        assert(table_lookup(t@, "is-it-maintained-open-issues"@) is None);
        assert(table_lookup(t@, "maintenance"@) is None);
    }
    push_opt_value(&mut t, "gitlab", g_gitlab_v);
    proof {
        badges_key_facts();
        assert(table_lookup(t@, "appveyor"@) == g_appveyor);
        assert(table_lookup(t@, "circle-ci"@) == g_circle_ci);
        assert(table_lookup(t@, "gitlab"@) == g_gitlab);
        assert(table_lookup(t@, "travis-ci"@) is None);
        assert(table_lookup(t@, "codecov"@) is None);
        assert(table_lookup(t@, "coveralls"@) is None);
        assert(table_lookup(t@, "is-it-maintained-issue-resolution"@) is None);
        assert(table_lookup(t@, "is-it-maintained-open-issues"@) is None);
        assert(table_lookup(t@, "maintenance"@) is None);
    }
    push_opt_value(&mut t, "travis-ci", g_travis_ci_v);
    proof {
        badges_key_facts();
        assert(table_lookup(t@, "appveyor"@) == g_appveyor);
        assert(table_lookup(t@, "circle-ci"@) == g_circle_ci);
        assert(table_lookup(t@, "gitlab"@) == g_gitlab);
        assert(table_lookup(t@, "travis-ci"@) == g_travis_ci);
        assert(table_lookup(t@, "codecov"@) is None);
        assert(table_lookup(t@, "coveralls"@) is None);
        assert(table_lookup(t@, "is-it-maintained-issue-resolution"@) is None);
        assert(table_lookup(t@, "is-it-maintained-open-issues"@) is None);
        assert(table_lookup(t@, "maintenance"@) is None);
    }
    push_opt_value(&mut t, "codecov", g_codecov_v);
    proof {
        badges_key_facts();
        assert(table_lookup(t@, "appveyor"@) == g_appveyor);
        assert(table_lookup(t@, "circle-ci"@) == g_circle_ci);
        assert(table_lookup(t@, "gitlab"@) == g_gitlab);
        assert(table_lookup(t@, "travis-ci"@) == g_travis_ci);
        assert(table_lookup(t@, "codecov"@) == g_codecov);
        assert(table_lookup(t@, "coveralls"@) is None);
        assert(table_lookup(t@, "is-it-maintained-issue-resolution"@) is None);
        assert(table_lookup(t@, "is-it-maintained-open-issues"@) is None);
        assert(table_lookup(t@, "maintenance"@) is None);
    }
    push_opt_value(&mut t, "coveralls", g_coveralls_v);
    proof {
        badges_key_facts();
        assert(table_lookup(t@, "appveyor"@) == g_appveyor);
        assert(table_lookup(t@, "circle-ci"@) == g_circle_ci);
        assert(table_lookup(t@, "gitlab"@) == g_gitlab);
        assert(table_lookup(t@, "travis-ci"@) == g_travis_ci);
        assert(table_lookup(t@, "codecov"@) == g_codecov);
        assert(table_lookup(t@, "coveralls"@) == g_coveralls);
        assert(table_lookup(t@, "is-it-maintained-issue-resolution"@) is None);
        assert(table_lookup(t@, "is-it-maintained-open-issues"@) is None);
        assert(table_lookup(t@, "maintenance"@) is None);
    }
    push_opt_value(&mut t, "is-it-maintained-issue-resolution", g_is_it_maintained_issue_resolution_v);
    proof {
        badges_key_facts();
        assert(table_lookup(t@, "appveyor"@) == g_appveyor);
        assert(table_lookup(t@, "circle-ci"@) == g_circle_ci);
        assert(table_lookup(t@, "gitlab"@) == g_gitlab);
        assert(table_lookup(t@, "travis-ci"@) == g_travis_ci);
        assert(table_lookup(t@, "codecov"@) == g_codecov);
        assert(table_lookup(t@, "coveralls"@) == g_coveralls);
        assert(table_lookup(t@, "is-it-maintained-issue-resolution"@) == g_is_it_maintained_issue_resolution);
        assert(table_lookup(t@, "is-it-maintained-open-issues"@) is None);
        assert(table_lookup(t@, "maintenance"@) is None);
    }
    push_opt_value(&mut t, "is-it-maintained-open-issues", g_is_it_maintained_open_issues_v);
    proof {
        badges_key_facts();
        assert(table_lookup(t@, "appveyor"@) == g_appveyor);
        assert(table_lookup(t@, "circle-ci"@) == g_circle_ci);
        assert(table_lookup(t@, "gitlab"@) == g_gitlab);
        assert(table_lookup(t@, "travis-ci"@) == g_travis_ci);
        assert(table_lookup(t@, "codecov"@) == g_codecov);
        assert(table_lookup(t@, "coveralls"@) == g_coveralls);
        assert(table_lookup(t@, "is-it-maintained-issue-resolution"@) == g_is_it_maintained_issue_resolution);
        assert(table_lookup(t@, "is-it-maintained-open-issues"@) == g_is_it_maintained_open_issues);
        assert(table_lookup(t@, "maintenance"@) is None);
    }
    push_opt_value(&mut t, "maintenance", g_maintenance_v);
    proof {
        badges_key_facts();
        assert(table_lookup(t@, "appveyor"@) == g_appveyor);
        assert(table_lookup(t@, "circle-ci"@) == g_circle_ci);
        assert(table_lookup(t@, "gitlab"@) == g_gitlab);
        assert(table_lookup(t@, "travis-ci"@) == g_travis_ci);
        assert(table_lookup(t@, "codecov"@) == g_codecov);
        assert(table_lookup(t@, "coveralls"@) == g_coveralls);
        assert(table_lookup(t@, "is-it-maintained-issue-resolution"@) == g_is_it_maintained_issue_resolution);
        assert(table_lookup(t@, "is-it-maintained-open-issues"@) == g_is_it_maintained_open_issues);
        assert(table_lookup(t@, "maintenance"@) == g_maintenance);
    }
    proof {
        badges_key_facts();
        assert(badges_ok(TomlValue::Table(t)));
        assert(badges_from(TomlValue::Table(t), *b));
    }
    TomlValue::Table(t)
}

proof fn wsp_key_facts()
    ensures
        "authors"@ != "categories"@,
        "authors"@ != "description"@,
        "authors"@ != "documentation"@,
        "authors"@ != "edition"@,
        "authors"@ != "exclude"@,
        "authors"@ != "homepage"@,
        "authors"@ != "include"@,
        "authors"@ != "keywords"@,
        "authors"@ != "license"@,
        "authors"@ != "license-file"@,
        "authors"@ != "publish"@,
        "authors"@ != "readme"@,
        "authors"@ != "repository"@,
        "authors"@ != "rust-version"@,
        "authors"@ != "version"@,
        "categories"@ != "description"@,
        "categories"@ != "documentation"@,
        "categories"@ != "edition"@,
        "categories"@ != "exclude"@,
        "categories"@ != "homepage"@,
        "categories"@ != "include"@,
        "categories"@ != "keywords"@,
        "categories"@ != "license"@,
        "categories"@ != "license-file"@,
        "categories"@ != "publish"@,
        "categories"@ != "readme"@,
        "categories"@ != "repository"@,
        "categories"@ != "rust-version"@,
        "categories"@ != "version"@,
        "description"@ != "documentation"@,
        "description"@ != "edition"@,
        "description"@ != "exclude"@,
        "description"@ != "homepage"@,
        "description"@ != "include"@,
        "description"@ != "keywords"@,
        "description"@ != "license"@,
        "description"@ != "license-file"@,
        "description"@ != "publish"@,
        "description"@ != "readme"@,
        "description"@ != "repository"@,
        "description"@ != "rust-version"@,
        "description"@ != "version"@,
        "documentation"@ != "edition"@,
        "documentation"@ != "exclude"@,
        "documentation"@ != "homepage"@,
        "documentation"@ != "include"@,
        "documentation"@ != "keywords"@,
        "documentation"@ != "license"@,
        "documentation"@ != "license-file"@,
        "documentation"@ != "publish"@,
        "documentation"@ != "readme"@,
        "documentation"@ != "repository"@,
        "documentation"@ != "rust-version"@,
        "documentation"@ != "version"@,
        "edition"@ != "exclude"@,
        "edition"@ != "homepage"@,
        "edition"@ != "include"@,
        "edition"@ != "keywords"@,
        "edition"@ != "license"@,
        "edition"@ != "license-file"@,
        "edition"@ != "publish"@,
        "edition"@ != "readme"@,
        "edition"@ != "repository"@,
        "edition"@ != "rust-version"@,
        "edition"@ != "version"@,
        "exclude"@ != "homepage"@,
        "exclude"@ != "include"@,
        "exclude"@ != "keywords"@,
        "exclude"@ != "license"@,
        "exclude"@ != "license-file"@,
        "exclude"@ != "publish"@,
        "exclude"@ != "readme"@,
        "exclude"@ != "repository"@,
        "exclude"@ != "rust-version"@,
        "exclude"@ != "version"@,
        "homepage"@ != "include"@,
        "homepage"@ != "keywords"@,
        "homepage"@ != "license"@,
        "homepage"@ != "license-file"@,
        "homepage"@ != "publish"@,
        "homepage"@ != "readme"@,
        "homepage"@ != "repository"@,
        "homepage"@ != "rust-version"@,
        "homepage"@ != "version"@,
        "include"@ != "keywords"@,
        "include"@ != "license"@,
        "include"@ != "license-file"@,
        "include"@ != "publish"@,
        "include"@ != "readme"@,
        "include"@ != "repository"@,
        "include"@ != "rust-version"@,
        "include"@ != "version"@,
        "keywords"@ != "license"@,
        "keywords"@ != "license-file"@,
        "keywords"@ != "publish"@,
        "keywords"@ != "readme"@,
        "keywords"@ != "repository"@,
        "keywords"@ != "rust-version"@,
        "keywords"@ != "version"@,
        "license"@ != "license-file"@,
        "license"@ != "publish"@,
        "license"@ != "readme"@,
        "license"@ != "repository"@,
        "license"@ != "rust-version"@,
        "license"@ != "version"@,
        "license-file"@ != "publish"@,
        "license-file"@ != "readme"@,
        "license-file"@ != "repository"@,
        "license-file"@ != "rust-version"@,
        "license-file"@ != "version"@,
        "publish"@ != "readme"@,
        "publish"@ != "repository"@,
        "publish"@ != "rust-version"@,
        "publish"@ != "version"@,
        "readme"@ != "repository"@,
        "readme"@ != "rust-version"@,
        "readme"@ != "version"@,
        "repository"@ != "rust-version"@,
        "repository"@ != "version"@,
        "rust-version"@ != "version"@,
{
    reveal_strlit("authors");
    reveal_strlit("categories");
    reveal_strlit("description");
    reveal_strlit("documentation");
    reveal_strlit("edition");
    reveal_strlit("exclude");
    reveal_strlit("homepage");
    reveal_strlit("include");
    reveal_strlit("keywords");
    reveal_strlit("license");
    reveal_strlit("license-file");
    reveal_strlit("publish");
    reveal_strlit("readme");
    reveal_strlit("repository");
    reveal_strlit("rust-version");
    reveal_strlit("version");
    assert(("authors"@).len() == 7);
    assert(("categories"@).len() == 10);
    assert(("description"@).len() == 11);
    assert(("documentation"@).len() == 13);
    assert(("edition"@).len() == 7);
    assert(("exclude"@).len() == 7);
    assert(("homepage"@).len() == 8);
    assert(("include"@).len() == 7);
    assert(("keywords"@).len() == 8);
    assert(("license"@).len() == 7);
    assert(("license-file"@).len() == 12);
    assert(("publish"@).len() == 7);
    assert(("readme"@).len() == 6);
    assert(("repository"@).len() == 10);
    assert(("rust-version"@).len() == 12);
    assert(("version"@).len() == 7);
    lemma_seq_neq_at("authors"@, "edition"@, 0);
    lemma_seq_neq_at("authors"@, "exclude"@, 0);
    lemma_seq_neq_at("authors"@, "include"@, 0);
    lemma_seq_neq_at("authors"@, "license"@, 0);
    lemma_seq_neq_at("authors"@, "publish"@, 0);
    lemma_seq_neq_at("authors"@, "version"@, 0);
    lemma_seq_neq_at("categories"@, "repository"@, 0);
    lemma_seq_neq_at("edition"@, "exclude"@, 1);
    lemma_seq_neq_at("edition"@, "include"@, 0);
    lemma_seq_neq_at("edition"@, "license"@, 0);
    lemma_seq_neq_at("edition"@, "publish"@, 0);
    lemma_seq_neq_at("edition"@, "version"@, 0);
    lemma_seq_neq_at("exclude"@, "include"@, 0);
    lemma_seq_neq_at("exclude"@, "license"@, 0);
    lemma_seq_neq_at("exclude"@, "publish"@, 0);
    lemma_seq_neq_at("exclude"@, "version"@, 0);
    lemma_seq_neq_at("homepage"@, "keywords"@, 0);
    lemma_seq_neq_at("include"@, "license"@, 0);
    lemma_seq_neq_at("include"@, "publish"@, 0);
    lemma_seq_neq_at("include"@, "version"@, 0);
    lemma_seq_neq_at("license"@, "publish"@, 0);
    lemma_seq_neq_at("license"@, "version"@, 0);
    lemma_seq_neq_at("license-file"@, "rust-version"@, 0);
    lemma_seq_neq_at("publish"@, "version"@, 0);
}

/// The workspace-inheritable package fields as a table.

#[verifier::rlimit(100)]
pub(crate) fn ser_wsp(w: &WorkspacePackage) -> (r: TomlValue)
    ensures
        wsp_ok(r),
        wsp_from(r, *w),
{
    let mut t: Vec<(String, TomlValue)> = Vec::new();
    let g_edition_v: Option<TomlValue> = ser_opt_edition(&w.edition);
    let ghost g_edition = g_edition_v;
    let g_version_v: Option<TomlValue> = ser_opt_string(&w.version);
    let ghost g_version = g_version_v;
    let g_authors_v: Option<TomlValue> = ser_opt_strings(&w.authors);
    let ghost g_authors = g_authors_v;
    let g_description_v: Option<TomlValue> = ser_opt_string(&w.description);
    let ghost g_description = g_description_v;
    let g_homepage_v: Option<TomlValue> = ser_opt_string(&w.homepage);
    let ghost g_homepage = g_homepage_v;
    let g_documentation_v: Option<TomlValue> = ser_opt_string(&w.documentation);
    let ghost g_documentation = g_documentation_v;
    let g_readme_v: Option<TomlValue> = ser_opt_sob(&w.readme);
    let ghost g_readme = g_readme_v;
    let g_keywords_v: Option<TomlValue> = ser_opt_strings(&w.keywords);
    let ghost g_keywords = g_keywords_v;
    let g_categories_v: Option<TomlValue> = ser_opt_strings(&w.categories);
    let ghost g_categories = g_categories_v;
    let g_license_v: Option<TomlValue> = ser_opt_string(&w.license);
    let ghost g_license = g_license_v;
    let g_license_file_v: Option<TomlValue> = ser_opt_string(&w.license_file);
    let ghost g_license_file = g_license_file_v;
    let g_publish_v: Option<TomlValue> = ser_opt_publish(&w.publish);
    let ghost g_publish = g_publish_v;
    let g_exclude_v: Option<TomlValue> = ser_opt_strings(&w.exclude);
    let ghost g_exclude = g_exclude_v;
    let g_include_v: Option<TomlValue> = ser_opt_strings(&w.include_files);
    let ghost g_include = g_include_v;
    let g_repository_v: Option<TomlValue> = ser_opt_string(&w.repository);
    let ghost g_repository = g_repository_v;
    let g_rust_version_v: Option<TomlValue> = ser_opt_string(&w.rust_version);
    let ghost g_rust_version = g_rust_version_v;
    push_opt_value(&mut t, "edition", g_edition_v);
    proof {
        wsp_key_facts();
        assert(table_lookup(t@, "edition"@) == g_edition);
        assert(table_lookup(t@, "version"@) is None);
        assert(table_lookup(t@, "authors"@) is None);
        assert(table_lookup(t@, "description"@) is None);
        assert(table_lookup(t@, "homepage"@) is None);
        assert(table_lookup(t@, "documentation"@) is None);
        assert(table_lookup(t@, "readme"@) is None);
        assert(table_lookup(t@, "keywords"@) is None);
        assert(table_lookup(t@, "categories"@) is None);
        assert(table_lookup(t@, "license"@) is None);
        assert(table_lookup(t@, "license-file"@) is None);
        assert(table_lookup(t@, "publish"@) is None);
        assert(table_lookup(t@, "exclude"@) is None);
        assert(table_lookup(t@, "include"@) is None);
        assert(table_lookup(t@, "repository"@) is None);
        assert(table_lookup(t@, "rust-version"@) is None);
    }
    push_opt_value(&mut t, "version", g_version_v);
    proof {
        wsp_key_facts();
        assert(table_lookup(t@, "edition"@) == g_edition);
        assert(table_lookup(t@, "version"@) == g_version);
        assert(table_lookup(t@, "authors"@) is None);
        assert(table_lookup(t@, "description"@) is None);
        assert(table_lookup(t@, "homepage"@) is None);
        assert(table_lookup(t@, "documentation"@) is None);
        assert(table_lookup(t@, "readme"@) is None);
        assert(table_lookup(t@, "keywords"@) is None);
        assert(table_lookup(t@, "categories"@) is None);
        assert(table_lookup(t@, "license"@) is None);
        assert(table_lookup(t@, "license-file"@) is None);
        assert(table_lookup(t@, "publish"@) is None);
        assert(table_lookup(t@, "exclude"@) is None);
        assert(table_lookup(t@, "include"@) is None);
        assert(table_lookup(t@, "repository"@) is None);
        assert(table_lookup(t@, "rust-version"@) is None);
    }
    push_opt_value(&mut t, "authors", g_authors_v);
    proof {
        wsp_key_facts();
        assert(table_lookup(t@, "edition"@) == g_edition);
        assert(table_lookup(t@, "version"@) == g_version);
        assert(table_lookup(t@, "authors"@) == g_authors);
        assert(table_lookup(t@, "description"@) is None);
        assert(table_lookup(t@, "homepage"@) is None);
        assert(table_lookup(t@, "documentation"@) is None);
        assert(table_lookup(t@, "readme"@) is None);
        assert(table_lookup(t@, "keywords"@) is None);
        assert(table_lookup(t@, "categories"@) is None);
        assert(table_lookup(t@, "license"@) is None);
        assert(table_lookup(t@, "license-file"@) is None);
        assert(table_lookup(t@, "publish"@) is None);
        assert(table_lookup(t@, "exclude"@) is None);
        assert(table_lookup(t@, "include"@) is None);
        assert(table_lookup(t@, "repository"@) is None);
        assert(table_lookup(t@, "rust-version"@) is None);
    }
    push_opt_value(&mut t, "description", g_description_v);
    proof {
        wsp_key_facts();
        assert(table_lookup(t@, "edition"@) == g_edition);
        assert(table_lookup(t@, "version"@) == g_version);
        assert(table_lookup(t@, "authors"@) == g_authors);
        assert(table_lookup(t@, "description"@) == g_description);
        assert(table_lookup(t@, "homepage"@) is None);
        assert(table_lookup(t@, "documentation"@) is None);
        assert(table_lookup(t@, "readme"@) is None);
        assert(table_lookup(t@, "keywords"@) is None);
        assert(table_lookup(t@, "categories"@) is None);
        assert(table_lookup(t@, "license"@) is None);
        assert(table_lookup(t@, "license-file"@) is None);
        assert(table_lookup(t@, "publish"@) is None);
        assert(table_lookup(t@, "exclude"@) is None);
        assert(table_lookup(t@, "include"@) is None);
        assert(table_lookup(t@, "repository"@) is None);
        assert(table_lookup(t@, "rust-version"@) is None);
    }
    push_opt_value(&mut t, "homepage", g_homepage_v);
    proof {
        wsp_key_facts();
        assert(table_lookup(t@, "edition"@) == g_edition);
        assert(table_lookup(t@, "version"@) == g_version);
        assert(table_lookup(t@, "authors"@) == g_authors);
        assert(table_lookup(t@, "description"@) == g_description);
        assert(table_lookup(t@, "homepage"@) == g_homepage);
        assert(table_lookup(t@, "documentation"@) is None);
        assert(table_lookup(t@, "readme"@) is None);
        assert(table_lookup(t@, "keywords"@) is None);
        assert(table_lookup(t@, "categories"@) is None);
        assert(table_lookup(t@, "license"@) is None);
        assert(table_lookup(t@, "license-file"@) is None);
        assert(table_lookup(t@, "publish"@) is None);
        assert(table_lookup(t@, "exclude"@) is None);
        assert(table_lookup(t@, "include"@) is None);
        assert(table_lookup(t@, "repository"@) is None);
        assert(table_lookup(t@, "rust-version"@) is None);
    }
    push_opt_value(&mut t, "documentation", g_documentation_v);
    proof {
        wsp_key_facts();
        assert(table_lookup(t@, "edition"@) == g_edition);
        assert(table_lookup(t@, "version"@) == g_version);
        assert(table_lookup(t@, "authors"@) == g_authors);
        assert(table_lookup(t@, "description"@) == g_description);
        assert(table_lookup(t@, "homepage"@) == g_homepage);
        assert(table_lookup(t@, "documentation"@) == g_documentation);
        assert(table_lookup(t@, "readme"@) is None);
        assert(table_lookup(t@, "keywords"@) is None);
        assert(table_lookup(t@, "categories"@) is None);
        assert(table_lookup(t@, "license"@) is None);
        assert(table_lookup(t@, "license-file"@) is None);
        assert(table_lookup(t@, "publish"@) is None);
        assert(table_lookup(t@, "exclude"@) is None);
        assert(table_lookup(t@, "include"@) is None);
        assert(table_lookup(t@, "repository"@) is None);
        assert(table_lookup(t@, "rust-version"@) is None);
    }
    push_opt_value(&mut t, "readme", g_readme_v);
    proof {
        wsp_key_facts();
        assert(table_lookup(t@, "edition"@) == g_edition);
        assert(table_lookup(t@, "version"@) == g_version);
        assert(table_lookup(t@, "authors"@) == g_authors);
        assert(table_lookup(t@, "description"@) == g_description);
        assert(table_lookup(t@, "homepage"@) == g_homepage);
        assert(table_lookup(t@, "documentation"@) == g_documentation);
        assert(table_lookup(t@, "readme"@) == g_readme);
        assert(table_lookup(t@, "keywords"@) is None);
        assert(table_lookup(t@, "categories"@) is None);
        assert(table_lookup(t@, "license"@) is None);
        assert(table_lookup(t@, "license-file"@) is None);
        assert(table_lookup(t@, "publish"@) is None);
        assert(table_lookup(t@, "exclude"@) is None);
        assert(table_lookup(t@, "include"@) is None);
        assert(table_lookup(t@, "repository"@) is None);
        assert(table_lookup(t@, "rust-version"@) is None);
    }
    push_opt_value(&mut t, "keywords", g_keywords_v);
    proof {
        wsp_key_facts();
        assert(table_lookup(t@, "edition"@) == g_edition);
        assert(table_lookup(t@, "version"@) == g_version);
        assert(table_lookup(t@, "authors"@) == g_authors);
        assert(table_lookup(t@, "description"@) == g_description);
        assert(table_lookup(t@, "homepage"@) == g_homepage);
        assert(table_lookup(t@, "documentation"@) == g_documentation);
        assert(table_lookup(t@, "readme"@) == g_readme);
        assert(table_lookup(t@, "keywords"@) == g_keywords);
        assert(table_lookup(t@, "categories"@) is None);
        assert(table_lookup(t@, "license"@) is None);
        assert(table_lookup(t@, "license-file"@) is None);
        assert(table_lookup(t@, "publish"@) is None);
        assert(table_lookup(t@, "exclude"@) is None);
        assert(table_lookup(t@, "include"@) is None);
        assert(table_lookup(t@, "repository"@) is None);
        assert(table_lookup(t@, "rust-version"@) is None);
    }
    push_opt_value(&mut t, "categories", g_categories_v);
    proof {
        wsp_key_facts();
        assert(table_lookup(t@, "edition"@) == g_edition);
        assert(table_lookup(t@, "version"@) == g_version);
        assert(table_lookup(t@, "authors"@) == g_authors);
        assert(table_lookup(t@, "description"@) == g_description);
        assert(table_lookup(t@, "homepage"@) == g_homepage);
        assert(table_lookup(t@, "documentation"@) == g_documentation);
        assert(table_lookup(t@, "readme"@) == g_readme);
        assert(table_lookup(t@, "keywords"@) == g_keywords);
        assert(table_lookup(t@, "categories"@) == g_categories);
        assert(table_lookup(t@, "license"@) is None);
        assert(table_lookup(t@, "license-file"@) is None);
        assert(table_lookup(t@, "publish"@) is None);
        assert(table_lookup(t@, "exclude"@) is None);
        assert(table_lookup(t@, "include"@) is None);
        assert(table_lookup(t@, "repository"@) is None);
        assert(table_lookup(t@, "rust-version"@) is None);
    }
    push_opt_value(&mut t, "license", g_license_v);
    proof {
        wsp_key_facts();
        assert(table_lookup(t@, "edition"@) == g_edition);
        assert(table_lookup(t@, "version"@) == g_version);
        assert(table_lookup(t@, "authors"@) == g_authors);
        assert(table_lookup(t@, "description"@) == g_description);
        assert(table_lookup(t@, "homepage"@) == g_homepage);
        assert(table_lookup(t@, "documentation"@) == g_documentation);
        assert(table_lookup(t@, "readme"@) == g_readme);
        assert(table_lookup(t@, "keywords"@) == g_keywords);
        assert(table_lookup(t@, "categories"@) == g_categories);
        assert(table_lookup(t@, "license"@) == g_license);
        assert(table_lookup(t@, "license-file"@) is None);
        assert(table_lookup(t@, "publish"@) is None);
        assert(table_lookup(t@, "exclude"@) is None);
        assert(table_lookup(t@, "include"@) is None);
        assert(table_lookup(t@, "repository"@) is None);
        assert(table_lookup(t@, "rust-version"@) is None);
    }
    push_opt_value(&mut t, "license-file", g_license_file_v);
    proof {
        wsp_key_facts();
        assert(table_lookup(t@, "edition"@) == g_edition);
        assert(table_lookup(t@, "version"@) == g_version);
        assert(table_lookup(t@, "authors"@) == g_authors);
        assert(table_lookup(t@, "description"@) == g_description);
        assert(table_lookup(t@, "homepage"@) == g_homepage);
        assert(table_lookup(t@, "documentation"@) == g_documentation);
        assert(table_lookup(t@, "readme"@) == g_readme);
        assert(table_lookup(t@, "keywords"@) == g_keywords);
        assert(table_lookup(t@, "categories"@) == g_categories);
        assert(table_lookup(t@, "license"@) == g_license);
        assert(table_lookup(t@, "license-file"@) == g_license_file);
        assert(table_lookup(t@, "publish"@) is None);
        assert(table_lookup(t@, "exclude"@) is None);
        assert(table_lookup(t@, "include"@) is None);
        assert(table_lookup(t@, "repository"@) is None);
        assert(table_lookup(t@, "rust-version"@) is None);
    }
    push_opt_value(&mut t, "publish", g_publish_v);
    proof {
        wsp_key_facts();
        assert(table_lookup(t@, "edition"@) == g_edition);
        assert(table_lookup(t@, "version"@) == g_version);
        assert(table_lookup(t@, "authors"@) == g_authors);
        assert(table_lookup(t@, "description"@) == g_description);
        assert(table_lookup(t@, "homepage"@) == g_homepage);
        assert(table_lookup(t@, "documentation"@) == g_documentation);
        assert(table_lookup(t@, "readme"@) == g_readme);
        assert(table_lookup(t@, "keywords"@) == g_keywords);
        assert(table_lookup(t@, "categories"@) == g_categories);
        assert(table_lookup(t@, "license"@) == g_license);
        assert(table_lookup(t@, "license-file"@) == g_license_file);
        assert(table_lookup(t@, "publish"@) == g_publish);
        assert(table_lookup(t@, "exclude"@) is None);
        assert(table_lookup(t@, "include"@) is None);
        assert(table_lookup(t@, "repository"@) is None);
        assert(table_lookup(t@, "rust-version"@) is None);
    }
    push_opt_value(&mut t, "exclude", g_exclude_v);
    proof {
        wsp_key_facts();
        assert(table_lookup(t@, "edition"@) == g_edition);
        assert(table_lookup(t@, "version"@) == g_version);
        assert(table_lookup(t@, "authors"@) == g_authors);
        assert(table_lookup(t@, "description"@) == g_description);
        assert(table_lookup(t@, "homepage"@) == g_homepage);
        assert(table_lookup(t@, "documentation"@) == g_documentation);
        assert(table_lookup(t@, "readme"@) == g_readme);
        assert(table_lookup(t@, "keywords"@) == g_keywords);
        assert(table_lookup(t@, "categories"@) == g_categories);
        assert(table_lookup(t@, "license"@) == g_license);
        assert(table_lookup(t@, "license-file"@) == g_license_file);
        assert(table_lookup(t@, "publish"@) == g_publish);
        assert(table_lookup(t@, "exclude"@) == g_exclude);
        assert(table_lookup(t@, "include"@) is None);
        assert(table_lookup(t@, "repository"@) is None);
        assert(table_lookup(t@, "rust-version"@) is None);
    }
    push_opt_value(&mut t, "include", g_include_v);
    proof {
        wsp_key_facts();
        assert(table_lookup(t@, "edition"@) == g_edition);
        assert(table_lookup(t@, "version"@) == g_version);
        assert(table_lookup(t@, "authors"@) == g_authors);
        assert(table_lookup(t@, "description"@) == g_description);
        assert(table_lookup(t@, "homepage"@) == g_homepage);
        assert(table_lookup(t@, "documentation"@) == g_documentation);
        assert(table_lookup(t@, "readme"@) == g_readme);
        assert(table_lookup(t@, "keywords"@) == g_keywords);
        assert(table_lookup(t@, "categories"@) == g_categories);
        assert(table_lookup(t@, "license"@) == g_license);
        assert(table_lookup(t@, "license-file"@) == g_license_file);
        assert(table_lookup(t@, "publish"@) == g_publish);
        assert(table_lookup(t@, "exclude"@) == g_exclude);
        assert(table_lookup(t@, "include"@) == g_include);
        assert(table_lookup(t@, "repository"@) is None);
        assert(table_lookup(t@, "rust-version"@) is None);
    }
    push_opt_value(&mut t, "repository", g_repository_v);
    proof {
        wsp_key_facts();
        assert(table_lookup(t@, "edition"@) == g_edition);
        assert(table_lookup(t@, "version"@) == g_version);
        assert(table_lookup(t@, "authors"@) == g_authors);
        assert(table_lookup(t@, "description"@) == g_description);
        assert(table_lookup(t@, "homepage"@) == g_homepage);
        assert(table_lookup(t@, "documentation"@) == g_documentation);
        assert(table_lookup(t@, "readme"@) == g_readme);
        assert(table_lookup(t@, "keywords"@) == g_keywords);
        assert(table_lookup(t@, "categories"@) == g_categories);
        assert(table_lookup(t@, "license"@) == g_license);
        assert(table_lookup(t@, "license-file"@) == g_license_file);
        assert(table_lookup(t@, "publish"@) == g_publish);
        assert(table_lookup(t@, "exclude"@) == g_exclude);
        assert(table_lookup(t@, "include"@) == g_include);
        assert(table_lookup(t@, "repository"@) == g_repository);
        assert(table_lookup(t@, "rust-version"@) is None);
    }
    push_opt_value(&mut t, "rust-version", g_rust_version_v);
    proof {
        wsp_key_facts();
        assert(table_lookup(t@, "edition"@) == g_edition);
        assert(table_lookup(t@, "version"@) == g_version);
        assert(table_lookup(t@, "authors"@) == g_authors);
        assert(table_lookup(t@, "description"@) == g_description);
        assert(table_lookup(t@, "homepage"@) == g_homepage);
        assert(table_lookup(t@, "documentation"@) == g_documentation);
        assert(table_lookup(t@, "readme"@) == g_readme);
        assert(table_lookup(t@, "keywords"@) == g_keywords);
        assert(table_lookup(t@, "categories"@) == g_categories);
        assert(table_lookup(t@, "license"@) == g_license);
        assert(table_lookup(t@, "license-file"@) == g_license_file);
        assert(table_lookup(t@, "publish"@) == g_publish);
        assert(table_lookup(t@, "exclude"@) == g_exclude);
        assert(table_lookup(t@, "include"@) == g_include);
        assert(table_lookup(t@, "repository"@) == g_repository);
        assert(table_lookup(t@, "rust-version"@) == g_rust_version);
    }
    proof {
        wsp_key_facts();
        assert(wsp_ok(TomlValue::Table(t)));
        assert(wsp_from(TomlValue::Table(t), *w));
    }
    TomlValue::Table(t)
}

proof fn workspace_key_facts()
    ensures
        "default-members"@ != "default_members"@,
        "default-members"@ != "dependencies"@,
        "default-members"@ != "exclude"@,
        "default-members"@ != "members"@,
        "default-members"@ != "package"@,
        "default-members"@ != "resolver"@,
        "default_members"@ != "dependencies"@,
        "default_members"@ != "exclude"@,
        "default_members"@ != "members"@,
        "default_members"@ != "package"@,
        "default_members"@ != "resolver"@,
        "dependencies"@ != "exclude"@,
        "dependencies"@ != "members"@,
        "dependencies"@ != "package"@,
        "dependencies"@ != "resolver"@,
        "exclude"@ != "members"@,
        "exclude"@ != "package"@,
        "exclude"@ != "resolver"@,
        "members"@ != "package"@,
        "members"@ != "resolver"@,
        "package"@ != "resolver"@,
{
    reveal_strlit("default-members");
    reveal_strlit("default_members");
    reveal_strlit("dependencies");
    reveal_strlit("exclude");
    reveal_strlit("members");
    reveal_strlit("package");
    reveal_strlit("resolver");
    assert(("default-members"@).len() == 15);
    assert(("default_members"@).len() == 15);
    assert(("dependencies"@).len() == 12);
    assert(("exclude"@).len() == 7);
    assert(("members"@).len() == 7);
    assert(("package"@).len() == 7);
    assert(("resolver"@).len() == 8);
    lemma_seq_neq_at("default-members"@, "default_members"@, 7);
    lemma_seq_neq_at("exclude"@, "members"@, 0);
    lemma_seq_neq_at("exclude"@, "package"@, 0);
    lemma_seq_neq_at("members"@, "package"@, 0);
}

/// The workspace section as a table.

#[verifier::rlimit(100)]
pub(crate) fn ser_workspace(w: &Workspace) -> (r: TomlValue)
    ensures
        workspace_ok(r),
        workspace_from(r, *w),
{
    let mut t: Vec<(String, TomlValue)> = Vec::new();
    let g_members_v: Option<TomlValue> = Some(ser_strings(&w.members));
    let ghost g_members = g_members_v;
    let g_default_members_v: Option<TomlValue> = ser_opt_strings(&w.default_members);
    let ghost g_default_members = g_default_members_v;
    let g_exclude_v: Option<TomlValue> = ser_opt_strings(&w.exclude);
    let ghost g_exclude = g_exclude_v;
    let g_resolver_v: Option<TomlValue> = ser_opt_resolver(&w.resolver);
    let ghost g_resolver = g_resolver_v;
    let g_dependencies_v: Option<TomlValue> = ser_opt_deps(&w.dependencies);
    let ghost g_dependencies = g_dependencies_v;
    let g_package_v: Option<TomlValue> = ser_opt_wsp(&w.package);
    let ghost g_package = g_package_v;
    push_opt_value(&mut t, "members", g_members_v);
    proof {
        workspace_key_facts();
        assert(table_lookup(t@, "members"@) == g_members);
        assert(table_lookup(t@, "default-members"@) is None);
        assert(table_lookup(t@, "exclude"@) is None);
        assert(table_lookup(t@, "resolver"@) is None);
        assert(table_lookup(t@, "dependencies"@) is None);
        assert(table_lookup(t@, "package"@) is None);
        assert(table_lookup(t@, "default_members"@) is None);
    }
    push_opt_value(&mut t, "default-members", g_default_members_v);
    proof {
        workspace_key_facts();
        assert(table_lookup(t@, "members"@) == g_members);
        assert(table_lookup(t@, "default-members"@) == g_default_members);
        assert(table_lookup(t@, "exclude"@) is None);
        assert(table_lookup(t@, "resolver"@) is None);
        assert(table_lookup(t@, "dependencies"@) is None);
        assert(table_lookup(t@, "package"@) is None);
        assert(table_lookup(t@, "default_members"@) is None);
    }
    push_opt_value(&mut t, "exclude", g_exclude_v);
    proof {
        workspace_key_facts();
        assert(table_lookup(t@, "members"@) == g_members);
        assert(table_lookup(t@, "default-members"@) == g_default_members);
        assert(table_lookup(t@, "exclude"@) == g_exclude);
        assert(table_lookup(t@, "resolver"@) is None);
        assert(table_lookup(t@, "dependencies"@) is None);
        assert(table_lookup(t@, "package"@) is None);
        assert(table_lookup(t@, "default_members"@) is None);
    }
    push_opt_value(&mut t, "resolver", g_resolver_v);
    proof {
        workspace_key_facts();
        assert(table_lookup(t@, "members"@) == g_members);
        assert(table_lookup(t@, "default-members"@) == g_default_members);
        assert(table_lookup(t@, "exclude"@) == g_exclude);
        assert(table_lookup(t@, "resolver"@) == g_resolver);
        assert(table_lookup(t@, "dependencies"@) is None);
        assert(table_lookup(t@, "package"@) is None);
        assert(table_lookup(t@, "default_members"@) is None);
    }
    push_opt_value(&mut t, "dependencies", g_dependencies_v);
    proof {
        workspace_key_facts();
        assert(table_lookup(t@, "members"@) == g_members);
        assert(table_lookup(t@, "default-members"@) == g_default_members);
        assert(table_lookup(t@, "exclude"@) == g_exclude);
        assert(table_lookup(t@, "resolver"@) == g_resolver);
        assert(table_lookup(t@, "dependencies"@) == g_dependencies);
        assert(table_lookup(t@, "package"@) is None);
        assert(table_lookup(t@, "default_members"@) is None);
    }
    push_opt_value(&mut t, "package", g_package_v);
    proof {
        workspace_key_facts();
        assert(table_lookup(t@, "members"@) == g_members);
        assert(table_lookup(t@, "default-members"@) == g_default_members);
        assert(table_lookup(t@, "exclude"@) == g_exclude);
        assert(table_lookup(t@, "resolver"@) == g_resolver);
        assert(table_lookup(t@, "dependencies"@) == g_dependencies);
        assert(table_lookup(t@, "package"@) == g_package);
        assert(table_lookup(t@, "default_members"@) is None);
    }
    proof {
        workspace_key_facts();
        assert(workspace_ok(TomlValue::Table(t)));
        assert(workspace_from(TomlValue::Table(t), *w));
    }
    TomlValue::Table(t)
}

proof fn target_key_facts()
    ensures
        "build-dependencies"@ != "build_dependencies"@,
        "build-dependencies"@ != "dependencies"@,
        "build-dependencies"@ != "dev-dependencies"@,
        "build-dependencies"@ != "dev_dependencies"@,
        "build_dependencies"@ != "dependencies"@,
        "build_dependencies"@ != "dev-dependencies"@,
        "build_dependencies"@ != "dev_dependencies"@,
        "dependencies"@ != "dev-dependencies"@,
        "dependencies"@ != "dev_dependencies"@,
        "dev-dependencies"@ != "dev_dependencies"@,
{
    reveal_strlit("build-dependencies");
    reveal_strlit("build_dependencies");
    reveal_strlit("dependencies");
    reveal_strlit("dev-dependencies");
    reveal_strlit("dev_dependencies");
    assert(("build-dependencies"@).len() == 18);
    assert(("build_dependencies"@).len() == 18);
    assert(("dependencies"@).len() == 12);
    assert(("dev-dependencies"@).len() == 16);
    assert(("dev_dependencies"@).len() == 16);
    lemma_seq_neq_at("build-dependencies"@, "build_dependencies"@, 5);
    lemma_seq_neq_at("dev-dependencies"@, "dev_dependencies"@, 3);
}

/// One target platform entry as a table.

#[verifier::rlimit(100)]
pub(crate) fn ser_target(tg: &Target) -> (r: TomlValue)
    ensures
        target_ok(r),
        target_from(r, *tg),
{
    let mut t: Vec<(String, TomlValue)> = Vec::new();
    let g_dependencies_v: Option<TomlValue> = Some(ser_deps(&tg.dependencies));
    let ghost g_dependencies = g_dependencies_v;
    let g_dev_dependencies_v: Option<TomlValue> = Some(ser_deps(&tg.dev_dependencies));
    let ghost g_dev_dependencies = g_dev_dependencies_v;
    let g_build_dependencies_v: Option<TomlValue> = Some(ser_deps(&tg.build_dependencies));
    let ghost g_build_dependencies = g_build_dependencies_v;
    push_opt_value(&mut t, "dependencies", g_dependencies_v);
    proof {
        target_key_facts();
        assert(table_lookup(t@, "dependencies"@) == g_dependencies);
        assert(table_lookup(t@, "dev-dependencies"@) is None);
        assert(table_lookup(t@, "build-dependencies"@) is None);
        assert(table_lookup(t@, "dev_dependencies"@) is None);
        assert(table_lookup(t@, "build_dependencies"@) is None);
    }
    push_opt_value(&mut t, "dev-dependencies", g_dev_dependencies_v);
    proof {
        target_key_facts();
        assert(table_lookup(t@, "dependencies"@) == g_dependencies);
        assert(table_lookup(t@, "dev-dependencies"@) == g_dev_dependencies);
        assert(table_lookup(t@, "build-dependencies"@) is None);
        assert(table_lookup(t@, "dev_dependencies"@) is None);
        assert(table_lookup(t@, "build_dependencies"@) is None);
    }
    push_opt_value(&mut t, "build-dependencies", g_build_dependencies_v);
    proof {
        target_key_facts();
        assert(table_lookup(t@, "dependencies"@) == g_dependencies);
        assert(table_lookup(t@, "dev-dependencies"@) == g_dev_dependencies);
        assert(table_lookup(t@, "build-dependencies"@) == g_build_dependencies);
        assert(table_lookup(t@, "dev_dependencies"@) is None);
        assert(table_lookup(t@, "build_dependencies"@) is None);
    }
    proof {
        target_key_facts();
        assert(target_ok(TomlValue::Table(t)));
        assert(target_from(TomlValue::Table(t), *tg));
    }
    TomlValue::Table(t)
}

proof fn profile_key_facts()
    ensures
        "build-override"@ != "codegen-units"@,
        "build-override"@ != "codegen_units"@,
        "build-override"@ != "debug"@,
        "build-override"@ != "debug-assertions"@,
        "build-override"@ != "debug_assertions"@,
        "build-override"@ != "incremental"@,
        "build-override"@ != "inherits"@,
        "build-override"@ != "lto"@,
        "build-override"@ != "opt-level"@,
        "build-override"@ != "opt_level"@,
        "build-override"@ != "overflow-checks"@,
        "build-override"@ != "overflow_checks"@,
        "build-override"@ != "package"@,
        "build-override"@ != "panic"@,
        "build-override"@ != "rpath"@,
        "codegen-units"@ != "codegen_units"@,
        "codegen-units"@ != "debug"@,
        "codegen-units"@ != "debug-assertions"@,
        "codegen-units"@ != "debug_assertions"@,
        "codegen-units"@ != "incremental"@,
        "codegen-units"@ != "inherits"@,
        "codegen-units"@ != "lto"@,
        "codegen-units"@ != "opt-level"@,
        "codegen-units"@ != "opt_level"@,
        "codegen-units"@ != "overflow-checks"@,
        "codegen-units"@ != "overflow_checks"@,
        "codegen-units"@ != "package"@,
        "codegen-units"@ != "panic"@,
        "codegen-units"@ != "rpath"@,
        "codegen_units"@ != "debug"@,
        "codegen_units"@ != "debug-assertions"@,
        "codegen_units"@ != "debug_assertions"@,
        "codegen_units"@ != "incremental"@,
        "codegen_units"@ != "inherits"@,
        "codegen_units"@ != "lto"@,
        "codegen_units"@ != "opt-level"@,
        "codegen_units"@ != "opt_level"@,
        "codegen_units"@ != "overflow-checks"@,
        "codegen_units"@ != "overflow_checks"@,
        "codegen_units"@ != "package"@,
        "codegen_units"@ != "panic"@,
        "codegen_units"@ != "rpath"@,
        "debug"@ != "debug-assertions"@,
        "debug"@ != "debug_assertions"@,
        "debug"@ != "incremental"@,
        "debug"@ != "inherits"@,
        "debug"@ != "lto"@,
        "debug"@ != "opt-level"@,
        "debug"@ != "opt_level"@,
        "debug"@ != "overflow-checks"@,
        "debug"@ != "overflow_checks"@,
        "debug"@ != "package"@,
        "debug"@ != "panic"@,
        "debug"@ != "rpath"@,
        "debug-assertions"@ != "debug_assertions"@,
        "debug-assertions"@ != "incremental"@,
        "debug-assertions"@ != "inherits"@,
        "debug-assertions"@ != "lto"@,
        "debug-assertions"@ != "opt-level"@,
        "debug-assertions"@ != "opt_level"@,
        "debug-assertions"@ != "overflow-checks"@,
        "debug-assertions"@ != "overflow_checks"@,
        "debug-assertions"@ != "package"@,
        "debug-assertions"@ != "panic"@,
        "debug-assertions"@ != "rpath"@,
        "debug_assertions"@ != "incremental"@,
        "debug_assertions"@ != "inherits"@,
        "debug_assertions"@ != "lto"@,
        "debug_assertions"@ != "opt-level"@,
        "debug_assertions"@ != "opt_level"@,
        "debug_assertions"@ != "overflow-checks"@,
        "debug_assertions"@ != "overflow_checks"@,
        "debug_assertions"@ != "package"@,
        "debug_assertions"@ != "panic"@,
        "debug_assertions"@ != "rpath"@,
        "incremental"@ != "inherits"@,
        "incremental"@ != "lto"@,
        "incremental"@ != "opt-level"@,
        "incremental"@ != "opt_level"@,
        "incremental"@ != "overflow-checks"@,
        "incremental"@ != "overflow_checks"@,
        "incremental"@ != "package"@,
        "incremental"@ != "panic"@,
        "incremental"@ != "rpath"@,
        "inherits"@ != "lto"@,
        "inherits"@ != "opt-level"@,
        "inherits"@ != "opt_level"@,
        "inherits"@ != "overflow-checks"@,
        "inherits"@ != "overflow_checks"@,
        "inherits"@ != "package"@,
        "inherits"@ != "panic"@,
        "inherits"@ != "rpath"@,
        "lto"@ != "opt-level"@,
        "lto"@ != "opt_level"@,
        "lto"@ != "overflow-checks"@,
        "lto"@ != "overflow_checks"@,
        "lto"@ != "package"@,
        "lto"@ != "panic"@,
        "lto"@ != "rpath"@,
        "opt-level"@ != "opt_level"@,
        "opt-level"@ != "overflow-checks"@,
        "opt-level"@ != "overflow_checks"@,
        "opt-level"@ != "package"@,
        "opt-level"@ != "panic"@,
        "opt-level"@ != "rpath"@,
        "opt_level"@ != "overflow-checks"@,
        "opt_level"@ != "overflow_checks"@,
        "opt_level"@ != "package"@,
        "opt_level"@ != "panic"@,
        "opt_level"@ != "rpath"@,
        "overflow-checks"@ != "overflow_checks"@,
        "overflow-checks"@ != "package"@,
        "overflow-checks"@ != "panic"@,
        "overflow-checks"@ != "rpath"@,
        "overflow_checks"@ != "package"@,
        "overflow_checks"@ != "panic"@,
        "overflow_checks"@ != "rpath"@,
        "package"@ != "panic"@,
        "package"@ != "rpath"@,
        "panic"@ != "rpath"@,
{
    reveal_strlit("build-override");
    reveal_strlit("codegen-units");
    reveal_strlit("codegen_units");
    reveal_strlit("debug");
    reveal_strlit("debug-assertions");
    reveal_strlit("debug_assertions");
    reveal_strlit("incremental");
    reveal_strlit("inherits");
    reveal_strlit("lto");
    reveal_strlit("opt-level");
    reveal_strlit("opt_level");
    reveal_strlit("overflow-checks");
    reveal_strlit("overflow_checks");
    reveal_strlit("package");
    reveal_strlit("panic");
    reveal_strlit("rpath");
    assert(("build-override"@).len() == 14);
    assert(("codegen-units"@).len() == 13);
    assert(("codegen_units"@).len() == 13);
    assert(("debug"@).len() == 5);
    assert(("debug-assertions"@).len() == 16);
    assert(("debug_assertions"@).len() == 16);
    assert(("incremental"@).len() == 11);
    assert(("inherits"@).len() == 8);
    assert(("lto"@).len() == 3);
    assert(("opt-level"@).len() == 9);
    assert(("opt_level"@).len() == 9);
    assert(("overflow-checks"@).len() == 15);
    assert(("overflow_checks"@).len() == 15);
    assert(("package"@).len() == 7);
    assert(("panic"@).len() == 5);
    assert(("rpath"@).len() == 5);
    lemma_seq_neq_at("codegen-units"@, "codegen_units"@, 7);
    lemma_seq_neq_at("debug"@, "panic"@, 0);
    lemma_seq_neq_at("debug"@, "rpath"@, 0);
    lemma_seq_neq_at("debug-assertions"@, "debug_assertions"@, 5);
    lemma_seq_neq_at("opt-level"@, "opt_level"@, 3);
    lemma_seq_neq_at("overflow-checks"@, "overflow_checks"@, 8);
    lemma_seq_neq_at("panic"@, "rpath"@, 0);
}

/// One profile as a table.

#[verifier::rlimit(100)]
pub(crate) fn ser_profile(p: &Profile) -> (r: TomlValue)
    ensures
        profile_ok(r),
        profile_from(r, *p),
{
    let mut t: Vec<(String, TomlValue)> = Vec::new();
    let g_opt_level_v: Option<TomlValue> = ser_opt_raw(&p.opt_level);
    let ghost g_opt_level = g_opt_level_v;
    let g_debug_v: Option<TomlValue> = ser_opt_raw(&p.debug);
    let ghost g_debug = g_debug_v;
    let g_rpath_v: Option<TomlValue> = ser_opt_bool(&p.rpath);
    let ghost g_rpath = g_rpath_v;
    let g_inherits_v: Option<TomlValue> = ser_opt_string(&p.inherits);
    let ghost g_inherits = g_inherits_v;
    let g_lto_v: Option<TomlValue> = ser_opt_raw(&p.lto);
    let ghost g_lto = g_lto_v;
    let g_debug_assertions_v: Option<TomlValue> = ser_opt_bool(&p.debug_assertions);
    let ghost g_debug_assertions = g_debug_assertions_v;
    let g_codegen_units_v: Option<TomlValue> = ser_opt_u16(&p.codegen_units);
    let ghost g_codegen_units = g_codegen_units_v;
    let g_panic_v: Option<TomlValue> = ser_opt_string(&p.panic);
    let ghost g_panic = g_panic_v;
    let g_incremental_v: Option<TomlValue> = ser_opt_bool(&p.incremental);
    let ghost g_incremental = g_incremental_v;
    let g_overflow_checks_v: Option<TomlValue> = ser_opt_bool(&p.overflow_checks);
    let ghost g_overflow_checks = g_overflow_checks_v;
    let g_package_v: Option<TomlValue> = Some(ser_raw_table(&p.package));
    let ghost g_package = g_package_v;
    let g_build_override_v: Option<TomlValue> = ser_opt_raw(&p.build_override);
    let ghost g_build_override = g_build_override_v;
    push_opt_value(&mut t, "opt-level", g_opt_level_v);
    proof {
        profile_key_facts();
        assert(table_lookup(t@, "opt-level"@) == g_opt_level);
        assert(table_lookup(t@, "debug"@) is None);
        assert(table_lookup(t@, "rpath"@) is None);
        assert(table_lookup(t@, "inherits"@) is None);
        assert(table_lookup(t@, "lto"@) is None);
        assert(table_lookup(t@, "debug-assertions"@) is None);
        assert(table_lookup(t@, "codegen-units"@) is None);
        assert(table_lookup(t@, "panic"@) is None);
        assert(table_lookup(t@, "incremental"@) is None);
        assert(table_lookup(t@, "overflow-checks"@) is None);
        assert(table_lookup(t@, "package"@) is None);
        assert(table_lookup(t@, "build-override"@) is None);
        assert(table_lookup(t@, "opt_level"@) is None);
        assert(table_lookup(t@, "debug_assertions"@) is None);
        assert(table_lookup(t@, "codegen_units"@) is None);
        assert(table_lookup(t@, "overflow_checks"@) is None);
    }
    push_opt_value(&mut t, "debug", g_debug_v);
    proof {
        profile_key_facts();
        assert(table_lookup(t@, "opt-level"@) == g_opt_level);
        assert(table_lookup(t@, "debug"@) == g_debug);
        assert(table_lookup(t@, "rpath"@) is None);
        assert(table_lookup(t@, "inherits"@) is None);
        assert(table_lookup(t@, "lto"@) is None);
        assert(table_lookup(t@, "debug-assertions"@) is None);
        assert(table_lookup(t@, "codegen-units"@) is None);
        assert(table_lookup(t@, "panic"@) is None);
        assert(table_lookup(t@, "incremental"@) is None);
        assert(table_lookup(t@, "overflow-checks"@) is None);
        assert(table_lookup(t@, "package"@) is None);
        assert(table_lookup(t@, "build-override"@) is None);
        assert(table_lookup(t@, "opt_level"@) is None);
        assert(table_lookup(t@, "debug_assertions"@) is None);
        assert(table_lookup(t@, "codegen_units"@) is None);
        assert(table_lookup(t@, "overflow_checks"@) is None);
    }
    push_opt_value(&mut t, "rpath", g_rpath_v);
    proof {
        profile_key_facts();
        assert(table_lookup(t@, "opt-level"@) == g_opt_level);
        assert(table_lookup(t@, "debug"@) == g_debug);
        assert(table_lookup(t@, "rpath"@) == g_rpath);
        assert(table_lookup(t@, "inherits"@) is None);
        assert(table_lookup(t@, "lto"@) is None);
        assert(table_lookup(t@, "debug-assertions"@) is None);
        assert(table_lookup(t@, "codegen-units"@) is None);
        assert(table_lookup(t@, "panic"@) is None);
        assert(table_lookup(t@, "incremental"@) is None);
        assert(table_lookup(t@, "overflow-checks"@) is None);
        assert(table_lookup(t@, "package"@) is None);
        assert(table_lookup(t@, "build-override"@) is None);
        assert(table_lookup(t@, "opt_level"@) is None);
        assert(table_lookup(t@, "debug_assertions"@) is None);
        assert(table_lookup(t@, "codegen_units"@) is None);
        assert(table_lookup(t@, "overflow_checks"@) is None);
    }
    push_opt_value(&mut t, "inherits", g_inherits_v);
    proof {
        profile_key_facts();
        assert(table_lookup(t@, "opt-level"@) == g_opt_level);
        assert(table_lookup(t@, "debug"@) == g_debug);
        assert(table_lookup(t@, "rpath"@) == g_rpath);
        assert(table_lookup(t@, "inherits"@) == g_inherits);
        assert(table_lookup(t@, "lto"@) is None);
        assert(table_lookup(t@, "debug-assertions"@) is None);
        assert(table_lookup(t@, "codegen-units"@) is None);
        assert(table_lookup(t@, "panic"@) is None);
        assert(table_lookup(t@, "incremental"@) is None);
        assert(table_lookup(t@, "overflow-checks"@) is None);
        assert(table_lookup(t@, "package"@) is None);
        assert(table_lookup(t@, "build-override"@) is None);
        assert(table_lookup(t@, "opt_level"@) is None);
        assert(table_lookup(t@, "debug_assertions"@) is None);
        assert(table_lookup(t@, "codegen_units"@) is None);
        assert(table_lookup(t@, "overflow_checks"@) is None);
    }
    push_opt_value(&mut t, "lto", g_lto_v);
    proof {
        profile_key_facts();
        assert(table_lookup(t@, "opt-level"@) == g_opt_level);
        assert(table_lookup(t@, "debug"@) == g_debug);
        assert(table_lookup(t@, "rpath"@) == g_rpath);
        assert(table_lookup(t@, "inherits"@) == g_inherits);
        assert(table_lookup(t@, "lto"@) == g_lto);
        assert(table_lookup(t@, "debug-assertions"@) is None);
        assert(table_lookup(t@, "codegen-units"@) is None);
        assert(table_lookup(t@, "panic"@) is None);
        assert(table_lookup(t@, "incremental"@) is None);
        assert(table_lookup(t@, "overflow-checks"@) is None);
        assert(table_lookup(t@, "package"@) is None);
        assert(table_lookup(t@, "build-override"@) is None);
        assert(table_lookup(t@, "opt_level"@) is None);
        assert(table_lookup(t@, "debug_assertions"@) is None);
        assert(table_lookup(t@, "codegen_units"@) is None);
        assert(table_lookup(t@, "overflow_checks"@) is None);
    }
    push_opt_value(&mut t, "debug-assertions", g_debug_assertions_v);
    proof {
        profile_key_facts();
        assert(table_lookup(t@, "opt-level"@) == g_opt_level);
        assert(table_lookup(t@, "debug"@) == g_debug);
        assert(table_lookup(t@, "rpath"@) == g_rpath);
        assert(table_lookup(t@, "inherits"@) == g_inherits);
        assert(table_lookup(t@, "lto"@) == g_lto);
        assert(table_lookup(t@, "debug-assertions"@) == g_debug_assertions);
        assert(table_lookup(t@, "codegen-units"@) is None);
        assert(table_lookup(t@, "panic"@) is None);
        assert(table_lookup(t@, "incremental"@) is None);
        assert(table_lookup(t@, "overflow-checks"@) is None);
        assert(table_lookup(t@, "package"@) is None);
        assert(table_lookup(t@, "build-override"@) is None);
        assert(table_lookup(t@, "opt_level"@) is None);
        assert(table_lookup(t@, "debug_assertions"@) is None);
        assert(table_lookup(t@, "codegen_units"@) is None);
        assert(table_lookup(t@, "overflow_checks"@) is None);
    }
    push_opt_value(&mut t, "codegen-units", g_codegen_units_v);
    proof {
        profile_key_facts();
        assert(table_lookup(t@, "opt-level"@) == g_opt_level);
        assert(table_lookup(t@, "debug"@) == g_debug);
        assert(table_lookup(t@, "rpath"@) == g_rpath);
        assert(table_lookup(t@, "inherits"@) == g_inherits);
        assert(table_lookup(t@, "lto"@) == g_lto);
        assert(table_lookup(t@, "debug-assertions"@) == g_debug_assertions);
        assert(table_lookup(t@, "codegen-units"@) == g_codegen_units);
        assert(table_lookup(t@, "panic"@) is None);
        assert(table_lookup(t@, "incremental"@) is None);
        assert(table_lookup(t@, "overflow-checks"@) is None);
        assert(table_lookup(t@, "package"@) is None);
        assert(table_lookup(t@, "build-override"@) is None);
        assert(table_lookup(t@, "opt_level"@) is None);
        assert(table_lookup(t@, "debug_assertions"@) is None);
        assert(table_lookup(t@, "codegen_units"@) is None);
        assert(table_lookup(t@, "overflow_checks"@) is None);
    }
    push_opt_value(&mut t, "panic", g_panic_v);
    proof {
        profile_key_facts();
        assert(table_lookup(t@, "opt-level"@) == g_opt_level);
        assert(table_lookup(t@, "debug"@) == g_debug);
        assert(table_lookup(t@, "rpath"@) == g_rpath);
        assert(table_lookup(t@, "inherits"@) == g_inherits);
        assert(table_lookup(t@, "lto"@) == g_lto);
        assert(table_lookup(t@, "debug-assertions"@) == g_debug_assertions);
        assert(table_lookup(t@, "codegen-units"@) == g_codegen_units);
        assert(table_lookup(t@, "panic"@) == g_panic);
        assert(table_lookup(t@, "incremental"@) is None);
        assert(table_lookup(t@, "overflow-checks"@) is None);
        assert(table_lookup(t@, "package"@) is None);
        assert(table_lookup(t@, "build-override"@) is None);
        assert(table_lookup(t@, "opt_level"@) is None);
        assert(table_lookup(t@, "debug_assertions"@) is None);
        assert(table_lookup(t@, "codegen_units"@) is None);
        assert(table_lookup(t@, "overflow_checks"@) is None);
    }
    push_opt_value(&mut t, "incremental", g_incremental_v);
    proof {
        profile_key_facts();
        assert(table_lookup(t@, "opt-level"@) == g_opt_level);
        assert(table_lookup(t@, "debug"@) == g_debug);
        assert(table_lookup(t@, "rpath"@) == g_rpath);
        assert(table_lookup(t@, "inherits"@) == g_inherits);
        assert(table_lookup(t@, "lto"@) == g_lto);
        assert(table_lookup(t@, "debug-assertions"@) == g_debug_assertions);
        assert(table_lookup(t@, "codegen-units"@) == g_codegen_units);
        assert(table_lookup(t@, "panic"@) == g_panic);
        assert(table_lookup(t@, "incremental"@) == g_incremental);
        assert(table_lookup(t@, "overflow-checks"@) is None);
        assert(table_lookup(t@, "package"@) is None);
        assert(table_lookup(t@, "build-override"@) is None);
        assert(table_lookup(t@, "opt_level"@) is None);
        assert(table_lookup(t@, "debug_assertions"@) is None);
        assert(table_lookup(t@, "codegen_units"@) is None);
        assert(table_lookup(t@, "overflow_checks"@) is None);
    }
    push_opt_value(&mut t, "overflow-checks", g_overflow_checks_v);
    proof {
        profile_key_facts();
        assert(table_lookup(t@, "opt-level"@) == g_opt_level);
        assert(table_lookup(t@, "debug"@) == g_debug);
        assert(table_lookup(t@, "rpath"@) == g_rpath);
        assert(table_lookup(t@, "inherits"@) == g_inherits);
        assert(table_lookup(t@, "lto"@) == g_lto);
        assert(table_lookup(t@, "debug-assertions"@) == g_debug_assertions);
        assert(table_lookup(t@, "codegen-units"@) == g_codegen_units);
        assert(table_lookup(t@, "panic"@) == g_panic);
        assert(table_lookup(t@, "incremental"@) == g_incremental);
        assert(table_lookup(t@, "overflow-checks"@) == g_overflow_checks);
        assert(table_lookup(t@, "package"@) is None);
        assert(table_lookup(t@, "build-override"@) is None);
        assert(table_lookup(t@, "opt_level"@) is None);
        assert(table_lookup(t@, "debug_assertions"@) is None);
        assert(table_lookup(t@, "codegen_units"@) is None);
        assert(table_lookup(t@, "overflow_checks"@) is None);
    }
    push_opt_value(&mut t, "package", g_package_v);
    proof {
        profile_key_facts();
        assert(table_lookup(t@, "opt-level"@) == g_opt_level);
        assert(table_lookup(t@, "debug"@) == g_debug);
        assert(table_lookup(t@, "rpath"@) == g_rpath);
        assert(table_lookup(t@, "inherits"@) == g_inherits);
        assert(table_lookup(t@, "lto"@) == g_lto);
        assert(table_lookup(t@, "debug-assertions"@) == g_debug_assertions);
        assert(table_lookup(t@, "codegen-units"@) == g_codegen_units);
        assert(table_lookup(t@, "panic"@) == g_panic);
        assert(table_lookup(t@, "incremental"@) == g_incremental);
        assert(table_lookup(t@, "overflow-checks"@) == g_overflow_checks);
        assert(table_lookup(t@, "package"@) == g_package);
        assert(table_lookup(t@, "build-override"@) is None);
        assert(table_lookup(t@, "opt_level"@) is None);
        assert(table_lookup(t@, "debug_assertions"@) is None);
        assert(table_lookup(t@, "codegen_units"@) is None);
        assert(table_lookup(t@, "overflow_checks"@) is None);
    }
    push_opt_value(&mut t, "build-override", g_build_override_v);
    proof {
        profile_key_facts();
        assert(table_lookup(t@, "opt-level"@) == g_opt_level);
        assert(table_lookup(t@, "debug"@) == g_debug);
        assert(table_lookup(t@, "rpath"@) == g_rpath);
        assert(table_lookup(t@, "inherits"@) == g_inherits);
        assert(table_lookup(t@, "lto"@) == g_lto);
        assert(table_lookup(t@, "debug-assertions"@) == g_debug_assertions);
        assert(table_lookup(t@, "codegen-units"@) == g_codegen_units);
        assert(table_lookup(t@, "panic"@) == g_panic);
        assert(table_lookup(t@, "incremental"@) == g_incremental);
        assert(table_lookup(t@, "overflow-checks"@) == g_overflow_checks);
        assert(table_lookup(t@, "package"@) == g_package);
        assert(table_lookup(t@, "build-override"@) == g_build_override);
        assert(table_lookup(t@, "opt_level"@) is None);
        assert(table_lookup(t@, "debug_assertions"@) is None);
        assert(table_lookup(t@, "codegen_units"@) is None);
        assert(table_lookup(t@, "overflow_checks"@) is None);
    }
    proof {
        profile_key_facts();
        assert(profile_ok(TomlValue::Table(t)));
        assert(profile_from(TomlValue::Table(t), *p));
    }
    TomlValue::Table(t)
}

proof fn package_key_facts()
    ensures
        "authors"@ != "autobenches"@,
        "authors"@ != "autobins"@,
        "authors"@ != "autoexamples"@,
        "authors"@ != "autotests"@,
        "authors"@ != "build"@,
        "authors"@ != "categories"@,
        "authors"@ != "default_run"@,
        "authors"@ != "description"@,
        "authors"@ != "documentation"@,
        "authors"@ != "edition"@,
        "authors"@ != "exclude"@,
        "authors"@ != "homepage"@,
        "authors"@ != "include"@,
        "authors"@ != "keywords"@,
        "authors"@ != "license"@,
        "authors"@ != "license-file"@,
        "authors"@ != "links"@,
        "authors"@ != "metadata"@,
        "authors"@ != "name"@,
        "authors"@ != "publish"@,
        "authors"@ != "readme"@,
        "authors"@ != "repository"@,
        "authors"@ != "resolver"@,
        "authors"@ != "rust-version"@,
        "authors"@ != "version"@,
        "authors"@ != "workspace"@,
        "autobenches"@ != "autobins"@,
        "autobenches"@ != "autoexamples"@,
        "autobenches"@ != "autotests"@,
        "autobenches"@ != "build"@,
        "autobenches"@ != "categories"@,
        "autobenches"@ != "default_run"@,
        "autobenches"@ != "description"@,
        "autobenches"@ != "documentation"@,
        "autobenches"@ != "edition"@,
        "autobenches"@ != "exclude"@,
        "autobenches"@ != "homepage"@,
        "autobenches"@ != "include"@,
        "autobenches"@ != "keywords"@,
        "autobenches"@ != "license"@,
        "autobenches"@ != "license-file"@,
        "autobenches"@ != "links"@,
        "autobenches"@ != "metadata"@,
        "autobenches"@ != "name"@,
        "autobenches"@ != "publish"@,
        "autobenches"@ != "readme"@,
        "autobenches"@ != "repository"@,
        "autobenches"@ != "resolver"@,
        "autobenches"@ != "rust-version"@,
        "autobenches"@ != "version"@,
        "autobenches"@ != "workspace"@,
        "autobins"@ != "autoexamples"@,
        "autobins"@ != "autotests"@,
        "autobins"@ != "build"@,
        "autobins"@ != "categories"@,
        "autobins"@ != "default_run"@,
        "autobins"@ != "description"@,
        "autobins"@ != "documentation"@,
        "autobins"@ != "edition"@,
        "autobins"@ != "exclude"@,
        "autobins"@ != "homepage"@,
        "autobins"@ != "include"@,
        "autobins"@ != "keywords"@,
        "autobins"@ != "license"@,
        "autobins"@ != "license-file"@,
        "autobins"@ != "links"@,
        "autobins"@ != "metadata"@,
        "autobins"@ != "name"@,
        "autobins"@ != "publish"@,
        "autobins"@ != "readme"@,
        "autobins"@ != "repository"@,
        "autobins"@ != "resolver"@,
        "autobins"@ != "rust-version"@,
        "autobins"@ != "version"@,
        "autobins"@ != "workspace"@,
        "autoexamples"@ != "autotests"@,
        "autoexamples"@ != "build"@,
        "autoexamples"@ != "categories"@,
        "autoexamples"@ != "default_run"@,
        "autoexamples"@ != "description"@,
        "autoexamples"@ != "documentation"@,
        "autoexamples"@ != "edition"@,
        "autoexamples"@ != "exclude"@,
        "autoexamples"@ != "homepage"@,
        "autoexamples"@ != "include"@,
        "autoexamples"@ != "keywords"@,
        "autoexamples"@ != "license"@,
        "autoexamples"@ != "license-file"@,
        "autoexamples"@ != "links"@,
        "autoexamples"@ != "metadata"@,
        "autoexamples"@ != "name"@,
        "autoexamples"@ != "publish"@,
        "autoexamples"@ != "readme"@,
        "autoexamples"@ != "repository"@,
        "autoexamples"@ != "resolver"@,
        "autoexamples"@ != "rust-version"@,
        "autoexamples"@ != "version"@,
        "autoexamples"@ != "workspace"@,
        "autotests"@ != "build"@,
        "autotests"@ != "categories"@,
        "autotests"@ != "default_run"@,
        "autotests"@ != "description"@,
        "autotests"@ != "documentation"@,
        "autotests"@ != "edition"@,
        "autotests"@ != "exclude"@,
        "autotests"@ != "homepage"@,
        "autotests"@ != "include"@,
        "autotests"@ != "keywords"@,
        "autotests"@ != "license"@,
        "autotests"@ != "license-file"@,
        "autotests"@ != "links"@,
        "autotests"@ != "metadata"@,
        "autotests"@ != "name"@,
        "autotests"@ != "publish"@,
        "autotests"@ != "readme"@,
        "autotests"@ != "repository"@,
        "autotests"@ != "resolver"@,
        "autotests"@ != "rust-version"@,
        "autotests"@ != "version"@,
        "autotests"@ != "workspace"@,
        "build"@ != "categories"@,
        "build"@ != "default_run"@,
        "build"@ != "description"@,
        "build"@ != "documentation"@,
        "build"@ != "edition"@,
        "build"@ != "exclude"@,
        "build"@ != "homepage"@,
        "build"@ != "include"@,
        "build"@ != "keywords"@,
        "build"@ != "license"@,
        "build"@ != "license-file"@,
        "build"@ != "links"@,
        "build"@ != "metadata"@,
        "build"@ != "name"@,
        "build"@ != "publish"@,
        "build"@ != "readme"@,
        "build"@ != "repository"@,
        "build"@ != "resolver"@,
        "build"@ != "rust-version"@,
        "build"@ != "version"@,
        "build"@ != "workspace"@,
        "categories"@ != "default_run"@,
        "categories"@ != "description"@,
        "categories"@ != "documentation"@,
        "categories"@ != "edition"@,
        "categories"@ != "exclude"@,
        "categories"@ != "homepage"@,
        "categories"@ != "include"@,
        "categories"@ != "keywords"@,
        "categories"@ != "license"@,
        "categories"@ != "license-file"@,
        "categories"@ != "links"@,
        "categories"@ != "metadata"@,
        "categories"@ != "name"@,
        "categories"@ != "publish"@,
        "categories"@ != "readme"@,
        "categories"@ != "repository"@,
        "categories"@ != "resolver"@,
        "categories"@ != "rust-version"@,
        "categories"@ != "version"@,
        "categories"@ != "workspace"@,
        "default_run"@ != "description"@,
        "default_run"@ != "documentation"@,
        "default_run"@ != "edition"@,
        "default_run"@ != "exclude"@,
        "default_run"@ != "homepage"@,
        "default_run"@ != "include"@,
        "default_run"@ != "keywords"@,
        "default_run"@ != "license"@,
        "default_run"@ != "license-file"@,
        "default_run"@ != "links"@,
        "default_run"@ != "metadata"@,
        "default_run"@ != "name"@,
        "default_run"@ != "publish"@,
        "default_run"@ != "readme"@,
        "default_run"@ != "repository"@,
        "default_run"@ != "resolver"@,
        "default_run"@ != "rust-version"@,
        "default_run"@ != "version"@,
        "default_run"@ != "workspace"@,
        "description"@ != "documentation"@,
        "description"@ != "edition"@,
        "description"@ != "exclude"@,
        "description"@ != "homepage"@,
        "description"@ != "include"@,
        "description"@ != "keywords"@,
        "description"@ != "license"@,
        "description"@ != "license-file"@,
        "description"@ != "links"@,
        "description"@ != "metadata"@,
        "description"@ != "name"@,
        "description"@ != "publish"@,
        "description"@ != "readme"@,
        "description"@ != "repository"@,
        "description"@ != "resolver"@,
        "description"@ != "rust-version"@,
        "description"@ != "version"@,
        "description"@ != "workspace"@,
        "documentation"@ != "edition"@,
        "documentation"@ != "exclude"@,
        "documentation"@ != "homepage"@,
        "documentation"@ != "include"@,
        "documentation"@ != "keywords"@,
        "documentation"@ != "license"@,
        "documentation"@ != "license-file"@,
        "documentation"@ != "links"@,
        "documentation"@ != "metadata"@,
        "documentation"@ != "name"@,
        "documentation"@ != "publish"@,
        "documentation"@ != "readme"@,
        "documentation"@ != "repository"@,
        "documentation"@ != "resolver"@,
        "documentation"@ != "rust-version"@,
        "documentation"@ != "version"@,
        "documentation"@ != "workspace"@,
        "edition"@ != "exclude"@,
        "edition"@ != "homepage"@,
        "edition"@ != "include"@,
        "edition"@ != "keywords"@,
        "edition"@ != "license"@,
        "edition"@ != "license-file"@,
        "edition"@ != "links"@,
        "edition"@ != "metadata"@,
        "edition"@ != "name"@,
        "edition"@ != "publish"@,
        "edition"@ != "readme"@,
        "edition"@ != "repository"@,
        "edition"@ != "resolver"@,
        "edition"@ != "rust-version"@,
        "edition"@ != "version"@,
        "edition"@ != "workspace"@,
        "exclude"@ != "homepage"@,
        "exclude"@ != "include"@,
        "exclude"@ != "keywords"@,
        "exclude"@ != "license"@,
        "exclude"@ != "license-file"@,
        "exclude"@ != "links"@,
        "exclude"@ != "metadata"@,
        "exclude"@ != "name"@,
        "exclude"@ != "publish"@,
        "exclude"@ != "readme"@,
        "exclude"@ != "repository"@,
        "exclude"@ != "resolver"@,
        "exclude"@ != "rust-version"@,
        "exclude"@ != "version"@,
        "exclude"@ != "workspace"@,
        "homepage"@ != "include"@,
        "homepage"@ != "keywords"@,
        "homepage"@ != "license"@,
        "homepage"@ != "license-file"@,
        "homepage"@ != "links"@,
        "homepage"@ != "metadata"@,
        "homepage"@ != "name"@,
        "homepage"@ != "publish"@,
        "homepage"@ != "readme"@,
        "homepage"@ != "repository"@,
        "homepage"@ != "resolver"@,
        "homepage"@ != "rust-version"@,
        "homepage"@ != "version"@,
        "homepage"@ != "workspace"@,
        "include"@ != "keywords"@,
        "include"@ != "license"@,
        "include"@ != "license-file"@,
        "include"@ != "links"@,
        "include"@ != "metadata"@,
        "include"@ != "name"@,
        "include"@ != "publish"@,
        "include"@ != "readme"@,
        "include"@ != "repository"@,
        "include"@ != "resolver"@,
        "include"@ != "rust-version"@,
        "include"@ != "version"@,
        "include"@ != "workspace"@,
        "keywords"@ != "license"@,
        "keywords"@ != "license-file"@,
        "keywords"@ != "links"@,
        "keywords"@ != "metadata"@,
        "keywords"@ != "name"@,
        "keywords"@ != "publish"@,
        "keywords"@ != "readme"@,
        "keywords"@ != "repository"@,
        "keywords"@ != "resolver"@,
        "keywords"@ != "rust-version"@,
        "keywords"@ != "version"@,
        "keywords"@ != "workspace"@,
        "license"@ != "license-file"@,
        "license"@ != "links"@,
        "license"@ != "metadata"@,
        "license"@ != "name"@,
        "license"@ != "publish"@,
        "license"@ != "readme"@,
        "license"@ != "repository"@,
        "license"@ != "resolver"@,
        "license"@ != "rust-version"@,
        "license"@ != "version"@,
        "license"@ != "workspace"@,
        "license-file"@ != "links"@,
        "license-file"@ != "metadata"@,
        "license-file"@ != "name"@,
        "license-file"@ != "publish"@,
        "license-file"@ != "readme"@,
        "license-file"@ != "repository"@,
        "license-file"@ != "resolver"@,
        "license-file"@ != "rust-version"@,
        "license-file"@ != "version"@,
        "license-file"@ != "workspace"@,
        "links"@ != "metadata"@,
        "links"@ != "name"@,
        "links"@ != "publish"@,
        "links"@ != "readme"@,
        "links"@ != "repository"@,
        "links"@ != "resolver"@,
        "links"@ != "rust-version"@,
        "links"@ != "version"@,
        "links"@ != "workspace"@,
        "metadata"@ != "name"@,
        "metadata"@ != "publish"@,
        "metadata"@ != "readme"@,
        "metadata"@ != "repository"@,
        "metadata"@ != "resolver"@,
        "metadata"@ != "rust-version"@,
        "metadata"@ != "version"@,
        "metadata"@ != "workspace"@,
        "name"@ != "publish"@,
        "name"@ != "readme"@,
        "name"@ != "repository"@,
        "name"@ != "resolver"@,
        "name"@ != "rust-version"@,
        "name"@ != "version"@,
        "name"@ != "workspace"@,
        "publish"@ != "readme"@,
        "publish"@ != "repository"@,
        "publish"@ != "resolver"@,
        "publish"@ != "rust-version"@,
        "publish"@ != "version"@,
        "publish"@ != "workspace"@,
        "readme"@ != "repository"@,
        "readme"@ != "resolver"@,
        "readme"@ != "rust-version"@,
        "readme"@ != "version"@,
        "readme"@ != "workspace"@,
        "repository"@ != "resolver"@,
        "repository"@ != "rust-version"@,
        "repository"@ != "version"@,
        "repository"@ != "workspace"@,
        "resolver"@ != "rust-version"@,
        "resolver"@ != "version"@,
        "resolver"@ != "workspace"@,
        "rust-version"@ != "version"@,
        "rust-version"@ != "workspace"@,
        "version"@ != "workspace"@,
{
    reveal_strlit("authors");
    reveal_strlit("autobenches");
    reveal_strlit("autobins");
    reveal_strlit("autoexamples");
    reveal_strlit("autotests");
    reveal_strlit("build");
    reveal_strlit("categories");
    reveal_strlit("default_run");
    reveal_strlit("description");
    reveal_strlit("documentation");
    reveal_strlit("edition");
    reveal_strlit("exclude");
    reveal_strlit("homepage");
    reveal_strlit("include");
    reveal_strlit("keywords");
    reveal_strlit("license");
    reveal_strlit("license-file");
    reveal_strlit("links");
    reveal_strlit("metadata");
    reveal_strlit("name");
    reveal_strlit("publish");
    reveal_strlit("readme");
    reveal_strlit("repository");
    reveal_strlit("resolver");
    reveal_strlit("rust-version");
    reveal_strlit("version");
    reveal_strlit("workspace");
    assert(("authors"@).len() == 7);
    assert(("autobenches"@).len() == 11);
    assert(("autobins"@).len() == 8);
    assert(("autoexamples"@).len() == 12);
    assert(("autotests"@).len() == 9);
    assert(("build"@).len() == 5);
    assert(("categories"@).len() == 10);
    assert(("default_run"@).len() == 11);
    assert(("description"@).len() == 11);
    assert(("documentation"@).len() == 13);
    assert(("edition"@).len() == 7);
    assert(("exclude"@).len() == 7);
    assert(("homepage"@).len() == 8);
    assert(("include"@).len() == 7);
    assert(("keywords"@).len() == 8);
    assert(("license"@).len() == 7);
    assert(("license-file"@).len() == 12);
    assert(("links"@).len() == 5);
    assert(("metadata"@).len() == 8);
    assert(("name"@).len() == 4);
    assert(("publish"@).len() == 7);
    assert(("readme"@).len() == 6);
    assert(("repository"@).len() == 10);
    assert(("resolver"@).len() == 8);
    assert(("rust-version"@).len() == 12);
    assert(("version"@).len() == 7);
    assert(("workspace"@).len() == 9);
    lemma_seq_neq_at("authors"@, "edition"@, 0);
    lemma_seq_neq_at("authors"@, "exclude"@, 0);
    lemma_seq_neq_at("authors"@, "include"@, 0);
    lemma_seq_neq_at("authors"@, "license"@, 0);
    lemma_seq_neq_at("authors"@, "publish"@, 0);
    lemma_seq_neq_at("authors"@, "version"@, 0);
    lemma_seq_neq_at("autobenches"@, "default_run"@, 0);
    lemma_seq_neq_at("autobenches"@, "description"@, 0);
    lemma_seq_neq_at("autobins"@, "homepage"@, 0);
    lemma_seq_neq_at("autobins"@, "keywords"@, 0);
    lemma_seq_neq_at("autobins"@, "metadata"@, 0);
    lemma_seq_neq_at("autobins"@, "resolver"@, 0);
    lemma_seq_neq_at("autoexamples"@, "license-file"@, 0);
    lemma_seq_neq_at("autoexamples"@, "rust-version"@, 0);
    lemma_seq_neq_at("autotests"@, "workspace"@, 0);
    lemma_seq_neq_at("build"@, "links"@, 0);
    lemma_seq_neq_at("categories"@, "repository"@, 0);
    lemma_seq_neq_at("default_run"@, "description"@, 2);
    lemma_seq_neq_at("edition"@, "exclude"@, 1);
    lemma_seq_neq_at("edition"@, "include"@, 0);
    lemma_seq_neq_at("edition"@, "license"@, 0);
    lemma_seq_neq_at("edition"@, "publish"@, 0);
    lemma_seq_neq_at("edition"@, "version"@, 0);
    lemma_seq_neq_at("exclude"@, "include"@, 0);
    lemma_seq_neq_at("exclude"@, "license"@, 0);
    lemma_seq_neq_at("exclude"@, "publish"@, 0);
    lemma_seq_neq_at("exclude"@, "version"@, 0);
    lemma_seq_neq_at("homepage"@, "keywords"@, 0);
    lemma_seq_neq_at("homepage"@, "metadata"@, 0);
    lemma_seq_neq_at("homepage"@, "resolver"@, 0);
    lemma_seq_neq_at("include"@, "license"@, 0);
    lemma_seq_neq_at("include"@, "publish"@, 0);
    lemma_seq_neq_at("include"@, "version"@, 0);
    lemma_seq_neq_at("keywords"@, "metadata"@, 0);
    lemma_seq_neq_at("keywords"@, "resolver"@, 0);
    lemma_seq_neq_at("license"@, "publish"@, 0);
    lemma_seq_neq_at("license"@, "version"@, 0);
    lemma_seq_neq_at("license-file"@, "rust-version"@, 0);
    lemma_seq_neq_at("metadata"@, "resolver"@, 0);
    lemma_seq_neq_at("publish"@, "version"@, 0);
}

/// The package identity record as a table.

#[verifier::rlimit(100)]
pub(crate) fn ser_package(p: &Package) -> (r: Vec<(String, TomlValue)>)
    ensures
        package_table_ok(r@),
        package_table_from(r@, *p),
{
    let mut t: Vec<(String, TomlValue)> = Vec::new();
    let g_name_v: Option<TomlValue> = Some(TomlValue::Str(p.name.clone()));
    let ghost g_name = g_name_v;
    let g_edition_v: Option<TomlValue> = ser_inh_edition(&p.edition);
    let ghost g_edition = g_edition_v;
    let g_version_v: Option<TomlValue> = Some(ser_req_inh_string(&p.version));
    let ghost g_version = g_version_v;
    let g_build_v: Option<TomlValue> = ser_opt_raw(&p.build);
    let ghost g_build = g_build_v;
    let g_workspace_v: Option<TomlValue> = ser_opt_string(&p.workspace);
    let ghost g_workspace = g_workspace_v;
    let g_authors_v: Option<TomlValue> = ser_inh_strings(&p.authors);
    let ghost g_authors = g_authors_v;
    let g_links_v: Option<TomlValue> = ser_opt_string(&p.links);
    let ghost g_links = g_links_v;
    let g_description_v: Option<TomlValue> = ser_inh_string(&p.description);
    let ghost g_description = g_description_v;
    let g_homepage_v: Option<TomlValue> = ser_inh_string(&p.homepage);
    let ghost g_homepage = g_homepage_v;
    let g_documentation_v: Option<TomlValue> = ser_inh_string(&p.documentation);
    let ghost g_documentation = g_documentation_v;
    let g_readme_v: Option<TomlValue> = ser_inh_sob(&p.readme);
    let ghost g_readme = g_readme_v;
    let g_keywords_v: Option<TomlValue> = ser_inh_strings(&p.keywords);
    let ghost g_keywords = g_keywords_v;
    let g_categories_v: Option<TomlValue> = ser_inh_strings(&p.categories);
    let ghost g_categories = g_categories_v;
    let g_license_v: Option<TomlValue> = ser_inh_string(&p.license);
    let ghost g_license = g_license_v;
    let g_license_file_v: Option<TomlValue> = ser_inh_string(&p.license_file);
    let ghost g_license_file = g_license_file_v;
    let g_repository_v: Option<TomlValue> = ser_inh_string(&p.repository);
    let ghost g_repository = g_repository_v;
    let g_metadata_v: Option<TomlValue> = ser_opt_raw(&p.metadata);
    let ghost g_metadata = g_metadata_v;
    let g_rust_version_v: Option<TomlValue> = ser_inh_string(&p.rust_version);
    let ghost g_rust_version = g_rust_version_v;
    let g_exclude_v: Option<TomlValue> = ser_inh_strings(&p.exclude);
    let ghost g_exclude = g_exclude_v;
    let g_include_v: Option<TomlValue> = ser_inh_strings(&p.include_files);
    let ghost g_include = g_include_v;
    let g_default_run_v: Option<TomlValue> = ser_opt_string(&p.default_run);
    let ghost g_default_run = g_default_run_v;
    let g_autobins_v: Option<TomlValue> = Some(TomlValue::Bool(p.autobins));
    let ghost g_autobins = g_autobins_v;
    let g_autoexamples_v: Option<TomlValue> = Some(TomlValue::Bool(p.autoexamples));
    let ghost g_autoexamples = g_autoexamples_v;
    let g_autotests_v: Option<TomlValue> = Some(TomlValue::Bool(p.autotests));
    let ghost g_autotests = g_autotests_v;
    let g_autobenches_v: Option<TomlValue> = Some(TomlValue::Bool(p.autobenches));
    let ghost g_autobenches = g_autobenches_v;
    let g_publish_v: Option<TomlValue> = ser_inh_publish(&p.publish);
    let ghost g_publish = g_publish_v;
    let g_resolver_v: Option<TomlValue> = ser_opt_resolver(&p.resolver);
    let ghost g_resolver = g_resolver_v;
    push_opt_value(&mut t, "name", g_name_v);
    proof {
        package_key_facts();
        assert(table_lookup(t@, "name"@) == g_name);
        assert(table_lookup(t@, "edition"@) is None);
        assert(table_lookup(t@, "version"@) is None);
        assert(table_lookup(t@, "build"@) is None);
        assert(table_lookup(t@, "workspace"@) is None);
        assert(table_lookup(t@, "authors"@) is None);
        assert(table_lookup(t@, "links"@) is None);
        assert(table_lookup(t@, "description"@) is None);
        assert(table_lookup(t@, "homepage"@) is None);
        assert(table_lookup(t@, "documentation"@) is None);
        assert(table_lookup(t@, "readme"@) is None);
        assert(table_lookup(t@, "keywords"@) is None);
        assert(table_lookup(t@, "categories"@) is None);
        assert(table_lookup(t@, "license"@) is None);
        assert(table_lookup(t@, "license-file"@) is None);
        assert(table_lookup(t@, "repository"@) is None);
        assert(table_lookup(t@, "metadata"@) is None);
        assert(table_lookup(t@, "rust-version"@) is None);
        assert(table_lookup(t@, "exclude"@) is None);
        assert(table_lookup(t@, "include"@) is None);
        assert(table_lookup(t@, "default_run"@) is None);
        assert(table_lookup(t@, "autobins"@) is None);
        assert(table_lookup(t@, "autoexamples"@) is None);
        assert(table_lookup(t@, "autotests"@) is None);
        assert(table_lookup(t@, "autobenches"@) is None);
        assert(table_lookup(t@, "publish"@) is None);
        assert(table_lookup(t@, "resolver"@) is None);
    }
    push_opt_value(&mut t, "edition", g_edition_v);
    proof {
        package_key_facts();
        assert(table_lookup(t@, "name"@) == g_name);
        assert(table_lookup(t@, "edition"@) == g_edition);
        assert(table_lookup(t@, "version"@) is None);
        assert(table_lookup(t@, "build"@) is None);
        assert(table_lookup(t@, "workspace"@) is None);
        assert(table_lookup(t@, "authors"@) is None);
        assert(table_lookup(t@, "links"@) is None);
        assert(table_lookup(t@, "description"@) is None);
        assert(table_lookup(t@, "homepage"@) is None);
        assert(table_lookup(t@, "documentation"@) is None);
        assert(table_lookup(t@, "readme"@) is None);
        assert(table_lookup(t@, "keywords"@) is None);
        assert(table_lookup(t@, "categories"@) is None);
        assert(table_lookup(t@, "license"@) is None);
        assert(table_lookup(t@, "license-file"@) is None);
        assert(table_lookup(t@, "repository"@) is None);
        assert(table_lookup(t@, "metadata"@) is None);
        assert(table_lookup(t@, "rust-version"@) is None);
        assert(table_lookup(t@, "exclude"@) is None);
        assert(table_lookup(t@, "include"@) is None);
        assert(table_lookup(t@, "default_run"@) is None);
        assert(table_lookup(t@, "autobins"@) is None);
        assert(table_lookup(t@, "autoexamples"@) is None);
        assert(table_lookup(t@, "autotests"@) is None);
        assert(table_lookup(t@, "autobenches"@) is None);
        assert(table_lookup(t@, "publish"@) is None);
        assert(table_lookup(t@, "resolver"@) is None);
    }
    push_opt_value(&mut t, "version", g_version_v);
    proof {
        package_key_facts();
        assert(table_lookup(t@, "name"@) == g_name);
        assert(table_lookup(t@, "edition"@) == g_edition);
        assert(table_lookup(t@, "version"@) == g_version);
        assert(table_lookup(t@, "build"@) is None);
        assert(table_lookup(t@, "workspace"@) is None);
        assert(table_lookup(t@, "authors"@) is None);
        assert(table_lookup(t@, "links"@) is None);
        assert(table_lookup(t@, "description"@) is None);
        assert(table_lookup(t@, "homepage"@) is None);
        assert(table_lookup(t@, "documentation"@) is None);
        assert(table_lookup(t@, "readme"@) is None);
        assert(table_lookup(t@, "keywords"@) is None);
        assert(table_lookup(t@, "categories"@) is None);
        assert(table_lookup(t@, "license"@) is None);
        assert(table_lookup(t@, "license-file"@) is None);
        assert(table_lookup(t@, "repository"@) is None);
        assert(table_lookup(t@, "metadata"@) is None);
        assert(table_lookup(t@, "rust-version"@) is None);
        assert(table_lookup(t@, "exclude"@) is None);
        assert(table_lookup(t@, "include"@) is None);
        assert(table_lookup(t@, "default_run"@) is None);
        assert(table_lookup(t@, "autobins"@) is None);
        assert(table_lookup(t@, "autoexamples"@) is None);
        assert(table_lookup(t@, "autotests"@) is None);
        assert(table_lookup(t@, "autobenches"@) is None);
        assert(table_lookup(t@, "publish"@) is None);
        assert(table_lookup(t@, "resolver"@) is None);
    }
    push_opt_value(&mut t, "build", g_build_v);
    proof {
        package_key_facts();
        assert(table_lookup(t@, "name"@) == g_name);
        assert(table_lookup(t@, "edition"@) == g_edition);
        assert(table_lookup(t@, "version"@) == g_version);
        assert(table_lookup(t@, "build"@) == g_build);
        assert(table_lookup(t@, "workspace"@) is None);
        assert(table_lookup(t@, "authors"@) is None);
        assert(table_lookup(t@, "links"@) is None);
        assert(table_lookup(t@, "description"@) is None);
        assert(table_lookup(t@, "homepage"@) is None);
        assert(table_lookup(t@, "documentation"@) is None);
        assert(table_lookup(t@, "readme"@) is None);
        assert(table_lookup(t@, "keywords"@) is None);
        assert(table_lookup(t@, "categories"@) is None);
        assert(table_lookup(t@, "license"@) is None);
        assert(table_lookup(t@, "license-file"@) is None);
        assert(table_lookup(t@, "repository"@) is None);
        assert(table_lookup(t@, "metadata"@) is None);
        assert(table_lookup(t@, "rust-version"@) is None);
        assert(table_lookup(t@, "exclude"@) is None);
        assert(table_lookup(t@, "include"@) is None);
        assert(table_lookup(t@, "default_run"@) is None);
        assert(table_lookup(t@, "autobins"@) is None);
        assert(table_lookup(t@, "autoexamples"@) is None);
        assert(table_lookup(t@, "autotests"@) is None);
        assert(table_lookup(t@, "autobenches"@) is None);
        assert(table_lookup(t@, "publish"@) is None);
        assert(table_lookup(t@, "resolver"@) is None);
    }
    push_opt_value(&mut t, "workspace", g_workspace_v);
    proof {
        package_key_facts();
        assert(table_lookup(t@, "name"@) == g_name);
        assert(table_lookup(t@, "edition"@) == g_edition);
        assert(table_lookup(t@, "version"@) == g_version);
        assert(table_lookup(t@, "build"@) == g_build);
        assert(table_lookup(t@, "workspace"@) == g_workspace);
        assert(table_lookup(t@, "authors"@) is None);
        assert(table_lookup(t@, "links"@) is None);
        assert(table_lookup(t@, "description"@) is None);
        assert(table_lookup(t@, "homepage"@) is None);
        assert(table_lookup(t@, "documentation"@) is None);
        assert(table_lookup(t@, "readme"@) is None);
        assert(table_lookup(t@, "keywords"@) is None);
        assert(table_lookup(t@, "categories"@) is None);
        assert(table_lookup(t@, "license"@) is None);
        assert(table_lookup(t@, "license-file"@) is None);
        assert(table_lookup(t@, "repository"@) is None);
        assert(table_lookup(t@, "metadata"@) is None);
        assert(table_lookup(t@, "rust-version"@) is None);
        assert(table_lookup(t@, "exclude"@) is None);
        assert(table_lookup(t@, "include"@) is None);
        assert(table_lookup(t@, "default_run"@) is None);
        assert(table_lookup(t@, "autobins"@) is None);
        assert(table_lookup(t@, "autoexamples"@) is None);
        assert(table_lookup(t@, "autotests"@) is None);
        assert(table_lookup(t@, "autobenches"@) is None);
        assert(table_lookup(t@, "publish"@) is None);
        assert(table_lookup(t@, "resolver"@) is None);
    }
    push_opt_value(&mut t, "authors", g_authors_v);
    proof {
        package_key_facts();
        assert(table_lookup(t@, "name"@) == g_name);
        assert(table_lookup(t@, "edition"@) == g_edition);
        assert(table_lookup(t@, "version"@) == g_version);
        assert(table_lookup(t@, "build"@) == g_build);
        assert(table_lookup(t@, "workspace"@) == g_workspace);
        assert(table_lookup(t@, "authors"@) == g_authors);
        assert(table_lookup(t@, "links"@) is None);
        assert(table_lookup(t@, "description"@) is None);
        assert(table_lookup(t@, "homepage"@) is None);
        assert(table_lookup(t@, "documentation"@) is None);
        assert(table_lookup(t@, "readme"@) is None);
        assert(table_lookup(t@, "keywords"@) is None);
        assert(table_lookup(t@, "categories"@) is None);
        assert(table_lookup(t@, "license"@) is None);
        assert(table_lookup(t@, "license-file"@) is None);
        assert(table_lookup(t@, "repository"@) is None);
        assert(table_lookup(t@, "metadata"@) is None);
        assert(table_lookup(t@, "rust-version"@) is None);
        assert(table_lookup(t@, "exclude"@) is None);
        assert(table_lookup(t@, "include"@) is None);
        assert(table_lookup(t@, "default_run"@) is None);
        assert(table_lookup(t@, "autobins"@) is None);
        assert(table_lookup(t@, "autoexamples"@) is None);
        assert(table_lookup(t@, "autotests"@) is None);
        assert(table_lookup(t@, "autobenches"@) is None);
        assert(table_lookup(t@, "publish"@) is None);
        assert(table_lookup(t@, "resolver"@) is None);
    }
    push_opt_value(&mut t, "links", g_links_v);
    proof {
        package_key_facts();
        assert(table_lookup(t@, "name"@) == g_name);
        assert(table_lookup(t@, "edition"@) == g_edition);
        assert(table_lookup(t@, "version"@) == g_version);
        assert(table_lookup(t@, "build"@) == g_build);
        assert(table_lookup(t@, "workspace"@) == g_workspace);
        assert(table_lookup(t@, "authors"@) == g_authors);
        assert(table_lookup(t@, "links"@) == g_links);
        assert(table_lookup(t@, "description"@) is None);
        assert(table_lookup(t@, "homepage"@) is None);
        assert(table_lookup(t@, "documentation"@) is None);
        assert(table_lookup(t@, "readme"@) is None);
        assert(table_lookup(t@, "keywords"@) is None);
        assert(table_lookup(t@, "categories"@) is None);
        assert(table_lookup(t@, "license"@) is None);
        assert(table_lookup(t@, "license-file"@) is None);
        assert(table_lookup(t@, "repository"@) is None);
        assert(table_lookup(t@, "metadata"@) is None);
        assert(table_lookup(t@, "rust-version"@) is None);
        assert(table_lookup(t@, "exclude"@) is None);
        assert(table_lookup(t@, "include"@) is None);
        assert(table_lookup(t@, "default_run"@) is None);
        assert(table_lookup(t@, "autobins"@) is None);
        assert(table_lookup(t@, "autoexamples"@) is None);
        assert(table_lookup(t@, "autotests"@) is None);
        assert(table_lookup(t@, "autobenches"@) is None);
        assert(table_lookup(t@, "publish"@) is None);
        assert(table_lookup(t@, "resolver"@) is None);
    }
    push_opt_value(&mut t, "description", g_description_v);
    proof {
        package_key_facts();
        assert(table_lookup(t@, "name"@) == g_name);
        assert(table_lookup(t@, "edition"@) == g_edition);
        assert(table_lookup(t@, "version"@) == g_version);
        assert(table_lookup(t@, "build"@) == g_build);
        assert(table_lookup(t@, "workspace"@) == g_workspace);
        assert(table_lookup(t@, "authors"@) == g_authors);
        assert(table_lookup(t@, "links"@) == g_links);
        assert(table_lookup(t@, "description"@) == g_description);
        assert(table_lookup(t@, "homepage"@) is None);
        assert(table_lookup(t@, "documentation"@) is None);
        assert(table_lookup(t@, "readme"@) is None);
        assert(table_lookup(t@, "keywords"@) is None);
        assert(table_lookup(t@, "categories"@) is None);
        assert(table_lookup(t@, "license"@) is None);
        assert(table_lookup(t@, "license-file"@) is None);
        assert(table_lookup(t@, "repository"@) is None);
        assert(table_lookup(t@, "metadata"@) is None);
        assert(table_lookup(t@, "rust-version"@) is None);
        assert(table_lookup(t@, "exclude"@) is None);
        assert(table_lookup(t@, "include"@) is None);
        assert(table_lookup(t@, "default_run"@) is None);
        assert(table_lookup(t@, "autobins"@) is None);
        assert(table_lookup(t@, "autoexamples"@) is None);
        assert(table_lookup(t@, "autotests"@) is None);
        assert(table_lookup(t@, "autobenches"@) is None);
        assert(table_lookup(t@, "publish"@) is None);
        assert(table_lookup(t@, "resolver"@) is None);
    }
    push_opt_value(&mut t, "homepage", g_homepage_v);
    proof {
        package_key_facts();
        assert(table_lookup(t@, "name"@) == g_name);
        assert(table_lookup(t@, "edition"@) == g_edition);
        assert(table_lookup(t@, "version"@) == g_version);
        assert(table_lookup(t@, "build"@) == g_build);
        assert(table_lookup(t@, "workspace"@) == g_workspace);
        assert(table_lookup(t@, "authors"@) == g_authors);
        assert(table_lookup(t@, "links"@) == g_links);
        assert(table_lookup(t@, "description"@) == g_description);
        assert(table_lookup(t@, "homepage"@) == g_homepage);
        assert(table_lookup(t@, "documentation"@) is None);
        assert(table_lookup(t@, "readme"@) is None);
        assert(table_lookup(t@, "keywords"@) is None);
        assert(table_lookup(t@, "categories"@) is None);
        assert(table_lookup(t@, "license"@) is None);
        assert(table_lookup(t@, "license-file"@) is None);
        assert(table_lookup(t@, "repository"@) is None);
        assert(table_lookup(t@, "metadata"@) is None);
        assert(table_lookup(t@, "rust-version"@) is None);
        assert(table_lookup(t@, "exclude"@) is None);
        assert(table_lookup(t@, "include"@) is None);
        assert(table_lookup(t@, "default_run"@) is None);
        assert(table_lookup(t@, "autobins"@) is None);
        assert(table_lookup(t@, "autoexamples"@) is None);
        assert(table_lookup(t@, "autotests"@) is None);
        assert(table_lookup(t@, "autobenches"@) is None);
        assert(table_lookup(t@, "publish"@) is None);
        assert(table_lookup(t@, "resolver"@) is None);
    }
    push_opt_value(&mut t, "documentation", g_documentation_v);
    proof {
        package_key_facts();
        assert(table_lookup(t@, "name"@) == g_name);
        assert(table_lookup(t@, "edition"@) == g_edition);
        assert(table_lookup(t@, "version"@) == g_version);
        assert(table_lookup(t@, "build"@) == g_build);
        assert(table_lookup(t@, "workspace"@) == g_workspace);
        assert(table_lookup(t@, "authors"@) == g_authors);
        assert(table_lookup(t@, "links"@) == g_links);
        assert(table_lookup(t@, "description"@) == g_description);
        assert(table_lookup(t@, "homepage"@) == g_homepage);
        assert(table_lookup(t@, "documentation"@) == g_documentation);
        assert(table_lookup(t@, "readme"@) is None);
        assert(table_lookup(t@, "keywords"@) is None);
        assert(table_lookup(t@, "categories"@) is None);
        assert(table_lookup(t@, "license"@) is None);
        assert(table_lookup(t@, "license-file"@) is None);
        assert(table_lookup(t@, "repository"@) is None);
        assert(table_lookup(t@, "metadata"@) is None);
        assert(table_lookup(t@, "rust-version"@) is None);
        assert(table_lookup(t@, "exclude"@) is None);
        assert(table_lookup(t@, "include"@) is None);
        assert(table_lookup(t@, "default_run"@) is None);
        assert(table_lookup(t@, "autobins"@) is None);
        assert(table_lookup(t@, "autoexamples"@) is None);
        assert(table_lookup(t@, "autotests"@) is None);
        assert(table_lookup(t@, "autobenches"@) is None);
        assert(table_lookup(t@, "publish"@) is None);
        assert(table_lookup(t@, "resolver"@) is None);
    }
    push_opt_value(&mut t, "readme", g_readme_v);
    proof {
        package_key_facts();
        assert(table_lookup(t@, "name"@) == g_name);
        assert(table_lookup(t@, "edition"@) == g_edition);
        assert(table_lookup(t@, "version"@) == g_version);
        assert(table_lookup(t@, "build"@) == g_build);
        assert(table_lookup(t@, "workspace"@) == g_workspace);
        assert(table_lookup(t@, "authors"@) == g_authors);
        assert(table_lookup(t@, "links"@) == g_links);
        assert(table_lookup(t@, "description"@) == g_description);
        assert(table_lookup(t@, "homepage"@) == g_homepage);
        assert(table_lookup(t@, "documentation"@) == g_documentation);
        assert(table_lookup(t@, "readme"@) == g_readme);
        assert(table_lookup(t@, "keywords"@) is None);
        assert(table_lookup(t@, "categories"@) is None);
        assert(table_lookup(t@, "license"@) is None);
        assert(table_lookup(t@, "license-file"@) is None);
        assert(table_lookup(t@, "repository"@) is None);
        assert(table_lookup(t@, "metadata"@) is None);
        assert(table_lookup(t@, "rust-version"@) is None);
        assert(table_lookup(t@, "exclude"@) is None);
        assert(table_lookup(t@, "include"@) is None);
        assert(table_lookup(t@, "default_run"@) is None);
        assert(table_lookup(t@, "autobins"@) is None);
        assert(table_lookup(t@, "autoexamples"@) is None);
        assert(table_lookup(t@, "autotests"@) is None);
        assert(table_lookup(t@, "autobenches"@) is None);
        assert(table_lookup(t@, "publish"@) is None);
        assert(table_lookup(t@, "resolver"@) is None);
    }
    push_opt_value(&mut t, "keywords", g_keywords_v);
    proof {
        package_key_facts();
        assert(table_lookup(t@, "name"@) == g_name);
        assert(table_lookup(t@, "edition"@) == g_edition);
        assert(table_lookup(t@, "version"@) == g_version);
        assert(table_lookup(t@, "build"@) == g_build);
        assert(table_lookup(t@, "workspace"@) == g_workspace);
        assert(table_lookup(t@, "authors"@) == g_authors);
        assert(table_lookup(t@, "links"@) == g_links);
        assert(table_lookup(t@, "description"@) == g_description);
        assert(table_lookup(t@, "homepage"@) == g_homepage);
        assert(table_lookup(t@, "documentation"@) == g_documentation);
        assert(table_lookup(t@, "readme"@) == g_readme);
        assert(table_lookup(t@, "keywords"@) == g_keywords);
        assert(table_lookup(t@, "categories"@) is None);
        assert(table_lookup(t@, "license"@) is None);
        assert(table_lookup(t@, "license-file"@) is None);
        assert(table_lookup(t@, "repository"@) is None);
        assert(table_lookup(t@, "metadata"@) is None);
        assert(table_lookup(t@, "rust-version"@) is None);
        assert(table_lookup(t@, "exclude"@) is None);
        assert(table_lookup(t@, "include"@) is None);
        assert(table_lookup(t@, "default_run"@) is None);
        assert(table_lookup(t@, "autobins"@) is None);
        assert(table_lookup(t@, "autoexamples"@) is None);
        assert(table_lookup(t@, "autotests"@) is None);
        assert(table_lookup(t@, "autobenches"@) is None);
        assert(table_lookup(t@, "publish"@) is None);
        assert(table_lookup(t@, "resolver"@) is None);
    }
    push_opt_value(&mut t, "categories", g_categories_v);
    proof {
        package_key_facts();
        assert(table_lookup(t@, "name"@) == g_name);
        assert(table_lookup(t@, "edition"@) == g_edition);
        assert(table_lookup(t@, "version"@) == g_version);
        assert(table_lookup(t@, "build"@) == g_build);
        assert(table_lookup(t@, "workspace"@) == g_workspace);
        assert(table_lookup(t@, "authors"@) == g_authors);
        assert(table_lookup(t@, "links"@) == g_links);
        assert(table_lookup(t@, "description"@) == g_description);
        assert(table_lookup(t@, "homepage"@) == g_homepage);
        assert(table_lookup(t@, "documentation"@) == g_documentation);
        assert(table_lookup(t@, "readme"@) == g_readme);
        assert(table_lookup(t@, "keywords"@) == g_keywords);
        assert(table_lookup(t@, "categories"@) == g_categories);
        assert(table_lookup(t@, "license"@) is None);
        assert(table_lookup(t@, "license-file"@) is None);
        assert(table_lookup(t@, "repository"@) is None);
        assert(table_lookup(t@, "metadata"@) is None);
        assert(table_lookup(t@, "rust-version"@) is None);
        assert(table_lookup(t@, "exclude"@) is None);
        assert(table_lookup(t@, "include"@) is None);
        assert(table_lookup(t@, "default_run"@) is None);
        assert(table_lookup(t@, "autobins"@) is None);
        assert(table_lookup(t@, "autoexamples"@) is None);
        assert(table_lookup(t@, "autotests"@) is None);
        assert(table_lookup(t@, "autobenches"@) is None);
        assert(table_lookup(t@, "publish"@) is None);
        assert(table_lookup(t@, "resolver"@) is None);
    }
    push_opt_value(&mut t, "license", g_license_v);
    proof {
        package_key_facts();
        assert(table_lookup(t@, "name"@) == g_name);
        assert(table_lookup(t@, "edition"@) == g_edition);
        assert(table_lookup(t@, "version"@) == g_version);
        assert(table_lookup(t@, "build"@) == g_build);
        assert(table_lookup(t@, "workspace"@) == g_workspace);
        assert(table_lookup(t@, "authors"@) == g_authors);
        assert(table_lookup(t@, "links"@) == g_links);
        assert(table_lookup(t@, "description"@) == g_description);
        assert(table_lookup(t@, "homepage"@) == g_homepage);
        assert(table_lookup(t@, "documentation"@) == g_documentation);
        assert(table_lookup(t@, "readme"@) == g_readme);
        assert(table_lookup(t@, "keywords"@) == g_keywords);
        assert(table_lookup(t@, "categories"@) == g_categories);
        assert(table_lookup(t@, "license"@) == g_license);
        assert(table_lookup(t@, "license-file"@) is None);
        assert(table_lookup(t@, "repository"@) is None);
        assert(table_lookup(t@, "metadata"@) is None);
        assert(table_lookup(t@, "rust-version"@) is None);
        assert(table_lookup(t@, "exclude"@) is None);
        assert(table_lookup(t@, "include"@) is None);
        assert(table_lookup(t@, "default_run"@) is None);
        assert(table_lookup(t@, "autobins"@) is None);
        assert(table_lookup(t@, "autoexamples"@) is None);
        assert(table_lookup(t@, "autotests"@) is None);
        assert(table_lookup(t@, "autobenches"@) is None);
        assert(table_lookup(t@, "publish"@) is None);
        assert(table_lookup(t@, "resolver"@) is None);
    }
    push_opt_value(&mut t, "license-file", g_license_file_v);
    proof {
        package_key_facts();
        assert(table_lookup(t@, "name"@) == g_name);
        assert(table_lookup(t@, "edition"@) == g_edition);
        assert(table_lookup(t@, "version"@) == g_version);
        assert(table_lookup(t@, "build"@) == g_build);
        assert(table_lookup(t@, "workspace"@) == g_workspace);
        assert(table_lookup(t@, "authors"@) == g_authors);
        assert(table_lookup(t@, "links"@) == g_links);
        assert(table_lookup(t@, "description"@) == g_description);
        assert(table_lookup(t@, "homepage"@) == g_homepage);
        assert(table_lookup(t@, "documentation"@) == g_documentation);
        assert(table_lookup(t@, "readme"@) == g_readme);
        assert(table_lookup(t@, "keywords"@) == g_keywords);
        assert(table_lookup(t@, "categories"@) == g_categories);
        assert(table_lookup(t@, "license"@) == g_license);
        assert(table_lookup(t@, "license-file"@) == g_license_file);
        assert(table_lookup(t@, "repository"@) is None);
        assert(table_lookup(t@, "metadata"@) is None);
        assert(table_lookup(t@, "rust-version"@) is None);
        assert(table_lookup(t@, "exclude"@) is None);
        assert(table_lookup(t@, "include"@) is None);
        assert(table_lookup(t@, "default_run"@) is None);
        assert(table_lookup(t@, "autobins"@) is None);
        assert(table_lookup(t@, "autoexamples"@) is None);
        assert(table_lookup(t@, "autotests"@) is None);
        assert(table_lookup(t@, "autobenches"@) is None);
        assert(table_lookup(t@, "publish"@) is None);
        assert(table_lookup(t@, "resolver"@) is None);
    }
    push_opt_value(&mut t, "repository", g_repository_v);
    proof {
        package_key_facts();
        assert(table_lookup(t@, "name"@) == g_name);
        assert(table_lookup(t@, "edition"@) == g_edition);
        assert(table_lookup(t@, "version"@) == g_version);
        assert(table_lookup(t@, "build"@) == g_build);
        assert(table_lookup(t@, "workspace"@) == g_workspace);
        assert(table_lookup(t@, "authors"@) == g_authors);
        assert(table_lookup(t@, "links"@) == g_links);
        assert(table_lookup(t@, "description"@) == g_description);
        assert(table_lookup(t@, "homepage"@) == g_homepage);
        assert(table_lookup(t@, "documentation"@) == g_documentation);
        assert(table_lookup(t@, "readme"@) == g_readme);
        assert(table_lookup(t@, "keywords"@) == g_keywords);
        assert(table_lookup(t@, "categories"@) == g_categories);
        assert(table_lookup(t@, "license"@) == g_license);
        assert(table_lookup(t@, "license-file"@) == g_license_file);
        assert(table_lookup(t@, "repository"@) == g_repository);
        assert(table_lookup(t@, "metadata"@) is None);
        assert(table_lookup(t@, "rust-version"@) is None);
        assert(table_lookup(t@, "exclude"@) is None);
        assert(table_lookup(t@, "include"@) is None);
        assert(table_lookup(t@, "default_run"@) is None);
        assert(table_lookup(t@, "autobins"@) is None);
        assert(table_lookup(t@, "autoexamples"@) is None);
        assert(table_lookup(t@, "autotests"@) is None);
        assert(table_lookup(t@, "autobenches"@) is None);
        assert(table_lookup(t@, "publish"@) is None);
        assert(table_lookup(t@, "resolver"@) is None);
    }
    push_opt_value(&mut t, "metadata", g_metadata_v);
    proof {
        package_key_facts();
        assert(table_lookup(t@, "name"@) == g_name);
        assert(table_lookup(t@, "edition"@) == g_edition);
        assert(table_lookup(t@, "version"@) == g_version);
        assert(table_lookup(t@, "build"@) == g_build);
        assert(table_lookup(t@, "workspace"@) == g_workspace);
        assert(table_lookup(t@, "authors"@) == g_authors);
        assert(table_lookup(t@, "links"@) == g_links);
        assert(table_lookup(t@, "description"@) == g_description);
        assert(table_lookup(t@, "homepage"@) == g_homepage);
        assert(table_lookup(t@, "documentation"@) == g_documentation);
        assert(table_lookup(t@, "readme"@) == g_readme);
        assert(table_lookup(t@, "keywords"@) == g_keywords);
        assert(table_lookup(t@, "categories"@) == g_categories);
        assert(table_lookup(t@, "license"@) == g_license);
        assert(table_lookup(t@, "license-file"@) == g_license_file);
        assert(table_lookup(t@, "repository"@) == g_repository);
        assert(table_lookup(t@, "metadata"@) == g_metadata);
        assert(table_lookup(t@, "rust-version"@) is None);
        assert(table_lookup(t@, "exclude"@) is None);
        assert(table_lookup(t@, "include"@) is None);
        assert(table_lookup(t@, "default_run"@) is None);
        assert(table_lookup(t@, "autobins"@) is None);
        assert(table_lookup(t@, "autoexamples"@) is None);
        assert(table_lookup(t@, "autotests"@) is None);
        assert(table_lookup(t@, "autobenches"@) is None);
        assert(table_lookup(t@, "publish"@) is None);
        assert(table_lookup(t@, "resolver"@) is None);
    }
    push_opt_value(&mut t, "rust-version", g_rust_version_v);
    proof {
        package_key_facts();
        assert(table_lookup(t@, "name"@) == g_name);
        assert(table_lookup(t@, "edition"@) == g_edition);
        assert(table_lookup(t@, "version"@) == g_version);
        assert(table_lookup(t@, "build"@) == g_build);
        assert(table_lookup(t@, "workspace"@) == g_workspace);
        assert(table_lookup(t@, "authors"@) == g_authors);
        assert(table_lookup(t@, "links"@) == g_links);
        assert(table_lookup(t@, "description"@) == g_description);
        assert(table_lookup(t@, "homepage"@) == g_homepage);
        assert(table_lookup(t@, "documentation"@) == g_documentation);
        assert(table_lookup(t@, "readme"@) == g_readme);
        assert(table_lookup(t@, "keywords"@) == g_keywords);
        assert(table_lookup(t@, "categories"@) == g_categories);
        assert(table_lookup(t@, "license"@) == g_license);
        assert(table_lookup(t@, "license-file"@) == g_license_file);
        assert(table_lookup(t@, "repository"@) == g_repository);
        assert(table_lookup(t@, "metadata"@) == g_metadata);
        assert(table_lookup(t@, "rust-version"@) == g_rust_version);
        assert(table_lookup(t@, "exclude"@) is None);
        assert(table_lookup(t@, "include"@) is None);
        assert(table_lookup(t@, "default_run"@) is None);
        assert(table_lookup(t@, "autobins"@) is None);
        assert(table_lookup(t@, "autoexamples"@) is None);
        assert(table_lookup(t@, "autotests"@) is None);
        assert(table_lookup(t@, "autobenches"@) is None);
        assert(table_lookup(t@, "publish"@) is None);
        assert(table_lookup(t@, "resolver"@) is None);
    }
    push_opt_value(&mut t, "exclude", g_exclude_v);
    proof {
        package_key_facts();
        assert(table_lookup(t@, "name"@) == g_name);
        assert(table_lookup(t@, "edition"@) == g_edition);
        assert(table_lookup(t@, "version"@) == g_version);
        assert(table_lookup(t@, "build"@) == g_build);
        assert(table_lookup(t@, "workspace"@) == g_workspace);
        assert(table_lookup(t@, "authors"@) == g_authors);
        assert(table_lookup(t@, "links"@) == g_links);
        assert(table_lookup(t@, "description"@) == g_description);
        assert(table_lookup(t@, "homepage"@) == g_homepage);
        assert(table_lookup(t@, "documentation"@) == g_documentation);
        assert(table_lookup(t@, "readme"@) == g_readme);
        assert(table_lookup(t@, "keywords"@) == g_keywords);
        assert(table_lookup(t@, "categories"@) == g_categories);
        assert(table_lookup(t@, "license"@) == g_license);
        assert(table_lookup(t@, "license-file"@) == g_license_file);
        assert(table_lookup(t@, "repository"@) == g_repository);
        assert(table_lookup(t@, "metadata"@) == g_metadata);
        assert(table_lookup(t@, "rust-version"@) == g_rust_version);
        assert(table_lookup(t@, "exclude"@) == g_exclude);
        assert(table_lookup(t@, "include"@) is None);
        assert(table_lookup(t@, "default_run"@) is None);
        assert(table_lookup(t@, "autobins"@) is None);
        assert(table_lookup(t@, "autoexamples"@) is None);
        assert(table_lookup(t@, "autotests"@) is None);
        assert(table_lookup(t@, "autobenches"@) is None);
        assert(table_lookup(t@, "publish"@) is None);
        assert(table_lookup(t@, "resolver"@) is None);
    }
    push_opt_value(&mut t, "include", g_include_v);
    proof {
        package_key_facts();
        assert(table_lookup(t@, "name"@) == g_name);
        assert(table_lookup(t@, "edition"@) == g_edition);
        assert(table_lookup(t@, "version"@) == g_version);
        assert(table_lookup(t@, "build"@) == g_build);
        assert(table_lookup(t@, "workspace"@) == g_workspace);
        assert(table_lookup(t@, "authors"@) == g_authors);
        assert(table_lookup(t@, "links"@) == g_links);
        assert(table_lookup(t@, "description"@) == g_description);
        assert(table_lookup(t@, "homepage"@) == g_homepage);
        assert(table_lookup(t@, "documentation"@) == g_documentation);
        assert(table_lookup(t@, "readme"@) == g_readme);
        assert(table_lookup(t@, "keywords"@) == g_keywords);
        assert(table_lookup(t@, "categories"@) == g_categories);
        assert(table_lookup(t@, "license"@) == g_license);
        assert(table_lookup(t@, "license-file"@) == g_license_file);
        assert(table_lookup(t@, "repository"@) == g_repository);
        assert(table_lookup(t@, "metadata"@) == g_metadata);
        assert(table_lookup(t@, "rust-version"@) == g_rust_version);
        assert(table_lookup(t@, "exclude"@) == g_exclude);
        assert(table_lookup(t@, "include"@) == g_include);
        assert(table_lookup(t@, "default_run"@) is None);
        assert(table_lookup(t@, "autobins"@) is None);
        assert(table_lookup(t@, "autoexamples"@) is None);
        assert(table_lookup(t@, "autotests"@) is None);
        assert(table_lookup(t@, "autobenches"@) is None);
        assert(table_lookup(t@, "publish"@) is None);
        assert(table_lookup(t@, "resolver"@) is None);
    }
    push_opt_value(&mut t, "default_run", g_default_run_v);
    proof {
        package_key_facts();
        assert(table_lookup(t@, "name"@) == g_name);
        assert(table_lookup(t@, "edition"@) == g_edition);
        assert(table_lookup(t@, "version"@) == g_version);
        assert(table_lookup(t@, "build"@) == g_build);
        assert(table_lookup(t@, "workspace"@) == g_workspace);
        assert(table_lookup(t@, "authors"@) == g_authors);
        assert(table_lookup(t@, "links"@) == g_links);
        assert(table_lookup(t@, "description"@) == g_description);
        assert(table_lookup(t@, "homepage"@) == g_homepage);
        assert(table_lookup(t@, "documentation"@) == g_documentation);
        assert(table_lookup(t@, "readme"@) == g_readme);
        assert(table_lookup(t@, "keywords"@) == g_keywords);
        assert(table_lookup(t@, "categories"@) == g_categories);
        assert(table_lookup(t@, "license"@) == g_license);
        assert(table_lookup(t@, "license-file"@) == g_license_file);
        assert(table_lookup(t@, "repository"@) == g_repository);
        assert(table_lookup(t@, "metadata"@) == g_metadata);
        assert(table_lookup(t@, "rust-version"@) == g_rust_version);
        assert(table_lookup(t@, "exclude"@) == g_exclude);
        assert(table_lookup(t@, "include"@) == g_include);
        assert(table_lookup(t@, "default_run"@) == g_default_run);
        assert(table_lookup(t@, "autobins"@) is None);
        assert(table_lookup(t@, "autoexamples"@) is None);
        assert(table_lookup(t@, "autotests"@) is None);
        assert(table_lookup(t@, "autobenches"@) is None);
        assert(table_lookup(t@, "publish"@) is None);
        assert(table_lookup(t@, "resolver"@) is None);
    }
    push_opt_value(&mut t, "autobins", g_autobins_v);
    proof {
        package_key_facts();
        assert(table_lookup(t@, "name"@) == g_name);
        assert(table_lookup(t@, "edition"@) == g_edition);
        assert(table_lookup(t@, "version"@) == g_version);
        assert(table_lookup(t@, "build"@) == g_build);
        assert(table_lookup(t@, "workspace"@) == g_workspace);
        assert(table_lookup(t@, "authors"@) == g_authors);
        assert(table_lookup(t@, "links"@) == g_links);
        assert(table_lookup(t@, "description"@) == g_description);
        assert(table_lookup(t@, "homepage"@) == g_homepage);
        assert(table_lookup(t@, "documentation"@) == g_documentation);
        assert(table_lookup(t@, "readme"@) == g_readme);
        assert(table_lookup(t@, "keywords"@) == g_keywords);
        assert(table_lookup(t@, "categories"@) == g_categories);
        assert(table_lookup(t@, "license"@) == g_license);
        assert(table_lookup(t@, "license-file"@) == g_license_file);
        assert(table_lookup(t@, "repository"@) == g_repository);
        assert(table_lookup(t@, "metadata"@) == g_metadata);
        assert(table_lookup(t@, "rust-version"@) == g_rust_version);
        assert(table_lookup(t@, "exclude"@) == g_exclude);
        assert(table_lookup(t@, "include"@) == g_include);
        assert(table_lookup(t@, "default_run"@) == g_default_run);
        assert(table_lookup(t@, "autobins"@) == g_autobins);
        assert(table_lookup(t@, "autoexamples"@) is None);
        assert(table_lookup(t@, "autotests"@) is None);
        assert(table_lookup(t@, "autobenches"@) is None);
        assert(table_lookup(t@, "publish"@) is None);
        assert(table_lookup(t@, "resolver"@) is None);
    }
    push_opt_value(&mut t, "autoexamples", g_autoexamples_v);
    proof {
        package_key_facts();
        assert(table_lookup(t@, "name"@) == g_name);
        assert(table_lookup(t@, "edition"@) == g_edition);
        assert(table_lookup(t@, "version"@) == g_version);
        assert(table_lookup(t@, "build"@) == g_build);
        assert(table_lookup(t@, "workspace"@) == g_workspace);
        assert(table_lookup(t@, "authors"@) == g_authors);
        assert(table_lookup(t@, "links"@) == g_links);
        assert(table_lookup(t@, "description"@) == g_description);
        assert(table_lookup(t@, "homepage"@) == g_homepage);
        assert(table_lookup(t@, "documentation"@) == g_documentation);
        assert(table_lookup(t@, "readme"@) == g_readme);
        assert(table_lookup(t@, "keywords"@) == g_keywords);
        assert(table_lookup(t@, "categories"@) == g_categories);
        assert(table_lookup(t@, "license"@) == g_license);
        assert(table_lookup(t@, "license-file"@) == g_license_file);
        assert(table_lookup(t@, "repository"@) == g_repository);
        assert(table_lookup(t@, "metadata"@) == g_metadata);
        assert(table_lookup(t@, "rust-version"@) == g_rust_version);
        assert(table_lookup(t@, "exclude"@) == g_exclude);
        assert(table_lookup(t@, "include"@) == g_include);
        assert(table_lookup(t@, "default_run"@) == g_default_run);
        assert(table_lookup(t@, "autobins"@) == g_autobins);
        assert(table_lookup(t@, "autoexamples"@) == g_autoexamples);
        assert(table_lookup(t@, "autotests"@) is None);
        assert(table_lookup(t@, "autobenches"@) is None);
        assert(table_lookup(t@, "publish"@) is None);
        assert(table_lookup(t@, "resolver"@) is None);
    }
    push_opt_value(&mut t, "autotests", g_autotests_v);
    proof {
        package_key_facts();
        assert(table_lookup(t@, "name"@) == g_name);
        assert(table_lookup(t@, "edition"@) == g_edition);
        assert(table_lookup(t@, "version"@) == g_version);
        assert(table_lookup(t@, "build"@) == g_build);
        assert(table_lookup(t@, "workspace"@) == g_workspace);
        assert(table_lookup(t@, "authors"@) == g_authors);
        assert(table_lookup(t@, "links"@) == g_links);
        assert(table_lookup(t@, "description"@) == g_description);
        assert(table_lookup(t@, "homepage"@) == g_homepage);
        assert(table_lookup(t@, "documentation"@) == g_documentation);
        assert(table_lookup(t@, "readme"@) == g_readme);
        assert(table_lookup(t@, "keywords"@) == g_keywords);
        assert(table_lookup(t@, "categories"@) == g_categories);
        assert(table_lookup(t@, "license"@) == g_license);
        assert(table_lookup(t@, "license-file"@) == g_license_file);
        assert(table_lookup(t@, "repository"@) == g_repository);
        assert(table_lookup(t@, "metadata"@) == g_metadata);
        assert(table_lookup(t@, "rust-version"@) == g_rust_version);
        assert(table_lookup(t@, "exclude"@) == g_exclude);
        assert(table_lookup(t@, "include"@) == g_include);
        assert(table_lookup(t@, "default_run"@) == g_default_run);
        assert(table_lookup(t@, "autobins"@) == g_autobins);
        assert(table_lookup(t@, "autoexamples"@) == g_autoexamples);
        assert(table_lookup(t@, "autotests"@) == g_autotests);
        assert(table_lookup(t@, "autobenches"@) is None);
        assert(table_lookup(t@, "publish"@) is None);
        assert(table_lookup(t@, "resolver"@) is None);
    }
    push_opt_value(&mut t, "autobenches", g_autobenches_v);
    proof {
        package_key_facts();
        assert(table_lookup(t@, "name"@) == g_name);
        assert(table_lookup(t@, "edition"@) == g_edition);
        assert(table_lookup(t@, "version"@) == g_version);
        assert(table_lookup(t@, "build"@) == g_build);
        assert(table_lookup(t@, "workspace"@) == g_workspace);
        assert(table_lookup(t@, "authors"@) == g_authors);
        assert(table_lookup(t@, "links"@) == g_links);
        assert(table_lookup(t@, "description"@) == g_description);
        assert(table_lookup(t@, "homepage"@) == g_homepage);
        assert(table_lookup(t@, "documentation"@) == g_documentation);
        assert(table_lookup(t@, "readme"@) == g_readme);
        assert(table_lookup(t@, "keywords"@) == g_keywords);
        assert(table_lookup(t@, "categories"@) == g_categories);
        assert(table_lookup(t@, "license"@) == g_license);
        assert(table_lookup(t@, "license-file"@) == g_license_file);
        assert(table_lookup(t@, "repository"@) == g_repository);
        assert(table_lookup(t@, "metadata"@) == g_metadata);
        assert(table_lookup(t@, "rust-version"@) == g_rust_version);
        assert(table_lookup(t@, "exclude"@) == g_exclude);
        assert(table_lookup(t@, "include"@) == g_include);
        assert(table_lookup(t@, "default_run"@) == g_default_run);
        assert(table_lookup(t@, "autobins"@) == g_autobins);
        assert(table_lookup(t@, "autoexamples"@) == g_autoexamples);
        assert(table_lookup(t@, "autotests"@) == g_autotests);
        assert(table_lookup(t@, "autobenches"@) == g_autobenches);
        assert(table_lookup(t@, "publish"@) is None);
        assert(table_lookup(t@, "resolver"@) is None);
    }
    push_opt_value(&mut t, "publish", g_publish_v);
    proof {
        package_key_facts();
        assert(table_lookup(t@, "name"@) == g_name);
        assert(table_lookup(t@, "edition"@) == g_edition);
        assert(table_lookup(t@, "version"@) == g_version);
        assert(table_lookup(t@, "build"@) == g_build);
        assert(table_lookup(t@, "workspace"@) == g_workspace);
        assert(table_lookup(t@, "authors"@) == g_authors);
        assert(table_lookup(t@, "links"@) == g_links);
        assert(table_lookup(t@, "description"@) == g_description);
        assert(table_lookup(t@, "homepage"@) == g_homepage);
        assert(table_lookup(t@, "documentation"@) == g_documentation);
        assert(table_lookup(t@, "readme"@) == g_readme);
        assert(table_lookup(t@, "keywords"@) == g_keywords);
        assert(table_lookup(t@, "categories"@) == g_categories);
        assert(table_lookup(t@, "license"@) == g_license);
        assert(table_lookup(t@, "license-file"@) == g_license_file);
        assert(table_lookup(t@, "repository"@) == g_repository);
        assert(table_lookup(t@, "metadata"@) == g_metadata);
        assert(table_lookup(t@, "rust-version"@) == g_rust_version);
        assert(table_lookup(t@, "exclude"@) == g_exclude);
        assert(table_lookup(t@, "include"@) == g_include);
        assert(table_lookup(t@, "default_run"@) == g_default_run);
        assert(table_lookup(t@, "autobins"@) == g_autobins);
        assert(table_lookup(t@, "autoexamples"@) == g_autoexamples);
        assert(table_lookup(t@, "autotests"@) == g_autotests);
        assert(table_lookup(t@, "autobenches"@) == g_autobenches);
        assert(table_lookup(t@, "publish"@) == g_publish);
        assert(table_lookup(t@, "resolver"@) is None);
    }
    push_opt_value(&mut t, "resolver", g_resolver_v);
    proof {
        package_key_facts();
        assert(table_lookup(t@, "name"@) == g_name);
        assert(table_lookup(t@, "edition"@) == g_edition);
        assert(table_lookup(t@, "version"@) == g_version);
        assert(table_lookup(t@, "build"@) == g_build);
        assert(table_lookup(t@, "workspace"@) == g_workspace);
        assert(table_lookup(t@, "authors"@) == g_authors);
        assert(table_lookup(t@, "links"@) == g_links);
        assert(table_lookup(t@, "description"@) == g_description);
        assert(table_lookup(t@, "homepage"@) == g_homepage);
        assert(table_lookup(t@, "documentation"@) == g_documentation);
        assert(table_lookup(t@, "readme"@) == g_readme);
        assert(table_lookup(t@, "keywords"@) == g_keywords);
        assert(table_lookup(t@, "categories"@) == g_categories);
        assert(table_lookup(t@, "license"@) == g_license);
        assert(table_lookup(t@, "license-file"@) == g_license_file);
        assert(table_lookup(t@, "repository"@) == g_repository);
        assert(table_lookup(t@, "metadata"@) == g_metadata);
        assert(table_lookup(t@, "rust-version"@) == g_rust_version);
        assert(table_lookup(t@, "exclude"@) == g_exclude);
        assert(table_lookup(t@, "include"@) == g_include);
        assert(table_lookup(t@, "default_run"@) == g_default_run);
        assert(table_lookup(t@, "autobins"@) == g_autobins);
        assert(table_lookup(t@, "autoexamples"@) == g_autoexamples);
        assert(table_lookup(t@, "autotests"@) == g_autotests);
        assert(table_lookup(t@, "autobenches"@) == g_autobenches);
        assert(table_lookup(t@, "publish"@) == g_publish);
        assert(table_lookup(t@, "resolver"@) == g_resolver);
    }
    proof {
        package_key_facts();
        assert(package_table_ok(t@));
        assert(package_table_from(t@, *p));
    }
    t
}



/// Every custom profile is stored under a non-conventional name, so its
/// binding cannot shadow one of the five conventional profiles.
pub open spec fn profiles_custom_wf(ps: Profiles) -> bool {
    forall|i: int| 0 <= i < ps.custom@.len() ==> !profiles_fixed_key((#[trigger] ps.custom@[i]).0@)
}

proof fn lemma_custom_entries_empty(t: Seq<(String, TomlValue)>)
    requires
        forall|i: int| 0 <= i < t.len() ==> profiles_fixed_key((#[trigger] t[i]).0@),
    ensures
        custom_entries(t) =~= Seq::<(String, TomlValue)>::empty(),
    decreases t.len(),
{
    reveal(Seq::filter);
    if t.len() > 0 {
        assert forall|i: int| 0 <= i < t.drop_last().len() implies profiles_fixed_key(
            (#[trigger] t.drop_last()[i]).0@,
        ) by {
            assert(t.drop_last()[i] == t[i]);
        }
        lemma_custom_entries_empty(t.drop_last());
    }
}

proof fn lemma_custom_entries_push(t: Seq<(String, TomlValue)>, e: (String, TomlValue))
    ensures
        !profiles_fixed_key(e.0@) ==> custom_entries(t.push(e)) =~= custom_entries(t).push(e),
        profiles_fixed_key(e.0@) ==> custom_entries(t.push(e)) =~= custom_entries(t),
{
    reveal(Seq::filter);
    assert(t.push(e).drop_last() =~= t);
    assert(t.push(e).last() == e);
}

fn ser_opt_profile(o: &Option<Profile>) -> (r: Option<TomlValue>)
    ensures
        match o {
            Some(p) => r matches Some(w) && profile_ok(w) && profile_from(w, *p),
            None => r is None,
        },
{
    match o {
        Some(p) => Some(ser_profile(p)),
        None => None,
    }
}

proof fn profiles_fixed_facts()
    ensures
        "release"@ != "dev"@,
        "release"@ != "test"@,
        "release"@ != "bench"@,
        "release"@ != "doc"@,
        "dev"@ != "test"@,
        "dev"@ != "bench"@,
        "dev"@ != "doc"@,
        "test"@ != "bench"@,
        "test"@ != "doc"@,
        "bench"@ != "doc"@,
{
    reveal_strlit("release");
    reveal_strlit("dev");
    reveal_strlit("test");
    reveal_strlit("bench");
    reveal_strlit("doc");
    assert(("release"@).len() == 7);
    assert(("dev"@).len() == 3);
    assert(("test"@).len() == 4);
    assert(("bench"@).len() == 5);
    assert(("doc"@).len() == 3);
    lemma_seq_neq_at("dev"@, "doc"@, 1);
}

/// The profiles section as a table: the five conventional profiles, then the
/// custom ones in their stored order. When a custom profile shadows a
/// conventional name, the table still carries both bindings, but it no longer
/// reads back as the same value.
#[verifier::rlimit(100)]
pub(crate) fn ser_profiles(ps: &Profiles) -> (r: TomlValue)
    ensures
        profiles_custom_wf(*ps) ==> profiles_ok(r) && profiles_from(r, *ps),
{
    let mut t: Vec<(String, TomlValue)> = Vec::new();
    let g_release_v = ser_opt_profile(&ps.release);
    let ghost g_release = g_release_v;
    let g_dev_v = ser_opt_profile(&ps.dev);
    let ghost g_dev = g_dev_v;
    let g_test_v = ser_opt_profile(&ps.test);
    let ghost g_test = g_test_v;
    let g_bench_v = ser_opt_profile(&ps.bench);
    let ghost g_bench = g_bench_v;
    let g_doc_v = ser_opt_profile(&ps.doc);
    let ghost g_doc = g_doc_v;
    push_opt_value(&mut t, "release", g_release_v);
    proof {
        profiles_fixed_facts();
        assert(table_lookup(t@, "release"@) == g_release);
    }
    push_opt_value(&mut t, "dev", g_dev_v);
    proof {
        profiles_fixed_facts();
        assert(table_lookup(t@, "release"@) == g_release);
        assert(table_lookup(t@, "dev"@) == g_dev);
    }
    push_opt_value(&mut t, "test", g_test_v);
    proof {
        profiles_fixed_facts();
        assert(table_lookup(t@, "release"@) == g_release);
        assert(table_lookup(t@, "dev"@) == g_dev);
        assert(table_lookup(t@, "test"@) == g_test);
    }
    push_opt_value(&mut t, "bench", g_bench_v);
    proof {
        profiles_fixed_facts();
        assert(table_lookup(t@, "release"@) == g_release);
        assert(table_lookup(t@, "dev"@) == g_dev);
        assert(table_lookup(t@, "test"@) == g_test);
        assert(table_lookup(t@, "bench"@) == g_bench);
    }
    push_opt_value(&mut t, "doc", g_doc_v);
    proof {
        profiles_fixed_facts();
        assert(table_lookup(t@, "release"@) == g_release);
        assert(table_lookup(t@, "dev"@) == g_dev);
        assert(table_lookup(t@, "test"@) == g_test);
        assert(table_lookup(t@, "bench"@) == g_bench);
        assert(table_lookup(t@, "doc"@) == g_doc);
        assert(forall|j: int|
            0 <= j < t@.len() ==> profiles_fixed_key((#[trigger] t@[j]).0@) || profile_ok(
                t@[j].1,
            ));
        assert(forall|j: int| 0 <= j < t@.len() ==> profiles_fixed_key((#[trigger] t@[j]).0@));
        lemma_custom_entries_empty(t@);
    }
    let mut i: usize = 0;
    while i < ps.custom.len()
        invariant
            i <= ps.custom@.len(),
            table_lookup(t@, "release"@) == g_release || !profiles_custom_wf(*ps),
            table_lookup(t@, "dev"@) == g_dev || !profiles_custom_wf(*ps),
            table_lookup(t@, "test"@) == g_test || !profiles_custom_wf(*ps),
            table_lookup(t@, "bench"@) == g_bench || !profiles_custom_wf(*ps),
            table_lookup(t@, "doc"@) == g_doc || !profiles_custom_wf(*ps),
            profiles_custom_wf(*ps) ==> custom_from(custom_entries(t@), ps.custom@.take(i as int)),
            match g_release {
                Some(w) => ps.release matches Some(p) && profile_ok(w) && profile_from(w, p),
                None => ps.release is None,
            },
            match g_dev {
                Some(w) => ps.dev matches Some(p) && profile_ok(w) && profile_from(w, p),
                None => ps.dev is None,
            },
            match g_test {
                Some(w) => ps.test matches Some(p) && profile_ok(w) && profile_from(w, p),
                None => ps.test is None,
            },
            match g_bench {
                Some(w) => ps.bench matches Some(p) && profile_ok(w) && profile_from(w, p),
                None => ps.bench is None,
            },
            match g_doc {
                Some(w) => ps.doc matches Some(p) && profile_ok(w) && profile_from(w, p),
                None => ps.doc is None,
            },
            forall|j: int|
                0 <= j < t@.len() ==> profiles_fixed_key((#[trigger] t@[j]).0@) || profile_ok(
                    t@[j].1,
                ),
        decreases ps.custom@.len() - i,
    {
        let pv = ser_profile(&ps.custom[i].1);
        let ghost t_before = t@;
        t.push((ps.custom[i].0.clone(), pv));
        proof {
            assert(t@ == t_before.push(t@.last()));
            lemma_custom_entries_push(t_before, t@.last());
            if profiles_custom_wf(*ps) {
                assert(!profiles_fixed_key(ps.custom@[i as int].0@));
                assert(custom_entries(t@) =~= custom_entries(t_before).push(t@.last()));
                assert(ps.custom@.take(i + 1 as int).drop_last() =~= ps.custom@.take(i as int));
                assert(ps.custom@.take(i + 1 as int).last() == ps.custom@[i as int]);
                assert(custom_from(custom_entries(t@), ps.custom@.take(i + 1 as int)));
                lemma_lookup_push(t_before, "release"@, t@.last());
                lemma_lookup_push(t_before, "dev"@, t@.last());
                lemma_lookup_push(t_before, "test"@, t@.last());
                lemma_lookup_push(t_before, "bench"@, t@.last());
                lemma_lookup_push(t_before, "doc"@, t@.last());
            }
        }
        i = i + 1;
    }
    proof {
        if profiles_custom_wf(*ps) {
            assert(ps.custom@.take(ps.custom@.len() as int) =~= ps.custom@);
            assert(profiles_ok(TomlValue::Table(t)));
            assert(profiles_from(TomlValue::Table(t), *ps));
        }
    }
    TomlValue::Table(t)
}


proof fn manifest_key_facts()
    ensures
        "badges"@ != "bench"@,
        "badges"@ != "bin"@,
        "badges"@ != "build-dependencies"@,
        "badges"@ != "build_dependencies"@,
        "badges"@ != "cargo-features"@,
        "badges"@ != "dependencies"@,
        "badges"@ != "dev-dependencies"@,
        "badges"@ != "dev_dependencies"@,
        "badges"@ != "example"@,
        "badges"@ != "features"@,
        "badges"@ != "lib"@,
        "badges"@ != "package"@,
        "badges"@ != "patch"@,
        "badges"@ != "profile"@,
        "badges"@ != "target"@,
        "badges"@ != "test"@,
        "badges"@ != "workspace"@,
        "bench"@ != "bin"@,
        "bench"@ != "build-dependencies"@,
        "bench"@ != "build_dependencies"@,
        "bench"@ != "cargo-features"@,
        "bench"@ != "dependencies"@,
        "bench"@ != "dev-dependencies"@,
        "bench"@ != "dev_dependencies"@,
        "bench"@ != "example"@,
        "bench"@ != "features"@,
        "bench"@ != "lib"@,
        "bench"@ != "package"@,
        "bench"@ != "patch"@,
        "bench"@ != "profile"@,
        "bench"@ != "target"@,
        "bench"@ != "test"@,
        "bench"@ != "workspace"@,
        "bin"@ != "build-dependencies"@,
        "bin"@ != "build_dependencies"@,
        "bin"@ != "cargo-features"@,
        "bin"@ != "dependencies"@,
        "bin"@ != "dev-dependencies"@,
        "bin"@ != "dev_dependencies"@,
        "bin"@ != "example"@,
        "bin"@ != "features"@,
        "bin"@ != "lib"@,
        "bin"@ != "package"@,
        "bin"@ != "patch"@,
        "bin"@ != "profile"@,
        "bin"@ != "target"@,
        "bin"@ != "test"@,
        "bin"@ != "workspace"@,
        "build-dependencies"@ != "build_dependencies"@,
        "build-dependencies"@ != "cargo-features"@,
        "build-dependencies"@ != "dependencies"@,
        "build-dependencies"@ != "dev-dependencies"@,
        "build-dependencies"@ != "dev_dependencies"@,
        "build-dependencies"@ != "example"@,
        "build-dependencies"@ != "features"@,
        "build-dependencies"@ != "lib"@,
        "build-dependencies"@ != "package"@,
        "build-dependencies"@ != "patch"@,
        "build-dependencies"@ != "profile"@,
        "build-dependencies"@ != "target"@,
        "build-dependencies"@ != "test"@,
        "build-dependencies"@ != "workspace"@,
        "build_dependencies"@ != "cargo-features"@,
        "build_dependencies"@ != "dependencies"@,
        "build_dependencies"@ != "dev-dependencies"@,
        "build_dependencies"@ != "dev_dependencies"@,
        "build_dependencies"@ != "example"@,
        "build_dependencies"@ != "features"@,
        "build_dependencies"@ != "lib"@,
        "build_dependencies"@ != "package"@,
        "build_dependencies"@ != "patch"@,
        "build_dependencies"@ != "profile"@,
        "build_dependencies"@ != "target"@,
        "build_dependencies"@ != "test"@,
        "build_dependencies"@ != "workspace"@,
        "cargo-features"@ != "dependencies"@,
        "cargo-features"@ != "dev-dependencies"@,
        "cargo-features"@ != "dev_dependencies"@,
        "cargo-features"@ != "example"@,
        "cargo-features"@ != "features"@,
        "cargo-features"@ != "lib"@,
        "cargo-features"@ != "package"@,
        "cargo-features"@ != "patch"@,
        "cargo-features"@ != "profile"@,
        "cargo-features"@ != "target"@,
        "cargo-features"@ != "test"@,
        "cargo-features"@ != "workspace"@,
        "dependencies"@ != "dev-dependencies"@,
        "dependencies"@ != "dev_dependencies"@,
        "dependencies"@ != "example"@,
        "dependencies"@ != "features"@,
        "dependencies"@ != "lib"@,
        "dependencies"@ != "package"@,
        "dependencies"@ != "patch"@,
        "dependencies"@ != "profile"@,
        "dependencies"@ != "target"@,
        "dependencies"@ != "test"@,
        "dependencies"@ != "workspace"@,
        "dev-dependencies"@ != "dev_dependencies"@,
        "dev-dependencies"@ != "example"@,
        "dev-dependencies"@ != "features"@,
        "dev-dependencies"@ != "lib"@,
        "dev-dependencies"@ != "package"@,
        "dev-dependencies"@ != "patch"@,
        "dev-dependencies"@ != "profile"@,
        "dev-dependencies"@ != "target"@,
        "dev-dependencies"@ != "test"@,
        "dev-dependencies"@ != "workspace"@,
        "dev_dependencies"@ != "example"@,
        "dev_dependencies"@ != "features"@,
        "dev_dependencies"@ != "lib"@,
        "dev_dependencies"@ != "package"@,
        "dev_dependencies"@ != "patch"@,
        "dev_dependencies"@ != "profile"@,
        "dev_dependencies"@ != "target"@,
        "dev_dependencies"@ != "test"@,
        "dev_dependencies"@ != "workspace"@,
        "example"@ != "features"@,
        "example"@ != "lib"@,
        "example"@ != "package"@,
        "example"@ != "patch"@,
        "example"@ != "profile"@,
        "example"@ != "target"@,
        "example"@ != "test"@,
        "example"@ != "workspace"@,
        "features"@ != "lib"@,
        "features"@ != "package"@,
        "features"@ != "patch"@,
        "features"@ != "profile"@,
        "features"@ != "target"@,
        "features"@ != "test"@,
        "features"@ != "workspace"@,
        "lib"@ != "package"@,
        "lib"@ != "patch"@,
        "lib"@ != "profile"@,
        "lib"@ != "target"@,
        "lib"@ != "test"@,
        "lib"@ != "workspace"@,
        "package"@ != "patch"@,
        "package"@ != "profile"@,
        "package"@ != "target"@,
        "package"@ != "test"@,
        "package"@ != "workspace"@,
        "patch"@ != "profile"@,
        "patch"@ != "target"@,
        "patch"@ != "test"@,
        "patch"@ != "workspace"@,
        "profile"@ != "target"@,
        "profile"@ != "test"@,
        "profile"@ != "workspace"@,
        "target"@ != "test"@,
        "target"@ != "workspace"@,
        "test"@ != "workspace"@,
{
    reveal_strlit("badges");
    reveal_strlit("bench");
    reveal_strlit("bin");
    reveal_strlit("build-dependencies");
    reveal_strlit("build_dependencies");
    reveal_strlit("cargo-features");
    reveal_strlit("dependencies");
    reveal_strlit("dev-dependencies");
    reveal_strlit("dev_dependencies");
    reveal_strlit("example");
    reveal_strlit("features");
    reveal_strlit("lib");
    reveal_strlit("package");
    reveal_strlit("patch");
    reveal_strlit("profile");
    reveal_strlit("target");
    reveal_strlit("test");
    reveal_strlit("workspace");
    assert(("badges"@).len() == 6);
    assert(("bench"@).len() == 5);
    assert(("bin"@).len() == 3);
    assert(("build-dependencies"@).len() == 18);
    assert(("build_dependencies"@).len() == 18);
    assert(("cargo-features"@).len() == 14);
    assert(("dependencies"@).len() == 12);
    assert(("dev-dependencies"@).len() == 16);
    assert(("dev_dependencies"@).len() == 16);
    assert(("example"@).len() == 7);
    assert(("features"@).len() == 8);
    assert(("lib"@).len() == 3);
    assert(("package"@).len() == 7);
    assert(("patch"@).len() == 5);
    assert(("profile"@).len() == 7);
    assert(("target"@).len() == 6);
    assert(("test"@).len() == 4);
    assert(("workspace"@).len() == 9);
    lemma_seq_neq_at("badges"@, "target"@, 0);
    lemma_seq_neq_at("bench"@, "patch"@, 0);
    lemma_seq_neq_at("bin"@, "lib"@, 0);
    lemma_seq_neq_at("build-dependencies"@, "build_dependencies"@, 5);
    lemma_seq_neq_at("dev-dependencies"@, "dev_dependencies"@, 3);
    lemma_seq_neq_at("example"@, "package"@, 0);
    lemma_seq_neq_at("example"@, "profile"@, 0);
    lemma_seq_neq_at("package"@, "profile"@, 1);
}

#[verifier::rlimit(100)]
pub(crate) fn ser_manifest(m: &Manifest) -> (r: TomlValue)
    ensures
        manifest_wf(*m) ==> manifest_ok(r) && manifest_from(r, *m),
{
    let mut t: Vec<(String, TomlValue)> = Vec::new();
    let g_package_v: Option<TomlValue> = ser_opt_package(&m.package);
    let ghost g_package = g_package_v;
    let g_cargo_features_v: Option<TomlValue> = ser_opt_strings(&m.cargo_features);
    let ghost g_cargo_features = g_cargo_features_v;
    let g_workspace_v: Option<TomlValue> = ser_opt_workspace(&m.workspace);
    let ghost g_workspace = g_workspace_v;
    let g_dependencies_v: Option<TomlValue> = ser_opt_deps(&m.dependencies);
    let ghost g_dependencies = g_dependencies_v;
    let g_dev_dependencies_v: Option<TomlValue> = ser_opt_deps(&m.dev_dependencies);
    let ghost g_dev_dependencies = g_dev_dependencies_v;
    let g_build_dependencies_v: Option<TomlValue> = ser_opt_deps(&m.build_dependencies);
    let ghost g_build_dependencies = g_build_dependencies_v;
    let g_target_v: Option<TomlValue> = ser_opt_targets(&m.target);
    let ghost g_target = g_target_v;
    let g_features_v: Option<TomlValue> = ser_opt_features(&m.features);
    let ghost g_features = g_features_v;
    let g_bin_v: Option<TomlValue> = ser_opt_products(&m.bin);
    let ghost g_bin = g_bin_v;
    let g_bench_v: Option<TomlValue> = ser_opt_products(&m.bench);
    let ghost g_bench = g_bench_v;
    let g_test_v: Option<TomlValue> = ser_opt_products(&m.test);
    let ghost g_test = g_test_v;
    let g_example_v: Option<TomlValue> = ser_opt_products(&m.example);
    let ghost g_example = g_example_v;
    let g_patch_v: Option<TomlValue> = ser_opt_patch(&m.patch);
    let ghost g_patch = g_patch_v;
    let g_lib_v: Option<TomlValue> = ser_opt_product(&m.lib);
    let ghost g_lib = g_lib_v;
    let g_profile_v: Option<TomlValue> = ser_opt_profiles(&m.profile);
    let ghost g_profile = g_profile_v;
    let g_badges_v: Option<TomlValue> = ser_opt_badges(&m.badges);
    let ghost g_badges = g_badges_v;
    push_opt_value(&mut t, "package", g_package_v);
    proof {
        manifest_key_facts();
        assert(table_lookup(t@, "package"@) == g_package);
        assert(table_lookup(t@, "cargo-features"@) is None);
        assert(table_lookup(t@, "workspace"@) is None);
        assert(table_lookup(t@, "dependencies"@) is None);
        assert(table_lookup(t@, "dev-dependencies"@) is None);
        assert(table_lookup(t@, "build-dependencies"@) is None);
        assert(table_lookup(t@, "target"@) is None);
        assert(table_lookup(t@, "features"@) is None);
        assert(table_lookup(t@, "bin"@) is None);
        assert(table_lookup(t@, "bench"@) is None);
        assert(table_lookup(t@, "test"@) is None);
        assert(table_lookup(t@, "example"@) is None);
        assert(table_lookup(t@, "patch"@) is None);
        assert(table_lookup(t@, "lib"@) is None);
        assert(table_lookup(t@, "profile"@) is None);
        assert(table_lookup(t@, "badges"@) is None);
        assert(table_lookup(t@, "dev_dependencies"@) is None);
        assert(table_lookup(t@, "build_dependencies"@) is None);
    }
    push_opt_value(&mut t, "cargo-features", g_cargo_features_v);
    proof {
        manifest_key_facts();
        assert(table_lookup(t@, "package"@) == g_package);
        assert(table_lookup(t@, "cargo-features"@) == g_cargo_features);
        assert(table_lookup(t@, "workspace"@) is None);
        assert(table_lookup(t@, "dependencies"@) is None);
        assert(table_lookup(t@, "dev-dependencies"@) is None);
        assert(table_lookup(t@, "build-dependencies"@) is None);
        assert(table_lookup(t@, "target"@) is None);
        assert(table_lookup(t@, "features"@) is None);
        assert(table_lookup(t@, "bin"@) is None);
        assert(table_lookup(t@, "bench"@) is None);
        assert(table_lookup(t@, "test"@) is None);
        assert(table_lookup(t@, "example"@) is None);
        assert(table_lookup(t@, "patch"@) is None);
        assert(table_lookup(t@, "lib"@) is None);
        assert(table_lookup(t@, "profile"@) is None);
        assert(table_lookup(t@, "badges"@) is None);
        assert(table_lookup(t@, "dev_dependencies"@) is None);
        assert(table_lookup(t@, "build_dependencies"@) is None);
    }
    push_opt_value(&mut t, "workspace", g_workspace_v);
    proof {
        manifest_key_facts();
        assert(table_lookup(t@, "package"@) == g_package);
        assert(table_lookup(t@, "cargo-features"@) == g_cargo_features);
        assert(table_lookup(t@, "workspace"@) == g_workspace);
        assert(table_lookup(t@, "dependencies"@) is None);
        assert(table_lookup(t@, "dev-dependencies"@) is None);
        assert(table_lookup(t@, "build-dependencies"@) is None);
        assert(table_lookup(t@, "target"@) is None);
        assert(table_lookup(t@, "features"@) is None);
        assert(table_lookup(t@, "bin"@) is None);
        assert(table_lookup(t@, "bench"@) is None);
        assert(table_lookup(t@, "test"@) is None);
        assert(table_lookup(t@, "example"@) is None);
        assert(table_lookup(t@, "patch"@) is None);
        assert(table_lookup(t@, "lib"@) is None);
        assert(table_lookup(t@, "profile"@) is None);
        assert(table_lookup(t@, "badges"@) is None);
        assert(table_lookup(t@, "dev_dependencies"@) is None);
        assert(table_lookup(t@, "build_dependencies"@) is None);
    }
    push_opt_value(&mut t, "dependencies", g_dependencies_v);
    proof {
        manifest_key_facts();
        assert(table_lookup(t@, "package"@) == g_package);
        assert(table_lookup(t@, "cargo-features"@) == g_cargo_features);
        assert(table_lookup(t@, "workspace"@) == g_workspace);
        assert(table_lookup(t@, "dependencies"@) == g_dependencies);
        assert(table_lookup(t@, "dev-dependencies"@) is None);
        assert(table_lookup(t@, "build-dependencies"@) is None);
        assert(table_lookup(t@, "target"@) is None);
        assert(table_lookup(t@, "features"@) is None);
        assert(table_lookup(t@, "bin"@) is None);
        assert(table_lookup(t@, "bench"@) is None);
        assert(table_lookup(t@, "test"@) is None);
        assert(table_lookup(t@, "example"@) is None);
        assert(table_lookup(t@, "patch"@) is None);
        assert(table_lookup(t@, "lib"@) is None);
        assert(table_lookup(t@, "profile"@) is None);
        assert(table_lookup(t@, "badges"@) is None);
        assert(table_lookup(t@, "dev_dependencies"@) is None);
        assert(table_lookup(t@, "build_dependencies"@) is None);
    }
    push_opt_value(&mut t, "dev-dependencies", g_dev_dependencies_v);
    proof {
        manifest_key_facts();
        assert(table_lookup(t@, "package"@) == g_package);
        assert(table_lookup(t@, "cargo-features"@) == g_cargo_features);
        assert(table_lookup(t@, "workspace"@) == g_workspace);
        assert(table_lookup(t@, "dependencies"@) == g_dependencies);
        assert(table_lookup(t@, "dev-dependencies"@) == g_dev_dependencies);
        assert(table_lookup(t@, "build-dependencies"@) is None);
        assert(table_lookup(t@, "target"@) is None);
        assert(table_lookup(t@, "features"@) is None);
        assert(table_lookup(t@, "bin"@) is None);
        assert(table_lookup(t@, "bench"@) is None);
        assert(table_lookup(t@, "test"@) is None);
        assert(table_lookup(t@, "example"@) is None);
        assert(table_lookup(t@, "patch"@) is None);
        assert(table_lookup(t@, "lib"@) is None);
        assert(table_lookup(t@, "profile"@) is None);
        assert(table_lookup(t@, "badges"@) is None);
        assert(table_lookup(t@, "dev_dependencies"@) is None);
        assert(table_lookup(t@, "build_dependencies"@) is None);
    }
    push_opt_value(&mut t, "build-dependencies", g_build_dependencies_v);
    proof {
        manifest_key_facts();
        assert(table_lookup(t@, "package"@) == g_package);
        assert(table_lookup(t@, "cargo-features"@) == g_cargo_features);
        assert(table_lookup(t@, "workspace"@) == g_workspace);
        assert(table_lookup(t@, "dependencies"@) == g_dependencies);
        assert(table_lookup(t@, "dev-dependencies"@) == g_dev_dependencies);
        assert(table_lookup(t@, "build-dependencies"@) == g_build_dependencies);
        assert(table_lookup(t@, "target"@) is None);
        assert(table_lookup(t@, "features"@) is None);
        assert(table_lookup(t@, "bin"@) is None);
        assert(table_lookup(t@, "bench"@) is None);
        assert(table_lookup(t@, "test"@) is None);
        assert(table_lookup(t@, "example"@) is None);
        assert(table_lookup(t@, "patch"@) is None);
        assert(table_lookup(t@, "lib"@) is None);
        assert(table_lookup(t@, "profile"@) is None);
        assert(table_lookup(t@, "badges"@) is None);
        assert(table_lookup(t@, "dev_dependencies"@) is None);
        assert(table_lookup(t@, "build_dependencies"@) is None);
    }
    push_opt_value(&mut t, "target", g_target_v);
    proof {
        manifest_key_facts();
        assert(table_lookup(t@, "package"@) == g_package);
        assert(table_lookup(t@, "cargo-features"@) == g_cargo_features);
        assert(table_lookup(t@, "workspace"@) == g_workspace);
        assert(table_lookup(t@, "dependencies"@) == g_dependencies);
        assert(table_lookup(t@, "dev-dependencies"@) == g_dev_dependencies);
        assert(table_lookup(t@, "build-dependencies"@) == g_build_dependencies);
        assert(table_lookup(t@, "target"@) == g_target);
        assert(table_lookup(t@, "features"@) is None);
        assert(table_lookup(t@, "bin"@) is None);
        assert(table_lookup(t@, "bench"@) is None);
        assert(table_lookup(t@, "test"@) is None);
        assert(table_lookup(t@, "example"@) is None);
        assert(table_lookup(t@, "patch"@) is None);
        assert(table_lookup(t@, "lib"@) is None);
        assert(table_lookup(t@, "profile"@) is None);
        assert(table_lookup(t@, "badges"@) is None);
        assert(table_lookup(t@, "dev_dependencies"@) is None);
        assert(table_lookup(t@, "build_dependencies"@) is None);
    }
    push_opt_value(&mut t, "features", g_features_v);
    proof {
        manifest_key_facts();
        assert(table_lookup(t@, "package"@) == g_package);
        assert(table_lookup(t@, "cargo-features"@) == g_cargo_features);
        assert(table_lookup(t@, "workspace"@) == g_workspace);
        assert(table_lookup(t@, "dependencies"@) == g_dependencies);
        assert(table_lookup(t@, "dev-dependencies"@) == g_dev_dependencies);
        assert(table_lookup(t@, "build-dependencies"@) == g_build_dependencies);
        assert(table_lookup(t@, "target"@) == g_target);
        assert(table_lookup(t@, "features"@) == g_features);
        assert(table_lookup(t@, "bin"@) is None);
        assert(table_lookup(t@, "bench"@) is None);
        assert(table_lookup(t@, "test"@) is None);
        assert(table_lookup(t@, "example"@) is None);
        assert(table_lookup(t@, "patch"@) is None);
        assert(table_lookup(t@, "lib"@) is None);
        assert(table_lookup(t@, "profile"@) is None);
        assert(table_lookup(t@, "badges"@) is None);
        assert(table_lookup(t@, "dev_dependencies"@) is None);
        assert(table_lookup(t@, "build_dependencies"@) is None);
    }
    push_opt_value(&mut t, "bin", g_bin_v);
    proof {
        manifest_key_facts();
        assert(table_lookup(t@, "package"@) == g_package);
        assert(table_lookup(t@, "cargo-features"@) == g_cargo_features);
        assert(table_lookup(t@, "workspace"@) == g_workspace);
        assert(table_lookup(t@, "dependencies"@) == g_dependencies);
        assert(table_lookup(t@, "dev-dependencies"@) == g_dev_dependencies);
        assert(table_lookup(t@, "build-dependencies"@) == g_build_dependencies);
        assert(table_lookup(t@, "target"@) == g_target);
        assert(table_lookup(t@, "features"@) == g_features);
        assert(table_lookup(t@, "bin"@) == g_bin);
        assert(table_lookup(t@, "bench"@) is None);
        assert(table_lookup(t@, "test"@) is None);
        assert(table_lookup(t@, "example"@) is None);
        assert(table_lookup(t@, "patch"@) is None);
        assert(table_lookup(t@, "lib"@) is None);
        assert(table_lookup(t@, "profile"@) is None);
        assert(table_lookup(t@, "badges"@) is None);
        assert(table_lookup(t@, "dev_dependencies"@) is None);
        assert(table_lookup(t@, "build_dependencies"@) is None);
    }
    push_opt_value(&mut t, "bench", g_bench_v);
    proof {
        manifest_key_facts();
        assert(table_lookup(t@, "package"@) == g_package);
        assert(table_lookup(t@, "cargo-features"@) == g_cargo_features);
        assert(table_lookup(t@, "workspace"@) == g_workspace);
        assert(table_lookup(t@, "dependencies"@) == g_dependencies);
        assert(table_lookup(t@, "dev-dependencies"@) == g_dev_dependencies);
        assert(table_lookup(t@, "build-dependencies"@) == g_build_dependencies);
        assert(table_lookup(t@, "target"@) == g_target);
        assert(table_lookup(t@, "features"@) == g_features);
        assert(table_lookup(t@, "bin"@) == g_bin);
        assert(table_lookup(t@, "bench"@) == g_bench);
        assert(table_lookup(t@, "test"@) is None);
        assert(table_lookup(t@, "example"@) is None);
        assert(table_lookup(t@, "patch"@) is None);
        assert(table_lookup(t@, "lib"@) is None);
        assert(table_lookup(t@, "profile"@) is None);
        assert(table_lookup(t@, "badges"@) is None);
        assert(table_lookup(t@, "dev_dependencies"@) is None);
        assert(table_lookup(t@, "build_dependencies"@) is None);
    }
    push_opt_value(&mut t, "test", g_test_v);
    proof {
        manifest_key_facts();
        assert(table_lookup(t@, "package"@) == g_package);
        assert(table_lookup(t@, "cargo-features"@) == g_cargo_features);
        assert(table_lookup(t@, "workspace"@) == g_workspace);
        assert(table_lookup(t@, "dependencies"@) == g_dependencies);
        assert(table_lookup(t@, "dev-dependencies"@) == g_dev_dependencies);
        assert(table_lookup(t@, "build-dependencies"@) == g_build_dependencies);
        assert(table_lookup(t@, "target"@) == g_target);
        assert(table_lookup(t@, "features"@) == g_features);
        assert(table_lookup(t@, "bin"@) == g_bin);
        assert(table_lookup(t@, "bench"@) == g_bench);
        assert(table_lookup(t@, "test"@) == g_test);
        assert(table_lookup(t@, "example"@) is None);
        assert(table_lookup(t@, "patch"@) is None);
        assert(table_lookup(t@, "lib"@) is None);
        assert(table_lookup(t@, "profile"@) is None);
        assert(table_lookup(t@, "badges"@) is None);
        assert(table_lookup(t@, "dev_dependencies"@) is None);
        assert(table_lookup(t@, "build_dependencies"@) is None);
    }
    push_opt_value(&mut t, "example", g_example_v);
    proof {
        manifest_key_facts();
        assert(table_lookup(t@, "package"@) == g_package);
        assert(table_lookup(t@, "cargo-features"@) == g_cargo_features);
        assert(table_lookup(t@, "workspace"@) == g_workspace);
        assert(table_lookup(t@, "dependencies"@) == g_dependencies);
        assert(table_lookup(t@, "dev-dependencies"@) == g_dev_dependencies);
        assert(table_lookup(t@, "build-dependencies"@) == g_build_dependencies);
        assert(table_lookup(t@, "target"@) == g_target);
        assert(table_lookup(t@, "features"@) == g_features);
        assert(table_lookup(t@, "bin"@) == g_bin);
        assert(table_lookup(t@, "bench"@) == g_bench);
        assert(table_lookup(t@, "test"@) == g_test);
        assert(table_lookup(t@, "example"@) == g_example);
        assert(table_lookup(t@, "patch"@) is None);
        assert(table_lookup(t@, "lib"@) is None);
        assert(table_lookup(t@, "profile"@) is None);
        assert(table_lookup(t@, "badges"@) is None);
        assert(table_lookup(t@, "dev_dependencies"@) is None);
        assert(table_lookup(t@, "build_dependencies"@) is None);
    }
    push_opt_value(&mut t, "patch", g_patch_v);
    proof {
        manifest_key_facts();
        assert(table_lookup(t@, "package"@) == g_package);
        assert(table_lookup(t@, "cargo-features"@) == g_cargo_features);
        assert(table_lookup(t@, "workspace"@) == g_workspace);
        assert(table_lookup(t@, "dependencies"@) == g_dependencies);
        assert(table_lookup(t@, "dev-dependencies"@) == g_dev_dependencies);
        assert(table_lookup(t@, "build-dependencies"@) == g_build_dependencies);
        assert(table_lookup(t@, "target"@) == g_target);
        assert(table_lookup(t@, "features"@) == g_features);
        assert(table_lookup(t@, "bin"@) == g_bin);
        assert(table_lookup(t@, "bench"@) == g_bench);
        assert(table_lookup(t@, "test"@) == g_test);
        assert(table_lookup(t@, "example"@) == g_example);
        assert(table_lookup(t@, "patch"@) == g_patch);
        assert(table_lookup(t@, "lib"@) is None);
        assert(table_lookup(t@, "profile"@) is None);
        assert(table_lookup(t@, "badges"@) is None);
        assert(table_lookup(t@, "dev_dependencies"@) is None);
        assert(table_lookup(t@, "build_dependencies"@) is None);
    }
    push_opt_value(&mut t, "lib", g_lib_v);
    proof {
        manifest_key_facts();
        assert(table_lookup(t@, "package"@) == g_package);
        assert(table_lookup(t@, "cargo-features"@) == g_cargo_features);
        assert(table_lookup(t@, "workspace"@) == g_workspace);
        assert(table_lookup(t@, "dependencies"@) == g_dependencies);
        assert(table_lookup(t@, "dev-dependencies"@) == g_dev_dependencies);
        assert(table_lookup(t@, "build-dependencies"@) == g_build_dependencies);
        assert(table_lookup(t@, "target"@) == g_target);
        assert(table_lookup(t@, "features"@) == g_features);
        assert(table_lookup(t@, "bin"@) == g_bin);
        assert(table_lookup(t@, "bench"@) == g_bench);
        assert(table_lookup(t@, "test"@) == g_test);
        assert(table_lookup(t@, "example"@) == g_example);
        assert(table_lookup(t@, "patch"@) == g_patch);
        assert(table_lookup(t@, "lib"@) == g_lib);
        assert(table_lookup(t@, "profile"@) is None);
        assert(table_lookup(t@, "badges"@) is None);
        assert(table_lookup(t@, "dev_dependencies"@) is None);
        assert(table_lookup(t@, "build_dependencies"@) is None);
    }
    push_opt_value(&mut t, "profile", g_profile_v);
    proof {
        manifest_key_facts();
        assert(table_lookup(t@, "package"@) == g_package);
        assert(table_lookup(t@, "cargo-features"@) == g_cargo_features);
        assert(table_lookup(t@, "workspace"@) == g_workspace);
        assert(table_lookup(t@, "dependencies"@) == g_dependencies);
        assert(table_lookup(t@, "dev-dependencies"@) == g_dev_dependencies);
        assert(table_lookup(t@, "build-dependencies"@) == g_build_dependencies);
        assert(table_lookup(t@, "target"@) == g_target);
        assert(table_lookup(t@, "features"@) == g_features);
        assert(table_lookup(t@, "bin"@) == g_bin);
        assert(table_lookup(t@, "bench"@) == g_bench);
        assert(table_lookup(t@, "test"@) == g_test);
        assert(table_lookup(t@, "example"@) == g_example);
        assert(table_lookup(t@, "patch"@) == g_patch);
        assert(table_lookup(t@, "lib"@) == g_lib);
        assert(table_lookup(t@, "profile"@) == g_profile);
        assert(table_lookup(t@, "badges"@) is None);
        assert(table_lookup(t@, "dev_dependencies"@) is None);
        assert(table_lookup(t@, "build_dependencies"@) is None);
    }
    push_opt_value(&mut t, "badges", g_badges_v);
    proof {
        manifest_key_facts();
        assert(table_lookup(t@, "package"@) == g_package);
        assert(table_lookup(t@, "cargo-features"@) == g_cargo_features);
        assert(table_lookup(t@, "workspace"@) == g_workspace);
        assert(table_lookup(t@, "dependencies"@) == g_dependencies);
        assert(table_lookup(t@, "dev-dependencies"@) == g_dev_dependencies);
        assert(table_lookup(t@, "build-dependencies"@) == g_build_dependencies);
        assert(table_lookup(t@, "target"@) == g_target);
        assert(table_lookup(t@, "features"@) == g_features);
        assert(table_lookup(t@, "bin"@) == g_bin);
        assert(table_lookup(t@, "bench"@) == g_bench);
        assert(table_lookup(t@, "test"@) == g_test);
        assert(table_lookup(t@, "example"@) == g_example);
        assert(table_lookup(t@, "patch"@) == g_patch);
        assert(table_lookup(t@, "lib"@) == g_lib);
        assert(table_lookup(t@, "profile"@) == g_profile);
        assert(table_lookup(t@, "badges"@) == g_badges);
        assert(table_lookup(t@, "dev_dependencies"@) is None);
        assert(table_lookup(t@, "build_dependencies"@) is None);
    }
    proof {
        manifest_key_facts();
        if manifest_wf(*m) {
            assert(manifest_ok(TomlValue::Table(t)));
            assert(manifest_from(TomlValue::Table(t), *m));
        }
    }
    TomlValue::Table(t)
}

/// The manifest can be written out and read back as the same value: its custom
/// profiles, if any, do not shadow a conventional profile name.
pub open spec fn manifest_wf(m: Manifest) -> bool {
    m.profile matches Some(ps) ==> profiles_custom_wf(ps)
}

fn ser_opt_package(o: &Option<Package>) -> (r: Option<TomlValue>)
    ensures
        match o {
            Some(p) => r matches Some(w) && package_value_ok(w) && package_value_from(w, *p),
            None => r is None,
        },
{
    match o {
        Some(p) => Some(TomlValue::Table(ser_package(p))),
        None => None,
    }
}

fn ser_opt_workspace(o: &Option<Workspace>) -> (r: Option<TomlValue>)
    ensures
        match o {
            Some(w) => r matches Some(v) && workspace_ok(v) && workspace_from(v, *w),
            None => r is None,
        },
{
    match o {
        Some(w) => Some(ser_workspace(w)),
        None => None,
    }
}

fn ser_opt_targets(o: &Option<TargetDepsSet>) -> (r: Option<TomlValue>)
    ensures
        match o {
            Some(ts) => r matches Some(v) && targets_ok(v) && targets_from(v, ts@),
            None => r is None,
        },
{
    match o {
        Some(ts) => Some(ser_targets(ts)),
        None => None,
    }
}

fn ser_opt_features(o: &Option<FeatureSet>) -> (r: Option<TomlValue>)
    ensures
        match o {
            Some(fs) => r matches Some(v) && features_ok(v) && features_from(v, fs@),
            None => r is None,
        },
{
    match o {
        Some(fs) => Some(ser_features(fs)),
        None => None,
    }
}

fn ser_opt_products(o: &Option<Vec<Product>>) -> (r: Option<TomlValue>)
    ensures
        match o {
            Some(ps) => r matches Some(v) && products_ok(v) && products_from(v, ps@),
            None => r is None,
        },
{
    match o {
        Some(ps) => Some(ser_products(ps)),
        None => None,
    }
}

fn ser_opt_patch(o: &Option<PatchSet>) -> (r: Option<TomlValue>)
    ensures
        match o {
            Some(ps) => r matches Some(v) && patch_ok(v) && patch_from(v, ps@),
            None => r is None,
        },
{
    match o {
        Some(ps) => Some(ser_patch(ps)),
        None => None,
    }
}

fn ser_opt_product(o: &Option<Product>) -> (r: Option<TomlValue>)
    ensures
        match o {
            Some(p) => r matches Some(v) && product_ok(v) && product_from(v, *p),
            None => r is None,
        },
{
    match o {
        Some(p) => Some(ser_product(p)),
        None => None,
    }
}

fn ser_opt_profiles(o: &Option<Profiles>) -> (r: Option<TomlValue>)
    ensures
        match o {
            Some(ps) => r matches Some(v) && (profiles_custom_wf(*ps) ==> profiles_ok(v)
                && profiles_from(v, *ps)),
            None => r is None,
        },
{
    match o {
        Some(ps) => Some(ser_profiles(ps)),
        None => None,
    }
}

fn ser_opt_badges(o: &Option<Badges>) -> (r: Option<TomlValue>)
    ensures
        match o {
            Some(b) => r matches Some(v) && badges_ok(v) && badges_from(v, *b),
            None => r is None,
        },
{
    match o {
        Some(b) => Some(ser_badges(b)),
        None => None,
    }
}

impl Manifest {
    /// Write the manifest back out as a document value: absent optional
    /// sections are omitted, never written as empty, and canonical field names
    /// are always emitted.
    ///
    /// Round-trip law: for a well-formed manifest, reading the result back
    /// yields this very value — the result satisfies the same reading relation
    /// the loader's own contract is stated with.
    pub fn to_toml_value(&self) -> (r: TomlValue)
        ensures
            manifest_wf(*self) ==> manifest_ok(r) && manifest_from(r, *self),
    {
        ser_manifest(self)
    }
}

/// Section-preservation law: a manifest read from a document holds each
/// optional product or dependency section exactly when the document binds it,
/// so writing the manifest back out preserves every explicitly-present section
/// and omits every absent one.
pub proof fn lemma_sections_preserved(doc: TomlValue, m: Manifest)
    requires
        manifest_from(doc, m),
    ensures
        doc matches TomlValue::Table(t) && {
            &&& m.package is Some <==> table_lookup(t@, "package"@) is Some
            &&& m.workspace is Some <==> table_lookup(t@, "workspace"@) is Some
            &&& m.lib is Some <==> table_lookup(t@, "lib"@) is Some
            &&& m.bin is Some <==> table_lookup(t@, "bin"@) is Some
            &&& m.test is Some <==> table_lookup(t@, "test"@) is Some
            &&& m.bench is Some <==> table_lookup(t@, "bench"@) is Some
            &&& m.example is Some <==> table_lookup(t@, "example"@) is Some
            &&& m.profile is Some <==> table_lookup(t@, "profile"@) is Some
            &&& m.badges is Some <==> table_lookup(t@, "badges"@) is Some
        },
{
}

} // verus!
