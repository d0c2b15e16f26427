use vstd::prelude::*;
use crate::error::Error;
use crate::model::Dependency;
use crate::model::DependencyDetail;
use crate::model::DepsSet;
use crate::model::FeatureSet;
use crate::model::PatchSet;
use crate::model::Product;
use crate::model::Profile;
use crate::model::Profiles;
use crate::model::Badge;
use crate::model::Badges;
use crate::model::Maintenance;
use crate::model::Manifest;
use crate::model::Package;
use crate::model::Workspace;
use crate::model::WorkspacePackage;
use crate::model::Target;
use crate::model::TargetDepsSet;
use crate::model::Edition;
use crate::model::MaybeInherited;
use crate::model::Publish;
use crate::model::Resolver;
use crate::model::StringOrBool;
use crate::model::True;
use crate::model::MaintenanceStatus;
use crate::strutil::str_eq;
use crate::toml_doc::TomlValue;
use crate::toml_doc::table_get;
use crate::toml_doc::table_lookup;
use crate::toml_doc::tv_eqv;

verus! {

/// The table's binding for the canonical key, or for its historical alias when
/// the canonical key is absent.
pub open spec fn keyed(t: Seq<(String, TomlValue)>, k1: Seq<char>, k2: Seq<char>) -> Option<
    TomlValue,
> {
    if table_lookup(t, k1) is Some {
        table_lookup(t, k1)
    } else {
        table_lookup(t, k2)
    }
}

fn get_keyed<'a>(t: &'a Vec<(String, TomlValue)>, k1: &str, k2: &str) -> (r: Option<&'a TomlValue>)
    ensures
        match r {
            Some(v) => keyed(t@, k1@, k2@) == Some(*v),
            None => keyed(t@, k1@, k2@) is None,
        },
{
    match table_get(t, k1) {
        Some(v) => Some(v),
        None => table_get(t, k2),
    }
}

/// The string values of an array whose elements are all strings.
pub open spec fn strings_of(a: Seq<TomlValue>) -> Seq<String> {
    a.map_values(|t: TomlValue| t->Str_0)
}

pub open spec fn all_strings(a: Seq<TomlValue>) -> bool {
    forall|i: int| 0 <= i < a.len() ==> (#[trigger] a[i]) is Str
}

/// A list of strings read from an array value.
pub open spec fn string_vec_of(v: TomlValue) -> Option<Seq<String>> {
    match v {
        TomlValue::Array(a) => if all_strings(a@) {
            Some(strings_of(a@))
        } else {
            None
        },
        _ => None,
    }
}

fn parse_string_vec(v: &TomlValue) -> (r: Result<Vec<String>, Error>)
    ensures
        match r {
            Ok(x) => string_vec_of(*v) == Some(x@),
            Err(e) => string_vec_of(*v) is None && e is Parse,
        },
{
    match v {
        TomlValue::Array(a) => {
            let mut out: Vec<String> = Vec::new();
            let mut i: usize = 0;
            while i < a.len()
                invariant
                    *v == TomlValue::Array(*a),
                    i <= a@.len(),
                    forall|j: int| 0 <= j < i ==> (#[trigger] a@[j]) is Str,
                    out@ =~= strings_of(a@.take(i as int)),
                decreases a@.len() - i,
            {
                match &a[i] {
                    TomlValue::Str(s) => {
                        out.push(s.clone());
                        proof {
                            assert(strings_of(a@.take(i + 1 as int)) =~= strings_of(
                                a@.take(i as int),
                            ).push(a@[i as int]->Str_0));
                        }
                    },
                    _ => {
                        return Err(Error::Parse("expected an array of strings".to_owned()));
                    },
                }
                i = i + 1;
            }
            proof {
                assert(a@.take(a@.len() as int) =~= a@);
            }
            Ok(out)
        },
        _ => Err(Error::Parse("expected an array of strings".to_owned())),
    }
}

/// The edition a string value names.
pub open spec fn edition_of(v: TomlValue) -> Option<Edition> {
    match v {
        TomlValue::Str(s) => if s@ == "2015"@ {
            Some(Edition::E2015)
        } else if s@ == "2018"@ {
            Some(Edition::E2018)
        } else if s@ == "2021"@ {
            Some(Edition::E2021)
        } else {
            None
        },
        _ => None,
    }
}

fn parse_edition(v: &TomlValue) -> (r: Result<Edition, Error>)
    ensures
        match r {
            Ok(x) => edition_of(*v) == Some(x),
            Err(e) => edition_of(*v) is None && e is Parse,
        },
{
    match v {
        TomlValue::Str(s) => {
            if str_eq(s.as_str(), "2015") {
                Ok(Edition::E2015)
            } else if str_eq(s.as_str(), "2018") {
                Ok(Edition::E2018)
            } else if str_eq(s.as_str(), "2021") {
                Ok(Edition::E2021)
            } else {
                Err(Error::Parse("unknown edition".to_owned()))
            }
        },
        _ => Err(Error::Parse("expected an edition string".to_owned())),
    }
}

/// The resolver a string value names.
pub open spec fn resolver_of(v: TomlValue) -> Option<Resolver> {
    match v {
        TomlValue::Str(s) => if s@ == "1"@ {
            Some(Resolver::V1)
        } else if s@ == "2"@ {
            Some(Resolver::V2)
        } else {
            None
        },
        _ => None,
    }
}

fn parse_resolver(v: &TomlValue) -> (r: Result<Resolver, Error>)
    ensures
        match r {
            Ok(x) => resolver_of(*v) == Some(x),
            Err(e) => resolver_of(*v) is None && e is Parse,
        },
{
    match v {
        TomlValue::Str(s) => {
            if str_eq(s.as_str(), "1") {
                Ok(Resolver::V1)
            } else if str_eq(s.as_str(), "2") {
                Ok(Resolver::V2)
            } else {
                Err(Error::Parse("unknown resolver".to_owned()))
            }
        },
        _ => Err(Error::Parse("expected a resolver string".to_owned())),
    }
}

/// The maintenance status a string value names; `none` is the documented
/// default member of the vocabulary.
pub open spec fn maintenance_status_of(v: TomlValue) -> Option<MaintenanceStatus> {
    match v {
        TomlValue::Str(s) => if s@ == "none"@ {
            Some(MaintenanceStatus::NoStatus)
        } else if s@ == "actively-developed"@ {
            Some(MaintenanceStatus::ActivelyDeveloped)
        } else if s@ == "passively-maintained"@ {
            Some(MaintenanceStatus::PassivelyMaintained)
        } else if s@ == "as-is"@ {
            Some(MaintenanceStatus::AsIs)
        } else if s@ == "experimental"@ {
            Some(MaintenanceStatus::Experimental)
        } else if s@ == "looking-for-maintainer"@ {
            Some(MaintenanceStatus::LookingForMaintainer)
        } else if s@ == "deprecated"@ {
            Some(MaintenanceStatus::Deprecated)
        } else {
            None
        },
        _ => None,
    }
}

fn parse_maintenance_status(v: &TomlValue) -> (r: Result<MaintenanceStatus, Error>)
    ensures
        match r {
            Ok(x) => maintenance_status_of(*v) == Some(x),
            Err(e) => maintenance_status_of(*v) is None && e is Parse,
        },
{
    match v {
        TomlValue::Str(s) => {
            if str_eq(s.as_str(), "none") {
                Ok(MaintenanceStatus::NoStatus)
            } else if str_eq(s.as_str(), "actively-developed") {
                Ok(MaintenanceStatus::ActivelyDeveloped)
            } else if str_eq(s.as_str(), "passively-maintained") {
                Ok(MaintenanceStatus::PassivelyMaintained)
            } else if str_eq(s.as_str(), "as-is") {
                Ok(MaintenanceStatus::AsIs)
            } else if str_eq(s.as_str(), "experimental") {
                Ok(MaintenanceStatus::Experimental)
            } else if str_eq(s.as_str(), "looking-for-maintainer") {
                Ok(MaintenanceStatus::LookingForMaintainer)
            } else if str_eq(s.as_str(), "deprecated") {
                Ok(MaintenanceStatus::Deprecated)
            } else {
                Err(Error::Parse("unknown maintenance status".to_owned()))
            }
        },
        _ => Err(Error::Parse("expected a maintenance status string".to_owned())),
    }
}

/// A string-or-boolean value.
pub open spec fn string_or_bool_of(v: TomlValue) -> Option<StringOrBool> {
    match v {
        TomlValue::Str(s) => Some(StringOrBool::Str(s)),
        TomlValue::Bool(b) => Some(StringOrBool::Bool(b)),
        _ => None,
    }
}

fn parse_string_or_bool(v: &TomlValue) -> (r: Result<StringOrBool, Error>)
    ensures
        match r {
            Ok(x) => string_or_bool_of(*v) == Some(x),
            Err(e) => string_or_bool_of(*v) is None && e is Parse,
        },
{
    match v {
        TomlValue::Str(s) => Ok(StringOrBool::Str(s.clone())),
        TomlValue::Bool(b) => Ok(StringOrBool::Bool(*b)),
        _ => Err(Error::Parse("expected a string or a boolean".to_owned())),
    }
}

/// A publish value: a boolean flag, or a list of allowed registry names.
pub open spec fn publish_ok(v: TomlValue) -> bool {
    match v {
        TomlValue::Bool(_) => true,
        TomlValue::Array(a) => all_strings(a@),
        _ => false,
    }
}

pub open spec fn publish_from(v: TomlValue, p: Publish) -> bool {
    match v {
        TomlValue::Bool(b) => p == Publish::Flag(b),
        TomlValue::Array(a) => p matches Publish::Registry(r) && r@ == strings_of(a@),
        _ => false,
    }
}

fn parse_publish(v: &TomlValue) -> (r: Result<Publish, Error>)
    ensures
        match r {
            Ok(x) => publish_ok(*v) && publish_from(*v, x),
            Err(e) => !publish_ok(*v) && e is Parse,
        },
{
    match v {
        TomlValue::Bool(b) => Ok(Publish::Flag(*b)),
        TomlValue::Array(_) => {
            let regs = parse_string_vec(v)?;
            Ok(Publish::Registry(regs))
        },
        _ => Err(Error::Parse("expected a boolean or a list of registries".to_owned())),
    }
}

/// The value is the literal inherit-from-workspace marker: a table whose
/// `workspace` key is the boolean `true`.
pub open spec fn inherit_marker(v: TomlValue) -> bool {
    v matches TomlValue::Table(t) && table_lookup(t@, "workspace"@) == Some(TomlValue::Bool(true))
}

fn is_inherit_marker(v: &TomlValue) -> (r: bool)
    ensures
        r == inherit_marker(*v),
{
    match v {
        TomlValue::Table(t) => match table_get(t, "workspace") {
            Some(TomlValue::Bool(b)) => *b,
            _ => false,
        },
        _ => false,
    }
}


/// The sequence view of an optional list.
pub open spec fn opt_vec_view<T>(o: Option<Vec<T>>) -> Option<Seq<T>> {
    match o {
        None => None,
        Some(v) => Some(v@),
    }
}

/// An optional string field: absent, present as a string, or ill-shaped.
pub open spec fn opt_string_at(t: Seq<(String, TomlValue)>, k1: Seq<char>, k2: Seq<char>) -> Option<
    Option<String>,
> {
    match keyed(t, k1, k2) {
        None => Some(None),
        Some(v) => match v {
            TomlValue::Str(s) => Some(Some(s)),
            _ => None,
        },
    }
}

fn get_opt_string(t: &Vec<(String, TomlValue)>, k1: &str, k2: &str) -> (r: Result<
    Option<String>,
    Error,
>)
    ensures
        match r {
            Ok(o) => opt_string_at(t@, k1@, k2@) == Some(o),
            Err(e) => opt_string_at(t@, k1@, k2@) is None && e is Parse,
        },
{
    match get_keyed(t, k1, k2) {
        None => Ok(None),
        Some(TomlValue::Str(s)) => Ok(Some(s.clone())),
        Some(_) => Err(Error::Parse("expected a string".to_owned())),
    }
}

/// A required string field.
pub open spec fn req_string_at(t: Seq<(String, TomlValue)>, k: Seq<char>) -> Option<String> {
    match table_lookup(t, k) {
        Some(TomlValue::Str(s)) => Some(s),
        _ => None,
    }
}

fn get_req_string(t: &Vec<(String, TomlValue)>, k: &str) -> (r: Result<String, Error>)
    ensures
        match r {
            Ok(s) => req_string_at(t@, k@) == Some(s),
            Err(e) => req_string_at(t@, k@) is None && e is Parse,
        },
{
    match table_get(t, k) {
        Some(TomlValue::Str(s)) => Ok(s.clone()),
        _ => Err(Error::Parse("missing required string field".to_owned())),
    }
}

/// An optional boolean field.
pub open spec fn opt_bool_at(t: Seq<(String, TomlValue)>, k1: Seq<char>, k2: Seq<char>) -> Option<
    Option<bool>,
> {
    match keyed(t, k1, k2) {
        None => Some(None),
        Some(v) => match v {
            TomlValue::Bool(b) => Some(Some(b)),
            _ => None,
        },
    }
}

fn get_opt_bool(t: &Vec<(String, TomlValue)>, k1: &str, k2: &str) -> (r: Result<
    Option<bool>,
    Error,
>)
    ensures
        match r {
            Ok(o) => opt_bool_at(t@, k1@, k2@) == Some(o),
            Err(e) => opt_bool_at(t@, k1@, k2@) is None && e is Parse,
        },
{
    match get_keyed(t, k1, k2) {
        None => Ok(None),
        Some(TomlValue::Bool(b)) => Ok(Some(*b)),
        Some(_) => Err(Error::Parse("expected a boolean".to_owned())),
    }
}

/// A boolean field with a documented default for when it is absent.
pub open spec fn bool_default_at(
    t: Seq<(String, TomlValue)>,
    k1: Seq<char>,
    k2: Seq<char>,
    d: bool,
) -> Option<bool> {
    match keyed(t, k1, k2) {
        None => Some(d),
        Some(v) => match v {
            TomlValue::Bool(b) => Some(b),
            _ => None,
        },
    }
}

fn get_bool_default(t: &Vec<(String, TomlValue)>, k1: &str, k2: &str, d: bool) -> (r: Result<
    bool,
    Error,
>)
    ensures
        match r {
            Ok(b) => bool_default_at(t@, k1@, k2@, d) == Some(b),
            Err(e) => bool_default_at(t@, k1@, k2@, d) is None && e is Parse,
        },
{
    match get_keyed(t, k1, k2) {
        None => Ok(d),
        Some(TomlValue::Bool(b)) => Ok(*b),
        Some(_) => Err(Error::Parse("expected a boolean".to_owned())),
    }
}

/// An optional small-integer field.
pub open spec fn opt_u16_at(t: Seq<(String, TomlValue)>, k1: Seq<char>, k2: Seq<char>) -> Option<
    Option<u16>,
> {
    match keyed(t, k1, k2) {
        None => Some(None),
        Some(v) => match v {
            TomlValue::Int(i) => if 0 <= i <= u16::MAX {
                Some(Some(i as u16))
            } else {
                None
            },
            _ => None,
        },
    }
}

fn get_opt_u16(t: &Vec<(String, TomlValue)>, k1: &str, k2: &str) -> (r: Result<Option<u16>, Error>)
    ensures
        match r {
            Ok(o) => opt_u16_at(t@, k1@, k2@) == Some(o),
            Err(e) => opt_u16_at(t@, k1@, k2@) is None && e is Parse,
        },
{
    match get_keyed(t, k1, k2) {
        None => Ok(None),
        Some(TomlValue::Int(i)) => {
            if 0 <= *i && *i <= 65535 {
                Ok(Some(*i as u16))
            } else {
                Err(Error::Parse("integer out of range".to_owned()))
            }
        },
        Some(_) => Err(Error::Parse("expected an integer".to_owned())),
    }
}

/// An optional list-of-strings field.
pub open spec fn opt_strings_at(t: Seq<(String, TomlValue)>, k1: Seq<char>, k2: Seq<char>) -> Option<
    Option<Seq<String>>,
> {
    match keyed(t, k1, k2) {
        None => Some(None),
        Some(v) => match string_vec_of(v) {
            Some(ss) => Some(Some(ss)),
            None => None,
        },
    }
}

fn get_opt_strings(t: &Vec<(String, TomlValue)>, k1: &str, k2: &str) -> (r: Result<
    Option<Vec<String>>,
    Error,
>)
    ensures
        match r {
            Ok(o) => opt_strings_at(t@, k1@, k2@) == Some(opt_vec_view(o)),
            Err(e) => opt_strings_at(t@, k1@, k2@) is None && e is Parse,
        },
{
    match get_keyed(t, k1, k2) {
        None => Ok(None),
        Some(v) => {
            let ss = parse_string_vec(v)?;
            Ok(Some(ss))
        },
    }
}

/// A list-of-strings field that is empty when absent.
pub open spec fn strings_default_at(
    t: Seq<(String, TomlValue)>,
    k1: Seq<char>,
    k2: Seq<char>,
) -> Option<Seq<String>> {
    match keyed(t, k1, k2) {
        None => Some(Seq::empty()),
        Some(v) => string_vec_of(v),
    }
}

fn get_strings_default(t: &Vec<(String, TomlValue)>, k1: &str, k2: &str) -> (r: Result<
    Vec<String>,
    Error,
>)
    ensures
        match r {
            Ok(ss) => strings_default_at(t@, k1@, k2@) == Some(ss@),
            Err(e) => strings_default_at(t@, k1@, k2@) is None && e is Parse,
        },
{
    match get_keyed(t, k1, k2) {
        None => {
            let empty: Vec<String> = Vec::new();
            proof {
                assert(empty@ =~= Seq::<String>::empty());
            }
            Ok(empty)
        },
        Some(v) => parse_string_vec(v),
    }
}

/// An optional edition field.
pub open spec fn opt_edition_at(t: Seq<(String, TomlValue)>, k: Seq<char>) -> Option<
    Option<Edition>,
> {
    match table_lookup(t, k) {
        None => Some(None),
        Some(v) => match edition_of(v) {
            Some(e) => Some(Some(e)),
            None => None,
        },
    }
}

fn get_opt_edition(t: &Vec<(String, TomlValue)>, k: &str) -> (r: Result<Option<Edition>, Error>)
    ensures
        match r {
            Ok(o) => opt_edition_at(t@, k@) == Some(o),
            Err(e) => opt_edition_at(t@, k@) is None && e is Parse,
        },
{
    match table_get(t, k) {
        None => Ok(None),
        Some(v) => {
            let e = parse_edition(v)?;
            Ok(Some(e))
        },
    }
}

/// An optional resolver field.
pub open spec fn opt_resolver_at(t: Seq<(String, TomlValue)>, k: Seq<char>) -> Option<
    Option<Resolver>,
> {
    match table_lookup(t, k) {
        None => Some(None),
        Some(v) => match resolver_of(v) {
            Some(e) => Some(Some(e)),
            None => None,
        },
    }
}

fn get_opt_resolver(t: &Vec<(String, TomlValue)>, k: &str) -> (r: Result<Option<Resolver>, Error>)
    ensures
        match r {
            Ok(o) => opt_resolver_at(t@, k@) == Some(o),
            Err(e) => opt_resolver_at(t@, k@) is None && e is Parse,
        },
{
    match table_get(t, k) {
        None => Ok(None),
        Some(v) => {
            let e = parse_resolver(v)?;
            Ok(Some(e))
        },
    }
}

/// An optional string-or-boolean field.
pub open spec fn opt_sob_at(t: Seq<(String, TomlValue)>, k: Seq<char>) -> Option<
    Option<StringOrBool>,
> {
    match table_lookup(t, k) {
        None => Some(None),
        Some(v) => match string_or_bool_of(v) {
            Some(x) => Some(Some(x)),
            None => None,
        },
    }
}

fn get_opt_sob(t: &Vec<(String, TomlValue)>, k: &str) -> (r: Result<Option<StringOrBool>, Error>)
    ensures
        match r {
            Ok(o) => opt_sob_at(t@, k@) == Some(o),
            Err(e) => opt_sob_at(t@, k@) is None && e is Parse,
        },
{
    match table_get(t, k) {
        None => Ok(None),
        Some(v) => {
            let x = parse_string_or_bool(v)?;
            Ok(Some(x))
        },
    }
}

/// An optional raw document-value field, kept as it stands.
pub open spec fn opt_raw_at(t: Seq<(String, TomlValue)>, k: Seq<char>) -> Option<TomlValue> {
    table_lookup(t, k)
}

/// The optional raw field matches: both absent, or structurally equivalent.
pub open spec fn opt_raw_matches(o: Option<TomlValue>, x: Option<TomlValue>) -> bool {
    match (o, x) {
        (None, None) => true,
        (Some(v), Some(b)) => tv_eqv(b, v),
        _ => false,
    }
}

fn get_opt_raw(t: &Vec<(String, TomlValue)>, k: &str) -> (r: Option<TomlValue>)
    ensures
        opt_raw_matches(opt_raw_at(t@, k@), r),
{
    match table_get(t, k) {
        None => None,
        Some(v) => Some(v.clone()),
    }
}


/// An optional inheritable string field: absent, the workspace marker, or a
/// local string.
pub open spec fn opt_inh_string_at(t: Seq<(String, TomlValue)>, k: Seq<char>) -> Option<
    Option<MaybeInherited<String>>,
> {
    match table_lookup(t, k) {
        None => Some(None),
        Some(v) => if inherit_marker(v) {
            Some(Some(MaybeInherited::Inherited { workspace: True }))
        } else {
            match v {
                TomlValue::Str(s) => Some(Some(MaybeInherited::Local(s))),
                _ => None,
            }
        },
    }
}

fn get_opt_inh_string(t: &Vec<(String, TomlValue)>, k: &str) -> (r: Result<
    Option<MaybeInherited<String>>,
    Error,
>)
    ensures
        match r {
            Ok(o) => opt_inh_string_at(t@, k@) == Some(o),
            Err(e) => opt_inh_string_at(t@, k@) is None && e is Parse,
        },
{
    match table_get(t, k) {
        None => Ok(None),
        Some(v) => {
            if is_inherit_marker(v) {
                Ok(Some(MaybeInherited::Inherited { workspace: True }))
            } else {
                match v {
                    TomlValue::Str(s) => Ok(Some(MaybeInherited::Local(s.clone()))),
                    _ => Err(Error::Parse("expected a string or a workspace marker".to_owned())),
                }
            }
        },
    }
}

/// A required inheritable string field.
pub open spec fn req_inh_string_at(t: Seq<(String, TomlValue)>, k: Seq<char>) -> Option<
    MaybeInherited<String>,
> {
    match table_lookup(t, k) {
        None => None,
        Some(v) => if inherit_marker(v) {
            Some(MaybeInherited::Inherited { workspace: True })
        } else {
            match v {
                TomlValue::Str(s) => Some(MaybeInherited::Local(s)),
                _ => None,
            }
        },
    }
}

fn get_req_inh_string(t: &Vec<(String, TomlValue)>, k: &str) -> (r: Result<
    MaybeInherited<String>,
    Error,
>)
    ensures
        match r {
            Ok(o) => req_inh_string_at(t@, k@) == Some(o),
            Err(e) => req_inh_string_at(t@, k@) is None && e is Parse,
        },
{
    match table_get(t, k) {
        None => Err(Error::Parse("missing required field".to_owned())),
        Some(v) => {
            if is_inherit_marker(v) {
                Ok(MaybeInherited::Inherited { workspace: True })
            } else {
                match v {
                    TomlValue::Str(s) => Ok(MaybeInherited::Local(s.clone())),
                    _ => Err(Error::Parse("expected a string or a workspace marker".to_owned())),
                }
            }
        },
    }
}

/// An optional inheritable edition field.
pub open spec fn opt_inh_edition_at(t: Seq<(String, TomlValue)>, k: Seq<char>) -> Option<
    Option<MaybeInherited<Edition>>,
> {
    match table_lookup(t, k) {
        None => Some(None),
        Some(v) => if inherit_marker(v) {
            Some(Some(MaybeInherited::Inherited { workspace: True }))
        } else {
            match edition_of(v) {
                Some(e) => Some(Some(MaybeInherited::Local(e))),
                None => None,
            }
        },
    }
}

fn get_opt_inh_edition(t: &Vec<(String, TomlValue)>, k: &str) -> (r: Result<
    Option<MaybeInherited<Edition>>,
    Error,
>)
    ensures
        match r {
            Ok(o) => opt_inh_edition_at(t@, k@) == Some(o),
            Err(e) => opt_inh_edition_at(t@, k@) is None && e is Parse,
        },
{
    match table_get(t, k) {
        None => Ok(None),
        Some(v) => {
            if is_inherit_marker(v) {
                Ok(Some(MaybeInherited::Inherited { workspace: True }))
            } else {
                let e = parse_edition(v)?;
                Ok(Some(MaybeInherited::Local(e)))
            }
        },
    }
}

/// An optional inheritable string-or-boolean field.
pub open spec fn opt_inh_sob_at(t: Seq<(String, TomlValue)>, k: Seq<char>) -> Option<
    Option<MaybeInherited<StringOrBool>>,
> {
    match table_lookup(t, k) {
        None => Some(None),
        Some(v) => if inherit_marker(v) {
            Some(Some(MaybeInherited::Inherited { workspace: True }))
        } else {
            match string_or_bool_of(v) {
                Some(x) => Some(Some(MaybeInherited::Local(x))),
                None => None,
            }
        },
    }
}

fn get_opt_inh_sob(t: &Vec<(String, TomlValue)>, k: &str) -> (r: Result<
    Option<MaybeInherited<StringOrBool>>,
    Error,
>)
    ensures
        match r {
            Ok(o) => opt_inh_sob_at(t@, k@) == Some(o),
            Err(e) => opt_inh_sob_at(t@, k@) is None && e is Parse,
        },
{
    match table_get(t, k) {
        None => Ok(None),
        Some(v) => {
            if is_inherit_marker(v) {
                Ok(Some(MaybeInherited::Inherited { workspace: True }))
            } else {
                let x = parse_string_or_bool(v)?;
                Ok(Some(MaybeInherited::Local(x)))
            }
        },
    }
}

/// The sequence view of an optional inheritable string list.
pub open spec fn opt_inh_strings_view(o: Option<MaybeInherited<Vec<String>>>) -> Option<
    MaybeInherited<Seq<String>>,
> {
    match o {
        None => None,
        Some(MaybeInherited::Inherited { workspace }) => Some(
            MaybeInherited::Inherited { workspace },
        ),
        Some(MaybeInherited::Local(v)) => Some(MaybeInherited::Local(v@)),
    }
}

/// An optional inheritable list-of-strings field.
pub open spec fn opt_inh_strings_at(t: Seq<(String, TomlValue)>, k: Seq<char>) -> Option<
    Option<MaybeInherited<Seq<String>>>,
> {
    match table_lookup(t, k) {
        None => Some(None),
        Some(v) => if inherit_marker(v) {
            Some(Some(MaybeInherited::Inherited { workspace: True }))
        } else {
            match string_vec_of(v) {
                Some(ss) => Some(Some(MaybeInherited::Local(ss))),
                None => None,
            }
        },
    }
}

fn get_opt_inh_strings(t: &Vec<(String, TomlValue)>, k: &str) -> (r: Result<
    Option<MaybeInherited<Vec<String>>>,
    Error,
>)
    ensures
        match r {
            Ok(o) => opt_inh_strings_at(t@, k@) == Some(opt_inh_strings_view(o)),
            Err(e) => opt_inh_strings_at(t@, k@) is None && e is Parse,
        },
{
    match table_get(t, k) {
        None => Ok(None),
        Some(v) => {
            if is_inherit_marker(v) {
                Ok(Some(MaybeInherited::Inherited { workspace: True }))
            } else {
                let ss = parse_string_vec(v)?;
                Ok(Some(MaybeInherited::Local(ss)))
            }
        },
    }
}

/// An optional inheritable publish field is well-shaped.
pub open spec fn opt_inh_publish_ok(t: Seq<(String, TomlValue)>, k: Seq<char>) -> bool {
    match table_lookup(t, k) {
        None => true,
        Some(v) => inherit_marker(v) || publish_ok(v),
    }
}

/// An optional inheritable publish field matches the model value.
pub open spec fn opt_inh_publish_at(
    t: Seq<(String, TomlValue)>,
    k: Seq<char>,
    x: Option<MaybeInherited<Publish>>,
) -> bool {
    match table_lookup(t, k) {
        None => x is None,
        Some(v) => if inherit_marker(v) {
            x == Some(MaybeInherited::<Publish>::Inherited { workspace: True })
        } else {
            x matches Some(MaybeInherited::Local(p)) && publish_from(v, p)
        },
    }
}

fn get_opt_inh_publish(t: &Vec<(String, TomlValue)>, k: &str) -> (r: Result<
    Option<MaybeInherited<Publish>>,
    Error,
>)
    ensures
        match r {
            Ok(o) => opt_inh_publish_ok(t@, k@) && opt_inh_publish_at(t@, k@, o),
            Err(e) => !opt_inh_publish_ok(t@, k@) && e is Parse,
        },
{
    match table_get(t, k) {
        None => Ok(None),
        Some(v) => {
            if is_inherit_marker(v) {
                Ok(Some(MaybeInherited::Inherited { workspace: True }))
            } else {
                let p = parse_publish(v)?;
                Ok(Some(MaybeInherited::Local(p)))
            }
        },
    }
}

/// An optional plain publish field is well-shaped.
pub open spec fn opt_publish_ok(t: Seq<(String, TomlValue)>, k: Seq<char>) -> bool {
    match table_lookup(t, k) {
        None => true,
        Some(v) => publish_ok(v),
    }
}

/// An optional plain publish field matches the model value.
pub open spec fn opt_publish_at(
    t: Seq<(String, TomlValue)>,
    k: Seq<char>,
    x: Option<Publish>,
) -> bool {
    match table_lookup(t, k) {
        None => x is None,
        Some(v) => x matches Some(p) && publish_from(v, p),
    }
}

fn get_opt_publish(t: &Vec<(String, TomlValue)>, k: &str) -> (r: Result<Option<Publish>, Error>)
    ensures
        match r {
            Ok(o) => opt_publish_ok(t@, k@) && opt_publish_at(t@, k@, o),
            Err(e) => !opt_publish_ok(t@, k@) && e is Parse,
        },
{
    match table_get(t, k) {
        None => Ok(None),
        Some(v) => {
            let p = parse_publish(v)?;
            Ok(Some(p))
        },
    }
}


/// A detailed dependency record read from a table.
pub open spec fn dep_detail_ok(t: Seq<(String, TomlValue)>) -> bool {
    &&& opt_string_at(t, "version"@, "version"@) is Some
    &&& opt_string_at(t, "registry"@, "registry"@) is Some
    &&& opt_string_at(t, "registry-index"@, "registry_index"@) is Some
    &&& opt_string_at(t, "path"@, "path"@) is Some
    &&& opt_string_at(t, "git"@, "git"@) is Some
    &&& opt_string_at(t, "branch"@, "branch"@) is Some
    &&& opt_string_at(t, "tag"@, "tag"@) is Some
    &&& opt_string_at(t, "rev"@, "rev"@) is Some
    &&& opt_strings_at(t, "features"@, "features"@) is Some
    &&& opt_bool_at(t, "optional"@, "optional"@) is Some
    &&& opt_bool_at(t, "workspace"@, "workspace"@) is Some
    &&& opt_bool_at(t, "default-features"@, "default_features"@) is Some
    &&& opt_string_at(t, "package"@, "package"@) is Some
}

pub open spec fn dep_detail_from(t: Seq<(String, TomlValue)>, d: DependencyDetail) -> bool {
    &&& opt_string_at(t, "version"@, "version"@) == Some(d.version)
    &&& opt_string_at(t, "registry"@, "registry"@) == Some(d.registry)
    &&& opt_string_at(t, "registry-index"@, "registry_index"@) == Some(d.registry_index)
    &&& opt_string_at(t, "path"@, "path"@) == Some(d.path)
    &&& opt_string_at(t, "git"@, "git"@) == Some(d.git)
    &&& opt_string_at(t, "branch"@, "branch"@) == Some(d.branch)
    &&& opt_string_at(t, "tag"@, "tag"@) == Some(d.tag)
    &&& opt_string_at(t, "rev"@, "rev"@) == Some(d.rev)
    &&& opt_strings_at(t, "features"@, "features"@) == Some(opt_vec_view(d.features))
    &&& opt_bool_at(t, "optional"@, "optional"@) == Some(d.optional)
    &&& opt_bool_at(t, "workspace"@, "workspace"@) == Some(d.workspace)
    &&& opt_bool_at(t, "default-features"@, "default_features"@) == Some(d.default_features)
    &&& opt_string_at(t, "package"@, "package"@) == Some(d.package)
}

fn parse_dep_detail(t: &Vec<(String, TomlValue)>) -> (r: Result<DependencyDetail, Error>)
    ensures
        match r {
            Ok(d) => dep_detail_ok(t@) && dep_detail_from(t@, d),
            Err(e) => !dep_detail_ok(t@) && e is Parse,
        },
{
    let version = get_opt_string(t, "version", "version")?;
    let registry = get_opt_string(t, "registry", "registry")?;
    let registry_index = get_opt_string(t, "registry-index", "registry_index")?;
    let path = get_opt_string(t, "path", "path")?;
    let git = get_opt_string(t, "git", "git")?;
    let branch = get_opt_string(t, "branch", "branch")?;
    let tag = get_opt_string(t, "tag", "tag")?;
    let rev = get_opt_string(t, "rev", "rev")?;
    let features = get_opt_strings(t, "features", "features")?;
    let optional = get_opt_bool(t, "optional", "optional")?;
    let workspace = get_opt_bool(t, "workspace", "workspace")?;
    let default_features = get_opt_bool(t, "default-features", "default_features")?;
    let package = get_opt_string(t, "package", "package")?;
    Ok(DependencyDetail {
        version,
        registry,
        registry_index,
        path,
        git,
        branch,
        tag,
        rev,
        features,
        optional,
        workspace,
        default_features,
        package,
    })
}

/// A dependency: a bare version-requirement string or a detailed table.
pub open spec fn dependency_ok(v: TomlValue) -> bool {
    match v {
        TomlValue::Str(_) => true,
        TomlValue::Table(t) => dep_detail_ok(t@),
        _ => false,
    }
}

pub open spec fn dependency_from(v: TomlValue, d: Dependency) -> bool {
    match v {
        TomlValue::Str(s) => d == Dependency::Simple(s),
        TomlValue::Table(t) => d matches Dependency::Detailed(dd) && dep_detail_from(t@, dd),
        _ => false,
    }
}

fn parse_dependency(v: &TomlValue) -> (r: Result<Dependency, Error>)
    ensures
        match r {
            Ok(d) => dependency_ok(*v) && dependency_from(*v, d),
            Err(e) => !dependency_ok(*v) && e is Parse,
        },
{
    match v {
        TomlValue::Str(s) => Ok(Dependency::Simple(s.clone())),
        TomlValue::Table(t) => {
            let dd = parse_dep_detail(t)?;
            Ok(Dependency::Detailed(dd))
        },
        _ => Err(Error::Parse("expected a version string or a dependency table".to_owned())),
    }
}

/// A dependency set: every binding of the table, in document order.
pub open spec fn deps_ok(t: Seq<(String, TomlValue)>) -> bool {
    forall|i: int| 0 <= i < t.len() ==> dependency_ok((#[trigger] t[i]).1)
}

pub open spec fn deps_from(t: Seq<(String, TomlValue)>, ds: Seq<(String, Dependency)>) -> bool {
    &&& ds.len() == t.len()
    &&& forall|i: int|
        0 <= i < t.len() ==> (#[trigger] ds[i]).0 == t[i].0 && dependency_from(t[i].1, ds[i].1)
}

fn parse_deps_table(t: &Vec<(String, TomlValue)>) -> (r: Result<DepsSet, Error>)
    ensures
        match r {
            Ok(ds) => deps_ok(t@) && deps_from(t@, ds@),
            Err(e) => !deps_ok(t@) && e is Parse,
        },
{
    let mut out: DepsSet = Vec::new();
    let mut i: usize = 0;
    while i < t.len()
        invariant
            i <= t@.len(),
            out@.len() == i,
            forall|j: int| 0 <= j < i ==> dependency_ok((#[trigger] t@[j]).1),
            forall|j: int|
                0 <= j < i ==> (#[trigger] out@[j]).0 == t@[j].0 && dependency_from(
                    t@[j].1,
                    out@[j].1,
                ),
        decreases t@.len() - i,
    {
        let d = parse_dependency(&t[i].1)?;
        out.push((t[i].0.clone(), d));
        i = i + 1;
    }
    Ok(out)
}

/// A dependency-set value: a table of dependencies.
pub open spec fn deps_value_ok(v: TomlValue) -> bool {
    v matches TomlValue::Table(t) && deps_ok(t@)
}

pub open spec fn deps_value_from(v: TomlValue, ds: Seq<(String, Dependency)>) -> bool {
    v matches TomlValue::Table(t) && deps_from(t@, ds)
}

fn parse_deps_value(v: &TomlValue) -> (r: Result<DepsSet, Error>)
    ensures
        match r {
            Ok(ds) => deps_value_ok(*v) && deps_value_from(*v, ds@),
            Err(e) => !deps_value_ok(*v) && e is Parse,
        },
{
    match v {
        TomlValue::Table(t) => parse_deps_table(t),
        _ => Err(Error::Parse("expected a table of dependencies".to_owned())),
    }
}

/// An optional dependency-set field.
pub open spec fn opt_deps_ok(t: Seq<(String, TomlValue)>, k1: Seq<char>, k2: Seq<char>) -> bool {
    match keyed(t, k1, k2) {
        None => true,
        Some(v) => deps_value_ok(v),
    }
}

pub open spec fn opt_deps_at(
    t: Seq<(String, TomlValue)>,
    k1: Seq<char>,
    k2: Seq<char>,
    x: Option<DepsSet>,
) -> bool {
    match keyed(t, k1, k2) {
        None => x is None,
        Some(v) => x matches Some(ds) && deps_value_from(v, ds@),
    }
}

fn get_opt_deps(t: &Vec<(String, TomlValue)>, k1: &str, k2: &str) -> (r: Result<
    Option<DepsSet>,
    Error,
>)
    ensures
        match r {
            Ok(o) => opt_deps_ok(t@, k1@, k2@) && opt_deps_at(t@, k1@, k2@, o),
            Err(e) => !opt_deps_ok(t@, k1@, k2@) && e is Parse,
        },
{
    match get_keyed(t, k1, k2) {
        None => Ok(None),
        Some(v) => {
            let ds = parse_deps_value(v)?;
            Ok(Some(ds))
        },
    }
}

/// A dependency-set field that is empty when absent, as target overrides have.
pub open spec fn deps_default_ok(t: Seq<(String, TomlValue)>, k1: Seq<char>, k2: Seq<char>) -> bool {
    match keyed(t, k1, k2) {
        None => true,
        Some(v) => deps_value_ok(v),
    }
}

pub open spec fn deps_default_at(
    t: Seq<(String, TomlValue)>,
    k1: Seq<char>,
    k2: Seq<char>,
    ds: Seq<(String, Dependency)>,
) -> bool {
    match keyed(t, k1, k2) {
        None => ds.len() == 0,
        Some(v) => deps_value_from(v, ds),
    }
}

fn get_deps_default(t: &Vec<(String, TomlValue)>, k1: &str, k2: &str) -> (r: Result<DepsSet, Error>)
    ensures
        match r {
            Ok(ds) => deps_default_ok(t@, k1@, k2@) && deps_default_at(t@, k1@, k2@, ds@),
            Err(e) => !deps_default_ok(t@, k1@, k2@) && e is Parse,
        },
{
    match get_keyed(t, k1, k2) {
        None => Ok(Vec::new()),
        Some(v) => parse_deps_value(v),
    }
}

/// One build-target platform's dependency overrides.
pub open spec fn target_ok(v: TomlValue) -> bool {
    v matches TomlValue::Table(t) && {
        &&& deps_default_ok(t@, "dependencies"@, "dependencies"@)
        &&& deps_default_ok(t@, "dev-dependencies"@, "dev_dependencies"@)
        &&& deps_default_ok(t@, "build-dependencies"@, "build_dependencies"@)
    }
}

pub open spec fn target_from(v: TomlValue, tg: Target) -> bool {
    v matches TomlValue::Table(t) && {
        &&& deps_default_at(t@, "dependencies"@, "dependencies"@, tg.dependencies@)
        &&& deps_default_at(t@, "dev-dependencies"@, "dev_dependencies"@, tg.dev_dependencies@)
        &&& deps_default_at(
            t@,
            "build-dependencies"@,
            "build_dependencies"@,
            tg.build_dependencies@,
        )
    }
}

fn parse_target(v: &TomlValue) -> (r: Result<Target, Error>)
    ensures
        match r {
            Ok(tg) => target_ok(*v) && target_from(*v, tg),
            Err(e) => !target_ok(*v) && e is Parse,
        },
{
    match v {
        TomlValue::Table(t) => {
            let dependencies = get_deps_default(t, "dependencies", "dependencies")?;
            let dev_dependencies = get_deps_default(t, "dev-dependencies", "dev_dependencies")?;
            let build_dependencies = get_deps_default(
                t,
                "build-dependencies",
                "build_dependencies",
            )?;
            Ok(Target { dependencies, dev_dependencies, build_dependencies })
        },
        _ => Err(Error::Parse("expected a target table".to_owned())),
    }
}

/// The target section: platform expressions, each with its overrides.
pub open spec fn targets_ok(v: TomlValue) -> bool {
    v matches TomlValue::Table(t) && forall|i: int|
        0 <= i < t@.len() ==> target_ok((#[trigger] t@[i]).1)
}

pub open spec fn targets_from(v: TomlValue, ts: Seq<(String, Target)>) -> bool {
    v matches TomlValue::Table(t) && {
        &&& ts.len() == t@.len()
        &&& forall|i: int|
            0 <= i < t@.len() ==> (#[trigger] ts[i]).0 == t@[i].0 && target_from(t@[i].1, ts[i].1)
    }
}

fn parse_targets(v: &TomlValue) -> (r: Result<TargetDepsSet, Error>)
    ensures
        match r {
            Ok(ts) => targets_ok(*v) && targets_from(*v, ts@),
            Err(e) => !targets_ok(*v) && e is Parse,
        },
{
    match v {
        TomlValue::Table(t) => {
            let mut out: TargetDepsSet = Vec::new();
            let mut i: usize = 0;
            while i < t.len()
                invariant
                    *v == TomlValue::Table(*t),
                    i <= t@.len(),
                    out@.len() == i,
                    forall|j: int| 0 <= j < i ==> target_ok((#[trigger] t@[j]).1),
                    forall|j: int|
                        0 <= j < i ==> (#[trigger] out@[j]).0 == t@[j].0 && target_from(
                            t@[j].1,
                            out@[j].1,
                        ),
                decreases t@.len() - i,
            {
                let tg = match parse_target(&t[i].1) {
                    Ok(tg) => tg,
                    Err(e) => {
                        proof {
                            assert((*v)->Table_0 == *t);
                            assert(!target_ok(((*v)->Table_0)@[i as int].1));
                            assert(!targets_ok(*v));
                        }
                        return Err(e);
                    },
                };
                out.push((t[i].0.clone(), tg));
                i = i + 1;
            }
            Ok(out)
        },
        _ => Err(Error::Parse("expected a table of targets".to_owned())),
    }
}

/// The features section: names, each with the list it enables.
pub open spec fn features_ok(v: TomlValue) -> bool {
    v matches TomlValue::Table(t) && forall|i: int|
        0 <= i < t@.len() ==> string_vec_of((#[trigger] t@[i]).1) is Some
}

pub open spec fn features_from(v: TomlValue, fs: Seq<(String, Vec<String>)>) -> bool {
    v matches TomlValue::Table(t) && {
        &&& fs.len() == t@.len()
        &&& forall|i: int|
            0 <= i < t@.len() ==> (#[trigger] fs[i]).0 == t@[i].0 && string_vec_of(t@[i].1)
                == Some(fs[i].1@)
    }
}

fn parse_features(v: &TomlValue) -> (r: Result<FeatureSet, Error>)
    ensures
        match r {
            Ok(fs) => features_ok(*v) && features_from(*v, fs@),
            Err(e) => !features_ok(*v) && e is Parse,
        },
{
    match v {
        TomlValue::Table(t) => {
            let mut out: FeatureSet = Vec::new();
            let mut i: usize = 0;
            while i < t.len()
                invariant
                    *v == TomlValue::Table(*t),
                    i <= t@.len(),
                    out@.len() == i,
                    forall|j: int| 0 <= j < i ==> string_vec_of((#[trigger] t@[j]).1) is Some,
                    forall|j: int|
                        0 <= j < i ==> (#[trigger] out@[j]).0 == t@[j].0 && string_vec_of(t@[j].1)
                            == Some(out@[j].1@),
                decreases t@.len() - i,
            {
                let ss = parse_string_vec(&t[i].1)?;
                out.push((t[i].0.clone(), ss));
                i = i + 1;
            }
            Ok(out)
        },
        _ => Err(Error::Parse("expected a table of features".to_owned())),
    }
}

/// The patch section: sources, each with a dependency set.
pub open spec fn patch_ok(v: TomlValue) -> bool {
    v matches TomlValue::Table(t) && forall|i: int|
        0 <= i < t@.len() ==> deps_value_ok((#[trigger] t@[i]).1)
}

pub open spec fn patch_from(v: TomlValue, ps: Seq<(String, DepsSet)>) -> bool {
    v matches TomlValue::Table(t) && {
        &&& ps.len() == t@.len()
        &&& forall|i: int|
            0 <= i < t@.len() ==> (#[trigger] ps[i]).0 == t@[i].0 && deps_value_from(
                t@[i].1,
                ps[i].1@,
            )
    }
}

fn parse_patch(v: &TomlValue) -> (r: Result<PatchSet, Error>)
    ensures
        match r {
            Ok(ps) => patch_ok(*v) && patch_from(*v, ps@),
            Err(e) => !patch_ok(*v) && e is Parse,
        },
{
    match v {
        TomlValue::Table(t) => {
            let mut out: PatchSet = Vec::new();
            let mut i: usize = 0;
            while i < t.len()
                invariant
                    *v == TomlValue::Table(*t),
                    i <= t@.len(),
                    out@.len() == i,
                    forall|j: int| 0 <= j < i ==> deps_value_ok((#[trigger] t@[j]).1),
                    forall|j: int|
                        0 <= j < i ==> (#[trigger] out@[j]).0 == t@[j].0 && deps_value_from(
                            t@[j].1,
                            out@[j].1@,
                        ),
                decreases t@.len() - i,
            {
                let ds = match parse_deps_value(&t[i].1) {
                    Ok(ds) => ds,
                    Err(e) => {
                        proof {
                            assert((*v)->Table_0 == *t);
                            assert(!deps_value_ok(((*v)->Table_0)@[i as int].1));
                            assert(!patch_ok(*v));
                        }
                        return Err(e);
                    },
                };
                out.push((t[i].0.clone(), ds));
                i = i + 1;
            }
            Ok(out)
        },
        _ => Err(Error::Parse("expected a table of patches".to_owned())),
    }
}

/// One product table.
pub open spec fn product_ok(v: TomlValue) -> bool {
    v matches TomlValue::Table(t) && {
        &&& opt_string_at(t@, "path"@, "path"@) is Some
        &&& opt_string_at(t@, "name"@, "name"@) is Some
        &&& bool_default_at(t@, "test"@, "test"@, true) is Some
        &&& bool_default_at(t@, "doctest"@, "doctest"@, true) is Some
        &&& bool_default_at(t@, "bench"@, "bench"@, true) is Some
        &&& bool_default_at(t@, "doc"@, "doc"@, true) is Some
        &&& bool_default_at(t@, "plugin"@, "plugin"@, false) is Some
        &&& bool_default_at(t@, "proc-macro"@, "proc_macro"@, false) is Some
        &&& bool_default_at(t@, "harness"@, "harness"@, true) is Some
        &&& opt_edition_at(t@, "edition"@) is Some
        &&& strings_default_at(t@, "required-features"@, "required_features"@) is Some
        &&& opt_strings_at(t@, "crate-type"@, "crate_type"@) is Some
    }
}

pub open spec fn product_from(v: TomlValue, p: Product) -> bool {
    v matches TomlValue::Table(t) && {
        &&& opt_string_at(t@, "path"@, "path"@) == Some(p.path)
        &&& opt_string_at(t@, "name"@, "name"@) == Some(p.name)
        &&& bool_default_at(t@, "test"@, "test"@, true) == Some(p.test)
        &&& bool_default_at(t@, "doctest"@, "doctest"@, true) == Some(p.doctest)
        &&& bool_default_at(t@, "bench"@, "bench"@, true) == Some(p.bench)
        &&& bool_default_at(t@, "doc"@, "doc"@, true) == Some(p.doc)
        &&& bool_default_at(t@, "plugin"@, "plugin"@, false) == Some(p.plugin)
        &&& bool_default_at(t@, "proc-macro"@, "proc_macro"@, false) == Some(p.proc_macro)
        &&& bool_default_at(t@, "harness"@, "harness"@, true) == Some(p.harness)
        &&& opt_edition_at(t@, "edition"@) == Some(p.edition)
        &&& strings_default_at(t@, "required-features"@, "required_features"@) == Some(
            p.required_features@,
        )
        &&& opt_strings_at(t@, "crate-type"@, "crate_type"@) == Some(opt_vec_view(p.crate_type))
    }
}

fn parse_product(v: &TomlValue) -> (r: Result<Product, Error>)
    ensures
        match r {
            Ok(p) => product_ok(*v) && product_from(*v, p),
            Err(e) => !product_ok(*v) && e is Parse,
        },
{
    match v {
        TomlValue::Table(t) => {
            let path = get_opt_string(t, "path", "path")?;
            let name = get_opt_string(t, "name", "name")?;
            let test = get_bool_default(t, "test", "test", true)?;
            let doctest = get_bool_default(t, "doctest", "doctest", true)?;
            let bench = get_bool_default(t, "bench", "bench", true)?;
            let doc = get_bool_default(t, "doc", "doc", true)?;
            let plugin = get_bool_default(t, "plugin", "plugin", false)?;
            let proc_macro = get_bool_default(t, "proc-macro", "proc_macro", false)?;
            let harness = get_bool_default(t, "harness", "harness", true)?;
            let edition = get_opt_edition(t, "edition")?;
            let required_features = get_strings_default(t, "required-features", "required_features")?;
            let crate_type = get_opt_strings(t, "crate-type", "crate_type")?;
            Ok(Product {
                path,
                name,
                test,
                doctest,
                bench,
                doc,
                plugin,
                proc_macro,
                harness,
                edition,
                required_features,
                crate_type,
            })
        },
        _ => Err(Error::Parse("expected a product table".to_owned())),
    }
}

/// An array of product tables.
pub open spec fn products_ok(v: TomlValue) -> bool {
    v matches TomlValue::Array(a) && forall|i: int|
        0 <= i < a@.len() ==> product_ok(#[trigger] a@[i])
}

pub open spec fn products_from(v: TomlValue, ps: Seq<Product>) -> bool {
    v matches TomlValue::Array(a) && {
        &&& ps.len() == a@.len()
        &&& forall|i: int| 0 <= i < a@.len() ==> product_from(#[trigger] a@[i], ps[i])
    }
}

fn parse_products(v: &TomlValue) -> (r: Result<Vec<Product>, Error>)
    ensures
        match r {
            Ok(ps) => products_ok(*v) && products_from(*v, ps@),
            Err(e) => !products_ok(*v) && e is Parse,
        },
{
    match v {
        TomlValue::Array(a) => {
            let mut out: Vec<Product> = Vec::new();
            let mut i: usize = 0;
            while i < a.len()
                invariant
                    *v == TomlValue::Array(*a),
                    i <= a@.len(),
                    out@.len() == i,
                    forall|j: int| 0 <= j < i ==> product_ok(#[trigger] a@[j]),
                    forall|j: int| 0 <= j < i ==> product_from(#[trigger] a@[j], out@[j]),
                decreases a@.len() - i,
            {
                let p = match parse_product(&a[i]) {
                    Ok(p) => p,
                    Err(e) => {
                        proof {
                            assert((*v)->Array_0 == *a);
                            assert(!product_ok(((*v)->Array_0)@[i as int]));
                            assert(!products_ok(*v));
                        }
                        return Err(e);
                    },
                };
                out.push(p);
                i = i + 1;
            }
            Ok(out)
        },
        _ => Err(Error::Parse("expected an array of product tables".to_owned())),
    }
}


/// An optional raw field with a historical alias.
pub open spec fn raw_keyed_at(t: Seq<(String, TomlValue)>, k1: Seq<char>, k2: Seq<char>) -> Option<
    TomlValue,
> {
    keyed(t, k1, k2)
}

fn get_raw_keyed(t: &Vec<(String, TomlValue)>, k1: &str, k2: &str) -> (r: Option<TomlValue>)
    ensures
        opt_raw_matches(raw_keyed_at(t@, k1@, k2@), r),
{
    match get_keyed(t, k1, k2) {
        None => None,
        Some(v) => Some(v.clone()),
    }
}

/// A table of raw values that is empty when absent, as the per-package
/// overrides of a profile are.
pub open spec fn raw_table_default_ok(t: Seq<(String, TomlValue)>, k: Seq<char>) -> bool {
    match table_lookup(t, k) {
        None => true,
        Some(v) => v is Table,
    }
}

pub open spec fn raw_table_default_at(
    t: Seq<(String, TomlValue)>,
    k: Seq<char>,
    x: Seq<(String, TomlValue)>,
) -> bool {
    match table_lookup(t, k) {
        None => x.len() == 0,
        Some(v) => v matches TomlValue::Table(pt) && {
            &&& x.len() == pt@.len()
            &&& forall|i: int|
                0 <= i < pt@.len() ==> (#[trigger] x[i]).0 == pt@[i].0 && tv_eqv(x[i].1, pt@[i].1)
        },
    }
}

fn get_raw_table_default(t: &Vec<(String, TomlValue)>, k: &str) -> (r: Result<
    Vec<(String, TomlValue)>,
    Error,
>)
    ensures
        match r {
            Ok(x) => raw_table_default_ok(t@, k@) && raw_table_default_at(t@, k@, x@),
            Err(e) => !raw_table_default_ok(t@, k@) && e is Parse,
        },
{
    match table_get(t, k) {
        None => Ok(Vec::new()),
        Some(v) => match v {
            TomlValue::Table(pt) => {
                let mut out: Vec<(String, TomlValue)> = Vec::new();
                let mut i: usize = 0;
                while i < pt.len()
                    invariant
                        i <= pt@.len(),
                        out@.len() == i,
                        forall|j: int|
                            0 <= j < i ==> (#[trigger] out@[j]).0 == pt@[j].0 && tv_eqv(
                                out@[j].1,
                                pt@[j].1,
                            ),
                    decreases pt@.len() - i,
                {
                    out.push((pt[i].0.clone(), pt[i].1.clone()));
                    i = i + 1;
                }
                Ok(out)
            },
            _ => Err(Error::Parse("expected a table".to_owned())),
        },
    }
}

/// One profile table.
pub open spec fn profile_ok(v: TomlValue) -> bool {
    v matches TomlValue::Table(t) && {
        &&& opt_bool_at(t@, "rpath"@, "rpath"@) is Some
        &&& opt_string_at(t@, "inherits"@, "inherits"@) is Some
        &&& opt_bool_at(t@, "debug-assertions"@, "debug_assertions"@) is Some
        &&& opt_u16_at(t@, "codegen-units"@, "codegen_units"@) is Some
        &&& opt_string_at(t@, "panic"@, "panic"@) is Some
        &&& opt_bool_at(t@, "incremental"@, "incremental"@) is Some
        &&& opt_bool_at(t@, "overflow-checks"@, "overflow_checks"@) is Some
        &&& raw_table_default_ok(t@, "package"@)
    }
}

pub open spec fn profile_from(v: TomlValue, p: Profile) -> bool {
    v matches TomlValue::Table(t) && {
        &&& opt_raw_matches(raw_keyed_at(t@, "opt-level"@, "opt_level"@), p.opt_level)
        &&& opt_raw_matches(opt_raw_at(t@, "debug"@), p.debug)
        &&& opt_bool_at(t@, "rpath"@, "rpath"@) == Some(p.rpath)
        &&& opt_string_at(t@, "inherits"@, "inherits"@) == Some(p.inherits)
        &&& opt_raw_matches(opt_raw_at(t@, "lto"@), p.lto)
        &&& opt_bool_at(t@, "debug-assertions"@, "debug_assertions"@) == Some(p.debug_assertions)
        &&& opt_u16_at(t@, "codegen-units"@, "codegen_units"@) == Some(p.codegen_units)
        &&& opt_string_at(t@, "panic"@, "panic"@) == Some(p.panic)
        &&& opt_bool_at(t@, "incremental"@, "incremental"@) == Some(p.incremental)
        &&& opt_bool_at(t@, "overflow-checks"@, "overflow_checks"@) == Some(p.overflow_checks)
        &&& raw_table_default_at(t@, "package"@, p.package@)
        &&& opt_raw_matches(opt_raw_at(t@, "build-override"@), p.build_override)
    }
}

fn parse_profile(v: &TomlValue) -> (r: Result<Profile, Error>)
    ensures
        match r {
            Ok(p) => profile_ok(*v) && profile_from(*v, p),
            Err(e) => !profile_ok(*v) && e is Parse,
        },
{
    match v {
        TomlValue::Table(t) => {
            let opt_level = get_raw_keyed(t, "opt-level", "opt_level");
            let debug = get_opt_raw(t, "debug");
            let rpath = get_opt_bool(t, "rpath", "rpath")?;
            let inherits = get_opt_string(t, "inherits", "inherits")?;
            let lto = get_opt_raw(t, "lto");
            let debug_assertions = get_opt_bool(t, "debug-assertions", "debug_assertions")?;
            let codegen_units = get_opt_u16(t, "codegen-units", "codegen_units")?;
            let panic = get_opt_string(t, "panic", "panic")?;
            let incremental = get_opt_bool(t, "incremental", "incremental")?;
            let overflow_checks = get_opt_bool(t, "overflow-checks", "overflow_checks")?;
            let package = get_raw_table_default(t, "package")?;
            let build_override = get_opt_raw(t, "build-override");
            Ok(Profile {
                opt_level,
                debug,
                rpath,
                inherits,
                lto,
                debug_assertions,
                codegen_units,
                panic,
                incremental,
                overflow_checks,
                package,
                build_override,
            })
        },
        _ => Err(Error::Parse("expected a profile table".to_owned())),
    }
}

/// The five conventional profile names.
pub open spec fn profiles_fixed_key(k: Seq<char>) -> bool {
    ||| k == "release"@
    ||| k == "dev"@
    ||| k == "test"@
    ||| k == "bench"@
    ||| k == "doc"@
}

/// The custom-profile entries: every binding under a non-conventional name,
/// in document order.
pub open spec fn custom_entries(t: Seq<(String, TomlValue)>) -> Seq<(String, TomlValue)> {
    t.filter(|e: (String, TomlValue)| !profiles_fixed_key(e.0@))
}

/// An optional fixed-name profile field.
pub open spec fn opt_profile_ok(t: Seq<(String, TomlValue)>, k: Seq<char>) -> bool {
    match table_lookup(t, k) {
        None => true,
        Some(v) => profile_ok(v),
    }
}

pub open spec fn opt_profile_at(t: Seq<(String, TomlValue)>, k: Seq<char>, x: Option<Profile>) -> bool {
    match table_lookup(t, k) {
        None => x is None,
        Some(v) => x matches Some(p) && profile_from(v, p),
    }
}

fn get_opt_profile(t: &Vec<(String, TomlValue)>, k: &str) -> (r: Result<Option<Profile>, Error>)
    ensures
        match r {
            Ok(o) => opt_profile_ok(t@, k@) && opt_profile_at(t@, k@, o),
            Err(e) => !opt_profile_ok(t@, k@) && e is Parse,
        },
{
    match table_get(t, k) {
        None => Ok(None),
        Some(v) => {
            let p = parse_profile(v)?;
            Ok(Some(p))
        },
    }
}

/// The profiles section.
pub open spec fn profiles_ok(v: TomlValue) -> bool {
    v matches TomlValue::Table(t) && {
        &&& opt_profile_ok(t@, "release"@)
        &&& opt_profile_ok(t@, "dev"@)
        &&& opt_profile_ok(t@, "test"@)
        &&& opt_profile_ok(t@, "bench"@)
        &&& opt_profile_ok(t@, "doc"@)
        &&& forall|i: int|
            0 <= i < t@.len() && !profiles_fixed_key((#[trigger] t@[i]).0@) ==> profile_ok(
                t@[i].1,
            )
    }
}

pub open spec fn custom_from(ce: Seq<(String, TomlValue)>, cs: Seq<(String, Profile)>) -> bool {
    &&& cs.len() == ce.len()
    &&& forall|i: int|
        0 <= i < ce.len() ==> (#[trigger] cs[i]).0@ == ce[i].0@ && profile_from(ce[i].1, cs[i].1)
}

pub open spec fn profiles_from(v: TomlValue, ps: Profiles) -> bool {
    v matches TomlValue::Table(t) && {
        &&& opt_profile_at(t@, "release"@, ps.release)
        &&& opt_profile_at(t@, "dev"@, ps.dev)
        &&& opt_profile_at(t@, "test"@, ps.test)
        &&& opt_profile_at(t@, "bench"@, ps.bench)
        &&& opt_profile_at(t@, "doc"@, ps.doc)
        &&& custom_from(custom_entries(t@), ps.custom@)
    }
}

fn is_profiles_fixed_key(k: &str) -> (r: bool)
    ensures
        r == profiles_fixed_key(k@),
{
    str_eq(k, "release") || str_eq(k, "dev") || str_eq(k, "test") || str_eq(k, "bench") || str_eq(
        k,
        "doc",
    )
}

fn parse_profiles(v: &TomlValue) -> (r: Result<Profiles, Error>)
    ensures
        match r {
            Ok(ps) => profiles_ok(*v) && profiles_from(*v, ps),
            Err(e) => !profiles_ok(*v) && e is Parse,
        },
{
    match v {
        TomlValue::Table(t) => {
            let release = get_opt_profile(t, "release")?;
            let dev = get_opt_profile(t, "dev")?;
            let test = get_opt_profile(t, "test")?;
            let bench = get_opt_profile(t, "bench")?;
            let doc = get_opt_profile(t, "doc")?;
            let mut custom: Vec<(String, Profile)> = Vec::new();
            let mut i: usize = 0;
            while i < t.len()
                invariant
                    *v == TomlValue::Table(*t),
                    i <= t@.len(),
                    forall|j: int|
                        0 <= j < i && !profiles_fixed_key((#[trigger] t@[j]).0@) ==> profile_ok(
                            t@[j].1,
                        ),
                    custom_from(custom_entries(t@.take(i as int)), custom@),
                decreases t@.len() - i,
            {
                proof {
                    reveal(Seq::filter);
                    assert(t@.take(i + 1 as int).drop_last() =~= t@.take(i as int));
                    assert(t@.take(i + 1 as int).last() == t@[i as int]);
                }
                if !is_profiles_fixed_key(t[i].0.as_str()) {
                    let p = match parse_profile(&t[i].1) {
                        Ok(p) => p,
                        Err(e) => {
                            proof {
                                assert((*v)->Table_0 == *t);
                                assert(!profile_ok(((*v)->Table_0)@[i as int].1));
                                assert(!profiles_ok(*v));
                            }
                            return Err(e);
                        },
                    };
                    let ghost c0 = custom@;
                    custom.push((t[i].0.clone(), p));
                    proof {
                        assert(custom@.drop_last() =~= c0);
                        assert(custom_entries(t@.take(i + 1 as int)) =~= custom_entries(
                            t@.take(i as int),
                        ).push(t@[i as int]));
                        assert(custom_from(custom_entries(t@.take(i + 1 as int)), custom@));
                    }
                } else {
                    proof {
                        assert(custom_entries(t@.take(i + 1 as int)) =~= custom_entries(
                            t@.take(i as int),
                        ));
                    }
                }
                i = i + 1;
            }
            proof {
                assert(t@.take(t@.len() as int) =~= t@);
            }
            Ok(Profiles { release, dev, test, bench, doc, custom })
        },
        _ => Err(Error::Parse("expected a profiles table".to_owned())),
    }
}


/// One badge table: a required repository, a branch defaulting to `master`,
/// and optional service, id and project-name fields.
pub open spec fn badge_ok(v: TomlValue) -> bool {
    v matches TomlValue::Table(t) && {
        &&& req_string_at(t@, "repository"@) is Some
        &&& match table_lookup(t@, "branch"@) {
            None => true,
            Some(bv) => bv is Str,
        }
        &&& opt_string_at(t@, "service"@, "service"@) is Some
        &&& opt_string_at(t@, "id"@, "id"@) is Some
        &&& opt_string_at(t@, "project-name"@, "project_name"@) is Some
    }
}

pub open spec fn badge_from(v: TomlValue, b: Badge) -> bool {
    v matches TomlValue::Table(t) && {
        &&& req_string_at(t@, "repository"@) == Some(b.repository)
        &&& match table_lookup(t@, "branch"@) {
            None => b.branch@ == "master"@,
            Some(bv) => bv matches TomlValue::Str(s) && b.branch == s,
        }
        &&& opt_string_at(t@, "service"@, "service"@) == Some(b.service)
        &&& opt_string_at(t@, "id"@, "id"@) == Some(b.id)
        &&& opt_string_at(t@, "project-name"@, "project_name"@) == Some(b.project_name)
    }
}

fn parse_badge(v: &TomlValue) -> (r: Result<Badge, Error>)
    ensures
        match r {
            Ok(b) => badge_ok(*v) && badge_from(*v, b),
            Err(e) => !badge_ok(*v) && e is Parse,
        },
{
    match v {
        TomlValue::Table(t) => {
            let repository = get_req_string(t, "repository")?;
            let branch = match table_get(t, "branch") {
                None => "master".to_owned(),
                Some(TomlValue::Str(s)) => s.clone(),
                Some(_) => {
                    return Err(Error::Parse("expected a branch string".to_owned()));
                },
            };
            let service = get_opt_string(t, "service", "service")?;
            let id = get_opt_string(t, "id", "id")?;
            let project_name = get_opt_string(t, "project-name", "project_name")?;
            Ok(Badge { repository, branch, service, id, project_name })
        },
        _ => Err(Error::Parse("expected a badge table".to_owned())),
    }
}

/// A badge field that tolerates being malformed: a present but ill-shaped
/// badge reads as absent rather than failing the whole parse.
pub open spec fn opt_badge_lenient_at(
    t: Seq<(String, TomlValue)>,
    k: Seq<char>,
    x: Option<Badge>,
) -> bool {
    match table_lookup(t, k) {
        None => x is None,
        Some(v) => if badge_ok(v) {
            x matches Some(b) && badge_from(v, b)
        } else {
            x is None
        },
    }
}

fn get_opt_badge_lenient(t: &Vec<(String, TomlValue)>, k: &str) -> (r: Option<Badge>)
    ensures
        opt_badge_lenient_at(t@, k@, r),
{
    match table_get(t, k) {
        None => None,
        Some(v) => match parse_badge(v) {
            Ok(b) => Some(b),
            Err(_) => None,
        },
    }
}

/// The maintenance badge a value holds, when it is well-shaped.
pub open spec fn maintenance_of(v: TomlValue) -> Option<Maintenance> {
    match v {
        TomlValue::Table(t) => match table_lookup(t@, "status"@) {
            Some(sv) => match maintenance_status_of(sv) {
                Some(st) => Some(Maintenance { status: st }),
                None => None,
            },
            None => None,
        },
        _ => None,
    }
}

/// The maintenance field, falling back to its documented default when absent
/// or malformed.
pub open spec fn maintenance_lenient_at(t: Seq<(String, TomlValue)>, x: Maintenance) -> bool {
    match table_lookup(t, "maintenance"@) {
        None => x == (Maintenance { status: MaintenanceStatus::NoStatus }),
        Some(v) => match maintenance_of(v) {
            Some(m) => x == m,
            None => x == (Maintenance { status: MaintenanceStatus::NoStatus }),
        },
    }
}

fn get_maintenance_lenient(t: &Vec<(String, TomlValue)>) -> (r: Maintenance)
    ensures
        maintenance_lenient_at(t@, r),
{
    match table_get(t, "maintenance") {
        None => Maintenance { status: MaintenanceStatus::NoStatus },
        Some(v) => match v {
            TomlValue::Table(mt) => match table_get(mt, "status") {
                Some(sv) => match parse_maintenance_status(sv) {
                    Ok(st) => Maintenance { status: st },
                    Err(_) => Maintenance { status: MaintenanceStatus::NoStatus },
                },
                None => Maintenance { status: MaintenanceStatus::NoStatus },
            },
            _ => Maintenance { status: MaintenanceStatus::NoStatus },
        },
    }
}

/// The badges section: any table is accepted, and each badge tolerates being
/// malformed, so only a non-table value is an error.
pub open spec fn badges_ok(v: TomlValue) -> bool {
    v is Table
}

pub open spec fn badges_from(v: TomlValue, b: Badges) -> bool {
    v matches TomlValue::Table(t) && {
        &&& opt_badge_lenient_at(t@, "appveyor"@, b.appveyor)
        &&& opt_badge_lenient_at(t@, "circle-ci"@, b.circle_ci)
        &&& opt_badge_lenient_at(t@, "gitlab"@, b.gitlab)
        &&& opt_badge_lenient_at(t@, "travis-ci"@, b.travis_ci)
        &&& opt_badge_lenient_at(t@, "codecov"@, b.codecov)
        &&& opt_badge_lenient_at(t@, "coveralls"@, b.coveralls)
        &&& opt_badge_lenient_at(
            t@,
            "is-it-maintained-issue-resolution"@,
            b.is_it_maintained_issue_resolution,
        )
        &&& opt_badge_lenient_at(t@, "is-it-maintained-open-issues"@, b.is_it_maintained_open_issues)
        &&& maintenance_lenient_at(t@, b.maintenance)
    }
}

fn parse_badges(v: &TomlValue) -> (r: Result<Badges, Error>)
    ensures
        match r {
            Ok(b) => badges_ok(*v) && badges_from(*v, b),
            Err(e) => !badges_ok(*v) && e is Parse,
        },
{
    match v {
        TomlValue::Table(t) => Ok(
            Badges {
                appveyor: get_opt_badge_lenient(t, "appveyor"),
                circle_ci: get_opt_badge_lenient(t, "circle-ci"),
                gitlab: get_opt_badge_lenient(t, "gitlab"),
                travis_ci: get_opt_badge_lenient(t, "travis-ci"),
                codecov: get_opt_badge_lenient(t, "codecov"),
                coveralls: get_opt_badge_lenient(t, "coveralls"),
                is_it_maintained_issue_resolution: get_opt_badge_lenient(
                    t,
                    "is-it-maintained-issue-resolution",
                ),
                is_it_maintained_open_issues: get_opt_badge_lenient(
                    t,
                    "is-it-maintained-open-issues",
                ),
                maintenance: get_maintenance_lenient(t),
            },
        ),
        _ => Err(Error::Parse("expected a badges table".to_owned())),
    }
}

/// The workspace-inheritable package fields.
pub open spec fn wsp_ok(v: TomlValue) -> bool {
    v matches TomlValue::Table(t) && {
        &&& opt_edition_at(t@, "edition"@) is Some
        &&& opt_string_at(t@, "version"@, "version"@) is Some
        &&& opt_strings_at(t@, "authors"@, "authors"@) is Some
        &&& opt_string_at(t@, "description"@, "description"@) is Some
        &&& opt_string_at(t@, "homepage"@, "homepage"@) is Some
        &&& opt_string_at(t@, "documentation"@, "documentation"@) is Some
        &&& opt_sob_at(t@, "readme"@) is Some
        &&& opt_strings_at(t@, "keywords"@, "keywords"@) is Some
        &&& opt_strings_at(t@, "categories"@, "categories"@) is Some
        &&& opt_string_at(t@, "license"@, "license"@) is Some
        &&& opt_string_at(t@, "license-file"@, "license-file"@) is Some
        &&& opt_publish_ok(t@, "publish"@)
        &&& opt_strings_at(t@, "exclude"@, "exclude"@) is Some
        &&& opt_strings_at(t@, "include"@, "include"@) is Some
        &&& opt_string_at(t@, "repository"@, "repository"@) is Some
        &&& opt_string_at(t@, "rust-version"@, "rust-version"@) is Some
    }
}

pub open spec fn wsp_from(v: TomlValue, w: WorkspacePackage) -> bool {
    v matches TomlValue::Table(t) && {
        &&& opt_edition_at(t@, "edition"@) == Some(w.edition)
        &&& opt_string_at(t@, "version"@, "version"@) == Some(w.version)
        &&& opt_strings_at(t@, "authors"@, "authors"@) == Some(opt_vec_view(w.authors))
        &&& opt_string_at(t@, "description"@, "description"@) == Some(w.description)
        &&& opt_string_at(t@, "homepage"@, "homepage"@) == Some(w.homepage)
        &&& opt_string_at(t@, "documentation"@, "documentation"@) == Some(w.documentation)
        &&& opt_sob_at(t@, "readme"@) == Some(w.readme)
        &&& opt_strings_at(t@, "keywords"@, "keywords"@) == Some(opt_vec_view(w.keywords))
        &&& opt_strings_at(t@, "categories"@, "categories"@) == Some(opt_vec_view(w.categories))
        &&& opt_string_at(t@, "license"@, "license"@) == Some(w.license)
        &&& opt_string_at(t@, "license-file"@, "license-file"@) == Some(w.license_file)
        &&& opt_publish_at(t@, "publish"@, w.publish)
        &&& opt_strings_at(t@, "exclude"@, "exclude"@) == Some(opt_vec_view(w.exclude))
        &&& opt_strings_at(t@, "include"@, "include"@) == Some(opt_vec_view(w.include_files))
        &&& opt_string_at(t@, "repository"@, "repository"@) == Some(w.repository)
        &&& opt_string_at(t@, "rust-version"@, "rust-version"@) == Some(w.rust_version)
    }
}

fn parse_wsp(v: &TomlValue) -> (r: Result<WorkspacePackage, Error>)
    ensures
        match r {
            Ok(w) => wsp_ok(*v) && wsp_from(*v, w),
            Err(e) => !wsp_ok(*v) && e is Parse,
        },
{
    match v {
        TomlValue::Table(t) => {
            let edition = get_opt_edition(t, "edition")?;
            let version = get_opt_string(t, "version", "version")?;
            let authors = get_opt_strings(t, "authors", "authors")?;
            let description = get_opt_string(t, "description", "description")?;
            let homepage = get_opt_string(t, "homepage", "homepage")?;
            let documentation = get_opt_string(t, "documentation", "documentation")?;
            let readme = get_opt_sob(t, "readme")?;
            let keywords = get_opt_strings(t, "keywords", "keywords")?;
            let categories = get_opt_strings(t, "categories", "categories")?;
            let license = get_opt_string(t, "license", "license")?;
            let license_file = get_opt_string(t, "license-file", "license-file")?;
            let publish = get_opt_publish(t, "publish")?;
            let exclude = get_opt_strings(t, "exclude", "exclude")?;
            let include_files = get_opt_strings(t, "include", "include")?;
            let repository = get_opt_string(t, "repository", "repository")?;
            let rust_version = get_opt_string(t, "rust-version", "rust-version")?;
            Ok(WorkspacePackage {
                edition,
                version,
                authors,
                description,
                homepage,
                documentation,
                readme,
                keywords,
                categories,
                license,
                license_file,
                publish,
                exclude,
                include_files,
                repository,
                rust_version,
            })
        },
        _ => Err(Error::Parse("expected a workspace package table".to_owned())),
    }
}

/// The workspace section.
pub open spec fn workspace_ok(v: TomlValue) -> bool {
    v matches TomlValue::Table(t) && {
        &&& strings_default_at(t@, "members"@, "members"@) is Some
        &&& opt_strings_at(t@, "default-members"@, "default_members"@) is Some
        &&& opt_strings_at(t@, "exclude"@, "exclude"@) is Some
        &&& opt_resolver_at(t@, "resolver"@) is Some
        &&& opt_deps_ok(t@, "dependencies"@, "dependencies"@)
        &&& match table_lookup(t@, "package"@) {
            None => true,
            Some(pv) => wsp_ok(pv),
        }
    }
}

pub open spec fn workspace_from(v: TomlValue, w: Workspace) -> bool {
    v matches TomlValue::Table(t) && {
        &&& strings_default_at(t@, "members"@, "members"@) == Some(w.members@)
        &&& opt_strings_at(t@, "default-members"@, "default_members"@) == Some(
            opt_vec_view(w.default_members),
        )
        &&& opt_strings_at(t@, "exclude"@, "exclude"@) == Some(opt_vec_view(w.exclude))
        &&& opt_resolver_at(t@, "resolver"@) == Some(w.resolver)
        &&& opt_deps_at(t@, "dependencies"@, "dependencies"@, w.dependencies)
        &&& match table_lookup(t@, "package"@) {
            None => w.package is None,
            Some(pv) => w.package matches Some(wp) && wsp_from(pv, wp),
        }
    }
}

fn parse_workspace(v: &TomlValue) -> (r: Result<Workspace, Error>)
    ensures
        match r {
            Ok(w) => workspace_ok(*v) && workspace_from(*v, w),
            Err(e) => !workspace_ok(*v) && e is Parse,
        },
{
    match v {
        TomlValue::Table(t) => {
            let members = get_strings_default(t, "members", "members")?;
            let default_members = get_opt_strings(t, "default-members", "default_members")?;
            let exclude = get_opt_strings(t, "exclude", "exclude")?;
            let resolver = get_opt_resolver(t, "resolver")?;
            let dependencies = get_opt_deps(t, "dependencies", "dependencies")?;
            let package = match table_get(t, "package") {
                None => None,
                Some(pv) => Some(parse_wsp(pv)?),
            };
            Ok(Workspace { members, default_members, exclude, resolver, dependencies, package })
        },
        _ => Err(Error::Parse("expected a workspace table".to_owned())),
    }
}

/// The package identity record, read from the bindings of a table.
pub open spec fn package_table_ok(t: Seq<(String, TomlValue)>) -> bool {
    &&& req_string_at(t, "name"@) is Some
    &&& opt_inh_edition_at(t, "edition"@) is Some
    &&& req_inh_string_at(t, "version"@) is Some
    &&& opt_string_at(t, "workspace"@, "workspace"@) is Some
    &&& opt_inh_strings_at(t, "authors"@) is Some
    &&& opt_string_at(t, "links"@, "links"@) is Some
    &&& opt_inh_string_at(t, "description"@) is Some
    &&& opt_inh_string_at(t, "homepage"@) is Some
    &&& opt_inh_string_at(t, "documentation"@) is Some
    &&& opt_inh_sob_at(t, "readme"@) is Some
    &&& opt_inh_strings_at(t, "keywords"@) is Some
    &&& opt_inh_strings_at(t, "categories"@) is Some
    &&& opt_inh_string_at(t, "license"@) is Some
    &&& opt_inh_string_at(t, "license-file"@) is Some
    &&& opt_inh_string_at(t, "repository"@) is Some
    &&& opt_inh_string_at(t, "rust-version"@) is Some
    &&& opt_inh_strings_at(t, "exclude"@) is Some
    &&& opt_inh_strings_at(t, "include"@) is Some
    &&& opt_string_at(t, "default_run"@, "default_run"@) is Some
    &&& bool_default_at(t, "autobins"@, "autobins"@, true) is Some
    &&& bool_default_at(t, "autoexamples"@, "autoexamples"@, true) is Some
    &&& bool_default_at(t, "autotests"@, "autotests"@, true) is Some
    &&& bool_default_at(t, "autobenches"@, "autobenches"@, true) is Some
    &&& opt_inh_publish_ok(t, "publish"@)
    &&& opt_resolver_at(t, "resolver"@) is Some
}

pub open spec fn package_table_from(t: Seq<(String, TomlValue)>, p: Package) -> bool {
    &&& req_string_at(t, "name"@) == Some(p.name)
    &&& opt_inh_edition_at(t, "edition"@) == Some(p.edition)
    &&& req_inh_string_at(t, "version"@) == Some(p.version)
    &&& opt_raw_matches(opt_raw_at(t, "build"@), p.build)
    &&& opt_string_at(t, "workspace"@, "workspace"@) == Some(p.workspace)
    &&& opt_inh_strings_at(t, "authors"@) == Some(opt_inh_strings_view(p.authors))
    &&& opt_string_at(t, "links"@, "links"@) == Some(p.links)
    &&& opt_inh_string_at(t, "description"@) == Some(p.description)
    &&& opt_inh_string_at(t, "homepage"@) == Some(p.homepage)
    &&& opt_inh_string_at(t, "documentation"@) == Some(p.documentation)
    &&& opt_inh_sob_at(t, "readme"@) == Some(p.readme)
    &&& opt_inh_strings_at(t, "keywords"@) == Some(opt_inh_strings_view(p.keywords))
    &&& opt_inh_strings_at(t, "categories"@) == Some(opt_inh_strings_view(p.categories))
    &&& opt_inh_string_at(t, "license"@) == Some(p.license)
    &&& opt_inh_string_at(t, "license-file"@) == Some(p.license_file)
    &&& opt_inh_string_at(t, "repository"@) == Some(p.repository)
    &&& opt_raw_matches(opt_raw_at(t, "metadata"@), p.metadata)
    &&& opt_inh_string_at(t, "rust-version"@) == Some(p.rust_version)
    &&& opt_inh_strings_at(t, "exclude"@) == Some(opt_inh_strings_view(p.exclude))
    &&& opt_inh_strings_at(t, "include"@) == Some(opt_inh_strings_view(p.include_files))
    &&& opt_string_at(t, "default_run"@, "default_run"@) == Some(p.default_run)
    &&& bool_default_at(t, "autobins"@, "autobins"@, true) == Some(p.autobins)
    &&& bool_default_at(t, "autoexamples"@, "autoexamples"@, true) == Some(p.autoexamples)
    &&& bool_default_at(t, "autotests"@, "autotests"@, true) == Some(p.autotests)
    &&& bool_default_at(t, "autobenches"@, "autobenches"@, true) == Some(p.autobenches)
    &&& opt_inh_publish_at(t, "publish"@, p.publish)
    &&& opt_resolver_at(t, "resolver"@) == Some(p.resolver)
}

pub(crate) fn parse_package_table(t: &Vec<(String, TomlValue)>) -> (r: Result<Package, Error>)
    ensures
        match r {
            Ok(p) => package_table_ok(t@) && package_table_from(t@, p),
            Err(e) => !package_table_ok(t@) && e is Parse,
        },
{
    let name = get_req_string(t, "name")?;
    let edition = get_opt_inh_edition(t, "edition")?;
    let version = get_req_inh_string(t, "version")?;
    let build = get_opt_raw(t, "build");
    let workspace = get_opt_string(t, "workspace", "workspace")?;
    let authors = get_opt_inh_strings(t, "authors")?;
    let links = get_opt_string(t, "links", "links")?;
    let description = get_opt_inh_string(t, "description")?;
    let homepage = get_opt_inh_string(t, "homepage")?;
    let documentation = get_opt_inh_string(t, "documentation")?;
    let readme = get_opt_inh_sob(t, "readme")?;
    let keywords = get_opt_inh_strings(t, "keywords")?;
    let categories = get_opt_inh_strings(t, "categories")?;
    let license = get_opt_inh_string(t, "license")?;
    let license_file = get_opt_inh_string(t, "license-file")?;
    let repository = get_opt_inh_string(t, "repository")?;
    let metadata = get_opt_raw(t, "metadata");
    let rust_version = get_opt_inh_string(t, "rust-version")?;
    let exclude = get_opt_inh_strings(t, "exclude")?;
    let include_files = get_opt_inh_strings(t, "include")?;
    let default_run = get_opt_string(t, "default_run", "default_run")?;
    let autobins = get_bool_default(t, "autobins", "autobins", true)?;
    let autoexamples = get_bool_default(t, "autoexamples", "autoexamples", true)?;
    let autotests = get_bool_default(t, "autotests", "autotests", true)?;
    let autobenches = get_bool_default(t, "autobenches", "autobenches", true)?;
    let publish = get_opt_inh_publish(t, "publish")?;
    let resolver = get_opt_resolver(t, "resolver")?;
    Ok(Package {
        name,
        edition,
        version,
        build,
        workspace,
        authors,
        links,
        description,
        homepage,
        documentation,
        readme,
        keywords,
        categories,
        license,
        license_file,
        repository,
        metadata,
        rust_version,
        exclude,
        include_files,
        default_run,
        autobins,
        autoexamples,
        autotests,
        autobenches,
        publish,
        resolver,
    })
}

/// The package section as a value.
pub open spec fn package_value_ok(v: TomlValue) -> bool {
    v matches TomlValue::Table(t) && package_table_ok(t@)
}

pub open spec fn package_value_from(v: TomlValue, p: Package) -> bool {
    v matches TomlValue::Table(t) && package_table_from(t@, p)
}

pub(crate) fn parse_package_value(v: &TomlValue) -> (r: Result<Package, Error>)
    ensures
        match r {
            Ok(p) => package_value_ok(*v) && package_value_from(*v, p),
            Err(e) => !package_value_ok(*v) && e is Parse,
        },
{
    match v {
        TomlValue::Table(t) => parse_package_table(t),
        _ => Err(Error::Parse("expected a package table".to_owned())),
    }
}

/// The whole manifest document, without the legacy fallback.
pub open spec fn manifest_ok(v: TomlValue) -> bool {
    v matches TomlValue::Table(t) && {
        &&& match table_lookup(t@, "package"@) {
            None => true,
            Some(pv) => package_value_ok(pv),
        }
        &&& opt_strings_at(t@, "cargo-features"@, "cargo-features"@) is Some
        &&& match table_lookup(t@, "workspace"@) {
            None => true,
            Some(wv) => workspace_ok(wv),
        }
        &&& opt_deps_ok(t@, "dependencies"@, "dependencies"@)
        &&& opt_deps_ok(t@, "dev-dependencies"@, "dev_dependencies"@)
        &&& opt_deps_ok(t@, "build-dependencies"@, "build_dependencies"@)
        &&& match keyed(t@, "target"@, "target"@) {
            None => true,
            Some(tv) => targets_ok(tv),
        }
        &&& match table_lookup(t@, "features"@) {
            None => true,
            Some(fv) => features_ok(fv),
        }
        &&& match table_lookup(t@, "bin"@) {
            None => true,
            Some(bv) => products_ok(bv),
        }
        &&& match table_lookup(t@, "bench"@) {
            None => true,
            Some(bv) => products_ok(bv),
        }
        &&& match table_lookup(t@, "test"@) {
            None => true,
            Some(bv) => products_ok(bv),
        }
        &&& match table_lookup(t@, "example"@) {
            None => true,
            Some(bv) => products_ok(bv),
        }
        &&& match table_lookup(t@, "patch"@) {
            None => true,
            Some(pv) => patch_ok(pv),
        }
        &&& match table_lookup(t@, "lib"@) {
            None => true,
            Some(lv) => product_ok(lv),
        }
        &&& match table_lookup(t@, "profile"@) {
            None => true,
            Some(pv) => profiles_ok(pv),
        }
        &&& match table_lookup(t@, "badges"@) {
            None => true,
            Some(bv) => badges_ok(bv),
        }
    }
}

/// Every manifest section except the package, as read from the document.
pub open spec fn manifest_rest_from(v: TomlValue, m: Manifest) -> bool {
    v matches TomlValue::Table(t) && {
        &&& opt_strings_at(t@, "cargo-features"@, "cargo-features"@) == Some(
            opt_vec_view(m.cargo_features),
        )
        &&& match table_lookup(t@, "workspace"@) {
            None => m.workspace is None,
            Some(wv) => m.workspace matches Some(w) && workspace_from(wv, w),
        }
        &&& opt_deps_at(t@, "dependencies"@, "dependencies"@, m.dependencies)
        &&& opt_deps_at(t@, "dev-dependencies"@, "dev_dependencies"@, m.dev_dependencies)
        &&& opt_deps_at(t@, "build-dependencies"@, "build_dependencies"@, m.build_dependencies)
        &&& match keyed(t@, "target"@, "target"@) {
            None => m.target is None,
            Some(tv) => m.target matches Some(ts) && targets_from(tv, ts@),
        }
        &&& match table_lookup(t@, "features"@) {
            None => m.features is None,
            Some(fv) => m.features matches Some(fs) && features_from(fv, fs@),
        }
        &&& match table_lookup(t@, "bin"@) {
            None => m.bin is None,
            Some(bv) => m.bin matches Some(ps) && products_from(bv, ps@),
        }
        &&& match table_lookup(t@, "bench"@) {
            None => m.bench is None,
            Some(bv) => m.bench matches Some(ps) && products_from(bv, ps@),
        }
        &&& match table_lookup(t@, "test"@) {
            None => m.test is None,
            Some(bv) => m.test matches Some(ps) && products_from(bv, ps@),
        }
        &&& match table_lookup(t@, "example"@) {
            None => m.example is None,
            Some(bv) => m.example matches Some(ps) && products_from(bv, ps@),
        }
        &&& match table_lookup(t@, "patch"@) {
            None => m.patch is None,
            Some(pv) => m.patch matches Some(ps) && patch_from(pv, ps@),
        }
        &&& match table_lookup(t@, "lib"@) {
            None => m.lib is None,
            Some(lv) => m.lib matches Some(l) && product_from(lv, l),
        }
        &&& match table_lookup(t@, "profile"@) {
            None => m.profile is None,
            Some(pv) => m.profile matches Some(ps) && profiles_from(pv, ps),
        }
        &&& match table_lookup(t@, "badges"@) {
            None => m.badges is None,
            Some(bv) => m.badges matches Some(b) && badges_from(bv, b),
        }
    }
}

pub open spec fn manifest_from(v: TomlValue, m: Manifest) -> bool {
    &&& manifest_rest_from(v, m)
    &&& v matches TomlValue::Table(t) && match table_lookup(t@, "package"@) {
        None => m.package is None,
        Some(pv) => m.package matches Some(p) && package_value_from(pv, p),
    }
}

pub(crate) fn parse_manifest_value(v: &TomlValue) -> (r: Result<Manifest, Error>)
    ensures
        match r {
            Ok(m) => manifest_ok(*v) && manifest_from(*v, m),
            Err(e) => !manifest_ok(*v) && e is Parse,
        },
{
    match v {
        TomlValue::Table(t) => {
            let package = match table_get(t, "package") {
                None => None,
                Some(pv) => Some(parse_package_value(pv)?),
            };
            let cargo_features = get_opt_strings(t, "cargo-features", "cargo-features")?;
            let workspace = match table_get(t, "workspace") {
                None => None,
                Some(wv) => Some(parse_workspace(wv)?),
            };
            let dependencies = get_opt_deps(t, "dependencies", "dependencies")?;
            let dev_dependencies = get_opt_deps(t, "dev-dependencies", "dev_dependencies")?;
            let build_dependencies = get_opt_deps(t, "build-dependencies", "build_dependencies")?;
            let target = match get_keyed(t, "target", "target") {
                None => None,
                Some(tv) => Some(parse_targets(tv)?),
            };
            let features = match table_get(t, "features") {
                None => None,
                Some(fv) => Some(parse_features(fv)?),
            };
            let bin = match table_get(t, "bin") {
                None => None,
                Some(bv) => Some(parse_products(bv)?),
            };
            let bench = match table_get(t, "bench") {
                None => None,
                Some(bv) => Some(parse_products(bv)?),
            };
            let test = match table_get(t, "test") {
                None => None,
                Some(bv) => Some(parse_products(bv)?),
            };
            let example = match table_get(t, "example") {
                None => None,
                Some(bv) => Some(parse_products(bv)?),
            };
            let patch = match table_get(t, "patch") {
                None => None,
                Some(pv) => Some(parse_patch(pv)?),
            };
            let lib = match table_get(t, "lib") {
                None => None,
                Some(lv) => Some(parse_product(lv)?),
            };
            let profile = match table_get(t, "profile") {
                None => None,
                Some(pv) => Some(parse_profiles(pv)?),
            };
            let badges = match table_get(t, "badges") {
                None => None,
                Some(bv) => Some(parse_badges(bv)?),
            };
            Ok(Manifest {
                package,
                cargo_features,
                workspace,
                dependencies,
                dev_dependencies,
                build_dependencies,
                target,
                features,
                bin,
                bench,
                test,
                example,
                patch,
                lib,
                profile,
                badges,
            })
        },
        _ => Err(Error::Parse("expected a table at the document root".to_owned())),
    }
}

} // verus!
