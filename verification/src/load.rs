use vstd::prelude::*;
use crate::de::manifest_from;
use crate::de::manifest_ok;
use crate::de::manifest_rest_from;
use crate::de::package_table_from;
use crate::de::package_table_ok;
use crate::de::package_value_from;
use crate::de::package_value_ok;
use crate::de::parse_manifest_value;
use crate::de::parse_package_table;
use crate::de::parse_package_value;
use crate::error::Error;
use crate::model::Manifest;
use crate::toml_doc::TomlValue;
use crate::toml_doc::table_get;
use crate::toml_doc::table_lookup;

verus! {

/// The characters the bytes decode to, when they are valid UTF-8 text.
pub uninterp spec fn utf8_decode(bytes: Seq<u8>) -> Option<Seq<char>>;

/// The document value the text parses to, when it is well-formed TOML.
pub uninterp spec fn toml_doc(text: Seq<char>) -> Option<TomlValue>;

/// The document value a raw parsed node stands for.
pub uninterp spec fn toml_model(v: toml::Value) -> TomlValue;

#[verifier::external_type_specification]
#[verifier::external_body]
pub struct ExTomlRaw(toml::Value);

/// Relies on std::str::from_utf8: yields the bytes as text exactly when they
/// are valid UTF-8, and reports the failure otherwise.
#[verifier::external_body]
fn utf8_to_str(b: &[u8]) -> (r: Result<&str, Error>)
    ensures
        match r {
            Ok(s) => utf8_decode(b@) == Some(s@),
            Err(e) => utf8_decode(b@) is None && e is Utf8,
        },
{
    std::str::from_utf8(b).map_err(|e| Error::Utf8(e.to_string()))
}

/// Relies on toml::from_str::<toml::Value>: parses TOML text into its document
/// value exactly when the text is well-formed, and reports the syntax error
/// with its position otherwise.
#[verifier::external_body]
fn toml_parse_text(s: &str) -> (r: Result<toml::Value, Error>)
    ensures
        match r {
            Ok(v) => toml_doc(s@) == Some(toml_model(v)),
            Err(e) => toml_doc(s@) is None && e is Parse,
        },
{
    toml::from_str::<toml::Value>(s).map_err(|e| Error::Parse(e.to_string()))
}

/// Relies on toml::Value's variants: converts each node one-for-one, keeping
/// floats and datetimes in their textual form and tables in document order.
#[verifier::external_body]
fn toml_model_value(v: &toml::Value) -> (r: TomlValue)
    ensures
        r == toml_model(*v),
{
    match v {
        toml::Value::String(s) => TomlValue::Str(s.clone()),
        toml::Value::Integer(i) => TomlValue::Int(*i),
        toml::Value::Float(x) => TomlValue::Float(x.to_string()),
        toml::Value::Boolean(b) => TomlValue::Bool(*b),
        toml::Value::Datetime(d) => TomlValue::Datetime(d.to_string()),
        toml::Value::Array(a) => TomlValue::Array(a.iter().map(toml_model_value).collect()),
        toml::Value::Table(t) => TomlValue::Table(
            t.iter().map(|(k, w)| (k.clone(), toml_model_value(w))).collect(),
        ),
    }
}

/// The legacy fallback applies: the document has neither a package nor a
/// workspace section.
pub open spec fn legacy_applies(doc: TomlValue) -> bool {
    doc matches TomlValue::Table(t) && table_lookup(t@, "package"@) is None && table_lookup(
        t@,
        "workspace"@,
    ) is None
}

/// The whole document reads as a manifest, the legacy fallback included.
pub open spec fn manifest_doc_ok(doc: TomlValue) -> bool {
    &&& manifest_ok(doc)
    &&& legacy_applies(doc) ==> match table_lookup(doc->Table_0@, "project"@) {
        Some(pv) => package_value_ok(pv),
        None => package_table_ok(doc->Table_0@),
    }
}

/// The manifest the document reads as: every ordinary section, with the
/// package taken from the `package` section, or — when both `package` and
/// `workspace` are absent — from the `project` section if there is one, else
/// from the document root itself.
pub open spec fn manifest_doc_from(doc: TomlValue, m: Manifest) -> bool {
    &&& manifest_rest_from(doc, m)
    &&& if legacy_applies(doc) {
        match table_lookup(doc->Table_0@, "project"@) {
            Some(pv) => m.package matches Some(p) && package_value_from(pv, p),
            None => m.package matches Some(p) && package_table_from(doc->Table_0@, p),
        }
    } else {
        doc matches TomlValue::Table(t) && match table_lookup(t@, "package"@) {
            None => m.package is None,
            Some(pv) => m.package matches Some(p) && package_value_from(pv, p),
        }
    }
}

/// The bytes load as a manifest: they decode as UTF-8, parse as TOML, and the
/// document reads as a manifest.
pub open spec fn from_slice_ok(bytes: Seq<u8>) -> bool {
    match utf8_decode(bytes) {
        None => false,
        Some(text) => match toml_doc(text) {
            None => false,
            Some(doc) => manifest_doc_ok(doc),
        },
    }
}

/// The manifest the bytes load as.
pub open spec fn from_slice_from(bytes: Seq<u8>, m: Manifest) -> bool {
    match utf8_decode(bytes) {
        None => false,
        Some(text) => match toml_doc(text) {
            None => false,
            Some(doc) => manifest_doc_from(doc, m),
        },
    }
}

impl Manifest {
    /// Parse the contents of a manifest file already loaded as a byte slice.
    ///
    /// A document that lacks both a `package` and a `workspace` section is
    /// repaired through the legacy fallback: its `project` section, or failing
    /// that the whole document root, is read as the package.
    ///
    /// It does not complete the implicit data; see
    /// `complete_from_abstract_filesystem`.
    pub fn from_slice(bytes: &[u8]) -> (r: Result<Self, Error>)
        ensures
            match r {
                Ok(m) => from_slice_ok(bytes@) && from_slice_from(bytes@, m),
                Err(e) => {
                    &&& !from_slice_ok(bytes@)
                    &&& utf8_decode(bytes@) is None ==> e is Utf8
                    &&& utf8_decode(bytes@) is Some ==> e is Parse
                },
            },
    {
        let s = utf8_to_str(bytes)?;
        let raw = toml_parse_text(s)?;
        let doc = toml_model_value(&raw);
        let mut m = match parse_manifest_value(&doc) {
            Ok(m) => m,
            Err(e) => {
                return Err(e);
            },
        };
        if m.package.is_none() && m.workspace.is_none() {
            match &doc {
                TomlValue::Table(t) => {
                    match table_get(t, "project") {
                        Some(pv) => {
                            let p = parse_package_value(pv)?;
                            m.package = Some(p);
                        },
                        None => {
                            let p = parse_package_table(t)?;
                            m.package = Some(p);
                        },
                    }
                },
                _ => {
                    proof {
                        assert(false);
                    }
                },
            }
        }
        Ok(m)
    }

    /// Read a manifest from a document value directly, without the legacy
    /// fallback.
    pub fn from_toml_value(doc: &TomlValue) -> (r: Result<Self, Error>)
        ensures
            match r {
                Ok(m) => manifest_ok(*doc) && manifest_from(*doc, m),
                Err(e) => !manifest_ok(*doc) && e is Parse,
            },
    {
        parse_manifest_value(doc)
    }

    /// Parse a manifest from a byte slice, keeping the raw `package.metadata`
    /// value in the model; the metadata payload stays the untyped document
    /// value.
    pub fn from_slice_with_metadata(bytes: &[u8]) -> (r: Result<Self, Error>)
        ensures
            match r {
                Ok(m) => from_slice_ok(bytes@) && from_slice_from(bytes@, m),
                Err(e) => {
                    &&& !from_slice_ok(bytes@)
                    &&& utf8_decode(bytes@) is None ==> e is Utf8
                    &&& utf8_decode(bytes@) is Some ==> e is Parse
                },
            },
    {
        Self::from_slice(bytes)
    }
}

/// Legacy fallback law: when a document lacks both `package` and `workspace`,
/// the manifest it loads as has a package read from the `project` section if
/// the document has one, and otherwise from the whole document root.
pub proof fn lemma_legacy_fallback(doc: TomlValue, m: Manifest)
    requires
        legacy_applies(doc),
        manifest_doc_from(doc, m),
    ensures
        match table_lookup(doc->Table_0@, "project"@) {
            Some(pv) => m.package matches Some(p) && package_value_from(pv, p),
            None => m.package matches Some(p) && package_table_from(doc->Table_0@, p),
        },
{
}

} // verus!
