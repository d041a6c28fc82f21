//! The parsing boundary: the toml crate turns configuration text into a
//! document, and the document is carried over into the library's own
//! `Value` model. Everything behind `parse_toml` is trusted; everything
//! from `parse_config` on is verified.

use vstd::prelude::*;
use toml::Value as TomlValue;
use toml::de::Error as TomlDeError;
use crate::error::{ErrModel, GenError};

verus! {

/// Shape declaration for `toml::Value`, the parser's document type.
#[verifier::external_type_specification]
#[verifier::external_body]
pub struct ExTomlValue(TomlValue);

/// Shape declaration for `toml::de::Error`, the parser's error type.
#[verifier::external_type_specification]
#[verifier::external_body]
pub struct ExTomlDeError(TomlDeError);

/// The document a text parses to when it is valid TOML, in the library's
/// model, and `None` when it is not: parsing is a function of the text
/// alone.
pub uninterp spec fn toml_document(s: Seq<char>) -> Option<crate::value::Value>;

/// Relies on `toml::Value`: each variant is carried one for one into the
/// library's model; integers, floats and datetimes hold nothing the
/// generator reads, and become `Value::Other`.
#[verifier::external_body]
fn value_from_toml(v: &TomlValue) -> crate::value::Value {
    match v {
        TomlValue::String(s) => crate::value::Value::Str(s.clone()),
        TomlValue::Boolean(b) => crate::value::Value::Bool(*b),
        TomlValue::Array(a) => crate::value::Value::Arr(a.iter().map(|x| value_from_toml(x)).collect()),
        TomlValue::Table(t) => crate::value::Value::Table(
            t.iter().map(|(k, x)| (k.clone(), value_from_toml(x))).collect(),
        ),
        _ => crate::value::Value::Other,
    }
}

/// Relies on `toml::from_str`: it deterministically parses the text into a
/// document, or reports an error when the text is not valid TOML.
#[verifier::external_body]
fn parse_toml(s: &str) -> (r: Result<crate::value::Value, TomlDeError>)
    ensures
        r is Ok <==> toml_document(s@) is Some,
        r is Ok ==> toml_document(s@) == Some(r->Ok_0),
{
    match toml::from_str::<TomlValue>(s) {
        Ok(v) => Ok(value_from_toml(&v)),
        Err(e) => Err(e),
    }
}

/// Parses configuration text into its document value; text that is not a
/// valid TOML document is reported as `ConfigParseError`.
pub fn parse_config(text: &str) -> (r: Result<crate::value::Value, GenError>)
    ensures
        match r {
            Ok(v) => toml_document(text@) == Some(v),
            Err(e) => toml_document(text@) is None && e@ == ErrModel::ConfigParseError,
        },
{
    match parse_toml(text) {
        Ok(v) => Ok(v),
        Err(_) => Err(GenError::ConfigParseError),
    }
}

} // verus!
