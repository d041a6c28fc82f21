//! The generator's error taxonomy. Every failure is fatal to the run: the
//! caller prints the diagnostic and stops.

use vstd::prelude::*;
use vstd::string::StringExecFns;

verus! {

/// Everything that can go wrong between reading a configuration and writing
/// the generated Makefile.
#[derive(Debug, Clone, PartialEq, Eq)]
pub enum GenError {
    /// The configuration file is missing or unreadable.
    ConfigNotFound,
    /// The text is not a valid configuration document, or lacks a platform
    /// section.
    ConfigParseError,
    /// A required key is absent from a record; the payload names the key.
    MissingField(String),
    /// A value is present but has the wrong shape; the payload names its key.
    TypeMismatch(String),
    /// A step refers to a variable its target never declared; the payload
    /// names the variable.
    UndeclaredVariable(String),
    /// The output file could not be written.
    WriteFailure,
}

/// The mathematical shadow of `GenError`: payloads as character sequences.
pub enum ErrModel {
    ConfigNotFound,
    ConfigParseError,
    MissingField(Seq<char>),
    TypeMismatch(Seq<char>),
    UndeclaredVariable(Seq<char>),
    WriteFailure,
}

impl View for GenError {
    type V = ErrModel;

    open spec fn view(&self) -> ErrModel {
        match self {
            GenError::ConfigNotFound => ErrModel::ConfigNotFound,
            GenError::ConfigParseError => ErrModel::ConfigParseError,
            GenError::MissingField(f) => ErrModel::MissingField(f@),
            GenError::TypeMismatch(f) => ErrModel::TypeMismatch(f@),
            GenError::UndeclaredVariable(v) => ErrModel::UndeclaredVariable(v@),
            GenError::WriteFailure => ErrModel::WriteFailure,
        }
    }
}

/// The diagnostic text for each error.
pub open spec fn message_of(e: ErrModel) -> Seq<char> {
    match e {
        ErrModel::ConfigNotFound => "No config found in current working directory, aborting."@,
        ErrModel::ConfigParseError => "Failed to parse config. Does it follow proper syntax?"@,
        ErrModel::MissingField(f) => "expected required value `"@ + f + "`"@,
        ErrModel::TypeMismatch(f) => "unexpected type for value `"@ + f + "`"@,
        ErrModel::UndeclaredVariable(v) => "variable "@ + v + " used before definition!"@,
        ErrModel::WriteFailure => "failed to write Makefile contents. Aborting."@,
    }
}

impl GenError {
    /// The human-readable diagnostic that terminates a run.
    pub fn message(&self) -> (r: String)
        ensures
            r@ == message_of(self@),
    {
        match self {
            GenError::ConfigNotFound => "No config found in current working directory, aborting.".to_owned(),
            GenError::ConfigParseError => "Failed to parse config. Does it follow proper syntax?".to_owned(),
            GenError::MissingField(f) => {
                let mut s: String = "expected required value `".to_owned();
                s.append(f.as_str());
                s.append("`");
                s
            },
            GenError::TypeMismatch(f) => {
                let mut s: String = "unexpected type for value `".to_owned();
                s.append(f.as_str());
                s.append("`");
                s
            },
            GenError::UndeclaredVariable(v) => {
                let mut s: String = "variable ".to_owned();
                s.append(v.as_str());
                s.append(" used before definition!");
                s
            },
            GenError::WriteFailure => "failed to write Makefile contents. Aborting.".to_owned(),
        }
    }
}

} // verus!
