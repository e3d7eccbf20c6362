//! The flag of a challenge: a literal string, or a file that holds it.

use vstd::prelude::*;

use crate::yaml::value::{
    get_type, mapping_lookup, spec_as_mapping, spec_as_str, type_of, mapping_get, ValueType,
    YamlValue,
};

verus! {

/// The flag of a challenge.
#[derive(Clone, Debug, PartialEq)]
pub enum Flag {
    /// The flag itself.
    String(String),
    /// The path of a file that holds the flag.
    File(String),
}

/// The flag of a challenge, as a model.
pub enum FlagView {
    String(Seq<char>),
    File(Seq<char>),
}

impl View for Flag {
    type V = FlagView;

    open spec fn view(&self) -> FlagView {
        match self {
            Flag::String(s) => FlagView::String(s@),
            Flag::File(p) => FlagView::File(p@),
        }
    }
}

/// How the flag entry can be wrong.
#[derive(Clone, Debug)]
pub enum FlagError {
    BadType(ValueType),
    BadString(String),
    BadPath(String),
    MappingNeedsFile,
    MissingKey,
}

/// How the flag entry can be wrong, as a model.
pub enum FlagErrorView {
    BadType(ValueType),
    BadString(Seq<char>),
    BadPath(Seq<char>),
    MappingNeedsFile,
    MissingKey,
}

impl View for FlagError {
    type V = FlagErrorView;

    open spec fn view(&self) -> FlagErrorView {
        match self {
            FlagError::BadType(t) => FlagErrorView::BadType(*t),
            FlagError::BadString(s) => FlagErrorView::BadString(s@),
            FlagError::BadPath(p) => FlagErrorView::BadPath(p@),
            FlagError::MappingNeedsFile => FlagErrorView::MappingNeedsFile,
            FlagError::MissingKey => FlagErrorView::MissingKey,
        }
    }
}

/// What reading the flag entry gives: a string is the flag itself; a mapping
/// must name the flag's file under the string key `file`.
pub open spec fn spec_flag(value: YamlValue) -> Result<FlagView, FlagErrorView> {
    match spec_as_str(value) {
        Some(s) => Ok(FlagView::String(s)),
        None => match spec_as_mapping(value) {
            Some(entries) => match mapping_lookup(entries, "file"@) {
                Some(file) => match spec_as_str(file) {
                    Some(path) => Ok(FlagView::File(path)),
                    None => Err(FlagErrorView::MappingNeedsFile),
                },
                None => Err(FlagErrorView::MappingNeedsFile),
            },
            None => Err(FlagErrorView::BadType(type_of(value))),
        },
    }
}

/// Reads the flag entry.
pub fn get_flag(value: &YamlValue) -> (r: Result<Flag, FlagError>)
    ensures
        match r {
            Ok(f) => spec_flag(*value) == Ok::<FlagView, FlagErrorView>(f@),
            Err(e) => spec_flag(*value) == Err::<FlagView, FlagErrorView>(e@),
        },
{
    if let Some(flag_str) = value.as_str() {
        Ok(Flag::String(flag_str.clone()))
    } else if let Some(mapping) = value.as_mapping() {
        match mapping_get(mapping, "file") {
            Some(file_value) => match file_value.as_str() {
                Some(file) => Ok(Flag::File(file.clone())),
                None => Err(FlagError::MappingNeedsFile),
            },
            None => Err(FlagError::MappingNeedsFile),
        }
    } else {
        Err(FlagError::BadType(get_type(value)))
    }
}

} // verus!
