//! A model of parsed YAML documents, and the type names used in error reports.

use vstd::prelude::*;

verus! {

/// A YAML number, as the YAML parser classifies it.
#[derive(Clone, Copy, Debug, PartialEq, Eq)]
pub enum YamlNumber {
    /// A non-negative integer.
    PosInt(u64),
    /// A negative integer.
    NegInt(i64),
    /// A number with a fractional part (or an infinity / NaN).
    Fractional,
}

/// A parsed YAML value.
#[derive(Debug)]
pub enum YamlValue {
    Null,
    Bool(bool),
    Number(YamlNumber),
    String(String),
    Sequence(Vec<YamlValue>),
    /// Entries in document order.
    Mapping(Vec<(YamlValue, YamlValue)>),
    /// A tagged value: the tag and the value it applies to.
    Tagged(String, Box<YamlValue>),
}

/// A failure to parse a text as YAML, with the parser's explanation.
#[derive(Debug)]
pub struct YamlParseError {
    pub message: String,
}

impl View for YamlParseError {
    type V = Seq<char>;

    open spec fn view(&self) -> Seq<char> {
        self.message@
    }
}

/// Strips any number of tags off a value.
pub open spec fn untag(v: YamlValue) -> YamlValue
    decreases v,
{
    match v {
        YamlValue::Tagged(_, inner) => untag(*inner),
        _ => v,
    }
}

pub open spec fn spec_as_str(v: YamlValue) -> Option<Seq<char>> {
    match untag(v) {
        YamlValue::String(s) => Some(s@),
        _ => None,
    }
}

pub open spec fn spec_as_bool(v: YamlValue) -> Option<bool> {
    match untag(v) {
        YamlValue::Bool(b) => Some(b),
        _ => None,
    }
}

pub open spec fn spec_as_u64(v: YamlValue) -> Option<u64> {
    match untag(v) {
        YamlValue::Number(YamlNumber::PosInt(n)) => Some(n),
        _ => None,
    }
}

pub open spec fn spec_as_sequence(v: YamlValue) -> Option<Seq<YamlValue>> {
    match untag(v) {
        YamlValue::Sequence(items) => Some(items@),
        _ => None,
    }
}

pub open spec fn spec_as_mapping(v: YamlValue) -> Option<Seq<(YamlValue, YamlValue)>> {
    match untag(v) {
        YamlValue::Mapping(entries) => Some(entries@),
        _ => None,
    }
}

/// Whether a mapping key is the (untagged) string `key`.
pub open spec fn is_string_key(k: YamlValue, key: Seq<char>) -> bool {
    match k {
        YamlValue::String(s) => s@ == key,
        _ => false,
    }
}

/// The value of the first entry whose key is the string `key`.
pub open spec fn mapping_lookup(entries: Seq<(YamlValue, YamlValue)>, key: Seq<char>) -> Option<
    YamlValue,
>
    decreases entries.len(),
{
    if entries.len() == 0 {
        None
    } else if is_string_key(entries[0].0, key) {
        Some(entries[0].1)
    } else {
        mapping_lookup(entries.drop_first(), key)
    }
}

/// Whether a string equals a string slice, character for character.
pub fn str_eq(a: &str, b: &str) -> (r: bool)
    ensures
        r == (a@ == b@),
{
    let a_owned = a.to_owned();
    let b_owned = b.to_owned();
    a_owned == b_owned
}

/// Looks `key` up among mapping entries.
pub fn mapping_get<'a>(entries: &'a Vec<(YamlValue, YamlValue)>, key: &str) -> (r: Option<
    &'a YamlValue,
>)
    ensures
        match r {
            Some(v) => mapping_lookup(entries@, key@) == Some(*v),
            None => mapping_lookup(entries@, key@) is None,
        },
{
    let mut i: usize = 0;
    assert(entries@.skip(0) =~= entries@);
    while i < entries.len()
        invariant
            i <= entries@.len(),
            mapping_lookup(entries@, key@) == mapping_lookup(entries@.skip(i as int), key@),
        decreases entries@.len() - i,
    {
        let ghost rest = entries@.skip(i as int);
        assert(rest.drop_first() =~= entries@.skip(i + 1));
        let k = &entries[i].0;
        if let YamlValue::String(s) = k {
            if str_eq(s.as_str(), key) {
                return Some(&entries[i].1);
            }
        }
        i = i + 1;
    }
    None
}

impl YamlValue {
    /// The value with all tags removed.
    pub fn untag_ref(&self) -> (r: &YamlValue)
        ensures
            *r == untag(*self),
        decreases self,
    {
        match self {
            YamlValue::Tagged(_, inner) => inner.untag_ref(),
            _ => self,
        }
    }

    pub fn as_str(&self) -> (r: Option<&String>)
        ensures
            match r {
                Some(s) => spec_as_str(*self) == Some(s@),
                None => spec_as_str(*self) is None,
            },
    {
        match self.untag_ref() {
            YamlValue::String(s) => Some(s),
            _ => None,
        }
    }

    pub fn as_bool(&self) -> (r: Option<bool>)
        ensures
            r == spec_as_bool(*self),
    {
        match self.untag_ref() {
            YamlValue::Bool(b) => Some(*b),
            _ => None,
        }
    }

    pub fn as_u64(&self) -> (r: Option<u64>)
        ensures
            r == spec_as_u64(*self),
    {
        match self.untag_ref() {
            YamlValue::Number(YamlNumber::PosInt(n)) => Some(*n),
            _ => None,
        }
    }

    pub fn as_sequence(&self) -> (r: Option<&Vec<YamlValue>>)
        ensures
            match r {
                Some(items) => spec_as_sequence(*self) == Some(items@),
                None => spec_as_sequence(*self) is None,
            },
    {
        match self.untag_ref() {
            YamlValue::Sequence(items) => Some(items),
            _ => None,
        }
    }

    pub fn as_mapping(&self) -> (r: Option<&Vec<(YamlValue, YamlValue)>>)
        ensures
            match r {
                Some(entries) => spec_as_mapping(*self) == Some(entries@),
                None => spec_as_mapping(*self) is None,
            },
    {
        match self.untag_ref() {
            YamlValue::Mapping(entries) => Some(entries),
            _ => None,
        }
    }
}

/// The kinds of YAML values, for error reports.
#[derive(Clone, Copy, Debug, PartialEq, Eq)]
pub enum ValueTypeEnum {
    Null,
    Bool,
    Number,
    String,
    Sequence,
    Mapping,
    Tagged,
}

/// The kind of a YAML value, as reported in error messages.
#[derive(Clone, Copy, Debug, PartialEq, Eq)]
pub struct ValueType {
    pub type_enum: ValueTypeEnum,
}

/// The kind of a value; a tagged value counts as tagged, whatever it wraps.
pub open spec fn type_of(v: YamlValue) -> ValueType {
    ValueType {
        type_enum: match v {
            YamlValue::Null => ValueTypeEnum::Null,
            YamlValue::Bool(_) => ValueTypeEnum::Bool,
            YamlValue::Number(_) => ValueTypeEnum::Number,
            YamlValue::String(_) => ValueTypeEnum::String,
            YamlValue::Sequence(_) => ValueTypeEnum::Sequence,
            YamlValue::Mapping(_) => ValueTypeEnum::Mapping,
            YamlValue::Tagged(_, _) => ValueTypeEnum::Tagged,
        },
    }
}

/// The kind of value that a missing key is reported as.
pub open spec fn null_type() -> ValueType {
    ValueType { type_enum: ValueTypeEnum::Null }
}

pub fn get_type(value: &YamlValue) -> (r: ValueType)
    ensures
        r == type_of(*value),
{
    let type_enum = match value {
        YamlValue::Null => ValueTypeEnum::Null,
        YamlValue::Bool(_) => ValueTypeEnum::Bool,
        YamlValue::Number(_) => ValueTypeEnum::Number,
        YamlValue::String(_) => ValueTypeEnum::String,
        YamlValue::Sequence(_) => ValueTypeEnum::Sequence,
        YamlValue::Mapping(_) => ValueTypeEnum::Mapping,
        YamlValue::Tagged(_, _) => ValueTypeEnum::Tagged,
    };
    ValueType { type_enum }
}

/// How a kind of value is named in messages.
pub open spec fn value_type_text(t: ValueTypeEnum) -> Seq<char> {
    match t {
        ValueTypeEnum::Null => "`null`"@,
        ValueTypeEnum::Bool => "a boolean"@,
        ValueTypeEnum::Number => "a number"@,
        ValueTypeEnum::String => "a string"@,
        ValueTypeEnum::Sequence => "a list"@,
        ValueTypeEnum::Mapping => "a dictionary"@,
        ValueTypeEnum::Tagged => "an enum"@,
    }
}

impl ValueType {
    /// The kind reported for a missing value.
    pub fn null() -> (r: ValueType)
        ensures
            r == null_type(),
    {
        ValueType { type_enum: ValueTypeEnum::Null }
    }

    pub fn get_str(&self) -> (r: &'static str)
        ensures
            r@ == value_type_text(self.type_enum),
    {
        match self.type_enum {
            ValueTypeEnum::Null => "`null`",
            ValueTypeEnum::Bool => "a boolean",
            ValueTypeEnum::Number => "a number",
            ValueTypeEnum::String => "a string",
            ValueTypeEnum::Sequence => "a list",
            ValueTypeEnum::Mapping => "a dictionary",
            ValueTypeEnum::Tagged => "an enum",
        }
    }
}

} // verus!
