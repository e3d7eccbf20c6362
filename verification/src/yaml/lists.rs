//! Lists of strings: the authors and the hints of a challenge.

use vstd::prelude::*;

use crate::yaml::value::{
    get_type, spec_as_sequence, spec_as_str, type_of, ValueType, YamlValue,
};

verus! {

/// The text of each string, in order.
pub open spec fn strings_view(v: Seq<String>) -> Seq<Seq<char>> {
    v.map_values(|s: String| s@)
}

/// The text of the items that are strings, in order.
pub open spec fn string_items(items: Seq<YamlValue>) -> Seq<Seq<char>>
    decreases items.len(),
{
    if items.len() == 0 {
        Seq::empty()
    } else {
        let prev = string_items(items.drop_last());
        match spec_as_str(items.last()) {
            Some(s) => prev.push(s),
            None => prev,
        }
    }
}

/// The kinds of the items that are not strings, in order.
pub open spec fn non_string_types(items: Seq<YamlValue>) -> Seq<ValueType>
    decreases items.len(),
{
    if items.len() == 0 {
        Seq::empty()
    } else {
        let prev = non_string_types(items.drop_last());
        match spec_as_str(items.last()) {
            Some(_) => prev,
            None => prev.push(type_of(items.last())),
        }
    }
}

/// Splits the items of a list into the texts of its strings and the kinds of
/// its other items, both in order.
pub fn partition_strings(items: &Vec<YamlValue>) -> (r: (Vec<String>, Vec<ValueType>))
    ensures
        strings_view(r.0@) == string_items(items@),
        r.1@ == non_string_types(items@),
{
    let mut strings: Vec<String> = Vec::new();
    let mut bad: Vec<ValueType> = Vec::new();
    let mut i: usize = 0;
    while i < items.len()
        invariant
            i <= items@.len(),
            strings_view(strings@) == string_items(items@.take(i as int)),
            bad@ == non_string_types(items@.take(i as int)),
        decreases items@.len() - i,
    {
        assert(items@.take(i + 1).drop_last() =~= items@.take(i as int));
        let item = &items[i];
        match item.as_str() {
            Some(s) => {
                strings.push(s.clone());
            },
            None => {
                bad.push(get_type(item));
            },
        }
        assert(strings_view(strings@) =~= string_items(items@.take(i + 1)));
        i = i + 1;
    }
    assert(items@.take(items@.len() as int) =~= items@);
    (strings, bad)
}

/// How a list of strings can be wrong, as a model.
pub enum StrListErrorView {
    BadEntryType(Seq<ValueType>),
    BadType(ValueType),
    MissingKey,
}

/// A type built from a YAML list of strings.
pub trait StrList: Sized + View<V = Seq<Seq<char>>> {
    type Error: View<V = StrListErrorView>;

    /// What is built from the given strings.
    spec fn spec_from_strings(strings: Seq<Seq<char>>) -> Result<Seq<Seq<char>>, StrListErrorView>;

    fn from_strings(strings: Vec<String>) -> (r: Result<Self, Self::Error>)
        ensures
            match r {
                Ok(list) => Self::spec_from_strings(strings_view(strings@)) == Ok::<
                    Seq<Seq<char>>,
                    StrListErrorView,
                >(list@),
                Err(e) => Self::spec_from_strings(strings_view(strings@)) == Err::<
                    Seq<Seq<char>>,
                    StrListErrorView,
                >(e@),
            },
    ;

    fn from_value_mismatch(types: Vec<ValueType>) -> (r: Self::Error)
        ensures
            r@ == StrListErrorView::BadEntryType(types@),
    ;

    fn not_sequence(type_enum: ValueType) -> (r: Self::Error)
        ensures
            r@ == StrListErrorView::BadType(type_enum),
    ;
}

/// What reading a list of strings gives.
pub open spec fn spec_str_list<T: StrList>(value: YamlValue) -> Result<
    Seq<Seq<char>>,
    StrListErrorView,
> {
    match spec_as_sequence(value) {
        None => Err(StrListErrorView::BadType(type_of(value))),
        Some(items) => {
            let bad = non_string_types(items);
            if bad.len() == 0 {
                T::spec_from_strings(string_items(items))
            } else {
                Err(StrListErrorView::BadEntryType(bad))
            }
        },
    }
}

/// Reads a YAML list whose items must all be strings.
pub fn as_str_list<T: StrList>(value: &YamlValue) -> (r: Result<T, T::Error>)
    ensures
        match r {
            Ok(list) => spec_str_list::<T>(*value) == Ok::<Seq<Seq<char>>, StrListErrorView>(
                list@,
            ),
            Err(e) => spec_str_list::<T>(*value) == Err::<Seq<Seq<char>>, StrListErrorView>(e@),
        },
{
    match value.as_sequence() {
        None => Err(T::not_sequence(get_type(value))),
        Some(items) => {
            let (strings, bad) = partition_strings(items);
            if bad.len() == 0 {
                T::from_strings(strings)
            } else {
                Err(T::from_value_mismatch(bad))
            }
        },
    }
}

/// The authors of a challenge.
#[derive(Clone, Debug, PartialEq)]
pub struct Authors(pub Vec<String>);

/// How the authors entry can be wrong.
#[derive(Clone, Debug)]
pub enum AuthorError {
    BadEntryType(Vec<ValueType>),
    BadType(ValueType),
    MissingKey,
}

impl View for Authors {
    type V = Seq<Seq<char>>;

    open spec fn view(&self) -> Seq<Seq<char>> {
        strings_view(self.0@)
    }
}

impl View for AuthorError {
    type V = StrListErrorView;

    open spec fn view(&self) -> StrListErrorView {
        match self {
            AuthorError::BadEntryType(types) => StrListErrorView::BadEntryType(types@),
            AuthorError::BadType(t) => StrListErrorView::BadType(*t),
            AuthorError::MissingKey => StrListErrorView::MissingKey,
        }
    }
}

impl StrList for Authors {
    type Error = AuthorError;

    open spec fn spec_from_strings(strings: Seq<Seq<char>>) -> Result<
        Seq<Seq<char>>,
        StrListErrorView,
    > {
        Ok(strings)
    }

    fn from_strings(strings: Vec<String>) -> (r: Result<Self, Self::Error>) {
        Ok(Authors(strings))
    }

    fn from_value_mismatch(types: Vec<ValueType>) -> (r: Self::Error) {
        AuthorError::BadEntryType(types)
    }

    fn not_sequence(type_enum: ValueType) -> (r: Self::Error) {
        AuthorError::BadType(type_enum)
    }
}

impl Authors {
    pub fn slice(&self) -> (r: &[String])
        ensures
            r@ == self.0@,
    {
        self.0.as_slice()
    }
}

/// The hints of a challenge.
#[derive(Clone, Debug, PartialEq)]
pub struct Hints(pub Vec<String>);

/// How the hints entry can be wrong.
#[derive(Clone, Debug)]
pub enum HintError {
    BadEntryType(Vec<ValueType>),
    BadType(ValueType),
    MissingKey,
}

impl View for Hints {
    type V = Seq<Seq<char>>;

    open spec fn view(&self) -> Seq<Seq<char>> {
        strings_view(self.0@)
    }
}

impl View for HintError {
    type V = StrListErrorView;

    open spec fn view(&self) -> StrListErrorView {
        match self {
            HintError::BadEntryType(types) => StrListErrorView::BadEntryType(types@),
            HintError::BadType(t) => StrListErrorView::BadType(*t),
            HintError::MissingKey => StrListErrorView::MissingKey,
        }
    }
}

impl StrList for Hints {
    type Error = HintError;

    open spec fn spec_from_strings(strings: Seq<Seq<char>>) -> Result<
        Seq<Seq<char>>,
        StrListErrorView,
    > {
        Ok(strings)
    }

    fn from_strings(strings: Vec<String>) -> (r: Result<Self, Self::Error>) {
        Ok(Hints(strings))
    }

    fn from_value_mismatch(types: Vec<ValueType>) -> (r: Self::Error) {
        HintError::BadEntryType(types)
    }

    fn not_sequence(type_enum: ValueType) -> (r: Self::Error) {
        HintError::BadType(type_enum)
    }
}

impl Hints {
    pub fn slice(&self) -> (r: &[String])
        ensures
            r@ == self.0@,
    {
        self.0.as_slice()
    }
}

} // verus!
