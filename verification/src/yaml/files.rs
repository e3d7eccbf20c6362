//! The files handed out with a challenge.

use vstd::prelude::*;

use crate::yaml::lists::strings_view;
use crate::yaml::value::{
    get_type, mapping_get, mapping_lookup, spec_as_mapping, spec_as_sequence, spec_as_str,
    type_of, ValueType, YamlValue,
};

verus! {

/// The paths of the files handed out with a challenge, in the order listed.
#[derive(Clone, Debug, PartialEq)]
pub struct Files(Vec<String>);

impl View for Files {
    type V = Seq<Seq<char>>;

    closed spec fn view(&self) -> Seq<Seq<char>> {
        strings_view(self.0@)
    }
}

impl Files {
    pub fn slice(&self) -> (r: &[String])
        ensures
            strings_view(r@) == self@,
    {
        self.0.as_slice()
    }
}

/// How one entry of the files list can be wrong; each names the entry's position.
#[derive(Clone, Debug, PartialEq)]
pub enum FileEntryError {
    ItemNotMapping(usize, ValueType),
    SrcKeyNotDefined(usize),
    SrcPathNotString(usize, ValueType),
    InvalidPath(usize, String),
}

pub enum FileEntryErrorView {
    ItemNotMapping(usize, ValueType),
    SrcKeyNotDefined(usize),
    SrcPathNotString(usize, ValueType),
    InvalidPath(usize, Seq<char>),
}

impl View for FileEntryError {
    type V = FileEntryErrorView;

    open spec fn view(&self) -> FileEntryErrorView {
        match self {
            FileEntryError::ItemNotMapping(i, t) => FileEntryErrorView::ItemNotMapping(*i, *t),
            FileEntryError::SrcKeyNotDefined(i) => FileEntryErrorView::SrcKeyNotDefined(*i),
            FileEntryError::SrcPathNotString(i, t) => FileEntryErrorView::SrcPathNotString(*i, *t),
            FileEntryError::InvalidPath(i, p) => FileEntryErrorView::InvalidPath(*i, p@),
        }
    }
}

/// How the files entry can be wrong.
#[derive(Clone, Debug, PartialEq)]
pub enum FileErrors {
    BadBaseType(ValueType),
    EntryErrors(Vec<FileEntryError>),
}

pub enum FileErrorsView {
    BadBaseType(ValueType),
    EntryErrors(Seq<FileEntryErrorView>),
}

pub open spec fn entry_errors_view(errs: Seq<FileEntryError>) -> Seq<FileEntryErrorView> {
    errs.map_values(|e: FileEntryError| e@)
}

impl View for FileErrors {
    type V = FileErrorsView;

    open spec fn view(&self) -> FileErrorsView {
        match self {
            FileErrors::BadBaseType(t) => FileErrorsView::BadBaseType(*t),
            FileErrors::EntryErrors(errs) => FileErrorsView::EntryErrors(entry_errors_view(errs@)),
        }
    }
}

/// What one entry of the files list gives: it must be a mapping whose `src`
/// is a string, the file's path.
pub open spec fn spec_file_entry(idx: usize, item: YamlValue) -> Result<
    Seq<char>,
    FileEntryErrorView,
> {
    match spec_as_mapping(item) {
        None => Err(FileEntryErrorView::ItemNotMapping(idx, type_of(item))),
        Some(entries) => match mapping_lookup(entries, "src"@) {
            None => Err(FileEntryErrorView::SrcKeyNotDefined(idx)),
            Some(src) => match spec_as_str(src) {
                None => Err(FileEntryErrorView::SrcPathNotString(idx, type_of(src))),
                Some(path) => Ok(path),
            },
        },
    }
}

/// The paths of the entries that are well formed, in order.
pub open spec fn file_paths(items: Seq<YamlValue>) -> Seq<Seq<char>>
    decreases items.len(),
{
    if items.len() == 0 {
        Seq::empty()
    } else {
        let prev = file_paths(items.drop_last());
        match spec_file_entry((items.len() - 1) as usize, items.last()) {
            Ok(p) => prev.push(p),
            Err(_) => prev,
        }
    }
}

/// The errors of the entries that are not well formed, in order.
pub open spec fn file_errors(items: Seq<YamlValue>) -> Seq<FileEntryErrorView>
    decreases items.len(),
{
    if items.len() == 0 {
        Seq::empty()
    } else {
        let prev = file_errors(items.drop_last());
        match spec_file_entry((items.len() - 1) as usize, items.last()) {
            Ok(_) => prev,
            Err(e) => prev.push(e),
        }
    }
}

/// What reading the files entry gives.
pub open spec fn spec_file_list(value: YamlValue) -> Result<Seq<Seq<char>>, FileErrorsView> {
    match spec_as_sequence(value) {
        None => Err(FileErrorsView::BadBaseType(type_of(value))),
        Some(items) => if file_errors(items).len() == 0 {
            Ok(file_paths(items))
        } else {
            Err(FileErrorsView::EntryErrors(file_errors(items)))
        },
    }
}

fn file_entry(idx: usize, item: &YamlValue) -> (r: Result<String, FileEntryError>)
    ensures
        match r {
            Ok(p) => spec_file_entry(idx, *item) == Ok::<Seq<char>, FileEntryErrorView>(p@),
            Err(e) => spec_file_entry(idx, *item) == Err::<Seq<char>, FileEntryErrorView>(e@),
        },
{
    let entries = match item.as_mapping() {
        Some(entries) => entries,
        None => return Err(FileEntryError::ItemNotMapping(idx, get_type(item))),
    };
    let src = match mapping_get(entries, "src") {
        Some(src) => src,
        None => return Err(FileEntryError::SrcKeyNotDefined(idx)),
    };
    match src.as_str() {
        Some(path) => Ok(path.clone()),
        None => Err(FileEntryError::SrcPathNotString(idx, get_type(src))),
    }
}

/// Reads the files entry: a list of `src: <path>` mappings. Every bad entry is
/// reported, not only the first.
pub fn file_list(value: &YamlValue) -> (r: Result<Files, FileErrors>)
    ensures
        match r {
            Ok(f) => spec_file_list(*value) == Ok::<Seq<Seq<char>>, FileErrorsView>(f@),
            Err(e) => spec_file_list(*value) == Err::<Seq<Seq<char>>, FileErrorsView>(e@),
        },
{
    let items = match value.as_sequence() {
        Some(items) => items,
        None => return Err(FileErrors::BadBaseType(get_type(value))),
    };
    let mut paths: Vec<String> = Vec::new();
    let mut errs: Vec<FileEntryError> = Vec::new();
    let mut i: usize = 0;
    while i < items.len()
        invariant
            i <= items@.len(),
            strings_view(paths@) == file_paths(items@.take(i as int)),
            entry_errors_view(errs@) == file_errors(items@.take(i as int)),
        decreases items@.len() - i,
    {
        assert(items@.take(i + 1).drop_last() =~= items@.take(i as int));
        match file_entry(i, &items[i]) {
            Ok(path) => paths.push(path),
            Err(e) => errs.push(e),
        }
        assert(strings_view(paths@) =~= file_paths(items@.take(i + 1)));
        assert(entry_errors_view(errs@) =~= file_errors(items@.take(i + 1)));
        i = i + 1;
    }
    assert(items@.take(items@.len() as int) =~= items@);
    if errs.len() == 0 {
        Ok(Files(paths))
    } else {
        Err(FileErrors::EntryErrors(errs))
    }
}

/// Turns an optional fallible value into a fallible optional one.
pub trait Flop {
    type Target;

    fn flop(self) -> Self::Target;
}

impl<T, E> Flop for Option<Result<T, E>> {
    type Target = Result<Option<T>, E>;

    fn flop(self) -> (r: Result<Option<T>, E>)
        ensures
            r == match self {
                Some(Ok(t)) => Ok(Some(t)),
                Some(Err(e)) => Err(e),
                None => Ok::<Option<T>, E>(None),
            },
    {
        match self {
            Some(res) => match res {
                Ok(t) => Ok(Some(t)),
                Err(e) => Err(e),
            },
            None => Ok(None),
        }
    }
}

} // verus!
