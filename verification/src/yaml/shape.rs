//! Reading and checking a whole challenge description.

use vstd::prelude::*;

use crate::yaml::categories::{spec_categories, value_to_categories, Categories, Category, CategoryError, CategoryErrorView};
use crate::yaml::correctness::{spec_broken_rules, spec_rules_pass, YamlCorrectness, YamlCorrectnessView};
use crate::yaml::deploy::{parse_deploy, spec_parse_deploy, DeployError, DeployErrorView, DeployOptions};
use crate::yaml::files::{file_list, spec_file_list, FileErrors, FileErrorsView, Files, Flop};
use crate::yaml::flag::{get_flag, spec_flag, Flag, FlagError, FlagErrorView, FlagView};
use crate::yaml::lists::{as_str_list, spec_str_list, strings_view, AuthorError, Authors, HintError, Hints, StrListErrorView};
use crate::yaml::parse::{parse_yaml_document, parsed_yaml_document};
use crate::yaml::value::{
    get_type, mapping_get, mapping_lookup, null_type, spec_as_bool, spec_as_mapping, spec_as_str,
    spec_as_u64, type_of, ValueType, YamlParseError, YamlValue,
};

verus! {

/// A challenge description that is well formed and follows the competition's rules.
#[derive(Debug)]
pub struct YamlShape {
    authors: Authors,
    categories: Categories,
    hints: Hints,
    files: Option<Files>,
    deploy: Option<DeployOptions>,
    points: u64,
    flag: Flag,
    name: String,
    description: String,
    visible: bool,
}

/// A challenge description, as a model.
pub struct YamlShapeView {
    pub authors: Seq<Seq<char>>,
    pub categories: Seq<Seq<char>>,
    pub hints: Seq<Seq<char>>,
    pub files: Option<Seq<Seq<char>>>,
    pub deploy: Option<DeployOptions>,
    pub points: u64,
    pub flag: FlagView,
    pub name: Seq<char>,
    pub description: Seq<char>,
    pub visible: bool,
}

pub open spec fn optional_files_view(files: Option<Files>) -> Option<Seq<Seq<char>>> {
    match files {
        Some(f) => Some(f@),
        None => None,
    }
}

impl View for YamlShape {
    type V = YamlShapeView;

    closed spec fn view(&self) -> YamlShapeView {
        YamlShapeView {
            authors: self.authors@,
            categories: self.categories@,
            hints: self.hints@,
            files: optional_files_view(self.files),
            deploy: self.deploy,
            points: self.points,
            flag: self.flag@,
            name: self.name@,
            description: self.description@,
            visible: self.visible,
        }
    }
}

/// How one entry of a challenge description can be wrong.
#[derive(Debug)]
pub enum YamlAttribVerifyError {
    Authors(AuthorError),
    Categories(CategoryError),
    Hints(HintError),
    Files(FileErrors),
    Deploy(DeployError),
    PointsNotInt(ValueType),
    Flag(FlagError),
    NameNotString(ValueType),
    DescNotString(ValueType),
    VisNotBool(ValueType),
}

pub enum YamlAttribVerifyErrorView {
    Authors(StrListErrorView),
    Categories(CategoryErrorView),
    Hints(StrListErrorView),
    Files(FileErrorsView),
    Deploy(DeployErrorView),
    PointsNotInt(ValueType),
    Flag(FlagErrorView),
    NameNotString(ValueType),
    DescNotString(ValueType),
    VisNotBool(ValueType),
}

impl View for YamlAttribVerifyError {
    type V = YamlAttribVerifyErrorView;

    open spec fn view(&self) -> YamlAttribVerifyErrorView {
        match self {
            YamlAttribVerifyError::Authors(e) => YamlAttribVerifyErrorView::Authors(e@),
            YamlAttribVerifyError::Categories(e) => YamlAttribVerifyErrorView::Categories(e@),
            YamlAttribVerifyError::Hints(e) => YamlAttribVerifyErrorView::Hints(e@),
            YamlAttribVerifyError::Files(e) => YamlAttribVerifyErrorView::Files(e@),
            YamlAttribVerifyError::Deploy(e) => YamlAttribVerifyErrorView::Deploy(e@),
            YamlAttribVerifyError::PointsNotInt(t) => YamlAttribVerifyErrorView::PointsNotInt(*t),
            YamlAttribVerifyError::Flag(e) => YamlAttribVerifyErrorView::Flag(e@),
            YamlAttribVerifyError::NameNotString(t) => YamlAttribVerifyErrorView::NameNotString(*t),
            YamlAttribVerifyError::DescNotString(t) => YamlAttribVerifyErrorView::DescNotString(*t),
            YamlAttribVerifyError::VisNotBool(t) => YamlAttribVerifyErrorView::VisNotBool(*t),
        }
    }
}

pub open spec fn attrib_errors_view(errs: Seq<YamlAttribVerifyError>) -> Seq<YamlAttribVerifyErrorView> {
    errs.map_values(|e: YamlAttribVerifyError| e@)
}

/// Why a challenge description is refused (shown by its message).
pub enum YamlVerifyError {
    /// The text is not YAML.
    Unparsable(YamlParseError),
    /// The document is not a mapping.
    BaseNotMap(ValueType),
    /// Entries are wrong; all of them are reported, in a fixed order.
    PartErrors(Vec<YamlAttribVerifyError>),
    /// The description is well formed but breaks these competition rules.
    Correctness(YamlCorrectness),
}

pub enum YamlVerifyErrorView {
    Unparsable(Seq<char>),
    BaseNotMap(ValueType),
    PartErrors(Seq<YamlAttribVerifyErrorView>),
    Correctness(YamlCorrectnessView),
}

impl View for YamlVerifyError {
    type V = YamlVerifyErrorView;

    open spec fn view(&self) -> YamlVerifyErrorView {
        match self {
            YamlVerifyError::Unparsable(e) => YamlVerifyErrorView::Unparsable(e@),
            YamlVerifyError::BaseNotMap(t) => YamlVerifyErrorView::BaseNotMap(*t),
            YamlVerifyError::PartErrors(errs) => YamlVerifyErrorView::PartErrors(attrib_errors_view(errs@)),
            YamlVerifyError::Correctness(c) => YamlVerifyErrorView::Correctness(c@),
        }
    }
}

/// The outcome of checking a description, as a model.
pub open spec fn shape_outcome_view(r: Result<YamlShape, YamlVerifyError>) -> Result<YamlShapeView, YamlVerifyErrorView> {
    match r {
        Ok(s) => Ok(s@),
        Err(e) => Err(e@),
    }
}

/// The error of a failed entry, if it failed.
pub open spec fn failure<T, E>(r: Result<T, E>, wrap: spec_fn(E) -> YamlAttribVerifyErrorView) -> Seq<YamlAttribVerifyErrorView> {
    match r {
        Ok(_) => Seq::empty(),
        Err(e) => seq![wrap(e)],
    }
}

#[verifier::opaque]
pub open spec fn spec_authors_entry(entries: Seq<(YamlValue, YamlValue)>) -> Result<Seq<Seq<char>>, StrListErrorView> {
    match mapping_lookup(entries, "authors"@) {
        None => Err(StrListErrorView::MissingKey),
        Some(v) => spec_str_list::<Authors>(v),
    }
}

#[verifier::opaque]
pub open spec fn spec_categories_entry(entries: Seq<(YamlValue, YamlValue)>) -> Result<Seq<Seq<char>>, CategoryErrorView> {
    match mapping_lookup(entries, "categories"@) {
        None => Err(CategoryErrorView::MissingKey),
        Some(v) => spec_categories(v),
    }
}

#[verifier::opaque]
pub open spec fn spec_hints_entry(entries: Seq<(YamlValue, YamlValue)>) -> Result<Seq<Seq<char>>, StrListErrorView> {
    match mapping_lookup(entries, "hints"@) {
        None => Err(StrListErrorView::MissingKey),
        Some(v) => spec_str_list::<Hints>(v),
    }
}

#[verifier::opaque]
pub open spec fn spec_files_entry(entries: Seq<(YamlValue, YamlValue)>) -> Result<Option<Seq<Seq<char>>>, FileErrorsView> {
    match mapping_lookup(entries, "files"@) {
        None => Ok(None),
        Some(v) => match spec_file_list(v) {
            Ok(f) => Ok(Some(f)),
            Err(e) => Err(e),
        },
    }
}

#[verifier::opaque]
pub open spec fn spec_deploy_entry(entries: Seq<(YamlValue, YamlValue)>) -> Result<Option<DeployOptions>, DeployErrorView> {
    match mapping_lookup(entries, "deploy"@) {
        None => Ok(None),
        Some(v) => match spec_parse_deploy(v) {
            Ok(d) => Ok(Some(d)),
            Err(e) => Err(e),
        },
    }
}

#[verifier::opaque]
pub open spec fn spec_points_entry(entries: Seq<(YamlValue, YamlValue)>) -> Result<u64, ValueType> {
    match mapping_lookup(entries, "value"@) {
        None => Err(null_type()),
        Some(v) => match spec_as_u64(v) {
            Some(n) => Ok(n),
            None => Err(type_of(v)),
        },
    }
}

#[verifier::opaque]
pub open spec fn spec_flag_entry(entries: Seq<(YamlValue, YamlValue)>) -> Result<FlagView, FlagErrorView> {
    match mapping_lookup(entries, "flag"@) {
        None => Err(FlagErrorView::MissingKey),
        Some(v) => spec_flag(v),
    }
}

/// A string entry; a missing one is reported as `null`.
#[verifier::opaque]
pub open spec fn spec_string_entry(entries: Seq<(YamlValue, YamlValue)>, key: Seq<char>) -> Result<Seq<char>, ValueType> {
    match mapping_lookup(entries, key) {
        None => Err(null_type()),
        Some(v) => match spec_as_str(v) {
            Some(s) => Ok(s),
            None => Err(type_of(v)),
        },
    }
}

#[verifier::opaque]
pub open spec fn spec_visible_entry(entries: Seq<(YamlValue, YamlValue)>) -> Result<bool, ValueType> {
    match mapping_lookup(entries, "visible"@) {
        None => Err(null_type()),
        Some(v) => match spec_as_bool(v) {
            Some(b) => Ok(b),
            None => Err(type_of(v)),
        },
    }
}

/// The errors of all entries, in the order authors, categories, hints, files,
/// deploy, value, flag, name, description, visible.
pub open spec fn spec_part_errors(entries: Seq<(YamlValue, YamlValue)>) -> Seq<YamlAttribVerifyErrorView> {
    spec_list_part_errors(entries) + spec_scalar_part_errors(entries)
}

/// The errors of the list-like entries: authors, categories, hints, files, deploy.
pub open spec fn spec_list_part_errors(entries: Seq<(YamlValue, YamlValue)>) -> Seq<YamlAttribVerifyErrorView> {
    failure(spec_authors_entry(entries), |e: StrListErrorView| YamlAttribVerifyErrorView::Authors(e))
    + failure(spec_categories_entry(entries), |e: CategoryErrorView| YamlAttribVerifyErrorView::Categories(e))
    + failure(spec_hints_entry(entries), |e: StrListErrorView| YamlAttribVerifyErrorView::Hints(e))
    + failure(spec_files_entry(entries), |e: FileErrorsView| YamlAttribVerifyErrorView::Files(e))
    + failure(spec_deploy_entry(entries), |e: DeployErrorView| YamlAttribVerifyErrorView::Deploy(e))
}

/// The errors of the other entries: value, flag, name, description, visible.
pub open spec fn spec_scalar_part_errors(entries: Seq<(YamlValue, YamlValue)>) -> Seq<YamlAttribVerifyErrorView> {
    failure(spec_points_entry(entries), |t: ValueType| YamlAttribVerifyErrorView::PointsNotInt(t))
    + failure(spec_flag_entry(entries), |e: FlagErrorView| YamlAttribVerifyErrorView::Flag(e))
    + failure(spec_string_entry(entries, "name"@), |t: ValueType| YamlAttribVerifyErrorView::NameNotString(t))
    + failure(spec_string_entry(entries, "description"@), |t: ValueType| YamlAttribVerifyErrorView::DescNotString(t))
    + failure(spec_visible_entry(entries), |t: ValueType| YamlAttribVerifyErrorView::VisNotBool(t))
}

/// The description read from the entries, when none of them is wrong.
pub open spec fn spec_shape(entries: Seq<(YamlValue, YamlValue)>) -> YamlShapeView {
    YamlShapeView {
        authors: spec_authors_entry(entries)->Ok_0,
        categories: spec_categories_entry(entries)->Ok_0,
        hints: spec_hints_entry(entries)->Ok_0,
        files: spec_files_entry(entries)->Ok_0,
        deploy: spec_deploy_entry(entries)->Ok_0,
        points: spec_points_entry(entries)->Ok_0,
        flag: spec_flag_entry(entries)->Ok_0,
        name: spec_string_entry(entries, "name"@)->Ok_0,
        description: spec_string_entry(entries, "description"@)->Ok_0,
        visible: spec_visible_entry(entries)->Ok_0,
    }
}

/// The literal flag of a description, if the flag is not kept in a file.
pub open spec fn literal_flag(flag: FlagView) -> Option<Seq<char>> {
    match flag {
        FlagView::String(s) => Some(s),
        FlagView::File(_) => None,
    }
}

/// What checking a parsed document gives: it must be a mapping; every entry is
/// read and all errors are reported together; a well-formed description must
/// then follow the rules, or the broken rules are reported.
pub open spec fn spec_verify_value(base: YamlValue, rules: YamlCorrectnessView) -> Result<YamlShapeView, YamlVerifyErrorView> {
    match spec_as_mapping(base) {
        None => Err(YamlVerifyErrorView::BaseNotMap(type_of(base))),
        Some(entries) => {
            let errs = spec_part_errors(entries);
            if errs.len() > 0 {
                Err(YamlVerifyErrorView::PartErrors(errs))
            } else {
                let shape = spec_shape(entries);
                let flag = literal_flag(shape.flag);
                if spec_rules_pass(rules, flag, shape.categories, shape.points) {
                    Ok(shape)
                } else {
                    Err(YamlVerifyErrorView::Correctness(spec_broken_rules(rules, flag, shape.categories, shape.points)))
                }
            }
        },
    }
}

/// Whether checking a document gets as far as the competition's rules: it is
/// a mapping and every entry is well formed.
pub open spec fn reaches_rules(base: YamlValue) -> bool {
    match spec_as_mapping(base) {
        None => false,
        Some(entries) => spec_part_errors(entries).len() == 0,
    }
}

/// Whether checking a text gets as far as the competition's rules.
pub open spec fn text_reaches_rules(text: Seq<char>) -> bool {
    match parsed_yaml_document(text) {
        Err(_) => false,
        Ok(base) => reaches_rules(base),
    }
}

/// What checking a text gives.
pub open spec fn spec_verify_text(text: Seq<char>, rules: YamlCorrectnessView) -> Result<YamlShapeView, YamlVerifyErrorView> {
    match parsed_yaml_document(text) {
        Err(e) => Err(YamlVerifyErrorView::Unparsable(e@)),
        Ok(base) => spec_verify_value(base, rules),
    }
}

} // verus!

verus! {

/// The view of a failure, if any.
pub open spec fn failure_view(o: Option<YamlAttribVerifyError>) -> Seq<YamlAttribVerifyErrorView> {
    match o {
        Some(e) => seq![e@],
        None => Seq::empty(),
    }
}

fn push_failure(errs: &mut Vec<YamlAttribVerifyError>, failed: Option<YamlAttribVerifyError>)
    ensures
        attrib_errors_view(final(errs)@) == attrib_errors_view(old(errs)@) + failure_view(failed),
{
    match failed {
        Some(e) => {
            errs.push(e);
        },
        None => {},
    }
    assert(attrib_errors_view(errs@) =~= attrib_errors_view(old(errs)@) + failure_view(failed));
}

fn authors_entry(entries: &Vec<(YamlValue, YamlValue)>) -> (r: Result<Authors, AuthorError>)
    ensures
        match r {
            Ok(a) => spec_authors_entry(entries@) == Ok::<Seq<Seq<char>>, StrListErrorView>(a@),
            Err(e) => spec_authors_entry(entries@) == Err::<Seq<Seq<char>>, StrListErrorView>(e@),
        },
{
    reveal(spec_authors_entry);
    match mapping_get(entries, "authors") {
        None => Err(AuthorError::MissingKey),
        Some(v) => as_str_list::<Authors>(v),
    }
}

fn categories_entry(entries: &Vec<(YamlValue, YamlValue)>) -> (r: Result<Categories, CategoryError>)
    ensures
        match r {
            Ok(c) => spec_categories_entry(entries@) == Ok::<Seq<Seq<char>>, CategoryErrorView>(c@),
            Err(e) => spec_categories_entry(entries@) == Err::<Seq<Seq<char>>, CategoryErrorView>(e@),
        },
{
    reveal(spec_categories_entry);
    match mapping_get(entries, "categories") {
        None => Err(CategoryError::MissingKey),
        Some(v) => value_to_categories(v),
    }
}

fn hints_entry(entries: &Vec<(YamlValue, YamlValue)>) -> (r: Result<Hints, HintError>)
    ensures
        match r {
            Ok(h) => spec_hints_entry(entries@) == Ok::<Seq<Seq<char>>, StrListErrorView>(h@),
            Err(e) => spec_hints_entry(entries@) == Err::<Seq<Seq<char>>, StrListErrorView>(e@),
        },
{
    reveal(spec_hints_entry);
    match mapping_get(entries, "hints") {
        None => Err(HintError::MissingKey),
        Some(v) => as_str_list::<Hints>(v),
    }
}

fn files_entry(entries: &Vec<(YamlValue, YamlValue)>) -> (r: Result<Option<Files>, FileErrors>)
    ensures
        match r {
            Ok(f) => spec_files_entry(entries@) == Ok::<Option<Seq<Seq<char>>>, FileErrorsView>(optional_files_view(f)),
            Err(e) => spec_files_entry(entries@) == Err::<Option<Seq<Seq<char>>>, FileErrorsView>(e@),
        },
{
    reveal(spec_files_entry);
    match mapping_get(entries, "files") {
        None => Ok(None),
        Some(v) => Some(file_list(v)).flop(),
    }
}

fn deploy_entry(entries: &Vec<(YamlValue, YamlValue)>) -> (r: Result<Option<DeployOptions>, DeployError>)
    ensures
        match r {
            Ok(d) => spec_deploy_entry(entries@) == Ok::<Option<DeployOptions>, DeployErrorView>(d),
            Err(e) => spec_deploy_entry(entries@) == Err::<Option<DeployOptions>, DeployErrorView>(e@),
        },
{
    reveal(spec_deploy_entry);
    match mapping_get(entries, "deploy") {
        None => Ok(None),
        Some(v) => Some(parse_deploy(v)).flop(),
    }
}

fn points_entry(entries: &Vec<(YamlValue, YamlValue)>) -> (r: Result<u64, ValueType>)
    ensures
        r == spec_points_entry(entries@),
{
    reveal(spec_points_entry);
    match mapping_get(entries, "value") {
        None => Err(ValueType::null()),
        Some(v) => match v.as_u64() {
            Some(n) => Ok(n),
            None => Err(get_type(v)),
        },
    }
}

fn flag_entry(entries: &Vec<(YamlValue, YamlValue)>) -> (r: Result<Flag, FlagError>)
    ensures
        match r {
            Ok(f) => spec_flag_entry(entries@) == Ok::<FlagView, FlagErrorView>(f@),
            Err(e) => spec_flag_entry(entries@) == Err::<FlagView, FlagErrorView>(e@),
        },
{
    reveal(spec_flag_entry);
    match mapping_get(entries, "flag") {
        None => Err(FlagError::MissingKey),
        Some(v) => get_flag(v),
    }
}

fn string_entry(entries: &Vec<(YamlValue, YamlValue)>, key: &str) -> (r: Result<String, ValueType>)
    ensures
        match r {
            Ok(s) => spec_string_entry(entries@, key@) == Ok::<Seq<char>, ValueType>(s@),
            Err(t) => spec_string_entry(entries@, key@) == Err::<Seq<char>, ValueType>(t),
        },
{
    reveal(spec_string_entry);
    match mapping_get(entries, key) {
        None => Err(ValueType::null()),
        Some(v) => match v.as_str() {
            Some(s) => Ok(s.clone()),
            None => Err(get_type(v)),
        },
    }
}

fn visible_entry(entries: &Vec<(YamlValue, YamlValue)>) -> (r: Result<bool, ValueType>)
    ensures
        r == spec_visible_entry(entries@),
{
    reveal(spec_visible_entry);
    match mapping_get(entries, "visible") {
        None => Err(ValueType::null()),
        Some(v) => match v.as_bool() {
            Some(b) => Ok(b),
            None => Err(get_type(v)),
        },
    }
}

/// The entries of a description that were read successfully.
struct Parts {
    authors: Option<Authors>,
    categories: Option<Categories>,
    hints: Option<Hints>,
    files: Option<Option<Files>>,
    deploy: Option<Option<DeployOptions>>,
    points: Option<u64>,
    flag: Option<Flag>,
    name: Option<String>,
    description: Option<String>,
    visible: Option<bool>,
}

/// Each read list-like entry matches what reading gives; an entry is missing
/// exactly when reading it failed.
spec fn list_parts_match(
    authors: Option<Authors>,
    categories: Option<Categories>,
    hints: Option<Hints>,
    files: Option<Option<Files>>,
    deploy: Option<Option<DeployOptions>>,
    e: Seq<(YamlValue, YamlValue)>,
) -> bool {
    &&& (match spec_authors_entry(e) {
        Ok(v) => authors matches Some(a) && a@ == v,
        Err(_) => authors is None,
    })
    &&& (match spec_categories_entry(e) {
        Ok(v) => categories matches Some(a) && a@ == v,
        Err(_) => categories is None,
    })
    &&& (match spec_hints_entry(e) {
        Ok(v) => hints matches Some(a) && a@ == v,
        Err(_) => hints is None,
    })
    &&& (match spec_files_entry(e) {
        Ok(v) => files matches Some(a) && optional_files_view(a) == v,
        Err(_) => files is None,
    })
    &&& (match spec_deploy_entry(e) {
        Ok(v) => deploy matches Some(a) && a == v,
        Err(_) => deploy is None,
    })
}

/// Each other read entry matches what reading gives.
spec fn scalar_parts_match(
    points: Option<u64>,
    flag: Option<Flag>,
    name: Option<String>,
    description: Option<String>,
    visible: Option<bool>,
    e: Seq<(YamlValue, YamlValue)>,
) -> bool {
    &&& (match spec_points_entry(e) {
        Ok(v) => points matches Some(a) && a == v,
        Err(_) => points is None,
    })
    &&& (match spec_flag_entry(e) {
        Ok(v) => flag matches Some(a) && a@ == v,
        Err(_) => flag is None,
    })
    &&& (match spec_string_entry(e, "name"@) {
        Ok(v) => name matches Some(a) && a@ == v,
        Err(_) => name is None,
    })
    &&& (match spec_string_entry(e, "description"@) {
        Ok(v) => description matches Some(a) && a@ == v,
        Err(_) => description is None,
    })
    &&& (match spec_visible_entry(e) {
        Ok(v) => visible matches Some(a) && a == v,
        Err(_) => visible is None,
    })
}

spec fn parts_match(p: Parts, e: Seq<(YamlValue, YamlValue)>) -> bool {
    &&& list_parts_match(p.authors, p.categories, p.hints, p.files, p.deploy, e)
    &&& scalar_parts_match(p.points, p.flag, p.name, p.description, p.visible, e)
}

fn read_list_parts(entries: &Vec<(YamlValue, YamlValue)>) -> (r: (Option<Authors>, Option<Categories>, Option<Hints>, Option<Option<Files>>, Option<Option<DeployOptions>>, Vec<YamlAttribVerifyError>))
    ensures
        list_parts_match(r.0, r.1, r.2, r.3, r.4, entries@),
        attrib_errors_view(r.5@) == spec_list_part_errors(entries@),
{
    let ghost e = entries@;
    let mut errs: Vec<YamlAttribVerifyError> = Vec::new();
    let ghost mut expected: Seq<YamlAttribVerifyErrorView> = Seq::empty();
    assert(attrib_errors_view(errs@) =~= expected);

    let (authors, failed) = match authors_entry(entries) {
        Ok(x) => (Some(x), None),
        Err(err) => (None, Some(YamlAttribVerifyError::Authors(err))),
    };
    push_failure(&mut errs, failed);
    proof {
        expected = expected + failure(spec_authors_entry(e), |x: StrListErrorView| YamlAttribVerifyErrorView::Authors(x));
    }
    assert(attrib_errors_view(errs@) == expected);

    let (categories, failed) = match categories_entry(entries) {
        Ok(x) => (Some(x), None),
        Err(err) => (None, Some(YamlAttribVerifyError::Categories(err))),
    };
    push_failure(&mut errs, failed);
    proof {
        expected = expected + failure(spec_categories_entry(e), |x: CategoryErrorView| YamlAttribVerifyErrorView::Categories(x));
    }
    assert(attrib_errors_view(errs@) == expected);

    let (hints, failed) = match hints_entry(entries) {
        Ok(x) => (Some(x), None),
        Err(err) => (None, Some(YamlAttribVerifyError::Hints(err))),
    };
    push_failure(&mut errs, failed);
    proof {
        expected = expected + failure(spec_hints_entry(e), |x: StrListErrorView| YamlAttribVerifyErrorView::Hints(x));
    }
    assert(attrib_errors_view(errs@) == expected);

    let (files, failed) = match files_entry(entries) {
        Ok(x) => (Some(x), None),
        Err(err) => (None, Some(YamlAttribVerifyError::Files(err))),
    };
    push_failure(&mut errs, failed);
    proof {
        expected = expected + failure(spec_files_entry(e), |x: FileErrorsView| YamlAttribVerifyErrorView::Files(x));
    }
    assert(attrib_errors_view(errs@) == expected);

    let (deploy, failed) = match deploy_entry(entries) {
        Ok(x) => (Some(x), None),
        Err(err) => (None, Some(YamlAttribVerifyError::Deploy(err))),
    };
    push_failure(&mut errs, failed);
    proof {
        expected = expected + failure(spec_deploy_entry(e), |x: DeployErrorView| YamlAttribVerifyErrorView::Deploy(x));
    }
    assert(attrib_errors_view(errs@) == expected);

    assert(expected =~= spec_list_part_errors(e));
    (authors, categories, hints, files, deploy, errs)
}

fn read_scalar_parts(entries: &Vec<(YamlValue, YamlValue)>) -> (r: (Option<u64>, Option<Flag>, Option<String>, Option<String>, Option<bool>, Vec<YamlAttribVerifyError>))
    ensures
        scalar_parts_match(r.0, r.1, r.2, r.3, r.4, entries@),
        attrib_errors_view(r.5@) == spec_scalar_part_errors(entries@),
{
    let ghost e = entries@;
    let mut errs: Vec<YamlAttribVerifyError> = Vec::new();
    let ghost mut expected: Seq<YamlAttribVerifyErrorView> = Seq::empty();
    assert(attrib_errors_view(errs@) =~= expected);

    let (points, failed) = match points_entry(entries) {
        Ok(x) => (Some(x), None),
        Err(err) => (None, Some(YamlAttribVerifyError::PointsNotInt(err))),
    };
    push_failure(&mut errs, failed);
    proof {
        expected = expected + failure(spec_points_entry(e), |x: ValueType| YamlAttribVerifyErrorView::PointsNotInt(x));
    }
    assert(attrib_errors_view(errs@) == expected);

    let (flag, failed) = match flag_entry(entries) {
        Ok(x) => (Some(x), None),
        Err(err) => (None, Some(YamlAttribVerifyError::Flag(err))),
    };
    push_failure(&mut errs, failed);
    proof {
        expected = expected + failure(spec_flag_entry(e), |x: FlagErrorView| YamlAttribVerifyErrorView::Flag(x));
    }
    assert(attrib_errors_view(errs@) == expected);

    let (name, failed) = match string_entry(entries, "name") {
        Ok(x) => (Some(x), None),
        Err(err) => (None, Some(YamlAttribVerifyError::NameNotString(err))),
    };
    push_failure(&mut errs, failed);
    proof {
        expected = expected + failure(spec_string_entry(e, "name"@), |x: ValueType| YamlAttribVerifyErrorView::NameNotString(x));
    }
    assert(attrib_errors_view(errs@) == expected);

    let (description, failed) = match string_entry(entries, "description") {
        Ok(x) => (Some(x), None),
        Err(err) => (None, Some(YamlAttribVerifyError::DescNotString(err))),
    };
    push_failure(&mut errs, failed);
    proof {
        expected = expected + failure(spec_string_entry(e, "description"@), |x: ValueType| YamlAttribVerifyErrorView::DescNotString(x));
    }
    assert(attrib_errors_view(errs@) == expected);

    let (visible, failed) = match visible_entry(entries) {
        Ok(x) => (Some(x), None),
        Err(err) => (None, Some(YamlAttribVerifyError::VisNotBool(err))),
    };
    push_failure(&mut errs, failed);
    proof {
        expected = expected + failure(spec_visible_entry(e), |x: ValueType| YamlAttribVerifyErrorView::VisNotBool(x));
    }
    assert(attrib_errors_view(errs@) == expected);
    assert(expected =~= spec_scalar_part_errors(e));
    (points, flag, name, description, visible, errs)
}

fn read_parts(entries: &Vec<(YamlValue, YamlValue)>) -> (r: (Parts, Vec<YamlAttribVerifyError>))
    ensures
        parts_match(r.0, entries@),
        attrib_errors_view(r.1@) == spec_part_errors(entries@),
{
    let (authors, categories, hints, files, deploy, mut errs) = read_list_parts(entries);
    let (points, flag, name, description, visible, mut errs2) = read_scalar_parts(entries);
    let ghost first = errs@;
    let ghost second = errs2@;
    errs.append(&mut errs2);
    assert(attrib_errors_view(errs@) =~= attrib_errors_view(first) + attrib_errors_view(second));
    (Parts { authors, categories, hints, files, deploy, points, flag, name, description, visible }, errs)
}

proof fn lemma_no_failure<T, E>(r: Result<T, E>, wrap: spec_fn(E) -> YamlAttribVerifyErrorView)
    ensures
        failure(r, wrap).len() == 0 <==> r is Ok,
{
}

/// A description with no wrong entry is built from what was read.
fn assemble(parts: Parts, Ghost(e): Ghost<Seq<(YamlValue, YamlValue)>>) -> (r: YamlShape)
    requires
        parts_match(parts, e),
        spec_part_errors(e).len() == 0,
    ensures
        r@ == spec_shape(e),
{
    proof { lemma_no_failure(spec_authors_entry(e), |x: StrListErrorView| YamlAttribVerifyErrorView::Authors(x)); }
    proof { lemma_no_failure(spec_categories_entry(e), |x: CategoryErrorView| YamlAttribVerifyErrorView::Categories(x)); }
    proof { lemma_no_failure(spec_hints_entry(e), |x: StrListErrorView| YamlAttribVerifyErrorView::Hints(x)); }
    proof { lemma_no_failure(spec_files_entry(e), |x: FileErrorsView| YamlAttribVerifyErrorView::Files(x)); }
    proof { lemma_no_failure(spec_deploy_entry(e), |x: DeployErrorView| YamlAttribVerifyErrorView::Deploy(x)); }
    proof { lemma_no_failure(spec_points_entry(e), |x: ValueType| YamlAttribVerifyErrorView::PointsNotInt(x)); }
    proof { lemma_no_failure(spec_flag_entry(e), |x: FlagErrorView| YamlAttribVerifyErrorView::Flag(x)); }
    proof { lemma_no_failure(spec_string_entry(e, "name"@), |x: ValueType| YamlAttribVerifyErrorView::NameNotString(x)); }
    proof { lemma_no_failure(spec_string_entry(e, "description"@), |x: ValueType| YamlAttribVerifyErrorView::DescNotString(x)); }
    proof { lemma_no_failure(spec_visible_entry(e), |x: ValueType| YamlAttribVerifyErrorView::VisNotBool(x)); }
    match parts {
        Parts { authors: Some(authors), categories: Some(categories), hints: Some(hints), files: Some(files), deploy: Some(deploy), points: Some(points), flag: Some(flag), name: Some(name), description: Some(description), visible: Some(visible) } => YamlShape { authors, categories, hints, files, deploy, points, flag, name, description, visible },
        _ => vstd::pervasive::unreached(),
    }
}

/// Checks a parsed challenge description against the competition's rules.
pub fn verify_yaml_value(base: &YamlValue, correctness: &YamlCorrectness) -> (r: Result<YamlShape, YamlVerifyError>)
    requires
        correctness.wf() || !reaches_rules(*base),
    ensures
        shape_outcome_view(r) == spec_verify_value(*base, correctness@),
{
    let entries = match base.as_mapping() {
        Some(entries) => entries,
        None => return Err(YamlVerifyError::BaseNotMap(get_type(base))),
    };
    let (parts, errs) = read_parts(entries);
    if errs.len() > 0 {
        return Err(YamlVerifyError::PartErrors(errs));
    }
    let shape = assemble(parts, Ghost(entries@));
    let literal = match &shape.flag {
        Flag::String(s) => Some(s.as_str()),
        Flag::File(_) => None,
    };
    match correctness.verify_parts(literal, shape.categories.slice(), shape.points) {
        Ok(()) => Ok(shape),
        Err(broken) => Err(YamlVerifyError::Correctness(broken)),
    }
}

impl YamlShape {
    /// Reads a challenge description and checks it against the competition's rules.
    pub fn try_from_str(s: &str, correctness: &YamlCorrectness) -> (r: Result<YamlShape, YamlVerifyError>)
        requires
            correctness.wf() || !text_reaches_rules(s@),
        ensures
            shape_outcome_view(r) == spec_verify_text(s@, correctness@),
    {
        match parse_yaml_document(s) {
            Err(e) => Err(YamlVerifyError::Unparsable(e)),
            Ok(base) => verify_yaml_value(&base, correctness),
        }
    }
}

} // verus!

verus! {

broadcast use vstd::std_specs::slice::axiom_spec_slice_iter;

impl YamlCorrectness {
    /// Checks a description against the rules; on failure returns the broken rules.
    pub fn verify<'a>(&self, shape: &'a YamlShape) -> (r: Result<&'a YamlShape, YamlCorrectness>)
        requires
            self.wf(),
        ensures
            match r {
                Ok(s) => s == shape && spec_rules_pass(self@, literal_flag(shape@.flag), shape@.categories, shape@.points),
                Err(broken) => !spec_rules_pass(self@, literal_flag(shape@.flag), shape@.categories, shape@.points)
                    && broken@ == spec_broken_rules(self@, literal_flag(shape@.flag), shape@.categories, shape@.points),
            },
    {
        let literal = match &shape.flag {
            Flag::String(s) => Some(s.as_str()),
            Flag::File(_) => None,
        };
        match self.verify_parts(literal, shape.categories.slice(), shape.points) {
            Ok(()) => Ok(shape),
            Err(broken) => Err(broken),
        }
    }
}

/// Reads and checks a description; without rules, every rule allows everything.
pub fn verify_yaml(yaml_text: &str, correctness_options: Option<YamlCorrectness>) -> (r: Result<YamlShape, YamlVerifyError>)
    requires
        match correctness_options {
            Some(c) => c.wf() || !text_reaches_rules(yaml_text@),
            None => true,
        },
    ensures
        shape_outcome_view(r) == spec_verify_text(
            yaml_text@,
            match correctness_options {
                Some(c) => c@,
                None => YamlCorrectness::default_rules_view(),
            },
        ),
{
    let correctness = match correctness_options {
        Some(c) => c,
        None => YamlCorrectness::default_rules(),
    };
    YamlShape::try_from_str(yaml_text, &correctness)
}

impl YamlShape {
    pub fn chall_name(&self) -> (r: &str)
        ensures
            r@ == self@.name,
    {
        self.name.as_str()
    }

    pub fn description(&self) -> (r: &str)
        ensures
            r@ == self@.description,
    {
        self.description.as_str()
    }

    pub fn points(&self) -> (r: u64)
        ensures
            r == self@.points,
    {
        self.points
    }

    pub fn visible(&self) -> (r: bool)
        ensures
            r == self@.visible,
    {
        self.visible
    }

    pub fn deploy(&self) -> (r: Option<DeployOptions>)
        ensures
            r == self@.deploy,
    {
        self.deploy
    }

    pub fn authors(&self) -> (r: &[String])
        ensures
            strings_view(r@) == self@.authors,
    {
        self.authors.slice()
    }

    pub fn author_iter(&self) -> (r: std::slice::Iter<'_, String>)
        ensures
            strings_view(vstd::std_specs::slice::into_iter_elts(r)) == self@.authors,
    {
        self.authors.slice().iter()
    }

    pub fn hints(&self) -> (r: &[String])
        ensures
            strings_view(r@) == self@.hints,
    {
        self.hints.slice()
    }

    pub fn hint_iter(&self) -> (r: std::slice::Iter<'_, String>)
        ensures
            strings_view(vstd::std_specs::slice::into_iter_elts(r)) == self@.hints,
    {
        self.hints.slice().iter()
    }

    pub fn categories(&self) -> (r: &[Category])
        ensures
            crate::yaml::categories::category_names(r@) == self@.categories,
    {
        self.categories.slice()
    }

    pub fn category_iter(&self) -> (r: std::slice::Iter<'_, Category>)
        ensures
            crate::yaml::categories::category_names(vstd::std_specs::slice::into_iter_elts(r)) == self@.categories,
    {
        self.categories.slice().iter()
    }

    /// The category names, in order.
    pub fn category_str_iter(&self) -> (r: Vec<&str>)
        ensures
            r@.map_values(|s: &str| s@) == self@.categories,
    {
        let cats = self.categories.slice();
        let mut out: Vec<&str> = Vec::new();
        let mut i: usize = 0;
        while i < cats.len()
            invariant
                i <= cats@.len(),
                out@.len() == i,
                forall|j: int| 0 <= j < i ==> #[trigger] out@[j]@ == cats@[j]@,
                crate::yaml::categories::category_names(cats@) == self@.categories,
            decreases cats@.len() - i,
        {
            out.push(cats[i].as_str());
            i = i + 1;
        }
        assert(out@.map_values(|s: &str| s@) =~= crate::yaml::categories::category_names(cats@));
        out
    }

    pub fn files(&self) -> (r: Option<&[String]>)
        ensures
            match r {
                Some(f) => self@.files == Some(strings_view(f@)),
                None => self@.files is None,
            },
    {
        match &self.files {
            Some(f) => Some(f.slice()),
            None => None,
        }
    }

    pub fn file_iter(&self) -> (r: Option<std::slice::Iter<'_, String>>)
        ensures
            match r {
                Some(it) => self@.files == Some(strings_view(vstd::std_specs::slice::into_iter_elts(it))),
                None => self@.files is None,
            },
    {
        match &self.files {
            Some(f) => Some(f.slice().iter()),
            None => None,
        }
    }

    pub fn flag_str(&self) -> (r: Option<&str>)
        ensures
            match r {
                Some(s) => self@.flag == FlagView::String(s@),
                None => self@.flag is File,
            },
    {
        match &self.flag {
            Flag::String(s) => Some(s.as_str()),
            Flag::File(_) => None,
        }
    }

    pub fn flag_filepath(&self) -> (r: Option<&str>)
        ensures
            match r {
                Some(p) => self@.flag == FlagView::File(p@),
                None => self@.flag is String,
            },
    {
        match &self.flag {
            Flag::File(p) => Some(p.as_str()),
            Flag::String(_) => None,
        }
    }
}

} // verus!
