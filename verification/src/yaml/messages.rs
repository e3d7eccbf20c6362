//! The messages that explain to a challenge author what is wrong with a
//! description.

use vstd::prelude::*;

use crate::decimal::{decimal_chars, decimal_digits};
use crate::text::{chars_of, push_str, string_of};
use crate::yaml::categories::{category_names, Categories, Category, CategoryError, CategoryErrorView};
use crate::yaml::files::{FileEntryError, FileEntryErrorView, FileErrors, FileErrorsView, Files};
use crate::yaml::flag::{Flag, FlagError, FlagErrorView, FlagView};
use crate::yaml::lists::{strings_view, AuthorError, Authors, HintError, Hints, StrListErrorView};
use crate::yaml::correctness::spec_issue_text;
use crate::yaml::deploy::{
    DeployError, DeployErrorView, DeployTargetError, DeployTargetErrorView, DeployTargetName, NetProtDeErr,
    NetProtDeErrView,
};
use crate::yaml::shape::{attrib_errors_view, YamlAttribVerifyError, YamlAttribVerifyErrorView, YamlVerifyError, YamlVerifyErrorView};
use crate::yaml::value::{value_type_text, ValueType, ValueTypeEnum};

verus! {

/// The `{:?}` text of a string: quoted, with its special characters escaped.
pub uninterp spec fn debug_quoted(text: Seq<char>) -> Seq<char>;

/// Writes a string with `{:?}`; the claim is that the text depends on the
/// string alone (named [`debug_quoted`]).
#[verifier::external_body]
pub(crate) fn debug_text(text: &str) -> (r: String)
    ensures
        r@ == debug_quoted(text@),
{
    format!("{:?}", text)
}

/// A list of strings as `{:?}` writes it: `["a", "b"]`.
pub open spec fn debug_list(items: Seq<Seq<char>>) -> Seq<char> {
    "["@ + debug_joined(items) + "]"@
}

pub open spec fn debug_joined(items: Seq<Seq<char>>) -> Seq<char>
    decreases items.len(),
{
    if items.len() == 0 {
        Seq::empty()
    } else if items.len() == 1 {
        debug_quoted(items[0])
    } else {
        debug_joined(items.drop_last()) + ", "@ + debug_quoted(items.last())
    }
}

/// Writes a list of strings as `{:?}` does.
pub fn debug_list_text(items: &[String]) -> (r: String)
    ensures
        r@ == debug_list(strings_view(items@)),
{
    let mut joined = String::new();
    let mut i: usize = 0;
    assert(strings_view(items@.take(0)) =~= Seq::<Seq<char>>::empty());
    while i < items.len()
        invariant
            i <= items@.len(),
            joined@ == debug_joined(strings_view(items@.take(i as int))),
        decreases items@.len() - i,
    {
        let quoted = debug_text(items[i].as_str());
        if i > 0 {
            push_str(&mut joined, ", ");
        }
        push_str(&mut joined, quoted.as_str());
        proof {
            let next = strings_view(items@.take(i + 1));
            assert(next.drop_last() =~= strings_view(items@.take(i as int)));
            assert(next.last() == items@[i as int]@);
        }
        i = i + 1;
    }
    assert(items@.take(items@.len() as int) =~= items@);
    let mut out = string_of(chars_of("[").as_slice());
    push_str(&mut out, joined.as_str());
    push_str(&mut out, "]");
    out
}

/// `<prefix><kind of value><suffix>`.
pub(crate) fn framed(prefix: &str, t: ValueType, suffix: &str) -> (r: String)
    ensures
        r@ == prefix@ + value_type_text(t.type_enum) + suffix@,
{
    let mut out = string_of(chars_of(prefix).as_slice());
    push_str(&mut out, t.get_str());
    push_str(&mut out, suffix);
    out
}

fn text_of(s: &str) -> (r: String)
    ensures
        r@ == s@,
{
    string_of(chars_of(s).as_slice())
}

pub open spec fn spec_author_message(e: StrListErrorView) -> Seq<char> {
    match e {
        StrListErrorView::BadEntryType(_) => "Author names must be strings."@,
        StrListErrorView::BadType(t) => "Authors should be a list, not "@ + value_type_text(t.type_enum) + "."@,
        StrListErrorView::MissingKey => "You have to define `authors`."@,
    }
}

impl AuthorError {
    pub fn message(&self) -> (r: String)
        ensures
            r@ == spec_author_message(self@),
    {
        match self {
            AuthorError::BadEntryType(_) => text_of("Author names must be strings."),
            AuthorError::BadType(t) => framed("Authors should be a list, not ", *t, "."),
            AuthorError::MissingKey => text_of("You have to define `authors`."),
        }
    }
}

pub open spec fn spec_hint_message(e: StrListErrorView) -> Seq<char> {
    match e {
        StrListErrorView::BadEntryType(_) => "Hints must be strings."@,
        StrListErrorView::BadType(t) => "Hints should be in a list, not "@ + value_type_text(t.type_enum) + "."@,
        StrListErrorView::MissingKey => "You have to define `hints`."@,
    }
}

impl HintError {
    pub fn message(&self) -> (r: String)
        ensures
            r@ == spec_hint_message(self@),
    {
        match self {
            HintError::BadEntryType(_) => text_of("Hints must be strings."),
            HintError::BadType(t) => framed("Hints should be in a list, not ", *t, "."),
            HintError::MissingKey => text_of("You have to define `hints`."),
        }
    }
}

/// The flag messages, as written (a missing flag is reported with the
/// categories' message).
pub open spec fn spec_flag_message(e: FlagErrorView) -> Seq<char> {
    match e {
        FlagErrorView::BadType(t) => "Flag should be a list, not "@ + value_type_text(t.type_enum) + "."@,
        FlagErrorView::BadString(s) => "The string "@ + s + " is not a valid flag."@,
        FlagErrorView::BadPath(p) => "The string "@ + p
            + " is not a valid path. (hint: If you want to define a flag with a string, use `flag: <input>`)"@,
        FlagErrorView::MappingNeedsFile => "If you are going to define a flag via a file, you need to have `file: <path>` as an entry under `flag`. (<path> must be a string)"@,
        FlagErrorView::MissingKey => "You have to define `categories`."@,
    }
}

impl FlagError {
    pub fn message(&self) -> (r: String)
        ensures
            r@ == spec_flag_message(self@),
    {
        match self {
            FlagError::BadType(t) => framed("Flag should be a list, not ", *t, "."),
            FlagError::BadString(s) => {
                let mut out = text_of("The string ");
                push_str(&mut out, s.as_str());
                push_str(&mut out, " is not a valid flag.");
                out
            },
            FlagError::BadPath(p) => {
                let mut out = text_of("The string ");
                push_str(&mut out, p.as_str());
                push_str(&mut out, " is not a valid path. (hint: If you want to define a flag with a string, use `flag: <input>`)");
                out
            },
            FlagError::MappingNeedsFile => text_of(
                "If you are going to define a flag via a file, you need to have `file: <path>` as an entry under `flag`. (<path> must be a string)",
            ),
            FlagError::MissingKey => text_of("You have to define `categories`."),
        }
    }
}

pub open spec fn spec_category_message(e: CategoryErrorView) -> Seq<char> {
    match e {
        CategoryErrorView::InvalidCategories(names, types) => {
            let about_names = if names.len() == 0 {
                Seq::empty()
            } else if names.len() == 1 {
                "`"@ + names[0] + "` is not a valid category name."@
            } else {
                "`"@ + debug_list(names) + "` are not valid category names."@
            };
            let about_types = if types.len() == 0 { Seq::empty() } else { "Category names must also be strings."@ };
            about_names + about_types
        },
        CategoryErrorView::InvalidBaseType(t) => "Categories should be a list, not "@ + value_type_text(t.type_enum) + "."@,
        CategoryErrorView::MissingKey => "You have to define `categories`."@,
    }
}

impl CategoryError {
    pub fn message(&self) -> (r: String)
        ensures
            r@ == spec_category_message(self@),
    {
        match self {
            CategoryError::InvalidCategories(names, types) => {
                let mut out = String::new();
                if names.len() == 1 {
                    push_str(&mut out, "`");
                    push_str(&mut out, names[0].as_str());
                    push_str(&mut out, "` is not a valid category name.");
                } else if names.len() > 1 {
                    let listed = debug_list_text(names.as_slice());
                    push_str(&mut out, "`");
                    push_str(&mut out, listed.as_str());
                    push_str(&mut out, "` are not valid category names.");
                }
                if types.len() > 0 {
                    push_str(&mut out, "Category names must also be strings.");
                }
                proof {
                    if names@.len() == 1 {
                        assert(strings_view(names@)[0] == names@[0]@);
                    }
                }
                out
            },
            CategoryError::InvalidBaseType(t) => framed("Categories should be a list, not ", *t, "."),
            CategoryError::MissingKey => text_of("You have to define `categories`."),
        }
    }
}

pub open spec fn spec_file_entry_message(e: FileEntryErrorView) -> Seq<char> {
    match e {
        FileEntryErrorView::ItemNotMapping(i, t) => "#"@ + decimal_digits(i as nat)
            + ": Must be in the format of `- src: <file>`, not "@ + value_type_text(t.type_enum) + "."@,
        FileEntryErrorView::SrcKeyNotDefined(i) => "#"@ + decimal_digits(i as nat) + ": Doesn't have a `src:` in it."@,
        FileEntryErrorView::SrcPathNotString(i, t) => "#"@ + decimal_digits(i as nat) + ": src must be a filepath, not "@
            + value_type_text(t.type_enum) + "."@,
        FileEntryErrorView::InvalidPath(i, p) => "#"@ + decimal_digits(i as nat) + ": src \""@ + p + "\" is an invalid filepath."@,
    }
}

impl FileEntryError {
    pub fn message(&self) -> (r: String)
        ensures
            r@ == spec_file_entry_message(self@),
    {
        let index = match self {
            FileEntryError::ItemNotMapping(i, _) => *i,
            FileEntryError::SrcKeyNotDefined(i) => *i,
            FileEntryError::SrcPathNotString(i, _) => *i,
            FileEntryError::InvalidPath(i, _) => *i,
        };
        let mut out = text_of("#");
        let digits = string_of(decimal_chars(index as u64).as_slice());
        push_str(&mut out, digits.as_str());
        match self {
            FileEntryError::ItemNotMapping(_, t) => {
                push_str(&mut out, ": Must be in the format of `- src: <file>`, not ");
                push_str(&mut out, t.get_str());
                push_str(&mut out, ".");
            },
            FileEntryError::SrcKeyNotDefined(_) => push_str(&mut out, ": Doesn't have a `src:` in it."),
            FileEntryError::SrcPathNotString(_, t) => {
                push_str(&mut out, ": src must be a filepath, not ");
                push_str(&mut out, t.get_str());
                push_str(&mut out, ".");
            },
            FileEntryError::InvalidPath(_, p) => {
                push_str(&mut out, ": src \"");
                push_str(&mut out, p.as_str());
                push_str(&mut out, "\" is an invalid filepath.");
            },
        }
        out
    }
}

/// Each entry error on a line of its own, indented.
pub open spec fn entry_lines(errs: Seq<FileEntryErrorView>) -> Seq<char>
    decreases errs.len(),
{
    if errs.len() == 0 {
        Seq::empty()
    } else {
        entry_lines(errs.drop_last()) + "        "@ + spec_file_entry_message(errs.last()) + "\n"@
    }
}

pub open spec fn spec_files_message(e: FileErrorsView) -> Seq<char> {
    match e {
        FileErrorsView::BadBaseType(t) => "Files should be a list, not "@ + value_type_text(t.type_enum) + "."@,
        FileErrorsView::EntryErrors(errs) => "Some entries under `files` are invalid:\n"@ + entry_lines(errs),
    }
}

impl FileErrors {
    pub fn message(&self) -> (r: String)
        ensures
            r@ == spec_files_message(self@),
    {
        match self {
            FileErrors::BadBaseType(t) => framed("Files should be a list, not ", *t, "."),
            FileErrors::EntryErrors(errs) => {
                let ghost views = crate::yaml::files::entry_errors_view(errs@);
                let mut out = text_of("Some entries under `files` are invalid:\n");
                let ghost head = out@;
                let mut i: usize = 0;
                assert(views.take(0) =~= Seq::<FileEntryErrorView>::empty());
                while i < errs.len()
                    invariant
                        i <= errs@.len(),
                        views == crate::yaml::files::entry_errors_view(errs@),
                        head == "Some entries under `files` are invalid:\n"@,
                        out@ == head + entry_lines(views.take(i as int)),
                    decreases errs@.len() - i,
                {
                    let line = errs[i].message();
                    push_str(&mut out, "        ");
                    push_str(&mut out, line.as_str());
                    push_str(&mut out, "\n");
                    proof {
                        assert(views.take(i + 1).drop_last() =~= views.take(i as int));
                        assert(views.take(i + 1).last() == errs@[i as int]@);
                    }
                    i = i + 1;
                }
                assert(views.take(errs@.len() as int) =~= views);
                out
            },
        }
    }
}

pub open spec fn spec_net_prot_message(e: NetProtDeErrView) -> Seq<char> {
    match e {
        NetProtDeErrView::NoSlash => "No slash was found in the string representing the network protocol!"@,
        NetProtDeErrView::BadPort(p) => p + " is not a valid port number!"@,
        NetProtDeErrView::BadProtocol(p) => p + " is not a valid protocol identifier!"@,
    }
}

impl NetProtDeErr {
    pub fn message(&self) -> (r: String)
        ensures
            r@ == spec_net_prot_message(self@),
    {
        match self {
            NetProtDeErr::NoSlash => text_of("No slash was found in the string representing the network protocol!"),
            NetProtDeErr::BadPort(p) => {
                let mut out = text_of(p.as_str());
                push_str(&mut out, " is not a valid port number!");
                out
            },
            NetProtDeErr::BadProtocol(p) => {
                let mut out = text_of(p.as_str());
                push_str(&mut out, " is not a valid protocol identifier!");
                out
            },
        }
    }
}

pub open spec fn target_name_text(n: DeployTargetName) -> Seq<char> {
    match n {
        DeployTargetName::Web => "web"@,
        DeployTargetName::Admin => "admin"@,
        DeployTargetName::Nc => "nc"@,
    }
}

pub open spec fn spec_target_message(e: DeployTargetErrorView) -> Seq<char> {
    match e {
        DeployTargetErrorView::NotMapping(t) => "should be a dictionary, not "@ + value_type_text(t.type_enum) + "."@,
        DeployTargetErrorView::MissingExpose => "has to define `expose`."@,
        DeployTargetErrorView::ExposeNotString(t) => "`expose` should be a string, not "@ + value_type_text(t.type_enum) + "."@,
        DeployTargetErrorView::BadExpose(n) => spec_net_prot_message(n),
        DeployTargetErrorView::BadReplicas(t) => "`replicas` should be a number from 0 to 255, not "@ + value_type_text(t.type_enum) + "."@,
    }
}

pub open spec fn spec_deploy_message(e: DeployErrorView) -> Seq<char> {
    match e {
        DeployErrorView::BadBaseType(t) => "Deploy should be a dictionary, not "@ + value_type_text(t.type_enum) + "."@,
        DeployErrorView::Target(n, t) => "The `"@ + target_name_text(n) + "` target "@ + spec_target_message(t),
    }
}

impl DeployError {
    pub fn message(&self) -> (r: String)
        ensures
            r@ == spec_deploy_message(self@),
    {
        match self {
            DeployError::BadBaseType(t) => framed("Deploy should be a dictionary, not ", *t, "."),
            DeployError::Target(n, e) => {
                let mut out = text_of("The `");
                match n {
                    DeployTargetName::Web => push_str(&mut out, "web"),
                    DeployTargetName::Admin => push_str(&mut out, "admin"),
                    DeployTargetName::Nc => push_str(&mut out, "nc"),
                }
                push_str(&mut out, "` target ");
                let detail = match e {
                    DeployTargetError::NotMapping(t) => framed("should be a dictionary, not ", *t, "."),
                    DeployTargetError::MissingExpose => text_of("has to define `expose`."),
                    DeployTargetError::ExposeNotString(t) => framed("`expose` should be a string, not ", *t, "."),
                    DeployTargetError::BadExpose(p) => p.message(),
                    DeployTargetError::BadReplicas(t) => framed("`replicas` should be a number from 0 to 255, not ", *t, "."),
                };
                push_str(&mut out, detail.as_str());
                out
            },
        }
    }
}

pub open spec fn spec_attrib_body(e: YamlAttribVerifyErrorView) -> Seq<char> {
    match e {
        YamlAttribVerifyErrorView::NameNotString(t) => "The name should be a string, not "@ + value_type_text(t.type_enum) + "."@,
        YamlAttribVerifyErrorView::DescNotString(t) => "The description should be a string, not "@ + value_type_text(t.type_enum) + "."@,
        YamlAttribVerifyErrorView::VisNotBool(t) => "The visibility switch should be a boolean, not "@ + value_type_text(t.type_enum) + "."@,
        YamlAttribVerifyErrorView::PointsNotInt(t) => if t.type_enum == ValueTypeEnum::Number {
            "The value should be an positive integer, not negative or fractional."@
        } else {
            "The value should be an positive integer, not "@ + value_type_text(t.type_enum) + "."@
        },
        YamlAttribVerifyErrorView::Categories(c) => spec_category_message(c),
        YamlAttribVerifyErrorView::Authors(a) => spec_author_message(a),
        YamlAttribVerifyErrorView::Hints(h) => spec_hint_message(h),
        YamlAttribVerifyErrorView::Files(f) => spec_files_message(f),
        YamlAttribVerifyErrorView::Flag(f) => spec_flag_message(f),
        YamlAttribVerifyErrorView::Deploy(d) => spec_deploy_message(d),
    }
}

/// The message of one wrong entry, on a line of its own.
pub open spec fn spec_attrib_message(e: YamlAttribVerifyErrorView) -> Seq<char> {
    spec_attrib_body(e) + "\n"@
}

impl YamlAttribVerifyError {
    pub fn message(&self) -> (r: String)
        ensures
            r@ == spec_attrib_message(self@),
    {
        let mut out = match self {
            YamlAttribVerifyError::NameNotString(t) => framed("The name should be a string, not ", *t, "."),
            YamlAttribVerifyError::DescNotString(t) => framed("The description should be a string, not ", *t, "."),
            YamlAttribVerifyError::VisNotBool(t) => framed("The visibility switch should be a boolean, not ", *t, "."),
            YamlAttribVerifyError::PointsNotInt(t) => if matches!(t.type_enum, ValueTypeEnum::Number) {
                text_of("The value should be an positive integer, not negative or fractional.")
            } else {
                framed("The value should be an positive integer, not ", *t, ".")
            },
            YamlAttribVerifyError::Categories(c) => c.message(),
            YamlAttribVerifyError::Authors(a) => a.message(),
            YamlAttribVerifyError::Hints(h) => h.message(),
            YamlAttribVerifyError::Files(f) => f.message(),
            YamlAttribVerifyError::Flag(f) => f.message(),
            YamlAttribVerifyError::Deploy(d) => d.message(),
        };
        push_str(&mut out, "\n");
        out
    }
}

/// Each error of a description, indented.
pub open spec fn attrib_lines(errs: Seq<YamlAttribVerifyErrorView>) -> Seq<char>
    decreases errs.len(),
{
    if errs.len() == 0 {
        Seq::empty()
    } else {
        attrib_lines(errs.drop_last()) + "    "@ + spec_attrib_message(errs.last())
    }
}

pub open spec fn spec_verify_message(e: YamlVerifyErrorView) -> Seq<char> {
    match e {
        YamlVerifyErrorView::Unparsable(m) => "Invalid YAML:\n"@ + m + "\n"@,
        YamlVerifyErrorView::BaseNotMap(_) => "The yaml file must have `key: value` pairs\n"@,
        YamlVerifyErrorView::PartErrors(errs) => "Yaml failed to verify:\n"@ + attrib_lines(errs),
        YamlVerifyErrorView::Correctness(rules) => "Yaml does not follow the competition's rules:"@ + spec_issue_text(rules),
    }
}

impl YamlVerifyError {
    pub fn message(&self) -> (r: String)
        ensures
            r@ == spec_verify_message(self@),
    {
        match self {
            YamlVerifyError::Unparsable(e) => {
                let mut out = text_of("Invalid YAML:\n");
                push_str(&mut out, e.message.as_str());
                push_str(&mut out, "\n");
                out
            },
            YamlVerifyError::BaseNotMap(_) => text_of("The yaml file must have `key: value` pairs\n"),
            YamlVerifyError::PartErrors(errs) => {
                let ghost views = attrib_errors_view(errs@);
                let mut out = text_of("Yaml failed to verify:\n");
                let ghost head = out@;
                let mut i: usize = 0;
                assert(views.take(0) =~= Seq::<YamlAttribVerifyErrorView>::empty());
                while i < errs.len()
                    invariant
                        i <= errs@.len(),
                        views == attrib_errors_view(errs@),
                        head == "Yaml failed to verify:\n"@,
                        out@ == head + attrib_lines(views.take(i as int)),
                    decreases errs@.len() - i,
                {
                    let line = errs[i].message();
                    push_str(&mut out, "    ");
                    push_str(&mut out, line.as_str());
                    proof {
                        assert(views.take(i + 1).drop_last() =~= views.take(i as int));
                        assert(views.take(i + 1).last() == errs@[i as int]@);
                    }
                    i = i + 1;
                }
                assert(views.take(errs@.len() as int) =~= views);
                out
            },
            YamlVerifyError::Correctness(rules) => {
                let mut out = text_of("Yaml does not follow the competition's rules:");
                let issues = rules.show_issue();
                push_str(&mut out, issues.as_str());
                out
            },
        }
    }
}

/// How a category is shown: `Category< <name> >`.
pub open spec fn spec_category_text(name: Seq<char>) -> Seq<char> {
    "Category< "@ + name + " >"@
}

impl Category {
    pub fn to_text(&self) -> (r: String)
        ensures
            r@ == spec_category_text(self@),
    {
        let mut out = text_of("Category< ");
        push_str(&mut out, self.as_str());
        push_str(&mut out, " >");
        out
    }
}

/// The names, separated by `, `.
pub open spec fn names_joined(names: Seq<Seq<char>>) -> Seq<char>
    decreases names.len(),
{
    if names.len() == 0 {
        Seq::empty()
    } else if names.len() == 1 {
        names[0]
    } else {
        names_joined(names.drop_last()) + ", "@ + names.last()
    }
}

/// How categories are shown: `Categories< a, b >`.
pub open spec fn spec_categories_text(names: Seq<Seq<char>>) -> Seq<char> {
    "Categories< "@ + names_joined(names) + " >"@
}

impl Categories {
    pub fn to_text(&self) -> (r: String)
        ensures
            r@ == spec_categories_text(self@),
    {
        let cats = self.slice();
        let ghost names = category_names(cats@);
        let mut joined = String::new();
        let mut i: usize = 0;
        assert(names.take(0) =~= Seq::<Seq<char>>::empty());
        while i < cats.len()
            invariant
                i <= cats@.len(),
                names == category_names(cats@),
                joined@ == names_joined(names.take(i as int)),
            decreases cats@.len() - i,
        {
            if i > 0 {
                push_str(&mut joined, ", ");
            }
            push_str(&mut joined, cats[i].as_str());
            proof {
                assert(names.take(i + 1).drop_last() =~= names.take(i as int));
                assert(names.take(i + 1).last() == cats@[i as int]@);
            }
            i = i + 1;
        }
        assert(names.take(cats@.len() as int) =~= names);
        let mut out = text_of("Categories< ");
        push_str(&mut out, joined.as_str());
        push_str(&mut out, " >");
        out
    }
}

/// How a flag is shown: `Flag< <flag> >`, or `File< @ <path> >`.
pub open spec fn spec_flag_text(f: FlagView) -> Seq<char> {
    match f {
        FlagView::String(s) => "Flag< "@ + s + " >"@,
        FlagView::File(p) => "File< @ "@ + p + " >"@,
    }
}

impl Flag {
    pub fn to_text(&self) -> (r: String)
        ensures
            r@ == spec_flag_text(self@),
    {
        match self {
            Flag::String(s) => {
                let mut out = text_of("Flag< ");
                push_str(&mut out, s.as_str());
                push_str(&mut out, " >");
                out
            },
            Flag::File(p) => {
                let mut out = text_of("File< @ ");
                push_str(&mut out, p.as_str());
                push_str(&mut out, " >");
                out
            },
        }
    }
}

/// A named list as shown: the name, a space, and the list as `{:?}` writes it.
pub open spec fn spec_named_list(name: Seq<char>, items: Seq<Seq<char>>) -> Seq<char> {
    name + " "@ + debug_list(items)
}

fn named_list(name: &str, items: &[String]) -> (r: String)
    ensures
        r@ == spec_named_list(name@, strings_view(items@)),
{
    let mut out = text_of(name);
    push_str(&mut out, " ");
    let listed = debug_list_text(items);
    push_str(&mut out, listed.as_str());
    out
}

impl Authors {
    /// `Authors ["a", "b"]`.
    pub fn to_text(&self) -> (r: String)
        ensures
            r@ == spec_named_list("Authors"@, self@),
    {
        named_list("Authors", self.slice())
    }
}

impl Hints {
    /// `Hints ["a", "b"]`.
    pub fn to_text(&self) -> (r: String)
        ensures
            r@ == spec_named_list("Hints"@, self@),
    {
        named_list("Hints", self.slice())
    }
}

impl Files {
    /// `Files ["a", "b"]`.
    pub fn to_text(&self) -> (r: String)
        ensures
            r@ == spec_named_list("Files"@, self@),
    {
        named_list("Files", self.slice())
    }
}

} // verus!
