//! Competition rules that a challenge must follow beyond being well formed:
//! the flag format, the allowed categories, and the point values.

use std::rc::Rc;

use vstd::prelude::*;

use crate::text::{chars_of, has_prefix, starts_with};
use crate::yaml::categories::Category;
use crate::yaml::lists::strings_view;

verus! {

/// Whether `regex::Regex::new` accepts a pattern.
pub uninterp spec fn regex_valid(pattern: Seq<char>) -> bool;

/// Whether the compiled pattern matches somewhere in the text.
pub uninterp spec fn regex_matches(pattern: Seq<char>, text: Seq<char>) -> bool;

/// Calls `regex::Regex::new`; the claim is only that whether it succeeds
/// depends on the pattern alone (named [`regex_valid`]).
#[verifier::external_body]
fn regex_compiles(pattern: &str) -> (r: bool)
    ensures
        r == regex_valid(pattern@),
{
    regex::Regex::new(pattern).is_ok()
}

/// Calls `regex::Regex::new` on an accepted pattern and then `Regex::is_match`;
/// the claim is only that the answer depends on the pattern and the text alone
/// (named [`regex_matches`]).
#[verifier::external_body]
fn regex_is_match(pattern: &str, text: &str) -> (r: bool)
    requires
        regex_valid(pattern@),
    ensures
        r == regex_matches(pattern@, text@),
{
    regex::Regex::new(pattern).unwrap().is_match(text)
}

/// The Unicode lowercase form of a text.
pub uninterp spec fn lowercase(s: Seq<char>) -> Seq<char>;

/// Calls `str::to_lowercase`; the claim is that the result depends on the
/// text alone (named [`lowercase`]).
#[verifier::external_body]
fn to_lowercase(s: &str) -> (r: String)
    ensures
        r@ == lowercase(s@),
{
    s.to_lowercase()
}

/// A regular expression that the `regex` crate accepts.
#[derive(Debug)]
pub struct FlagRegex {
    pattern: String,
}

impl View for FlagRegex {
    type V = Seq<char>;

    closed spec fn view(&self) -> Seq<char> {
        self.pattern@
    }
}

impl FlagRegex {
    #[verifier::type_invariant]
    spec fn inv(self) -> bool {
        regex_valid(self.pattern@)
    }

    /// Compiles a pattern; `None` when the `regex` crate rejects it.
    pub fn new(pattern: &str) -> (r: Option<FlagRegex>)
        ensures
            match r {
                Some(re) => regex_valid(pattern@) && re@ == pattern@,
                None => !regex_valid(pattern@),
            },
    {
        if regex_compiles(pattern) {
            Some(FlagRegex { pattern: pattern.to_owned() })
        } else {
            None
        }
    }

    pub fn duplicate(&self) -> (r: FlagRegex)
        ensures
            r@ == self@,
    {
        proof {
            use_type_invariant(self);
        }
        FlagRegex { pattern: self.pattern.clone() }
    }

    pub fn as_str(&self) -> (r: &str)
        ensures
            r@ == self@,
            regex_valid(r@),
    {
        proof {
            use_type_invariant(self);
        }
        self.pattern.as_str()
    }

    pub fn is_match(&self, text: &str) -> (r: bool)
        ensures
            r == regex_matches(self@, text@),
    {
        proof {
            use_type_invariant(self);
        }
        regex_is_match(self.pattern.as_str(), text)
    }
}

/// The rule on flags.
#[derive(Debug)]
pub enum FlagCorrectness {
    /// Any flag.
    Any,
    /// `<name>{<contents>}`.
    CompName(String),
    /// Flags that the expression matches.
    Regex(FlagRegex),
}

pub enum FlagCorrectnessView {
    Any,
    CompName(Seq<char>),
    Regex(Seq<char>),
}

impl View for FlagCorrectness {
    type V = FlagCorrectnessView;

    open spec fn view(&self) -> FlagCorrectnessView {
        match self {
            FlagCorrectness::Any => FlagCorrectnessView::Any,
            FlagCorrectness::CompName(n) => FlagCorrectnessView::CompName(n@),
            FlagCorrectness::Regex(r) => FlagCorrectnessView::Regex(r@),
        }
    }
}

/// Whether a flag has the form `<name>{<contents>}`.
pub open spec fn has_comp_name_form(name: Seq<char>, flag: Seq<char>) -> bool {
    &&& starts_with(flag, name)
    &&& flag.len() >= name.len() + 2
    &&& flag[name.len() as int] == '{'
    &&& flag.last() == '}'
}

/// Whether a flag follows the rule.
pub open spec fn spec_flag_ok(rule: FlagCorrectnessView, flag: Seq<char>) -> bool {
    match rule {
        FlagCorrectnessView::Any => true,
        FlagCorrectnessView::CompName(name) => has_comp_name_form(name, flag),
        FlagCorrectnessView::Regex(pattern) => regex_matches(pattern, flag),
    }
}

impl FlagCorrectness {
    pub fn duplicate(&self) -> (r: FlagCorrectness)
        ensures
            r@ == self@,
    {
        match self {
            FlagCorrectness::Any => FlagCorrectness::Any,
            FlagCorrectness::CompName(n) => FlagCorrectness::CompName(n.clone()),
            FlagCorrectness::Regex(re) => FlagCorrectness::Regex(re.duplicate()),
        }
    }

    pub fn check(&self, flag: &str) -> (r: bool)
        ensures
            r == spec_flag_ok(self@, flag@),
    {
        match self {
            FlagCorrectness::Any => true,
            FlagCorrectness::CompName(name) => {
                let f = chars_of(flag);
                let n = chars_of(name.as_str());
                if !has_prefix(f.as_slice(), n.as_slice()) {
                    return false;
                }
                let rest = n.len();
                if rest < f.len() && f[rest] == '{' {
                    // what follows `{` must end with `}`
                    rest + 1 < f.len() && f[f.len() - 1] == '}'
                } else {
                    false
                }
            },
            FlagCorrectness::Regex(regex) => regex.is_match(flag),
        }
    }
}

/// The rule on categories.
#[derive(Debug)]
pub enum CategoryCorrectness {
    /// Any category.
    AnyStr,
    /// Only the listed names, with or without regard to case.
    List { names: Vec<String>, requires_case_match: bool },
}

pub enum CategoryCorrectnessView {
    AnyStr,
    List { names: Seq<Seq<char>>, requires_case_match: bool },
}

impl View for CategoryCorrectness {
    type V = CategoryCorrectnessView;

    open spec fn view(&self) -> CategoryCorrectnessView {
        match self {
            CategoryCorrectness::AnyStr => CategoryCorrectnessView::AnyStr,
            CategoryCorrectness::List { names, requires_case_match } => CategoryCorrectnessView::List {
                names: strings_view(names@),
                requires_case_match: *requires_case_match,
            },
        }
    }
}

/// Whether two category names count as the same.
pub open spec fn names_match(valid: Seq<char>, check: Seq<char>, requires_case_match: bool) -> bool {
    if requires_case_match {
        valid == check
    } else {
        lowercase(valid) == lowercase(check)
    }
}

/// Whether one category is allowed by a list.
pub open spec fn name_allowed(names: Seq<Seq<char>>, check: Seq<char>, requires_case_match: bool) -> bool {
    exists|j: int| 0 <= j < names.len() && names_match(#[trigger] names[j], check, requires_case_match)
}

/// Whether every category follows the rule.
pub open spec fn spec_categories_ok(rule: CategoryCorrectnessView, cats: Seq<Seq<char>>) -> bool {
    match rule {
        CategoryCorrectnessView::AnyStr => true,
        CategoryCorrectnessView::List { names, requires_case_match } => forall|i: int|
            0 <= i < cats.len() ==> name_allowed(names, #[trigger] cats[i], requires_case_match),
    }
}

fn name_matches(valid: &str, check: &str, requires_case_match: bool) -> (r: bool)
    ensures
        r == names_match(valid@, check@, requires_case_match),
{
    if requires_case_match {
        crate::yaml::value::str_eq(valid, check)
    } else {
        to_lowercase(valid) == to_lowercase(check)
    }
}

fn is_allowed(names: &Vec<String>, check: &str, requires_case_match: bool) -> (r: bool)
    ensures
        r == name_allowed(strings_view(names@), check@, requires_case_match),
{
    let mut j: usize = 0;
    while j < names.len()
        invariant
            j <= names@.len(),
            forall|k: int| 0 <= k < j ==> !names_match(#[trigger] strings_view(names@)[k], check@, requires_case_match),
        decreases names@.len() - j,
    {
        if name_matches(names[j].as_str(), check, requires_case_match) {
            assert(names_match(strings_view(names@)[j as int], check@, requires_case_match));
            return true;
        }
        j = j + 1;
    }
    false
}

/// A copy of a list of strings.
pub fn copy_strings(v: &Vec<String>) -> (r: Vec<String>)
    ensures
        strings_view(r@) == strings_view(v@),
{
    let mut out: Vec<String> = Vec::new();
    let mut i: usize = 0;
    while i < v.len()
        invariant
            i <= v@.len(),
            out@.len() == i,
            strings_view(out@) =~= strings_view(v@.take(i as int)),
        decreases v@.len() - i,
    {
        let ghost before = out@;
        out.push(v[i].clone());
        assert forall|j: int| 0 <= j < i + 1 implies #[trigger] strings_view(out@)[j] == strings_view(v@.take(i + 1))[j] by {
            if j < i {
                assert(strings_view(before)[j] == strings_view(v@.take(i as int))[j]);
            }
        }
        assert(strings_view(out@) =~= strings_view(v@.take(i + 1)));
        i = i + 1;
    }
    assert(v@.take(v@.len() as int) =~= v@);
    out
}

impl CategoryCorrectness {
    pub fn duplicate(&self) -> (r: CategoryCorrectness)
        ensures
            r@ == self@,
    {
        match self {
            CategoryCorrectness::AnyStr => CategoryCorrectness::AnyStr,
            CategoryCorrectness::List { names, requires_case_match } => CategoryCorrectness::List {
                names: copy_strings(names),
                requires_case_match: *requires_case_match,
            },
        }
    }

    #[verifier::loop_isolation(false)]
    pub fn check(&self, categories: &[Category]) -> (r: bool)
        ensures
            r == spec_categories_ok(self@, crate::yaml::categories::category_names(categories@)),
    {
        match self {
            CategoryCorrectness::AnyStr => true,
            CategoryCorrectness::List { names, requires_case_match } => {
                let ghost cats = crate::yaml::categories::category_names(categories@);
                let mut i: usize = 0;
                while i < categories.len()
                    invariant
                        i <= categories@.len(),
                        cats == crate::yaml::categories::category_names(categories@),
                        forall|k: int| 0 <= k < i ==> name_allowed(strings_view(names@), #[trigger] cats[k], *requires_case_match),
                    decreases categories@.len() - i,
                {
                    assert(cats[i as int] == categories@[i as int]@);
                    if !is_allowed(names, categories[i].as_str(), *requires_case_match) {
                        assert(!name_allowed(strings_view(names@), cats[i as int], *requires_case_match));
                        assert(self@ == CategoryCorrectnessView::List { names: strings_view(names@), requires_case_match: *requires_case_match });
                        return false;
                    }
                    i = i + 1;
                }
                true
            },
        }
    }
}

/// A rule on point values that a user of the library supplies: it decides
/// which values are allowed, and describes itself. `allows` and
/// `description` state the rule; `call` and `describe` give the same answers.
pub trait CanBePred {
    /// Whether the rule allows a point value.
    spec fn allows(&self, points: u64) -> bool;

    /// How the rule describes itself.
    spec fn description(&self) -> String;

    /// Decides whether the rule allows a point value.
    fn call(&self, points: u64) -> (r: bool)
        ensures
            r == self.allows(points),
    ;

    /// Describes the rule.
    fn describe(&self) -> (r: String)
        ensures
            r@ == self.description()@,
    ;
}

/// Calls `Rc::clone`: another handle to the same rule, so the same value.
#[verifier::external_body]
fn share_rule(rule: &Rc<Box<dyn CanBePred>>) -> (r: Rc<Box<dyn CanBePred>>)
    ensures
        r == *rule,
{
    Rc::clone(rule)
}

/// Calls `Rc::ptr_eq`: whether two handles lead to the same rule; the same
/// rule is the same value.
#[verifier::external_body]
fn same_rule(a: &Rc<Box<dyn CanBePred>>, b: &Rc<Box<dyn CanBePred>>) -> (r: bool)
    ensures
        r ==> *a == *b,
{
    Rc::ptr_eq(a, b)
}

/// The rule on point values.
#[derive(Clone)]
pub enum PointCorrectness {
    /// Any value.
    Any,
    /// Multiples of the given number.
    Multiple(u64),
    /// The values that a rule supplied by the caller allows.
    Pred(Rc<Box<dyn CanBePred>>),
}

/// Whether a point value follows the rule.
pub open spec fn spec_points_ok(rule: PointCorrectness, num: u64) -> bool {
    match rule {
        PointCorrectness::Any => true,
        PointCorrectness::Multiple(factor) => num % factor == 0,
        PointCorrectness::Pred(p) => p.allows(num),
    }
}

impl PointCorrectness {
    /// A rule that can be checked: a multiple of zero cannot.
    pub open spec fn checkable(self) -> bool {
        !(self == PointCorrectness::Multiple(0))
    }

    pub fn check(&self, num: u64) -> (r: bool)
        requires
            self.checkable(),
        ensures
            r == spec_points_ok(*self, num),
    {
        match self {
            PointCorrectness::Any => true,
            PointCorrectness::Multiple(factor) => num % *factor == 0,
            PointCorrectness::Pred(p) => p.call(num),
        }
    }

    /// Another copy of the rule; a caller's rule is shared, not copied.
    pub fn duplicate(&self) -> (r: PointCorrectness)
        ensures
            r == *self,
    {
        match self {
            PointCorrectness::Any => PointCorrectness::Any,
            PointCorrectness::Multiple(n) => PointCorrectness::Multiple(*n),
            PointCorrectness::Pred(p) => PointCorrectness::Pred(share_rule(p)),
        }
    }
}

/// The competition's rules.
pub struct YamlCorrectness {
    flag: FlagCorrectness,
    categories: CategoryCorrectness,
    points: PointCorrectness,
}

pub struct YamlCorrectnessView {
    pub flag: FlagCorrectnessView,
    pub categories: CategoryCorrectnessView,
    pub points: PointCorrectness,
}

impl View for YamlCorrectness {
    type V = YamlCorrectnessView;

    closed spec fn view(&self) -> YamlCorrectnessView {
        YamlCorrectnessView {
            flag: self.flag@,
            categories: self.categories@,
            points: self.points,
        }
    }
}

/// Whether a challenge follows every rule; a flag kept in a file is not checked.
pub open spec fn spec_rules_pass(rules: YamlCorrectnessView, flag: Option<Seq<char>>, cats: Seq<Seq<char>>, points: u64) -> bool {
    &&& (match flag {
        Some(f) => spec_flag_ok(rules.flag, f),
        None => true,
    })
    &&& spec_categories_ok(rules.categories, cats)
    &&& spec_points_ok(rules.points, points)
}

/// The rules that a challenge breaks: each rule it follows is replaced by the
/// rule that allows everything.
pub open spec fn spec_broken_rules(rules: YamlCorrectnessView, flag: Option<Seq<char>>, cats: Seq<Seq<char>>, points: u64) -> YamlCorrectnessView {
    YamlCorrectnessView {
        flag: if (match flag {
            Some(f) => spec_flag_ok(rules.flag, f),
            None => true,
        }) {
            FlagCorrectnessView::Any
        } else {
            rules.flag
        },
        categories: if spec_categories_ok(rules.categories, cats) {
            CategoryCorrectnessView::AnyStr
        } else {
            rules.categories
        },
        points: if spec_points_ok(rules.points, points) {
            PointCorrectness::Any
        } else {
            rules.points
        },
    }
}

impl YamlCorrectness {
    pub fn duplicate(&self) -> (r: YamlCorrectness)
        ensures
            r@ == self@,
    {
        YamlCorrectness {
            flag: self.flag.duplicate(),
            categories: self.categories.duplicate(),
            points: self.points.duplicate(),
        }
    }

    /// Rules that can be checked (no multiple of zero).
    pub open spec fn wf(&self) -> bool {
        self@.points.checkable()
    }

    /// The rules that allow everything, as a model.
    pub open spec fn default_rules_view() -> YamlCorrectnessView {
        YamlCorrectnessView {
            flag: FlagCorrectnessView::Any,
            categories: CategoryCorrectnessView::AnyStr,
            points: PointCorrectness::Any,
        }
    }

    /// The rules that allow everything.
    pub fn default_rules() -> (r: YamlCorrectness)
        ensures
            r@ == Self::default_rules_view(),
            r.wf(),
    {
        YamlCorrectness {
            flag: FlagCorrectness::Any,
            categories: CategoryCorrectness::AnyStr,
            points: PointCorrectness::Any,
        }
    }

    pub fn with_flag(self, flag: FlagCorrectness) -> (r: Self)
        ensures
            r@ == (YamlCorrectnessView { flag: flag@, ..self@ }),
    {
        YamlCorrectness { flag, ..self }
    }

    pub fn with_cats(self, categories: CategoryCorrectness) -> (r: Self)
        ensures
            r@ == (YamlCorrectnessView { categories: categories@, ..self@ }),
    {
        YamlCorrectness { categories, ..self }
    }

    pub fn with_pnts(self, points: PointCorrectness) -> (r: Self)
        ensures
            r@ == (YamlCorrectnessView { points, ..self@ }),
    {
        YamlCorrectness { points, ..self }
    }

    pub fn check_flag(&self, flag: &str) -> (r: bool)
        ensures
            r == spec_flag_ok(self@.flag, flag@),
    {
        self.flag.check(flag)
    }

    pub fn check_cats(&self, categories: &[Category]) -> (r: bool)
        ensures
            r == spec_categories_ok(self@.categories, crate::yaml::categories::category_names(categories@)),
    {
        self.categories.check(categories)
    }

    pub fn check_pnts(&self, points: u64) -> (r: bool)
        requires
            self.wf(),
        ensures
            r == spec_points_ok(self@.points, points),
    {
        self.points.check(points)
    }

    /// Checks a challenge's flag (when it is given literally), categories and
    /// points; on failure, returns the rules that were broken.
    pub fn verify_parts(&self, flag: Option<&str>, categories: &[Category], points: u64) -> (r: Result<(), YamlCorrectness>)
        requires
            self.wf(),
        ensures
            ({
                let flag_view = match flag {
                    Some(f) => Some(f@),
                    None => None,
                };
                let cats = crate::yaml::categories::category_names(categories@);
                match r {
                    Ok(()) => spec_rules_pass(self@, flag_view, cats, points),
                    Err(broken) => !spec_rules_pass(self@, flag_view, cats, points)
                        && broken@ == spec_broken_rules(self@, flag_view, cats, points)
                        && broken.wf(),
                }
            }),
    {
        let flag_ok = match flag {
            Some(f) => self.check_flag(f),
            None => true,
        };
        let cats_ok = self.check_cats(categories);
        let pnts_ok = self.check_pnts(points);
        if flag_ok && cats_ok && pnts_ok {
            Ok(())
        } else {
            Err(YamlCorrectness {
                flag: if flag_ok {
                    FlagCorrectness::Any
                } else {
                    self.flag.duplicate()
                },
                categories: if cats_ok {
                    CategoryCorrectness::AnyStr
                } else {
                    self.categories.duplicate()
                },
                points: if pnts_ok {
                    PointCorrectness::Any
                } else {
                    self.points.duplicate()
                },
            })
        }
    }
}

} // verus!

verus! {

/// With the rules that allow everything, every challenge passes.
pub proof fn lemma_default_rules_accept_all(flag: Option<Seq<char>>, cats: Seq<Seq<char>>, points: u64)
    ensures
        spec_rules_pass(YamlCorrectness::default_rules_view(), flag, cats, points),
{
}

/// A challenge passes the rules exactly when no rule is reported broken.
pub proof fn lemma_pass_iff_nothing_broken(rules: YamlCorrectnessView, flag: Option<Seq<char>>, cats: Seq<Seq<char>>, points: u64)
    ensures
        spec_rules_pass(rules, flag, cats, points) <==> spec_broken_rules(rules, flag, cats, points)
            == YamlCorrectness::default_rules_view(),
{
    let broken = spec_broken_rules(rules, flag, cats, points);
    if broken == YamlCorrectness::default_rules_view() {
        match rules.flag {
            FlagCorrectnessView::Any => {},
            _ => {},
        }
    }
}

/// Checking the same challenge against the rules it broke reports the same
/// rules broken again: each broken rule still fails, and each rule that was
/// replaced by "anything" passes.
pub proof fn lemma_broken_rules_stable(rules: YamlCorrectnessView, flag: Option<Seq<char>>, cats: Seq<Seq<char>>, points: u64)
    ensures
        spec_broken_rules(spec_broken_rules(rules, flag, cats, points), flag, cats, points)
            == spec_broken_rules(rules, flag, cats, points),
{
}

/// What a flag rule asks for, as told to an author.
pub open spec fn spec_flag_issue(rule: FlagCorrectnessView) -> Seq<char> {
    match rule {
        FlagCorrectnessView::Any => Seq::empty(),
        FlagCorrectnessView::CompName(name) => "The flag should be in the format of: `"@ + name + "{<contents>}`\n"@,
        FlagCorrectnessView::Regex(pattern) => "The flag must match the regex: `"@ + pattern + "`\n"@,
    }
}

/// What a category rule asks for, as told to an author.
pub open spec fn spec_category_issue(rule: CategoryCorrectnessView) -> Seq<char> {
    match rule {
        CategoryCorrectnessView::AnyStr => Seq::empty(),
        CategoryCorrectnessView::List { names, requires_case_match } => "The categories should be one of "@
            + crate::yaml::messages::debug_list(names) + " (case "@
            + if requires_case_match { "SENSITIVE)\n"@ } else { "insensitive)\n"@ },
    }
}

/// What a point rule asks for, as told to an author.
pub open spec fn spec_point_issue(rule: PointCorrectness) -> Seq<char> {
    match rule {
        PointCorrectness::Any => Seq::empty(),
        PointCorrectness::Multiple(n) => "The point value MUST be multiple of "@ + crate::decimal::decimal_digits(n as nat) + "\n"@,
        PointCorrectness::Pred(p) => "The flag must pass a predicate: `"@ + p.description()@ + "`\n"@,
    }
}

/// What a set of rules asks for: a line break, then each rule that restricts
/// anything, indented.
pub open spec fn spec_issue_text(rules: YamlCorrectnessView) -> Seq<char> {
    "\n"@
        + (if rules.flag is Any { Seq::empty() } else { "    "@ + spec_flag_issue(rules.flag) })
        + (if rules.categories is AnyStr { Seq::empty() } else { "    "@ + spec_category_issue(rules.categories) })
        + (if rules.points is Any { Seq::empty() } else { "    "@ + spec_point_issue(rules.points) })
}

impl FlagCorrectness {
    pub fn show_issue(&self) -> (r: String)
        ensures
            r@ == spec_flag_issue(self@),
    {
        match self {
            FlagCorrectness::Any => String::new(),
            FlagCorrectness::CompName(name) => {
                let mut out = crate::text::string_of(crate::text::chars_of("The flag should be in the format of: `").as_slice());
                crate::text::push_str(&mut out, name.as_str());
                crate::text::push_str(&mut out, "{<contents>}`\n");
                out
            },
            FlagCorrectness::Regex(regex) => {
                let mut out = crate::text::string_of(crate::text::chars_of("The flag must match the regex: `").as_slice());
                crate::text::push_str(&mut out, regex.as_str());
                crate::text::push_str(&mut out, "`\n");
                out
            },
        }
    }
}

impl CategoryCorrectness {
    pub fn show_issue(&self) -> (r: String)
        ensures
            r@ == spec_category_issue(self@),
    {
        match self {
            CategoryCorrectness::AnyStr => String::new(),
            CategoryCorrectness::List { names, requires_case_match } => {
                let mut out = crate::text::string_of(crate::text::chars_of("The categories should be one of ").as_slice());
                let listed = crate::yaml::messages::debug_list_text(names.as_slice());
                crate::text::push_str(&mut out, listed.as_str());
                crate::text::push_str(&mut out, " (case ");
                if *requires_case_match {
                    crate::text::push_str(&mut out, "SENSITIVE)\n");
                } else {
                    crate::text::push_str(&mut out, "insensitive)\n");
                }
                out
            },
        }
    }
}

impl PointCorrectness {
    pub fn show_issue(&self) -> (r: String)
        ensures
            r@ == spec_point_issue(*self),
    {
        match self {
            PointCorrectness::Any => String::new(),
            PointCorrectness::Multiple(n) => {
                let mut out = crate::text::string_of(crate::text::chars_of("The point value MUST be multiple of ").as_slice());
                let digits = crate::text::string_of(crate::decimal::decimal_chars(*n).as_slice());
                crate::text::push_str(&mut out, digits.as_str());
                crate::text::push_str(&mut out, "\n");
                out
            },
            PointCorrectness::Pred(p) => {
                let mut out = crate::text::string_of(crate::text::chars_of("The flag must pass a predicate: `").as_slice());
                let described = p.describe();
                crate::text::push_str(&mut out, described.as_str());
                crate::text::push_str(&mut out, "`\n");
                out
            },
        }
    }
}

impl YamlCorrectness {
    /// What the rules ask for, as `Display` writes it.
    pub fn show_issue(&self) -> (r: String)
        ensures
            r@ == spec_issue_text(self@),
    {
        let mut out = crate::text::string_of(crate::text::chars_of("\n").as_slice());
        if !matches!(self.flag, FlagCorrectness::Any) {
            crate::text::push_str(&mut out, "    ");
            let issue = self.flag.show_issue();
            crate::text::push_str(&mut out, issue.as_str());
        }
        if !matches!(self.categories, CategoryCorrectness::AnyStr) {
            crate::text::push_str(&mut out, "    ");
            let issue = self.categories.show_issue();
            crate::text::push_str(&mut out, issue.as_str());
        }
        if !matches!(self.points, PointCorrectness::Any) {
            crate::text::push_str(&mut out, "    ");
            let issue = self.points.show_issue();
            crate::text::push_str(&mut out, issue.as_str());
        }
        out
    }
}

impl Default for YamlCorrectness {
    /// The rules that allow everything.
    fn default() -> (r: Self)
        ensures
            r@ == Self::default_rules_view(),
    {
        Self::default_rules()
    }
}

/// The categories allowed when the setting asks for the defaults.
pub open spec fn default_category_list() -> Seq<char> {
    "misc,binex,foren,crypto,webex,rev"@
}

/// The rules a competition sets: allowed categories (a comma-separated list,
/// or `DEFAULT`), the competition's name that flags start with (or
/// `DEFAULT`), and the multiple that point values must be (zero meaning the
/// default, 25). A missing setting leaves its rule allowing everything.
pub open spec fn spec_rules_from_settings(categories: Option<Seq<char>>, comp_name: Option<Seq<char>>, point_multiple: Option<u64>) -> YamlCorrectnessView {
    YamlCorrectnessView {
        flag: match comp_name {
            Some(n) => FlagCorrectnessView::CompName(if n == "DEFAULT"@ { "bcactf"@ } else { n }),
            None => FlagCorrectnessView::Any,
        },
        categories: match categories {
            Some(c) => CategoryCorrectnessView::List {
                names: crate::text::split_on(if c == "DEFAULT"@ { default_category_list() } else { c }, ','),
                requires_case_match: false,
            },
            None => CategoryCorrectnessView::AnyStr,
        },
        points: match point_multiple {
            Some(p) => PointCorrectness::Multiple(if p == 0 { 25 } else { p }),
            None => PointCorrectness::Any,
        },
    }
}

/// Builds the competition's rules from its settings.
pub fn rules_from_settings(categories: Option<&str>, comp_name: Option<&str>, point_multiple: Option<u64>) -> (r: YamlCorrectness)
    ensures
        r@ == spec_rules_from_settings(optional_str_view(categories), optional_str_view(comp_name), point_multiple),
        r.wf(),
{
    let flag = match comp_name {
        Some(n) => {
            if crate::yaml::value::str_eq(n, "DEFAULT") {
                FlagCorrectness::CompName(crate::text::string_of(crate::text::chars_of("bcactf").as_slice()))
            } else {
                FlagCorrectness::CompName(crate::text::string_of(crate::text::chars_of(n).as_slice()))
            }
        },
        None => FlagCorrectness::Any,
    };
    let cats = match categories {
        Some(c) => {
            let list = if crate::yaml::value::str_eq(c, "DEFAULT") { "misc,binex,foren,crypto,webex,rev" } else { c };
            let names = crate::text::split_char(list, ',');
            proof {
                assert(strings_view(names@) =~= crate::text::texts_view(names@));
            }
            CategoryCorrectness::List { names, requires_case_match: false }
        },
        None => CategoryCorrectness::AnyStr,
    };
    let points = match point_multiple {
        Some(p) => PointCorrectness::Multiple(if p == 0 { 25 } else { p }),
        None => PointCorrectness::Any,
    };
    YamlCorrectness { flag, categories: cats, points }
}

pub open spec fn optional_str_view(o: Option<&str>) -> Option<Seq<char>> {
    match o {
        Some(s) => Some(s@),
        None => None,
    }
}

/// How a point rule is shown: `None`, or `Multiple< of <n> >`.
pub open spec fn spec_point_rule_text(rule: PointCorrectness) -> Seq<char> {
    match rule {
        PointCorrectness::Any => "None"@,
        PointCorrectness::Multiple(n) => "Multiple< of "@ + crate::decimal::decimal_digits(n as nat) + " >"@,
        PointCorrectness::Pred(_) => "Predicate< unknown >"@,
    }
}

impl PointCorrectness {
    pub fn to_text(&self) -> (r: String)
        ensures
            r@ == spec_point_rule_text(*self),
    {
        match self {
            PointCorrectness::Any => crate::text::string_of(crate::text::chars_of("None").as_slice()),
            PointCorrectness::Multiple(n) => {
                let mut out = crate::text::string_of(crate::text::chars_of("Multiple< of ").as_slice());
                let digits = crate::text::string_of(crate::decimal::decimal_chars(*n).as_slice());
                crate::text::push_str(&mut out, digits.as_str());
                crate::text::push_str(&mut out, " >");
                out
            },
            PointCorrectness::Pred(_) => crate::text::string_of(crate::text::chars_of("Predicate< unknown >").as_slice()),
        }
    }
}

/// Whether two lists of strings are equal, entry for entry.
fn strings_equal(a: &Vec<String>, b: &Vec<String>) -> (r: bool)
    ensures
        r == (strings_view(a@) == strings_view(b@)),
{
    if a.len() != b.len() {
        assert(strings_view(a@).len() != strings_view(b@).len());
        return false;
    }
    let mut i: usize = 0;
    while i < a.len()
        invariant
            i <= a@.len(),
            a@.len() == b@.len(),
            forall|j: int| 0 <= j < i ==> strings_view(a@)[j] == strings_view(b@)[j],
        decreases a@.len() - i,
    {
        if !crate::yaml::value::str_eq(a[i].as_str(), b[i].as_str()) {
            assert(strings_view(a@)[i as int] != strings_view(b@)[i as int]);
            return false;
        }
        i = i + 1;
    }
    assert(strings_view(a@) =~= strings_view(b@));
    true
}

impl FlagCorrectness {
    /// Whether two flag rules are the same rule (expressions compared by
    /// their text).
    pub fn equals(&self, other: &FlagCorrectness) -> (r: bool)
        ensures
            r == (self@ == other@),
    {
        match (self, other) {
            (FlagCorrectness::Any, FlagCorrectness::Any) => true,
            (FlagCorrectness::CompName(a), FlagCorrectness::CompName(b)) => crate::yaml::value::str_eq(a.as_str(), b.as_str()),
            (FlagCorrectness::Regex(a), FlagCorrectness::Regex(b)) => crate::yaml::value::str_eq(a.as_str(), b.as_str()),
            _ => false,
        }
    }
}

impl CategoryCorrectness {
    /// Whether two category rules are the same rule.
    pub fn equals(&self, other: &CategoryCorrectness) -> (r: bool)
        ensures
            r == (self@ == other@),
    {
        match (self, other) {
            (CategoryCorrectness::AnyStr, CategoryCorrectness::AnyStr) => true,
            (
                CategoryCorrectness::List { names: a, requires_case_match: ca },
                CategoryCorrectness::List { names: b, requires_case_match: cb },
            ) => *ca == *cb && strings_equal(a, b),
            _ => false,
        }
    }
}

impl PointCorrectness {
    /// Whether two point rules are the same rule; two caller's rules are the
    /// same only where they are one shared rule.
    pub fn equals(&self, other: &PointCorrectness) -> (r: bool)
        ensures
            r ==> *self == *other,
            !(*self is Pred && *other is Pred) ==> r == (*self == *other),
    {
        match (self, other) {
            (PointCorrectness::Any, PointCorrectness::Any) => true,
            (PointCorrectness::Multiple(a), PointCorrectness::Multiple(b)) => *a == *b,
            (PointCorrectness::Pred(a), PointCorrectness::Pred(b)) => same_rule(a, b),
            _ => false,
        }
    }
}

impl YamlCorrectness {
    /// Whether two sets of rules are the same (two caller's point rules only
    /// where they are one shared rule).
    pub fn equals(&self, other: &YamlCorrectness) -> (r: bool)
        ensures
            r ==> self@ == other@,
            !(self@.points is Pred && other@.points is Pred) ==> r == (self@ == other@),
    {
        self.flag.equals(&other.flag) && self.categories.equals(&other.categories) && self.points.equals(&other.points)
    }
}

/// A list of allowed categories refuses a description as soon as any one of
/// its categories, at any position, is not allowed; and it accepts a joined
/// list exactly where it accepts both parts, so the order and grouping of the
/// categories do not matter.
pub proof fn lemma_category_list_checks_every_entry(
    names: Seq<Seq<char>>,
    requires_case_match: bool,
    cats: Seq<Seq<char>>,
    more: Seq<Seq<char>>,
    i: int,
)
    ensures
        0 <= i < cats.len() && !name_allowed(names, cats[i], requires_case_match) ==> !spec_categories_ok(
            CategoryCorrectnessView::List { names, requires_case_match },
            cats,
        ),
        (forall|j: int| 0 <= j < cats.len() ==> name_allowed(names, #[trigger] cats[j], requires_case_match))
            ==> spec_categories_ok(CategoryCorrectnessView::List { names, requires_case_match }, cats),
        spec_categories_ok(CategoryCorrectnessView::List { names, requires_case_match }, cats + more) == (
            spec_categories_ok(CategoryCorrectnessView::List { names, requires_case_match }, cats)
            && spec_categories_ok(CategoryCorrectnessView::List { names, requires_case_match }, more)),
{
    let rule = CategoryCorrectnessView::List { names, requires_case_match };
    let joined = cats + more;
    if spec_categories_ok(rule, joined) {
        assert forall|j: int| 0 <= j < cats.len() implies name_allowed(names, #[trigger] cats[j], requires_case_match) by {
            assert(joined[j] == cats[j]);
        }
        assert forall|j: int| 0 <= j < more.len() implies name_allowed(names, #[trigger] more[j], requires_case_match) by {
            assert(joined[cats.len() + j] == more[j]);
        }
    }
    if spec_categories_ok(rule, cats) && spec_categories_ok(rule, more) {
        assert forall|j: int| 0 <= j < joined.len() implies name_allowed(names, #[trigger] joined[j], requires_case_match) by {
            if j < cats.len() {
                assert(joined[j] == cats[j]);
            } else {
                assert(joined[j] == more[j - cats.len()]);
            }
        }
    }
}

} // verus!
