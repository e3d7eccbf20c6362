//! The categories of a challenge.

use vstd::prelude::*;

use crate::yaml::lists::{non_string_types, partition_strings, string_items, strings_view};
use crate::yaml::value::{get_type, spec_as_sequence, type_of, ValueType, YamlValue};

verus! {

/// One category of a challenge.
#[derive(Clone, Debug, PartialEq)]
pub struct Category {
    name: String,
}

impl View for Category {
    type V = Seq<char>;

    closed spec fn view(&self) -> Seq<char> {
        self.name@
    }
}

/// The names of a list of categories, in order.
pub open spec fn category_names(cats: Seq<Category>) -> Seq<Seq<char>> {
    cats.map_values(|c: Category| c@)
}

impl Category {
    /// Every name makes a category.
    pub fn try_new(name: &str) -> (r: Option<Category>)
        ensures
            r matches Some(c) && c@ == name@,
    {
        Some(Category { name: name.to_owned() })
    }

    pub fn as_str(&self) -> (r: &str)
        ensures
            r@ == self@,
    {
        self.name.as_str()
    }
}

/// The categories of a challenge, in the order they were listed.
#[derive(Clone, Debug, PartialEq)]
pub struct Categories(Vec<Category>);

impl View for Categories {
    type V = Seq<Seq<char>>;

    closed spec fn view(&self) -> Seq<Seq<char>> {
        category_names(self.0@)
    }
}

impl Categories {
    /// Builds the categories from their names; a name that makes no category
    /// would be returned in the error (every name makes one).
    pub fn try_new(category_names: Vec<String>) -> (r: Result<Categories, Vec<String>>)
        ensures
            r matches Ok(c) && c@ == strings_view(category_names@),
    {
        let mut good_cats: Vec<Category> = Vec::new();
        let mut invalid_cat_names: Vec<String> = Vec::new();
        let mut i: usize = 0;
        while i < category_names.len()
            invariant
                i <= category_names@.len(),
                invalid_cat_names@.len() == 0,
                good_cats@.len() == i,
                crate::yaml::categories::category_names(good_cats@) =~= strings_view(
                    category_names@.take(i as int),
                ),
            decreases category_names@.len() - i,
        {
            let name = &category_names[i];
            let ghost before = good_cats@;
            match Category::try_new(name.as_str()) {
                Some(cat) => {
                    assert(cat@ == category_names@[i as int]@);
                    good_cats.push(cat);
                    assert(good_cats@ == before.push(cat));
                },
                None => invalid_cat_names.push(name.clone()),
            }
            assert(good_cats@.len() == i + 1);
            assert(good_cats@[i as int]@ == category_names@[i as int]@);
            assert forall|j: int| 0 <= j < i + 1 implies #[trigger] good_cats@[j]@ == category_names@.take(
                i + 1,
            )[j]@ by {
                if j < i {
                    assert(crate::yaml::categories::category_names(before)[j] == strings_view(
                        category_names@.take(i as int),
                    )[j]);
                }
            }
            assert(crate::yaml::categories::category_names(good_cats@) =~= strings_view(
                category_names@.take(i + 1),
            ));
            i = i + 1;
        }
        assert(category_names@.take(category_names@.len() as int) =~= category_names@);
        if invalid_cat_names.len() == 0 {
            Ok(Categories(good_cats))
        } else {
            Err(invalid_cat_names)
        }
    }

    pub fn slice(&self) -> (r: &[Category])
        ensures
            category_names(r@) == self@,
    {
        self.0.as_slice()
    }

    /// The categories, in order.
    pub fn iter(&self) -> (r: std::slice::Iter<'_, Category>)
        ensures
            category_names(vstd::std_specs::slice::into_iter_elts(r)) == self@,
    {
        broadcast use vstd::std_specs::slice::axiom_spec_slice_iter;
        self.0.as_slice().iter()
    }
}

/// How the categories entry can be wrong, as a model.
pub enum CategoryErrorView {
    InvalidCategories(Seq<Seq<char>>, Seq<ValueType>),
    InvalidBaseType(ValueType),
    MissingKey,
}

/// How the categories entry can be wrong.
#[derive(Clone, Debug)]
pub enum CategoryError {
    /// Names that make no category, and the kinds of the items that are not strings.
    InvalidCategories(Vec<String>, Vec<ValueType>),
    InvalidBaseType(ValueType),
    MissingKey,
}

impl View for CategoryError {
    type V = CategoryErrorView;

    open spec fn view(&self) -> CategoryErrorView {
        match self {
            CategoryError::InvalidCategories(names, types) => CategoryErrorView::InvalidCategories(
                strings_view(names@),
                types@,
            ),
            CategoryError::InvalidBaseType(t) => CategoryErrorView::InvalidBaseType(*t),
            CategoryError::MissingKey => CategoryErrorView::MissingKey,
        }
    }
}

/// What reading the categories entry gives.
pub open spec fn spec_categories(value: YamlValue) -> Result<Seq<Seq<char>>, CategoryErrorView> {
    match spec_as_sequence(value) {
        None => Err(CategoryErrorView::InvalidBaseType(type_of(value))),
        Some(items) => {
            let bad = non_string_types(items);
            if bad.len() > 0 {
                Err(CategoryErrorView::InvalidCategories(Seq::empty(), bad))
            } else {
                Ok(string_items(items))
            }
        },
    }
}

/// Reads the categories entry: a list of strings.
pub fn value_to_categories(value: &YamlValue) -> (r: Result<Categories, CategoryError>)
    ensures
        match r {
            Ok(c) => spec_categories(*value) == Ok::<Seq<Seq<char>>, CategoryErrorView>(c@),
            Err(e) => spec_categories(*value) == Err::<Seq<Seq<char>>, CategoryErrorView>(e@),
        },
{
    match value.as_sequence() {
        None => Err(CategoryError::InvalidBaseType(get_type(value))),
        Some(items) => {
            let (cand_names, bad_type) = partition_strings(items);
            match Categories::try_new(cand_names) {
                Ok(categories) => {
                    if bad_type.len() > 0 {
                        let no_names: Vec<String> = Vec::new();
                        assert(strings_view(no_names@) =~= Seq::<Seq<char>>::empty());
                        Err(CategoryError::InvalidCategories(no_names, bad_type))
                    } else {
                        Ok(categories)
                    }
                },
                Err(bad_names) => Err(CategoryError::InvalidCategories(bad_names, bad_type)),
            }
        },
    }
}

} // verus!
