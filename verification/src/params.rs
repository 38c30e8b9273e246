//! Search parameters as typed values, gathered in call order.

use crate::criteria::Criteria;
use crate::text::decimal;
use crate::text::decimal_string_of_size;
use vstd::prelude::*;

verus! {

/// A search criteria parameter. It stands for the triplet
///
/// ```text
/// tagtype_N=<name>
/// tag_contains_N=<op>
/// tag_N=<value>
/// ```
///
/// where `N` is the place of this parameter among the criteria parameters.
///
/// * `name` - one of the criteria names.
/// * `op` - `contains` or `does_not_contain`.
/// * `value` - the searched criteria value.
#[derive(Debug)]
pub struct CriteriaParam {
    pub name: String,
    pub op: String,
    pub value: String,
}

/// An ingredient parameter. It stands for the pair `<name>=<value>`.
///
/// * `name` - one of `additives`, `ingredients_from_palm_oil`,
///   `ingredients_that_may_be_from_palm_oil`,
///   `ingredients_from_or_that_may_be_from_palm_oil`.
/// * `value` - one of `with`, `without`, `indifferent`.
#[derive(Debug)]
pub struct IngredientParam {
    pub name: String,
    pub value: String,
}

/// A nutriment parameter. It stands for the triplet
///
/// ```text
/// nutriment_N=<name>
/// nutriment_compare_N=<op>
/// nutriment_value_N=<value>
/// ```
///
/// where `N` is the place of this parameter among the nutriment parameters.
///
/// * `name` - a nutriment name.
/// * `op` - one of `lt`, `lte`, `gt`, `gte`, `eq`.
/// * `value` - the searched nutriment value, as decimal text.
#[derive(Debug)]
pub struct NutrimentParam {
    pub name: String,
    pub op: String,
    pub value: String,
}

/// A product name parameter. It stands for the pair `product_name=<name>`.
#[derive(Debug)]
pub struct NameParam {
    pub name: String,
}

/// A search parameter of one of the four kinds.
#[derive(Debug)]
pub enum SearchParam {
    Criteria(CriteriaParam),
    Ingredient(IngredientParam),
    Nutriment(NutrimentParam),
    Name(NameParam),
}

/// A search parameter as a mathematical value.
pub enum SearchParamView {
    Criteria { name: Seq<char>, op: Seq<char>, value: Seq<char> },
    Ingredient { name: Seq<char>, value: Seq<char> },
    Nutriment { name: Seq<char>, op: Seq<char>, value: Seq<char> },
    Name { name: Seq<char> },
}

impl View for SearchParam {
    type V = SearchParamView;

    open spec fn view(&self) -> SearchParamView {
        match self {
            SearchParam::Criteria(p) => SearchParamView::Criteria {
                name: p.name@,
                op: p.op@,
                value: p.value@,
            },
            SearchParam::Ingredient(p) => SearchParamView::Ingredient {
                name: p.name@,
                value: p.value@,
            },
            SearchParam::Nutriment(p) => SearchParamView::Nutriment {
                name: p.name@,
                op: p.op@,
                value: p.value@,
            },
            SearchParam::Name(p) => SearchParamView::Name { name: p.name@ },
        }
    }
}

/// The views of a sequence of search parameters.
pub open spec fn param_views(params: Seq<SearchParam>) -> Seq<SearchParamView> {
    Seq::new(params.len(), |i: int| params[i]@)
}

/// A builder of search parameters: a list in call order.
#[derive(Debug)]
pub struct SearchParams(Vec<SearchParam>);

impl View for SearchParams {
    type V = Seq<SearchParamView>;

    closed spec fn view(&self) -> Seq<SearchParamView> {
        param_views(self.0@)
    }
}

impl SearchParams {
    /// The empty list.
    pub fn new() -> (params: Self)
        ensures
            params@ == Seq::<SearchParamView>::empty(),
    {
        let params = Self(Vec::new());
        params
    }

    /// Adds a criteria parameter.
    pub fn criteria(&mut self, criteria: &Criteria, op: &str, value: &str) -> (params: &mut Self)
        ensures
            params@ == old(self)@.push(
                SearchParamView::Criteria { name: criteria.0@, op: op@, value: value@ },
            ),
            *final(self) == *final(params),
    {
        self.0.push(
            SearchParam::Criteria(
                CriteriaParam {
                    name: String::from_str(criteria.0),
                    op: String::from_str(op),
                    value: String::from_str(value),
                },
            ),
        );
        self
    }

    /// Adds an ingredient parameter.
    pub fn ingredient(&mut self, ingredient: &str, value: &str) -> (params: &mut Self)
        ensures
            params@ == old(self)@.push(
                SearchParamView::Ingredient { name: ingredient@, value: value@ },
            ),
            *final(self) == *final(params),
    {
        self.0.push(
            SearchParam::Ingredient(
                IngredientParam {
                    name: String::from_str(ingredient),
                    value: String::from_str(value),
                },
            ),
        );
        self
    }

    /// Adds a nutriment parameter. The value is kept as decimal text.
    pub fn nutriment(&mut self, nutriment: &str, op: &str, value: usize) -> (params: &mut Self)
        ensures
            params@ == old(self)@.push(
                SearchParamView::Nutriment {
                    name: nutriment@,
                    op: op@,
                    value: decimal(value as nat),
                },
            ),
            *final(self) == *final(params),
    {
        self.0.push(
            SearchParam::Nutriment(
                NutrimentParam {
                    name: String::from_str(nutriment),
                    op: String::from_str(op),
                    value: decimal_string_of_size(value),
                },
            ),
        );
        self
    }

    /// Adds a product name parameter.
    pub fn name(&mut self, name: &str) -> (params: &mut Self)
        ensures
            params@ == old(self)@.push(SearchParamView::Name { name: name@ }),
            *final(self) == *final(params),
    {
        self.0.push(SearchParam::Name(NameParam { name: String::from_str(name) }));
        self
    }

    /// The parameters, in call order.
    pub fn into_vec(self) -> (list: Vec<SearchParam>)
        ensures
            param_views(list@) == self@,
    {
        self.0
    }
}

impl IntoIterator for SearchParams {
    type Item = SearchParam;

    type IntoIter = std::vec::IntoIter<SearchParam>;

    /// The parameters, in call order.
    fn into_iter(self) -> (iter: std::vec::IntoIter<SearchParam>)
        ensures
            param_views(vstd::std_specs::vec::into_iter_elts(iter)) == self@,
    {
        broadcast use vstd::std_specs::vec::axiom_spec_into_iter;

        self.0.into_iter()
    }
}

} // verus!
