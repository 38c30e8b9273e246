//! Search query builders.
//!
//! A builder gathers parameters from chained calls and serializes them to
//! the ordered `(name, value)` pairs of a search request. The two API
//! generations encode the same ideas differently: version 0 numbers its
//! criteria and nutrient clauses, version 2 folds tags and comparisons into
//! the parameter names.

use crate::text::{decimal, decimal_string, joined, same_text};
use crate::types::{Pair, Params};
use vstd::prelude::*;

verus! {

/// What a builder has gathered for one parameter: the characters of its name
/// and of its value. A parameter without a value has `None`.
pub type Entry = (Seq<char>, Option<Seq<char>>);

/// Sorting criteria.
///
/// * `Popularity` - number of unique scans.
/// * `ProductName` - product name, alphabetical.
/// * `CreatedDate` - date of creation.
/// * `LastModifiedDate` - date of the last edit.
/// * `EcoScore` - eco score.
#[derive(Debug, Clone, Copy)]
pub enum SortBy {
    Popularity,
    ProductName,
    CreatedDate,
    LastModifiedDate,
    EcoScore,
}

impl SortBy {
    /// The value of the `sort_by` parameter that selects this order.
    pub open spec fn wire(self) -> Seq<char> {
        match self {
            SortBy::Popularity => "unique_scans_n"@,
            SortBy::ProductName => "product_name"@,
            SortBy::CreatedDate => "created_t"@,
            SortBy::LastModifiedDate => "last_modified_t"@,
            SortBy::EcoScore => "ecoscore_score"@,
        }
    }

    /// The value of the `sort_by` parameter that selects this order.
    pub fn to_string(&self) -> (s: String)
        ensures
            s@ == self.wire(),
    {
        let sort = match self {
            SortBy::Popularity => "unique_scans_n",
            SortBy::ProductName => "product_name",
            SortBy::CreatedDate => "created_t",
            SortBy::LastModifiedDate => "last_modified_t",
            SortBy::EcoScore => "ecoscore_score",
        };
        String::from_str(sort)
    }
}

/// The `sort_by` pair of a query, if an order was chosen.
pub open spec fn sort_pairs(sort_by: Option<SortBy>) -> Seq<Pair> {
    match sort_by {
        Some(s) => seq![("sort_by"@, s.wire())],
        None => Seq::empty(),
    }
}

/// The pairs of the entries that have a value, in order. Entries without a
/// value are left out.
pub open spec fn valued_pairs(entries: Seq<Entry>) -> Seq<Pair>
    decreases entries.len(),
{
    if entries.len() == 0 {
        Seq::empty()
    } else {
        let rest = valued_pairs(entries.drop_last());
        match entries.last().1 {
            Some(value) => rest.push((entries.last().0, value)),
            None => rest,
        }
    }
}

/// One pair for each entry, in order. An entry without a value gives a pair
/// with the empty string as its value.
pub open spec fn keyed_pairs(entries: Seq<Entry>) -> Seq<Pair> {
    Seq::new(
        entries.len(),
        |i: int|
            (
                entries[i].0,
                match entries[i].1 {
                    Some(value) => value,
                    None => Seq::empty(),
                },
            ),
    )
}

// The internal representation of a search query parameter value.
#[derive(Debug)]
enum Value {
    Text(String),
    Number(u32),
    Empty,
}

impl Value {
    spec fn rendered(self) -> Option<Seq<char>> {
        match self {
            Value::Text(s) => Some(s@),
            Value::Number(n) => Some(decimal(n as nat)),
            Value::Empty => None,
        }
    }

    fn text(value: &str) -> (v: Value)
        ensures
            v.rendered() == Some(value@),
    {
        Value::Text(String::from_str(value))
    }
}

/// Converts a search query into the parameter list of a request.
pub trait QueryParams {
    /// The pairs that the query serializes to, in order.
    spec fn serialized(&self) -> Seq<Pair>;

    /// Serializes the query.
    fn params(&self) -> (params: Params)
        ensures
            params.deep_view() == self.serialized(),
    ;
}

/// A search query under construction. The state `S` is that of one API
/// generation: see [`SearchQueryV0`] and [`SearchQueryV2`].
#[derive(Debug)]
pub struct SearchQuery<S> {
    params: Vec<(String, Value)>,
    sort_by: Option<SortBy>,
    state: S,
}

impl<S> SearchQuery<S> {
    /// The parameters gathered so far, in call order.
    pub closed spec fn entries(&self) -> Seq<Entry> {
        Seq::new(self.params@.len(), |i: int| (self.params@[i].0@, self.params@[i].1.rendered()))
    }

    /// The sorting order, if one was chosen.
    pub closed spec fn sorting(&self) -> Option<SortBy> {
        self.sort_by
    }

    /// The state of the API generation.
    pub closed spec fn state(&self) -> S {
        self.state
    }

    /// Sets the sorting order. A later call replaces an earlier one.
    pub fn sort_by(self, sort_by: SortBy) -> (query: Self)
        ensures
            query.entries() == self.entries(),
            query.sorting() == Some(sort_by),
            query.state() == self.state(),
    {
        let mut query = self;
        query.sort_by = Some(sort_by);
        query
    }

    // Gathers one more parameter.
    fn emit(&mut self, name: String, value: Value)
        ensures
            final(self).entries() == old(self).entries().push((name@, value.rendered())),
            final(self).sorting() == old(self).sorting(),
            final(self).state() == old(self).state(),
    {
        self.params.push((name, value));
    }

    // Serializes the sorting order, if one was chosen.
    fn push_sort_by(&self, params: &mut Params)
        ensures
            final(params).deep_view() == old(params).deep_view() + sort_pairs(self.sorting()),
    {
        match self.sort_by {
            Some(s) => {
                params.push((String::from_str("sort_by"), s.to_string()));
            },
            None => {},
        }
    }
}

// ----------------------------------------------------------------------------
// Search query, API version 0
// ----------------------------------------------------------------------------

/// The counters of a version 0 query: how many criteria and how many
/// nutrient clauses it holds.
#[derive(Debug)]
pub struct QueryStateV0 {
    criteria_index: u32,
    nutrient_index: u32,
}

impl QueryStateV0 {
    /// The number of criteria clauses so far.
    pub closed spec fn criteria_count(self) -> nat {
        self.criteria_index as nat
    }

    /// The number of nutrient clauses so far.
    pub closed spec fn nutrient_count(self) -> nat {
        self.nutrient_index as nat
    }
}

impl Default for QueryStateV0 {
    fn default() -> (state: QueryStateV0)
        ensures
            state.criteria_count() == 0,
            state.nutrient_count() == 0,
    {
        QueryStateV0 { criteria_index: 0, nutrient_index: 0 }
    }
}

/// A search query builder for the search API of version 0.
///
/// Criteria and nutrient clauses are numbered from 1 in the order in which
/// they are added, each kind on its own count.
pub type SearchQueryV0 = SearchQuery<QueryStateV0>;

/// The three entries of the criteria clause number `i`.
pub open spec fn criteria_entries(i: nat, name: Seq<char>, op: Seq<char>, value: Seq<char>) -> Seq<
    Entry,
> {
    seq![
        ("tagtype_"@ + decimal(i), Some(name)),
        ("tag_contains_"@ + decimal(i), Some(op)),
        ("tag_"@ + decimal(i), Some(value)),
    ]
}

/// The three entries of the nutrient clause number `i`.
pub open spec fn nutrient_entries(i: nat, name: Seq<char>, op: Seq<char>, value: u32) -> Seq<
    Entry,
> {
    seq![
        ("nutriment_"@ + decimal(i), Some(name)),
        ("nutriment_compare_"@ + decimal(i), Some(op)),
        ("nutriment_value_"@ + decimal(i), Some(decimal(value as nat))),
    ]
}

/// The value sent for an ingredient: `additives` takes its value with the
/// suffix `_additives`, every other ingredient takes it as given.
pub open spec fn ingredient_value(name: Seq<char>, value: Seq<char>) -> Seq<char> {
    if name == "additives"@ {
        value + "_additives"@
    } else {
        value
    }
}

/// The two pairs that end every version 0 search.
pub open spec fn process_pairs() -> Seq<Pair> {
    seq![("action"@, "process"@), ("json"@, "true"@)]
}

/// A version 0 query as a mathematical value.
pub struct QueryV0 {
    /// The parameters gathered so far, in call order.
    pub entries: Seq<Entry>,
    /// The sorting order, if one was chosen.
    pub sort_by: Option<SortBy>,
    /// The number of criteria clauses so far.
    pub criteria_index: nat,
    /// The number of nutrient clauses so far.
    pub nutrient_index: nat,
}

impl QueryV0 {
    /// The empty query.
    pub open spec fn fresh() -> QueryV0 {
        QueryV0 { entries: Seq::empty(), sort_by: None, criteria_index: 0, nutrient_index: 0 }
    }

    /// The query after one more criteria clause.
    pub open spec fn criteria(self, name: Seq<char>, op: Seq<char>, value: Seq<char>) -> QueryV0 {
        QueryV0 {
            entries: self.entries + criteria_entries(self.criteria_index + 1, name, op, value),
            sort_by: self.sort_by,
            criteria_index: self.criteria_index + 1,
            nutrient_index: self.nutrient_index,
        }
    }

    /// The query after one more ingredient parameter.
    pub open spec fn ingredient(self, name: Seq<char>, value: Seq<char>) -> QueryV0 {
        QueryV0 {
            entries: self.entries.push((name, Some(ingredient_value(name, value)))),
            sort_by: self.sort_by,
            criteria_index: self.criteria_index,
            nutrient_index: self.nutrient_index,
        }
    }

    /// The query after one more nutrient clause.
    pub open spec fn nutrient(self, name: Seq<char>, op: Seq<char>, value: u32) -> QueryV0 {
        QueryV0 {
            entries: self.entries + nutrient_entries(self.nutrient_index + 1, name, op, value),
            sort_by: self.sort_by,
            criteria_index: self.criteria_index,
            nutrient_index: self.nutrient_index + 1,
        }
    }

    /// The query after the free-text search terms.
    pub open spec fn terms(self, text: Seq<char>) -> QueryV0 {
        QueryV0 {
            entries: self.entries.push(("search_terms"@, Some(text))),
            sort_by: self.sort_by,
            criteria_index: self.criteria_index,
            nutrient_index: self.nutrient_index,
        }
    }

    /// The query with the given sorting order.
    pub open spec fn sorted_by(self, sort_by: SortBy) -> QueryV0 {
        QueryV0 {
            entries: self.entries,
            sort_by: Some(sort_by),
            criteria_index: self.criteria_index,
            nutrient_index: self.nutrient_index,
        }
    }

    /// The pairs of the request: the gathered parameters in call order, then
    /// the sorting order if one was chosen, then `action` and `json`.
    pub open spec fn serialized(self) -> Seq<Pair> {
        valued_pairs(self.entries) + sort_pairs(self.sort_by) + process_pairs()
    }
}

impl View for SearchQueryV0 {
    type V = QueryV0;

    open spec fn view(&self) -> QueryV0 {
        QueryV0 {
            entries: self.entries(),
            sort_by: self.sorting(),
            criteria_index: self.state().criteria_count(),
            nutrient_index: self.state().nutrient_count(),
        }
    }
}

impl SearchQueryV0 {
    /// The empty query.
    pub fn new() -> (query: Self)
        ensures
            query@ == QueryV0::fresh(),
    {
        let query = SearchQuery { params: Vec::new(), sort_by: None, state: QueryStateV0::default() };
        assert(query.entries() =~= Seq::empty());
        query
    }

    /// The number of criteria clauses so far.
    pub fn criteria_index(&self) -> (n: u32)
        ensures
            n == self@.criteria_index,
    {
        self.state.criteria_index
    }

    /// The number of nutrient clauses so far.
    pub fn nutrient_index(&self) -> (n: u32)
        ensures
            n == self@.nutrient_index,
    {
        self.state.nutrient_index
    }

    /// Adds a criteria clause, which produces the three pairs
    ///
    /// ```text
    /// tagtype_N=<criteria>
    /// tag_contains_N=<op>
    /// tag_N=<value>
    /// ```
    ///
    /// where `N` is the number of this clause among the criteria clauses.
    ///
    /// * `criteria` - a criteria name, such as `brands` or `categories`.
    /// * `op` - `contains` or `does_not_contain`; passed on as given.
    /// * `value` - the searched criteria value.
    ///
    /// A query holds at most `u32::MAX` criteria clauses: the count must
    /// have room for one more.
    pub fn criteria(self, criteria: &str, op: &str, value: &str) -> (query: Self)
        requires
            self@.criteria_index < u32::MAX,
        ensures
            query@ == self@.criteria(criteria@, op@, value@),
    {
        let mut query = self;
        query.state.criteria_index += 1;
        let index = decimal_string(query.state.criteria_index);
        query.emit(joined("tagtype_", index.as_str()), Value::text(criteria));
        query.emit(joined("tag_contains_", index.as_str()), Value::text(op));
        query.emit(joined("tag_", index.as_str()), Value::text(value));
        assert(query.entries() =~= self.entries() + criteria_entries(
            self@.criteria_index + 1,
            criteria@,
            op@,
            value@,
        ));
        query
    }

    /// Adds an ingredient parameter, which produces the pair
    /// `<ingredient>=<value>`.
    ///
    /// * `ingredient` - one of `additives`, `ingredients_from_palm_oil`,
    ///   `ingredients_that_may_be_from_palm_oil`,
    ///   `ingredients_from_or_that_may_be_from_palm_oil`.
    /// * `value` - one of `with`, `without`, `indifferent`.
    ///
    /// For `additives` the value goes out with the suffix `_additives`:
    /// `without` becomes `without_additives`.
    pub fn ingredient(self, ingredient: &str, value: &str) -> (query: Self)
        ensures
            query@ == self@.ingredient(ingredient@, value@),
    {
        let mut query = self;
        let sent = if same_text(ingredient, "additives") {
            joined(value, "_additives")
        } else {
            String::from_str(value)
        };
        query.emit(String::from_str(ingredient), Value::Text(sent));
        query
    }

    /// Adds a nutrient clause, which produces the three pairs
    ///
    /// ```text
    /// nutriment_N=<nutrient>
    /// nutriment_compare_N=<op>
    /// nutriment_value_N=<value>
    /// ```
    ///
    /// where `N` is the number of this clause among the nutrient clauses.
    ///
    /// * `nutrient` - the nutrient name.
    /// * `op` - one of `lt`, `lte`, `gt`, `gte`, `eq`; passed on as given.
    /// * `value` - the value to compare with.
    ///
    /// A query holds at most `u32::MAX` nutrient clauses: the count must
    /// have room for one more.
    pub fn nutrient(self, nutrient: &str, op: &str, value: u32) -> (query: Self)
        requires
            self@.nutrient_index < u32::MAX,
        ensures
            query@ == self@.nutrient(nutrient@, op@, value),
    {
        let mut query = self;
        query.state.nutrient_index += 1;
        let index = decimal_string(query.state.nutrient_index);
        query.emit(joined("nutriment_", index.as_str()), Value::text(nutrient));
        query.emit(joined("nutriment_compare_", index.as_str()), Value::text(op));
        query.emit(joined("nutriment_value_", index.as_str()), Value::Number(value));
        assert(query.entries() =~= self.entries() + nutrient_entries(
            self@.nutrient_index + 1,
            nutrient@,
            op@,
            value,
        ));
        query
    }

    /// Sets the free-text search terms, which produces the pair
    /// `search_terms=<text>`.
    pub fn terms(self, search_terms: &str) -> (query: Self)
        ensures
            query@ == self@.terms(search_terms@),
    {
        let mut query = self;
        query.emit(String::from_str("search_terms"), Value::text(search_terms));
        query
    }
}

impl Default for SearchQueryV0 {
    /// The empty query.
    fn default() -> (query: Self)
        ensures
            query@ == QueryV0::fresh(),
    {
        SearchQueryV0::new()
    }
}

impl QueryParams for SearchQueryV0 {
    open spec fn serialized(&self) -> Seq<Pair> {
        self@.serialized()
    }

    /// Serializes the query: the gathered parameters in call order, then
    /// the sorting order if one was chosen, then `action=process` and
    /// `json=true`.
    fn params(&self) -> (params: Params)
        ensures
            params.len() >= 2,
            params.deep_view()[params.len() - 2] == ("action"@, "process"@),
            params.deep_view()[params.len() - 1] == ("json"@, "true"@),
    {
        let mut params: Params = Vec::new();
        let mut i: usize = 0;
        while i < self.params.len()
            invariant
                i <= self.params.len(),
                params.deep_view() == valued_pairs(self.entries().take(i as int)),
            decreases self.params.len() - i,
        {
            let ghost done = self.entries().take(i as int);
            let ghost next = self.entries().take(i + 1);
            assert(next.drop_last() =~= done);
            let name = &self.params[i].0;
            match &self.params[i].1 {
                Value::Text(s) => {
                    params.push((name.clone(), s.clone()));
                },
                Value::Number(n) => {
                    let text = decimal_string(*n);
                    params.push((name.clone(), text));
                },
                Value::Empty => {},
            }
            i += 1;
        }
        assert(self.entries().take(i as int) =~= self.entries());
        self.push_sort_by(&mut params);
        // Adds the `action` and `json` parameters.
        params.push((String::from_str("action"), String::from_str("process")));
        params.push((String::from_str("json"), String::from_str("true")));
        params
    }
}

// ----------------------------------------------------------------------------
// Search query, API version 2
// ----------------------------------------------------------------------------

/// The state of a version 2 query: there is none beyond the parameters.
#[derive(Debug)]
pub struct QueryStateV2;

impl Default for QueryStateV2 {
    fn default() -> QueryStateV2 {
        QueryStateV2
    }
}

/// A search query builder for the search API of version 2.
pub type SearchQueryV2 = SearchQuery<QueryStateV2>;

/// The name of a criteria parameter: the criteria and `_tags`, followed by
/// an underscore and the language code where one is given.
pub open spec fn tag_name(criteria: Seq<char>, language: Option<Seq<char>>) -> Seq<char> {
    match language {
        Some(lc) => criteria + "_tags_"@ + lc,
        None => criteria + "_tags"@,
    }
}

/// The entry of a nutrient condition. With the operator `=` the value is
/// sent under the name `<nutrient>_<unit>`. With any other operator the
/// whole condition becomes the name, and there is no value.
pub open spec fn condition_entry(
    nutrient: Seq<char>,
    unit: Seq<char>,
    op: Seq<char>,
    value: u32,
) -> Entry {
    if op == "="@ {
        (nutrient + "_"@ + unit, Some(decimal(value as nat)))
    } else {
        (nutrient + "_"@ + unit + op + decimal(value as nat), None)
    }
}

/// A version 2 query as a mathematical value.
pub struct QueryV2 {
    /// The parameters gathered so far, in call order.
    pub entries: Seq<Entry>,
    /// The sorting order, if one was chosen.
    pub sort_by: Option<SortBy>,
}

impl QueryV2 {
    /// The empty query.
    pub open spec fn fresh() -> QueryV2 {
        QueryV2 { entries: Seq::empty(), sort_by: None }
    }

    /// The query after one more criteria parameter.
    pub open spec fn criteria(
        self,
        criteria: Seq<char>,
        value: Seq<char>,
        language: Option<Seq<char>>,
    ) -> QueryV2 {
        QueryV2 {
            entries: self.entries.push((tag_name(criteria, language), Some(value))),
            sort_by: self.sort_by,
        }
    }

    /// The query after one more nutrient condition.
    pub open spec fn nutrient(
        self,
        nutrient: Seq<char>,
        unit: Seq<char>,
        op: Seq<char>,
        value: u32,
    ) -> QueryV2 {
        QueryV2 {
            entries: self.entries.push(condition_entry(nutrient, unit, op, value)),
            sort_by: self.sort_by,
        }
    }

    /// The query with the given sorting order.
    pub open spec fn sorted_by(self, sort_by: SortBy) -> QueryV2 {
        QueryV2 { entries: self.entries, sort_by: Some(sort_by) }
    }

    /// The pairs of the request: the gathered parameters in call order, then
    /// the sorting order if one was chosen.
    pub open spec fn serialized(self) -> Seq<Pair> {
        keyed_pairs(self.entries) + sort_pairs(self.sort_by)
    }
}

impl View for SearchQueryV2 {
    type V = QueryV2;

    open spec fn view(&self) -> QueryV2 {
        QueryV2 { entries: self.entries(), sort_by: self.sorting() }
    }
}

impl SearchQueryV2 {
    /// The empty query.
    pub fn new() -> (query: Self)
        ensures
            query@ == QueryV2::fresh(),
    {
        let query = SearchQuery { params: Vec::new(), sort_by: None, state: QueryStateV2::default() };
        assert(query.entries() =~= Seq::empty());
        query
    }

    /// Adds a criteria parameter, which produces the pair
    /// `<criteria>_tags=<value>`, or `<criteria>_tags_<lc>=<value>` where a
    /// language code is given.
    ///
    /// * `criteria` - a criteria name, such as `brands` or `categories`.
    /// * `value` - the criteria value, in the API's own grammar: a comma
    ///   for AND, a colon for OR, a tilde for NOT. It is passed on as given.
    /// * `lc` - an optional language code.
    pub fn criteria(self, criteria: &str, value: &str, lc: Option<&str>) -> (query: Self)
        ensures
            query@ == self@.criteria(
                criteria@,
                value@,
                match lc {
                    Some(l) => Some(l@),
                    None => None,
                },
            ),
    {
        let mut query = self;
        let name = match lc {
            Some(l) => {
                let mut name = joined(criteria, "_tags_");
                name.append(l);
                name
            },
            None => joined(criteria, "_tags"),
        };
        query.emit(name, Value::text(value));
        query
    }

    /// Adds a condition on a nutrient, which produces the pair
    /// `<nutrient>_<unit>=<value>` if `op` is `=`, and otherwise the
    /// parameter `<nutrient>_<unit><op><value>`, which has no value.
    ///
    /// * `nutrient` - the nutrient name.
    /// * `unit` - `100g` or `serving`.
    /// * `op` - a comparison operator: `=`, `<`, `>`, `<=`, `=>`. It is
    ///   passed on as given.
    /// * `value` - the value to compare with.
    pub fn nutrient(self, nutrient: &str, unit: &str, op: &str, value: u32) -> (query: Self)
        ensures
            query@ == self@.nutrient(nutrient@, unit@, op@, value),
    {
        let mut query = self;
        let mut name = joined(nutrient, "_");
        name.append(unit);
        if same_text(op, "=") {
            query.emit(name, Value::Number(value));
        } else {
            // The operator and the value become part of the name.
            name.append(op);
            let text = decimal_string(value);
            name.append(text.as_str());
            query.emit(name, Value::Empty);
        }
        query
    }

    /// Adds a nutrient condition per 100 grams.
    pub fn nutrient_100g(self, nutrient: &str, op: &str, value: u32) -> (query: Self)
        ensures
            query@ == self@.nutrient(nutrient@, "100g"@, op@, value),
    {
        self.nutrient(nutrient, "100g", op, value)
    }

    /// Adds a nutrient condition per serving.
    pub fn nutrient_serving(self, nutrient: &str, op: &str, value: u32) -> (query: Self)
        ensures
            query@ == self@.nutrient(nutrient@, "serving"@, op@, value),
    {
        self.nutrient(nutrient, "serving", op, value)
    }
}

impl Default for SearchQueryV2 {
    /// The empty query.
    fn default() -> (query: Self)
        ensures
            query@ == QueryV2::fresh(),
    {
        SearchQueryV2::new()
    }
}

impl QueryParams for SearchQueryV2 {
    open spec fn serialized(&self) -> Seq<Pair> {
        self@.serialized()
    }

    fn params(&self) -> (params: Params) {
        let mut params: Params = Vec::new();
        let mut i: usize = 0;
        while i < self.params.len()
            invariant
                i <= self.params.len(),
                params.deep_view() == keyed_pairs(self.entries().take(i as int)),
            decreases self.params.len() - i,
        {
            let ghost before = params;
            let name = &self.params[i].0;
            let value = match &self.params[i].1 {
                Value::Text(s) => s.clone(),
                Value::Number(n) => decimal_string(*n),
                Value::Empty => String::new(),
            };
            params.push((name.clone(), value));
            assert(params.deep_view() =~= before.deep_view().push((name@, value@)));
            i += 1;
        }
        self.push_sort_by(&mut params);
        params
    }
}

// ----------------------------------------------------------------------------
// Properties of the encodings
// ----------------------------------------------------------------------------

/// A call on a version 0 builder, as a mathematical value.
pub enum CallV0 {
    /// A call of `criteria`.
    Criteria { name: Seq<char>, op: Seq<char>, value: Seq<char> },
    /// A call of `ingredient`.
    Ingredient { name: Seq<char>, value: Seq<char> },
    /// A call of `nutrient`.
    Nutrient { name: Seq<char>, op: Seq<char>, amount: u32 },
    /// A call of `terms`.
    Terms { text: Seq<char> },
    /// A call of `sort_by`.
    Sort { order: SortBy },
}

impl QueryV0 {
    /// The query after one call.
    pub open spec fn after(self, call: CallV0) -> QueryV0 {
        match call {
            CallV0::Criteria { name, op, value } => self.criteria(name, op, value),
            CallV0::Ingredient { name, value } => self.ingredient(name, value),
            CallV0::Nutrient { name, op, amount } => self.nutrient(name, op, amount),
            CallV0::Terms { text } => self.terms(text),
            CallV0::Sort { order } => self.sorted_by(order),
        }
    }

    /// The query after a sequence of calls, made in order.
    pub open spec fn after_all(self, calls: Seq<CallV0>) -> QueryV0
        decreases calls.len(),
    {
        if calls.len() == 0 {
            self
        } else {
            self.after_all(calls.drop_last()).after(calls.last())
        }
    }
}

/// How many of the calls are calls of `criteria`.
pub open spec fn criteria_calls(calls: Seq<CallV0>) -> nat
    decreases calls.len(),
{
    if calls.len() == 0 {
        0
    } else if calls.last() is Criteria {
        criteria_calls(calls.drop_last()) + 1
    } else {
        criteria_calls(calls.drop_last())
    }
}

/// How many of the calls are calls of `nutrient`.
pub open spec fn nutrient_calls(calls: Seq<CallV0>) -> nat
    decreases calls.len(),
{
    if calls.len() == 0 {
        0
    } else if calls.last() is Nutrient {
        nutrient_calls(calls.drop_last()) + 1
    } else {
        nutrient_calls(calls.drop_last())
    }
}

/// Each counter counts the calls of its own kind and nothing else: after any
/// sequence of calls the criteria counter has grown by the number of
/// `criteria` calls and the nutrient counter by the number of `nutrient`
/// calls, however the calls are interleaved.
pub proof fn lemma_counters_count_calls(start: QueryV0, calls: Seq<CallV0>)
    ensures
        start.after_all(calls).criteria_index == start.criteria_index + criteria_calls(calls),
        start.after_all(calls).nutrient_index == start.nutrient_index + nutrient_calls(calls),
    decreases calls.len(),
{
    if calls.len() > 0 {
        lemma_counters_count_calls(start, calls.drop_last());
    }
}

/// A call never lowers a counter, and the call of a kind raises the counter
/// of that kind by exactly one and leaves the other alone.
pub proof fn lemma_counters_step(query: QueryV0, call: CallV0)
    ensures
        query.after(call).criteria_index == query.criteria_index + (if call is Criteria {
            1nat
        } else {
            0nat
        }),
        query.after(call).nutrient_index == query.nutrient_index + (if call is Nutrient {
            1nat
        } else {
            0nat
        }),
{
}

/// The N-th call of `criteria` on a new builder emits its three pairs with
/// the suffix N, whatever other calls come between: if call number `k` is a
/// `criteria` call, and `n` of the calls up to and including it are
/// `criteria` calls, then it appends exactly the criteria clause number `n`.
pub proof fn lemma_criteria_suffix(calls: Seq<CallV0>, k: int)
    requires
        0 <= k < calls.len(),
        calls[k] is Criteria,
    ensures
        criteria_calls(calls.take(k + 1)) == criteria_calls(calls.take(k)) + 1,
        QueryV0::fresh().after_all(calls.take(k + 1)).entries == QueryV0::fresh().after_all(
            calls.take(k),
        ).entries + criteria_entries(
            criteria_calls(calls.take(k + 1)),
            calls[k]->Criteria_name,
            calls[k]->Criteria_op,
            calls[k]->Criteria_value,
        ),
{
    let upto = calls.take(k + 1);
    assert(upto.drop_last() =~= calls.take(k));
    lemma_counters_count_calls(QueryV0::fresh(), calls.take(k));
}

/// The N-th call of `nutrient` on a new builder emits its three pairs with
/// the suffix N, whatever other calls come between.
pub proof fn lemma_nutrient_suffix(calls: Seq<CallV0>, k: int)
    requires
        0 <= k < calls.len(),
        calls[k] is Nutrient,
    ensures
        nutrient_calls(calls.take(k + 1)) == nutrient_calls(calls.take(k)) + 1,
        QueryV0::fresh().after_all(calls.take(k + 1)).entries == QueryV0::fresh().after_all(
            calls.take(k),
        ).entries + nutrient_entries(
            nutrient_calls(calls.take(k + 1)),
            calls[k]->Nutrient_name,
            calls[k]->Nutrient_op,
            calls[k]->Nutrient_amount,
        ),
{
    let upto = calls.take(k + 1);
    assert(upto.drop_last() =~= calls.take(k));
    lemma_counters_count_calls(QueryV0::fresh(), calls.take(k));
}

/// Clauses of different numbers have different parameter names: under one
/// prefix, the names of the clauses number `i` and number `j` are equal only
/// if `i` and `j` are.
pub proof fn lemma_numbered_names_distinct(prefix: Seq<char>, i: nat, j: nat)
    requires
        prefix + decimal(i) == prefix + decimal(j),
    ensures
        i == j,
{
    let left = prefix + decimal(i);
    let right = prefix + decimal(j);
    assert(left.subrange(prefix.len() as int, left.len() as int) =~= decimal(i));
    assert(right.subrange(prefix.len() as int, right.len() as int) =~= decimal(j));
    crate::text::lemma_decimal_injective(i, j);
}

/// Whether every entry has a value.
pub open spec fn all_valued(entries: Seq<Entry>) -> bool {
    forall|i: int| 0 <= i < entries.len() ==> (#[trigger] entries[i]).1 is Some
}

/// Where every entry has a value, leaving out the entries without one
/// leaves out nothing: each entry gives its pair, in order.
pub proof fn lemma_valued_pairs_complete(entries: Seq<Entry>)
    requires
        all_valued(entries),
    ensures
        valued_pairs(entries) == keyed_pairs(entries),
    decreases entries.len(),
{
    if entries.len() > 0 {
        lemma_valued_pairs_complete(entries.drop_last());
    }
}

/// The calls of a version 0 builder emit only entries that have a value, so
/// every parameter gathered goes out in the request.
pub proof fn lemma_v0_calls_all_valued(start: QueryV0, calls: Seq<CallV0>)
    requires
        all_valued(start.entries),
    ensures
        all_valued(start.after_all(calls).entries),
    decreases calls.len(),
{
    if calls.len() > 0 {
        lemma_v0_calls_all_valued(start, calls.drop_last());
    }
}

/// A version 0 serialization always ends with `action=process` and then
/// `json=true`, whatever was gathered before.
pub proof fn lemma_v0_ends_with_process_pairs(query: QueryV0)
    ensures
        query.serialized().len() >= 2,
        query.serialized()[query.serialized().len() - 2] == ("action"@, "process"@),
        query.serialized()[query.serialized().len() - 1] == ("json"@, "true"@),
{
}

/// A version 2 serialization holds one pair for each gathered parameter, in
/// call order, and the sorting order last if one was chosen. Nothing else is
/// added.
pub proof fn lemma_v2_serialized_shape(query: QueryV2)
    ensures
        query.serialized().len() == query.entries.len() + (if query.sort_by is Some {
            1nat
        } else {
            0nat
        }),
        forall|i: int|
            0 <= i < query.entries.len() ==> (#[trigger] query.serialized()[i]).0
                == query.entries[i].0,
        query.sort_by matches Some(s) ==> query.serialized().last() == ("sort_by"@, s.wire()),
{
}

/// One criteria clause, one ingredient and one nutrient clause on a new
/// version 0 builder serialize to nine pairs: the three of the criteria
/// clause number 1, the ingredient, the three of the nutrient clause
/// number 1, and the two closing pairs.
pub proof fn lemma_v0_one_of_each(
    criteria: Seq<char>,
    criteria_op: Seq<char>,
    criteria_value: Seq<char>,
    ingredient: Seq<char>,
    ingredient_choice: Seq<char>,
    nutrient: Seq<char>,
    nutrient_op: Seq<char>,
    nutrient_value: u32,
)
    ensures
        QueryV0::fresh().criteria(criteria, criteria_op, criteria_value).ingredient(
            ingredient,
            ingredient_choice,
        ).nutrient(nutrient, nutrient_op, nutrient_value).serialized() == seq![
            ("tagtype_1"@, criteria),
            ("tag_contains_1"@, criteria_op),
            ("tag_1"@, criteria_value),
            (ingredient, ingredient_value(ingredient, ingredient_choice)),
            ("nutriment_1"@, nutrient),
            ("nutriment_compare_1"@, nutrient_op),
            ("nutriment_value_1"@, decimal(nutrient_value as nat)),
            ("action"@, "process"@),
            ("json"@, "true"@),
        ],
{
    let query = QueryV0::fresh().criteria(criteria, criteria_op, criteria_value).ingredient(
        ingredient,
        ingredient_choice,
    ).nutrient(nutrient, nutrient_op, nutrient_value);
    lemma_valued_pairs_complete(query.entries);
    reveal_strlit("tagtype_");
    reveal_strlit("tagtype_1");
    reveal_strlit("tag_contains_");
    reveal_strlit("tag_contains_1");
    reveal_strlit("tag_");
    reveal_strlit("tag_1");
    reveal_strlit("nutriment_");
    reveal_strlit("nutriment_1");
    reveal_strlit("nutriment_compare_");
    reveal_strlit("nutriment_compare_1");
    reveal_strlit("nutriment_value_");
    reveal_strlit("nutriment_value_1");
    assert("tagtype_"@ + decimal(1) =~= "tagtype_1"@);
    assert("tag_contains_"@ + decimal(1) =~= "tag_contains_1"@);
    assert("tag_"@ + decimal(1) =~= "tag_1"@);
    assert("nutriment_"@ + decimal(1) =~= "nutriment_1"@);
    assert("nutriment_compare_"@ + decimal(1) =~= "nutriment_compare_1"@);
    assert("nutriment_value_"@ + decimal(1) =~= "nutriment_value_1"@);
}

} // verus!
