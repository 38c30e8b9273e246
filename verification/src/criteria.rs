//! Search criteria names.

use vstd::prelude::*;

verus! {

/// The name of a search criteria.
#[derive(Debug, Clone, Copy)]
pub struct Criteria(pub &'static str);

/// The criteria `brands`.
pub fn brands() -> (criteria: Criteria)
    ensures
        criteria.0@ == "brands"@,
{
    Criteria("brands")
}

/// The criteria `categories`.
pub fn categories() -> (criteria: Criteria)
    ensures
        criteria.0@ == "categories"@,
{
    Criteria("categories")
}

/// The criteria `packaging`.
pub fn packaging() -> (criteria: Criteria)
    ensures
        criteria.0@ == "packaging"@,
{
    Criteria("packaging")
}

/// The criteria `labels`.
pub fn labels() -> (criteria: Criteria)
    ensures
        criteria.0@ == "labels"@,
{
    Criteria("labels")
}

/// The criteria `origins`.
pub fn origins() -> (criteria: Criteria)
    ensures
        criteria.0@ == "origins"@,
{
    Criteria("origins")
}

/// The criteria `manufacturing_places`.
pub fn manufacturing_places() -> (criteria: Criteria)
    ensures
        criteria.0@ == "manufacturing_places"@,
{
    Criteria("manufacturing_places")
}

/// The criteria `emb_codes`.
pub fn emb_codes() -> (criteria: Criteria)
    ensures
        criteria.0@ == "emb_codes"@,
{
    Criteria("emb_codes")
}

/// The criteria `purchase_places`.
pub fn purchase_places() -> (criteria: Criteria)
    ensures
        criteria.0@ == "purchase_places"@,
{
    Criteria("purchase_places")
}

/// The criteria `stores`.
pub fn stores() -> (criteria: Criteria)
    ensures
        criteria.0@ == "stores"@,
{
    Criteria("stores")
}

/// The criteria `countries`.
pub fn countries() -> (criteria: Criteria)
    ensures
        criteria.0@ == "countries"@,
{
    Criteria("countries")
}

/// The criteria `additives`.
pub fn additives() -> (criteria: Criteria)
    ensures
        criteria.0@ == "additives"@,
{
    Criteria("additives")
}

/// The criteria `allergens`.
pub fn allergens() -> (criteria: Criteria)
    ensures
        criteria.0@ == "allergens"@,
{
    Criteria("allergens")
}

/// The criteria `traces`.
pub fn traces() -> (criteria: Criteria)
    ensures
        criteria.0@ == "traces"@,
{
    Criteria("traces")
}

/// The criteria `nutrition_grades`.
pub fn nutrition_grades() -> (criteria: Criteria)
    ensures
        criteria.0@ == "nutrition_grades"@,
{
    Criteria("nutrition_grades")
}

/// The criteria `states`.
pub fn states() -> (criteria: Criteria)
    ensures
        criteria.0@ == "states"@,
{
    Criteria("states")
}

} // verus!
