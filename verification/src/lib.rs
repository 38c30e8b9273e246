//! Request construction for the Open Food Facts API.
//!
//! The crate turns typed calls (locale, facet, barcode, search criteria) into
//! the URL and the ordered query parameters of a GET request. Sending the
//! request is left to the caller.

pub mod builder;
pub mod client;
pub mod criteria;
pub mod locale;
pub mod output;
pub mod params;
pub mod search;
pub mod text;
pub mod types;
pub mod weburl;

pub use builder::{Auth, Off, OffClient};
pub use locale::Locale;
pub use output::Output;
pub use params::{
    CriteriaParam, IngredientParam, NameParam, NutrimentParam, SearchParam, SearchParams,
};
pub use search::{
    QueryParams, QueryStateV0, QueryStateV2, SearchQuery, SearchQueryV0, SearchQueryV2, SortBy,
};
pub use types::{Params, Version, V0, V2};
pub use weburl::{UrlError, WebUrl};
