//! The versioned client: URL resolution and the request of each endpoint.
//!
//! A client holds an API version and a default locale. For each endpoint it
//! builds the request to send: the URL and the query parameters. The country
//! and the language are always selected through the subdomain, never through
//! query parameters, and only JSON endpoints are addressed.

use crate::locale::Locale;
use crate::output::{name_set, Output};
use crate::search::{QueryParams, SearchQuery, SearchQueryV0, SearchQueryV2};
use crate::text::joined;
use crate::types::{Pair, Params, Version, V0, V2};
use crate::weburl::{url_join_on, url_outcome, url_parse, UrlError, WebUrl};
use vstd::prelude::*;

verus! {

// ----------------------------------------------------------------------------
// Addresses and paths
// ----------------------------------------------------------------------------

/// The address of the site of a locale: `https://<locale>.openfoodfacts.org/`.
pub open spec fn host_text(locale: Seq<char>) -> Seq<char> {
    "https://"@ + locale + ".openfoodfacts.org/"@
}

/// The path of the API of a version, relative to the site: `api/<version>/`.
pub open spec fn api_path_text(version: Seq<char>) -> Seq<char> {
    "api/"@ + version + "/"@
}

/// The path of a taxonomy, relative to the site.
pub open spec fn taxonomy_path_text(taxonomy: Seq<char>) -> Seq<char> {
    "data/taxonomies/"@ + taxonomy + ".json"@
}

/// The path of a facet, relative to the site.
pub open spec fn facet_path_text(facet: Seq<char>) -> Seq<char> {
    facet + ".json"@
}

/// The path of the products of a facet or category, relative to the site.
pub open spec fn products_by_path_text(what: Seq<char>, id: Seq<char>) -> Seq<char> {
    what + "/"@ + id + ".json"@
}

/// The path of a product, relative to the API.
pub open spec fn product_path_text(barcode: Seq<char>) -> Seq<char> {
    "product/"@ + barcode
}

/// The address of the site of a locale, given the locale's subdomain text.
pub fn host_address(locale: &str) -> (text: String)
    ensures
        text@ == host_text(locale@),
{
    let mut text = joined("https://", locale);
    text.append(".openfoodfacts.org/");
    text
}

/// The path of the API of a version, relative to the site.
pub fn api_path(version: &str) -> (text: String)
    ensures
        text@ == api_path_text(version@),
{
    let mut text = joined("api/", version);
    text.append("/");
    text
}

/// The path of a taxonomy, relative to the site.
pub fn taxonomy_path(taxonomy: &str) -> (text: String)
    ensures
        text@ == taxonomy_path_text(taxonomy@),
{
    let mut text = joined("data/taxonomies/", taxonomy);
    text.append(".json");
    text
}

/// The path of a facet, relative to the site.
pub fn facet_path(facet: &str) -> (text: String)
    ensures
        text@ == facet_path_text(facet@),
{
    joined(facet, ".json")
}

/// The path of the products of a facet or category, relative to the site.
pub fn products_by_path(what: &str, id: &str) -> (text: String)
    ensures
        text@ == products_by_path_text(what@, id@),
{
    let mut text = joined(what, "/");
    text.append(id);
    text.append(".json");
    text
}

/// The path of a product, relative to the API.
pub fn product_path(barcode: &str) -> (text: String)
    ensures
        text@ == product_path_text(barcode@),
{
    joined("product/", barcode)
}

// ----------------------------------------------------------------------------
// Requests
// ----------------------------------------------------------------------------

/// A GET request, ready to send: the URL and the query parameters to attach
/// to it. `None` stands for a request without a query.
#[derive(Debug, Clone, PartialEq, Eq)]
pub struct Request {
    /// The URL, without the query.
    pub url: WebUrl,
    /// The query parameters, in order.
    pub params: Option<Params>,
}

/// A request as a mathematical value.
pub struct RequestView {
    /// The characters of the URL.
    pub url: Seq<char>,
    /// The query parameters, in order.
    pub params: Option<Seq<Pair>>,
}

impl View for Request {
    type V = RequestView;

    open spec fn view(&self) -> RequestView {
        RequestView {
            url: self.url@,
            params: match self.params {
                Some(p) => Some(p.deep_view()),
                None => None,
            },
        }
    }
}

/// The request that was built, or the error of the URL that could not be.
pub open spec fn request_outcome(r: Result<Request, UrlError>) -> Result<
    RequestView,
    url::ParseError,
> {
    match r {
        Ok(request) => Ok(request@),
        Err(e) => Err(e.cause),
    }
}

/// The request for a URL that may have failed, with the given parameters.
pub open spec fn request_to(
    url: Result<Seq<char>, url::ParseError>,
    params: Option<Seq<Pair>>,
) -> Result<RequestView, url::ParseError> {
    match url {
        Ok(u) => Ok(RequestView { url: u, params }),
        Err(e) => Err(e),
    }
}

/// The locale that the output options ask for, if they ask for one.
pub open spec fn requested_locale(output: Option<Output>) -> Option<Locale> {
    match output {
        Some(o) => o.locale,
        None => None,
    }
}

/// The query parameters that the output options give under a whitelist.
/// Without output options there is no query at all.
pub open spec fn output_params(output: Option<Output>, allowed: Set<Seq<char>>) -> Option<
    Seq<Pair>,
> {
    match output {
        Some(o) => Some(o.filtered(allowed)),
        None => None,
    }
}

/// The query parameters that the output options add to parameters that the
/// request has in any case.
pub open spec fn more_params(output: Option<Output>, allowed: Set<Seq<char>>) -> Seq<Pair> {
    match output {
        Some(o) => o.filtered(allowed),
        None => Seq::empty(),
    }
}

/// The options that a facet request supports.
pub open spec fn facet_options() -> Set<Seq<char>> {
    set!["page"@, "page_size"@, "fields"@, "nocache"@]
}

/// The options that a request for the products of a facet or category
/// supports, and a search with them.
pub open spec fn listing_options() -> Set<Seq<char>> {
    set!["page"@, "page_size"@, "fields"@]
}

/// The options that a request for products by barcode supports.
pub open spec fn product_options() -> Set<Seq<char>> {
    set!["fields"@]
}

// The locale that the output options ask for, if they ask for one.
fn locale_of(output: &Option<Output>) -> (locale: Option<&Locale>)
    ensures
        match locale {
            Some(l) => requested_locale(*output) == Some(*l),
            None => requested_locale(*output) is None,
        },
{
    match output {
        Some(o) => match &o.locale {
            Some(l) => Some(l),
            None => None,
        },
        None => None,
    }
}

/// The query parameters of a facet request: of the output options, the
/// pagination, the fields and the cache setting.
pub fn facet_params(output: &Option<Output>) -> (params: Option<Params>)
    ensures
        (match params {
            Some(p) => Some(p.deep_view()),
            None => None,
        }) == output_params(*output, facet_options()),
{
    match output {
        Some(o) => {
            let names = ["page", "page_size", "fields", "nocache"];
            Some(o.params(names.as_slice()))
        },
        None => None,
    }
}

/// The query parameters that a listing or a search takes from the output
/// options: the pagination and the fields.
pub fn listing_params(output: &Option<Output>) -> (params: Option<Params>)
    ensures
        (match params {
            Some(p) => Some(p.deep_view()),
            None => None,
        }) == output_params(*output, listing_options()),
{
    match output {
        Some(o) => {
            let names = ["page", "page_size", "fields"];
            Some(o.params(names.as_slice()))
        },
        None => None,
    }
}

/// The query parameters that a request for products by barcode takes from
/// the output options: the fields.
pub fn product_params(output: &Option<Output>) -> (params: Option<Params>)
    ensures
        (match params {
            Some(p) => Some(p.deep_view()),
            None => None,
        }) == output_params(*output, product_options()),
{
    match output {
        Some(o) => {
            let names = ["fields"];
            Some(o.params(names.as_slice()))
        },
        None => None,
    }
}

// The request for a resolved URL.
fn request_for(url: Result<WebUrl, UrlError>, params: Option<Params>) -> (r: Result<
    Request,
    UrlError,
>)
    ensures
        request_outcome(r) == request_to(
            url_outcome(url),
            match params {
                Some(p) => Some(p.deep_view()),
                None => None,
            },
        ),
{
    match url {
        Ok(url) => Ok(Request { url, params }),
        Err(e) => Err(e),
    }
}

// Resolves a path against a base that may have failed.
fn join_on(base: Result<WebUrl, UrlError>, path: &str) -> (r: Result<WebUrl, UrlError>)
    ensures
        url_outcome(r) == url_join_on(url_outcome(base), path@),
{
    match base {
        Ok(b) => b.join(path),
        Err(e) => Err(e),
    }
}

impl<S> SearchQuery<S> {
    /// Builds the request of a search: the serialized query, followed by
    /// the page, page size and fields of the output options, to be sent to
    /// the search URL that the client resolved.
    pub fn search<Q: QueryParams>(query: Q, url: WebUrl, output: Option<Output>) -> (request:
        Request)
        ensures
            request@ == (RequestView {
                url: url@,
                params: Some(query.serialized() + more_params(output, listing_options())),
            }),
    {
        let mut params = query.params();
        let ghost serialized = params;
        match listing_params(&output) {
            Some(more) => {
                let mut more = more;
                let ghost added = more;
                params.append(&mut more);
                assert(params.deep_view() =~= serialized.deep_view() + added.deep_view());
            },
            None => {
            },
        }
        Request { url, params: Some(params) }
    }
}

// ----------------------------------------------------------------------------
// The client
// ----------------------------------------------------------------------------

/// The client of one API version.
///
/// The client describes requests and sends nothing. One client serves any
/// number of requests.
#[derive(Debug)]
pub struct OffClient<V> {
    // The version marker.
    v: V,
    // The default locale to use when no locale is given in a method call.
    locale: Locale,
}

impl<V> Version for OffClient<V> where V: Version {
    open spec fn wire(&self) -> Seq<char> {
        self.marker().wire()
    }

    fn version(&self) -> (s: &str) {
        self.v.version()
    }
}

impl<V> OffClient<V> {
    /// The version marker.
    pub closed spec fn marker(&self) -> V {
        self.v
    }

    /// The locale used where a call names none.
    pub closed spec fn default_locale(&self) -> Locale {
        self.locale
    }

    /// The subdomain text of a call: that of the given locale, or of the
    /// default locale where none is given.
    pub open spec fn subdomain(&self, locale: Option<Locale>) -> Seq<char> {
        match locale {
            Some(l) => l.rendered(),
            None => self.default_locale().rendered(),
        }
    }

    /// The base URL of the site of a locale.
    pub open spec fn base_url_of(&self, locale: Option<Locale>) -> Result<
        Seq<char>,
        url::ParseError,
    > {
        url_parse(host_text(self.subdomain(locale)))
    }

    /// The URL of the CGI scripts of the site of a locale.
    pub open spec fn cgi_url_of(&self, locale: Option<Locale>) -> Result<
        Seq<char>,
        url::ParseError,
    > {
        url_join_on(self.base_url_of(locale), "cgi/"@)
    }
}

/// The base URL of the world-wide site.
pub open spec fn world_url() -> Result<Seq<char>, url::ParseError> {
    url_parse(host_text("world"@))
}

// The given locale, as a value.
spec fn given(locale: Option<&Locale>) -> Option<Locale> {
    match locale {
        Some(l) => Some(*l),
        None => None,
    }
}

impl<V> OffClient<V> where V: Version + Copy {
    /// The URL of the API of this client's version on the site of a locale.
    pub open spec fn api_url_of(&self, locale: Option<Locale>) -> Result<
        Seq<char>,
        url::ParseError,
    > {
        url_join_on(self.base_url_of(locale), api_path_text(self.wire()))
    }

    /// A client of the given version and default locale.
    pub fn new(v: V, locale: Locale) -> (client: Self)
        ensures
            client.marker() == v,
            client.default_locale() == locale,
    {
        Self { v, locale }
    }

    /// The base URL with the given locale, or with the default locale if
    /// none is given.
    pub fn base_url(&self, locale: Option<&Locale>) -> (r: Result<WebUrl, UrlError>)
        ensures
            url_outcome(r) == self.base_url_of(
                match locale {
                    Some(l) => Some(*l),
                    None => None,
                },
            ),
    {
        self.host_with_locale(locale)
    }

    /// The base URL with the `world` locale, whatever the default locale of
    /// this client is.
    pub fn base_url_world(&self) -> (r: Result<WebUrl, UrlError>)
        ensures
            url_outcome(r) == world_url(),
    {
        let world = Locale::default();
        proof {
            crate::locale::lemma_world_rendered(world);
        }
        self.host_with_locale(Some(&world))
    }

    /// The CGI URL with the given locale, or with the default locale if
    /// none is given.
    pub fn cgi_url(&self, locale: Option<&Locale>) -> (r: Result<WebUrl, UrlError>)
        ensures
            url_outcome(r) == self.cgi_url_of(
                match locale {
                    Some(l) => Some(*l),
                    None => None,
                },
            ),
    {
        join_on(self.base_url(locale), "cgi/")
    }

    /// The versioned API URL with the given locale, or with the default
    /// locale if none is given.
    pub fn api_url(&self, locale: Option<&Locale>) -> (r: Result<WebUrl, UrlError>)
        ensures
            url_outcome(r) == self.api_url_of(
                match locale {
                    Some(l) => Some(*l),
                    None => None,
                },
            ),
    {
        let path = api_path(self.version());
        join_on(self.base_url(locale), path.as_str())
    }

    // The site of the given locale, or of the default locale if none is
    // given.
    fn host_with_locale(&self, locale: Option<&Locale>) -> (r: Result<WebUrl, UrlError>)
        ensures
            url_outcome(r) == self.base_url_of(given(locale)),
    {
        let name = match locale {
            Some(l) => l.render(),
            None => self.locale.render(),
        };
        let text = host_address(name.as_str());
        WebUrl::parse(text.as_str())
    }

    // ------------------------------------------------------------------------
    // Metadata
    // ------------------------------------------------------------------------
    /// The request for a taxonomy. Taxonomies are static JSON files.
    ///
    /// `GET https://world.openfoodfacts.org/data/taxonomies/{taxonomy}.json`
    ///
    /// Taxonomies exist under the `world` locale only, so the default locale
    /// is not used.
    ///
    /// * `taxonomy` - the taxonomy name, such as `additives`, `allergens`,
    ///   `brands`, `countries`, `ingredients`, `languages`, `nova_groups`,
    ///   `nutrient_levels` or `states`.
    pub fn taxonomy(&self, taxonomy: &str) -> (r: Result<Request, UrlError>)
        ensures
            request_outcome(r) == request_to(
                url_join_on(world_url(), taxonomy_path_text(taxonomy@)),
                None,
            ),
    {
        let base_url = self.base_url_world();  // force world locale.
        let path = taxonomy_path(taxonomy);
        request_for(join_on(base_url, path.as_str()), None)
    }

    /// The request for a facet.
    ///
    /// `GET https://{locale}.openfoodfacts.org/{facet}.json`
    ///
    /// * `facet` - the facet type name, such as `additives`, `brands`,
    ///   `entry-dates`, `labels` or `stores`, in English or localized.
    /// * `output` - optional output options. The locale, the pagination,
    ///   the fields and the cache setting are used.
    pub fn facet(&self, facet: &str, output: Option<Output>) -> (r: Result<Request, UrlError>)
        ensures
            request_outcome(r) == request_to(
                url_join_on(self.base_url_of(requested_locale(output)), facet_path_text(facet@)),
                output_params(output, facet_options()),
            ),
    {
        let base_url = self.base_url(locale_of(&output));
        let path = facet_path(facet);
        let url = join_on(base_url, path.as_str());
        request_for(url, facet_params(&output))
    }

    /// The request for all the categories.
    ///
    /// `GET https://{locale}.openfoodfacts.org/categories.json`
    ///
    /// * `output` - optional output options. Only the locale is used.
    pub fn categories(&self, output: Option<Output>) -> (r: Result<Request, UrlError>)
        ensures
            request_outcome(r) == request_to(
                url_join_on(self.base_url_of(requested_locale(output)), "categories.json"@),
                None,
            ),
    {
        let base_url = self.base_url(locale_of(&output));
        request_for(join_on(base_url, "categories.json"), None)
    }

    /// The request for the nutrients by country.
    ///
    /// `GET https://{locale}.openfoodfacts.org/cgi/nutrients.pl`
    ///
    /// * `output` - optional output options. Only the locale is used.
    pub fn nutrients(&self, output: Option<Output>) -> (r: Result<Request, UrlError>)
        ensures
            request_outcome(r) == request_to(
                url_join_on(self.cgi_url_of(requested_locale(output)), "nutrients.pl"@),
                None,
            ),
    {
        let cgi_url = self.cgi_url(locale_of(&output));
        request_for(join_on(cgi_url, "nutrients.pl"), None)
    }

    /// The request for all products of a facet or category.
    ///
    /// `GET https://{locale}.openfoodfacts.org/{what}/{id}.json`
    ///
    /// * `what` - a facet name in the singular (`brand`, `entry-date`) or
    ///   `category`, in English or localized.
    /// * `id` - the localized id of the facet or category, as the facet or
    ///   categories endpoint returns it.
    /// * `output` - optional output options. The locale, the pagination and
    ///   the fields are used.
    pub fn products_by(&self, what: &str, id: &str, output: Option<Output>) -> (r: Result<
        Request,
        UrlError,
    >)
        ensures
            request_outcome(r) == request_to(
                url_join_on(
                    self.base_url_of(requested_locale(output)),
                    products_by_path_text(what@, id@),
                ),
                output_params(output, listing_options()),
            ),
    {
        let base_url = self.base_url(locale_of(&output));
        let path = products_by_path(what, id);
        let url = join_on(base_url, path.as_str());
        request_for(url, listing_params(&output))
    }

    // ------------------------------------------------------------------------
    // Read
    // ------------------------------------------------------------------------
    /// The request for the nutrition facts of a product.
    ///
    /// `GET https://{locale}.openfoodfacts.org/api/{version}/product/{barcode}`
    ///
    /// * `barcode` - the product barcode.
    /// * `output` - optional output options. The locale and the fields are
    ///   used.
    pub fn product(&self, barcode: &str, output: Option<Output>) -> (r: Result<Request, UrlError>)
        ensures
            request_outcome(r) == request_to(
                url_join_on(
                    self.api_url_of(requested_locale(output)),
                    product_path_text(barcode@),
                ),
                output_params(output, product_options()),
            ),
    {
        let api_url = self.api_url(locale_of(&output));
        let path = product_path(barcode);
        let url = join_on(api_url, path.as_str());
        request_for(url, product_params(&output))
    }
}

impl OffClient<V0> {
    /// The search URL of API version 0 on the site of a locale:
    /// `https://{locale}.openfoodfacts.org/cgi/search.pl`.
    pub open spec fn search_url_of(&self, locale: Option<Locale>) -> Result<
        Seq<char>,
        url::ParseError,
    > {
        url_join_on(self.cgi_url_of(locale), "search.pl"@)
    }

    /// The query builder for API version 0.
    pub fn query(&self) -> (query: SearchQueryV0)
        ensures
            query@ == crate::search::QueryV0::fresh(),
    {
        SearchQueryV0::new()
    }

    /// The search URL of API version 0:
    /// `https://{locale}.openfoodfacts.org/cgi/search.pl`.
    pub fn search_url(&self, locale: Option<&Locale>) -> (r: Result<WebUrl, UrlError>)
        ensures
            url_outcome(r) == self.search_url_of(
                match locale {
                    Some(l) => Some(*l),
                    None => None,
                },
            ),
    {
        join_on(self.cgi_url(locale), "search.pl")
    }

    /// The request of a search: the serialized query and, of the output
    /// options, the pagination and the fields.
    pub fn search(&self, query: SearchQueryV0, output: Option<Output>) -> (r: Result<
        Request,
        UrlError,
    >)
        ensures
            request_outcome(r) == request_to(
                self.search_url_of(requested_locale(output)),
                Some(query@.serialized() + more_params(output, listing_options())),
            ),
    {
        match self.search_url(locale_of(&output)) {
            Ok(url) => Ok(SearchQueryV0::search(query, url, output)),
            Err(e) => Err(e),
        }
    }
}

impl OffClient<V2> {
    /// The search URL of API version 2 on the site of a locale:
    /// `https://{locale}.openfoodfacts.org/api/v2/search`.
    pub open spec fn search_url_of(&self, locale: Option<Locale>) -> Result<
        Seq<char>,
        url::ParseError,
    > {
        url_join_on(self.api_url_of(locale), "search"@)
    }

    /// The query builder for API version 2.
    pub fn query(&self) -> (query: SearchQueryV2)
        ensures
            query@ == crate::search::QueryV2::fresh(),
    {
        SearchQueryV2::new()
    }

    /// The search URL of API version 2:
    /// `https://{locale}.openfoodfacts.org/api/v2/search`.
    pub fn search_url(&self, locale: Option<&Locale>) -> (r: Result<WebUrl, UrlError>)
        ensures
            url_outcome(r) == self.search_url_of(
                match locale {
                    Some(l) => Some(*l),
                    None => None,
                },
            ),
    {
        join_on(self.api_url(locale), "search")
    }

    /// The request of a search: the serialized query and, of the output
    /// options, the pagination and the fields.
    pub fn search(&self, query: SearchQueryV2, output: Option<Output>) -> (r: Result<
        Request,
        UrlError,
    >)
        ensures
            request_outcome(r) == request_to(
                self.search_url_of(requested_locale(output)),
                Some(query@.serialized() + more_params(output, listing_options())),
            ),
    {
        match self.search_url(locale_of(&output)) {
            Ok(url) => Ok(SearchQueryV2::search(query, url, output)),
            Err(e) => Err(e),
        }
    }

    /// The request for the products whose barcodes are given in `barcodes`,
    /// a string of barcodes separated by commas.
    ///
    /// `GET https://{locale}.openfoodfacts.org/api/v2/search?code=<code>,<code>,..`
    ///
    /// * `output` - optional output options. The locale and the fields are
    ///   used.
    pub fn products(&self, barcodes: &str, output: Option<Output>) -> (r: Result<
        Request,
        UrlError,
    >)
        ensures
            request_outcome(r) == request_to(
                self.search_url_of(requested_locale(output)),
                Some(seq![("code"@, barcodes@)] + more_params(output, product_options())),
            ),
    {
        match self.search_url(locale_of(&output)) {
            Ok(url) => {
                let mut params: Params = Vec::new();
                params.push((String::from_str("code"), String::from_str(barcodes)));
                let ghost code = params;
                assert(code.deep_view() =~= seq![("code"@, barcodes@)]);
                match product_params(&output) {
                    Some(more) => {
                        let mut more = more;
                        let ghost added = more;
                        params.append(&mut more);
                        assert(params.deep_view() =~= code.deep_view() + added.deep_view());
                    },
                    None => {
                    },
                }
                Ok(Request { url, params: Some(params) })
            },
            Err(e) => Err(e),
        }
    }
}

// ----------------------------------------------------------------------------
// Properties of URL resolution
// ----------------------------------------------------------------------------

/// The address handed to the URL parser for a locale is exactly `https://`,
/// the locale's subdomain text, `.openfoodfacts.org/`: the length is the sum
/// of the three and the subdomain text stands between the other two
/// unchanged.
pub proof fn lemma_host_text_shape(locale: Seq<char>)
    ensures
        host_text(locale).len() == 8 + locale.len() + 19,
        host_text(locale).subrange(0, 8) == "https://"@,
        host_text(locale).subrange(8, 8 + locale.len() as int) == locale,
        host_text(locale).subrange(8 + locale.len() as int, host_text(locale).len() as int)
            == ".openfoodfacts.org/"@,
{
    reveal_strlit("https://");
    reveal_strlit(".openfoodfacts.org/");
}

/// The world-wide base URL does not depend on the client: two clients, of
/// whatever version and default locale, resolve it from the same address,
/// `https://world.openfoodfacts.org/`.
pub proof fn lemma_world_url_fixed()
    ensures
        world_url() == url_parse("https://world.openfoodfacts.org/"@),
{
    reveal_strlit("https://");
    reveal_strlit("world");
    reveal_strlit(".openfoodfacts.org/");
    reveal_strlit("https://world.openfoodfacts.org/");
    assert(host_text("world"@) =~= "https://world.openfoodfacts.org/"@);
}

/// Resolution has no hidden state: two results that meet the contract of
/// one resolver call on the same inputs carry the same URL, character for
/// character, or the same error.
pub proof fn lemma_resolution_repeats(
    first: Result<WebUrl, UrlError>,
    second: Result<WebUrl, UrlError>,
    resolved: Result<Seq<char>, url::ParseError>,
)
    requires
        url_outcome(first) == resolved,
        url_outcome(second) == resolved,
    ensures
        first is Ok <==> second is Ok,
        first is Ok ==> first->Ok_0@ == second->Ok_0@,
        first is Err ==> first->Err_0.cause == second->Err_0.cause,
{
}

/// Building a request has no hidden state either: two results that meet the
/// contract of one endpoint call on the same inputs carry the same URL and
/// the same query parameters, or the same error.
pub proof fn lemma_request_repeats(
    first: Result<Request, UrlError>,
    second: Result<Request, UrlError>,
    built: Result<RequestView, url::ParseError>,
)
    requires
        request_outcome(first) == built,
        request_outcome(second) == built,
    ensures
        first is Ok <==> second is Ok,
        first is Ok ==> first->Ok_0@ == second->Ok_0@,
        first is Err ==> first->Err_0.cause == second->Err_0.cause,
{
}

/// A listing or a search never carries the cache setting: among the pairs
/// that it takes from the output options none is named `nocache`, whether
/// the option is set or not.
pub proof fn lemma_listing_excludes_nocache(output: Option<Output>, i: int)
    requires
        0 <= i < more_params(output, listing_options()).len(),
    ensures
        more_params(output, listing_options())[i].0 != "nocache"@,
{
    reveal_strlit("page");
    reveal_strlit("page_size");
    reveal_strlit("fields");
    reveal_strlit("nocache");
    assert("nocache"@.len() == 7);
    assert(!listing_options().contains("nocache"@));
    crate::output::lemma_filtered_omits(output->0, listing_options(), "nocache"@, i);
}

} // verus!
