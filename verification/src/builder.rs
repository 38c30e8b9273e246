//! The client builder and the plain client that it makes.
//!
//! The plain client addresses API version 0 with a locale given as a string,
//! and gives the URL of each endpoint.

use crate::client::{
    api_path, api_path_text, facet_path, facet_path_text, host_address, host_text, product_path,
    product_path_text, products_by_path, products_by_path_text, taxonomy_path, taxonomy_path_text,
};
use crate::text::joined;
use crate::types::{Pair, Params};
use crate::weburl::{url_join_on, url_outcome, url_parse, UrlError, WebUrl};
use vstd::prelude::*;

verus! {

/// Credentials: the user name and the password.
#[derive(Debug, PartialEq)]
pub struct Auth(pub String, pub String);

/// The client builder.
///
/// # Examples
///
/// ```text
/// let off = Off::new(os).locale("fr").build();
/// ```
#[derive(Debug)]
pub struct Off {
    /// The default locale. Should be a country code or "world".
    pub locale: String,
    /// The authentication credentials. Optional. Only needed for write operations.
    pub auth: Option<Auth>,
    /// The User-Agent header value to send on each request. Optional.
    pub user_agent: Option<String>,
}

/// The user agent of a client that runs on the operating system `os`:
/// `OffRustClient - {os} - Version alpha - {repository URL}`.
pub open spec fn default_user_agent(os: Seq<char>) -> Seq<char> {
    "OffRustClient - "@ + os + " - Version "@ + "alpha"@ + " - "@
        + "https://github.com/openfoodfacts/openfoodfacts-rust"@
}

/// The value of the `authorization` header for the given credentials.
pub open spec fn basic_auth(username: Seq<char>, password: Seq<char>) -> Seq<char> {
    "Basic "@ + username + ":"@ + password
}

/// The headers that a client sends with each request: the user agent if
/// there is one, then the credentials if there are any.
pub open spec fn default_headers(
    user_agent: Option<Seq<char>>,
    auth: Option<(Seq<char>, Seq<char>)>,
) -> Seq<Pair> {
    (match user_agent {
        Some(value) => seq![("user-agent"@, value)],
        None => Seq::empty(),
    }) + (match auth {
        Some(credentials) => seq![("authorization"@, basic_auth(credentials.0, credentials.1))],
        None => Seq::empty(),
    })
}

impl Off {
    /// The characters of the user agent, if there is one.
    pub open spec fn user_agent_text(&self) -> Option<Seq<char>> {
        match self.user_agent {
            Some(value) => Some(value@),
            None => None,
        }
    }

    /// The characters of the credentials, if there are any.
    pub open spec fn auth_text(&self) -> Option<(Seq<char>, Seq<char>)> {
        match self.auth {
            Some(auth) => Some((auth.0@, auth.1@)),
            None => None,
        }
    }

    /// Create a new builder with defaults:
    ///
    /// * The default locale is set to "world".
    /// * No authentication credentials
    /// * The user agent is set to
    ///   `OffRustClient - {OS name} - Version {version} - {github repo URL}`
    ///
    /// `os` is the name of the operating system that the client runs on.
    pub fn new(os: &str) -> (builder: Off)
        ensures
            builder.locale@ == "world"@,
            builder.auth is None,
            builder.user_agent_text() == Some(default_user_agent(os@)),
    {
        let mut user_agent = joined("OffRustClient - ", os);
        user_agent.append(" - Version ");
        user_agent.append("alpha");
        user_agent.append(" - ");
        user_agent.append("https://github.com/openfoodfacts/openfoodfacts-rust");
        Off { locale: String::from_str("world"), auth: None, user_agent: Some(user_agent) }
    }

    /// Set the default locale.
    pub fn locale(self, value: &str) -> (builder: Off)
        ensures
            builder.locale@ == value@,
            builder.auth == self.auth,
            builder.user_agent == self.user_agent,
    {
        let mut builder = self;
        builder.locale = String::from_str(value);
        builder
    }

    /// Set the authentication credentials.
    pub fn auth(self, username: &str, password: &str) -> (builder: Off)
        ensures
            builder.locale == self.locale,
            builder.auth_text() == Some((username@, password@)),
            builder.user_agent == self.user_agent,
    {
        let mut builder = self;
        builder.auth = Some(Auth(String::from_str(username), String::from_str(password)));
        builder
    }

    /// Set the user agent.
    pub fn user_agent(self, value: &str) -> (builder: Off)
        ensures
            builder.locale == self.locale,
            builder.auth == self.auth,
            builder.user_agent_text() == Some(value@),
    {
        let mut builder = self;
        builder.user_agent = Some(String::from_str(value));
        builder
    }

    /// The headers that the client will send with each request.
    pub fn headers(&self) -> (headers: Params)
        ensures
            headers.deep_view() == default_headers(self.user_agent_text(), self.auth_text()),
    {
        let mut headers: Params = Vec::new();
        match &self.user_agent {
            Some(user_agent) => {
                headers.push((String::from_str("user-agent"), user_agent.clone()));
            },
            None => {},
        }
        match &self.auth {
            Some(auth) => {
                let mut basic_auth = joined("Basic ", auth.0.as_str());
                basic_auth.append(":");
                basic_auth.append(auth.1.as_str());
                headers.push((String::from_str("authorization"), basic_auth));
            },
            None => {},
        }
        headers
    }

    /// Create a new client with the current builder options.
    /// After build() is called, the builder object is invalid.
    pub fn build(self) -> (client: OffClient)
        ensures
            client.locale@ == self.locale@,
            client.headers.deep_view() == default_headers(
                self.user_agent_text(),
                self.auth_text(),
            ),
    {
        let headers = self.headers();
        OffClient { locale: self.locale, headers }
    }
}

/// The plain client, made by the [`Off`] builder.
///
/// Each method gives the URL of the GET request of one endpoint.
#[derive(Debug)]
pub struct OffClient {
    /// The default locale to use when no locale is given in a method call.
    /// Always the lowercase alpha-2 ISO3166 code.
    pub locale: String,
    /// The headers to send with each request.
    pub headers: Params,
}

// The characters of a locale given as a string.
spec fn given_text(locale: Option<&str>) -> Option<Seq<char>> {
    match locale {
        Some(l) => Some(l@),
        None => None,
    }
}

impl OffClient {
    /// The subdomain text of a call: the given locale, or the default
    /// locale where none is given.
    pub open spec fn subdomain(&self, locale: Option<Seq<char>>) -> Seq<char> {
        match locale {
            Some(l) => l,
            None => self.locale@,
        }
    }

    /// The base URL of the site of a locale.
    pub open spec fn base_url_of(&self, locale: Option<Seq<char>>) -> Result<
        Seq<char>,
        url::ParseError,
    > {
        url_parse(host_text(self.subdomain(locale)))
    }

    /// The URL of a path on the site of a locale.
    pub open spec fn site_url_of(&self, locale: Option<Seq<char>>, path: Seq<char>) -> Result<
        Seq<char>,
        url::ParseError,
    > {
        url_join_on(self.base_url_of(locale), path)
    }

    /// The URL of the given taxonomy.
    ///
    /// `GET https://world.openfoodfacts.org/data/taxonomies/{taxonomy}.json`
    ///
    /// Taxonomies support only the locale "world". The default client locale
    /// is ignored.
    ///
    /// * `taxonomy` - A string with the taxonomy name.
    pub fn taxonomy(&self, taxonomy: &str) -> (r: Result<WebUrl, UrlError>)
        ensures
            url_outcome(r) == self.site_url_of(Some("world"@), taxonomy_path_text(taxonomy@)),
    {
        let path = taxonomy_path(taxonomy);
        self.site_url(Some("world"), path.as_str())
    }

    /// The URL of the given facet.
    ///
    /// `GET https://{locale}.openfoodfacts.org/{facet}.json`
    ///
    /// * `facet` - A string with the facet name.
    /// * `locale`- Optional locale. Should contain only a country code.
    ///             If missing, uses the default client locale.
    pub fn facet(&self, facet: &str, locale: Option<&str>) -> (r: Result<WebUrl, UrlError>)
        ensures
            url_outcome(r) == self.site_url_of(
                match locale {
                    Some(l) => Some(l@),
                    None => None,
                },
                facet_path_text(facet@),
            ),
    {
        let path = facet_path(facet);
        self.site_url(locale, path.as_str())
    }

    /// The URL of all the categories.
    ///
    /// `GET https://world.openfoodfacts.org/categories.json`
    ///
    /// Categories support only the locale "world". The default client locale
    /// is ignored.
    pub fn categories(&self) -> (r: Result<WebUrl, UrlError>)
        ensures
            url_outcome(r) == self.site_url_of(Some("world"@), "categories.json"@),
    {
        self.site_url(Some("world"), "categories.json")
    }

    /// The URL of all products belonging to the given category.
    ///
    /// `GET https://{locale}.openfoodfacts.org/category/{category}.json`
    ///
    /// * `category`- The category name.
    /// * `locale`- Optional locale. May contain a country code or a pair
    ///             <country code>-<language code>. If missing, uses the default
    ///             client locale.
    pub fn products_by_category(&self, category: &str, locale: Option<&str>) -> (r: Result<
        WebUrl,
        UrlError,
    >)
        ensures
            url_outcome(r) == self.site_url_of(
                match locale {
                    Some(l) => Some(l@),
                    None => None,
                },
                products_by_path_text("category"@, category@),
            ),
    {
        let path = products_by_path("category", category);
        self.site_url(locale, path.as_str())
    }

    /// The URL of all products containing the given additive.
    ///
    /// `GET https://{locale}.openfoodfacts.org/additive/{additive}.json`
    ///
    /// * `additive`- The additive name.
    /// * `locale`- Optional locale. May contain a country code or a pair
    ///             <country code>-<language code>. If missing, uses the default
    ///             client locale.
    pub fn products_with_additive(&self, additive: &str, locale: Option<&str>) -> (r: Result<
        WebUrl,
        UrlError,
    >)
        ensures
            url_outcome(r) == self.site_url_of(
                match locale {
                    Some(l) => Some(l@),
                    None => None,
                },
                products_by_path_text("additive"@, additive@),
            ),
    {
        let path = products_by_path("additive", additive);
        self.site_url(locale, path.as_str())
    }

    /// The URL of all products in the given state.
    ///
    /// `GET https://{locale}.openfoodfacts.org/state/{state}.json`
    ///
    /// * `state`- The state name.
    /// * `locale`- Optional locale. May contain a country code or a pair
    ///             <country code>-<language code>. If missing, uses the default
    ///             client locale.
    pub fn products_in_state(&self, state: &str, locale: Option<&str>) -> (r: Result<
        WebUrl,
        UrlError,
    >)
        ensures
            url_outcome(r) == self.site_url_of(
                match locale {
                    Some(l) => Some(l@),
                    None => None,
                },
                products_by_path_text("state"@, state@),
            ),
    {
        let path = products_by_path("state", state);
        self.site_url(locale, path.as_str())
    }

    /// The URL of a product by barcode.
    ///
    /// `GET https://{locale}.openfoodfacts.org/api/v0/product/{barcode}`
    ///
    /// * `barcode` - A string with the product barcode.
    /// * `locale`- Optional locale. Should contain only a country code.
    ///             If missing, uses the default client locale.
    pub fn product_by_barcode(&self, barcode: &str, locale: Option<&str>) -> (r: Result<
        WebUrl,
        UrlError,
    >)
        ensures
            url_outcome(r) == url_join_on(
                self.site_url_of(
                    match locale {
                        Some(l) => Some(l@),
                        None => None,
                    },
                    api_path_text("v0"@),
                ),
                product_path_text(barcode@),
            ),
    {
        let path = product_path(barcode);
        match self.api_url(locale) {
            Ok(api_url) => api_url.join(path.as_str()),
            Err(e) => Err(e),
        }
    }

    /// The base URL with the given locale, or with the default locale if
    /// none is given.
    pub fn base_url(&self, locale: Option<&str>) -> (r: Result<WebUrl, UrlError>)
        ensures
            url_outcome(r) == self.base_url_of(
                match locale {
                    Some(l) => Some(l@),
                    None => None,
                },
            ),
    {
        let url = match locale {
            Some(l) => host_address(l),
            None => host_address(self.locale.as_str()),
        };
        WebUrl::parse(url.as_str())
    }

    /// The URL of API version 0 with the given locale, or with the default
    /// locale if none is given.
    pub fn api_url(&self, locale: Option<&str>) -> (r: Result<WebUrl, UrlError>)
        ensures
            url_outcome(r) == self.site_url_of(
                match locale {
                    Some(l) => Some(l@),
                    None => None,
                },
                api_path_text("v0"@),
            ),
    {
        let path = api_path("v0");
        self.site_url(locale, path.as_str())
    }

    /// The search URL with the given locale, or with the default locale if
    /// none is given.
    pub fn search_url(&self, locale: Option<&str>) -> (r: Result<WebUrl, UrlError>)
        ensures
            url_outcome(r) == self.site_url_of(
                match locale {
                    Some(l) => Some(l@),
                    None => None,
                },
                "cgi/search.pl"@,
            ),
    {
        self.site_url(locale, "cgi/search.pl")
    }

    // The URL of a path on the site of the given locale.
    fn site_url(&self, locale: Option<&str>, path: &str) -> (r: Result<WebUrl, UrlError>)
        ensures
            url_outcome(r) == self.site_url_of(given_text(locale), path@),
    {
        match self.base_url(locale) {
            Ok(base) => base.join(path),
            Err(e) => Err(e),
        }
    }
}

} // verus!
