use openfoodfacts::client::{
    api_path, facet_path, host_address, product_path, products_by_path, taxonomy_path,
};
use openfoodfacts::WebUrl;

#[test]
fn parse_gives_the_serialization() {
    let url = WebUrl::parse("https://example.net").unwrap();
    assert_eq!(url.as_str(), "https://example.net/");
    let url = WebUrl::parse("HTTPS://World.OpenFoodFacts.ORG").unwrap();
    assert_eq!(url.as_str(), "https://world.openfoodfacts.org/");
    assert_eq!(url.into_string(), "https://world.openfoodfacts.org/");
}

#[test]
fn parse_errors() {
    assert_eq!(
        WebUrl::parse("world.openfoodfacts.org").unwrap_err().cause,
        url::ParseError::RelativeUrlWithoutBase
    );
    assert_eq!(
        WebUrl::parse("https://").unwrap_err().cause,
        url::ParseError::EmptyHost
    );
    assert_eq!(
        WebUrl::parse("https://a b.org/").unwrap_err().cause,
        url::ParseError::IdnaError
    );
    assert_eq!(
        WebUrl::parse("https://example.net:port/").unwrap_err().cause,
        url::ParseError::InvalidPort
    );
    assert_eq!(
        WebUrl::parse("https://[::1/").unwrap_err().cause,
        url::ParseError::InvalidIpv6Address
    );
}

#[test]
fn join_resolves_against_the_base() {
    let base = WebUrl::parse("https://example.net/a/b.html").unwrap();
    assert_eq!(base.join("c.png").unwrap().as_str(), "https://example.net/a/c.png");
    let base = WebUrl::parse("https://example.net/a/b/").unwrap();
    assert_eq!(base.join("c.png").unwrap().as_str(), "https://example.net/a/b/c.png");
    assert_eq!(base.join("/v1/meta").unwrap().as_str(), "https://example.net/v1/meta");
    assert_eq!(base.join("//eve.com/b").unwrap().as_str(), "https://eve.com/b");
    assert_eq!(base.join("http://eve.com/b").unwrap().as_str(), "http://eve.com/b");
    assert_eq!(base.join("").unwrap().as_str(), "https://example.net/a/b/");
}

#[test]
fn join_errors() {
    let base = WebUrl::parse("https://example.net/").unwrap();
    assert_eq!(
        base.join("https://a b/").unwrap_err().cause,
        url::ParseError::IdnaError
    );
    let base = WebUrl::parse("mailto:someone@example.net").unwrap();
    assert_eq!(
        base.join("x").unwrap_err().cause,
        url::ParseError::RelativeUrlWithCannotBeABaseBase
    );
}

#[test]
fn join_escapes_what_the_path_cannot_hold() {
    let base = WebUrl::parse("https://world.openfoodfacts.org/").unwrap();
    assert_eq!(
        base.join("entry dates.json").unwrap().as_str(),
        "https://world.openfoodfacts.org/entry%20dates.json"
    );
}

#[test]
fn host_address_is_exact() {
    assert_eq!(host_address("world"), "https://world.openfoodfacts.org/");
    assert_eq!(host_address("ch-fr"), "https://ch-fr.openfoodfacts.org/");
    assert_eq!(host_address(""), "https://.openfoodfacts.org/");
    assert_eq!(host_address("G R"), "https://G R.openfoodfacts.org/");
}

#[test]
fn paths_are_exact() {
    assert_eq!(api_path("v0"), "api/v0/");
    assert_eq!(api_path("v2"), "api/v2/");
    assert_eq!(taxonomy_path("nova_groups"), "data/taxonomies/nova_groups.json");
    assert_eq!(facet_path("brands"), "brands.json");
    assert_eq!(products_by_path("category", "cheeses"), "category/cheeses.json");
    assert_eq!(product_path("069000019832"), "product/069000019832");
    assert_eq!(product_path(""), "product/");
}
