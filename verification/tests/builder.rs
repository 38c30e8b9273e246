use openfoodfacts::criteria;
use openfoodfacts::params::{SearchParam, SearchParams};
use openfoodfacts::{Auth, Off};

// **
// Builder
// **

// Get a Builder with default options.
#[test]
fn test_builder_default_options() {
    let builder = Off::new("linux");
    assert_eq!(builder.locale, "world");
    assert_eq!(builder.auth, None);
    assert_eq!(builder.user_agent, Some(format!(
        "OffRustClient - {} - Version {} - {}",
        "linux", "alpha", "https://github.com/openfoodfacts/openfoodfacts-rust"
    )));
}

// Set Builder options.
#[test]
fn test_builder_with_options() {
    let builder = Off::new("linux").locale("gr")
                             .auth("user", "pwd")
                             .user_agent("user agent");
    assert_eq!(builder.locale, "gr");
    assert_eq!(builder.auth,
               Some(Auth("user".to_string(), "pwd".to_string())));
    assert_eq!(builder.user_agent, Some("user agent".to_string()));
}

#[test]
fn builder_headers_default() {
    let headers = Off::new("macos").headers();
    assert_eq!(
        headers,
        vec![(
            String::from("user-agent"),
            String::from(
                "OffRustClient - macos - Version alpha - https://github.com/openfoodfacts/openfoodfacts-rust"
            )
        )]
    );
}

#[test]
fn builder_headers_with_credentials() {
    let client = Off::new("linux")
        .user_agent("agent")
        .auth("user", "pwd")
        .locale("fr")
        .build();
    assert_eq!(client.locale, "fr");
    assert_eq!(
        client.headers,
        vec![
            (String::from("user-agent"), String::from("agent")),
            (String::from("authorization"), String::from("Basic user:pwd")),
        ]
    );
}

// Get base URL with default locale
#[test]
fn test_client_base_url_default() {
    let off = Off::new("linux").build();
    assert_eq!(off.base_url(None).unwrap().as_str(),
               "https://world.openfoodfacts.org/");
}

// Get base URL with given locale
#[test]
fn test_client_base_url_locale() {
    let off = Off::new("linux").build();
    assert_eq!(off.base_url(Some("gr")).unwrap().as_str(),
               "https://gr.openfoodfacts.org/");
}

// Get API URL
#[test]
fn test_client_api_url() {
    let off = Off::new("linux").build();
    assert_eq!(off.api_url(None).unwrap().as_str(),
               "https://world.openfoodfacts.org/api/v0/");
}

// Get search URL
#[test]
fn test_client_search_url() {
    let off = Off::new("linux").build();
    assert_eq!(off.search_url(Some("gr")).unwrap().as_str(),
               "https://gr.openfoodfacts.org/cgi/search.pl");
}

#[test]
fn test_client_taxonomy() {
    let off = Off::new("linux").build();
    let url = off.taxonomy("nova_groups").unwrap();
    assert_eq!(url.as_str(),
               "https://world.openfoodfacts.org/data/taxonomies/nova_groups.json");
}

#[test]
fn test_client_taxonomy_not_found() {
    let off = Off::new("linux").build();
    let url = off.taxonomy("not_found").unwrap();
    assert_eq!(url.as_str(),
               "https://world.openfoodfacts.org/data/taxonomies/not_found.json");
}

#[test]
fn test_client_taxonomy_ignores_the_default_locale() {
    let off = Off::new("linux").locale("gr").build();
    let url = off.taxonomy("nova_groups").unwrap();
    assert_eq!(url.as_str(),
               "https://world.openfoodfacts.org/data/taxonomies/nova_groups.json");
}

#[test]
fn test_client_facet() {
    let off = Off::new("linux").build();
    let url = off.facet("brands", Some("gr")).unwrap();
    assert_eq!(url.as_str(), "https://gr.openfoodfacts.org/brands.json");
}

#[test]
fn test_client_categories() {
    let off = Off::new("linux").build();
    let url = off.categories().unwrap();
    assert_eq!(url.as_str(), "https://world.openfoodfacts.org/categories.json");
}

#[test]
fn test_client_categories_ignores_the_default_locale() {
    let off = Off::new("linux").locale("fr").build();
    let url = off.categories().unwrap();
    assert_eq!(url.as_str(), "https://world.openfoodfacts.org/categories.json");
}

#[test]
fn test_client_products_by_category() {
    let off = Off::new("linux").build();
    let url = off.products_by_category("cheeses", None).unwrap();
    assert_eq!(url.as_str(), "https://world.openfoodfacts.org/category/cheeses.json");
}

#[test]
fn test_client_products_with_additive() {
    let off = Off::new("linux").build();
    let url = off.products_with_additive("e322-lecithins", None).unwrap();
    assert_eq!(url.as_str(), "https://world.openfoodfacts.org/additive/e322-lecithins.json");
}

#[test]
fn test_client_products_in_state() {
    let off = Off::new("linux").build();
    let url = off.products_in_state("empty", None).unwrap();
    assert_eq!(url.as_str(), "https://world.openfoodfacts.org/state/empty.json");
}

#[test]
fn test_client_product_by_barcode() {
    let off = Off::new("linux").build();
    let url = off.product_by_barcode("069000019832", None).unwrap();  // Diet Pepsi
    assert_eq!(url.as_str(), "https://world.openfoodfacts.org/api/v0/product/069000019832");
}

#[test]
fn test_client_default_locale_is_used() {
    let off = Off::new("linux").locale("fr").build();
    assert_eq!(off.base_url(None).unwrap().as_str(), "https://fr.openfoodfacts.org/");
    assert_eq!(
        off.products_in_state("empty", None).unwrap().as_str(),
        "https://fr.openfoodfacts.org/state/empty.json"
    );
    assert_eq!(
        off.products_in_state("empty", Some("de")).unwrap().as_str(),
        "https://de.openfoodfacts.org/state/empty.json"
    );
}

#[test]
fn test_client_bad_locale_is_an_error() {
    let off = Off::new("linux").build();
    let error = off.base_url(Some("g r")).unwrap_err();
    assert_eq!(error.cause, url::ParseError::IdnaError);
    let error = off.facet("brands", Some("g r")).unwrap_err();
    assert_eq!(error.cause, url::ParseError::IdnaError);
}

#[test]
fn test_client_search_params() {
    let mut search_params = SearchParams::new();
    search_params.criteria(&criteria::brands(), "contains", "Nestlé")
                 .criteria(&criteria::categories(), "does_not_contain", "cheese")
                 .ingredient("additives", "without")
                 .ingredient("ingredients_that_may_be_from_palm_oil", "indifferent")
                 .nutriment("fiber", "lt", 500)
                 .nutriment("salt", "gt", 100)
                 .name("name");

    let mut spi = search_params.into_iter();

    if let SearchParam::Criteria(brands) = spi.next().unwrap() {
        assert_eq!(brands.name, criteria::brands().0);
        assert_eq!(brands.op, "contains");
        assert_eq!(brands.value, "Nestlé");
    }
    else {
        panic!("Not a CriteriaParam")
    }

    spi.next();   // CATEGORIES

    if let SearchParam::Ingredient(ingredient) = spi.next().unwrap() {
        assert_eq!(ingredient.name, "additives");
        assert_eq!(ingredient.value, "without");
    }
    else {
        panic!("Not an Ingredient")
    }

    spi.next();   // ingredients_that_may_be_from_palm_oil

    if let SearchParam::Nutriment(nutriment) = spi.next().unwrap() {
        assert_eq!(nutriment.name, "fiber");
        assert_eq!(nutriment.op, "lt");
        assert_eq!(nutriment.value, "500");
    }
    else {
        panic!("Not an Nutriment")
    }

    spi.next();   // salt

    if let SearchParam::Name(product_name) = spi.next().unwrap() {
        assert_eq!(product_name.name, "name");
    }
    else {
        panic!("Not an Name")
    }
}

#[test]
fn search_params_into_vec_keeps_the_order() {
    let mut search_params = SearchParams::new();
    search_params
        .name("first")
        .nutriment("salt", "eq", 0)
        .criteria(&criteria::states(), "contains", "empty");
    let list = search_params.into_vec();
    assert_eq!(list.len(), 3);
    assert!(matches!(&list[0], SearchParam::Name(p) if p.name == "first"));
    assert!(matches!(&list[1], SearchParam::Nutriment(p) if p.value == "0" && p.op == "eq"));
    assert!(matches!(&list[2], SearchParam::Criteria(p) if p.name == "states"));
}

#[test]
fn criteria_names() {
    assert_eq!(criteria::brands().0, "brands");
    assert_eq!(criteria::categories().0, "categories");
    assert_eq!(criteria::packaging().0, "packaging");
    assert_eq!(criteria::labels().0, "labels");
    assert_eq!(criteria::origins().0, "origins");
    assert_eq!(criteria::manufacturing_places().0, "manufacturing_places");
    assert_eq!(criteria::emb_codes().0, "emb_codes");
    assert_eq!(criteria::purchase_places().0, "purchase_places");
    assert_eq!(criteria::stores().0, "stores");
    assert_eq!(criteria::countries().0, "countries");
    assert_eq!(criteria::additives().0, "additives");
    assert_eq!(criteria::allergens().0, "allergens");
    assert_eq!(criteria::traces().0, "traces");
    assert_eq!(criteria::nutrition_grades().0, "nutrition_grades");
    assert_eq!(criteria::states().0, "states");
}
