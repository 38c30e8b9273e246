use openfoodfacts::output::allows;
use openfoodfacts::{Locale, Output};

fn pairs(params: &[(String, String)]) -> Vec<(&str, &str)> {
    params.iter().map(|(name, value)| (name.as_str(), value.as_str())).collect()
}

#[test]
fn whitelist_omits_what_it_does_not_name() {
    let output = Output::new().page(22).fields("url").nocache(true);
    let params = output.params(&["page", "fields"]);
    assert_eq!(pairs(&params), vec![("page", "22"), ("fields", "url")]);
    assert!(params.iter().all(|(name, _)| name != "nocache"));
}

#[test]
fn canonical_order_does_not_follow_the_whitelist() {
    let output = Output::new()
        .nocache(false)
        .fields("a,b")
        .pagination(1, 24);
    let params = output.params(&["nocache", "fields", "page_size", "page"]);
    assert_eq!(
        pairs(&params),
        vec![
            ("page", "1"),
            ("page_size", "24"),
            ("fields", "a,b"),
            ("nocache", "false"),
        ]
    );
}

#[test]
fn unset_options_give_no_pair() {
    let mut output = Output::new();
    output.page_size = Some(5);
    let params = output.params(&["page", "page_size", "fields", "nocache"]);
    assert_eq!(pairs(&params), vec![("page_size", "5")]);
}

#[test]
fn empty_output_or_empty_whitelist_gives_nothing() {
    let names: [&str; 0] = [];
    assert!(Output::new().params(&["page", "page_size", "fields", "nocache"]).is_empty());
    assert!(Output::new().page(1).fields("x").nocache(true).params(&names).is_empty());
}

#[test]
fn locale_is_never_a_parameter() {
    let output = Output::new().locale(Locale::new("fr", Some("fr"))).page(1);
    let params = output.params(&["locale", "page", "page_size", "fields", "nocache"]);
    assert_eq!(pairs(&params), vec![("page", "1")]);
}

#[test]
fn unknown_names_in_the_whitelist_are_harmless() {
    let output = Output::new().page(1);
    let params = output.params(&["pages", "Page", "page "]);
    assert!(params.is_empty());
}

#[test]
fn numbers_are_decimal_and_booleans_are_words() {
    let output = Output::new().pagination(0, u32::MAX).nocache(true);
    let params = output.params(&["page", "page_size", "nocache"]);
    assert_eq!(
        pairs(&params),
        vec![("page", "0"), ("page_size", "4294967295"), ("nocache", "true")]
    );
}

#[test]
fn builder_methods_set_one_option_each() {
    let output = Output::new();
    assert!(output.locale.is_none());
    assert!(output.page.is_none());
    assert!(output.page_size.is_none());
    assert!(output.fields.is_none());
    assert!(output.nocache.is_none());

    let output = output.page(3);
    assert_eq!(output.page, Some(3));
    assert!(output.page_size.is_none());

    let output = output.pagination(4, 5);
    assert_eq!(output.page, Some(4));
    assert_eq!(output.page_size, Some(5));

    let output = output.fields("url").nocache(false);
    assert_eq!(output.fields.as_deref(), Some("url"));
    assert_eq!(output.nocache, Some(false));
    assert_eq!(output.page, Some(4));

    let output = output.locale(Locale::new("gr", None));
    assert_eq!(output.locale.as_ref().unwrap().country, "gr");
    assert!(output.locale.as_ref().unwrap().language.is_none());
    assert_eq!(output.page_size, Some(5));
}

#[test]
fn allows_finds_exact_names_only() {
    assert!(allows(&["page", "fields"], "page"));
    assert!(allows(&["page", "fields"], "fields"));
    assert!(!allows(&["page", "fields"], "nocache"));
    assert!(!allows(&["page", "fields"], "pag"));
    assert!(!allows(&["page", "fields"], ""));
    assert!(!allows(&[], "page"));
    assert!(allows(&["a", "a"], "a"));
}

#[test]
fn endpoint_whitelists() {
    let output = Some(
        Output::new()
            .locale(Locale::new("fr", None))
            .pagination(2, 20)
            .fields("url")
            .nocache(true),
    );
    assert_eq!(
        pairs(&openfoodfacts::client::facet_params(&output).unwrap()),
        vec![("page", "2"), ("page_size", "20"), ("fields", "url"), ("nocache", "true")]
    );
    assert_eq!(
        pairs(&openfoodfacts::client::listing_params(&output).unwrap()),
        vec![("page", "2"), ("page_size", "20"), ("fields", "url")]
    );
    assert_eq!(
        pairs(&openfoodfacts::client::product_params(&output).unwrap()),
        vec![("fields", "url")]
    );
    assert!(openfoodfacts::client::facet_params(&None).is_none());
    assert!(openfoodfacts::client::listing_params(&None).is_none());
    assert!(openfoodfacts::client::product_params(&None).is_none());
}
