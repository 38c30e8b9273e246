use openfoodfacts::Locale;

#[test]
fn render_country_only() {
    assert_eq!(Locale::new("fr", None).render(), "fr");
}

#[test]
fn render_country_and_language() {
    assert_eq!(Locale::new("ch", Some("de")).render(), "ch-de");
}

#[test]
fn default_is_world() {
    let locale = Locale::default();
    assert_eq!(locale.country, "world");
    assert!(locale.language.is_none());
    assert_eq!(locale.render(), "world");
}

#[test]
fn render_keeps_the_codes_as_given() {
    assert_eq!(Locale::new("", None).render(), "");
    assert_eq!(Locale::new("", Some("")).render(), "-");
    assert_eq!(Locale::new("FR", Some("Fr")).render(), "FR-Fr");
    assert_eq!(Locale::new("a-b", Some("c_d")).render(), "a-b-c_d");
}

#[test]
fn render_can_be_repeated() {
    let locale = Locale::new("be", Some("nl"));
    assert_eq!(locale.render(), locale.render());
}

#[test]
fn new_keeps_the_fields() {
    let locale = Locale::new("be", Some("nl"));
    assert_eq!(locale.country, "be");
    assert_eq!(locale.language.as_deref(), Some("nl"));
}

#[test]
fn well_formed_locales() {
    assert!(Locale::default().is_well_formed());
    assert!(Locale::new("fr", None).is_well_formed());
    assert!(Locale::new("ch", Some("de")).is_well_formed());
    assert!(Locale::new("world", Some("fr")).is_well_formed());
}

#[test]
fn malformed_locales() {
    assert!(!Locale::new("", None).is_well_formed());
    assert!(!Locale::new("FR", None).is_well_formed());
    assert!(!Locale::new("fR", None).is_well_formed());
    assert!(!Locale::new("f", None).is_well_formed());
    assert!(!Locale::new("fra", None).is_well_formed());
    assert!(!Locale::new("World", None).is_well_formed());
    assert!(!Locale::new("f-", None).is_well_formed());
    assert!(!Locale::new("f1", None).is_well_formed());
    assert!(!Locale::new("éa", None).is_well_formed());
    assert!(!Locale::new("fr", Some("")).is_well_formed());
    assert!(!Locale::new("fr", Some("FR")).is_well_formed());
    assert!(!Locale::new("fr", Some("world")).is_well_formed());
    assert!(!Locale::new("a{", None).is_well_formed());
    assert!(!Locale::new("`a", None).is_well_formed());
}

#[test]
fn code_shape() {
    use_is_code("az", true);
    use_is_code("za", true);
    use_is_code("a", false);
    use_is_code("abc", false);
    use_is_code("A1", false);
    use_is_code("", false);
}

fn use_is_code(text: &str, expected: bool) {
    assert_eq!(openfoodfacts::locale::is_code_text(text), expected);
}
