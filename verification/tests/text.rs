use openfoodfacts::text::{
    bool_string, decimal_string, decimal_string_of_size, joined, push_decimal, same_text,
};

#[test]
fn decimal_of_small_and_large_numbers() {
    assert_eq!(decimal_string(0), "0");
    assert_eq!(decimal_string(7), "7");
    assert_eq!(decimal_string(9), "9");
    assert_eq!(decimal_string(10), "10");
    assert_eq!(decimal_string(99), "99");
    assert_eq!(decimal_string(100), "100");
    assert_eq!(decimal_string(500), "500");
    assert_eq!(decimal_string(1_020_304), "1020304");
    assert_eq!(decimal_string(u32::MAX), "4294967295");
}

#[test]
fn decimal_agrees_with_the_standard_rendering() {
    let mut n: u32 = 1;
    for _ in 0..40 {
        assert_eq!(decimal_string(n), n.to_string());
        n = n.wrapping_mul(7).wrapping_add(3);
    }
}

#[test]
fn decimal_of_sizes() {
    assert_eq!(decimal_string_of_size(0), "0");
    assert_eq!(decimal_string_of_size(500), "500");
    assert_eq!(decimal_string_of_size(usize::MAX), usize::MAX.to_string());
}

#[test]
fn push_decimal_appends() {
    let mut text = String::from("tag_");
    push_decimal(&mut text, 12);
    assert_eq!(text, "tag_12");
    push_decimal(&mut text, 0);
    assert_eq!(text, "tag_120");
    push_decimal(&mut text, u64::MAX);
    assert_eq!(text, "tag_12018446744073709551615");
}

#[test]
fn booleans() {
    assert_eq!(bool_string(true), "true");
    assert_eq!(bool_string(false), "false");
}

#[test]
fn same_text_compares_characters() {
    assert!(same_text("additives", "additives"));
    assert!(!same_text("additives", "additive"));
    assert!(!same_text("additives", "Additives"));
    assert!(same_text("", ""));
    assert!(!same_text("", " "));
    assert!(same_text("Nestlé", "Nestlé"));
}

#[test]
fn joined_concatenates() {
    assert_eq!(joined("tag_", "1"), "tag_1");
    assert_eq!(joined("", ""), "");
    assert_eq!(joined("é", "ü"), "éü");
}
