use brewery_sales::text::{clean, keeps, strip};

#[test]
fn missing_labels_become_unknown() {
    assert_eq!(clean(""), "Unknown");
    assert_eq!(clean("null"), "Unknown");
}

#[test]
fn only_the_exact_null_marker_is_missing() {
    assert_eq!(clean("nule"), "nule");
    assert_eq!(clean("Null"), "Null");
    assert_eq!(clean("NULL"), "NULL");
    assert_eq!(clean("nul"), "nul");
    assert_eq!(clean("nulls"), "nulls");
}

#[test]
fn cleaning_strips_everything_but_ascii_letters_and_digits() {
    assert_eq!(clean("India Pale Ale"), "IndiaPaleAle");
    assert_eq!(clean("St. Louis, MO"), "StLouisMO");
    assert_eq!(clean("Amber-2"), "Amber2");
    assert_eq!(clean("IPA"), "IPA");
    assert_eq!(clean("K\u{f6}lsch"), "Klsch");
    assert_eq!(clean("\u{5564}\u{9152}99"), "99");
}

#[test]
fn the_marker_is_tested_before_stripping() {
    assert_eq!(clean(" null"), "null");
    assert_eq!(clean("n-u-l-l"), "null");
}

#[test]
fn a_label_without_letters_or_digits_is_cleaned_to_nothing() {
    assert_eq!(clean("!!!"), "");
    assert_eq!(clean(" "), "");
    assert_eq!(clean("\u{e9}"), "");
}

#[test]
fn strip_keeps_order_and_repeats() {
    assert_eq!(strip("a-b-a"), "aba");
    assert_eq!(strip(""), "");
    assert_eq!(strip("null"), "null");
    assert_eq!(strip("zZ09 aA"), "zZ09aA");
}

#[test]
fn keeps_is_exactly_the_ascii_letters_and_digits() {
    for code in 0u32..=0x2FF {
        let c = char::from_u32(code).unwrap();
        assert_eq!(keeps(c), c.is_ascii_alphanumeric(), "{:?}", c);
    }
    assert!(keeps('0') && keeps('9') && keeps('A') && keeps('Z') && keeps('a') && keeps('z'));
    assert!(!keeps('/') && !keeps(':') && !keeps('@') && !keeps('[') && !keeps('`') && !keeps('{'));
    assert!(!keeps('\u{ff11}'));
}
