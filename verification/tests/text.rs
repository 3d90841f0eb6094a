use sbom_backend::text::{split_dash, str_contains, str_eq, to_hex};

#[test]
fn versions_split_at_dashes() {
    assert_eq!(split_dash("4.2.46-31.el7"), ("4.2.46".to_string(), "31.el7".to_string()));
    assert_eq!(split_dash("1-2-3"), ("1".to_string(), "2".to_string()));
    assert_eq!(split_dash("1.0"), ("1.0".to_string(), String::new()));
    assert_eq!(split_dash("-x"), (String::new(), "x".to_string()));
    assert_eq!(split_dash(""), (String::new(), String::new()));
}

#[test]
fn text_search_and_equality() {
    assert!(str_contains("abc-missing-x", "missing"));
    assert!(str_contains("abc", ""));
    assert!(!str_contains("mis", "missing"));
    assert!(str_eq("é", "é"));
    assert!(!str_eq("a", "ab"));
}

#[test]
fn hex_writing() {
    assert_eq!(to_hex(&[0x00, 0xab, 0x0f], true), "00AB0F");
    assert_eq!(to_hex(&[0x00, 0xab, 0x0f], false), "00ab0f");
    assert_eq!(to_hex(&[], true), "");
}
