use sbom_backend::util::message_util::MessageLookup;
use sbom_backend::model::sbom::EnSbom;
use sbom_backend::util::validation_util::{
    validate_entity, validate_entity_recursive, validate_entity_recursive_impl, Message, ValidationError,
    ValidationErrors, ValidationErrorsKind,
};

fn err(code: &str, message: Option<&str>, params: &[(&str, &str)]) -> ValidationError {
    ValidationError {
        code: code.to_string(),
        message: message.map(|m| m.to_string()),
        params: params.iter().map(|(k, v)| (k.to_string(), v.to_string())).collect(),
    }
}

fn args(m: &Message) -> Vec<(String, String)> {
    m.1.clone().unwrap()
}

fn pairs(p: &[(&str, &str)]) -> Vec<(String, String)> {
    p.iter().map(|(k, v)| (k.to_string(), v.to_string())).collect()
}

#[test]
fn a_range_reports_min_and_max() {
    let e = err("range", Some("field-range"), &[("value", "7"), ("max", "5"), ("min", "1")]);
    let m = validate_entity_recursive_impl(&e).err().unwrap();
    assert_eq!(m.0, "field-range");
    assert_eq!(args(&m), pairs(&[("min", "1"), ("max", "5")]));
}

#[test]
fn a_length_reports_equal_alone_when_given() {
    let e = err("length", Some("field-title-length"), &[("min", "1"), ("equal", "3"), ("max", "200")]);
    let m = validate_entity_recursive_impl(&e).err().unwrap();
    assert_eq!(args(&m), pairs(&[("equal", "3")]));
    let e = err("length", Some("field-title-length"), &[("max", "200")]);
    let m = validate_entity_recursive_impl(&e).err().unwrap();
    assert_eq!(args(&m), pairs(&[("max", "200")]));
}

#[test]
fn other_rules_report_no_arguments_and_silent_rules_nothing() {
    let m = validate_entity_recursive_impl(&err("email", Some("bad-email"), &[("min", "1")])).err().unwrap();
    assert_eq!(m.0, "bad-email");
    assert!(args(&m).is_empty());
    assert!(validate_entity_recursive_impl(&err("range", None, &[("min", "1")])).is_ok());
}

fn nested() -> ValidationErrors {
    let inner = ValidationErrors {
        errors: vec![("name".to_string(), ValidationErrorsKind::Field(vec![err("length", Some("inner"), &[])]))],
    };
    let second = ValidationErrors {
        errors: vec![("x".to_string(), ValidationErrorsKind::Field(vec![err("custom", Some("list-1"), &[])]))],
    };
    ValidationErrors {
        errors: vec![
            ("title".to_string(), ValidationErrorsKind::Field(vec![
                err("length", Some("first"), &[("min", "1")]),
                err("length", None, &[]),
                err("range", Some("second"), &[]),
            ])),
            ("child".to_string(), ValidationErrorsKind::Struct(Box::new(inner))),
            ("items".to_string(), ValidationErrorsKind::List(vec![ValidationErrors { errors: vec![] }, second])),
        ],
    }
}

#[test]
fn failures_are_flattened_field_by_field_depth_first() {
    let mut msgs: Vec<Message> = vec![("earlier".to_string(), None)];
    validate_entity_recursive(&nested(), &mut msgs);
    let keys: Vec<&str> = msgs.iter().map(|m| m.0.as_str()).collect();
    assert_eq!(keys, vec!["earlier", "first", "second", "inner", "list-1"]);
}

#[test]
fn validating_gives_all_messages_translated_or_nothing() {
    assert!(validate_entity(&Ok(()), &vec![]).is_ok());
    let lookups = vec![
        MessageLookup::Formatted("Premier".to_string()),
        MessageLookup::Missing,
        MessageLookup::BundleUnavailable,
        MessageLookup::Formatted("Liste".to_string()),
    ];
    let texts = validate_entity(&Err(nested()), &lookups).err().unwrap();
    assert_eq!(
        texts,
        vec![
            "Premier".to_string(),
            "second does not exist".to_string(),
            "An internal error occurs".to_string(),
            "Liste".to_string(),
        ]
    );
    assert!(validate_entity(&Err(ValidationErrors { errors: vec![] }), &vec![]).err().unwrap().is_empty());
}

fn sbom(original: Option<&str>, s3: Option<&str>) -> EnSbom {
    EnSbom {
        id: 1,
        sbom_enriched: None,
        sbom_original: original.map(|s| s.to_string()),
        s3_uuid_enriched: None,
        s3_uuid_original: s3.map(|s| s.to_string()),
        sha256: None,
    }
}

#[test]
fn a_stored_bill_needs_an_original() {
    let m = sbom(None, None).validate_sbom_or_s3().err().unwrap();
    assert_eq!(m.0, "original-sbom-required");
    assert!(m.1.is_none());
    assert!(sbom(Some("{}"), None).validate_sbom_or_s3().is_ok());
    assert!(sbom(None, Some("uuid")).validate_all().is_ok());
    assert!(sbom(None, None).validate_all().is_err());
}

#[test]
fn the_first_declarative_failure_wins_translated() {
    let lookups = vec![
        MessageLookup::Formatted("Premier".to_string()),
        MessageLookup::Missing,
        MessageLookup::Missing,
        MessageLookup::Missing,
    ];
    let required = || MessageLookup::Formatted("Original requis".to_string());
    let m = sbom(None, None).validate_and_get_message(&Err(nested()), &lookups, required()).err().unwrap();
    assert_eq!(m, "Premier");
    let m = sbom(None, None).validate_and_get_message(&Ok(()), &vec![], required()).err().unwrap();
    assert_eq!(m, "Original requis");
    let m = sbom(None, None)
        .validate_and_get_message(&Err(ValidationErrors { errors: vec![] }), &vec![], MessageLookup::Missing)
        .err()
        .unwrap();
    assert_eq!(m, "original-sbom-required does not exist");
    assert!(sbom(Some("{}"), None).validate_and_get_message(&Ok(()), &vec![], required()).is_ok());
}
