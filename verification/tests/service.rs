use sbom_backend::service::bom_service::{product_line_action, ProductLineAction};
use sbom_backend::client::service_util::{NoCertificateVerification, SignatureScheme};
use sbom_backend::error::error_msg::{simple_error, unauthorized_error, ErrorMsg};
use sbom_backend::facade::facade_util::{clean_title, delete_by_id_statement};
use sbom_backend::model::bom::protobom::Document;
use sbom_backend::model::common::UtcDateTime;
use sbom_backend::model::deployment_environment::EnDeploymentEnvironment;
use sbom_backend::model::request_response::map_reproduct;
use sbom_backend::model::sbom::EnSbom;
use sbom_backend::runtime::{handle_error, log_file_path, parse_otlp_protocol, MiddlewareError, OtlpProtocol};
use sbom_backend::service::bom_service::{
    bom_already_uploaded_error, bom_sha256_hex, classify_bom_field, enriched_bom_text, environment_link,
    found_environment_id, invalid_field_error, new_environment, new_package, new_package_version, new_product,
    new_sbom, record_bom_field, require_field, BomField, BomForm,
};
use sbom_backend::service::health_service::get_health;
use sbom_backend::util::message_util::{get_message, resolve_lang, MessageLookup};

#[test]
fn errors_carry_their_status() {
    let e = simple_error(&"boom".to_string());
    assert_eq!((e.title.as_str(), e.status), ("boom", 409));
    assert!(e._type.is_none() && e.detail.is_none() && e.instance.is_none() && e.code.is_none() && e.errors.is_empty());
    let e = unauthorized_error("Non autorisé".to_string());
    assert_eq!((e.title.as_str(), e.status), ("Non autorisé", 401));
    let e = ErrorMsg::from_internal_error();
    assert_eq!((e.title.as_str(), e.status), ("Error", 500));
}

#[test]
fn an_invalid_status_is_answered_with_500() {
    let mut e = simple_error(&"x".to_string());
    assert_eq!(e.response_status(), 409);
    e.status = 99;
    assert_eq!(e.response_status(), 500);
    e.status = 100;
    assert_eq!(e.response_status(), 100);
    e.status = 999;
    assert_eq!(e.response_status(), 999);
    e.status = 1000;
    assert_eq!(e.response_status(), 500);
}

#[test]
fn messages_are_read_in_a_supported_language() {
    assert_eq!(resolve_lang("fr"), "fr");
    assert_eq!(resolve_lang("nl"), "nl");
    assert_eq!(resolve_lang("en"), "en");
    assert_eq!(resolve_lang("de"), "en");
    assert_eq!(resolve_lang(""), "en");
    assert_eq!(get_message("k", MessageLookup::Formatted("Bonjour".to_string())), "Bonjour");
    assert_eq!(get_message("field-title-length", MessageLookup::Missing), "field-title-length does not exist");
    assert_eq!(get_message("k", MessageLookup::BundleUnavailable), "An internal error occurs");
}

#[test]
fn titles_are_sanitised() {
    assert_eq!(clean_title("Hello <script>alert(1)</script><b>World</b>"), "Hello <b>World</b>");
    assert_eq!(clean_title("plain"), "plain");
}

#[test]
fn the_delete_statement_names_the_table() {
    assert_eq!(delete_by_id_statement("product_line"), "DELETE FROM product_line WHERE id=$1");
}

#[test]
fn the_upload_form_fields() {
    assert!(matches!(classify_bom_field("productline"), Ok(BomField::ProductLine)));
    assert!(matches!(classify_bom_field("bom"), Ok(BomField::Bom)));
    assert!(matches!(classify_bom_field("environment"), Ok(BomField::Environment)));
    let e = classify_bom_field("colour").err().unwrap();
    assert_eq!(e.title, "Supported form data parameters are productline, product, package, version and bom. Unknown: colour");
    assert_eq!(e.status, 409);
    let e = invalid_field_error("bom");
    assert_eq!((e.title.as_str(), e.status), ("Invalid multipart field: bom", 409));
    let mut form = BomForm { product: None, package: None, version: None, environment: None };
    record_bom_field(&mut form, BomField::Product, "p".to_string());
    record_bom_field(&mut form, BomField::Version, "1.0".to_string());
    record_bom_field(&mut form, BomField::Bom, "ignored".to_string());
    assert_eq!(form.product.as_deref(), Some("p"));
    assert_eq!(form.version.as_deref(), Some("1.0"));
    assert!(form.package.is_none() && form.environment.is_none());
}

#[test]
fn missing_fields_are_named() {
    assert_eq!(require_field(Some("x".to_string()), BomField::Product).ok().unwrap(), "x");
    for (field, text) in [
        (BomField::Product, "Product must be filled"),
        (BomField::Package, "Package must be filled"),
        (BomField::Version, "Version must be filled"),
        (BomField::Bom, "Bom must be filled"),
        (BomField::Environment, "Environment must be filled"),
    ] {
        let e = require_field(None, field).err().unwrap();
        assert_eq!((e.title.as_str(), e.status), (text, 409));
    }
    let e = bom_already_uploaded_error();
    assert_eq!((e.title.as_str(), e.status), ("Bom already uploaded", 409));
}

#[test]
fn an_upload_is_fingerprinted_by_its_sha256() {
    assert_eq!(bom_sha256_hex(b"abc"), "ba7816bf8f01cfea414140de5dae2223b00361a396177a9cb410ff61f20015ad");
}

#[test]
fn new_rows_of_an_upload() {
    let p = new_product("prod".to_string(), 3);
    assert_eq!((p.id, p.title.as_str(), p.product_line_id), (0, "prod", 3));
    let k = new_package("pkg".to_string(), 8);
    assert_eq!((k.id, k.title.as_str(), k.product_id), (0, "pkg", 8));
    assert!(k.description.is_none());
    let s = new_sbom("{\"a\":1}".to_string(), "{\"b\":2}".to_string(), "ff".to_string());
    assert_eq!((s.sbom_original.as_deref(), s.sbom_enriched.as_deref(), s.sha256.as_deref()), (Some("{\"a\":1}"), Some("{\"b\":2}"), Some("ff")));
    assert!(s.s3_uuid_original.is_none() && s.s3_uuid_enriched.is_none());
    let v = new_package_version("1.0".to_string(), 8, 12, UtcDateTime { secs: 5, nanos: 6 });
    assert_eq!((v.id, v.title.as_str(), v.package_id, v.sbom_id), (0, "1.0", 8, Some(12)));
    assert_eq!(v.latest_scan.map(|t| (t.secs, t.nanos)), Some((5, 6)));
    let env = new_environment("prod".to_string());
    assert!(env.id.is_none() && !env.internal);
    let link = environment_link(12, 4);
    assert_eq!((link.package_version_id, link.deployment_environment_id), (12, 4));
}

#[test]
fn environments_found_by_title() {
    let found = Some(EnDeploymentEnvironment { id: Some(5), title: "prod".to_string(), internal: true });
    assert_eq!(found_environment_id(&found), Some(5));
    let unnumbered = Some(EnDeploymentEnvironment { id: None, title: "prod".to_string(), internal: true });
    assert_eq!(found_environment_id(&unnumbered), Some(0));
    assert_eq!(found_environment_id(&None), None);
}

#[test]
fn a_download_answers_the_enriched_document() {
    let stored = EnSbom {
        id: 1,
        sbom_enriched: Some("{}".to_string()),
        sbom_original: None,
        s3_uuid_enriched: None,
        s3_uuid_original: None,
        sha256: None,
    };
    assert_eq!(enriched_bom_text(Some(stored)).as_deref(), Some("{}"));
    assert!(enriched_bom_text(None).is_none());
}

#[test]
fn the_service_is_healthy() {
    assert_eq!(get_health().status, "pass");
}

#[test]
fn middleware_failures_and_set_up() {
    assert_eq!(handle_error(MiddlewareError::Timeout), (408, "request timed out".to_string()));
    assert_eq!(handle_error(MiddlewareError::Overloaded), (503, "service is overloaded, try again later".to_string()));
    assert_eq!(handle_error(MiddlewareError::Other("x".to_string())), (500, "Unhandled internal error: x".to_string()));
    assert_eq!(log_file_path("/var/log/", "debug.log"), "/var/log/debug.log");
    assert!(matches!(parse_otlp_protocol("grpc"), Some(OtlpProtocol::Grpc)));
    assert!(matches!(parse_otlp_protocol("http/json"), Some(OtlpProtocol::HttpJson)));
    assert!(matches!(parse_otlp_protocol("http/protobuf"), Some(OtlpProtocol::HttpBinary)));
    assert!(parse_otlp_protocol("udp").is_none());
}

#[test]
fn the_accepting_verifier_announces_twelve_schemes() {
    let s = NoCertificateVerification {}.supported_verify_schemes();
    assert_eq!(s.len(), 12);
    assert!(matches!(s[0], SignatureScheme::EcdsaNistp256Sha256));
    assert!(matches!(s[11], SignatureScheme::RsaPssSha512));
}

#[test]
fn unfinished_conversions() {
    assert!(Document {}.to_protobom().is_ok());
    assert!(map_reproduct(vec![]).is_empty());
}

#[test]
fn an_upload_goes_under_the_product_line_found_or_a_new_one() {
    assert!(matches!(product_line_action(Some(4), "web".to_string()), ProductLineAction::Use(4)));
    assert!(matches!(product_line_action(None, "web".to_string()), ProductLineAction::Insert(t) if t.title == "web"));
}

#[test]
fn fingerprints_have_sixty_four_hex_digits() {
    assert_eq!(bom_sha256_hex(b"").len(), 64);
    assert_eq!(bom_sha256_hex(&[0u8; 1000]).len(), 64);
    assert_eq!(resolve_lang("en-US"), resolve_lang("en"));
}
