//! Decisions of the bill-of-materials upload and download.

use vstd::prelude::*;
use crate::client::trivy_scanner::{sha256, sha256_of};
use crate::error::error_msg::{ErrorMsg, is_plain_error, plain_error, STATUS_CONFLICT};
use crate::model::common::{EnTitle, UtcDateTime};
use crate::model::deployment_environment::{EnDeploymentEnvironment, EnPackageVersionDeploymentEnvironment};
use crate::model::package::{EnPackage, EnPackageVersion};
use crate::model::product_line::EnProduct;
use crate::model::sbom::EnSbom;
use crate::model::vulnerable_package_history::{EnVulnerablePackageHistory, counts_differ};
use crate::text::{copy_text, hex_text, str_eq, to_hex};

verus! {

/// The form fields of an upload.
pub enum BomField {
    ProductLine,
    Product,
    Package,
    Version,
    Bom,
    Environment,
}

/// The field a form name stands for.
pub open spec fn field_of(name: Seq<char>) -> Option<BomField> {
    if name == "productline"@ {
        Some(BomField::ProductLine)
    } else if name == "product"@ {
        Some(BomField::Product)
    } else if name == "package"@ {
        Some(BomField::Package)
    } else if name == "version"@ {
        Some(BomField::Version)
    } else if name == "bom"@ {
        Some(BomField::Bom)
    } else if name == "environment"@ {
        Some(BomField::Environment)
    } else {
        None
    }
}

/// The field a form name stands for; an unknown name fails the upload with status 409,
/// naming the supported fields and the unknown one.
pub fn classify_bom_field(name: &str) -> (res: Result<BomField, ErrorMsg>)
    ensures
        match field_of(name@) {
            Some(f) => res == Ok::<BomField, ErrorMsg>(f),
            None => res matches Err(e) && is_plain_error(
                e,
                "Supported form data parameters are productline, product, package, version and bom. Unknown: "@
                    + name@,
                STATUS_CONFLICT,
            ),
        },
{
    if str_eq(name, "productline") {
        Ok(BomField::ProductLine)
    } else if str_eq(name, "product") {
        Ok(BomField::Product)
    } else if str_eq(name, "package") {
        Ok(BomField::Package)
    } else if str_eq(name, "version") {
        Ok(BomField::Version)
    } else if str_eq(name, "bom") {
        Ok(BomField::Bom)
    } else if str_eq(name, "environment") {
        Ok(BomField::Environment)
    } else {
        let mut error = copy_text(
            "Supported form data parameters are productline, product, package, version and bom. Unknown: ",
        );
        error.append(name);
        Err(plain_error(error, STATUS_CONFLICT))
    }
}

/// The failure of a form field whose content cannot be read: status 409.
pub fn invalid_field_error(name: &str) -> (res: ErrorMsg)
    ensures
        is_plain_error(res, "Invalid multipart field: "@ + name@, STATUS_CONFLICT),
{
    let mut error = copy_text("Invalid multipart field: ");
    error.append(name);
    plain_error(error, STATUS_CONFLICT)
}

/// What the `productline` field of an upload leads to.
pub enum ProductLineAction {
    /// A product line with the field's title exists: the upload goes under its id.
    Use(i16),
    /// None does: a product line with the field's title is inserted.
    Insert(EnTitle),
}

/// The product line an upload goes under, given the id of the one found with the
/// field's title: that one, else a new one with the title.
pub fn product_line_action(found: Option<i16>, title: String) -> (res: ProductLineAction)
    ensures
        match found {
            Some(id) => res == ProductLineAction::Use(id),
            None => res == ProductLineAction::Insert(EnTitle { title }),
        },
{
    match found {
        Some(id) => ProductLineAction::Use(id),
        None => ProductLineAction::Insert(EnTitle { title }),
    }
}

/// The texts of the upload's form, as far as they were sent.
pub struct BomForm {
    pub product: Option<String>,
    pub package: Option<String>,
    pub version: Option<String>,
    pub environment: Option<String>,
}

/// Records a text field of the form: product, package, version or environment; the
/// product line and the bill of materials itself are handled as they arrive.
pub fn record_bom_field(form: &mut BomForm, field: BomField, value: String)
    ensures
        match field {
            BomField::Product => final(form).product == Some(value) && final(form).package == old(form).package
                && final(form).version == old(form).version && final(form).environment == old(form).environment,
            BomField::Package => final(form).package == Some(value) && final(form).product == old(form).product
                && final(form).version == old(form).version && final(form).environment == old(form).environment,
            BomField::Version => final(form).version == Some(value) && final(form).product == old(form).product
                && final(form).package == old(form).package && final(form).environment == old(form).environment,
            BomField::Environment => final(form).environment == Some(value) && final(form).product == old(form).product
                && final(form).package == old(form).package && final(form).version == old(form).version,
            _ => *final(form) == *old(form),
        },
{
    match field {
        BomField::Product => form.product = Some(value),
        BomField::Package => form.package = Some(value),
        BomField::Version => form.version = Some(value),
        BomField::Environment => form.environment = Some(value),
        _ => {},
    }
}

/// The name a field is reported by when it is missing.
pub open spec fn required_message(field: BomField) -> Seq<char> {
    match field {
        BomField::Product => "Product must be filled"@,
        BomField::Package => "Package must be filled"@,
        BomField::Version => "Version must be filled"@,
        BomField::Bom => "Bom must be filled"@,
        BomField::Environment => "Environment must be filled"@,
        BomField::ProductLine => "Productline must be filled"@,
    }
}

/// A required field's text; a missing one fails the upload with status 409, saying
/// which field must be filled.
pub fn require_field(value: Option<String>, field: BomField) -> (res: Result<String, ErrorMsg>)
    ensures
        match value {
            Some(v) => res == Ok::<String, ErrorMsg>(v),
            None => res matches Err(e) && is_plain_error(e, required_message(field), STATUS_CONFLICT),
        },
{
    match value {
        Some(v) => Ok(v),
        None => {
            let message = match field {
                BomField::Product => copy_text("Product must be filled"),
                BomField::Package => copy_text("Package must be filled"),
                BomField::Version => copy_text("Version must be filled"),
                BomField::Bom => copy_text("Bom must be filled"),
                BomField::Environment => copy_text("Environment must be filled"),
                BomField::ProductLine => copy_text("Productline must be filled"),
            };
            Err(plain_error(message, STATUS_CONFLICT))
        },
    }
}

/// The refusal of a bill of materials whose SHA-256 is already stored: status 409.
pub fn bom_already_uploaded_error() -> (res: ErrorMsg)
    ensures
        is_plain_error(res, "Bom already uploaded"@, STATUS_CONFLICT),
{
    plain_error(copy_text("Bom already uploaded"), STATUS_CONFLICT)
}

/// The fingerprint an upload is recognised by: the lower-case hex SHA-256 of its bytes,
/// 64 hex digits.
pub fn bom_sha256_hex(bytes: &[u8]) -> (res: String)
    ensures
        res@ == hex_text(sha256_of(bytes@), false),
        res@.len() == 64,
{
    let digest = sha256(bytes);
    to_hex(digest.as_slice(), false)
}

/// A product to insert under a product line.
pub fn new_product(title: String, product_line_id: i16) -> (res: EnProduct)
    ensures
        res.id == 0 && res.title == title && res.product_line_id == product_line_id,
{
    EnProduct { id: 0, title, product_line_id }
}

/// A package to insert under a product, without description.
pub fn new_package(title: String, product_id: i32) -> (res: EnPackage)
    ensures
        res.id == 0 && res.title == title && res.description is None && res.product_id == product_id,
{
    EnPackage { id: 0, title, description: None, product_id }
}

/// A stored bill of materials: the original and the enriched document as JSON text, with
/// the upload's fingerprint; nothing in the object store.
pub fn new_sbom(original: String, enriched: String, sha256_hex: String) -> (res: EnSbom)
    ensures
        res.id == 0,
        res.sbom_original == Some(original),
        res.sbom_enriched == Some(enriched),
        res.s3_uuid_original is None && res.s3_uuid_enriched is None,
        res.sha256 == Some(sha256_hex),
{
    EnSbom {
        id: 0,
        sbom_enriched: Some(enriched),
        sbom_original: Some(original),
        s3_uuid_original: None,
        s3_uuid_enriched: None,
        sha256: Some(sha256_hex),
    }
}

/// A package version to insert: scanned now, with its bill of materials.
pub fn new_package_version(title: String, package_id: i32, sbom_id: i64, now: UtcDateTime) -> (res: EnPackageVersion)
    ensures
        res.id == 0 && res.title == title && res.latest_scan == Some(now),
        res.package_id == package_id && res.sbom_id == Some(sbom_id),
{
    EnPackageVersion { id: 0, title, latest_scan: Some(now), package_id, sbom_id: Some(sbom_id) }
}

/// Which history entry the upload ends with: the id of the latest one, reused when its
/// counts equal this scan's; nothing when there is no latest entry or the counts
/// changed, and a new entry must be inserted.
pub fn history_to_insert(scan: &EnVulnerablePackageHistory, latest: &Option<EnVulnerablePackageHistory>) -> (res: Option<i64>)
    ensures
        match *latest {
            Some(l) => if counts_differ(*scan, l) { res is None } else { res == Some(l.id) },
            None => res is None,
        },
{
    match latest {
        Some(l) => if scan.has_vulnerability_changed(l) {
            None
        } else {
            Some(l.id)
        },
        None => None,
    }
}

/// The id of the deployment environment found by title, 0 when it has none; `None` when
/// no environment has the title and one must be inserted.
pub fn found_environment_id(found: &Option<EnDeploymentEnvironment>) -> (res: Option<i16>)
    ensures
        match *found {
            Some(d) => res == Some(match d.id {
                Some(i) => i,
                None => 0i16,
            }),
            None => res is None,
        },
{
    match found {
        Some(d) => Some(match d.id {
            Some(i) => i,
            None => 0,
        }),
        None => None,
    }
}

/// A deployment environment to insert: external, with the given title.
pub fn new_environment(title: String) -> (res: EnDeploymentEnvironment)
    ensures
        res.id is None && res.title == title && !res.internal,
{
    EnDeploymentEnvironment { id: None, title, internal: false }
}

/// The link of the uploaded version to its environment.
pub fn environment_link(package_version_id: i64, deployment_environment_id: i16) -> (res: EnPackageVersionDeploymentEnvironment)
    ensures
        res.package_version_id == package_version_id,
        res.deployment_environment_id == deployment_environment_id,
{
    EnPackageVersionDeploymentEnvironment { package_version_id, deployment_environment_id }
}

/// The enriched document to answer a download with: that of the stored bill of
/// materials, when there is one and it has an enriched document.
pub fn enriched_bom_text(result: Option<EnSbom>) -> (res: Option<String>)
    ensures
        match result {
            Some(s) => res == s.sbom_enriched,
            None => res is None,
        },
{
    match result {
        Some(bom) => bom.sbom_enriched,
        None => None,
    }
}

} // verus!
