//! Request and response shapes of products with their packages and versions.

use vstd::prelude::*;
use crate::model::common::UtcDateTime;
use crate::model::deployment_environment::EnDeploymentEnvironment;
use crate::model::vulnerable_package_history::EnVulnerablePackageHistory;

verus! {

/// A product with its packages.
pub struct ReProduct {
    pub id: i32,
    pub title: String,
    pub product_line_id: i16,
    pub packages: Vec<RePackage>,
}

/// A package with its versions.
pub struct RePackage {
    pub id: i32,
    pub title: String,
    pub description: Option<String>,
    pub product_id: i32,
    pub versions: Vec<RePackageVersion>,
}

/// A package version with its deployment and latest vulnerability counts.
pub struct RePackageVersion {
    pub id: i64,
    pub title: String,
    pub latest_scan: Option<UtcDateTime>,
    pub package_id: i32,
    pub sbom_id: Option<i64>,
    pub deployment: EnDeploymentEnvironment,
    pub latest_vulnerable_package_history: Option<EnVulnerablePackageHistory>,
}

/// One row of the product / package / version / environment / history join.
pub struct FromQueryReProduct {
    pub p_id: i32,
    pub p_title: String,
    pub pkg_id: Option<i32>,
    pub pkg_title: String,
    pub pkg_description: Option<String>,
    pub pkg_product_id: Option<i16>,
    pub pkgv_id: Option<i32>,
    pub pkgv_title: Option<String>,
    pub pkgv_latest_scan: Option<UtcDateTime>,
    pub pkgv_sbom_id: Option<i64>,
    pub pkgv_package_id: Option<i32>,
    pub de_id: Option<i64>,
    pub de_internal: Option<bool>,
    pub de_title: Option<String>,
    pub vph_id: Option<i64>,
    pub vph_critical: Option<i16>,
    pub vph_high: Option<i16>,
    pub vpb_medium: Option<i16>,
    pub vph_low: Option<i16>,
    pub vph_info: Option<i16>,
    pub vph_unknown: Option<i16>,
    pub vph_none: Option<i16>,
    pub vph_created_date: Option<UtcDateTime>,
    pub vph_package_version_id: Option<i64>,
}

/// Products assembled from the joined rows. The rows are not assembled yet: no product
/// comes out, whatever the rows.
pub fn map_reproduct(items: Vec<FromQueryReProduct>) -> (res: Vec<ReProduct>)
    ensures
        res@.len() == 0,
{
    let _rows = items;
    Vec::new()
}

} // verus!
