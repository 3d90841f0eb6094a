//! Packages and their versions.

use vstd::prelude::*;
use crate::model::common::UtcDateTime;

verus! {

/// A package of a product.
pub struct EnPackage {
    pub id: i32,
    pub title: String,
    pub description: Option<String>,
    pub product_id: i32,
}

/// A version of a package, with its latest scan and bill of materials.
pub struct EnPackageVersion {
    pub id: i64,
    pub title: String,
    pub latest_scan: Option<UtcDateTime>,
    pub package_id: i32,
    pub sbom_id: Option<i64>,
}

/// The link of a package version to a deployment environment.
pub struct EnPackageVersionDeploymentEnvironment {
    pub package_version_id: i64,
    pub deployment_environment_id: i16,
}

} // verus!
