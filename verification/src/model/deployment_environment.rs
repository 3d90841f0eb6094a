//! Deployment environments of package versions.

use vstd::prelude::*;

verus! {

/// A deployment environment.
pub struct EnDeploymentEnvironment {
    pub id: Option<i16>,
    pub title: String,
    pub internal: bool,
}

/// The link of a package version to a deployment environment.
pub struct EnPackageVersionDeploymentEnvironment {
    pub package_version_id: i64,
    pub deployment_environment_id: i16,
}

} // verus!
