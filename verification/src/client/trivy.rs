//! The scanner's messages: blobs of packages to scan, scan requests and results.

use vstd::prelude::*;

verus! {

/// Operating system of a scanned artifact.
pub struct Os {
    pub family: String,
    pub name: String,
    pub eosl: bool,
    pub extended: bool,
}

/// How a package is identified in the bill of materials it comes from.
pub struct PkgIdentifier {
    pub purl: String,
    pub bom_ref: String,
    pub uid: String,
}

/// A package to scan.
pub struct Package {
    pub id: String,
    pub name: String,
    pub version: String,
    pub release: String,
    pub epoch: Option<i32>,
    pub arch: String,
    pub src_name: String,
    pub src_version: String,
    pub src_release: String,
    pub src_epoch: Option<i32>,
    pub licenses: Vec<String>,
    pub file_path: Option<String>,
    pub digest: Option<String>,
    pub dev: Option<bool>,
    pub indirect: bool,
    pub identifier: Option<PkgIdentifier>,
    pub depends_on: Vec<String>,
    pub maintainer: String,
    pub relationship: i32,
}

/// Packages found at one place of a blob.
pub struct PackageInfo {
    pub file_path: Option<String>,
    pub packages: Vec<Package>,
}

/// One layer of an artifact, as handed to the scanner's cache.
pub struct BlobInfo {
    pub schema_version: i32,
    pub os: Option<Os>,
    pub package_infos: Vec<PackageInfo>,
    pub opaque_dirs: Vec<String>,
    pub whiteout_files: Vec<String>,
    pub digest: Option<String>,
    pub diff_id: String,
    pub size: i64,
    pub created_by: String,
}

/// A protobuf timestamp: seconds since the Unix epoch and nanoseconds.
pub struct Timestamp {
    pub seconds: i64,
    pub nanos: i32,
}

/// A vulnerability the scanner found.
pub struct Vulnerability {
    pub vulnerability_id: String,
    pub pkg_name: String,
    pub installed_version: String,
    pub title: String,
    pub description: String,
    pub severity_source: String,
    pub primary_url: String,
    pub cwe_ids: Vec<String>,
    pub published_date: Option<Timestamp>,
    pub last_modified_date: Option<Timestamp>,
    pub pkg_identifier: Option<PkgIdentifier>,
}

/// What to scan for.
pub struct ScanOptions {
    pub pkg_types: Vec<String>,
    pub scanners: Vec<String>,
    pub license_categories: Vec<(String, Vec<String>)>,
    pub include_dev_deps: bool,
    pub pkg_relationships: Vec<String>,
    pub distro: Option<Os>,
    pub vuln_severity_sources: Vec<String>,
    pub license_full: bool,
}

/// A request to scan blobs that the scanner's cache holds.
pub struct ScanRequest {
    pub target: String,
    pub artifact_id: String,
    pub blob_ids: Vec<String>,
    pub options: Option<ScanOptions>,
}

/// A request to store a blob in the scanner's cache.
pub struct PutBlobRequest {
    pub diff_id: String,
    pub blob_info: Option<BlobInfo>,
}

/// The findings of a scan for one target.
pub struct ScanResult {
    pub target: String,
    pub vulnerabilities: Vec<Vulnerability>,
}

/// Which of an artifact's blobs the cache lacks.
pub struct MissingBlobsRequest {
    pub artifact_id: String,
    pub blob_ids: Vec<String>,
}

/// The blobs the cache lacks.
pub struct MissingBlobsResponse {
    pub missing_artifact: bool,
    pub missing_blob_ids: Vec<String>,
}

} // verus!
