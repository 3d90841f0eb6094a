//! The part of a CycloneDX bill of materials that this service reads and writes.

use vstd::prelude::*;

pub mod cdx_jsf_signature;
pub mod protobom;

verus! {

/// Hash algorithms of CycloneDX.
pub enum HashAlg {
    Md5,
    Sha1,
    Sha256,
    Sha384,
    Sha512,
    Sha3256,
    Sha3384,
    Sha3512,
    Blake2B256,
    Blake2B384,
    Blake2B512,
    Blake3,
}

/// A hash of a component.
pub struct Hash {
    pub alg: HashAlg,
    pub content: String,
}

/// A name/value property of a component.
pub struct Property {
    pub name: String,
    pub value: Option<String>,
}

/// A software or hardware component of a bill of materials.
pub struct Component {
    pub type_: String,
    pub name: String,
    pub version: Option<String>,
    pub group: Option<String>,
    pub purl: Option<String>,
    pub cpe: Option<String>,
    pub bom_ref: Option<String>,
    pub hashes: Option<Vec<Hash>>,
    pub properties: Option<Vec<Property>>,
}

/// Severity of a vulnerability rating.
pub enum Severity {
    Critical,
    High,
    Medium,
    Low,
    Info,
    SeverityNone,
    Unknown,
}

/// Where a vulnerability or a rating comes from.
pub struct VulnerabilitySource {
    pub name: Option<String>,
    pub url: Option<String>,
}

/// A rating of a vulnerability.
pub struct Rating {
    pub justification: Option<String>,
    pub severity: Option<Severity>,
    pub source: Option<VulnerabilitySource>,
    pub vector: Option<String>,
}

/// A component a vulnerability affects, with the affected versions.
pub struct VulnerabilityItemAffects {
    pub ref_: String,
    pub versions: Option<Vec<String>>,
}

/// The analysis of a vulnerability.
pub struct VulnerabilityAnalysis {
    pub detail: Option<String>,
    pub first_issued: Option<String>,
    pub last_updated: Option<String>,
}

/// A vulnerability record of a bill of materials.
pub struct Vulnerability {
    pub affects: Option<Vec<VulnerabilityItemAffects>>,
    pub analysis: Option<VulnerabilityAnalysis>,
    pub bom_ref: Option<String>,
    pub created: Option<String>,
    pub cwes: Option<Vec<i64>>,
    pub description: Option<String>,
    pub detail: Option<String>,
    pub id: Option<String>,
    pub published: Option<String>,
    pub ratings: Option<Vec<Rating>>,
    pub recommendation: Option<String>,
    pub rejected: Option<String>,
    pub source: Option<VulnerabilitySource>,
    pub updated: Option<String>,
    pub workaround: Option<String>,
}

/// A CycloneDX bill of materials.
pub struct CdxBom {
    pub spec_version: String,
    pub components: Option<Vec<Component>>,
    pub vulnerabilities: Option<Vec<Vulnerability>>,
}

} // verus!
