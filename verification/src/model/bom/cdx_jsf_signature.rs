//! JSON Signature Format (JSF) parts of a bill of materials.

use vstd::prelude::*;

verus! {

/// A JSF signature.
#[allow(non_snake_case)]
pub struct JsfSignature {
    pub algorithm: String,
    pub keyId: Option<String>,
    pub publicKey: Option<String>,
    pub certificatePath: Option<String>,
    pub value: String,
}

/// A JSF public key.
pub struct JsfPublicKey {
    pub kty: Option<String>,
    pub crv: Option<String>,
    pub x: Option<String>,
    pub y: Option<String>,
    pub n: Option<String>,
    pub e: Option<String>,
}

} // verus!
