//! TLS settings of the outgoing HTTP clients.

use vstd::prelude::*;

verus! {

/// Signature schemes a TLS peer may use.
pub enum SignatureScheme {
    EcdsaNistp256Sha256,
    EcdsaNistp384Sha384,
    EcdsaNistp521Sha512,
    Ed25519,
    Ed448,
    RsaPkcs1Sha1,
    RsaPkcs1Sha256,
    RsaPkcs1Sha384,
    RsaPkcs1Sha512,
    RsaPssSha256,
    RsaPssSha384,
    RsaPssSha512,
}

/// The verifier that accepts any server certificate, for development set-ups.
pub struct NoCertificateVerification {}

/// The schemes the accepting verifier announces, in order.
pub open spec fn announced_schemes() -> Seq<SignatureScheme> {
    seq![
        SignatureScheme::EcdsaNistp256Sha256,
        SignatureScheme::EcdsaNistp384Sha384,
        SignatureScheme::EcdsaNistp521Sha512,
        SignatureScheme::Ed25519,
        SignatureScheme::Ed448,
        SignatureScheme::RsaPkcs1Sha1,
        SignatureScheme::RsaPkcs1Sha256,
        SignatureScheme::RsaPkcs1Sha384,
        SignatureScheme::RsaPkcs1Sha512,
        SignatureScheme::RsaPssSha256,
        SignatureScheme::RsaPssSha384,
        SignatureScheme::RsaPssSha512,
    ]
}

impl NoCertificateVerification {
    /// The signature schemes announced: the ECDSA, EdDSA, RSA PKCS#1 and RSA-PSS schemes.
    pub fn supported_verify_schemes(&self) -> (res: Vec<SignatureScheme>)
        ensures
            res@ == announced_schemes(),
    {
        let mut sign: Vec<SignatureScheme> = Vec::new();
        sign.push(SignatureScheme::EcdsaNistp256Sha256);
        sign.push(SignatureScheme::EcdsaNistp384Sha384);
        sign.push(SignatureScheme::EcdsaNistp521Sha512);
        sign.push(SignatureScheme::Ed25519);
        sign.push(SignatureScheme::Ed448);
        sign.push(SignatureScheme::RsaPkcs1Sha1);
        sign.push(SignatureScheme::RsaPkcs1Sha256);
        sign.push(SignatureScheme::RsaPkcs1Sha384);
        sign.push(SignatureScheme::RsaPkcs1Sha512);
        sign.push(SignatureScheme::RsaPssSha256);
        sign.push(SignatureScheme::RsaPssSha384);
        sign.push(SignatureScheme::RsaPssSha512);
        assert(sign@ =~= announced_schemes());
        sign
    }
}

} // verus!
