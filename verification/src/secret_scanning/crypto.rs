//! The calls into `base64` and `p256` that signature checking makes. Signatures and
//! keys travel between them as bytes: a signature as the fixed-size concatenation of
//! its `r` and `s` scalars, a public key as its uncompressed SEC1 point encoding.

use vstd::prelude::*;
use base64::Engine;
use p256::ecdsa::signature::Verifier;
use std::str::FromStr;

verus! {

/// What the standard base64 alphabet (with padding) decodes `input` to, if it is
/// valid base64 at all.
pub uninterp spec fn base64_standard_decoding(input: Seq<u8>) -> Option<Seq<u8>>;

/// The fixed-size (`r` followed by `s`) bytes of the ECDSA P-256 signature that `der`
/// encodes in ASN.1 DER, if it encodes one.
pub uninterp spec fn p256_signature_bytes(der: Seq<u8>) -> Option<Seq<u8>>;

/// The uncompressed SEC1 encoding of the P-256 public key that `pem` holds in PEM
/// form, if it holds one.
pub uninterp spec fn p256_public_key_point(pem: Seq<char>) -> Option<Seq<u8>>;

/// Whether `signature` is a valid ECDSA signature of the SHA-256 digest of `payload`
/// under the P-256 public key `point`.
pub uninterp spec fn p256_signature_valid(point: Seq<u8>, payload: Seq<u8>, signature: Seq<u8>) -> bool;

/// The `Debug` text of the `base64::DecodeError` that decoding `input` fails with.
pub uninterp spec fn base64_decode_error_text(input: Seq<u8>) -> Seq<char>;

/// The `Debug` text of the error that reading `der` as a DER-encoded P-256 signature
/// fails with.
pub uninterp spec fn der_signature_error_text(der: Seq<u8>) -> Seq<char>;

/// The `Debug` text of the error that checking `signature` of `payload` under the key
/// `point` fails with.
pub uninterp spec fn p256_verify_error_text(point: Seq<u8>, payload: Seq<u8>, signature: Seq<u8>) -> Seq<char>;

/// `base64::engine::general_purpose::STANDARD.decode`: the decoded bytes when the
/// input is valid base64; otherwise the `Debug` text of the `DecodeError`.
#[verifier::external_body]
pub(crate) fn base64_decode(input: &[u8]) -> (r: Result<Vec<u8>, String>)
    ensures
        r is Ok == base64_standard_decoding(input@) is Some,
        r matches Ok(v) ==> Some(v@) == base64_standard_decoding(input@),
        r matches Err(t) ==> t@ == base64_decode_error_text(input@),
{
    match base64::engine::general_purpose::STANDARD.decode(input) {
        Ok(v) => Ok(v),
        Err(e) => Err(format!("{e:?}")),
    }
}

/// `p256::ecdsa::Signature::from_der`, the signature converted to its fixed-size bytes
/// by `Signature::to_bytes`: succeeds exactly on DER encodings of P-256 signatures;
/// on failure, the `Debug` text of the error.
#[verifier::external_body]
pub(crate) fn signature_from_der(der: &[u8]) -> (r: Result<Vec<u8>, String>)
    ensures
        r is Ok == p256_signature_bytes(der@) is Some,
        r matches Ok(v) ==> Some(v@) == p256_signature_bytes(der@),
        r matches Err(t) ==> t@ == der_signature_error_text(der@),
{
    match p256::ecdsa::Signature::from_der(der) {
        Ok(s) => Ok(s.to_bytes().to_vec()),
        Err(e) => Err(format!("{e:?}")),
    }
}

/// `<p256::PublicKey as FromStr>::from_str`, which reads a PEM-encoded public key;
/// the key is converted by `VerifyingKey::from` and `to_encoded_point(false)` to its
/// uncompressed SEC1 bytes. Succeeds exactly on PEM-encoded P-256 public keys.
#[verifier::external_body]
pub(crate) fn public_key_point_from_pem(pem: &str) -> (r: Option<Vec<u8>>)
    ensures
        r is Some == p256_public_key_point(pem@) is Some,
        r matches Some(v) ==> Some(v@) == p256_public_key_point(pem@),
{
    match p256::PublicKey::from_str(pem) {
        Ok(k) => Some(p256::ecdsa::VerifyingKey::from(&k).to_encoded_point(false).as_bytes().to_vec()),
        Err(_) => None,
    }
}

/// `Verifier::verify` of `p256::ecdsa::VerifyingKey`: succeeds exactly when
/// `signature` is a valid signature of `payload` under the key `point`. The key and
/// the signature are converted back with `VerifyingKey::from_sec1_bytes` and
/// `Signature::from_slice`, which accept every encoding that the two functions above
/// produce, as `requires` demands. On failure, the `Debug` text of the error.
#[verifier::external_body]
pub(crate) fn verify_p256_signature(point: &[u8], payload: &[u8], signature: &[u8]) -> (r: Result<(), String>)
    requires
        exists|pem: Seq<char>| #[trigger] p256_public_key_point(pem) == Some(point@),
        exists|der: Seq<u8>| #[trigger] p256_signature_bytes(der) == Some(signature@),
    ensures
        r is Ok == p256_signature_valid(point@, payload@, signature@),
        r matches Err(t) ==> t@ == p256_verify_error_text(point@, payload@, signature@),
{
    let key = p256::ecdsa::VerifyingKey::from_sec1_bytes(point).unwrap();
    let sig = p256::ecdsa::Signature::from_slice(signature).unwrap();
    match key.verify(payload, &sig) {
        Ok(()) => Ok(()),
        Err(e) => Err(format!("{e:?}")),
    }
}

} // verus!
