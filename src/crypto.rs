//! The signing key and RSA-SHA256 signing, through openssl.
use vstd::prelude::*;

use crate::error::StorageError;
use vstd::string::StringSliceAdditionalSpecFns;

verus! {

#[verifier::external_type_specification]
#[verifier::external_body]
pub struct ExErrorStack(openssl::error::ErrorStack);

#[verifier::external_type_specification]
#[verifier::external_body]
pub struct ExPrivate(openssl::pkey::Private);

#[verifier::external_type_specification]
#[verifier::external_body]
#[verifier::reject_recursive_types(T)]
pub struct ExPKey<T>(openssl::pkey::PKey<T>);

#[verifier::external_type_specification]
#[verifier::external_body]
#[verifier::reject_recursive_types(T)]
pub struct ExRsa<T>(openssl::rsa::Rsa<T>);

#[verifier::external_type_specification]
#[verifier::external_body]
pub struct ExSigner<'a>(openssl::sign::Signer<'a>);

/// The longest input openssl reads from memory: its buffer length is an `i32`.
pub const PEM_MAX_LEN: usize = 2147483647;

/// Relies on `openssl::rsa::Rsa::private_key_from_pem`: parses a PEM-encoded
/// RSA private key. It asserts that the input fits an `i32` length.
#[verifier::external_body]
fn rsa_private_key_from_pem(pem: &[u8]) -> (r: Result<
    openssl::rsa::Rsa<openssl::pkey::Private>,
    openssl::error::ErrorStack,
>)
    requires
        pem@.len() <= PEM_MAX_LEN,
{
    openssl::rsa::Rsa::private_key_from_pem(pem)
}

/// Relies on `openssl::pkey::PKey::from_rsa`: wraps an RSA key as a generic
/// private key.
#[verifier::external_body]
fn pkey_from_rsa(rsa: openssl::rsa::Rsa<openssl::pkey::Private>) -> (r: Result<
    openssl::pkey::PKey<openssl::pkey::Private>,
    openssl::error::ErrorStack,
>) {
    openssl::pkey::PKey::from_rsa(rsa)
}

/// Relies on `openssl::sign::Signer::new` with the SHA-256 digest: a signer
/// over `key`.
#[verifier::external_body]
fn sha256_signer<'a>(key: &'a openssl::pkey::PKey<openssl::pkey::Private>) -> (r: Result<
    openssl::sign::Signer<'a>,
    openssl::error::ErrorStack,
>) {
    openssl::sign::Signer::new(openssl::hash::MessageDigest::sha256(), key)
}

/// Relies on `openssl::sign::Signer::update`: feeds bytes to the signer.
#[verifier::external_body]
fn signer_update(signer: &mut openssl::sign::Signer, data: &[u8]) -> (r: Result<
    (),
    openssl::error::ErrorStack,
>) {
    signer.update(data)
}

/// Relies on `openssl::sign::Signer::sign_to_vec`: the signature over what
/// was fed.
#[verifier::external_body]
fn signer_sign_to_vec(signer: &openssl::sign::Signer) -> (r: Result<
    Vec<u8>,
    openssl::error::ErrorStack,
>) {
    signer.sign_to_vec()
}

/// Parses a PEM-encoded RSA private key into a signing key. A text longer
/// than openssl reads, and any failure of either step, is `Crypto`.
pub fn signing_key_from_pem(pem: &str) -> (r: Result<
    openssl::pkey::PKey<openssl::pkey::Private>,
    StorageError,
>)
    ensures
        r matches Err(e) ==> e == StorageError::Crypto,
        pem.spec_bytes().len() > PEM_MAX_LEN ==> r is Err,
{
    let bytes = pem.as_bytes();
    if bytes.len() > PEM_MAX_LEN {
        return Err(StorageError::Crypto);
    }
    match rsa_private_key_from_pem(bytes) {
        Ok(rsa) => match pkey_from_rsa(rsa) {
            Ok(key) => Ok(key),
            Err(_) => Err(StorageError::Crypto),
        },
        Err(_) => Err(StorageError::Crypto),
    }
}

/// The RSA-SHA256 signature of `data` under `key`. Any failure is `Crypto`.
pub fn sign_rs256(key: &openssl::pkey::PKey<openssl::pkey::Private>, data: &[u8]) -> (r: Result<
    Vec<u8>,
    StorageError,
>)
    ensures
        r matches Err(e) ==> e == StorageError::Crypto,
{
    let mut signer = match sha256_signer(key) {
        Ok(s) => s,
        Err(_) => return Err(StorageError::Crypto),
    };
    match signer_update(&mut signer, data) {
        Ok(()) => {},
        Err(_) => return Err(StorageError::Crypto),
    }
    match signer_sign_to_vec(&signer) {
        Ok(sig) => Ok(sig),
        Err(_) => Err(StorageError::Crypto),
    }
}

} // verus!
