//! The digest, the text encoding and the signature that the header rests on,
//! and the key material that signs.

use base64::Engine;
use rsa::pkcs1::DecodeRsaPrivateKey;
use rsa::signature::{SignatureEncoding, Signer};
use sha1::Digest;
use vstd::prelude::*;

pub use base64;
pub use chrono;
pub use rsa;
pub use sha1;

pub use crate::wssu_id::WSSUId;

verus! {

/// Why a key could not sign.
#[derive(Clone, Copy, Debug, PartialEq, Eq, Structural)]
pub enum KeyError {
    /// The bytes are not the PKCS#1 DER encoding of a consistent two-prime
    /// RSA private key.
    Malformed,
    /// The key was read, but its modulus cannot hold a padded SHA-1 digest.
    Unusable,
}

/// An RSA private key, held as its PKCS#1 DER encoding.
#[derive(Clone, Debug)]
pub struct PrivateKey {
    /// The `RSAPrivateKey` structure of RFC 8017 in DER.
    pub pkcs1_der: Vec<u8>,
}

/// A private key bound to RSASSA-PKCS1-v1_5 with SHA-1.
#[derive(Clone, Debug)]
pub struct SigningKey {
    /// The key that signs.
    pub private_key: PrivateKey,
}

/// The SHA-1 digest of a byte string.
pub uninterp spec fn sha1_of(data: Seq<u8>) -> Seq<u8>;

/// The base64 text of a byte string: standard alphabet, with padding.
pub uninterp spec fn base64_of(data: Seq<u8>) -> Seq<char>;

/// The RSASSA-PKCS1-v1_5 signature with SHA-1 of `message` under the key
/// that `key_der` encodes, or the reason why there is none.
pub uninterp spec fn pkcs1v15_sha1_signature(key_der: Seq<u8>, message: Seq<u8>) -> Result<
    Seq<u8>,
    KeyError,
>;

/// `sha1::Sha1::digest` (the one-shot form of `Digest`) hashes the whole
/// input; the output is the 20-byte SHA-1 digest, a function of the input.
#[verifier::external_body]
pub(crate) fn sha1_digest(data: &[u8]) -> (digest: Vec<u8>)
    ensures
        digest@ == sha1_of(data@),
        digest@.len() == 20,
{
    sha1::Sha1::digest(data).to_vec()
}

/// `base64::Engine::encode` on `general_purpose::STANDARD` encodes the
/// whole input; the text is a function of the input.
#[verifier::external_body]
pub(crate) fn base64_encode(data: &[u8]) -> (text: String)
    ensures
        text@ == base64_of(data@),
{
    base64::engine::general_purpose::STANDARD.encode(data)
}

/// Reads the key with `rsa::RsaPrivateKey::from_pkcs1_der`, binds it with
/// `rsa::pkcs1v15::SigningKey::<Sha1>::new` and signs with
/// `Signer::try_sign`, which uses no randomness: the signature bytes, or
/// the step that failed, are a function of the key bytes and the message.
#[verifier::external_body]
pub(crate) fn rsa_sha1_sign(key_der: &[u8], message: &[u8]) -> (signed: Result<Vec<u8>, KeyError>)
    ensures
        match signed {
            Ok(raw) => pkcs1v15_sha1_signature(key_der@, message@) == Ok::<Seq<u8>, KeyError>(
                raw@,
            ),
            Err(e) => pkcs1v15_sha1_signature(key_der@, message@) == Err::<Seq<u8>, KeyError>(e),
        },
{
    let key = match rsa::RsaPrivateKey::from_pkcs1_der(key_der) {
        Ok(key) => key,
        Err(_) => return Err(KeyError::Malformed),
    };
    match rsa::pkcs1v15::SigningKey::<sha1::Sha1>::new(key).try_sign(message) {
        Ok(signature) => Ok(signature.to_vec()),
        Err(_) => Err(KeyError::Unusable),
    }
}

impl View for PrivateKey {
    type V = Seq<u8>;

    open spec fn view(&self) -> Seq<u8> {
        self.pkcs1_der@
    }
}

impl View for SigningKey {
    type V = Seq<u8>;

    open spec fn view(&self) -> Seq<u8> {
        self.private_key@
    }
}

impl PrivateKey {
    /// Holds the PKCS#1 DER bytes of a key. Nothing is checked here: a
    /// malformed key shows when it is asked to sign.
    pub fn from_pkcs1_der(pkcs1_der: Vec<u8>) -> (key: Self)
        ensures
            key@ == pkcs1_der@,
    {
        PrivateKey { pkcs1_der }
    }
}

impl SigningKey {
    /// Binds a private key to RSASSA-PKCS1-v1_5 with SHA-1.
    pub fn new(private_key: PrivateKey) -> (key: Self)
        ensures
            key@ == private_key@,
    {
        SigningKey { private_key }
    }
}

/// The text that stands in `DigestValue` for a serialized element: the
/// base64 of the SHA-1 of its UTF-8 bytes.
pub open spec fn digest_text(xml: Seq<char>) -> Seq<char> {
    base64_of(sha1_of(vstd::utf8::encode_utf8(xml)))
}

/// The text that stands in `SignatureValue` for a serialized element signed
/// with `key_der`: the base64 of the signature over its UTF-8 bytes.
pub open spec fn signature_text(xml: Seq<char>, key_der: Seq<u8>) -> Result<Seq<char>, KeyError> {
    match pkcs1v15_sha1_signature(key_der, vstd::utf8::encode_utf8(xml)) {
        Ok(raw) => Ok(base64_of(raw)),
        Err(e) => Err(e),
    }
}

/// Digests the exact bytes of `xml` and encodes the digest for
/// `DigestValue`.
pub fn digest_value_of(xml: &str) -> (value: String)
    ensures
        value@ == digest_text(xml@),
{
    let digest = sha1_digest(xml.as_bytes());
    base64_encode(digest.as_slice())
}

/// Signs the exact bytes of `xml` and encodes the signature for
/// `SignatureValue`.
pub fn signature_value_of(xml: &str, signing_key: &SigningKey) -> (value: Result<String, KeyError>)
    ensures
        match value {
            Ok(text) => signature_text(xml@, signing_key@) == Ok::<Seq<char>, KeyError>(text@),
            Err(e) => signature_text(xml@, signing_key@) == Err::<Seq<char>, KeyError>(e),
        },
{
    match rsa_sha1_sign(signing_key.private_key.pkcs1_der.as_slice(), xml.as_bytes()) {
        Ok(raw) => Ok(base64_encode(raw.as_slice())),
        Err(e) => Err(e),
    }
}

} // verus!
