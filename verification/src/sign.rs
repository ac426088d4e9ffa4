//! Signing the signature metadata block.

use vstd::prelude::*;

use crate::crypto::{signature_text, signature_value_of, KeyError, PrivateKey, SigningKey};
use crate::signed_info::SignedInfo;

verus! {

impl SignedInfo {
    /// Signs the serialized block with an RSA private key.
    pub fn sign_with_private_key(&self, private_key: PrivateKey) -> (value: Result<
        String,
        KeyError,
    >)
        ensures
            match value {
                Ok(text) => signature_text(self.xml_text(), private_key@) == Ok::<
                    Seq<char>,
                    KeyError,
                >(text@),
                Err(e) => signature_text(self.xml_text(), private_key@) == Err::<
                    Seq<char>,
                    KeyError,
                >(e),
            },
    {
        let signing_key = SigningKey::new(private_key);
        self.sign_with_signing_key(&signing_key)
    }

    /// Signs the serialized block with a key already bound to
    /// RSASSA-PKCS1-v1_5 and SHA-1: the base64 of the signature over the
    /// exact bytes that [`SignedInfo::xml`] gives, or the key's fault.
    pub fn sign_with_signing_key(&self, signing_key: &SigningKey) -> (value: Result<
        String,
        KeyError,
    >)
        ensures
            match value {
                Ok(text) => signature_text(self.xml_text(), signing_key@) == Ok::<
                    Seq<char>,
                    KeyError,
                >(text@),
                Err(e) => signature_text(self.xml_text(), signing_key@) == Err::<
                    Seq<char>,
                    KeyError,
                >(e),
            },
    {
        let xml = self.xml();
        signature_value_of(xml.as_str(), signing_key)
    }
}

} // verus!
