//! The complete security header and the certificate token inside it.

use vstd::prelude::*;

use crate::crypto::{signature_text, KeyError};
use crate::signed_info::SignedInfo;
use crate::timestamp::Timestamp;
use crate::wssu_id::WSSUId;

verus! {

/// The `Security` element around its parts, in order: the serialized
/// timestamp; the certificate token with identifier `token_id`; the
/// signature with the serialized metadata block, the signature value and a
/// key reference whose URI is `token_uri`. One line, attributes in a fixed
/// order, every text inserted as it is.
pub open spec fn security_xml(
    timestamp: Seq<char>,
    token_id: Seq<char>,
    certificate: Seq<char>,
    signed_info: Seq<char>,
    signature: Seq<char>,
    token_uri: Seq<char>,
) -> Seq<char> {
    "<wsse:Security xmlns:soap=\"http://schemas.xmlsoap.org/soap/envelope/\" xmlns:wsse=\"http://docs.oasis-open.org/wss/2004/01/oasis-200401-wss-wssecurity-secext-1.0.xsd\" soap:mustUnderstand=\"1\">"@
        + timestamp
        + "<wsse:BinarySecurityToken xmlns:wssu=\"http://docs.oasis-open.org/wss/2004/01/oasis-200401-wss-wssecurity-utility-1.0.xsd\" EncodingType=\"http://docs.oasis-open.org/wss/2004/01/oasis-200401-wss-soap-message-security-1.0#Base64Binary\" ValueType=\"http://docs.oasis-open.org/wss/2004/01/oasis-200401-wss-x509-token-profile-1.0#X509v3\" wssu:Id=\""@
        + token_id + "\">"@ + certificate
        + "</wsse:BinarySecurityToken><dsig:Signature xmlns:dsig=\"http://www.w3.org/2000/09/xmldsig#\">"@
        + signed_info + "<dsig:SignatureValue>"@ + signature
        + "</dsig:SignatureValue><dsig:KeyInfo><wsse:SecurityTokenReference><wsse:Reference URI=\""@
        + token_uri
        + "\" ValueType=\"http://docs.oasis-open.org/wss/2004/01/oasis-200401-wss-x509-token-profile-1.0#X509v3\"></wsse:Reference></wsse:SecurityTokenReference></dsig:KeyInfo></dsig:Signature></wsse:Security>"@
}

/// Writes the `Security` element from the texts of its parts.
pub fn render_security(
    timestamp: &str,
    token_id: &str,
    certificate: &str,
    signed_info: &str,
    signature: &str,
    token_uri: &str,
) -> (xml: String)
    ensures
        xml@ == security_xml(
            timestamp@,
            token_id@,
            certificate@,
            signed_info@,
            signature@,
            token_uri@,
        ),
{
    let mut out = String::from_str(
        "<wsse:Security xmlns:soap=\"http://schemas.xmlsoap.org/soap/envelope/\" xmlns:wsse=\"http://docs.oasis-open.org/wss/2004/01/oasis-200401-wss-wssecurity-secext-1.0.xsd\" soap:mustUnderstand=\"1\">",
    );
    out.append(timestamp);
    out.append(
        "<wsse:BinarySecurityToken xmlns:wssu=\"http://docs.oasis-open.org/wss/2004/01/oasis-200401-wss-wssecurity-utility-1.0.xsd\" EncodingType=\"http://docs.oasis-open.org/wss/2004/01/oasis-200401-wss-soap-message-security-1.0#Base64Binary\" ValueType=\"http://docs.oasis-open.org/wss/2004/01/oasis-200401-wss-x509-token-profile-1.0#X509v3\" wssu:Id=\"",
    );
    out.append(token_id);
    out.append("\">");
    out.append(certificate);
    out.append(
        "</wsse:BinarySecurityToken><dsig:Signature xmlns:dsig=\"http://www.w3.org/2000/09/xmldsig#\">",
    );
    out.append(signed_info);
    out.append("<dsig:SignatureValue>");
    out.append(signature);
    out.append(
        "</dsig:SignatureValue><dsig:KeyInfo><wsse:SecurityTokenReference><wsse:Reference URI=\"",
    );
    out.append(token_uri);
    out.append(
        "\" ValueType=\"http://docs.oasis-open.org/wss/2004/01/oasis-200401-wss-x509-token-profile-1.0#X509v3\"></wsse:Reference></wsse:SecurityTokenReference></dsig:KeyInfo></dsig:Signature></wsse:Security>",
    );
    out
}

/// A complete WS-Security SOAP header.
#[derive(Clone, Debug)]
pub struct Security<'a> {
    /// Timestamp defining the message validity window.
    pub timestamp: Timestamp,
    /// Base64-encoded X.509 certificate.
    pub binary_security_token: BinarySecurityToken<'a>,
    /// XML Signature metadata referencing the timestamp.
    pub signed_info: SignedInfo,
    /// Base64-encoded RSA signature value.
    pub signature: String,
}

/// The binary security token: the signer's certificate under an identifier
/// of its own, by which the signature's key reference finds it.
#[derive(Clone, Debug)]
pub struct BinarySecurityToken<'a> {
    /// The base64 certificate, kept as it was given.
    pub binary_security_token: &'a str,
    /// The identifier that the element carries in `wssu:Id`.
    pub wssu_id: WSSUId,
}

impl<'a> BinarySecurityToken<'a> {
    /// Wraps the base64 certificate under a fresh identifier. The
    /// certificate is not inspected.
    pub fn new(binary_security_token: &'a str) -> (token: Self)
        ensures
            token.binary_security_token@ == binary_security_token@,
            token.wssu_id.generated_shape(),
    {
        BinarySecurityToken { binary_security_token, wssu_id: WSSUId::new() }
    }

    /// The reference form, `#uuid-{id}-{suffix}`, of a fresh identifier.
    pub fn uuid() -> (text: String)
        ensures
            exists|id: WSSUId| id.generated_shape() && text@ == #[trigger] id.reference_form(),
    {
        let id = WSSUId::new();
        let text = id.with_hash().to_string();
        assert(id.generated_shape() && text@ == id.reference_form());
        text
    }
}

impl<'a> Security<'a> {
    /// The parts agree with each other: the timestamp can be serialized and
    /// the metadata block is the one computed over it.
    pub open spec fn consistent(&self) -> bool {
        &&& self.timestamp.wf()
        &&& self.signed_info.covers(self.timestamp)
    }

    /// The signature value is the signature of the serialized metadata
    /// block under the key that `key_der` encodes.
    pub open spec fn signed_by(&self, key_der: Seq<u8>) -> bool {
        signature_text(self.signed_info.xml_text(), key_der) == Ok::<Seq<char>, KeyError>(
            self.signature@,
        )
    }

    /// The serialized header.
    pub open spec fn xml_text(&self) -> Seq<char> {
        security_xml(
            self.timestamp.xml_text(),
            self.binary_security_token.wssu_id.bare_form(),
            self.binary_security_token.binary_security_token@,
            self.signed_info.xml_text(),
            self.signature@,
            self.binary_security_token.wssu_id.reference_form(),
        )
    }

    /// Serializes the header. The timestamp and the metadata block appear
    /// exactly as they were digested and signed.
    pub fn xml(&self) -> (xml: String)
        requires
            self.timestamp.wf(),
        ensures
            xml@ == self.xml_text(),
    {
        let timestamp = self.timestamp.xml();
        let token_id = self.binary_security_token.wssu_id.no_hash().to_string();
        let signed_info = self.signed_info.xml();
        let token_uri = self.binary_security_token.wssu_id.with_hash().to_string();
        render_security(
            timestamp.as_str(),
            token_id.as_str(),
            self.binary_security_token.binary_security_token,
            signed_info.as_str(),
            self.signature.as_str(),
            token_uri.as_str(),
        )
    }
}

} // verus!
