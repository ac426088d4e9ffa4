//! The signature metadata block: what was digested, how, and the digest.

use vstd::prelude::*;

use crate::crypto::{digest_text, digest_value_of};
use crate::timestamp::Timestamp;
use crate::wssu_id::WSSUId;

verus! {

/// The `SignedInfo` element whose single reference points at `uri` and
/// carries `digest_value`: exclusive canonicalization and RSA-SHA1 are
/// declared, in a fixed order, on one line.
pub open spec fn signed_info_xml(uri: Seq<char>, digest_value: Seq<char>) -> Seq<char> {
    "<dsig:SignedInfo xmlns:dsig=\"http://www.w3.org/2000/09/xmldsig#\"><dsig:CanonicalizationMethod Algorithm=\"http://www.w3.org/2001/10/xml-exc-c14n#\"></dsig:CanonicalizationMethod><dsig:SignatureMethod Algorithm=\"http://www.w3.org/2000/09/xmldsig#rsa-sha1\"></dsig:SignatureMethod><dsig:Reference URI=\""@
        + uri
        + "\"><dsig:Transforms><dsig:Transform Algorithm=\"http://www.w3.org/2001/10/xml-exc-c14n#\"></dsig:Transform></dsig:Transforms><dsig:DigestMethod Algorithm=\"http://www.w3.org/2000/09/xmldsig#sha1\"></dsig:DigestMethod><dsig:DigestValue>"@
        + digest_value + "</dsig:DigestValue></dsig:Reference></dsig:SignedInfo>"@
}

/// Writes the `SignedInfo` element from the reference and the digest text.
pub fn render_signed_info(uri: &str, digest_value: &str) -> (xml: String)
    ensures
        xml@ == signed_info_xml(uri@, digest_value@),
{
    let mut out = String::from_str(
        "<dsig:SignedInfo xmlns:dsig=\"http://www.w3.org/2000/09/xmldsig#\"><dsig:CanonicalizationMethod Algorithm=\"http://www.w3.org/2001/10/xml-exc-c14n#\"></dsig:CanonicalizationMethod><dsig:SignatureMethod Algorithm=\"http://www.w3.org/2000/09/xmldsig#rsa-sha1\"></dsig:SignatureMethod><dsig:Reference URI=\"",
    );
    out.append(uri);
    out.append(
        "\"><dsig:Transforms><dsig:Transform Algorithm=\"http://www.w3.org/2001/10/xml-exc-c14n#\"></dsig:Transform></dsig:Transforms><dsig:DigestMethod Algorithm=\"http://www.w3.org/2000/09/xmldsig#sha1\"></dsig:DigestMethod><dsig:DigestValue>",
    );
    out.append(digest_value);
    out.append("</dsig:DigestValue></dsig:Reference></dsig:SignedInfo>");
    out
}

/// XML Signature metadata containing the digest of the signed content.
#[derive(Clone, Debug)]
pub struct SignedInfo {
    /// Base64-encoded SHA-1 digest of the referenced XML.
    pub digest_value: String,
    /// The identifier of the timestamp that was digested.
    pub timestamp_wssu_id: WSSUId,
}

impl SignedInfo {
    /// Whether this block is the one computed over `timestamp`: it holds
    /// the digest of the timestamp's serialized bytes and refers to the
    /// timestamp's identifier.
    pub open spec fn covers(&self, timestamp: Timestamp) -> bool {
        &&& self.digest_value@ == digest_text(timestamp.xml_text())
        &&& self.timestamp_wssu_id == timestamp.wssu_id
    }

    /// The serialized block that covers `timestamp`.
    pub open spec fn xml_text_over(timestamp: Timestamp) -> Seq<char> {
        signed_info_xml(timestamp.wssu_id.reference_form(), digest_text(timestamp.xml_text()))
    }

    /// The serialized element.
    pub open spec fn xml_text(&self) -> Seq<char> {
        signed_info_xml(self.timestamp_wssu_id.reference_form(), self.digest_value@)
    }

    /// Computes the digest over the serialized timestamp and binds the
    /// block to the timestamp's identifier.
    pub fn new(timestamp: &Timestamp) -> (info: Self)
        requires
            timestamp.wf(),
        ensures
            info.digest_value@ == digest_text(timestamp.xml_text()),
            info.timestamp_wssu_id == timestamp.wssu_id,
            info.covers(*timestamp),
    {
        let xml = timestamp.xml();
        let digest_value = digest_value_of(xml.as_str());
        SignedInfo { digest_value, timestamp_wssu_id: timestamp.wssu_id }
    }

    /// Serializes the block. Equal blocks give equal text.
    pub fn xml(&self) -> (xml: String)
        ensures
            xml@ == self.xml_text(),
    {
        let uri = self.timestamp_wssu_id.with_hash().to_string();
        render_signed_info(uri.as_str(), self.digest_value.as_str())
    }
}

} // verus!
