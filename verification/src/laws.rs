//! What holds of the header for every input, stated over the serialized
//! texts.

use vstd::prelude::*;

use crate::crypto::{signature_text, SigningKey};
use crate::security::Security;
use crate::signed_info::SignedInfo;
use crate::text::{decimal, digit_char, digit_index, hex_char, hyphenated_hex, nibble};
use crate::timestamp::Timestamp;
use crate::wssu_id::WSSUId;

verus! {

/// `value` stands in `text` as a quoted attribute value that opens at
/// `start`: a quote before it, a quote after it and none inside.
pub open spec fn quoted_at(text: Seq<char>, start: int, value: Seq<char>) -> bool {
    &&& 0 < start
    &&& start + value.len() < text.len()
    &&& text[start - 1] == '"'
    &&& text.subrange(start, start + value.len()) == value
    &&& text[start + value.len()] == '"'
    &&& forall|i: int| 0 <= i < value.len() ==> value[i] != '"'
}

/// Where the identifier opens in a serialized timestamp.
pub open spec fn timestamp_id_at() -> int {
    "<wssu:Timestamp xmlns:wssu=\"http://docs.oasis-open.org/wss/2004/01/oasis-200401-wss-wssecurity-utility-1.0.xsd\" wssu:Id=\""@.len() as int
}

/// Where the reference URI opens in a serialized metadata block.
pub open spec fn reference_uri_at() -> int {
    "<dsig:SignedInfo xmlns:dsig=\"http://www.w3.org/2000/09/xmldsig#\"><dsig:CanonicalizationMethod Algorithm=\"http://www.w3.org/2001/10/xml-exc-c14n#\"></dsig:CanonicalizationMethod><dsig:SignatureMethod Algorithm=\"http://www.w3.org/2000/09/xmldsig#rsa-sha1\"></dsig:SignatureMethod><dsig:Reference URI=\""@.len() as int
}

/// Where the token's identifier opens in a serialized header whose
/// timestamp serializes to `timestamp`.
pub open spec fn token_id_at(timestamp: Seq<char>) -> int {
    ("<wsse:Security xmlns:soap=\"http://schemas.xmlsoap.org/soap/envelope/\" xmlns:wsse=\"http://docs.oasis-open.org/wss/2004/01/oasis-200401-wss-wssecurity-secext-1.0.xsd\" soap:mustUnderstand=\"1\">"@
        + timestamp
        + "<wsse:BinarySecurityToken xmlns:wssu=\"http://docs.oasis-open.org/wss/2004/01/oasis-200401-wss-wssecurity-utility-1.0.xsd\" EncodingType=\"http://docs.oasis-open.org/wss/2004/01/oasis-200401-wss-soap-message-security-1.0#Base64Binary\" ValueType=\"http://docs.oasis-open.org/wss/2004/01/oasis-200401-wss-x509-token-profile-1.0#X509v3\" wssu:Id=\""@).len() as int
}

/// Where the key reference's URI opens in a serialized header, given the
/// texts that stand before it.
pub open spec fn key_reference_at(
    timestamp: Seq<char>,
    token_id: Seq<char>,
    certificate: Seq<char>,
    signed_info: Seq<char>,
    signature: Seq<char>,
) -> int {
    token_id_at(timestamp) + token_id.len() + "\">"@.len() + certificate.len()
        + "</wsse:BinarySecurityToken><dsig:Signature xmlns:dsig=\"http://www.w3.org/2000/09/xmldsig#\">"@.len()
        + signed_info.len() + "<dsig:SignatureValue>"@.len() + signature.len()
        + "</dsig:SignatureValue><dsig:KeyInfo><wsse:SecurityTokenReference><wsse:Reference URI=\""@.len()
}

/// Every character of a decimal numeral is a digit.
pub proof fn decimal_is_digits(n: nat)
    ensures
        decimal(n).len() >= 1,
        forall|i: int| 0 <= i < decimal(n).len() ==> '0' <= #[trigger] decimal(n)[i] <= '9',
    decreases n,
{
    if n >= 10 {
        decimal_is_digits(n / 10);
    }
}

/// Every character of the hyphenated form is a hyphen or a lower-case
/// hexadecimal digit.
pub proof fn hyphenated_hex_alphabet(id: u128)
    ensures
        hyphenated_hex(id).len() == 36,
        forall|i: int|
            0 <= i < 36 ==> {
                let c = #[trigger] hyphenated_hex(id)[i];
                c == '-' || ('0' <= c <= '9') || ('a' <= c <= 'f')
            },
{
    assert forall|i: int| 0 <= i < 36 implies {
        let c = #[trigger] hyphenated_hex(id)[i];
        c == '-' || ('0' <= c <= '9') || ('a' <= c <= 'f')
    } by {
        if !(i == 8 || i == 13 || i == 18 || i == 23) {
            let shift = (124 - 4 * digit_index(i)) as u32;
            assert(((id >> shift) & 0xf) < 16) by (bit_vector);
            let n = nibble(id, digit_index(i));
            assert(0 <= n < 16);
            assert(hyphenated_hex(id)[i] == hex_char(n));
        }
    }
}

/// The reference form of an identifier is `#` followed by its bare form,
/// and neither form holds a quote: what a reference points at is decided by
/// the identifier alone.
pub proof fn reference_form_is_hash_and_bare_form(id: WSSUId)
    ensures
        id.reference_form() == seq!['#'] + id.bare_form(),
        id.reference_form().len() == id.bare_form().len() + 1,
        id.reference_form()[0] == '#',
        forall|i: int| 0 <= i < id.bare_form().len() ==> #[trigger] id.bare_form()[i] != '"',
        forall|i: int|
            0 <= i < id.reference_form().len() ==> #[trigger] id.reference_form()[i] != '"',
{
    reveal_strlit("#");
    reveal_strlit("uuid-");
    reveal_strlit("-");
    hyphenated_hex_alphabet(id.uuid);
    decimal_is_digits(id.ending as nat);
    let hex = hyphenated_hex(id.uuid);
    let dec = decimal(id.ending as nat);
    let bare = id.bare_form();
    assert("#"@ =~= seq!['#']);
    assert(bare.len() == 5 + 36 + 1 + dec.len());
    assert forall|i: int| 0 <= i < bare.len() implies #[trigger] bare[i] != '"' by {
        if i < 5 {
            assert(bare[i] == "uuid-"@[i]);
        } else if i < 41 {
            assert(bare[i] == hex[i - 5]);
        } else if i < 42 {
            assert(bare[i] == "-"@[i - 41]);
        } else {
            assert(bare[i] == dec[i - 42]);
        }
    }
    let reference = id.reference_form();
    assert forall|i: int| 0 <= i < reference.len() implies #[trigger] reference[i] != '"' by {
        if i > 0 {
            assert(reference[i] == bare[i - 1]);
        }
    }
}

/// The place, in the hyphenated form, of the `k`-th hexadecimal digit.
pub open spec fn digit_place(k: int) -> int {
    if k < 8 {
        k
    } else if k < 12 {
        k + 1
    } else if k < 16 {
        k + 2
    } else if k < 20 {
        k + 3
    } else {
        k + 4
    }
}

/// Distinct numbers have distinct decimal numerals.
pub proof fn decimal_is_injective(a: nat, b: nat)
    requires
        decimal(a) == decimal(b),
    ensures
        a == b,
    decreases a,
{
    decimal_is_digits(a);
    decimal_is_digits(b);
    if a < 10 && b < 10 {
        assert(decimal(a)[0] == digit_char(a as int));
        assert(decimal(b)[0] == digit_char(b as int));
        assert(digit_char(a as int) as int == 48 + a);
        assert(digit_char(b as int) as int == 48 + b);
    } else if a < 10 {
        decimal_is_digits(b / 10);
        assert(decimal(b).len() >= 2);
    } else if b < 10 {
        decimal_is_digits(a / 10);
        assert(decimal(a).len() >= 2);
    } else {
        let upper_a = decimal(a / 10);
        let upper_b = decimal(b / 10);
        assert(decimal(a).drop_last() =~= upper_a);
        assert(decimal(b).drop_last() =~= upper_b);
        decimal_is_injective(a / 10, b / 10);
        assert(decimal(a).last() == digit_char((a % 10) as int));
        assert(decimal(b).last() == digit_char((b % 10) as int));
        assert(digit_char((a % 10) as int) as int == 48 + a % 10);
        assert(digit_char((b % 10) as int) as int == 48 + b % 10);
    }
}

/// Distinct 128-bit identifiers have distinct hyphenated forms.
pub proof fn hyphenated_hex_is_injective(a: u128, b: u128)
    requires
        hyphenated_hex(a) == hyphenated_hex(b),
    ensures
        a == b,
{
    assert forall|k: int| 0 <= k < 32 implies nibble(a, k) == nibble(b, k) by {
        let i = digit_place(k);
        let shift = (124 - 4 * k) as u32;
        assert(((a >> shift) & 0xf) < 16) by (bit_vector);
        assert(((b >> shift) & 0xf) < 16) by (bit_vector);
        assert(digit_index(i) == k);
        assert(hyphenated_hex(a)[i] == hex_char(nibble(a, k)));
        assert(hyphenated_hex(b)[i] == hex_char(nibble(b, k)));
        let x = nibble(a, k);
        let y = nibble(b, k);
        assert(hex_char(x) as int == if x < 10 { 48 + x } else { 87 + x });
        assert(hex_char(y) as int == if y < 10 { 48 + y } else { 87 + y });
    }
    assert(nibble(a, 0) == nibble(b, 0));
    assert((a >> 124u32) & 0xf == (b >> 124u32) & 0xf);
    assert(nibble(a, 1) == nibble(b, 1));
    assert((a >> 120u32) & 0xf == (b >> 120u32) & 0xf);
    assert(nibble(a, 2) == nibble(b, 2));
    assert((a >> 116u32) & 0xf == (b >> 116u32) & 0xf);
    assert(nibble(a, 3) == nibble(b, 3));
    assert((a >> 112u32) & 0xf == (b >> 112u32) & 0xf);
    assert(nibble(a, 4) == nibble(b, 4));
    assert((a >> 108u32) & 0xf == (b >> 108u32) & 0xf);
    assert(nibble(a, 5) == nibble(b, 5));
    assert((a >> 104u32) & 0xf == (b >> 104u32) & 0xf);
    assert(nibble(a, 6) == nibble(b, 6));
    assert((a >> 100u32) & 0xf == (b >> 100u32) & 0xf);
    assert(nibble(a, 7) == nibble(b, 7));
    assert((a >> 96u32) & 0xf == (b >> 96u32) & 0xf);
    assert(nibble(a, 8) == nibble(b, 8));
    assert((a >> 92u32) & 0xf == (b >> 92u32) & 0xf);
    assert(nibble(a, 9) == nibble(b, 9));
    assert((a >> 88u32) & 0xf == (b >> 88u32) & 0xf);
    assert(nibble(a, 10) == nibble(b, 10));
    assert((a >> 84u32) & 0xf == (b >> 84u32) & 0xf);
    assert(nibble(a, 11) == nibble(b, 11));
    assert((a >> 80u32) & 0xf == (b >> 80u32) & 0xf);
    assert(nibble(a, 12) == nibble(b, 12));
    assert((a >> 76u32) & 0xf == (b >> 76u32) & 0xf);
    assert(nibble(a, 13) == nibble(b, 13));
    assert((a >> 72u32) & 0xf == (b >> 72u32) & 0xf);
    assert(nibble(a, 14) == nibble(b, 14));
    assert((a >> 68u32) & 0xf == (b >> 68u32) & 0xf);
    assert(nibble(a, 15) == nibble(b, 15));
    assert((a >> 64u32) & 0xf == (b >> 64u32) & 0xf);
    assert(nibble(a, 16) == nibble(b, 16));
    assert((a >> 60u32) & 0xf == (b >> 60u32) & 0xf);
    assert(nibble(a, 17) == nibble(b, 17));
    assert((a >> 56u32) & 0xf == (b >> 56u32) & 0xf);
    assert(nibble(a, 18) == nibble(b, 18));
    assert((a >> 52u32) & 0xf == (b >> 52u32) & 0xf);
    assert(nibble(a, 19) == nibble(b, 19));
    assert((a >> 48u32) & 0xf == (b >> 48u32) & 0xf);
    assert(nibble(a, 20) == nibble(b, 20));
    assert((a >> 44u32) & 0xf == (b >> 44u32) & 0xf);
    assert(nibble(a, 21) == nibble(b, 21));
    assert((a >> 40u32) & 0xf == (b >> 40u32) & 0xf);
    assert(nibble(a, 22) == nibble(b, 22));
    assert((a >> 36u32) & 0xf == (b >> 36u32) & 0xf);
    assert(nibble(a, 23) == nibble(b, 23));
    assert((a >> 32u32) & 0xf == (b >> 32u32) & 0xf);
    assert(nibble(a, 24) == nibble(b, 24));
    assert((a >> 28u32) & 0xf == (b >> 28u32) & 0xf);
    assert(nibble(a, 25) == nibble(b, 25));
    assert((a >> 24u32) & 0xf == (b >> 24u32) & 0xf);
    assert(nibble(a, 26) == nibble(b, 26));
    assert((a >> 20u32) & 0xf == (b >> 20u32) & 0xf);
    assert(nibble(a, 27) == nibble(b, 27));
    assert((a >> 16u32) & 0xf == (b >> 16u32) & 0xf);
    assert(nibble(a, 28) == nibble(b, 28));
    assert((a >> 12u32) & 0xf == (b >> 12u32) & 0xf);
    assert(nibble(a, 29) == nibble(b, 29));
    assert((a >> 8u32) & 0xf == (b >> 8u32) & 0xf);
    assert(nibble(a, 30) == nibble(b, 30));
    assert((a >> 4u32) & 0xf == (b >> 4u32) & 0xf);
    assert(nibble(a, 31) == nibble(b, 31));
    assert((a >> 0u32) & 0xf == (b >> 0u32) & 0xf);
    assert(a == b) by (bit_vector)
        requires
            (a >> 124u32) & 0xf == (b >> 124u32) & 0xf,
            (a >> 120u32) & 0xf == (b >> 120u32) & 0xf,
            (a >> 116u32) & 0xf == (b >> 116u32) & 0xf,
            (a >> 112u32) & 0xf == (b >> 112u32) & 0xf,
            (a >> 108u32) & 0xf == (b >> 108u32) & 0xf,
            (a >> 104u32) & 0xf == (b >> 104u32) & 0xf,
            (a >> 100u32) & 0xf == (b >> 100u32) & 0xf,
            (a >> 96u32) & 0xf == (b >> 96u32) & 0xf,
            (a >> 92u32) & 0xf == (b >> 92u32) & 0xf,
            (a >> 88u32) & 0xf == (b >> 88u32) & 0xf,
            (a >> 84u32) & 0xf == (b >> 84u32) & 0xf,
            (a >> 80u32) & 0xf == (b >> 80u32) & 0xf,
            (a >> 76u32) & 0xf == (b >> 76u32) & 0xf,
            (a >> 72u32) & 0xf == (b >> 72u32) & 0xf,
            (a >> 68u32) & 0xf == (b >> 68u32) & 0xf,
            (a >> 64u32) & 0xf == (b >> 64u32) & 0xf,
            (a >> 60u32) & 0xf == (b >> 60u32) & 0xf,
            (a >> 56u32) & 0xf == (b >> 56u32) & 0xf,
            (a >> 52u32) & 0xf == (b >> 52u32) & 0xf,
            (a >> 48u32) & 0xf == (b >> 48u32) & 0xf,
            (a >> 44u32) & 0xf == (b >> 44u32) & 0xf,
            (a >> 40u32) & 0xf == (b >> 40u32) & 0xf,
            (a >> 36u32) & 0xf == (b >> 36u32) & 0xf,
            (a >> 32u32) & 0xf == (b >> 32u32) & 0xf,
            (a >> 28u32) & 0xf == (b >> 28u32) & 0xf,
            (a >> 24u32) & 0xf == (b >> 24u32) & 0xf,
            (a >> 20u32) & 0xf == (b >> 20u32) & 0xf,
            (a >> 16u32) & 0xf == (b >> 16u32) & 0xf,
            (a >> 12u32) & 0xf == (b >> 12u32) & 0xf,
            (a >> 8u32) & 0xf == (b >> 8u32) & 0xf,
            (a >> 4u32) & 0xf == (b >> 4u32) & 0xf,
            (a >> 0u32) & 0xf == (b >> 0u32) & 0xf,
    ;
}

/// An identifier can be read back from its text: two identifiers with the
/// same bare form, or the same reference form, hold the same pair.
pub proof fn forms_determine_the_identifier(a: WSSUId, b: WSSUId)
    requires
        a.bare_form() == b.bare_form() || a.reference_form() == b.reference_form(),
    ensures
        a == b,
{
    reference_form_is_hash_and_bare_form(a);
    reference_form_is_hash_and_bare_form(b);
    if a.reference_form() == b.reference_form() {
        assert(a.bare_form() =~= a.reference_form().subrange(1, a.reference_form().len() as int));
        assert(b.bare_form() =~= b.reference_form().subrange(1, b.reference_form().len() as int));
    }
    reveal_strlit("uuid-");
    reveal_strlit("-");
    hyphenated_hex_alphabet(a.uuid);
    hyphenated_hex_alphabet(b.uuid);
    let whole_a = a.bare_form();
    let whole_b = b.bare_form();
    assert(whole_a.subrange(5, 41) =~= hyphenated_hex(a.uuid));
    assert(whole_b.subrange(5, 41) =~= hyphenated_hex(b.uuid));
    hyphenated_hex_is_injective(a.uuid, b.uuid);
    assert(whole_a.subrange(42, whole_a.len() as int) =~= decimal(a.ending as nat));
    assert(whole_b.subrange(42, whole_b.len() as int) =~= decimal(b.ending as nat));
    decimal_is_injective(a.ending as nat, b.ending as nat);
}

/// A timestamp's serialization is a function of its three fields.
pub proof fn timestamp_xml_is_a_function(a: Timestamp, b: Timestamp)
    requires
        a.created == b.created,
        a.expires == b.expires,
        a.wssu_id == b.wssu_id,
    ensures
        a.xml_text() == b.xml_text(),
{
}

/// Signing the same serialized bytes with the same key bytes gives the same
/// outcome: the same signature value, or the same refusal.
pub proof fn signature_is_a_function(a: SignedInfo, b: SignedInfo, key: SigningKey, again: SigningKey)
    requires
        a.xml_text() == b.xml_text(),
        key@ == again@,
    ensures
        signature_text(a.xml_text(), key@) == signature_text(b.xml_text(), again@),
{
}

/// In the metadata block computed over a timestamp, the reference URI is
/// `#` followed by exactly the identifier that the serialized timestamp
/// carries in its `wssu:Id` attribute.
pub proof fn reference_points_at_timestamp(timestamp: Timestamp, info: SignedInfo)
    requires
        info.covers(timestamp),
    ensures
        quoted_at(timestamp.xml_text(), timestamp_id_at(), timestamp.wssu_id.bare_form()),
        quoted_at(
            info.xml_text(),
            reference_uri_at(),
            seq!['#'] + timestamp.wssu_id.bare_form(),
        ),
{
    let id = timestamp.wssu_id;
    reference_form_is_hash_and_bare_form(id);
    reveal_strlit(
        "<wssu:Timestamp xmlns:wssu=\"http://docs.oasis-open.org/wss/2004/01/oasis-200401-wss-wssecurity-utility-1.0.xsd\" wssu:Id=\"",
    );
    reveal_strlit("\"><wssu:Created>");
    reveal_strlit(
        "<dsig:SignedInfo xmlns:dsig=\"http://www.w3.org/2000/09/xmldsig#\"><dsig:CanonicalizationMethod Algorithm=\"http://www.w3.org/2001/10/xml-exc-c14n#\"></dsig:CanonicalizationMethod><dsig:SignatureMethod Algorithm=\"http://www.w3.org/2000/09/xmldsig#rsa-sha1\"></dsig:SignatureMethod><dsig:Reference URI=\"",
    );
    reveal_strlit(
        "\"><dsig:Transforms><dsig:Transform Algorithm=\"http://www.w3.org/2001/10/xml-exc-c14n#\"></dsig:Transform></dsig:Transforms><dsig:DigestMethod Algorithm=\"http://www.w3.org/2000/09/xmldsig#sha1\"></dsig:DigestMethod><dsig:DigestValue>",
    );
    let bare = id.bare_form();
    let t = timestamp.xml_text();
    assert(t.subrange(timestamp_id_at(), timestamp_id_at() + bare.len()) =~= bare);
    let s = info.xml_text();
    let uri = id.reference_form();
    assert(s.subrange(reference_uri_at(), reference_uri_at() + uri.len()) =~= uri);
}

/// In a serialized header, the key reference's URI is `#` followed by
/// exactly the identifier that the certificate token carries in its
/// `wssu:Id` attribute.
pub proof fn key_reference_points_at_token(security: Security)
    ensures
        quoted_at(
            security.xml_text(),
            token_id_at(security.timestamp.xml_text()),
            security.binary_security_token.wssu_id.bare_form(),
        ),
        quoted_at(
            security.xml_text(),
            key_reference_at(
                security.timestamp.xml_text(),
                security.binary_security_token.wssu_id.bare_form(),
                security.binary_security_token.binary_security_token@,
                security.signed_info.xml_text(),
                security.signature@,
            ),
            seq!['#'] + security.binary_security_token.wssu_id.bare_form(),
        ),
{
    let id = security.binary_security_token.wssu_id;
    reference_form_is_hash_and_bare_form(id);
    reveal_strlit(
        "<wsse:BinarySecurityToken xmlns:wssu=\"http://docs.oasis-open.org/wss/2004/01/oasis-200401-wss-wssecurity-utility-1.0.xsd\" EncodingType=\"http://docs.oasis-open.org/wss/2004/01/oasis-200401-wss-soap-message-security-1.0#Base64Binary\" ValueType=\"http://docs.oasis-open.org/wss/2004/01/oasis-200401-wss-x509-token-profile-1.0#X509v3\" wssu:Id=\"",
    );
    reveal_strlit("\">");
    reveal_strlit(
        "</dsig:SignatureValue><dsig:KeyInfo><wsse:SecurityTokenReference><wsse:Reference URI=\"",
    );
    reveal_strlit(
        "\" ValueType=\"http://docs.oasis-open.org/wss/2004/01/oasis-200401-wss-x509-token-profile-1.0#X509v3\"></wsse:Reference></wsse:SecurityTokenReference></dsig:KeyInfo></dsig:Signature></wsse:Security>",
    );
    let text = security.xml_text();
    let bare = id.bare_form();
    let uri = id.reference_form();
    let at = token_id_at(security.timestamp.xml_text());
    assert(text.subrange(at, at + bare.len()) =~= bare);
    let key_at = key_reference_at(
        security.timestamp.xml_text(),
        bare,
        security.binary_security_token.binary_security_token@,
        security.signed_info.xml_text(),
        security.signature@,
    );
    assert(text.subrange(key_at, key_at + uri.len()) =~= uri);
}

} // verus!
