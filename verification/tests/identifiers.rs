use std::collections::HashSet;

use ws_security::crypto;
use ws_security::text::{push_decimal, push_hyphenated_hex};
use ws_security::wssu_id::{NoHash, WSSUId, WithHash, SUFFIX_END, SUFFIX_MIN};
use ws_security::BinarySecurityToken;

fn fixed() -> WSSUId {
    WSSUId { uuid: 0x67e55044_10b1_426f_9247_bb680e5fe0c8, ending: 123 }
}

fn decimal(n: u32) -> String {
    let mut out = String::new();
    push_decimal(&mut out, n);
    out
}

fn hyphenated(id: u128) -> String {
    let mut out = String::new();
    push_hyphenated_hex(&mut out, id);
    out
}

#[test]
fn bare_form_of_a_fixed_identifier() {
    assert_eq!(fixed().no_hash().to_string(), "uuid-67e55044-10b1-426f-9247-bb680e5fe0c8-123");
}

#[test]
fn reference_form_of_a_fixed_identifier() {
    assert_eq!(fixed().with_hash().to_string(), "#uuid-67e55044-10b1-426f-9247-bb680e5fe0c8-123");
}

#[test]
fn reference_form_is_hash_then_bare_form() {
    for _ in 0..200 {
        let id = WSSUId::new();
        let bare = id.no_hash().to_string();
        let reference = id.with_hash().to_string();
        assert_eq!(reference, format!("#{bare}"));
        assert!(!bare.contains('"'));
    }
}

#[test]
fn renderings_keep_the_pair() {
    let id = fixed();
    let NoHash(uuid, ending) = id.no_hash();
    assert_eq!((uuid, ending), (id.uuid, id.ending));
    let WithHash(uuid, ending) = id.with_hash();
    assert_eq!((uuid, ending), (id.uuid, id.ending));
}

#[test]
fn write_to_appends() {
    let mut out = String::from("Id=");
    fixed().no_hash().write_to(&mut out);
    assert_eq!(out, "Id=uuid-67e55044-10b1-426f-9247-bb680e5fe0c8-123");
    let mut out = String::from("URI=");
    fixed().with_hash().write_to(&mut out);
    assert_eq!(out, "URI=#uuid-67e55044-10b1-426f-9247-bb680e5fe0c8-123");
}

#[test]
fn decimal_numerals() {
    assert_eq!(decimal(0), "0");
    assert_eq!(decimal(7), "7");
    assert_eq!(decimal(10), "10");
    assert_eq!(decimal(100), "100");
    assert_eq!(decimal(998), "998");
    assert_eq!(decimal(1000), "1000");
    assert_eq!(decimal(u32::MAX), "4294967295");
}

#[test]
fn decimal_appends_to_what_is_there() {
    let mut out = String::from("n=");
    push_decimal(&mut out, 42);
    assert_eq!(out, "n=42");
}

#[test]
fn hyphenated_hex_edges() {
    assert_eq!(hyphenated(0), "00000000-0000-0000-0000-000000000000");
    assert_eq!(hyphenated(u128::MAX), "ffffffff-ffff-ffff-ffff-ffffffffffff");
    assert_eq!(
        hyphenated(0x0123_4567_89ab_cdef_fedc_ba98_7654_3210),
        "01234567-89ab-cdef-fedc-ba9876543210"
    );
    assert_eq!(hyphenated(1), "00000000-0000-0000-0000-000000000001");
    assert_eq!(hyphenated(1 << 127), "80000000-0000-0000-0000-000000000000");
}

#[test]
fn hyphenated_hex_agrees_with_uuid() {
    let mut x: u128 = 0x9e37_79b9_7f4a_7c15_f39c_c060_5ced_c834;
    for _ in 0..2000 {
        assert_eq!(hyphenated(x), uuid::Uuid::from_u128(x).to_string());
        x = x.wrapping_mul(0x2545_f491_4f6c_dd1d_0000_0000_0000_0001).wrapping_add(0x1234_5678_9abc_def1);
        x ^= x >> 29;
    }
}

#[test]
fn generated_identifier_has_the_generated_shape() {
    for _ in 0..2000 {
        let id = WSSUId::new();
        assert!(SUFFIX_MIN <= id.ending && id.ending < SUFFIX_END);
        let parsed = uuid::Uuid::from_u128(id.uuid);
        assert_eq!(parsed.get_version_num(), 4);
        assert_eq!(parsed.get_variant(), uuid::Variant::RFC4122);
        let text = id.no_hash().to_string();
        assert_eq!(text.len(), 45);
        assert_eq!(&text[19..20], "4");
        assert!(text[42..].chars().all(|c| c.is_ascii_digit()));
    }
}

#[test]
fn default_generates() {
    let id = WSSUId::default();
    assert!((100..999).contains(&id.ending));
    assert_eq!(uuid::Uuid::from_u128(id.uuid).get_version_num(), 4);
}

#[test]
fn ten_thousand_identifiers_are_distinct() {
    let mut seen = HashSet::new();
    for _ in 0..10_000 {
        let id = WSSUId::new();
        assert!(seen.insert((id.uuid, id.ending)));
    }
    assert_eq!(seen.len(), 10_000);
}

#[test]
fn identifiers_compare_by_their_pair() {
    let a = fixed();
    let b = a;
    assert_eq!(a, b);
    assert_ne!(a, WSSUId { uuid: a.uuid, ending: 124 });
    assert_ne!(a, WSSUId { uuid: a.uuid + 1, ending: 123 });
}

#[test]
fn the_crypto_module_names_the_identifier() {
    let id: crypto::WSSUId = fixed();
    assert_eq!(id.ending, 123);
}

#[test]
fn token_uuid_is_a_reference_form() {
    let text = BinarySecurityToken::uuid();
    assert_eq!(text.len(), 46);
    assert!(text.starts_with("#uuid-"));
    let id = uuid::Uuid::parse_str(&text[6..42]).unwrap();
    assert_eq!(id.get_version_num(), 4);
    assert_eq!(&text[42..43], "-");
    let ending: u32 = text[43..].parse().unwrap();
    assert!((100..999).contains(&ending));
}

#[test]
fn token_wraps_the_certificate_verbatim() {
    let token = BinarySecurityToken::new("MIIB...");
    assert_eq!(token.binary_security_token, "MIIB...");
    assert!((100..999).contains(&token.wssu_id.ending));
    let other = BinarySecurityToken::new("MIIB...");
    assert_ne!(token.wssu_id, other.wssu_id);
}
