//! WS-Security SOAP header assembly: a timestamp, an XML signature over it and
//! the signer's certificate token, linked by generated identifiers.
//!
//! Every serializer is a fixed template, so the bytes that are digested and
//! signed are exactly the bytes that are emitted.

pub mod crypto;
pub mod instant;
pub mod laws;
pub mod new_with_key;
pub mod security;
pub mod sign;
pub mod signed_info;
pub mod text;
pub mod timestamp;
pub mod wssu_id;

pub use new_with_key::SecurityError;
pub use security::BinarySecurityToken;
pub use security::Security;
pub use signed_info::SignedInfo;
pub use timestamp::Timestamp;
