//! Assembling a header: timestamp, digest, signature and token in one pass.

use vstd::prelude::*;

use crate::crypto::{signature_text, KeyError, PrivateKey, SigningKey};
use crate::instant::{representable, utc_now, Duration, UtcInstant, NANOS_PER_SEC};
use crate::security::{BinarySecurityToken, Security};
use crate::signed_info::SignedInfo;
use crate::timestamp::Timestamp;
use crate::wssu_id::WSSUId;

verus! {

/// Minutes for which a header built by the `new_with_*` constructors is
/// valid.
pub const VALIDITY_MINUTES: i64 = 5;

/// Why no header was assembled.
#[derive(Clone, Copy, Debug, PartialEq, Eq, Structural)]
pub enum SecurityError {
    /// The key could not sign.
    Key(KeyError),
    /// The clock stands so late that the expiry is not a representable
    /// instant.
    Expiry,
}

impl<'a> Security<'a> {
    /// Digests `timestamp`, signs the digest block and composes the header.
    /// The result is a function of the three arguments: nothing is drawn
    /// and no clock is read.
    pub fn assemble(
        timestamp: Timestamp,
        binary_security_token: BinarySecurityToken<'a>,
        signing_key: &SigningKey,
    ) -> (made: Result<Self, KeyError>)
        requires
            timestamp.wf(),
        ensures
            match made {
                Ok(s) => {
                    &&& s.timestamp == timestamp
                    &&& s.binary_security_token.binary_security_token@
                        == binary_security_token.binary_security_token@
                    &&& s.binary_security_token.wssu_id == binary_security_token.wssu_id
                    &&& s.consistent()
                    &&& s.signed_by(signing_key@)
                },
                Err(e) => signature_text(SignedInfo::xml_text_over(timestamp), signing_key@)
                    == Err::<Seq<char>, KeyError>(e),
            },
    {
        match Self::digest_and_sign(&timestamp, signing_key) {
            Ok((signed_info, signature)) => Ok(
                Security { signed_info, timestamp, binary_security_token, signature },
            ),
            Err(e) => Err(e),
        }
    }

    /// The digest block over `timestamp` and the signature value over that
    /// block.
    pub fn digest_and_sign(timestamp: &Timestamp, signing_key: &SigningKey) -> (made: Result<
        (SignedInfo, String),
        KeyError,
    >)
        requires
            timestamp.wf(),
        ensures
            match made {
                Ok((signed_info, signature)) => {
                    &&& signed_info.covers(*timestamp)
                    &&& signature_text(signed_info.xml_text(), signing_key@) == Ok::<
                        Seq<char>,
                        KeyError,
                    >(signature@)
                },
                Err(e) => signature_text(SignedInfo::xml_text_over(*timestamp), signing_key@)
                    == Err::<Seq<char>, KeyError>(e),
            },
    {
        let signed_info = SignedInfo::new(timestamp);
        match signed_info.sign_with_signing_key(signing_key) {
            Ok(signature) => Ok((signed_info, signature)),
            Err(e) => Err(e),
        }
    }

    /// Constructs a WS-Security header using an RSA private key.
    pub fn new_with_private_key(binary_security_token: &'a str, private_key: PrivateKey) -> (made:
        Result<Self, SecurityError>)
        ensures
            Self::freshly_made(made, binary_security_token@, private_key@),
    {
        let signing_key = SigningKey::new(private_key);
        Self::new_with_signing_key(binary_security_token, &signing_key)
    }

    /// Constructs a WS-Security header using a preconfigured signing key:
    /// a fresh identifier and a timestamp valid for five minutes from now,
    /// the digest block over it, its signature, and the certificate wrapped
    /// under a second fresh identifier.
    pub fn new_with_signing_key(binary_security_token: &'a str, signing_key: &SigningKey) -> (made:
        Result<Self, SecurityError>)
        ensures
            Self::freshly_made(made, binary_security_token@, signing_key@),
    {
        let created = utc_now();
        let made = Self::new_with_signing_key_at(created, binary_security_token, signing_key);
        assert(created.wf() && Self::made_at(
            made,
            created,
            binary_security_token@,
            signing_key@,
        ));
        made
    }

    /// As [`Security::new_with_signing_key`], with the instant of creation
    /// given instead of read from the clock. The expiry error comes exactly
    /// when five minutes after `created` is not a representable instant.
    pub fn new_with_signing_key_at(
        created: UtcInstant,
        binary_security_token: &'a str,
        signing_key: &SigningKey,
    ) -> (made: Result<Self, SecurityError>)
        requires
            created.wf(),
        ensures
            Self::made_at(made, created, binary_security_token@, signing_key@),
    {
        let timestamp_id = WSSUId::new();
        let validity = Duration::minutes(VALIDITY_MINUTES);
        let timestamp = match Timestamp::starting_at(created, validity, timestamp_id) {
            Some(timestamp) => timestamp,
            None => { return Err(SecurityError::Expiry); },
        };
        match Self::digest_and_sign(&timestamp, signing_key) {
            Ok((signed_info, signature)) => {
                let binary_security_token = BinarySecurityToken::new(binary_security_token);
                Ok(Security { signed_info, timestamp, binary_security_token, signature })
            },
            Err(e) => {
                assert(Self::started(timestamp, created) && signature_text(
                    SignedInfo::xml_text_over(timestamp),
                    signing_key@,
                ) == Err::<Seq<char>, KeyError>(e));
                Err(SecurityError::Key(e))
            },
        }
    }

    /// `timestamp` is one that the constructors make at `created`: valid
    /// for five minutes, under an identifier of the generated shape.
    pub open spec fn started(timestamp: Timestamp, created: UtcInstant) -> bool {
        &&& timestamp.wf()
        &&& timestamp.created == created
        &&& timestamp.validity_nanos() == VALIDITY_MINUTES * 60 * NANOS_PER_SEC
        &&& timestamp.wssu_id.generated_shape()
    }

    /// What holds of every outcome of a constructor that starts the
    /// timestamp at `created`, given the certificate text and the key bytes.
    pub open spec fn made_at(
        made: Result<Self, SecurityError>,
        created: UtcInstant,
        certificate: Seq<char>,
        key_der: Seq<u8>,
    ) -> bool {
        match made {
            Ok(s) => {
                &&& Self::started(s.timestamp, created)
                &&& s.consistent()
                &&& s.signed_by(key_der)
                &&& s.binary_security_token.binary_security_token@ == certificate
                &&& s.binary_security_token.wssu_id.generated_shape()
            },
            Err(SecurityError::Key(e)) => exists|t: Timestamp|
                Self::started(t, created) && signature_text(
                    #[trigger] SignedInfo::xml_text_over(t),
                    key_der,
                ) == Err::<Seq<char>, KeyError>(e),
            Err(SecurityError::Expiry) => !representable(
                created.nanos_since_epoch() + VALIDITY_MINUTES * 60 * NANOS_PER_SEC,
            ),
        }
    }

    /// What holds of every outcome of the constructors that read the clock.
    pub open spec fn freshly_made(
        made: Result<Self, SecurityError>,
        certificate: Seq<char>,
        key_der: Seq<u8>,
    ) -> bool {
        exists|created: UtcInstant| #[trigger]
            created.wf() && Self::made_at(made, created, certificate, key_der)
    }
}

} // verus!
