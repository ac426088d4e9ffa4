//! Reference identifiers that link a signed element to the reference that
//! points at it.

use rand::Rng;
use vstd::prelude::*;

use crate::text::{decimal, hyphenated_hex, push_decimal, push_hyphenated_hex};

verus! {

/// Lowest suffix that a generated identifier carries.
pub const SUFFIX_MIN: u32 = 100;

/// Bound above every suffix that a generated identifier carries.
pub const SUFFIX_END: u32 = 999;

/// Whether `id` has the version and variant bits of a random (version 4) UUID.
pub open spec fn is_random_uuid(id: u128) -> bool {
    id & 0xF000_C000_0000_0000_0000u128 == 0x4000_8000_0000_0000_0000u128
}

/// A cheap copiable identifier for `wssu:Id` attributes.
///
/// [`WSSUId::no_hash`] renders as `uuid-{id}-{suffix}`, the form an element
/// carries; [`WSSUId::with_hash`] renders as `#uuid-{id}-{suffix}`, the form
/// a reference to that element carries. Both are derived from the one stored
/// pair, so they cannot drift apart.
#[derive(Clone, Copy, Debug, PartialEq, Eq, Structural)]
pub struct WSSUId {
    /// The 128-bit identifier, read as a UUID in big-endian order.
    pub uuid: u128,
    /// The numeric suffix.
    pub ending: u32,
}

/// The element-side rendering of an identifier: `uuid-{id}-{suffix}`.
pub struct NoHash(pub u128, pub u32);

/// The reference-side rendering of an identifier: `#uuid-{id}-{suffix}`.
pub struct WithHash(pub u128, pub u32);

/// `uuid::Uuid::new_v4` draws 122 random bits and sets the version to 4 and
/// the variant to RFC 9562; the value is handed over as its big-endian
/// integer (`Uuid::as_u128`). Only the fixed bits are promised.
#[verifier::external_body]
fn random_uuid() -> (id: u128)
    ensures
        is_random_uuid(id),
{
    uuid::Uuid::new_v4().as_u128()
}

/// `rand::Rng::random_range` on the thread-local generator samples the
/// half-open range `low..high`; it panics on an empty range, which the
/// precondition excludes.
#[verifier::external_body]
fn random_below(low: u32, high: u32) -> (n: u32)
    requires
        low < high,
    ensures
        low <= n < high,
{
    rand::rng().random_range(low..high)
}

impl WSSUId {
    /// Whether the identifier has the shape that [`WSSUId::new`] produces.
    pub open spec fn generated_shape(&self) -> bool {
        &&& is_random_uuid(self.uuid)
        &&& SUFFIX_MIN <= self.ending < SUFFIX_END
    }

    /// The text `uuid-{id}-{suffix}`.
    pub open spec fn bare_form(&self) -> Seq<char> {
        "uuid-"@ + hyphenated_hex(self.uuid) + "-"@ + decimal(self.ending as nat)
    }

    /// The text `#uuid-{id}-{suffix}`.
    pub open spec fn reference_form(&self) -> Seq<char> {
        "#"@ + self.bare_form()
    }

    /// Generates a fresh identifier from a random UUID and a random
    /// three-digit suffix.
    pub fn new() -> (id: Self)
        ensures
            id.generated_shape(),
    {
        let uuid = random_uuid();
        let ending = random_below(SUFFIX_MIN, SUFFIX_END);
        WSSUId { uuid, ending }
    }

    /// The rendering without the leading `#`.
    pub fn no_hash(self) -> (form: NoHash)
        ensures
            form.0 == self.uuid,
            form.1 == self.ending,
            form@ == self.bare_form(),
    {
        NoHash(self.uuid, self.ending)
    }

    /// The rendering with the leading `#`.
    pub fn with_hash(self) -> (form: WithHash)
        ensures
            form.0 == self.uuid,
            form.1 == self.ending,
            form@ == self.reference_form(),
    {
        WithHash(self.uuid, self.ending)
    }
}

impl View for NoHash {
    type V = Seq<char>;

    open spec fn view(&self) -> Seq<char> {
        (WSSUId { uuid: self.0, ending: self.1 }).bare_form()
    }
}

impl View for WithHash {
    type V = Seq<char>;

    open spec fn view(&self) -> Seq<char> {
        (WSSUId { uuid: self.0, ending: self.1 }).reference_form()
    }
}

impl NoHash {
    /// Appends `uuid-{id}-{suffix}` to `out`.
    pub fn write_to(&self, out: &mut String)
        ensures
            final(out)@ == old(out)@ + self@,
    {
        let ghost before = out@;
        out.append("uuid-");
        push_hyphenated_hex(out, self.0);
        out.append("-");
        push_decimal(out, self.1);
        assert(out@ =~= before + self@);
    }

    /// The text `uuid-{id}-{suffix}`.
    pub fn to_string(&self) -> (text: String)
        ensures
            text@ == self@,
    {
        let mut out = String::new();
        self.write_to(&mut out);
        assert(out@ =~= self@);
        out
    }
}

impl WithHash {
    /// Appends `#uuid-{id}-{suffix}` to `out`.
    pub fn write_to(&self, out: &mut String)
        ensures
            final(out)@ == old(out)@ + self@,
    {
        let ghost before = out@;
        out.append("#");
        NoHash(self.0, self.1).write_to(out);
        assert(out@ =~= before + self@);
    }

    /// The text `#uuid-{id}-{suffix}`.
    pub fn to_string(&self) -> (text: String)
        ensures
            text@ == self@,
    {
        let mut out = String::new();
        self.write_to(&mut out);
        assert(out@ =~= self@);
        out
    }
}

impl Default for WSSUId {
    fn default() -> (id: Self)
        ensures
            id.generated_shape(),
    {
        Self::new()
    }
}

} // verus!
