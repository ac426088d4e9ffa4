//! The validity window of a message and its serialized form.

use vstd::prelude::*;

use crate::instant::{rfc3339_millis, utc_now, Duration, UtcInstant};
use crate::wssu_id::WSSUId;

verus! {

/// The `Timestamp` element with identifier `id` around the two instants'
/// texts: one line, no whitespace between elements, the namespace declared
/// on the element itself.
pub open spec fn timestamp_xml(id: Seq<char>, created: Seq<char>, expires: Seq<char>) -> Seq<
    char,
> {
    "<wssu:Timestamp xmlns:wssu=\"http://docs.oasis-open.org/wss/2004/01/oasis-200401-wss-wssecurity-utility-1.0.xsd\" wssu:Id=\""@
        + id + "\"><wssu:Created>"@ + created + "</wssu:Created><wssu:Expires>"@ + expires
        + "</wssu:Expires></wssu:Timestamp>"@
}

/// Writes the `Timestamp` element from its three texts.
pub fn render_timestamp(id: &str, created: &str, expires: &str) -> (xml: String)
    ensures
        xml@ == timestamp_xml(id@, created@, expires@),
{
    let mut out = String::from_str(
        "<wssu:Timestamp xmlns:wssu=\"http://docs.oasis-open.org/wss/2004/01/oasis-200401-wss-wssecurity-utility-1.0.xsd\" wssu:Id=\"",
    );
    out.append(id);
    out.append("\"><wssu:Created>");
    out.append(created);
    out.append("</wssu:Created><wssu:Expires>");
    out.append(expires);
    out.append("</wssu:Expires></wssu:Timestamp>");
    out
}

/// WS-Security timestamp: when the message was created and when it expires.
#[derive(Clone, Copy, Debug, PartialEq, Eq, Structural)]
pub struct Timestamp {
    /// UTC time when the message was created.
    pub created: UtcInstant,
    /// UTC time when the message expires.
    pub expires: UtcInstant,
    /// The identifier that the element carries in `wssu:Id`.
    pub wssu_id: WSSUId,
}

impl Timestamp {
    /// Both instants are representable.
    pub open spec fn wf(&self) -> bool {
        &&& self.created.wf()
        &&& self.expires.wf()
    }

    /// The span from creation to expiry, in nanoseconds.
    pub open spec fn validity_nanos(&self) -> int {
        self.expires.nanos_since_epoch() - self.created.nanos_since_epoch()
    }

    /// The serialized element.
    pub open spec fn xml_text(&self) -> Seq<char> {
        timestamp_xml(
            self.wssu_id.bare_form(),
            rfc3339_millis(self.created.secs, self.created.nanos),
            rfc3339_millis(self.expires.secs, self.expires.nanos),
        )
    }

    /// Whether both instants, which anyone may set, can be serialized.
    pub fn is_valid(&self) -> (valid: bool)
        ensures
            valid == self.wf(),
    {
        self.created.is_valid() && self.expires.is_valid()
    }

    /// The timestamp created at `created` and valid for `expires_in`, or
    /// `None` if its expiry is not a representable instant. A zero or
    /// negative span is taken as given.
    pub fn starting_at(created: UtcInstant, expires_in: Duration, wssu_id: WSSUId) -> (made: Option<
        Self,
    >)
        requires
            created.wf(),
            expires_in.wf(),
        ensures
            match made {
                Some(t) => {
                    &&& t.wf()
                    &&& t.created == created
                    &&& t.wssu_id == wssu_id
                    &&& t.validity_nanos() == expires_in.total_nanos()
                },
                None => !crate::instant::representable(
                    created.nanos_since_epoch() + expires_in.total_nanos(),
                ),
            },
    {
        match created.checked_add(&expires_in) {
            Some(expires) => Some(Timestamp { created, expires, wssu_id }),
            None => None,
        }
    }

    /// The timestamp created now and valid for `expires_in`, or `None` if
    /// the clock stands so late that the expiry is not representable.
    pub fn now(expires_in: Duration, wssu_id: WSSUId) -> (made: Option<Self>)
        requires
            expires_in.wf(),
        ensures
            match made {
                Some(t) => {
                    &&& t.wf()
                    &&& t.wssu_id == wssu_id
                    &&& t.validity_nanos() == expires_in.total_nanos()
                },
                None => expires_in.total_nanos() != 0,
            },
    {
        Self::starting_at(utc_now(), expires_in, wssu_id)
    }

    /// Serializes the timestamp. Equal timestamps give equal text.
    pub fn xml(&self) -> (xml: String)
        requires
            self.wf(),
        ensures
            xml@ == self.xml_text(),
    {
        let id = self.wssu_id.no_hash().to_string();
        let created = self.created.to_rfc3339_millis();
        let expires = self.expires.to_rfc3339_millis();
        render_timestamp(id.as_str(), created.as_str(), expires.as_str())
    }
}

} // verus!
