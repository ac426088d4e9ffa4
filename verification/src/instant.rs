//! Instants on the UTC time line and the spans between them, as plain
//! integers.

use vstd::prelude::*;

use crate::text::digit_char;

verus! {

/// Nanoseconds in one second.
pub const NANOS_PER_SEC: u32 = 1_000_000_000;

/// Seconds from the Unix epoch to the first representable instant,
/// midnight of 1 January of the year -262143.
pub const SECS_MIN: i64 = -8_334_601_228_800;

/// Seconds from the Unix epoch to the last representable second,
/// 23:59:59 of 31 December of the year 262142.
pub const SECS_MAX: i64 = 8_210_266_876_799;

/// Whether a count of nanoseconds since the Unix epoch lies within the
/// representable stretch of the time line.
pub open spec fn representable(nanos_since_epoch: int) -> bool {
    SECS_MIN * NANOS_PER_SEC <= nanos_since_epoch < (SECS_MAX + 1) * NANOS_PER_SEC
}

/// An instant in UTC: whole seconds since the Unix epoch and the nanoseconds
/// into that second.
#[derive(Clone, Copy, Debug, PartialEq, Eq, Structural)]
pub struct UtcInstant {
    /// Whole seconds since 1970-01-01T00:00:00Z, negative before it.
    pub secs: i64,
    /// Nanoseconds since the start of that second.
    pub nanos: u32,
}

/// A signed span of time: `secs` whole seconds plus `nanos` nanoseconds, the
/// latter always counted forward.
#[derive(Clone, Copy, Debug, PartialEq, Eq, Structural)]
pub struct Duration {
    /// Whole seconds, rounded toward negative infinity.
    pub secs: i64,
    /// Nanoseconds on top of `secs`.
    pub nanos: u32,
}

/// The text of an instant in RFC 3339 with exactly three fractional digits
/// and the suffix `Z`, as `chrono` writes it.
pub uninterp spec fn rfc3339_millis(secs: i64, nanos: u32) -> Seq<char>;

/// How the text of an instant ends: a point, the whole milliseconds of the
/// sub-second part in three digits, and `Z`.
pub open spec fn millis_suffix(nanos: u32) -> Seq<char> {
    let millis = nanos as int / 1_000_000;
    seq![
        '.',
        digit_char(millis / 100),
        digit_char(millis / 10 % 10),
        digit_char(millis % 10),
        'Z',
    ]
}

/// Whether `text` ends with `suffix`.
pub open spec fn ends_with(text: Seq<char>, suffix: Seq<char>) -> bool {
    &&& text.len() >= suffix.len()
    &&& text.subrange(text.len() - suffix.len(), text.len() as int) == suffix
}

/// `chrono::DateTime::from_timestamp` accepts exactly the seconds whose
/// calendar year lies in -262143..=262142 (given a sub-second part below one
/// second), and `DateTime::to_rfc3339_opts(SecondsFormat::Millis, true)`
/// then writes the instant; the text is a function of the two numbers. It
/// closes with the milliseconds, cut off and not rounded, in three digits
/// and with `Z` in place of an offset.
#[verifier::external_body]
fn format_rfc3339_millis(secs: i64, nanos: u32) -> (text: Option<String>)
    requires
        nanos < NANOS_PER_SEC,
    ensures
        text is Some <==> SECS_MIN <= secs <= SECS_MAX,
        text is Some ==> text->0@ == rfc3339_millis(secs, nanos),
        text is Some ==> ends_with(text->0@, millis_suffix(nanos)),
{
    match chrono::DateTime::from_timestamp(secs, nanos) {
        Some(t) => Some(t.to_rfc3339_opts(chrono::SecondsFormat::Millis, true)),
        None => None,
    }
}

/// `chrono::Utc::now` reads the system clock. Whatever it reads is a
/// representable instant with a sub-second part below one second.
#[verifier::external_body]
pub(crate) fn utc_now() -> (now: UtcInstant)
    ensures
        now.wf(),
{
    let t = chrono::Utc::now();
    UtcInstant { secs: t.timestamp(), nanos: t.timestamp_subsec_nanos() }
}

impl UtcInstant {
    /// The instant is representable and its sub-second part is in range.
    pub open spec fn wf(&self) -> bool {
        &&& SECS_MIN <= self.secs <= SECS_MAX
        &&& self.nanos < NANOS_PER_SEC
    }

    /// Nanoseconds since the Unix epoch.
    pub open spec fn nanos_since_epoch(&self) -> int {
        self.secs * NANOS_PER_SEC + self.nanos
    }

    /// The instant `secs` seconds and `nanos` nanoseconds after the Unix
    /// epoch, if it is representable.
    pub fn new(secs: i64, nanos: u32) -> (made: Option<Self>)
        ensures
            made == if (UtcInstant { secs, nanos }).wf() {
                Some(UtcInstant { secs, nanos })
            } else {
                None
            },
    {
        if SECS_MIN <= secs && secs <= SECS_MAX && nanos < NANOS_PER_SEC {
            Some(UtcInstant { secs, nanos })
        } else {
            None
        }
    }

    /// Whether the fields, which anyone may set, describe a representable
    /// instant.
    pub fn is_valid(&self) -> (valid: bool)
        ensures
            valid == self.wf(),
    {
        SECS_MIN <= self.secs && self.secs <= SECS_MAX && self.nanos < NANOS_PER_SEC
    }

    /// The instant `span` after this one (before it, for a negative span),
    /// or `None` if that instant is not representable.
    pub fn checked_add(&self, span: &Duration) -> (sum: Option<Self>)
        requires
            self.wf(),
            span.wf(),
        ensures
            match sum {
                Some(t) => t.wf() && t.nanos_since_epoch() == self.nanos_since_epoch()
                    + span.total_nanos(),
                None => !representable(self.nanos_since_epoch() + span.total_nanos()),
            },
    {
        let raw: u32 = self.nanos + span.nanos;
        let carry: i128 = if raw >= NANOS_PER_SEC { 1 } else { 0 };
        let nanos: u32 = if raw >= NANOS_PER_SEC { raw - NANOS_PER_SEC } else { raw };
        let secs: i128 = self.secs as i128 + span.secs as i128 + carry;
        if SECS_MIN as i128 <= secs && secs <= SECS_MAX as i128 {
            Some(UtcInstant { secs: secs as i64, nanos })
        } else {
            None
        }
    }

    /// The instant in RFC 3339 with millisecond precision and a `Z` suffix,
    /// such as `2024-01-01T00:00:00.000Z`.
    pub fn to_rfc3339_millis(&self) -> (text: String)
        requires
            self.wf(),
        ensures
            text@ == rfc3339_millis(self.secs, self.nanos),
            ends_with(text@, millis_suffix(self.nanos)),
    {
        match format_rfc3339_millis(self.secs, self.nanos) {
            Some(text) => text,
            None => unreached(),
        }
    }
}

impl Duration {
    /// The sub-second part is below one second.
    pub open spec fn wf(&self) -> bool {
        self.nanos < NANOS_PER_SEC
    }

    /// The span in nanoseconds.
    pub open spec fn total_nanos(&self) -> int {
        self.secs * NANOS_PER_SEC + self.nanos
    }

    /// The span of `secs` seconds and `nanos` nanoseconds, if `nanos` is
    /// below one second.
    pub fn new(secs: i64, nanos: u32) -> (made: Option<Self>)
        ensures
            made == if nanos < NANOS_PER_SEC {
                Some(Duration { secs, nanos })
            } else {
                None
            },
    {
        if nanos < NANOS_PER_SEC {
            Some(Duration { secs, nanos })
        } else {
            None
        }
    }

    /// Whether the fields, which anyone may set, describe a span.
    pub fn is_valid(&self) -> (valid: bool)
        ensures
            valid == self.wf(),
    {
        self.nanos < NANOS_PER_SEC
    }

    /// A span of whole seconds.
    pub fn seconds(secs: i64) -> (span: Self)
        ensures
            span.wf(),
            span.total_nanos() == secs * NANOS_PER_SEC,
    {
        Duration { secs, nanos: 0 }
    }

    /// A span of whole minutes. The span in seconds has to fit in 64 bits.
    pub fn minutes(minutes: i64) -> (span: Self)
        requires
            i64::MIN <= minutes * 60 <= i64::MAX,
        ensures
            span.wf(),
            span.total_nanos() == minutes * 60 * NANOS_PER_SEC,
    {
        Duration { secs: minutes * 60, nanos: 0 }
    }
}

} // verus!
