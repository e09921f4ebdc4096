//! Instants in UTC, held as plain numbers and rendered by `chrono`.

use vstd::prelude::*;

verus! {

/// Whether `chrono::DateTime::<Utc>::from_timestamp` returns `Some` for this
/// count of seconds since the Unix epoch and this count of nanoseconds.
pub uninterp spec fn representable(secs: i64, nanos: u32) -> bool;

/// The text that `chrono::DateTime::<Utc>::to_rfc3339` returns for the instant
/// that `from_timestamp` makes of these two numbers.
pub uninterp spec fn rfc3339_text(secs: i64, nanos: u32) -> Seq<char>;

/// Calls `chrono::DateTime::<Utc>::from_timestamp` and reports whether it gave
/// an instant. Nothing more is claimed than that the answer depends on the two
/// numbers alone.
#[verifier::external_body]
fn chrono_accepts(secs: i64, nanos: u32) -> (ok: bool)
    ensures
        ok == representable(secs, nanos),
{
    chrono::DateTime::from_timestamp(secs, nanos).is_some()
}

/// Calls `chrono::DateTime::<Utc>::to_rfc3339` on the instant that
/// `from_timestamp` makes of the two numbers. The contract only names the text;
/// it claims nothing of its shape.
#[verifier::external_body]
fn chrono_rfc3339(secs: i64, nanos: u32) -> (text: String)
    requires
        representable(secs, nanos),
    ensures
        text@ == rfc3339_text(secs, nanos),
{
    chrono::DateTime::from_timestamp(secs, nanos).unwrap().to_rfc3339()
}

/// Reads the clock with `std::time::SystemTime::now`, hands the reading to
/// chrono's conversion `DateTime::<Utc>::from`, which takes readings on
/// either side of the Unix epoch, and takes the instant apart with
/// `DateTime::timestamp` and `DateTime::timestamp_subsec_nanos`. The reading
/// differs from call to call; all that is claimed is that `from_timestamp`
/// accepts the pair again, which chrono documents for every instant.
#[verifier::external_body]
fn chrono_now() -> (now: (i64, u32))
    ensures
        representable(now.0, now.1),
{
    let instant = chrono::DateTime::<chrono::Utc>::from(std::time::SystemTime::now());
    (instant.timestamp(), instant.timestamp_subsec_nanos())
}

/// An instant in UTC that chrono can represent.
#[derive(Clone, Copy, Debug, PartialEq, Eq)]
pub struct Timestamp {
    secs: i64,
    nanos: u32,
}

impl Timestamp {
    #[verifier::type_invariant]
    spec fn held_by_chrono(self) -> bool {
        representable(self.secs, self.nanos)
    }

    /// Whole seconds since the Unix epoch.
    pub closed spec fn secs(self) -> i64 {
        self.secs
    }

    /// Nanoseconds since the last whole second.
    pub closed spec fn nanos(self) -> u32 {
        self.nanos
    }

    /// The RFC 3339 rendering of the instant.
    pub open spec fn rfc3339(self) -> Seq<char> {
        rfc3339_text(self.secs(), self.nanos())
    }

    /// The instant `secs` seconds and `nanos` nanoseconds after the Unix epoch,
    /// if chrono can represent it.
    pub fn from_unix(secs: i64, nanos: u32) -> (made: Option<Timestamp>)
        ensures
            made is Some <==> representable(secs, nanos),
            made matches Some(t) ==> t.secs() == secs && t.nanos() == nanos,
    {
        if chrono_accepts(secs, nanos) {
            Some(Timestamp { secs, nanos })
        } else {
            None
        }
    }

    /// The current instant, read from the system clock: whatever the reading,
    /// chrono can represent it. Two readings may differ in either direction.
    pub fn now() -> (now: Timestamp)
        ensures
            representable(now.secs(), now.nanos()),
    {
        let (secs, nanos) = chrono_now();
        Timestamp { secs, nanos }
    }

    pub fn unix_seconds(&self) -> (secs: i64)
        ensures
            secs == self.secs(),
    {
        self.secs
    }

    pub fn subsec_nanos(&self) -> (nanos: u32)
        ensures
            nanos == self.nanos(),
    {
        self.nanos
    }

    /// Renders the instant as RFC 3339 text.
    pub fn to_rfc3339(&self) -> (text: String)
        ensures
            text@ == self.rfc3339(),
    {
        proof {
            use_type_invariant(self);
        }
        chrono_rfc3339(self.secs, self.nanos)
    }
}

} // verus!
