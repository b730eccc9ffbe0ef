use vstd::prelude::*;

verus! {

/// Nanoseconds in one second; the sub-second part of a timestamp stays below it.
pub const NANOS_PER_SEC: u32 = 1_000_000_000;

/// A point in time: whole seconds since the Unix epoch plus a sub-second
/// part in nanoseconds. The wire form keeps only the whole seconds, so
/// encoding truncates the sub-second part.
#[derive(Clone, Copy, Debug, PartialEq, Eq, Structural)]
pub struct Timestamp {
    /// Whole seconds since the Unix epoch; negative for instants before it.
    pub secs: i64,
    /// Sub-second part in nanoseconds; always below `NANOS_PER_SEC`.
    pub nanos: u32,
}

/// The wire form of an instant: its whole seconds since the epoch.
pub open spec fn spec_wire_of(t: Timestamp) -> i64 {
    t.secs
}

/// The instant a wire integer decodes to: whole seconds, sub-second part zero.
pub open spec fn spec_of_wire(secs: i64) -> Timestamp {
    Timestamp { secs: secs, nanos: 0 }
}

impl Timestamp {
    /// A valid sub-second part stays below one second.
    pub open spec fn wf(&self) -> bool {
        self.nanos < NANOS_PER_SEC
    }

    /// The same instant with the sub-second part dropped.
    pub open spec fn truncated(&self) -> Timestamp {
        Timestamp { secs: self.secs, nanos: 0 }
    }

    /// Order on instants: by seconds, then by the sub-second part.
    pub open spec fn spec_le(self, other: Timestamp) -> bool {
        self.secs < other.secs || (self.secs == other.secs && self.nanos <= other.nanos)
    }

    /// Encode the instant for the wire: whole seconds since the epoch.
    pub fn to_wire(&self) -> (s: i64)
        ensures
            s == spec_wire_of(*self),
    {
        self.secs
    }

    /// Decode a wire integer: whole seconds since the epoch, sub-second part zero.
    pub fn from_wire(secs: i64) -> (t: Timestamp)
        ensures
            t == spec_of_wire(secs),
            t.wf(),
    {
        Timestamp { secs: secs, nanos: 0 }
    }

    /// Whether this instant is at or before the other.
    pub fn le(&self, other: &Timestamp) -> (r: bool)
        ensures
            r == self.spec_le(*other),
    {
        self.secs < other.secs || (self.secs == other.secs && self.nanos <= other.nanos)
    }
}

/// Encode an optional instant: an absent timestamp stays absent on the wire,
/// never becoming a zero.
pub fn to_wire_option(t: &Option<Timestamp>) -> (r: Option<i64>)
    ensures
        match *t {
            Some(ts) => r == Some(spec_wire_of(ts)),
            None => r is None,
        },
{
    match t {
        Some(ts) => Some(ts.to_wire()),
        None => None,
    }
}

/// Decode an optional wire integer.
pub fn from_wire_option(s: &Option<i64>) -> (r: Option<Timestamp>)
    ensures
        match *s {
            Some(secs) => r == Some(spec_of_wire(secs)),
            None => r is None,
        },
{
    match s {
        Some(secs) => Some(Timestamp::from_wire(*secs)),
        None => None,
    }
}

/// Encoding an instant to the wire and decoding it back yields the same
/// instant up to sub-second truncation, and a wire integer survives a
/// decode/encode round trip unchanged.
pub proof fn lemma_wire_round_trip(t: Timestamp, secs: i64)
    ensures
        spec_of_wire(spec_wire_of(t)) == t.truncated(),
        spec_wire_of(spec_of_wire(secs)) == secs,
{
}

} // verus!
