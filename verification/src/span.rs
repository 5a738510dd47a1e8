//! Lengths of time.
pub mod laws;

use vstd::prelude::*;

verus! {

/// Nanoseconds in a second.
pub const NANOS_PER_SEC: u128 = 1_000_000_000;

/// Nanoseconds in a millisecond.
pub const NANOS_PER_MILLI: u128 = 1_000_000;

/// The longest span, in nanoseconds, plus one.
pub const SPAN_LIMIT: u128 = 18_446_744_073_709_551_616_000_000_000;

/// A length of time: whole seconds and the nanoseconds beyond them. Its view is
/// its length in nanoseconds.
#[derive(Clone, Copy, Debug, PartialEq, Eq, Structural)]
pub struct Span {
    secs: u64,
    nanos: u32,
}

/// The `Debug` form of a duration of `nanos` nanoseconds.
pub uninterp spec fn duration_words(nanos: nat) -> Seq<char>;

/// Formats `Duration::new(secs, nanos)` with `<Duration as Debug>`; the text it
/// renders depends on the length of the duration alone.
#[verifier::external_body]
fn duration_debug(secs: u64, nanos: u32) -> (r: String)
    requires
        nanos < NANOS_PER_SEC,
    ensures
        r@ == duration_words((secs * NANOS_PER_SEC + nanos) as nat),
{
    format!("{:?}", std::time::Duration::new(secs, nanos))
}

impl View for Span {
    type V = nat;

    closed spec fn view(&self) -> nat {
        (self.secs * NANOS_PER_SEC + self.nanos) as nat
    }
}

impl Span {
    #[verifier::type_invariant]
    spec fn wf(self) -> bool {
        self.nanos < NANOS_PER_SEC
    }

    /// The empty span.
    pub fn zero() -> (r: Span)
        ensures
            r@ == 0,
    {
        Span { secs: 0, nanos: 0 }
    }

    /// `secs` seconds.
    pub fn from_secs(secs: u64) -> (r: Span)
        ensures
            r@ == secs * NANOS_PER_SEC,
    {
        Span { secs, nanos: 0 }
    }

    /// `millis` milliseconds.
    pub fn from_millis(millis: u64) -> (r: Span)
        ensures
            r@ == millis * NANOS_PER_MILLI,
    {
        let secs: u64 = millis / 1000;
        let left: u64 = millis % 1000;
        let nanos: u32 = (left as u32) * 1_000_000;
        Span { secs, nanos }
    }

    /// `nanos` nanoseconds.
    pub fn from_nanos(nanos: u128) -> (r: Span)
        requires
            nanos < SPAN_LIMIT,
        ensures
            r@ == nanos,
    {
        let secs: u128 = nanos / NANOS_PER_SEC;
        let left: u128 = nanos % NANOS_PER_SEC;
        Span { secs: secs as u64, nanos: left as u32 }
    }

    /// The length in nanoseconds.
    pub fn as_nanos(&self) -> (r: u128)
        ensures
            r == self@,
            r < SPAN_LIMIT,
    {
        proof {
            use_type_invariant(self);
        }
        (self.secs as u128) * NANOS_PER_SEC + (self.nanos as u128)
    }

    /// The length in whole seconds.
    pub fn as_secs(&self) -> (r: u64)
        ensures
            r == self@ / (NANOS_PER_SEC as nat),
    {
        proof {
            use_type_invariant(self);
        }
        self.secs
    }

    /// The length in whole milliseconds, counted modulo 2^64.
    pub fn as_millis(&self) -> (r: u64)
        ensures
            r == (self@ / (NANOS_PER_MILLI as nat)) % 0x1_0000_0000_0000_0000,
    {
        let millis: u128 = self.as_nanos() / NANOS_PER_MILLI;
        (millis % 0x1_0000_0000_0000_0000u128) as u64
    }

    /// Whether two spans are of one length.
    pub fn equals(&self, other: &Span) -> (r: bool)
        ensures
            r == (self@ == other@),
    {
        self.as_nanos() == other.as_nanos()
    }

    /// The span in words, such as `999ms` or `30s`.
    pub fn to_text(&self) -> (r: String)
        ensures
            r@ == duration_words(self@),
    {
        proof {
            use_type_invariant(self);
        }
        duration_debug(self.secs, self.nanos)
    }
}

} // verus!
