//! Span timestamps and their normalisation to nanoseconds since the Unix epoch.
use vstd::prelude::*;

verus! {

/// A point in time relative to the Unix epoch.
#[derive(PartialEq, Eq, Structural, Debug, Clone, Copy)]
pub enum Timestamp {
    /// Earlier than the epoch.
    BeforeEpoch,
    /// At or after the epoch, by whole seconds and the nanoseconds beyond them.
    SinceEpoch { secs: u64, subsec_nanos: u32 },
}

pub const NANOS_PER_SEC: u64 = 1_000_000_000;

/// Nanoseconds since the epoch, taken modulo 2^64 as the wire field holds
/// them; a time before the epoch counts as the epoch itself.
pub open spec fn nanos_model(t: Timestamp) -> u64 {
    match t {
        Timestamp::BeforeEpoch => 0,
        Timestamp::SinceEpoch { secs, subsec_nanos } => (
        (secs * NANOS_PER_SEC + subsec_nanos) % 0x1_0000_0000_0000_0000) as u64,
    }
}

/// Nanoseconds since the Unix epoch; a time before the epoch gives 0.
pub fn to_nanos(time: Timestamp) -> (r: u64)
    ensures
        r == nanos_model(time),
{
    match time {
        Timestamp::BeforeEpoch => 0,
        Timestamp::SinceEpoch { secs, subsec_nanos } => {
            assert((secs as int) * (NANOS_PER_SEC as int) <= 0xffff_ffff_ffff_ffff * 1_000_000_000int)
                by (nonlinear_arith);
            let total: u128 = (secs as u128) * (NANOS_PER_SEC as u128) + (subsec_nanos as u128);
            (total % 0x1_0000_0000_0000_0000u128) as u64
        },
    }
}

} // verus!
