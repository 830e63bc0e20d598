//! A microsecond timestamp, held as its raw count of microseconds since the
//! Unix epoch.
use vstd::prelude::*;

verus! {

/// A timezone-naive timestamp: a signed 64-bit count of microseconds since
/// 1970-01-01T00:00:00.
#[derive(Clone, Copy, Debug, PartialEq, Eq, Structural, Hash, Default)]
pub struct TimestampMicros {
    pub micros: i64,
}

impl TimestampMicros {
    /// The timestamp `micros` microseconds after the epoch.
    pub fn new(micros: i64) -> (r: Self)
        ensures
            r.micros == micros,
    {
        TimestampMicros { micros }
    }

    /// The count of microseconds since the epoch.
    pub fn to_total_parts(self) -> (r: i64)
        ensures
            r == self.micros,
    {
        self.micros
    }
}

/// The raw microsecond counts of a sequence of timestamps.
pub open spec fn micros_seq(ts: Seq<TimestampMicros>) -> Seq<i64> {
    ts.map_values(|t: TimestampMicros| t.micros)
}

/// The timestamps with the given raw microsecond counts.
pub open spec fn timestamps_seq(micros: Seq<i64>) -> Seq<TimestampMicros> {
    micros.map_values(|m: i64| TimestampMicros { micros: m })
}

/// The raw microsecond count of each timestamp, in order.
pub fn to_micros_vec(ts: &[TimestampMicros]) -> (r: Vec<i64>)
    ensures
        r@ == micros_seq(ts@),
{
    let mut out: Vec<i64> = Vec::with_capacity(ts.len());
    let mut i: usize = 0;
    while i < ts.len()
        invariant
            i <= ts@.len(),
            out@ == micros_seq(ts@.subrange(0, i as int)),
        decreases ts@.len() - i,
    {
        out.push(ts[i].micros);
        i += 1;
        assert(micros_seq(ts@.subrange(0, i as int)) =~= micros_seq(ts@.subrange(0, (i - 1) as int)).push(ts@[i - 1].micros));
    }
    assert(ts@.subrange(0, i as int) =~= ts@);
    out
}

/// The timestamp of each raw microsecond count, in order.
pub fn from_micros_vec(micros: &[i64]) -> (r: Vec<TimestampMicros>)
    ensures
        r@ == timestamps_seq(micros@),
{
    let mut out: Vec<TimestampMicros> = Vec::with_capacity(micros.len());
    let mut i: usize = 0;
    while i < micros.len()
        invariant
            i <= micros@.len(),
            out@ == timestamps_seq(micros@.subrange(0, i as int)),
        decreases micros@.len() - i,
    {
        out.push(TimestampMicros { micros: micros[i] });
        i += 1;
        assert(timestamps_seq(micros@.subrange(0, i as int)) =~= timestamps_seq(micros@.subrange(0, (i - 1) as int)).push(TimestampMicros { micros: micros@[i - 1] }));
    }
    assert(micros@.subrange(0, i as int) =~= micros@);
    out
}

} // verus!
