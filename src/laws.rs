//! What holds of every kind together.
use vstd::prelude::*;

use crate::dtype::Dtype;
use crate::num_vec::Layout;
use crate::timestamp::{micros_seq, TimestampMicros};

verus! {

/// Relabelling a kind's values as parquet elements and relabelling those back
/// gives the same values.
pub proof fn lemma_parquet_round_trip<T: Dtype>(v: Seq<T>)
    ensures
        v.map_values(|x: T| T::to_parquet(x)).map_values(|y: T::ParquetNum| T::from_parquet(y))
            == v,
{
    let w = v.map_values(|x: T| T::to_parquet(x)).map_values(
        |y: T::ParquetNum| T::from_parquet(y),
    );
    assert forall|i: int| 0 <= i < v.len() implies w[i] == v[i] by {
        T::lemma_parquet_inverse(v[i], T::to_parquet(v[i]));
    }
    assert(w =~= v);
}

/// Relabelling a kind's values as pco elements and relabelling those back
/// gives the same values.
pub proof fn lemma_pco_round_trip<T: Dtype>(v: Seq<T>)
    ensures
        v.map_values(|x: T| T::to_pco(x)).map_values(|y: T::Pco| T::from_pco(y)) == v,
{
    let w = v.map_values(|x: T| T::to_pco(x)).map_values(|y: T::Pco| T::from_pco(y));
    assert forall|i: int| 0 <= i < v.len() implies w[i] == v[i] by {
        T::lemma_pco_inverse(v[i], T::to_pco(v[i]));
    }
    assert(w =~= v);
}

/// Each integer kind has the layout, and so the tagged variant, of its own
/// width, and the two widths differ; the timestamp kind shares the 64-bit
/// layout, and stands for parquet and pco alike as its microsecond counts.
pub proof fn lemma_variants(ts: Seq<TimestampMicros>)
    ensures
        <i32 as Dtype>::layout() == Layout::Int32,
        <i64 as Dtype>::layout() == Layout::Int64,
        <TimestampMicros as Dtype>::layout() == <i64 as Dtype>::layout(),
        ts.map_values(|x: TimestampMicros| <TimestampMicros as Dtype>::to_parquet(x))
            == micros_seq(ts),
        ts.map_values(|x: TimestampMicros| <TimestampMicros as Dtype>::to_pco(x))
            == micros_seq(ts),
{
    assert(ts.map_values(|x: TimestampMicros| <TimestampMicros as Dtype>::to_parquet(x))
        =~= micros_seq(ts));
    assert(ts.map_values(|x: TimestampMicros| <TimestampMicros as Dtype>::to_pco(x))
        =~= micros_seq(ts));
}

} // verus!
