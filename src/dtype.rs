//! The capability that each numeric kind provides: its variant of the tagged
//! vector, and the relabelling of its data to and from the element types that
//! pco and parquet take.
use vstd::prelude::*;

use crate::codec_slice::CodecSlice;
use crate::num_vec::{layout_name, Layout, NumSeq, NumVec};
use crate::timestamp::{
    from_micros_vec, micros_seq, timestamps_seq, to_micros_vec, TimestampMicros,
};

verus! {

/// A numeric kind that the benchmark can run every codec on.
///
/// Each kind corresponds element for element, bit for bit, to one element
/// type of pco (`Pco`) and one of parquet (`ParquetNum`, the element type of
/// the physical-type marker `Parquet`); `to_pco` and `to_parquet` give that
/// correspondence, and the conversions are its inverses.
pub trait Dtype: Sized {
    /// The element type that pco compresses this kind as.
    type Pco;
    /// parquet's physical-type marker for this kind.
    type Parquet;
    /// The element type of `Parquet`.
    type ParquetNum;

    /// The parquet schema name of `Parquet`.
    const PARQUET_DTYPE_STR: &'static str;

    /// The layout that the kind has in memory, and its variant of `NumVec`.
    spec fn layout() -> Layout;

    /// The pco element that stands for `x`.
    spec fn to_pco(x: Self) -> Self::Pco;

    /// The value that the pco element `y` stands for.
    spec fn from_pco(y: Self::Pco) -> Self;

    /// The parquet element that stands for `x`.
    spec fn to_parquet(x: Self) -> Self::ParquetNum;

    /// The value that the parquet element `y` stands for.
    spec fn from_parquet(y: Self::ParquetNum) -> Self;

    /// The pco correspondence is one to one.
    proof fn lemma_pco_inverse(x: Self, y: Self::Pco)
        ensures
            Self::from_pco(Self::to_pco(x)) == x,
            Self::to_pco(Self::from_pco(y)) == y,
    ;

    /// The parquet correspondence is one to one.
    proof fn lemma_parquet_inverse(x: Self, y: Self::ParquetNum)
        ensures
            Self::from_parquet(Self::to_parquet(x)) == x,
            Self::to_parquet(Self::from_parquet(y)) == y,
    ;

    /// The schema name is that of the kind's layout.
    proof fn lemma_parquet_dtype_str()
        ensures
            Self::PARQUET_DTYPE_STR@ == layout_name(Self::layout()),
    ;

    /// Moves `nums` into the variant of the tagged vector for this kind.
    fn num_vec<S, D>(nums: Vec<Self>) -> (r: NumVec<S, D>)
        ensures
            r@.layout() == Self::layout(),
            r@.len() == nums@.len(),
    ;

    /// The data as parquet elements.
    fn slice_to_parquet(slice: &[Self]) -> (r: CodecSlice<'_, Self::ParquetNum>)
        ensures
            r@ == slice@.map_values(|x: Self| Self::to_parquet(x)),
    ;

    /// The data as pco elements.
    fn slice_to_pco(slice: &[Self]) -> (r: CodecSlice<'_, Self::Pco>)
        ensures
            r@ == slice@.map_values(|x: Self| Self::to_pco(x)),
    ;

    /// The values that pco's output stands for.
    fn vec_from_pco(v: Vec<Self::Pco>) -> (r: Vec<Self>)
        ensures
            r@ == v@.map_values(|y: Self::Pco| Self::from_pco(y)),
    ;

    /// The values that parquet's output stands for.
    fn vec_from_parquet(v: Vec<Self::ParquetNum>) -> (r: Vec<Self>)
        ensures
            r@ == v@.map_values(|y: Self::ParquetNum| Self::from_parquet(y)),
    ;
}

// parquet has signed integers only; a kind of the same width is written as
// them unchanged.
impl Dtype for i32 {
    type Pco = i32;
    type Parquet = parquet::data_type::Int32Type;
    type ParquetNum = i32;

    const PARQUET_DTYPE_STR: &'static str = "INT32";

    open spec fn layout() -> Layout {
        Layout::Int32
    }

    open spec fn to_pco(x: i32) -> i32 {
        x
    }

    open spec fn from_pco(y: i32) -> i32 {
        y
    }

    open spec fn to_parquet(x: i32) -> i32 {
        x
    }

    open spec fn from_parquet(y: i32) -> i32 {
        y
    }

    proof fn lemma_pco_inverse(x: i32, y: i32) {
    }

    proof fn lemma_parquet_inverse(x: i32, y: i32) {
    }

    proof fn lemma_parquet_dtype_str() {
        reveal_strlit("INT32");
    }

    fn num_vec<S, D>(nums: Vec<i32>) -> (r: NumVec<S, D>)
        ensures
            r@ == NumSeq::<S, D>::I32(nums@),
    {
        NumVec::I32(nums)
    }

    fn slice_to_parquet(slice: &[i32]) -> (r: CodecSlice<'_, i32>)
        ensures
            r is Borrowed,
    {
        assert(slice@.map_values(|x: i32| Self::to_parquet(x)) =~= slice@);
        CodecSlice::Borrowed(slice)
    }

    fn slice_to_pco(slice: &[i32]) -> (r: CodecSlice<'_, i32>)
        ensures
            r is Borrowed,
    {
        assert(slice@.map_values(|x: i32| Self::to_pco(x)) =~= slice@);
        CodecSlice::Borrowed(slice)
    }

    fn vec_from_pco(v: Vec<i32>) -> (r: Vec<i32>) {
        assert(v@.map_values(|y: i32| Self::from_pco(y)) =~= v@);
        v
    }

    fn vec_from_parquet(v: Vec<i32>) -> (r: Vec<i32>) {
        assert(v@.map_values(|y: i32| Self::from_parquet(y)) =~= v@);
        v
    }
}

impl Dtype for i64 {
    type Pco = i64;
    type Parquet = parquet::data_type::Int64Type;
    type ParquetNum = i64;

    const PARQUET_DTYPE_STR: &'static str = "INT64";

    open spec fn layout() -> Layout {
        Layout::Int64
    }

    open spec fn to_pco(x: i64) -> i64 {
        x
    }

    open spec fn from_pco(y: i64) -> i64 {
        y
    }

    open spec fn to_parquet(x: i64) -> i64 {
        x
    }

    open spec fn from_parquet(y: i64) -> i64 {
        y
    }

    proof fn lemma_pco_inverse(x: i64, y: i64) {
    }

    proof fn lemma_parquet_inverse(x: i64, y: i64) {
    }

    proof fn lemma_parquet_dtype_str() {
        reveal_strlit("INT64");
    }

    fn num_vec<S, D>(nums: Vec<i64>) -> (r: NumVec<S, D>)
        ensures
            r@ == NumSeq::<S, D>::I64(nums@),
    {
        NumVec::I64(nums)
    }

    fn slice_to_parquet(slice: &[i64]) -> (r: CodecSlice<'_, i64>)
        ensures
            r is Borrowed,
    {
        assert(slice@.map_values(|x: i64| Self::to_parquet(x)) =~= slice@);
        CodecSlice::Borrowed(slice)
    }

    fn slice_to_pco(slice: &[i64]) -> (r: CodecSlice<'_, i64>)
        ensures
            r is Borrowed,
    {
        assert(slice@.map_values(|x: i64| Self::to_pco(x)) =~= slice@);
        CodecSlice::Borrowed(slice)
    }

    fn vec_from_pco(v: Vec<i64>) -> (r: Vec<i64>) {
        assert(v@.map_values(|y: i64| Self::from_pco(y)) =~= v@);
        v
    }

    fn vec_from_parquet(v: Vec<i64>) -> (r: Vec<i64>) {
        assert(v@.map_values(|y: i64| Self::from_parquet(y)) =~= v@);
        v
    }
}

// A timestamp is its count of microseconds: pco and parquet take that count
// as a 64-bit integer, and the tagged vector holds it as one. Safe code cannot
// relabel the memory of a struct as that of its field, so the counts are
// copied out, and back in.
impl Dtype for TimestampMicros {
    type Pco = i64;
    type Parquet = parquet::data_type::Int64Type;
    type ParquetNum = i64;

    const PARQUET_DTYPE_STR: &'static str = "INT64";

    open spec fn layout() -> Layout {
        Layout::Int64
    }

    open spec fn to_pco(x: TimestampMicros) -> i64 {
        x.micros
    }

    open spec fn from_pco(y: i64) -> TimestampMicros {
        TimestampMicros { micros: y }
    }

    open spec fn to_parquet(x: TimestampMicros) -> i64 {
        x.micros
    }

    open spec fn from_parquet(y: i64) -> TimestampMicros {
        TimestampMicros { micros: y }
    }

    proof fn lemma_pco_inverse(x: TimestampMicros, y: i64) {
    }

    proof fn lemma_parquet_inverse(x: TimestampMicros, y: i64) {
    }

    proof fn lemma_parquet_dtype_str() {
        reveal_strlit("INT64");
    }

    fn num_vec<S, D>(nums: Vec<TimestampMicros>) -> (r: NumVec<S, D>)
        ensures
            r@ == NumSeq::<S, D>::I64(micros_seq(nums@)),
    {
        NumVec::I64(to_micros_vec(nums.as_slice()))
    }

    fn slice_to_parquet(slice: &[TimestampMicros]) -> (r: CodecSlice<'_, i64>)
        ensures
            r@ == micros_seq(slice@),
    {
        CodecSlice::Owned(to_micros_vec(slice))
    }

    fn slice_to_pco(slice: &[TimestampMicros]) -> (r: CodecSlice<'_, i64>)
        ensures
            r@ == micros_seq(slice@),
    {
        CodecSlice::Owned(to_micros_vec(slice))
    }

    fn vec_from_pco(v: Vec<i64>) -> (r: Vec<TimestampMicros>)
        ensures
            r@ == timestamps_seq(v@),
    {
        from_micros_vec(v.as_slice())
    }

    fn vec_from_parquet(v: Vec<i64>) -> (r: Vec<TimestampMicros>)
        ensures
            r@ == timestamps_seq(v@),
    {
        from_micros_vec(v.as_slice())
    }
}

} // verus!
