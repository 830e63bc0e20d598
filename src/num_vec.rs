//! The tagged vector: one variant per in-memory layout.
use vstd::prelude::*;

verus! {

/// The in-memory layouts that a numeric kind can have, which are also the
/// parquet physical types that the kinds are written as.
#[derive(Clone, Copy, Debug, PartialEq, Eq, Structural, Hash)]
pub enum Layout {
    Int32,
    Int64,
    Float,
    Double,
}

/// The parquet schema name of a layout.
pub open spec fn layout_name(l: Layout) -> Seq<char> {
    match l {
        Layout::Int32 => "INT32"@,
        Layout::Int64 => "INT64"@,
        Layout::Float => "FLOAT"@,
        Layout::Double => "DOUBLE"@,
    }
}

impl Layout {
    /// The parquet schema name of this layout.
    pub fn parquet_name(self) -> (r: &'static str)
        ensures
            r@ == layout_name(self),
    {
        match self {
            Layout::Int32 => "INT32",
            Layout::Int64 => "INT64",
            Layout::Float => "FLOAT",
            Layout::Double => "DOUBLE",
        }
    }
}

/// A vector of numbers whose kind is known only at run time. `S` and `D` are
/// the single- and double-precision float element types.
#[derive(Debug)]
pub enum NumVec<S, D> {
    I32(Vec<i32>),
    I64(Vec<i64>),
    F32(Vec<S>),
    F64(Vec<D>),
}

/// The contents of a `NumVec`, as sequences.
pub enum NumSeq<S, D> {
    I32(Seq<i32>),
    I64(Seq<i64>),
    F32(Seq<S>),
    F64(Seq<D>),
}

impl<S, D> NumSeq<S, D> {
    /// The layout of the variant.
    pub open spec fn layout(self) -> Layout {
        match self {
            NumSeq::I32(_) => Layout::Int32,
            NumSeq::I64(_) => Layout::Int64,
            NumSeq::F32(_) => Layout::Float,
            NumSeq::F64(_) => Layout::Double,
        }
    }

    /// The count of numbers.
    pub open spec fn len(self) -> nat {
        match self {
            NumSeq::I32(s) => s.len(),
            NumSeq::I64(s) => s.len(),
            NumSeq::F32(s) => s.len(),
            NumSeq::F64(s) => s.len(),
        }
    }
}

impl<S, D> View for NumVec<S, D> {
    type V = NumSeq<S, D>;

    open spec fn view(&self) -> NumSeq<S, D> {
        match self {
            NumVec::I32(v) => NumSeq::I32(v@),
            NumVec::I64(v) => NumSeq::I64(v@),
            NumVec::F32(v) => NumSeq::F32(v@),
            NumVec::F64(v) => NumSeq::F64(v@),
        }
    }
}

impl<S, D> NumVec<S, D> {
    /// The layout of the numbers held.
    pub fn layout(&self) -> (r: Layout)
        ensures
            r == self@.layout(),
    {
        match self {
            NumVec::I32(_) => Layout::Int32,
            NumVec::I64(_) => Layout::Int64,
            NumVec::F32(_) => Layout::Float,
            NumVec::F64(_) => Layout::Double,
        }
    }

    /// The count of numbers held.
    pub fn len(&self) -> (r: usize)
        ensures
            r == self@.len(),
    {
        match self {
            NumVec::I32(v) => v.len(),
            NumVec::I64(v) => v.len(),
            NumVec::F32(v) => v.len(),
            NumVec::F64(v) => v.len(),
        }
    }
}

} // verus!
