//! The data of a kind as a codec's element type.
use vstd::prelude::*;

verus! {

/// A slice of codec elements: the caller's own memory where the kind and the
/// element type share one layout (no copy is made), else a vector of the
/// elements that stand for the caller's values.
pub enum CodecSlice<'a, T> {
    Borrowed(&'a [T]),
    Owned(Vec<T>),
}

impl<'a, T> View for CodecSlice<'a, T> {
    type V = Seq<T>;

    open spec fn view(&self) -> Seq<T> {
        match self {
            CodecSlice::Borrowed(s) => s@,
            CodecSlice::Owned(v) => v@,
        }
    }
}

impl<'a, T> CodecSlice<'a, T> {
    /// The elements, borrowed.
    pub fn as_slice(&self) -> (r: &[T])
        ensures
            r@ == self@,
    {
        match self {
            CodecSlice::Borrowed(s) => s,
            CodecSlice::Owned(v) => v.as_slice(),
        }
    }
}

} // verus!
