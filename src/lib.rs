//! Numeric kinds for a codec benchmark: a tagged vector over the supported
//! layouts, and the relabelling of each kind's data into the element types
//! that the pco and parquet codecs take.
pub mod codec_slice;
pub mod dtype;
pub mod laws;
pub mod num_vec;
pub mod parquet_types;
pub mod timestamp;

pub use codec_slice::CodecSlice;
pub use dtype::Dtype;
pub use num_vec::{Layout, NumVec};
pub use timestamp::TimestampMicros;
