//! The parquet physical-type markers that the integer kinds are written as.
use vstd::prelude::*;

verus! {

/// parquet's marker for the INT32 physical type; carried as a type only.
#[verifier::external_type_specification]
#[verifier::external_body]
pub struct ExInt32Type(parquet::data_type::Int32Type);

/// parquet's marker for the INT64 physical type; carried as a type only.
#[verifier::external_type_specification]
#[verifier::external_body]
pub struct ExInt64Type(parquet::data_type::Int64Type);

} // verus!
