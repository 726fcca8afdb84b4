//! The errors of this library.
use vstd::prelude::*;

verus! {

/// What can go wrong.
#[derive(Debug)]
pub enum MetadataError {
    /// Some data could not be turned into its stored form.
    DataInvalid { message: String },
}

} // verus!
