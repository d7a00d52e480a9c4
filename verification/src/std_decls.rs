//! Declarations of std types that the library carries through its values.
use vstd::prelude::*;

verus! {

/// A filesystem path; the library carries it inside error values.
#[verifier::external_type_specification]
#[verifier::external_body]
pub struct ExPathBuf(std::path::PathBuf);

/// An I/O error; the library carries it inside `Error::Io`.
#[verifier::external_type_specification]
#[verifier::external_body]
pub struct ExIoError(std::io::Error);

} // verus!
