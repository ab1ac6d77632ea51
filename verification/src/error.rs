//! The one kind of failure a dispatch can end in.

use vstd::prelude::*;

verus! {

/// `std::io::Error`, known to the verifier by name only: a value of it is
/// carried from where it arose to the caller and never looked into.
#[verifier::external_type_specification]
#[verifier::external_body]
pub struct ExIoError(std::io::Error);

/// Why a dispatch failed.
#[derive(Debug)]
pub enum ErrorKind {
    /// A write into the sink, a flush of it or a direct console call reported
    /// this error.
    IoError(std::io::Error),
}

} // verus!
