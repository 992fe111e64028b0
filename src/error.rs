//! Errors of the library.
use vstd::prelude::*;

verus! {

/// Why the search settings were refused.
#[derive(Debug, Clone, PartialEq, Eq)]
pub enum GrindArgError {
    /// The suffix pattern is not a non-empty hexadecimal text.
    InvalidHexStringEndsWith,
    /// The prefix pattern is not a non-empty hexadecimal text.
    InvalidHexStringStartsWith,
    /// The name given does not denote a signature scheme; it carries the name.
    InvalidSignatureScheme(String),
}

/// Why a search run failed.
#[derive(Debug, Clone, Copy, PartialEq, Eq, Structural)]
pub enum KeytoolError {
    /// The platform could not report its cores.
    FailedToFetchCoreCount,
    /// The selection of cores left none to run a worker on.
    NoCoresAvailable,
    /// Every worker stopped and none of them claimed a solution.
    NoSolutionFound,
}

} // verus!
