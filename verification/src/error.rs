//! The error taxonomy: every failure aborts the current job.

use vstd::prelude::*;

verus! {

/// Why a conversion job stopped.
#[derive(Clone, Copy, Debug, PartialEq, Eq, Structural)]
pub enum ConvertError {
    /// A subprocess could not be launched or exited reporting failure.
    ExternalToolError,
    /// The probe tool's answer was not a numeral this library
    /// accepts, or its value lay outside the supported range.
    ParseError,
    /// The input path has no base file name to derive a default from.
    NoFileStem,
    /// A file-reveal was requested on a platform without a strategy.
    UnsupportedPlatform,
}

} // verus!
