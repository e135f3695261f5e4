//! The failures that slurping a heap dump can end in.

use vstd::prelude::*;

verus! {

/// A typed failure, surfaced to the immediate caller.
#[derive(Debug, PartialEq, Eq)]
pub enum HprofSlurpError {
    /// The preamble or the record stream of a native dump is malformed.
    InvalidHprofFile { message: String },
    /// The identifier width is neither 4 nor 8.
    InvalidIdSize,
    /// Bytes were left over in the preamble region after decoding.
    InvalidHeaderSize,
    /// The identifier width is recognised but not handled.
    UnsupportedIdSize { message: String },
    /// The input is empty or carries no known signature.
    UnsupportedDumpFormat { message: String },
    /// Reading the input, or starting a worker, failed.
    StdIoError { message: String },
    /// A pipeline worker ended unexpectedly.
    StdThreadError { message: String },
    /// The external analysis helper could not be found, built or run, or
    /// answered with something that is not a report.
    JavaHelperError { message: String },
}

/// A failure as plain values.
pub enum Failure {
    InvalidHprofFile { message: Seq<char> },
    InvalidIdSize,
    InvalidHeaderSize,
    UnsupportedIdSize { message: Seq<char> },
    UnsupportedDumpFormat { message: Seq<char> },
    StdIoError { message: Seq<char> },
    StdThreadError { message: Seq<char> },
    JavaHelperError { message: Seq<char> },
}

impl View for HprofSlurpError {
    type V = Failure;

    open spec fn view(&self) -> Failure {
        match *self {
            HprofSlurpError::InvalidHprofFile { message } => Failure::InvalidHprofFile {
                message: message@,
            },
            HprofSlurpError::InvalidIdSize => Failure::InvalidIdSize,
            HprofSlurpError::InvalidHeaderSize => Failure::InvalidHeaderSize,
            HprofSlurpError::UnsupportedIdSize { message } => Failure::UnsupportedIdSize {
                message: message@,
            },
            HprofSlurpError::UnsupportedDumpFormat { message } => Failure::UnsupportedDumpFormat {
                message: message@,
            },
            HprofSlurpError::StdIoError { message } => Failure::StdIoError { message: message@ },
            HprofSlurpError::StdThreadError { message } => Failure::StdThreadError {
                message: message@,
            },
            HprofSlurpError::JavaHelperError { message } => Failure::JavaHelperError {
                message: message@,
            },
        }
    }
}

} // verus!
