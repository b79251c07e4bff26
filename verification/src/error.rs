//! Error taxonomy of the timing and protocol core.
//!
//! Errors fall into the classes the design distinguishes: configuration
//! errors caught before any native call, local format-mismatch errors,
//! translated native engine codes, input handed to a stage that has already
//! been flushed, and a few argument errors. End-of-stream and an empty
//! drain are not errors anywhere in this crate.

use vstd::prelude::*;

verus! {

/// A required builder option, named so that a configuration error can
/// report the first missing field.
#[derive(Clone, Copy, Debug, PartialEq, Eq, Structural)]
pub enum ConfigField {
    TimeBase,
    SourceChannelLayout,
    SourceSampleFormat,
    SourceSampleRate,
    TargetChannelLayout,
    TargetSampleFormat,
    TargetSampleRate,
    FilterDescription,
}

/// The part of a frame's shape that failed a stage's local check.
#[derive(Clone, Copy, Debug, PartialEq, Eq, Structural)]
pub enum MismatchField {
    ChannelLayout,
    SampleFormat,
    SampleRate,
}

/// An error of the timing and protocol core.
#[derive(Clone, Copy, Debug, PartialEq, Eq, Structural)]
pub enum Error {
    /// A required option was not set before building; carries the first
    /// missing field.
    Config(ConfigField),
    /// A frame's shape does not match the stage's declared source format.
    Mismatch(MismatchField),
    /// A negative result code surfaced by the native engine.
    Native(i64),
    /// Input was handed to a stage after its flush/drain cycle completed.
    Flushed,
    /// A null timestamp was used where a defined value is required.
    NullTimestamp,
    /// A stream index outside the container's stream list.
    InvalidStreamIndex,
    /// A container description that does not satisfy the container rules.
    InvalidData,
}

impl Error {
    /// Translate a native engine result code: negative codes are errors
    /// carrying the code itself.
    pub fn from_raw_error_code(code: i64) -> (r: Error)
        ensures
            r == Error::Native(code),
    {
        Error::Native(code)
    }

    /// A short description of the error.
    pub fn message(&self) -> (r: String)
        ensures
            r@.len() > 0,
            *self is Config ==> r@ == "a required option was not set"@,
            *self is Mismatch ==> r@ == "frame does not match the declared source format"@,
            *self is Native ==> r@ == "native engine error"@,
            *self is Flushed ==> r@ == "input after the stage was flushed and drained"@,
            *self is NullTimestamp ==> r@ == "null timestamp"@,
            *self is InvalidStreamIndex ==> r@ == "invalid stream index"@,
            *self is InvalidData ==> r@ == "invalid container data"@,
    {
        let s: &str = match self {
            Error::Config(_) => "a required option was not set",
            Error::Mismatch(_) => "frame does not match the declared source format",
            Error::Native(_) => "native engine error",
            Error::Flushed => "input after the stage was flushed and drained",
            Error::NullTimestamp => "null timestamp",
            Error::InvalidStreamIndex => "invalid stream index",
            Error::InvalidData => "invalid container data",
        };
        proof {
            reveal_strlit("a required option was not set");
            reveal_strlit("frame does not match the declared source format");
            reveal_strlit("native engine error");
            reveal_strlit("input after the stage was flushed and drained");
            reveal_strlit("null timestamp");
            reveal_strlit("invalid stream index");
            reveal_strlit("invalid container data");
        }
        s.to_owned()
    }
}

/// The outcome classes of a stage operation. `Again` is the backpressure
/// signal: buffered output must be drained before more input is accepted.
#[derive(Clone, Copy, Debug, PartialEq, Eq, Structural)]
pub enum CodecError {
    /// The operation cannot be accepted until pending output is drained.
    Again,
    /// A definite error.
    Other(Error),
}

impl CodecError {
    /// Whether this is the backpressure signal.
    pub fn is_again(&self) -> (r: bool)
        ensures
            r == (*self is Again),
    {
        matches!(self, CodecError::Again)
    }

    /// Translate a native engine result code: negative codes are definite
    /// errors carrying the code itself.
    pub fn from_raw_error_code(code: i64) -> (r: CodecError)
        ensures
            r == CodecError::Other(Error::Native(code)),
    {
        CodecError::Other(Error::Native(code))
    }

    /// Extract the definite error. Callers must have ruled out the
    /// backpressure signal first.
    pub fn unwrap_inner(self) -> (r: Error)
        requires
            !(self is Again),
        ensures
            self == CodecError::Other(r),
    {
        match self {
            CodecError::Other(e) => e,
            CodecError::Again => Error::InvalidData,
        }
    }
}

} // verus!
