//! Error taxonomy of the pipeline: fatal configuration failures,
//! fail-soft streaming conditions, and synchronous contract violations.

use vstd::prelude::*;

verus! {

/// Fatal failure of session creation: no usable input device or an
/// unsupported configuration. Surfaced immediately; never retried
/// automatically.
#[derive(Clone, Copy, Debug, PartialEq, Eq, Structural)]
pub enum DeviceError {
    NoInputDevice,
    UnsupportedConfig,
}

/// Non-fatal condition recorded while streaming. The capture path is
/// fail-soft: these are recorded and surfaced asynchronously, and the
/// callback context keeps running.
#[derive(Clone, Copy, Debug, PartialEq, Eq, Structural)]
pub enum StreamError {
    DeviceDisconnected,
    Overflow,
    Underflow,
    MalformedChunk,
}

/// Contract violation returned synchronously by the analysis stages.
#[derive(Clone, Copy, Debug, PartialEq, Eq, Structural)]
pub enum AnalysisError {
    /// A window of zero length where a mean or a correlation is asked for.
    EmptyWindow,
    /// Two windows of different lengths handed to the correlation sweep.
    LengthMismatch,
    /// A snapshot range that exceeds the written length of a buffer.
    OutOfRange,
}

impl DeviceError {
    /// The user-visible diagnostic text of a device failure.
    pub open spec fn text_spec(&self) -> Seq<char> {
        match self {
            DeviceError::NoInputDevice => "no input device available"@,
            DeviceError::UnsupportedConfig => "unsupported device configuration"@,
        }
    }

    pub fn describe(&self) -> (r: &'static str)
        ensures
            r@ == self.text_spec(),
    {
        match self {
            DeviceError::NoInputDevice => "no input device available",
            DeviceError::UnsupportedConfig => "unsupported device configuration",
        }
    }
}

impl StreamError {
    /// The user-visible diagnostic text of a recorded streaming condition.
    pub open spec fn text_spec(&self) -> Seq<char> {
        match self {
            StreamError::DeviceDisconnected => "device disconnected"@,
            StreamError::Overflow => "buffer overflow: chunk rejected"@,
            StreamError::Underflow => "buffer underflow"@,
            StreamError::MalformedChunk => "malformed chunk dropped"@,
        }
    }

    pub fn describe(&self) -> (r: &'static str)
        ensures
            r@ == self.text_spec(),
    {
        match self {
            StreamError::DeviceDisconnected => "device disconnected",
            StreamError::Overflow => "buffer overflow: chunk rejected",
            StreamError::Underflow => "buffer underflow",
            StreamError::MalformedChunk => "malformed chunk dropped",
        }
    }
}

impl AnalysisError {
    /// The user-visible diagnostic text of an analysis contract violation.
    pub open spec fn text_spec(&self) -> Seq<char> {
        match self {
            AnalysisError::EmptyWindow => "empty window"@,
            AnalysisError::LengthMismatch => "window lengths differ"@,
            AnalysisError::OutOfRange => "snapshot range out of bounds"@,
        }
    }

    pub fn describe(&self) -> (r: &'static str)
        ensures
            r@ == self.text_spec(),
    {
        match self {
            AnalysisError::EmptyWindow => "empty window",
            AnalysisError::LengthMismatch => "window lengths differ",
            AnalysisError::OutOfRange => "snapshot range out of bounds",
        }
    }
}

} // verus!
