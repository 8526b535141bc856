//! The ways in which a capture session fails.

use vstd::prelude::*;

verus! {

/// A failure of a capture session, or of the inference that follows it.
#[derive(Debug, Clone, Copy, PartialEq, Eq, Structural)]
pub enum CaptureError {
    /// No input device is available.
    DeviceNotFound,
    /// The device could not report its configurations.
    ConfigQueryError,
    /// The hardware rejected the configuration or the stream did not start.
    StreamStartError,
    /// One block could not be read; the block is lost and capture goes on.
    StreamReadError,
    /// The capturing side went away before the utterance ended.
    CaptureChannelClosed,
    /// The inference engine failed on the finished utterance.
    InferenceError,
}

impl CaptureError {
    /// Whether the failure ends the session. Only a failed read of one block
    /// does not.
    pub open spec fn fatal(self) -> bool {
        self != CaptureError::StreamReadError
    }

    /// The text shown to the operator for this failure.
    pub open spec fn text(self) -> Seq<char> {
        match self {
            CaptureError::DeviceNotFound => "no input device found"@,
            CaptureError::ConfigQueryError => "input device configurations unavailable"@,
            CaptureError::StreamStartError => "failed to start the stream"@,
            CaptureError::StreamReadError => "stream read error"@,
            CaptureError::CaptureChannelClosed => "capture channel closed"@,
            CaptureError::InferenceError => "inference failed"@,
        }
    }

    /// Whether the session must stop on this failure.
    pub fn is_fatal(&self) -> (fatal: bool)
        ensures
            fatal == self.fatal(),
    {
        match self {
            CaptureError::StreamReadError => false,
            _ => true,
        }
    }

    /// The text shown to the operator for this failure.
    pub fn message(&self) -> (text: &'static str)
        ensures
            text@ == self.text(),
    {
        match self {
            CaptureError::DeviceNotFound => "no input device found",
            CaptureError::ConfigQueryError => "input device configurations unavailable",
            CaptureError::StreamStartError => "failed to start the stream",
            CaptureError::StreamReadError => "stream read error",
            CaptureError::CaptureChannelClosed => "capture channel closed",
            CaptureError::InferenceError => "inference failed",
        }
    }
}

} // verus!
