//! Failures of the pipeline and of the command surface.

use vstd::prelude::*;
use vstd::string::StringExecFns;

verus! {

/// Why an operation of the audio pipeline failed.
#[derive(Debug, PartialEq, Eq)]
pub enum AudioError {
    /// The host has no default input device.
    NoInputDevice,
    /// The device offers no default input configuration.
    ConfigUnavailable,
    /// The device delivers samples that are neither 32-bit float nor 16-bit integer.
    UnsupportedSampleFormat,
    /// The input stream could not be opened or did not start.
    NoResponse,
    /// The rate converter reported an internal error.
    ConversionFailed,
    /// The model file could not be opened or is malformed.
    ModelLoadFailed(String),
    /// A recording was stopped while no model was loaded.
    ModelNotLoaded,
    /// The recognition engine failed while creating its state or decoding.
    TranscriptionFailed(String),
}

impl Clone for AudioError {
    fn clone(&self) -> (copy: AudioError)
        ensures
            copy == *self,
    {
        match self {
            AudioError::NoInputDevice => AudioError::NoInputDevice,
            AudioError::ConfigUnavailable => AudioError::ConfigUnavailable,
            AudioError::UnsupportedSampleFormat => AudioError::UnsupportedSampleFormat,
            AudioError::NoResponse => AudioError::NoResponse,
            AudioError::ConversionFailed => AudioError::ConversionFailed,
            AudioError::ModelLoadFailed(reason) => AudioError::ModelLoadFailed(reason.clone()),
            AudioError::ModelNotLoaded => AudioError::ModelNotLoaded,
            AudioError::TranscriptionFailed(reason) => AudioError::TranscriptionFailed(
                reason.clone(),
            ),
        }
    }
}

impl AudioError {
    /// The text of the message, as a sequence of characters.
    pub open spec fn message_text(self) -> Seq<char> {
        match self {
            AudioError::NoInputDevice => "No default input device found"@,
            AudioError::ConfigUnavailable => "Failed to get default input config"@,
            AudioError::UnsupportedSampleFormat => "Unsupported sample format"@,
            AudioError::NoResponse => "Input stream did not start"@,
            AudioError::ConversionFailed => "Sample rate conversion failed"@,
            AudioError::ModelLoadFailed(reason) => "Failed to load Whisper model: "@ + reason@,
            AudioError::ModelNotLoaded => "Whisper model not loaded"@,
            AudioError::TranscriptionFailed(reason) => "Transcription failed: "@ + reason@,
        }
    }

    /// A message for the user.
    pub fn message(&self) -> (text: String)
        ensures
            text@ == self.message_text(),
    {
        match self {
            AudioError::NoInputDevice => String::from_str("No default input device found"),
            AudioError::ConfigUnavailable => String::from_str(
                "Failed to get default input config",
            ),
            AudioError::UnsupportedSampleFormat => String::from_str("Unsupported sample format"),
            AudioError::NoResponse => String::from_str("Input stream did not start"),
            AudioError::ConversionFailed => String::from_str("Sample rate conversion failed"),
            AudioError::ModelLoadFailed(reason) => String::from_str(
                "Failed to load Whisper model: ",
            ).concat(reason.as_str()),
            AudioError::ModelNotLoaded => String::from_str("Whisper model not loaded"),
            AudioError::TranscriptionFailed(reason) => String::from_str(
                "Transcription failed: ",
            ).concat(reason.as_str()),
        }
    }
}

/// A failure as the command surface reports it to the user interface.
///
/// Each variant carries the text of its cause.
#[derive(Clone, Debug, PartialEq, Eq)]
pub enum VoxError {
    /// The companion process, or a pipeline operation run on its behalf.
    Sidecar(String),
    /// Reading or writing a stream.
    Io(String),
    /// Encoding or decoding a protocol message.
    Json(String),
}

impl VoxError {
    /// The text of the message, as a sequence of characters.
    pub open spec fn message_text(self) -> Seq<char> {
        match self {
            VoxError::Sidecar(cause) => "Sidecar error: "@ + cause@,
            VoxError::Io(cause) => "IO error: "@ + cause@,
            VoxError::Json(cause) => "JSON error: "@ + cause@,
        }
    }

    /// The message shown to the user, which is also the serialised form.
    pub fn message(&self) -> (text: String)
        ensures
            text@ == self.message_text(),
    {
        match self {
            VoxError::Sidecar(cause) => String::from_str("Sidecar error: ").concat(cause.as_str()),
            VoxError::Io(cause) => String::from_str("IO error: ").concat(cause.as_str()),
            VoxError::Json(cause) => String::from_str("JSON error: ").concat(cause.as_str()),
        }
    }

    /// Reports a pipeline failure through the command surface.
    pub fn from_audio(error: &AudioError) -> (reported: VoxError)
        ensures
            reported matches VoxError::Sidecar(cause) && cause@ == error.message_text(),
    {
        VoxError::Sidecar(error.message())
    }
}

} // verus!
