use voxcode::error::{AudioError, VoxError};

#[test]
fn audio_error_messages() {
    assert_eq!(AudioError::NoInputDevice.message(), "No default input device found");
    assert_eq!(AudioError::ConfigUnavailable.message(), "Failed to get default input config");
    assert_eq!(AudioError::UnsupportedSampleFormat.message(), "Unsupported sample format");
    assert_eq!(AudioError::NoResponse.message(), "Input stream did not start");
    assert_eq!(AudioError::ConversionFailed.message(), "Sample rate conversion failed");
    assert_eq!(AudioError::ModelNotLoaded.message(), "Whisper model not loaded");
    assert_eq!(
        AudioError::ModelLoadFailed("bad magic".to_string()).message(),
        "Failed to load Whisper model: bad magic"
    );
    assert_eq!(
        AudioError::TranscriptionFailed("out of memory".to_string()).message(),
        "Transcription failed: out of memory"
    );
}

#[test]
fn audio_error_clone_is_equal() {
    let errors = vec![
        AudioError::NoInputDevice,
        AudioError::ConfigUnavailable,
        AudioError::UnsupportedSampleFormat,
        AudioError::NoResponse,
        AudioError::ConversionFailed,
        AudioError::ModelLoadFailed("a".to_string()),
        AudioError::ModelNotLoaded,
        AudioError::TranscriptionFailed("b".to_string()),
    ];
    for error in errors {
        assert_eq!(error.clone(), error);
    }
}

#[test]
fn vox_error_messages() {
    assert_eq!(VoxError::Sidecar("gone".to_string()).message(), "Sidecar error: gone");
    assert_eq!(VoxError::Io("broken pipe".to_string()).message(), "IO error: broken pipe");
    assert_eq!(VoxError::Json("eof".to_string()).message(), "JSON error: eof");
}

#[test]
fn audio_error_is_reported_as_sidecar_error() {
    let reported = VoxError::from_audio(&AudioError::ModelNotLoaded);
    assert_eq!(reported, VoxError::Sidecar("Whisper model not loaded".to_string()));
    assert_eq!(reported.message(), "Sidecar error: Whisper model not loaded");
}
