//! The recording session: capture, the sample buffer, conversion and
//! transcription tied into one start/stop lifecycle.
//!
//! The pipeline decides; the host acts. The host asks the device, opens the
//! stream, runs the converter and the recognition engine, and publishes
//! events. Between these steps it calls the functions here, in this order:
//!
//! 1. `start_recording` with what the device gave. On success the host
//!    publishes `EVENT_RECORDING_STARTED` with the returned rate.
//! 2. `on_samples` for each mono chunk of the stream. Where it returns
//!    `true` the host publishes `EVENT_AUDIO_LEVEL` with the chunk's level.
//! 3. `stop_recording`, which says whether there is anything to convert.
//! 4. `AudioResampler::chunks` and `AudioResampler::process` round the
//!    converter engine.
//! 5. `transcriber_for` with the converted samples, then the engine, then
//!    `Transcriber::transcribe`. On success the host publishes
//!    `EVENT_TRANSCRIPTION` with the text.

use vstd::prelude::*;
use crate::capture::{start_outcome, AudioCapture, DeviceProbe};
use crate::error::AudioError;
use crate::resample::{append_samples, AudioResampler};
use crate::transcribe::Transcriber;

verus! {

/// Name of the event that carries the level of each delivered chunk.
pub const EVENT_AUDIO_LEVEL: &'static str = "audio-level";

/// Name of the event that carries the negotiated sample rate.
pub const EVENT_RECORDING_STARTED: &'static str = "recording-started";

/// Name of the event that carries the final transcript.
pub const EVENT_TRANSCRIPTION: &'static str = "transcription";

/// What is left to do when a recording has been stopped.
#[derive(Debug, PartialEq, Eq)]
pub enum StopStep<T> {
    /// Nothing: the call is over with this result, and neither the
    /// converter nor the engine is run.
    Finished(Result<String, AudioError>),
    /// The captured samples are to be converted with this converter.
    Convert {
        /// Everything captured in the session, in order.
        samples: Vec<T>,
        /// The converter for the rate the session was recorded at.
        resampler: AudioResampler,
    },
}

/// The orchestrator of one recording at a time.
pub struct AudioPipeline<T> {
    capture: AudioCapture,
    transcriber: Option<Transcriber>,
    audio_buffer: Vec<T>,
    sample_rate: u32,
}

impl<T: Copy> AudioPipeline<T> {
    /// The capture side.
    pub closed spec fn capture(self) -> AudioCapture {
        self.capture
    }

    /// The loaded model, if there is one.
    pub closed spec fn transcriber(self) -> Option<Transcriber> {
        self.transcriber
    }

    /// The samples captured so far in this session.
    pub closed spec fn buffered(self) -> Seq<T> {
        self.audio_buffer@
    }

    /// The sample rate of the last session that started.
    pub closed spec fn sample_rate(self) -> u32 {
        self.sample_rate
    }

    /// What `stop_recording` asks for, given what was captured at which rate.
    pub open spec fn stop_step(samples: Seq<T>, sample_rate: u32) -> StopStepView<T> {
        if samples.len() == 0 {
            StopStepView::Finished(Ok(Seq::empty()))
        } else if sample_rate == 0 {
            StopStepView::Finished(Err(AudioError::ConversionFailed))
        } else {
            StopStepView::Convert { samples, source_rate: sample_rate }
        }
    }

    /// A pipeline without a model, not recording, with nothing captured.
    pub fn new() -> (pipeline: AudioPipeline<T>)
        ensures
            pipeline.transcriber() is None,
            !pipeline.capture().recording(),
            pipeline.capture().session() is None,
            pipeline.capture().wf(),
            pipeline.buffered().len() == 0,
    {
        AudioPipeline {
            capture: AudioCapture::new(),
            transcriber: None,
            audio_buffer: Vec::new(),
            sample_rate: 0,
        }
    }

    /// Takes a model into use. A model that was loaded before is replaced
    /// only when the new one has loaded; on failure nothing changes.
    pub fn load_model(&mut self, model_path: Option<&str>, opened: Result<(), String>) -> (result:
        Result<(), AudioError>)
        ensures
            match (model_path, opened) {
                (None, _) => result matches Err(AudioError::ModelLoadFailed(reason)) && reason@
                    == "Invalid model path"@,
                (Some(_), Err(reason)) => result == Err::<(), AudioError>(
                    AudioError::ModelLoadFailed(reason),
                ),
                (Some(path), Ok(_)) => result is Ok && (final(self).transcriber() matches Some(
                    transcriber,
                ) && transcriber.path() == path@),
            },
            result is Err ==> final(self).transcriber() == old(self).transcriber(),
            final(self).capture() == old(self).capture(),
            final(self).buffered() == old(self).buffered(),
            final(self).sample_rate() == old(self).sample_rate(),
    {
        match Transcriber::new(model_path, opened) {
            Ok(transcriber) => {
                self.transcriber = Some(transcriber);
                Ok(())
            },
            Err(error) => Err(error),
        }
    }

    /// Whether a model is loaded.
    pub fn is_model_loaded(&self) -> (yes: bool)
        ensures
            yes == (self.transcriber() is Some),
    {
        self.transcriber.is_some()
    }

    /// Starts a session on what the host found: `probe` is what the device
    /// gave, `opened` whether its stream was opened and started.
    ///
    /// The buffer is emptied first, whatever follows. On success the
    /// negotiated sample rate is returned and kept, and samples are taken
    /// from then on. On failure the capture side is left as it was.
    pub fn start_recording(&mut self, probe: DeviceProbe, opened: bool) -> (result: Result<
        u32,
        AudioError,
    >)
        ensures
            result == start_outcome(probe, opened),
            final(self).buffered().len() == 0,
            final(self).transcriber() == old(self).transcriber(),
            result is Ok ==> (probe matches DeviceProbe::Ready(session) && final(self).capture().session()
                == Some(session) && final(self).capture().recording() && final(self).sample_rate()
                == session.sample_rate),
            result is Err ==> final(self).capture() == old(self).capture(),
            result is Err ==> final(self).sample_rate() == old(self).sample_rate(),
            old(self).capture().wf() ==> final(self).capture().wf(),
    {
        self.audio_buffer.clear();
        let result = self.capture.start(probe, opened);
        match result {
            Ok(rate) => {
                self.sample_rate = rate;
            },
            Err(_) => {},
        }
        result
    }

    /// Takes one mono chunk from the stream. While the session records, the
    /// chunk is appended to the buffer and `true` is returned. Otherwise
    /// nothing changes and `false` is returned.
    pub fn on_samples(&mut self, samples: &[T]) -> (taken: bool)
        ensures
            taken == old(self).capture().recording(),
            taken ==> final(self).buffered() == old(self).buffered() + samples@,
            !taken ==> final(self).buffered() == old(self).buffered(),
            final(self).capture() == old(self).capture(),
            final(self).transcriber() == old(self).transcriber(),
            final(self).sample_rate() == old(self).sample_rate(),
    {
        if self.capture.is_recording() {
            append_samples(&mut self.audio_buffer, samples);
            true
        } else {
            false
        }
    }

    /// Stops the session and takes everything captured out of the buffer.
    ///
    /// With nothing captured the call is over with the empty transcript.
    /// Otherwise the samples are handed out with the converter for the
    /// session's sample rate; a rate no converter can be built for ends the
    /// call with `ConversionFailed`.
    pub fn stop_recording(&mut self) -> (step: StopStep<T>)
        ensures
            !final(self).capture().recording(),
            final(self).capture().session() is None,
            final(self).capture().wf(),
            final(self).buffered().len() == 0,
            final(self).transcriber() == old(self).transcriber(),
            final(self).sample_rate() == old(self).sample_rate(),
            step.view() == Self::stop_step(old(self).buffered(), old(self).sample_rate()),
    {
        self.capture.stop();
        let mut samples: Vec<T> = Vec::new();
        append_samples(&mut samples, self.audio_buffer.as_slice());
        self.audio_buffer.clear();
        if samples.len() == 0 {
            return StopStep::Finished(Ok(String::new()));
        }
        match AudioResampler::new(self.sample_rate) {
            Err(error) => StopStep::Finished(Err(error)),
            Ok(resampler) => StopStep::Convert { samples, resampler },
        }
    }

    /// The model to transcribe the converted samples with.
    ///
    /// A failed conversion is passed on. After a conversion that went well,
    /// a pipeline without a model answers `ModelNotLoaded`. The pipeline
    /// itself is not changed.
    pub fn transcriber_for<'a>(&'a self, converted: &Result<Vec<T>, AudioError>) -> (result:
        Result<&'a Transcriber, AudioError>)
        ensures
            match (*converted, self.transcriber()) {
                (Err(error), _) => result == Err::<&Transcriber, AudioError>(error),
                (Ok(_), None) => result == Err::<&Transcriber, AudioError>(
                    AudioError::ModelNotLoaded,
                ),
                (Ok(_), Some(transcriber)) => result matches Ok(found) && *found == transcriber,
            },
    {
        match converted {
            Err(error) => Err(error.clone()),
            Ok(_) => match &self.transcriber {
                None => Err(AudioError::ModelNotLoaded),
                Some(transcriber) => Ok(transcriber),
            },
        }
    }

    /// Whether a session records.
    pub fn is_recording(&self) -> (yes: bool)
        ensures
            yes == self.capture().recording(),
    {
        self.capture.is_recording()
    }
}

/// A `StopStep` over views.
pub enum StopStepView<T> {
    /// The call is over with this result.
    Finished(Result<Seq<char>, AudioError>),
    /// These samples are to be converted from this rate.
    Convert {
        /// The samples.
        samples: Seq<T>,
        /// Their rate.
        source_rate: u32,
    },
}

impl<T> StopStep<T> {
    /// The step with its samples and text as sequences.
    pub open spec fn view(self) -> StopStepView<T> {
        match self {
            StopStep::Finished(Ok(text)) => StopStepView::Finished(Ok(text@)),
            StopStep::Finished(Err(error)) => StopStepView::Finished(Err(error)),
            StopStep::Convert { samples, resampler } => StopStepView::Convert {
                samples: samples@,
                source_rate: resampler.rate(),
            },
        }
    }
}

} // verus!
