//! The recognition stage: how the engine is set up, and how its segments
//! become a transcript.
//!
//! The engine itself runs in the host. A `Transcriber` stands for a loaded
//! model: it names the model file and fixes the decoding parameters.

use vstd::prelude::*;
use vstd::string::StringExecFns;
use crate::error::AudioError;
use crate::text::{trim_text, trimmed};

verus! {

/// The texts of the segments that could be read, one after the other.
pub open spec fn segment_text(segments: Seq<Option<String>>) -> Seq<char>
    decreases segments.len(),
{
    if segments.len() == 0 {
        Seq::empty()
    } else {
        segment_text(segments.drop_last()) + match segments.last() {
            Some(text) => text@,
            None => Seq::empty(),
        }
    }
}

/// The parameters of one decoding run.
#[derive(Clone, Debug, PartialEq, Eq)]
pub struct DecodeParams {
    /// Candidates kept by the greedy strategy.
    pub best_of: u32,
    /// The language the engine is told to expect.
    pub language: String,
    /// Whether special tokens are printed.
    pub print_special: bool,
    /// Whether progress is printed.
    pub print_progress: bool,
    /// Whether results are printed as they come.
    pub print_realtime: bool,
    /// Whether timestamps are printed.
    pub print_timestamps: bool,
    /// Whether blank output is suppressed.
    pub suppress_blank: bool,
    /// Whether the whole buffer is decoded as one segment.
    pub single_segment: bool,
    /// Whether earlier text is kept out of the prompt.
    pub no_context: bool,
    /// Worker threads.
    pub n_threads: u32,
}

/// A loaded model.
#[derive(Clone, Debug, PartialEq, Eq)]
pub struct Transcriber {
    model_path: String,
}

impl Transcriber {
    /// The path of the model file.
    pub closed spec fn path(self) -> Seq<char> {
        self.model_path@
    }

    /// Takes a model into use. `model_path` is `None` where the path is not
    /// text; `opened` is what the host's attempt to open the model gave.
    pub fn new(model_path: Option<&str>, opened: Result<(), String>) -> (result: Result<
        Transcriber,
        AudioError,
    >)
        ensures
            match (model_path, opened) {
                (None, _) => result matches Err(AudioError::ModelLoadFailed(reason)) && reason@
                    == "Invalid model path"@,
                (Some(_), Err(reason)) => result == Err::<Transcriber, AudioError>(
                    AudioError::ModelLoadFailed(reason),
                ),
                (Some(path), Ok(_)) => result matches Ok(transcriber) && transcriber.path()
                    == path@,
            },
    {
        match model_path {
            None => Err(AudioError::ModelLoadFailed(String::from_str("Invalid model path"))),
            Some(path) => match opened {
                Err(reason) => Err(AudioError::ModelLoadFailed(reason)),
                Ok(_) => Ok(Transcriber { model_path: String::from_str(path) }),
            },
        }
    }

    /// The path of the model file.
    pub fn model_path(&self) -> (path: &str)
        ensures
            path@ == self.path(),
    {
        self.model_path.as_str()
    }

    /// The parameters of every run: greedy decoding of the best candidate
    /// only, English, nothing printed, blank output suppressed, the whole
    /// buffer as one segment without earlier context, four threads.
    pub fn params(&self) -> (params: DecodeParams)
        ensures
            params.best_of == 1,
            params.language@ == "en"@,
            !params.print_special,
            !params.print_progress,
            !params.print_realtime,
            !params.print_timestamps,
            params.suppress_blank,
            params.single_segment,
            params.no_context,
            params.n_threads == 4,
    {
        DecodeParams {
            best_of: 1,
            language: String::from_str("en"),
            print_special: false,
            print_progress: false,
            print_realtime: false,
            print_timestamps: false,
            suppress_blank: true,
            single_segment: true,
            no_context: true,
            n_threads: 4,
        }
    }

    /// The transcript of `audio`, given what the engine returned for it.
    ///
    /// Empty audio has the empty transcript, and the engine need not have
    /// been run on it. Otherwise `outcome` holds the text of each segment in
    /// order, `None` for a segment whose text could not be read, or the
    /// reason the engine failed. The texts are joined and the white space
    /// round the whole is removed. No segment gives the empty transcript.
    pub fn transcribe<T>(&self, audio: &[T], outcome: Result<Vec<Option<String>>, String>) -> (result:
        Result<String, AudioError>)
        ensures
            audio@.len() == 0 ==> (result matches Ok(text) && text@.len() == 0),
            audio@.len() > 0 ==> match outcome {
                Ok(segments) => result matches Ok(text) && text@ == trimmed(
                    segment_text(segments@),
                ),
                Err(reason) => result == Err::<String, AudioError>(
                    AudioError::TranscriptionFailed(reason),
                ),
            },
    {
        if audio.len() == 0 {
            return Ok(String::new());
        }
        match outcome {
            Err(reason) => Err(AudioError::TranscriptionFailed(reason)),
            Ok(segments) => {
                let mut text: String = String::new();
                let mut at: usize = 0;
                while at < segments.len()
                    invariant
                        at <= segments@.len(),
                        text@ == segment_text(segments@.take(at as int)),
                    decreases segments@.len() - at,
                {
                    proof {
                        assert(segments@.take(at as int + 1).drop_last() =~= segments@.take(
                            at as int,
                        ));
                    }
                    match &segments[at] {
                        Some(segment) => {
                            text.append(segment.as_str());
                        },
                        None => {},
                    }
                    at = at + 1;
                }
                proof {
                    assert(segments@.take(at as int) =~= segments@);
                }
                Ok(String::from_str(trim_text(text.as_str())))
            },
        }
    }
}

} // verus!
