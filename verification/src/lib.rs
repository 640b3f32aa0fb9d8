//! Verified core of a push-to-talk speech capture pipeline.
//!
//! The crate holds the decisions of the pipeline: how a device is accepted,
//! how captured frames are folded to mono, how a recording is cut into
//! converter chunks, when a frame counts as speech, and in which order a
//! recording session moves from capture to transcript. Device access, the
//! converter engine and the recognition engine are driven by the host, which
//! hands their results to the functions here as plain values.

pub mod capture;
pub mod error;
pub mod pipeline;
pub mod resample;
pub mod sidecar;
pub mod text;
pub mod transcribe;
pub mod vad;
