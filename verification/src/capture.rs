//! Device capture: accepting a device and folding its frames to mono.

use vstd::prelude::*;
use crate::error::AudioError;

verus! {

/// The sample format a device delivers.
#[derive(Clone, Copy, Debug, PartialEq, Eq, Structural)]
pub enum SampleFormat {
    /// 32-bit floating point, already in the unit range.
    Float32,
    /// 16-bit signed integer PCM.
    Int16,
    /// Any other format.
    Other,
}

impl SampleFormat {
    /// Whether the pipeline can take samples in this format.
    pub open spec fn supported(self) -> bool {
        self == SampleFormat::Float32 || self == SampleFormat::Int16
    }

    /// Whether the pipeline can take samples in this format.
    pub fn is_supported(&self) -> (yes: bool)
        ensures
            yes == self.supported(),
    {
        match self {
            SampleFormat::Float32 => true,
            SampleFormat::Int16 => true,
            SampleFormat::Other => false,
        }
    }
}

/// One open input stream: what was negotiated with the device.
#[derive(Clone, Copy, Debug, PartialEq, Eq, Structural)]
pub struct CaptureSession {
    /// Frames per second.
    pub sample_rate: u32,
    /// Interleaved channels per frame.
    pub channels: u16,
    /// Format of each sample.
    pub format: SampleFormat,
}

/// What the host found when it asked for the default input device.
#[derive(Clone, Copy, Debug, PartialEq, Eq, Structural)]
pub enum DeviceProbe {
    /// There is no default input device.
    NoDevice,
    /// There is a device, but it has no default input configuration.
    NoConfig,
    /// The device and its default configuration.
    Ready(CaptureSession),
}

/// The outcome of starting on `probe`, where `opened` says whether the host
/// could open and start the stream.
pub open spec fn start_outcome(probe: DeviceProbe, opened: bool) -> Result<u32, AudioError> {
    match probe {
        DeviceProbe::NoDevice => Err(AudioError::NoInputDevice),
        DeviceProbe::NoConfig => Err(AudioError::ConfigUnavailable),
        DeviceProbe::Ready(session) => if !session.format.supported() {
            Err(AudioError::UnsupportedSampleFormat)
        } else if !opened {
            Err(AudioError::NoResponse)
        } else {
            Ok(session.sample_rate)
        },
    }
}

/// The capture side of the pipeline: at most one open stream, and the flag
/// that tells the stream's callback whether its frames are wanted.
#[derive(Clone, Copy, Debug, PartialEq, Eq, Structural)]
pub struct AudioCapture {
    session: Option<CaptureSession>,
    recording: bool,
}

impl AudioCapture {
    /// The open stream, if there is one.
    pub closed spec fn session(self) -> Option<CaptureSession> {
        self.session
    }

    /// Whether frames are wanted.
    pub closed spec fn recording(self) -> bool {
        self.recording
    }

    /// Frames are wanted only while a stream is open.
    pub open spec fn wf(self) -> bool {
        self.recording() ==> self.session() is Some
    }

    /// A capture with no stream, not recording.
    pub fn new() -> (capture: AudioCapture)
        ensures
            capture.session() is None,
            !capture.recording(),
            capture.wf(),
    {
        AudioCapture { session: None, recording: false }
    }

    /// Starts a session on what the host found.
    ///
    /// `opened` is consulted only for a device whose format is supported: it
    /// says whether the stream was opened and started. On success the
    /// negotiated sample rate is returned, the session is kept and frames are
    /// wanted. On failure nothing changes.
    pub fn start(&mut self, probe: DeviceProbe, opened: bool) -> (result: Result<u32, AudioError>)
        ensures
            result == start_outcome(probe, opened),
            result is Ok ==> (probe matches DeviceProbe::Ready(session) && final(self).session()
                == Some(session) && final(self).recording()),
            result is Err ==> *final(self) == *old(self),
            old(self).wf() ==> final(self).wf(),
    {
        match probe {
            DeviceProbe::NoDevice => Err(AudioError::NoInputDevice),
            DeviceProbe::NoConfig => Err(AudioError::ConfigUnavailable),
            DeviceProbe::Ready(session) => {
                if !session.format.is_supported() {
                    Err(AudioError::UnsupportedSampleFormat)
                } else if !opened {
                    Err(AudioError::NoResponse)
                } else {
                    self.session = Some(session);
                    self.recording = true;
                    Ok(session.sample_rate)
                }
            },
        }
    }

    /// Stops the session: frames are no longer wanted, then the stream is let go.
    pub fn stop(&mut self)
        ensures
            *final(self) == old(self).stopped(),
            !final(self).recording(),
            final(self).session() is None,
            final(self).wf(),
    {
        self.recording = false;
        self.session = None;
    }

    /// Whether frames are wanted.
    pub fn is_recording(&self) -> (yes: bool)
        ensures
            yes == self.recording(),
    {
        self.recording
    }

    /// The open stream, if there is one.
    pub fn current_session(&self) -> (session: Option<CaptureSession>)
        ensures
            session == self.session(),
    {
        self.session
    }

    /// The capture after `stop`.
    pub closed spec fn stopped(self) -> AudioCapture {
        AudioCapture { session: None, recording: false }
    }

    /// What the stream's callback hands to the sink for one buffer of 16-bit
    /// frames: the frame sums while frames are wanted, and nothing otherwise.
    pub open spec fn pcm_delivery(self, data: Seq<i16>) -> Option<Seq<int>> {
        match self.session() {
            Some(session) if self.recording() => Some(
                Seq::new(
                    frame_count(data.len(), session.channels as nat),
                    |i: int| sample_sum(frame(data, session.channels as nat, i)),
                ),
            ),
            _ => None,
        }
    }

    /// Runs the callback's part for one buffer of 16-bit frames: nothing is
    /// handed on unless frames are wanted.
    pub fn deliver_pcm(&self, data: &[i16]) -> (mono: Option<Vec<i32>>)
        requires
            self.recording() ==> (self.session() matches Some(session) && session.channels >= 1),
        ensures
            match self.pcm_delivery(data@) {
                Some(sums) => mono matches Some(levels) && levels@.len() == sums.len() && (forall|
                    i: int,
                |
                    0 <= i < sums.len() ==> #[trigger] levels@[i] == sums[i]),
                None => mono is None,
            },
    {
        if !self.recording {
            return None;
        }
        match self.session {
            Some(session) => Some(downmix_pcm(data, session.channels)),
            None => None,
        }
    }

    /// Once `stop` has returned the callback hands nothing on, whatever the
    /// stream still delivers.
    pub proof fn lemma_nothing_after_stop(self, data: Seq<i16>)
        ensures
            !self.stopped().recording(),
            self.stopped().pcm_delivery(data) is None,
    {
    }
}

/// The largest magnitude of a normalised 16-bit sample: the value that
/// stands for 1.0.
pub const PCM_FULL_SCALE: i32 = 32767;

/// The number of frames in `len` interleaved samples. A trailing frame that
/// holds fewer samples than `channels` counts as a frame.
pub open spec fn frame_count(len: nat, channels: nat) -> nat {
    if channels == 0 {
        0
    } else {
        (len + channels - 1) as nat / channels
    }
}

/// The samples of frame `i`.
pub open spec fn frame(data: Seq<i16>, channels: nat, i: int) -> Seq<i16> {
    let end = if (i + 1) * channels <= data.len() {
        (i + 1) * channels
    } else {
        data.len() as int
    };
    data.subrange(i * channels, end)
}

/// The sum of the samples.
pub open spec fn sample_sum(samples: Seq<i16>) -> int
    decreases samples.len(),
{
    if samples.len() == 0 {
        0
    } else {
        sample_sum(samples.drop_last()) + samples.last()
    }
}

/// The value by which a frame's sum is divided to give its mono level:
/// the number of channels times full scale.
pub open spec fn mono_scale(channels: nat) -> int {
    channels * PCM_FULL_SCALE
}

/// The sum of a sequence grows by the sample that is appended.
proof fn lemma_sum_push(samples: Seq<i16>, next: i16)
    ensures
        sample_sum(samples.push(next)) == sample_sum(samples) + next,
{
    assert(samples.push(next).drop_last() =~= samples);
}

/// A sum of samples is bounded by the count times the largest sample magnitudes.
proof fn lemma_sum_bounds(samples: Seq<i16>, low: int)
    requires
        forall|j: int| 0 <= j < samples.len() ==> low <= #[trigger] samples[j],
    ensures
        samples.len() * low <= sample_sum(samples) <= samples.len() * 32767,
    decreases samples.len(),
{
    if samples.len() > 0 {
        let head = samples.drop_last();
        lemma_sum_bounds(head, low);
        assert(samples.len() * low == head.len() * low + low) by (nonlinear_arith)
            requires
                samples.len() == head.len() + 1,
        ;
        assert(samples.len() * 32767 == head.len() * 32767 + 32767) by (nonlinear_arith)
            requires
                samples.len() == head.len() + 1,
        ;
    }
}

/// A sum of equal samples is the count times the sample.
proof fn lemma_sum_constant(samples: Seq<i16>, value: i16)
    requires
        forall|j: int| 0 <= j < samples.len() ==> #[trigger] samples[j] == value,
    ensures
        sample_sum(samples) == samples.len() * value,
    decreases samples.len(),
{
    if samples.len() > 0 {
        let head = samples.drop_last();
        lemma_sum_constant(head, value);
        assert(samples.len() * value == head.len() * value + value) by (nonlinear_arith)
            requires
                samples.len() == head.len() + 1,
        ;
    }
}

/// The bounds of frame `i`, which holds at least one and at most `channels` samples.
proof fn lemma_frame_bounds(len: nat, channels: nat, i: int)
    requires
        channels >= 1,
        0 <= i < frame_count(len, channels),
    ensures
        0 <= i * channels < len,
        (i + 1) * channels == i * channels + channels,
{
    let total = (len + channels - 1) as nat;
    vstd::arithmetic::div_mod::lemma_fundamental_div_mod(total as int, channels as int);
    vstd::arithmetic::div_mod::lemma_mod_bound(total as int, channels as int);
    let count = total as int / channels as int;
    assert(i * channels <= (count - 1) * channels) by (nonlinear_arith)
        requires
            0 <= i <= count - 1,
            channels >= 1,
    ;
    assert((count - 1) * channels == channels * count - channels) by (nonlinear_arith);
    assert(0 <= i * channels) by (nonlinear_arith)
        requires
            0 <= i,
            channels >= 1,
    ;
    assert((i + 1) * channels == i * channels + channels) by (nonlinear_arith);
}

/// Every mono level lies in the unit range: a frame's sum is at most
/// `mono_scale` in magnitude. The one 16-bit value below negative full scale
/// is left out, since it alone scales to less than -1.
pub proof fn lemma_mono_within_unit_range(data: Seq<i16>, channels: nat, i: int)
    requires
        channels >= 1,
        0 <= i < frame_count(data.len(), channels),
        forall|j: int| 0 <= j < data.len() ==> #[trigger] data[j] >= -PCM_FULL_SCALE,
    ensures
        -mono_scale(channels) <= sample_sum(frame(data, channels, i)) <= mono_scale(channels),
{
    lemma_frame_bounds(data.len(), channels, i);
    let samples = frame(data, channels, i);
    lemma_sum_bounds(samples, -32767);
    assert(samples.len() * 32767 <= channels * 32767) by (nonlinear_arith)
        requires
            samples.len() <= channels,
    ;
    assert(samples.len() * (-32767) >= -(channels * 32767)) by (nonlinear_arith)
        requires
            samples.len() <= channels,
    ;
}

/// Channels that agree are not distorted: where every sample of a whole frame
/// is `value`, the frame's mono level `sum / mono_scale` is `value / PCM_FULL_SCALE`.
pub proof fn lemma_equal_channels_keep_value(data: Seq<i16>, channels: nat, i: int, value: i16)
    requires
        channels >= 1,
        0 <= i,
        (i + 1) * channels <= data.len(),
        forall|j: int| i * channels <= j < (i + 1) * channels ==> #[trigger] data[j] == value,
    ensures
        sample_sum(frame(data, channels, i)) == channels * value,
        sample_sum(frame(data, channels, i)) * PCM_FULL_SCALE == value * mono_scale(channels),
{
    assert((i + 1) * channels == i * channels + channels) by (nonlinear_arith);
    assert(0 <= i * channels) by (nonlinear_arith)
        requires
            0 <= i,
            channels >= 1,
    ;
    let samples = frame(data, channels, i);
    assert(samples.len() == channels);
    assert forall|j: int| 0 <= j < samples.len() implies #[trigger] samples[j] == value by {
        assert(samples[j] == data[i * channels + j]);
    }
    lemma_sum_constant(samples, value);
    assert((channels * value) * 32767 == value * (channels * 32767)) by (nonlinear_arith);
}

/// Folds interleaved 16-bit frames to mono.
///
/// Each frame becomes the sum of its samples, in frame order; the mono level
/// of a frame is its sum divided by `mono_scale(channels)`, so that full
/// scale on every channel is 1. A trailing short frame is summed over the
/// samples it has and divided by the same scale.
pub fn downmix_pcm(data: &[i16], channels: u16) -> (mono: Vec<i32>)
    requires
        channels >= 1,
    ensures
        mono@.len() == frame_count(data@.len(), channels as nat),
        forall|i: int|
            0 <= i < mono@.len() ==> #[trigger] mono@[i] == sample_sum(
                frame(data@, channels as nat, i),
            ),
{
    let len: usize = data.len();
    let width: usize = channels as usize;
    let mut mono: Vec<i32> = Vec::new();
    let mut start: usize = 0;
    assert(mono@.len() * width == 0) by (nonlinear_arith)
        requires
            mono@.len() == 0,
    ;
    while start < len
        invariant
            len == data@.len(),
            width == channels,
            width >= 1,
            start <= len,
            start == len || start == mono@.len() * width,
            mono@.len() * width < len + width,
            mono@.len() * width >= start,
            forall|i: int|
                0 <= i < mono@.len() ==> #[trigger] mono@[i] == sample_sum(
                    frame(data@, channels as nat, i),
                ),
        decreases len - start,
    {
        let end: usize = if len - start < width {
            len
        } else {
            start + width
        };
        let mut sum: i32 = 0;
        let mut at: usize = start;
        while at < end
            invariant
                start <= at <= end <= len,
                len == data@.len(),
                end - start <= width,
                width <= 65535,
                sum == sample_sum(data@.subrange(start as int, at as int)),
                -32768 * (at - start) <= sum <= 32767 * (at - start),
            decreases end - at,
        {
            proof {
                lemma_sum_push(data@.subrange(start as int, at as int), data@[at as int]);
                assert(data@.subrange(start as int, at as int).push(data@[at as int])
                    =~= data@.subrange(start as int, at as int + 1));
            }
            sum = sum + data[at] as i32;
            at = at + 1;
        }
        proof {
            let k = mono@.len() as int;
            assert((k + 1) * width == k * width + width) by (nonlinear_arith);
            assert(frame(data@, channels as nat, k) == data@.subrange(start as int, end as int));
        }
        mono.push(sum);
        start = end;
    }
    proof {
        let k = mono@.len() as int;
        let total = len + width - 1;
        if k * width >= len {
            vstd::arithmetic::div_mod::lemma_fundamental_div_mod_converse(
                total as int,
                width as int,
                k,
                total - k * width,
            );
        }
        assert(k * width >= len);
    }
    mono
}

} // verus!
