//! Rate conversion: cutting a recording into the chunks a fixed-size
//! converter takes, and joining what the converter returns.
//!
//! The converter engine itself runs in the host. `AudioResampler` decides
//! whether one is needed, says how it is to be built, lays out its input and
//! assembles its output.

use vstd::prelude::*;
use crate::error::AudioError;

verus! {

/// The rate the recognition stage takes, in frames per second.
pub const WHISPER_SAMPLE_RATE: u32 = 16000;

/// Frames in each chunk handed to the converter.
pub const CHUNK_FRAMES: usize = 1024;

/// Sub-chunks the converter works in.
pub const SUB_CHUNKS: usize = 2;

/// Channels the converter works on.
pub const CONVERTER_CHANNELS: usize = 1;

/// How the host builds the converter engine.
#[derive(Clone, Copy, Debug, PartialEq, Eq, Structural)]
pub struct EngineConfig {
    /// Rate of the input, in frames per second.
    pub source_rate: usize,
    /// Rate of the output, in frames per second.
    pub target_rate: usize,
    /// Frames per input chunk.
    pub chunk_frames: usize,
    /// Sub-chunks per chunk.
    pub sub_chunks: usize,
    /// Channels.
    pub channels: usize,
}

/// The chunks that the converter is given for `input`, in order.
///
/// A recording shorter than one chunk is filled up with `silence` to one
/// chunk. Any other recording is cut into its whole chunks, and the samples
/// after the last whole chunk are left out.
pub open spec fn chunk_plan<T>(input: Seq<T>, silence: T) -> Seq<Seq<T>> {
    if input.len() < CHUNK_FRAMES {
        seq![input + Seq::new((CHUNK_FRAMES - input.len()) as nat, |i: int| silence)]
    } else {
        Seq::new(
            input.len() / (CHUNK_FRAMES as nat),
            |k: int| input.subrange(k * CHUNK_FRAMES, (k + 1) * CHUNK_FRAMES),
        )
    }
}

/// The views of the vectors, in order.
pub open spec fn views<T>(items: Seq<Vec<T>>) -> Seq<Seq<T>> {
    Seq::new(items.len(), |i: int| items[i]@)
}

/// The first channel of what the converter returned for one chunk, or
/// nothing where it returned no channel.
pub open spec fn first_channel<T>(channels: Seq<Vec<T>>) -> Seq<T> {
    if channels.len() > 0 {
        channels[0]@
    } else {
        Seq::empty()
    }
}

/// Whether the converter failed on one of the chunks.
pub open spec fn any_failed<T>(converted: Seq<Option<Vec<Vec<T>>>>) -> bool {
    exists|k: int| 0 <= k < converted.len() && converted[k] is None
}

/// The first channels of the converted chunks, one after the other.
pub open spec fn joined<T>(converted: Seq<Option<Vec<Vec<T>>>>) -> Seq<T>
    decreases converted.len(),
{
    if converted.len() == 0 {
        Seq::empty()
    } else {
        joined(converted.drop_last()) + match converted.last() {
            Some(channels) => first_channel(channels@),
            None => Seq::empty(),
        }
    }
}

/// A converter from a source rate to the rate of the recognition stage.
#[derive(Clone, Copy, Debug, PartialEq, Eq, Structural)]
pub struct AudioResampler {
    source_rate: u32,
}

impl AudioResampler {
    /// The source rate, in frames per second.
    pub closed spec fn rate(self) -> u32 {
        self.source_rate
    }

    /// Whether samples pass through a converter engine. They do not where
    /// the source already has the target rate.
    pub open spec fn converts(self) -> bool {
        self.rate() != WHISPER_SAMPLE_RATE
    }

    /// The number of chunks the converter is given for `len` samples.
    pub open spec fn chunk_count(len: nat) -> nat {
        if len < CHUNK_FRAMES {
            1
        } else {
            len / (CHUNK_FRAMES as nat)
        }
    }

    /// What `process` returns for `input` and the converter's outputs.
    pub open spec fn process_outcome<T>(
        self,
        input: Seq<T>,
        converted: Seq<Option<Vec<Vec<T>>>>,
    ) -> Result<Seq<T>, AudioError> {
        if !self.converts() {
            Ok(input)
        } else if any_failed(converted) || converted.len() != Self::chunk_count(input.len()) {
            Err(AudioError::ConversionFailed)
        } else {
            Ok(joined(converted))
        }
    }

    /// A converter for recordings at `source_rate`. A rate of zero cannot be
    /// converted.
    pub fn new(source_rate: u32) -> (result: Result<AudioResampler, AudioError>)
        ensures
            source_rate == 0 ==> result == Err::<AudioResampler, AudioError>(
                AudioError::ConversionFailed,
            ),
            source_rate != 0 ==> (result matches Ok(resampler) && resampler.rate() == source_rate),
    {
        if source_rate == 0 {
            Err(AudioError::ConversionFailed)
        } else {
            Ok(AudioResampler { source_rate })
        }
    }

    /// The rate of the output.
    pub fn target_rate(&self) -> (rate: u32)
        ensures
            rate == WHISPER_SAMPLE_RATE,
    {
        WHISPER_SAMPLE_RATE
    }

    /// The rate of the input.
    pub fn source_rate(&self) -> (rate: u32)
        ensures
            rate == self.rate(),
    {
        self.source_rate
    }

    /// How to build the converter engine, or `None` where samples pass
    /// through unchanged.
    pub fn engine_config(&self) -> (config: Option<EngineConfig>)
        ensures
            !self.converts() ==> config is None,
            self.converts() ==> config == Some(
                EngineConfig {
                    source_rate: self.rate() as usize,
                    target_rate: WHISPER_SAMPLE_RATE as usize,
                    chunk_frames: CHUNK_FRAMES,
                    sub_chunks: SUB_CHUNKS,
                    channels: CONVERTER_CHANNELS,
                },
            ),
    {
        if self.source_rate == WHISPER_SAMPLE_RATE {
            None
        } else {
            Some(
                EngineConfig {
                    source_rate: self.source_rate as usize,
                    target_rate: WHISPER_SAMPLE_RATE as usize,
                    chunk_frames: CHUNK_FRAMES,
                    sub_chunks: SUB_CHUNKS,
                    channels: CONVERTER_CHANNELS,
                },
            )
        }
    }

    /// The chunks to hand to the converter engine, in order. There is none
    /// where samples pass through unchanged.
    pub fn chunks<T: Copy>(&self, input: &[T], silence: T) -> (chunks: Vec<Vec<T>>)
        ensures
            !self.converts() ==> chunks@.len() == 0,
            self.converts() ==> views(chunks@) == chunk_plan(input@, silence),
    {
        let mut chunks: Vec<Vec<T>> = Vec::new();
        if self.source_rate == WHISPER_SAMPLE_RATE {
            return chunks;
        }
        let len: usize = input.len();
        if len < CHUNK_FRAMES {
            let mut padded: Vec<T> = Vec::new();
            let mut at: usize = 0;
            while at < CHUNK_FRAMES
                invariant
                    len == input@.len(),
                    len < CHUNK_FRAMES,
                    at <= CHUNK_FRAMES,
                    padded@.len() == at,
                    forall|i: int| 0 <= i < at && i < len ==> padded@[i] == input@[i],
                    forall|i: int| len <= i < at ==> padded@[i] == silence,
                decreases CHUNK_FRAMES - at,
            {
                if at < len {
                    padded.push(input[at]);
                } else {
                    padded.push(silence);
                }
                at = at + 1;
            }
            proof {
                assert(padded@ =~= chunk_plan(input@, silence)[0]);
            }
            chunks.push(padded);
            proof {
                assert(views(chunks@) =~= chunk_plan(input@, silence));
            }
            return chunks;
        }
        let mut start: usize = 0;
        while len - start >= CHUNK_FRAMES
            invariant
                len == input@.len(),
                len >= CHUNK_FRAMES,
                start <= len,
                start == chunks@.len() * CHUNK_FRAMES,
                forall|k: int|
                    0 <= k < chunks@.len() ==> (#[trigger] chunks@[k])@ == input@.subrange(
                        k * CHUNK_FRAMES,
                        (k + 1) * CHUNK_FRAMES,
                    ),
            decreases len - start,
        {
            let mut chunk: Vec<T> = Vec::new();
            let mut at: usize = 0;
            while at < CHUNK_FRAMES
                invariant
                    len == input@.len(),
                    start + CHUNK_FRAMES <= len,
                    at <= CHUNK_FRAMES,
                    chunk@.len() == at,
                    forall|i: int| 0 <= i < at ==> chunk@[i] == input@[start + i],
                decreases CHUNK_FRAMES - at,
            {
                chunk.push(input[start + at]);
                at = at + 1;
            }
            proof {
                assert(chunk@ =~= input@.subrange(start as int, start + CHUNK_FRAMES));
            }
            chunks.push(chunk);
            start = start + CHUNK_FRAMES;
        }
        proof {
            let count = chunks@.len() as int;
            vstd::arithmetic::div_mod::lemma_fundamental_div_mod_converse(
                len as int,
                CHUNK_FRAMES as int,
                count,
                len - start,
            );
            assert(views(chunks@) =~= chunk_plan(input@, silence));
        }
        chunks
    }

    /// Converts `input`, given what the converter engine returned for each
    /// chunk of `self.chunks(input, ..)`, in order: its channels, or `None`
    /// where it failed.
    ///
    /// Where the source has the target rate the input is returned as it is.
    /// Otherwise the first channels of the converted chunks are joined in
    /// order. A failed chunk, or a count of chunks other than that of the
    /// plan, fails the whole conversion.
    pub fn process<T: Copy>(&self, input: &[T], converted: &Vec<Option<Vec<Vec<T>>>>) -> (result:
        Result<Vec<T>, AudioError>)
        ensures
            match self.process_outcome(input@, converted@) {
                Ok(samples) => result matches Ok(output) && output@ == samples,
                Err(error) => result == Err::<Vec<T>, AudioError>(error),
            },
    {
        let mut output: Vec<T> = Vec::new();
        if self.source_rate == WHISPER_SAMPLE_RATE {
            append_samples(&mut output, input);
            return Ok(output);
        }
        let expected: usize = if input.len() < CHUNK_FRAMES {
            1
        } else {
            input.len() / CHUNK_FRAMES
        };
        if converted.len() != expected {
            return Err(AudioError::ConversionFailed);
        }
        let mut k: usize = 0;
        while k < converted.len()
            invariant
                self.converts(),
                k <= converted@.len(),
                forall|j: int| 0 <= j < k ==> converted@[j] is Some,
                output@ == joined(converted@.take(k as int)),
            decreases converted@.len() - k,
        {
            proof {
                assert(converted@.take(k as int + 1).drop_last() =~= converted@.take(k as int));
            }
            match &converted[k] {
                None => {
                    proof {
                        assert(0 <= k < converted@.len() && converted@[k as int] is None);
                    }
                    return Err(AudioError::ConversionFailed);
                },
                Some(channels) => {
                    if channels.len() > 0 {
                        append_samples(&mut output, channels[0].as_slice());
                    }
                },
            }
            k = k + 1;
        }
        proof {
            assert(converted@.take(k as int) =~= converted@);
        }
        Ok(output)
    }
}

/// A source at the target rate is passed through: whatever the input and
/// whatever the converter is said to have returned, the result is the input.
pub proof fn lemma_same_rate_is_identity<T>(
    resampler: AudioResampler,
    input: Seq<T>,
    converted: Seq<Option<Vec<Vec<T>>>>,
)
    requires
        resampler.rate() == WHISPER_SAMPLE_RATE,
    ensures
        resampler.process_outcome(input, converted) == Ok::<Seq<T>, AudioError>(input),
{
}

/// A recording shorter than one chunk is converted as one chunk: the input,
/// then silence up to the chunk size.
pub proof fn lemma_short_input_is_padded<T>(input: Seq<T>, silence: T)
    requires
        input.len() < CHUNK_FRAMES,
    ensures
        chunk_plan(input, silence).len() == 1,
        AudioResampler::chunk_count(input.len()) == 1,
        chunk_plan(input, silence)[0].len() == CHUNK_FRAMES,
        chunk_plan(input, silence)[0].take(input.len() as int) == input,
        forall|i: int|
            input.len() <= i < CHUNK_FRAMES ==> #[trigger] chunk_plan(input, silence)[0][i]
                == silence,
{
    assert(chunk_plan(input, silence)[0].take(input.len() as int) =~= input);
}

/// A recording of at least one chunk is converted in its whole chunks, in
/// input order: sample `i` of the first `count * CHUNK_FRAMES` stands at
/// place `i % CHUNK_FRAMES` of chunk `i / CHUNK_FRAMES`, every chunk is
/// full, and no chunk holds a sample from after the last whole chunk.
pub proof fn lemma_whole_chunks_in_order<T>(input: Seq<T>, silence: T)
    requires
        input.len() >= CHUNK_FRAMES,
    ensures
        chunk_plan(input, silence).len() == input.len() / (CHUNK_FRAMES as nat),
        chunk_plan(input, silence).len() == AudioResampler::chunk_count(input.len()),
        chunk_plan(input, silence).len() * CHUNK_FRAMES <= input.len(),
        forall|k: int|
            0 <= k < chunk_plan(input, silence).len() ==> (#[trigger] chunk_plan(
                input,
                silence,
            )[k]).len() == CHUNK_FRAMES,
        forall|k: int, j: int|
            0 <= k < chunk_plan(input, silence).len() && 0 <= j < CHUNK_FRAMES
                ==> #[trigger] chunk_plan(input, silence)[k][j] == input[k * CHUNK_FRAMES + j],
{
    let count = (input.len() / (CHUNK_FRAMES as nat)) as int;
    vstd::arithmetic::div_mod::lemma_fundamental_div_mod(input.len() as int, CHUNK_FRAMES as int);
    vstd::arithmetic::div_mod::lemma_mod_bound(input.len() as int, CHUNK_FRAMES as int);
    assert(count * CHUNK_FRAMES == CHUNK_FRAMES * count) by (nonlinear_arith);
    assert forall|k: int| 0 <= k < count implies (#[trigger] chunk_plan(input, silence)[k]).len()
        == CHUNK_FRAMES by {
        lemma_chunk_bounds(k, count);
    }
    assert forall|k: int, j: int| 0 <= k < count && 0 <= j < CHUNK_FRAMES implies #[trigger] chunk_plan(
        input,
        silence,
    )[k][j] == input[k * CHUNK_FRAMES + j] by {
        lemma_chunk_bounds(k, count);
    }
}

/// Where chunk `k` of `count` starts and ends.
proof fn lemma_chunk_bounds(k: int, count: int)
    requires
        0 <= k < count,
    ensures
        0 <= k * CHUNK_FRAMES,
        (k + 1) * CHUNK_FRAMES == k * CHUNK_FRAMES + CHUNK_FRAMES,
        (k + 1) * CHUNK_FRAMES <= count * CHUNK_FRAMES,
{
    assert(0 <= k * CHUNK_FRAMES) by (nonlinear_arith)
        requires
            0 <= k,
    ;
    assert((k + 1) * CHUNK_FRAMES == k * CHUNK_FRAMES + CHUNK_FRAMES) by (nonlinear_arith);
    assert((k + 1) * CHUNK_FRAMES <= count * CHUNK_FRAMES) by (nonlinear_arith)
        requires
            k + 1 <= count,
    ;
}

/// The converted chunks are joined in the order in which they were
/// returned: one more chunk adds its first channel at the end.
pub proof fn lemma_joined_in_order<T>(
    converted: Seq<Option<Vec<Vec<T>>>>,
    channels: Vec<Vec<T>>,
)
    ensures
        joined(converted.push(Some(channels))) == joined(converted) + first_channel(channels@),
{
    assert(converted.push(Some(channels)).drop_last() =~= converted);
}

/// Appends the samples to the buffer, in order.
pub fn append_samples<T: Copy>(buffer: &mut Vec<T>, samples: &[T])
    ensures
        final(buffer)@ == old(buffer)@ + samples@,
{
    let mut at: usize = 0;
    while at < samples.len()
        invariant
            at <= samples@.len(),
            buffer@ == old(buffer)@ + samples@.take(at as int),
        decreases samples@.len() - at,
    {
        buffer.push(samples[at]);
        proof {
            assert(samples@.take(at as int).push(samples@[at as int]) =~= samples@.take(
                at as int + 1,
            ));
        }
        at = at + 1;
    }
    proof {
        assert(samples@.take(at as int) =~= samples@);
    }
}

} // verus!
