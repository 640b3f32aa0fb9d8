//! Energy-based voice activity detection on 16-bit PCM, with hysteresis.
//!
//! The energy of a chunk is the root of its mean square, rounded down to a
//! whole PCM step. A chunk below the threshold still counts as speech until
//! enough of them have come in a row.

use vstd::prelude::*;

verus! {

/// The sum of the squares of the samples.
pub open spec fn square_sum(samples: Seq<i16>) -> nat
    decreases samples.len(),
{
    if samples.len() == 0 {
        0
    } else {
        square_sum(samples.drop_last()) + (samples.last() * samples.last()) as nat
    }
}

/// The mean of the squares of the samples, rounded down; zero for an empty chunk.
pub open spec fn mean_square(samples: Seq<i16>) -> nat {
    if samples.len() == 0 {
        0
    } else {
        square_sum(samples) / samples.len()
    }
}

/// Whether `root` is the square root of `value`, rounded down.
pub open spec fn is_floor_root(value: nat, root: nat) -> bool {
    root * root <= value < (root + 1) * (root + 1)
}

/// Squares grow with their base.
proof fn lemma_square_monotone(a: nat, b: nat)
    requires
        a <= b,
    ensures
        a * a <= b * b,
{
    assert(a * a <= b * b) by (nonlinear_arith)
        requires
            a <= b,
    ;
}

/// A number has one rounded-down square root.
pub proof fn lemma_floor_root_unique(value: nat, first: nat, second: nat)
    requires
        is_floor_root(value, first),
        is_floor_root(value, second),
    ensures
        first == second,
{
    if first < second {
        lemma_square_monotone(first + 1, second);
    } else if second < first {
        lemma_square_monotone(second + 1, first);
    }
}

/// The square root of `value`, rounded down.
pub fn floor_root(value: u32) -> (root: u16)
    ensures
        is_floor_root(value as nat, root as nat),
{
    let target: u64 = value as u64;
    let mut low: u64 = 0;
    let mut high: u64 = 65536;
    assert(65536 * 65536 > 0xffff_ffff) by (nonlinear_arith);
    while high - low > 1
        invariant
            low < high <= 65536,
            target == value,
            low * low <= target,
            target < high * high,
        decreases high - low,
    {
        let mid: u64 = low + (high - low) / 2;
        assert(mid * mid <= 65536 * 65536) by (nonlinear_arith)
            requires
                mid <= 65536,
        ;
        if mid * mid <= target {
            low = mid;
        } else {
            high = mid;
        }
    }
    low as u16
}

/// The sum of squares grows by the square of the sample that is appended.
proof fn lemma_square_sum_push(samples: Seq<i16>, next: i16)
    ensures
        square_sum(samples.push(next)) == square_sum(samples) + (next * next) as nat,
{
    assert(samples.push(next).drop_last() =~= samples);
}

/// The energy of a chunk: the root of its mean square, rounded down. The
/// energy of an empty chunk is zero.
pub fn energy(samples: &[i16]) -> (level: u16)
    ensures
        is_floor_root(mean_square(samples@), level as nat),
        samples@.len() == 0 ==> level == 0,
{
    let len: usize = samples.len();
    if len == 0 {
        assert(is_floor_root(0, 0)) by (nonlinear_arith);
        return 0;
    }
    let mut total: u128 = 0;
    let mut at: usize = 0;
    while at < len
        invariant
            len == samples@.len(),
            at <= len,
            total == square_sum(samples@.take(at as int)),
            total <= at * 0x4000_0000,
        decreases len - at,
    {
        let sample: i32 = samples[at] as i32;
        assert(0 <= sample * sample <= 0x4000_0000) by (nonlinear_arith)
            requires
                -32768 <= sample <= 32767,
        ;
        let square: i32 = sample * sample;
        proof {
            lemma_square_sum_push(samples@.take(at as int), samples@[at as int]);
            assert(samples@.take(at as int).push(samples@[at as int]) =~= samples@.take(
                at as int + 1,
            ));
            assert((at + 1) * 0x4000_0000 == at * 0x4000_0000 + 0x4000_0000) by (nonlinear_arith);
            assert(at * 0x4000_0000 <= 0xffff_ffff_ffff_ffff * 0x4000_0000) by (nonlinear_arith)
                requires
                    at <= 0xffff_ffff_ffff_ffff,
            ;
        }
        total = total + square as u128;
        at = at + 1;
    }
    proof {
        assert(samples@.take(at as int) =~= samples@);
        assert(total as int / len as int <= 0x4000_0000) by (nonlinear_arith)
            requires
                0 <= total <= len * 0x4000_0000,
                len > 0,
        ;
        assert(0 <= total as int / len as int) by (nonlinear_arith)
            requires
                0 <= total,
                len > 0,
        ;
    }
    let mean: u128 = total / (len as u128);
    floor_root(mean as u32)
}

/// Rounding does not move the decision: the energy reaches a threshold
/// exactly when the sum of squares reaches the threshold's square times the
/// number of samples, which is when the root mean square itself reaches it.
pub proof fn lemma_energy_reaches_threshold(samples: Seq<i16>, level: nat, threshold: nat)
    requires
        samples.len() > 0,
        is_floor_root(mean_square(samples), level),
    ensures
        level >= threshold <==> square_sum(samples) >= threshold * threshold * samples.len(),
{
    let total = square_sum(samples) as int;
    let len = samples.len() as int;
    let mean = total / len;
    let bar = (threshold * threshold) as int;
    vstd::arithmetic::div_mod::lemma_fundamental_div_mod(total, len);
    vstd::arithmetic::div_mod::lemma_mod_bound(total, len);
    if level >= threshold {
        lemma_square_monotone(threshold, level);
        assert(bar * len <= mean * len) by (nonlinear_arith)
            requires
                bar <= mean,
                len > 0,
        ;
        assert(mean * len == len * mean) by (nonlinear_arith);
    } else {
        lemma_square_monotone(level + 1, threshold);
        assert(mean + 1 <= bar);
        assert((mean + 1) * len <= bar * len) by (nonlinear_arith)
            requires
                mean + 1 <= bar,
                len > 0,
        ;
        assert((mean + 1) * len == len * mean + len) by (nonlinear_arith);
    }
}

/// A detector: its threshold, how many quiet chunks in a row end an
/// utterance, and how many have come so far.
#[derive(Clone, Copy, Debug, PartialEq, Eq, Structural)]
pub struct VoiceActivityDetector {
    threshold: u16,
    silence_frames: usize,
    low_count: usize,
}

impl VoiceActivityDetector {
    /// The energy from which a chunk is loud.
    pub closed spec fn threshold(self) -> u16 {
        self.threshold
    }

    /// The number of quiet chunks in a row from which a chunk is silence.
    pub closed spec fn silence_frames(self) -> usize {
        self.silence_frames
    }

    /// The quiet chunks that have come in a row. The count stays at the
    /// largest number the machine holds once it is reached.
    pub closed spec fn low_count(self) -> usize {
        self.low_count
    }

    /// The detector after a chunk that is loud or not, and whether that
    /// chunk counts as speech.
    pub open spec fn step(self, loud: bool) -> (VoiceActivityDetector, bool) {
        if loud {
            (self.with_count(0), true)
        } else {
            let count = if self.low_count() < usize::MAX {
                (self.low_count() + 1) as usize
            } else {
                self.low_count()
            };
            (self.with_count(count), count < self.silence_frames())
        }
    }

    /// The same detector with another count of quiet chunks.
    pub closed spec fn with_count(self, count: usize) -> VoiceActivityDetector {
        VoiceActivityDetector {
            threshold: self.threshold,
            silence_frames: self.silence_frames,
            low_count: count,
        }
    }

    /// The detector after `n` quiet chunks in a row.
    pub open spec fn after_quiet(self, n: nat) -> VoiceActivityDetector
        decreases n,
    {
        if n == 0 {
            self
        } else {
            self.after_quiet((n - 1) as nat).step(false).0
        }
    }

    /// What `with_count` keeps and what it sets.
    pub proof fn lemma_with_count(self, count: usize)
        ensures
            self.with_count(count).threshold() == self.threshold(),
            self.with_count(count).silence_frames() == self.silence_frames(),
            self.with_count(count).low_count() == count,
    {
    }

    /// A detector that has heard nothing yet.
    pub fn new(threshold: u16, silence_frames: usize) -> (detector: VoiceActivityDetector)
        ensures
            detector.threshold() == threshold,
            detector.silence_frames() == silence_frames,
            detector.low_count() == 0,
    {
        VoiceActivityDetector { threshold, silence_frames, low_count: 0 }
    }

    /// Classifies a chunk. Returns whether it counts as speech, and its energy.
    ///
    /// A chunk whose energy reaches the threshold is speech and ends the run
    /// of quiet chunks. A quieter chunk lengthens the run, and is still
    /// speech while the run is shorter than `silence_frames`.
    pub fn process(&mut self, samples: &[i16]) -> (result: (bool, u16))
        ensures
            is_floor_root(mean_square(samples@), result.1 as nat),
            (*final(self), result.0) == old(self).step(result.1 >= old(self).threshold()),
            final(self).threshold() == old(self).threshold(),
            final(self).silence_frames() == old(self).silence_frames(),
            final(self).low_count() == if result.1 >= old(self).threshold() {
                0
            } else if old(self).low_count() < usize::MAX {
                (old(self).low_count() + 1) as usize
            } else {
                old(self).low_count()
            },
    {
        let level: u16 = energy(samples);
        if level >= self.threshold {
            self.low_count = 0;
            (true, level)
        } else {
            if self.low_count < usize::MAX {
                self.low_count = self.low_count + 1;
            }
            (self.low_count < self.silence_frames, level)
        }
    }

    /// Ends the run of quiet chunks, at the start of a new utterance.
    pub fn reset(&mut self)
        ensures
            *final(self) == old(self).with_count(0),
            final(self).threshold() == old(self).threshold(),
            final(self).silence_frames() == old(self).silence_frames(),
            final(self).low_count() == 0,
    {
        self.low_count = 0;
    }

    /// After `n` quiet chunks from the start of an utterance the run is `n` long.
    proof fn lemma_quiet_run(self, n: nat)
        requires
            self.low_count() == 0,
            n <= usize::MAX,
        ensures
            self.after_quiet(n).low_count() == n,
            self.after_quiet(n).silence_frames() == self.silence_frames(),
            self.after_quiet(n).threshold() == self.threshold(),
        decreases n,
    {
        if n > 0 {
            self.lemma_quiet_run((n - 1) as nat);
        }
    }

    /// Hysteresis: counted from the start of an utterance, the `n`-th quiet
    /// chunk in a row is speech exactly while `n` is less than
    /// `silence_frames`. So quiet chunk number `silence_frames - 1` is still
    /// speech, and the one after it is silence.
    pub proof fn lemma_hysteresis(self, n: nat)
        requires
            self.low_count() == 0,
            1 <= n <= usize::MAX,
        ensures
            self.after_quiet((n - 1) as nat).step(false).1 == (n < self.silence_frames()),
    {
        self.lemma_quiet_run((n - 1) as nat);
    }

    /// A loud chunk is speech and ends the run of quiet chunks, whatever came before.
    pub proof fn lemma_loud_resets(self)
        ensures
            self.step(true).1,
            self.step(true).0.low_count() == 0,
            self.step(true).0.silence_frames() == self.silence_frames(),
            self.step(true).0.threshold() == self.threshold(),
    {
    }
}

} // verus!
