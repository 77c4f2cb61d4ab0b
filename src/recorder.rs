//! Decimated 16-bit PCM recording: every third sample offered to a track
//! is written, and the track's format follows from the hardware stream.

use vstd::arithmetic::div_mod::lemma_fundamental_div_mod;
use vstd::prelude::*;

verus! {

/// One sample in this many is written to a recording.
pub const DECIMATION: u32 = 3;

/// Bits per sample of every recording.
pub const RECORDING_BITS: u16 = 16;

/// How many samples a track writes when `n` more are offered to it, with
/// `count` already offered since its last write.
pub open spec fn writes_after(count: int, n: int) -> int {
    (count + n) / 3
}

/// The samples of `s` that a track writes when they are offered in order,
/// with `count` already offered since its last write: the first lands on
/// index `2 - count`, each next one three further on.
pub open spec fn decimate<A>(s: Seq<A>, count: int) -> Seq<A> {
    Seq::new(writes_after(count, s.len() as int) as nat, |j: int| s[3 * j + 2 - count])
}

/// The per-track counter that picks every third sample.
pub struct Decimator {
    count: u8,
}

impl Decimator {
    /// Samples offered since the last write (0, 1 or 2).
    pub closed spec fn count(&self) -> int {
        self.count as int
    }

    pub open spec fn wf(&self) -> bool {
        0 <= self.count() < 3
    }

    /// A counter at the start of a track.
    pub fn new() -> (r: Decimator)
        ensures
            r.wf(),
            r.count() == 0,
    {
        Decimator { count: 0 }
    }

    /// Offers one sample; true when that sample is to be written.
    pub fn tick(&mut self) -> (r: bool)
        requires
            old(self).wf(),
        ensures
            final(self).wf(),
            r == ((old(self).count() + 1) % 3 == 0),
            final(self).count() == (old(self).count() + 1) % 3,
    {
        if self.count == 2 {
            self.count = 0;
            true
        } else {
            self.count = self.count + 1;
            false
        }
    }
}

/// Offering one more sample to a track appends it to what is written
/// exactly when it completes a group of three.
pub proof fn lemma_decimate_push<A>(s: Seq<A>, count: int, x: A)
    requires
        0 <= count < 3,
    ensures
        decimate(s.push(x), count) == if (count + s.len() + 1) % 3 == 0 {
            decimate(s, count).push(x)
        } else {
            decimate(s, count)
        },
{
    let n = s.len() as int;
    lemma_fundamental_div_mod(count + n, 3);
    lemma_fundamental_div_mod(count + n + 1, 3);
    let w = writes_after(count, n);
    assert(forall|j: int| 0 <= j < w ==> 0 <= #[trigger] (3 * j) + 2 - count < n);
    if (count + n + 1) % 3 == 0 {
        assert(3 * w + 2 - count == n);
        assert(decimate(s.push(x), count) =~= decimate(s, count).push(x));
    } else {
        assert(decimate(s.push(x), count) =~= decimate(s, count));
    }
}

/// Across any contiguous run of `3 * m` samples offered to a track,
/// exactly `m` are written, whatever the counter stood at before.
pub proof fn lemma_decimation_run(count: int, m: int)
    requires
        0 <= count < 3,
        0 <= m,
    ensures
        writes_after(count, 3 * m) == m,
        (count + 3 * m) % 3 == count,
{
    lemma_fundamental_div_mod(count + 3 * m, 3);
}

/// Writes add up over consecutive runs: `a` samples and then `b` more
/// write as many as `a + b` at once.
pub proof fn lemma_writes_split(count: int, a: int, b: int)
    requires
        0 <= count < 3,
        0 <= a,
        0 <= b,
    ensures
        writes_after(count, a) + writes_after((count + a) % 3, b) == writes_after(count, a + b),
{
    lemma_fundamental_div_mod(count + a, 3);
    lemma_fundamental_div_mod((count + a) % 3 + b, 3);
    lemma_fundamental_div_mod(count + a + b, 3);
}

/// What a track writes over a series of calls that offer it `batches` in
/// turn, with `count` offered since its last write before the first call:
/// each call starts from the counter the previous one left, as the
/// recording contracts of `capture` and `playback` state (for playback the
/// batches are the samples popped; silent slots are not offered).
pub open spec fn decimate_calls<A>(batches: Seq<Seq<A>>, count: int) -> Seq<A>
    decreases batches.len(),
{
    if batches.len() == 0 {
        Seq::empty()
    } else {
        decimate(batches[0], count) + decimate_calls(
            batches.drop_first(),
            (count + batches[0].len()) % 3,
        )
    }
}

/// Offering `a` and then `b` writes what offering `a + b` at once writes.
pub proof fn lemma_decimate_concat<A>(a: Seq<A>, b: Seq<A>, count: int)
    requires
        0 <= count < 3,
    ensures
        decimate(a, count) + decimate(b, (count + a.len()) % 3) == decimate(a + b, count),
{
    let na = a.len() as int;
    let c2 = (count + na) % 3;
    let wa = writes_after(count, na);
    lemma_fundamental_div_mod(count + na, 3);
    lemma_writes_split(count, na, b.len() as int);
    let lhs = decimate(a, count) + decimate(b, c2);
    let rhs = decimate(a + b, count);
    assert forall|j: int| 0 <= j < lhs.len() implies lhs[j] == rhs[j] by {
        if j < wa {
            assert(0 <= 3 * j + 2 - count < na);
        } else {
            assert(3 * j + 2 - count == na + 3 * (j - wa) + 2 - c2);
        }
    }
    assert(lhs =~= rhs);
}

/// Over a series of calls, a track writes exactly what it would write if
/// all the samples had been offered in one call, whatever the batch sizes.
pub proof fn lemma_decimate_calls<A>(batches: Seq<Seq<A>>, count: int)
    requires
        0 <= count < 3,
    ensures
        decimate_calls(batches, count) == decimate(batches.flatten(), count),
    decreases batches.len(),
{
    if batches.len() == 0 {
        assert(decimate(Seq::<A>::empty(), count) =~= Seq::<A>::empty());
    } else {
        let rest = batches.drop_first();
        vstd::arithmetic::div_mod::lemma_mod_bound(count + batches[0].len(), 3);
        lemma_decimate_calls(rest, (count + batches[0].len()) % 3);
        lemma_decimate_concat(batches[0], rest.flatten(), count);
    }
}

/// Across any series of calls that together offer a track `3 * m`
/// samples, in batches of any size, exactly `m` are written, whatever the
/// counter stood at before the first call.
pub proof fn lemma_decimation_over_calls<A>(batches: Seq<Seq<A>>, count: int, m: int)
    requires
        0 <= count < 3,
        0 <= m,
        batches.flatten().len() == 3 * m,
    ensures
        decimate_calls(batches, count).len() == m,
{
    lemma_decimate_calls(batches, count);
    lemma_decimation_run(count, m);
}

/// The format of one recording.
#[derive(Clone, Copy, Debug, PartialEq, Eq, Structural)]
pub struct RecordingSpec {
    pub channels: u16,
    pub sample_rate: u32,
    pub bits_per_sample: u16,
}

/// The recording format for a track fed at `hardware_rate` with `channels`
/// channels.
pub open spec fn recording_spec_of(channels: u16, hardware_rate: u32) -> RecordingSpec {
    RecordingSpec { channels, sample_rate: hardware_rate / 3, bits_per_sample: 16 }
}

/// The recording format for a track fed from a stream of `channels`
/// channels at `hardware_rate` samples per second: 16-bit samples at a
/// third of the hardware rate.
pub fn recording_spec(channels: u16, hardware_rate: u32) -> (r: RecordingSpec)
    ensures
        r == recording_spec_of(channels, hardware_rate),
{
    RecordingSpec { channels, sample_rate: hardware_rate / DECIMATION, bits_per_sample: RECORDING_BITS }
}

} // verus!
