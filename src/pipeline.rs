//! The capture and playback pipelines: what the input callback does with
//! each batch of hardware samples, and what the output callback plays.

use crate::perturbation::{cursor_after, lemma_cursor_step, phase_after, PerturbationSequence};
use crate::recorder::{decimate, lemma_decimate_push, Decimator};
use crate::relay::SampleRelay;
use crate::sample::{pcm16_of, to_pcm16, EQUILIBRIUM};
use vstd::prelude::*;

verus! {

/// The perturbed form of `data` when the offsets are taken from `offsets`
/// starting at `cursor`, with `phase` samples of the current frame
/// already consumed.
pub open spec fn perturb(data: Seq<i16>, offsets: Seq<i32>, cursor: int, phase: int) -> Seq<i64> {
    Seq::new(
        data.len(),
        |i: int|
            (data[i] as int + offsets[cursor_after(cursor, phase, i, offsets.len() as int)] as int) as i64,
    )
}

/// The first `n` samples popped from the tail of `relay`, in the order
/// they come out, as 16-bit PCM.
pub open spec fn popped(relay: Seq<i64>, n: int) -> Seq<i16> {
    Seq::new(n as nat, |i: int| pcm16_of(relay[relay.len() - 1 - i] as int) as i16)
}

/// What one playback slot holds: the `i`-th sample popped, as it was
/// pushed, or silence once the relay has run dry.
pub open spec fn slot(relay: Seq<i64>, i: int) -> i64 {
    if i < relay.len() {
        relay[relay.len() - 1 - i]
    } else {
        EQUILIBRIUM as i64
    }
}

/// How many samples a playback of `slots` slots pops from `relay`.
pub open spec fn pop_count(relay: Seq<i64>, slots: int) -> int {
    if slots < relay.len() {
        slots
    } else {
        relay.len() as int
    }
}

/// What one capture batch produced.
pub struct CaptureBatch {
    /// The normalised input samples, unperturbed.
    pub original: Vec<i16>,
    /// The same samples with their offsets added.
    pub perturbed: Vec<i64>,
    /// The 16-bit PCM samples to write to the original-signal recording.
    pub recorded: Vec<i16>,
}

/// What one playback batch produced.
pub struct PlaybackBatch {
    /// One sample per hardware slot, on the common scale and unclamped:
    /// converting it to an integer hardware format clamps it first.
    pub output: Vec<i64>,
    /// The 16-bit PCM samples to write to the perturbed-signal recording.
    pub recorded: Vec<i16>,
}

/// The state the input callback keeps between batches.
pub struct CapturePipeline {
    perturbation: PerturbationSequence,
    decimator: Decimator,
}

impl CapturePipeline {
    pub open spec fn wf(&self) -> bool {
        &&& self.offsets().len() > 0
        &&& 0 <= self.cursor_pos() < self.offsets().len()
        &&& 0 <= self.phase() < 2
        &&& 0 <= self.record_count() < 3
    }

    /// The offsets being applied.
    pub closed spec fn offsets(&self) -> Seq<i32> {
        self.perturbation.offsets()
    }

    /// The position of the offset for the next sample.
    pub closed spec fn cursor_pos(&self) -> int {
        self.perturbation.cursor_pos()
    }

    /// Samples of the current frame already consumed (0 or 1).
    pub closed spec fn phase(&self) -> int {
        self.perturbation.phase()
    }

    /// Samples offered to the original-signal recording since its last write.
    pub closed spec fn record_count(&self) -> int {
        self.decimator.count()
    }

    /// A pipeline that applies `perturbation` from where it stands, and
    /// whose recording starts afresh.
    pub fn new(perturbation: PerturbationSequence) -> (r: CapturePipeline)
        requires
            perturbation.wf(),
        ensures
            r.wf(),
            r.offsets() == perturbation.offsets(),
            r.cursor_pos() == perturbation.cursor_pos(),
            r.phase() == perturbation.phase(),
            r.record_count() == 0,
    {
        CapturePipeline { perturbation, decimator: Decimator::new() }
    }

    /// The position of the offset for the next sample.
    pub fn cursor(&self) -> (r: usize)
        ensures
            r == self.cursor_pos(),
    {
        self.perturbation.cursor()
    }

    /// Processes one batch of normalised input samples in arrival order:
    /// adds to each the current offset, pushes the result onto the relay,
    /// advances the offsets once per two samples and keeps every third
    /// unperturbed sample for the original-signal recording.
    ///
    /// Each batch starts a new frame: its first sample is the first of a
    /// pair, whatever the length of the batch before. The cursor and the
    /// recording counter carry over from one batch to the next.
    pub fn capture(&mut self, relay: &mut SampleRelay, data: &[i16]) -> (r: CaptureBatch)
        requires
            old(self).wf(),
        ensures
            final(self).wf(),
            r.original@ == data@,
            r.perturbed@ == perturb(data@, old(self).offsets(), old(self).cursor_pos(), 0),
            final(relay)@ == old(relay)@ + r.perturbed@,
            r.recorded@ == decimate(data@, old(self).record_count()),
            final(self).offsets() == old(self).offsets(),
            final(self).cursor_pos() == cursor_after(
                old(self).cursor_pos(),
                0,
                data@.len() as int,
                old(self).offsets().len() as int,
            ),
            final(self).phase() == phase_after(0, data@.len() as int),
            final(self).record_count() == (old(self).record_count() + data@.len()) % 3,
    {
        self.perturbation.start_frame();
        let ghost offsets = self.offsets();
        let ghost c0 = self.cursor_pos();
        let ghost p0 = self.phase();
        let ghost r0 = self.record_count();
        let ghost relay0 = relay@;
        let ghost len = offsets.len() as int;
        let ghost expected = perturb(data@, offsets, c0, p0);
        let mut original: Vec<i16> = Vec::new();
        let mut perturbed: Vec<i64> = Vec::new();
        let mut recorded: Vec<i16> = Vec::new();
        let mut i: usize = 0;
        proof {
            vstd::arithmetic::div_mod::lemma_small_mod(c0 as nat, len as nat);
            vstd::arithmetic::div_mod::lemma_small_mod(p0 as nat, 2);
            vstd::arithmetic::div_mod::lemma_small_mod(r0 as nat, 3);
            assert(p0 / 2 == 0);
        }
        while i < data.len()
            invariant
                i <= data@.len(),
                self.wf(),
                self.offsets() == offsets,
                len == offsets.len(),
                0 <= c0 < len,
                0 <= p0 < 2,
                0 <= r0 < 3,
                expected == perturb(data@, offsets, c0, p0),
                self.cursor_pos() == cursor_after(c0, p0, i as int, len),
                self.phase() == phase_after(p0, i as int),
                self.record_count() == (r0 + i) % 3,
                original@ == data@.take(i as int),
                perturbed@ == expected.take(i as int),
                relay@ == relay0 + perturbed@,
                recorded@ == decimate(data@.take(i as int), r0),
            decreases data@.len() - i,
        {
            let s: i16 = data[i];
            let offset: i32 = self.perturbation.consume();
            let v: i64 = s as i64 + offset as i64;
            original.push(s);
            perturbed.push(v);
            relay.push(v);
            let write = self.decimator.tick();
            proof {
                lemma_cursor_step(c0, p0, i as int, len);
                lemma_decimate_push(data@.take(i as int), r0, s);
                assert(data@.take(i as int).push(s) =~= data@.take(i + 1));
                assert(original@ =~= data@.take(i + 1));
                assert(perturbed@ =~= expected.take(i + 1));
            }
            if write {
                recorded.push(s);
            }
            proof {
                assert((r0 + (i + 1)) % 3 == ((r0 + i) % 3 + 1) % 3);
            }
            i = i + 1;
        }
        proof {
            assert(data@.take(i as int) =~= data@);
            assert(expected.take(i as int) =~= expected);
        }
        CaptureBatch { original, perturbed, recorded }
    }
}

/// The state the output callback keeps between batches.
pub struct PlaybackPipeline {
    decimator: Decimator,
}

impl PlaybackPipeline {
    pub open spec fn wf(&self) -> bool {
        0 <= self.record_count() < 3
    }

    /// Samples offered to the perturbed-signal recording since its last write.
    pub closed spec fn record_count(&self) -> int {
        self.decimator.count()
    }

    /// A pipeline whose recording starts afresh.
    pub fn new() -> (r: PlaybackPipeline)
        ensures
            r.wf(),
            r.record_count() == 0,
    {
        PlaybackPipeline { decimator: Decimator::new() }
    }

    /// Fills `slots` output slots: each pops the newest sample from the
    /// relay and plays it unchanged, or plays silence once the relay is
    /// empty. Every third sample popped is kept, as 16-bit PCM, for the
    /// perturbed-signal recording; silent slots are not offered to it.
    pub fn playback(&mut self, relay: &mut SampleRelay, slots: usize) -> (r: PlaybackBatch)
        requires
            old(self).wf(),
        ensures
            final(self).wf(),
            r.output@ == Seq::new(slots as nat, |i: int| slot(old(relay)@, i)),
            final(relay)@ == old(relay)@.take(
                old(relay)@.len() - pop_count(old(relay)@, slots as int),
            ),
            r.recorded@ == decimate(
                popped(old(relay)@, pop_count(old(relay)@, slots as int)),
                old(self).record_count(),
            ),
            final(self).record_count() == (old(self).record_count() + pop_count(
                old(relay)@,
                slots as int,
            )) % 3,
            old(relay)@.len() == 0 ==> {
                &&& forall|i: int| 0 <= i < slots ==> r.output@[i] == EQUILIBRIUM as i64
                &&& r.recorded@.len() == 0
                &&& final(self).record_count() == old(self).record_count()
            },
    {
        let ghost relay0 = relay@;
        let ghost len0 = relay0.len() as int;
        let ghost r0 = self.record_count();
        let mut output: Vec<i64> = Vec::new();
        let mut recorded: Vec<i16> = Vec::new();
        let mut i: usize = 0;
        proof {
            vstd::arithmetic::div_mod::lemma_small_mod(r0 as nat, 3);
        }
        while i < slots
            invariant
                i <= slots,
                self.wf(),
                0 <= r0 < 3,
                relay0 == old(relay)@,
                len0 == relay0.len(),
                relay@ == relay0.take(len0 - pop_count(relay0, i as int)),
                output@ == Seq::new(i as nat, |k: int| slot(relay0, k)),
                recorded@ == decimate(popped(relay0, pop_count(relay0, i as int)), r0),
                self.record_count() == (r0 + pop_count(relay0, i as int)) % 3,
            decreases slots - i,
        {
            let ghost before = pop_count(relay0, i as int);
            match relay.pop() {
                Some(v) => {
                    let x: i16 = to_pcm16(v);
                    output.push(v);
                    let write = self.decimator.tick();
                    proof {
                        assert(before == i);
                        lemma_decimate_push(popped(relay0, i as int), r0, x);
                        assert(popped(relay0, i as int).push(x) =~= popped(relay0, i + 1));
                        assert((r0 + (i + 1)) % 3 == ((r0 + i) % 3 + 1) % 3);
                    }
                    if write {
                        recorded.push(x);
                    }
                },
                None => {
                    output.push(EQUILIBRIUM as i64);
                },
            }
            proof {
                assert(output@ =~= Seq::new((i + 1) as nat, |k: int| slot(relay0, k)));
                assert(relay@ =~= relay0.take(len0 - pop_count(relay0, i + 1)));
            }
            i = i + 1;
        }
        PlaybackBatch { output, recorded }
    }
}

} // verus!
