//! The perturbation sequence: additive offsets, cycled once per stereo
//! frame (every two samples consumed).

use vstd::arithmetic::div_mod::{lemma_add_mod_noop_right, lemma_mod_multiples_vanish, lemma_small_mod};
use vstd::prelude::*;

verus! {

/// Where the cursor stands after `n` more samples, from cursor `cursor`
/// with `phase` samples of the current frame already consumed, over a
/// sequence of `len` offsets.
pub open spec fn cursor_after(cursor: int, phase: int, n: int, len: int) -> int {
    (cursor + (phase + n) / 2) % len
}

/// How many samples of the current frame are consumed after `n` more.
pub open spec fn phase_after(phase: int, n: int) -> int {
    (phase + n) % 2
}

/// An ordered, non-empty sequence of offsets with a cursor that advances
/// once every two samples, wrapping round.
pub struct PerturbationSequence {
    offsets: Vec<i32>,
    cursor: usize,
    phase: usize,
}

impl PerturbationSequence {
    /// The offsets, in order.
    pub closed spec fn offsets(&self) -> Seq<i32> {
        self.offsets@
    }

    /// The position of the offset applied to the next sample.
    pub closed spec fn cursor_pos(&self) -> int {
        self.cursor as int
    }

    /// Samples of the current frame already consumed (0 or 1).
    pub closed spec fn phase(&self) -> int {
        self.phase as int
    }

    pub open spec fn wf(&self) -> bool {
        &&& self.offsets().len() > 0
        &&& 0 <= self.cursor_pos() < self.offsets().len()
        &&& 0 <= self.phase() < 2
    }

    /// A sequence over `offsets` with its cursor at the start; `None` when
    /// `offsets` is empty.
    pub fn new(offsets: Vec<i32>) -> (r: Option<PerturbationSequence>)
        ensures
            offsets@.len() == 0 <==> r is None,
            r matches Some(s) ==> {
                &&& s.wf()
                &&& s.offsets() == offsets@
                &&& s.cursor_pos() == 0
                &&& s.phase() == 0
            },
    {
        if offsets.len() == 0 {
            None
        } else {
            Some(PerturbationSequence { offsets, cursor: 0, phase: 0 })
        }
    }

    /// The position of the offset applied to the next sample.
    pub fn cursor(&self) -> (r: usize)
        ensures
            r == self.cursor_pos(),
    {
        self.cursor
    }

    /// The number of offsets.
    pub fn len(&self) -> (r: usize)
        ensures
            r == self.offsets().len(),
    {
        self.offsets.len()
    }

    /// Starts a new frame: the next sample is the first of a pair. The
    /// cursor stays where it is.
    pub fn start_frame(&mut self)
        requires
            old(self).wf(),
        ensures
            final(self).wf(),
            final(self).offsets() == old(self).offsets(),
            final(self).cursor_pos() == old(self).cursor_pos(),
            final(self).phase() == 0,
    {
        self.phase = 0;
    }

    /// The offset for the next sample.
    pub fn current(&self) -> (r: i32)
        requires
            self.wf(),
        ensures
            0 <= self.cursor_pos() < self.offsets().len(),
            r == self.offsets()[self.cursor_pos()],
    {
        self.offsets[self.cursor]
    }

    /// Takes the offset for one sample and moves past that sample: the
    /// cursor advances by one, wrapping, when a frame of two is complete.
    pub fn consume(&mut self) -> (r: i32)
        requires
            old(self).wf(),
        ensures
            final(self).wf(),
            final(self).offsets() == old(self).offsets(),
            r == old(self).offsets()[old(self).cursor_pos()],
            final(self).cursor_pos() == cursor_after(
                old(self).cursor_pos(),
                old(self).phase(),
                1,
                old(self).offsets().len() as int,
            ),
            final(self).phase() == phase_after(old(self).phase(), 1),
    {
        let r: i32 = self.offsets[self.cursor];
        proof {
            lemma_small_mod(self.cursor as nat, self.offsets@.len());
        }
        if self.phase == 0 {
            self.phase = 1;
        } else {
            self.phase = 0;
            if self.cursor == self.offsets.len() - 1 {
                self.cursor = 0;
                proof {
                    vstd::arithmetic::div_mod::lemma_mod_self_0(self.offsets@.len() as int);
                }
            } else {
                self.cursor = self.cursor + 1;
                proof {
                    lemma_small_mod(self.cursor as nat, self.offsets@.len());
                }
            }
        }
        r
    }
}

/// Stepping the cursor by `n` samples and then by one more is stepping it
/// by `n + 1`.
pub proof fn lemma_cursor_step(cursor: int, phase: int, n: int, len: int)
    requires
        0 <= cursor < len,
        0 <= phase < 2,
        0 <= n,
    ensures
        cursor_after(cursor_after(cursor, phase, n, len), phase_after(phase, n), 1, len)
            == cursor_after(cursor, phase, n + 1, len),
        phase_after(phase_after(phase, n), 1) == phase_after(phase, n + 1),
{
    let q = (phase + n) / 2;
    let d = (phase_after(phase, n) + 1) / 2;
    assert((phase + n + 1) / 2 == q + d);
    lemma_add_mod_noop_right(d, cursor + q, len);
}

/// After `2 * len * k` samples of a stereo stream the cursor, and the
/// position within the frame, are back where they started.
pub proof fn lemma_cursor_cycle(cursor: int, phase: int, len: int, k: int)
    requires
        0 <= cursor < len,
        0 <= phase < 2,
        0 < k,
    ensures
        cursor_after(cursor, phase, 2 * len * k, len) == cursor,
        phase_after(phase, 2 * len * k) == phase,
{
    let n = 2 * len * k;
    assert((phase + n) / 2 == len * k) by (nonlinear_arith)
        requires
            n == 2 * len * k,
            0 <= phase < 2,
    ;
    lemma_mod_multiples_vanish(k, cursor, len);
    assert(len * k == k * len) by (nonlinear_arith);
    lemma_small_mod(cursor as nat, len as nat);
    assert(2 * (len * k) == n) by (nonlinear_arith)
        requires
            n == 2 * len * k,
    ;
    lemma_mod_multiples_vanish(len * k, phase, 2);
    lemma_small_mod(phase as nat, 2);
}

} // verus!
