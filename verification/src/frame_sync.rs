//! Frame-in-flight synchronization ring.
//!
//! A fixed ring of frames, each owning one fence ("the GPU finished this
//! frame's submitted work") and one semaphore ("rendering finished, safe to
//! present"). `next_frame` advances the ring and names the slot whose fence
//! must be waited on before the CPU may reuse that slot's resources. The
//! fences themselves live on the GPU; their signaled state is mirrored here
//! as a boolean that the surrounding layer updates when it waits or submits.
use vstd::prelude::*;

verus! {

use vstd::arithmetic::div_mod::{
    lemma_add_mod_noop_right, lemma_mod_bound, lemma_mod_equivalence, lemma_mod_multiples_vanish,
    lemma_small_mod, lemma_sub_mod_noop,
};

/// One slot of the in-flight ring.
#[derive(Copy, Clone, Debug, PartialEq, Eq, Structural)]
pub struct Frame {
    /// Mirror of the slot's fence: true once the GPU signaled that the
    /// frame's submitted work is done. Fences start pre-signaled.
    pub fence_signaled: bool,
    /// Mirror of the slot's render-finished semaphore: true while a
    /// submission will signal it for presentation to wait on.
    pub render_pending: bool,
}

impl Frame {
    /// A fresh slot: fence pre-signaled, nothing submitted yet.
    pub fn new() -> (r: Frame)
        ensures
            r.fence_signaled,
            !r.render_pending,
    {
        Frame { fence_signaled: true, render_pending: false }
    }
}

/// The ring of frames and the index of the frame in use.
pub struct FrameSync {
    pub(crate) frames: Vec<Frame>,
    pub(crate) frame_idx: usize,
}

impl FrameSync {
    /// Number of frames in flight; fixed at construction, at least 2.
    pub open(crate) spec fn n_frames(self) -> int {
        self.frames@.len() as int
    }

    /// The slot currently in use.
    pub open(crate) spec fn idx(self) -> int {
        self.frame_idx as int
    }

    /// The ring's slots.
    pub open(crate) spec fn slots(self) -> Seq<Frame> {
        self.frames@
    }

    pub open(crate) spec fn wf(self) -> bool {
        &&& 2 <= self.frames@.len()
        &&& self.frame_idx < self.frames@.len()
    }

    /// A ring of `frames_in_flight` fresh slots.
    pub fn new(frames_in_flight: usize) -> (r: Self)
        requires
            2 <= frames_in_flight,
        ensures
            r.wf(),
            r.n_frames() == frames_in_flight,
            r.idx() == 0,
            forall|i: int|
                0 <= i < frames_in_flight ==> (#[trigger] r.slots()[i]).fence_signaled
                    && !r.slots()[i].render_pending,
    {
        let mut frames: Vec<Frame> = Vec::new();
        let mut i: usize = 0;
        while i < frames_in_flight
            invariant
                i <= frames_in_flight,
                frames@.len() == i,
                forall|k: int|
                    0 <= k < i ==> (#[trigger] frames@[k]).fence_signaled
                        && !frames@[k].render_pending,
            decreases frames_in_flight - i,
        {
            frames.push(Frame::new());
            i = i + 1;
        }
        FrameSync { frames, frame_idx: 0 }
    }

    /// Advance the ring and hand out the next slot. The second component
    /// says whether the caller must block on that slot's fence before
    /// reusing its per-frame resources: true exactly while the fence has
    /// not been signaled since the slot's last submission.
    pub fn next_frame(&mut self) -> (r: (usize, bool))
        requires
            old(self).wf(),
        ensures
            final(self).wf(),
            r.0 == (old(self).idx() + 1) % old(self).n_frames(),
            final(self).idx() == r.0,
            final(self).slots() == old(self).slots(),
            r.1 == !old(self).slots()[r.0 as int].fence_signaled,
    {
        let n = self.frames.len();
        self.frame_idx = (self.frame_idx + 1) % n;
        let wait_needed = !self.frames[self.frame_idx].fence_signaled;
        (self.frame_idx, wait_needed)
    }

    /// The slot in use, so other components can pick the matching
    /// per-frame resource without advancing the ring.
    pub fn current_frame(&self) -> (r: usize)
        ensures
            r == self.idx(),
    {
        self.frame_idx
    }

    /// Record that a wait on this slot's fence returned (or that the fence
    /// was observed signaled): the GPU is done with the slot's work.
    pub fn mark_fence_signaled(&mut self, slot: usize)
        requires
            old(self).wf(),
            slot < old(self).n_frames(),
        ensures
            final(self).wf(),
            final(self).idx() == old(self).idx(),
            final(self).n_frames() == old(self).n_frames(),
            final(self).slots()[slot as int].fence_signaled,
            final(self).slots()[slot as int].render_pending == old(self).slots()[
                slot as int
            ].render_pending,
            forall|i: int|
                0 <= i < old(self).n_frames() && i != slot ==> final(self).slots()[i] == old(
                    self,
                ).slots()[i],
    {
        let pending = self.frames[slot].render_pending;
        self.frames[slot] = Frame { fence_signaled: true, render_pending: pending };
    }

    /// Record that the slot's fence was reset and its command buffer
    /// submitted: the fence is unsignaled until the GPU catches up, and the
    /// render-finished semaphore will be signaled for presentation.
    pub fn mark_submitted(&mut self, slot: usize)
        requires
            old(self).wf(),
            slot < old(self).n_frames(),
            old(self).slots()[slot as int].fence_signaled,
        ensures
            final(self).wf(),
            final(self).idx() == old(self).idx(),
            final(self).n_frames() == old(self).n_frames(),
            !final(self).slots()[slot as int].fence_signaled,
            final(self).slots()[slot as int].render_pending,
            forall|i: int|
                0 <= i < old(self).n_frames() && i != slot ==> final(self).slots()[i] == old(
                    self,
                ).slots()[i],
    {
        self.frames[slot] = Frame { fence_signaled: false, render_pending: true };
    }
}

/// The in-flight ring as a mathematical state: slot count, index of the
/// frame in use, and each slot's fence-signaled flag.
pub struct RingState {
    pub n: int,
    pub idx: int,
    pub signaled: Seq<bool>,
}

pub open spec fn ring_wf(s: RingState) -> bool {
    &&& 2 <= s.n
    &&& 0 <= s.idx < s.n
    &&& s.signaled.len() == s.n
}

/// The slot the next `next_frame` call hands out.
pub open spec fn round_slot(s: RingState) -> int {
    (s.idx + 1) % s.n
}

/// One frame round: `next_frame` advances the ring and hands the slot
/// out, and after recording, `mark_submitted` on that slot resets its
/// fence for the queue submission.
pub open spec fn ring_round(s: RingState) -> RingState {
    RingState { n: s.n, idx: round_slot(s), signaled: s.signaled.update(round_slot(s), false) }
}

/// The ring after `j` frame rounds.
pub open spec fn rounds(s: RingState, j: nat) -> RingState
    decreases j,
{
    if j == 0 {
        s
    } else {
        rounds(ring_round(s), (j - 1) as nat)
    }
}

/// The synchronizer's ring model.
pub open(crate) spec fn ring_of(s: FrameSync) -> RingState {
    RingState {
        n: s.n_frames(),
        idx: s.idx(),
        signaled: Seq::new(s.slots().len(), |i: int| s.slots()[i].fence_signaled),
    }
}

/// A `next_frame` call handing out slot `k` followed by
/// `mark_submitted(k)` — the postconditions those two calls establish —
/// realizes exactly one ring round on the model.
pub proof fn lemma_round_matches_exec(s: FrameSync, t: FrameSync, k: int)
    requires
        s.wf(),
        t.n_frames() == s.n_frames(),
        k == (s.idx() + 1) % s.n_frames(),
        t.idx() == k,
        t.slots().len() == s.slots().len(),
        t.slots()[k].fence_signaled == false,
        forall|i: int| 0 <= i < s.n_frames() && i != k ==> t.slots()[i] == s.slots()[i],
    ensures
        ring_of(t).n == ring_round(ring_of(s)).n,
        ring_of(t).idx == ring_round(ring_of(s)).idx,
        ring_of(t).signaled =~= ring_round(ring_of(s)).signaled,
{
    lemma_mod_bound(s.idx() + 1, s.n_frames());
}

/// Appending one round commutes with peeling one off the front.
proof fn lemma_rounds_snoc(s: RingState, j: nat)
    ensures
        rounds(s, (j + 1) as nat) == ring_round(rounds(s, j)),
    decreases j,
{
    if j == 0 {
        reveal_with_fuel(rounds, 2);
    } else {
        lemma_rounds_snoc(ring_round(s), (j - 1) as nat);
    }
}

/// Congruent ring indices within one turn of the ring are the same slot.
proof fn lemma_congruent_slots_equal(i: int, j: int, n: int)
    requires
        0 < n,
        0 <= i < n,
        0 <= j < n,
        (i - j) % n == 0,
    ensures
        i == j,
{
    lemma_mod_equivalence(i, j, n);
    lemma_small_mod(i as nat, n as nat);
    lemma_small_mod(j as nat, n as nat);
}

/// After `m + 1` rounds from a fully signaled ring, the index has walked
/// `m` slots past the first handed-out slot `k`, and exactly the slots at
/// ring distance up to `m` from `k` have unsignaled fences.
proof fn lemma_rounds_shape(s0: RingState, m: nat)
    requires
        ring_wf(s0),
        forall|i: int| 0 <= i < s0.n ==> s0.signaled[i],
        m < s0.n,
    ensures
        rounds(s0, (m + 1) as nat).n == s0.n,
        rounds(s0, (m + 1) as nat).signaled.len() == s0.n,
        rounds(s0, (m + 1) as nat).idx == (round_slot(s0) + m) % s0.n,
        forall|i: int|
            0 <= i < s0.n ==> (rounds(s0, (m + 1) as nat).signaled[i] <==> #[trigger] ((i
                - round_slot(s0)) % s0.n) > m),
    decreases m,
{
    let n = s0.n;
    let k = round_slot(s0);
    lemma_mod_bound(s0.idx + 1, n);
    if m == 0 {
        assert(rounds(s0, 1) == ring_round(s0)) by {
            reveal_with_fuel(rounds, 2);
        }
        lemma_small_mod(k as nat, n as nat);
        assert forall|i: int| 0 <= i < n implies (ring_round(s0).signaled[i] <==> (i - k) % n
            > 0) by {
            lemma_mod_bound(i - k, n);
            if (i - k) % n == 0 {
                lemma_congruent_slots_equal(i, k, n);
            } else if i == k {
                lemma_small_mod(0, n as nat);
            }
        }
    } else {
        lemma_rounds_shape(s0, (m - 1) as nat);
        let sm = rounds(s0, m);
        lemma_rounds_snoc(s0, m);
        assert(rounds(s0, (m + 1) as nat) == ring_round(sm));
        let ks = round_slot(sm);
        assert(ks == (k + m) % n) by {
            lemma_add_mod_noop_right(1, k + m - 1, n);
        }
        assert((ks - k) % n == m) by {
            lemma_sub_mod_noop(k + m, k, n);
            lemma_small_mod(k as nat, n as nat);
            lemma_small_mod(m, n as nat);
        }
        lemma_mod_bound(sm.idx + 1, n);
        assert forall|i: int| 0 <= i < n implies (ring_round(sm).signaled[i] <==> (i - k) % n
            > m) by {
            if i == ks {
            } else {
                assert(ring_round(sm).signaled[i] == sm.signaled[i]);
                if (i - k) % n == m {
                    assert((i - ks) % n == 0) by {
                        lemma_mod_equivalence(i - k, ks - k, n);
                    }
                    lemma_congruent_slots_equal(i, ks, n);
                }
            }
        }
    }
}

/// The wait gate of the ring. From a ring whose fences are all signaled,
/// the first round hands out slot `k` and submits on it. Each of the
/// following `n - 1` rounds hands out a different slot whose fence is
/// still signaled — no waiting — and the call after those returns to `k`
/// while `k`'s fence, never signaled in between, is still down: that call
/// must block until the GPU signals it.
pub proof fn lemma_wait_gate(s0: RingState)
    requires
        ring_wf(s0),
        forall|i: int| 0 <= i < s0.n ==> s0.signaled[i],
    ensures
        forall|j: int|
            1 <= j < s0.n ==> round_slot(#[trigger] rounds(s0, j as nat)) != round_slot(s0),
        forall|j: int|
            1 <= j < s0.n ==> rounds(s0, j as nat).signaled[round_slot(
                #[trigger] rounds(s0, j as nat),
            )],
        round_slot(rounds(s0, s0.n as nat)) == round_slot(s0),
        !rounds(s0, s0.n as nat).signaled[round_slot(s0)],
{
    let n = s0.n;
    let k = round_slot(s0);
    lemma_mod_bound(s0.idx + 1, n);
    assert forall|j: int| 1 <= j < n implies round_slot(#[trigger] rounds(s0, j as nat)) != k
        && rounds(s0, j as nat).signaled[round_slot(rounds(s0, j as nat))] by {
        lemma_rounds_shape(s0, (j - 1) as nat);
        let sj = rounds(s0, j as nat);
        let slot = round_slot(sj);
        assert(slot == (k + j) % n) by {
            lemma_add_mod_noop_right(1, k + j - 1, n);
        }
        assert((slot - k) % n == j) by {
            lemma_sub_mod_noop(k + j, k, n);
            lemma_small_mod(k as nat, n as nat);
            lemma_small_mod(j as nat, n as nat);
        }
        lemma_mod_bound(slot - k, n);
        if slot == k {
            lemma_small_mod(0, n as nat);
        }
    }
    lemma_rounds_shape(s0, (n - 1) as nat);
    let sn = rounds(s0, n as nat);
    assert(round_slot(sn) == (k + n) % n) by {
        lemma_add_mod_noop_right(1, k + n - 1, n);
    }
    assert((k + n) % n == k) by {
        lemma_mod_multiples_vanish(1, k, n);
        lemma_small_mod(k as nat, n as nat);
    }
    assert(!sn.signaled[k]) by {
        assert((k - k) % n == 0) by {
            lemma_small_mod(0, n as nat);
        }
    }
}

} // verus!
