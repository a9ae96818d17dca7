use vstd::prelude::*;

verus! {

/// One submitted frame, as the simulated timeline records it: the slot it
/// was submitted through and the window of simulated time in which the GPU
/// executed it.
#[derive(Clone, Copy, PartialEq, Eq, Structural, Debug)]
pub struct FrameRecord {
    pub slot: usize,
    pub start: u64,
    pub end: u64,
}

/// One slot of the fixed ring: its fence is unsignaled (busy) while work
/// submitted through it has not yet been waited for, and `completes_at`
/// is the simulated time that work finishes.
struct Slot {
    busy: bool,
    completes_at: u64,
}

/// How many of the slots are busy.
spec fn count_busy(s: Seq<Slot>) -> nat
    decreases s.len(),
{
    if s.len() == 0 {
        0
    } else {
        count_busy(s.drop_last()) + if s.last().busy {
            1nat
        } else {
            0nat
        }
    }
}

/// The simulated time by which the work outstanding on every slot has
/// finished, starting from `base`.
spec fn max_completes(s: Seq<Slot>, base: u64) -> u64
    decreases s.len(),
{
    if s.len() == 0 {
        base
    } else {
        let m = max_completes(s.drop_last(), base);
        if s.last().busy && s.last().completes_at > m {
            s.last().completes_at
        } else {
            m
        }
    }
}

proof fn lemma_max_completes_bounds(s: Seq<Slot>, base: u64)
    ensures
        max_completes(s, base) >= base,
        forall|k: int|
            0 <= k < s.len() && (#[trigger] s[k]).busy ==> s[k].completes_at <= max_completes(
                s,
                base,
            ),
    decreases s.len(),
{
    if s.len() > 0 {
        lemma_max_completes_bounds(s.drop_last(), base);
        assert(forall|k: int| 0 <= k < s.len() - 1 ==> s[k] == s.drop_last()[k]);
    }
}

proof fn lemma_count_busy_le_len(s: Seq<Slot>)
    ensures
        count_busy(s) <= s.len(),
    decreases s.len(),
{
    if s.len() > 0 {
        lemma_count_busy_le_len(s.drop_last());
    }
}

/// The fixed-size ring of per-frame synchronization units, driven over a
/// simulated GPU timeline. A frame is begun by waiting on the slot's fence
/// (blocking until the work last submitted through the slot has finished)
/// and ended by submitting new work through the slot; the slot index then
/// advances round-robin, independent of which chain image was acquired.
pub struct FrameSync {
    slots: Vec<Slot>,
    current: usize,
    now: u64,
    history: Vec<FrameRecord>,
}

impl FrameSync {
    /// The number of frame slots, F.
    pub closed spec fn spec_f(self) -> nat {
        self.slots@.len()
    }

    /// The slot the next frame will use.
    pub closed spec fn spec_current(self) -> nat {
        self.current as nat
    }

    /// The current simulated time.
    pub closed spec fn spec_now(self) -> u64 {
        self.now
    }

    /// Every frame submitted so far, in submission order.
    pub closed spec fn spec_history(self) -> Seq<FrameRecord> {
        self.history@
    }

    /// Whether slot `s` has an outstanding (unsignaled) fence.
    pub closed spec fn slot_busy(self, s: int) -> bool {
        self.slots@[s].busy
    }

    /// The simulated time the work outstanding on slot `s` finishes.
    pub closed spec fn slot_completes_at(self, s: int) -> u64 {
        self.slots@[s].completes_at
    }

    /// The number of frames whose completion fence is still outstanding.
    pub closed spec fn spec_in_flight(self) -> nat {
        count_busy(self.slots@)
    }

    /// The simulated time a wait on the current slot's fence returns at:
    /// the outstanding work's completion when the fence is outstanding
    /// and still running, else right now.
    pub open spec fn spec_wait_time(self) -> u64 {
        if self.slot_busy(self.spec_current() as int) && self.slot_completes_at(
            self.spec_current() as int,
        ) > self.spec_now() {
            self.slot_completes_at(self.spec_current() as int)
        } else {
            self.spec_now()
        }
    }

    /// The simulated time a full device-idle wait returns at: when the
    /// work outstanding on every slot has finished.
    pub closed spec fn spec_idle_time(self) -> u64 {
        max_completes(self.slots@, self.now)
    }

    /// A wait on one slot never outlasts a full device-idle wait.
    pub proof fn lemma_wait_le_idle(&self)
        requires
            self.wf(),
        ensures
            self.spec_now() <= self.spec_idle_time(),
            self.spec_wait_time() <= self.spec_idle_time(),
    {
        lemma_max_completes_bounds(self.slots@, self.now);
    }

    /// The ring's invariant: the slot cursor follows the number of frames
    /// submitted, every record went through slot (index mod F), execution
    /// windows are ordered in time, work recorded on a free slot has
    /// finished by now, work on a busy slot finishes by the slot's fence
    /// time, and two frames through one slot never overlap.
    pub closed spec fn wf(self) -> bool {
        let f = self.slots@.len() as int;
        let h = self.history@;
        &&& self.slots@.len() >= 1
        &&& (self.current as int) < f
        &&& self.current as int == (self.history@.len() as int) % f
        &&& forall|k: int|
            0 <= k < h.len() ==> (#[trigger] h[k]).slot as int == k % f
        &&& forall|k: int| 0 <= k < h.len() ==> (#[trigger] h[k]).start <= h[k].end
        &&& forall|k: int|
            0 <= k < h.len() ==> (#[trigger] h[k]).end <= if self.slots@[h[k].slot as int].busy {
                self.slots@[h[k].slot as int].completes_at
            } else {
                self.now
            }
        &&& forall|k1: int, k2: int|
            0 <= k1 < k2 < h.len() && (#[trigger] h[k1]).slot == (#[trigger] h[k2]).slot
                ==> h[k1].end <= h[k2].start
    }

    /// Builds the ring with `frames_in_flight` slots, all fences signaled
    /// (as they are created), at simulated time zero.
    pub fn new(frames_in_flight: usize) -> (r: FrameSync)
        requires
            frames_in_flight >= 1,
        ensures
            r.wf(),
            r.spec_f() == frames_in_flight,
            r.spec_current() == 0,
            r.spec_now() == 0,
            r.spec_history().len() == 0,
            r.spec_in_flight() == 0,
            forall|s: int| 0 <= s < frames_in_flight ==> !r.slot_busy(s),
    {
        let mut slots: Vec<Slot> = Vec::new();
        let mut i: usize = 0;
        while i < frames_in_flight
            invariant
                i <= frames_in_flight,
                slots@.len() == i,
                forall|s: int| 0 <= s < i ==> !(#[trigger] slots@[s]).busy,
                count_busy(slots@) == 0,
            decreases frames_in_flight - i,
        {
            let ghost old_slots = slots@;
            slots.push(Slot { busy: false, completes_at: 0 });
            proof {
                assert(slots@.drop_last() =~= old_slots);
            }
            i = i + 1;
        }
        proof {
            vstd::arithmetic::div_mod::lemma_small_mod(0nat, frames_in_flight as nat);
        }
        FrameSync { slots, current: 0, now: 0, history: Vec::new() }
    }

    /// Waits on the current slot's fence: simulated time advances to the
    /// completion of the work last submitted through this slot, and the
    /// fence is reset. Returns whether the wait actually blocked; it
    /// returns immediately when the slot's work (if any) had already
    /// finished.
    pub fn begin_frame(&mut self) -> (waited: bool)
        requires
            old(self).wf(),
        ensures
            final(self).wf(),
            final(self).spec_f() == old(self).spec_f(),
            final(self).spec_current() == old(self).spec_current(),
            final(self).spec_history() == old(self).spec_history(),
            !final(self).slot_busy(final(self).spec_current() as int),
            final(self).spec_now() == if old(self).slot_busy(old(self).spec_current() as int)
                && old(self).slot_completes_at(old(self).spec_current() as int) > old(
                self,
            ).spec_now() {
                old(self).slot_completes_at(old(self).spec_current() as int)
            } else {
                old(self).spec_now()
            },
            waited == (old(self).slot_busy(old(self).spec_current() as int) && old(
                self,
            ).slot_completes_at(old(self).spec_current() as int) > old(self).spec_now()),
            final(self).spec_in_flight() <= old(self).spec_in_flight(),
    {
        let cur = self.current;
        let busy = self.slots[cur].busy;
        let completes_at = self.slots[cur].completes_at;
        let waited = busy && completes_at > self.now;
        if busy {
            if completes_at > self.now {
                self.now = completes_at;
            }
            let ghost old_slots = self.slots@;
            self.slots[cur] = Slot { busy: false, completes_at: 0 };
            proof {
                lemma_count_busy_update_to_free(old_slots, cur as int);
            }
        }
        waited
    }

    /// Submits one frame's GPU work through the current slot: the work
    /// occupies the simulated window [now, now + gpu_duration], the slot's
    /// fence becomes outstanding until that window ends, and the slot
    /// cursor advances round-robin.
    pub fn end_frame(&mut self, gpu_duration: u64)
        requires
            old(self).wf(),
            !old(self).slot_busy(old(self).spec_current() as int),
            old(self).spec_now() + gpu_duration <= u64::MAX,
        ensures
            final(self).wf(),
            final(self).spec_f() == old(self).spec_f(),
            final(self).spec_now() == old(self).spec_now(),
            final(self).spec_history() == old(self).spec_history().push(
                FrameRecord {
                    slot: old(self).spec_current() as usize,
                    start: old(self).spec_now(),
                    end: (old(self).spec_now() + gpu_duration) as u64,
                },
            ),
            final(self).spec_current() == (old(self).spec_current() + 1) % old(self).spec_f(),
            final(self).slot_busy(old(self).spec_current() as int),
            final(self).slot_completes_at(old(self).spec_current() as int) == old(self).spec_now()
                + gpu_duration,
            final(self).spec_in_flight() == old(self).spec_in_flight() + 1,
    {
        let cur = self.current;
        let end = self.now + gpu_duration;
        let ghost old_slots = self.slots@;
        self.history.push(FrameRecord { slot: cur, start: self.now, end });
        self.slots[cur] = Slot { busy: true, completes_at: end };
        proof {
            lemma_count_busy_update_to_busy(old_slots, cur as int, end);
        }
        proof {
            lemma_mod_succ(old(self).history@.len() as int, self.slots@.len() as int);
        }
        let f = self.slots.len();
        assert(cur < f);
        self.current = (cur + 1) % f;
    }

    /// Blocks until the GPU has finished all outstanding work: simulated
    /// time advances to the last outstanding completion. The fences stay
    /// to be waited on and reset; slots, cursor and history are untouched.
    pub fn wait_idle(&mut self)
        requires
            old(self).wf(),
        ensures
            final(self).wf(),
            final(self).spec_f() == old(self).spec_f(),
            final(self).spec_current() == old(self).spec_current(),
            final(self).spec_history() == old(self).spec_history(),
            final(self).spec_in_flight() == old(self).spec_in_flight(),
            forall|s: int|
                0 <= s < old(self).spec_f() ==> final(self).slot_busy(s) == old(self).slot_busy(s)
                    && final(self).slot_completes_at(s) == old(self).slot_completes_at(s),
            final(self).spec_now() == old(self).spec_idle_time(),
            final(self).spec_now() >= old(self).spec_now(),
            forall|s: int|
                0 <= s < old(self).spec_f() && old(self).slot_busy(s) ==> old(
                    self,
                ).slot_completes_at(s) <= final(self).spec_now(),
    {
        let n: usize = self.slots.len();
        let ghost base = self.now;
        let mut i: usize = 0;
        while i < n
            invariant
                i <= n,
                n == self.slots@.len(),
                self.slots@ == old(self).slots@,
                self.current == old(self).current,
                self.history@ == old(self).history@,
                base == old(self).now,
                self.now == max_completes(self.slots@.take(i as int), base),
            decreases n - i,
        {
            let ghost prefix = self.slots@.take(i as int);
            if self.slots[i].busy && self.slots[i].completes_at > self.now {
                self.now = self.slots[i].completes_at;
            }
            proof {
                assert(self.slots@.take(i + 1).drop_last() =~= prefix);
            }
            i = i + 1;
        }
        proof {
            assert(self.slots@.take(n as int) =~= self.slots@);
            lemma_max_completes_bounds(self.slots@, base);
        }
    }

    /// The in-flight bound: the number of frames with outstanding
    /// completion fences never exceeds F, at any simulated time.
    pub proof fn lemma_in_flight_bound(&self)
        requires
            self.wf(),
        ensures
            self.spec_in_flight() <= self.spec_f(),
    {
        lemma_count_busy_le_len(self.slots@);
    }

    /// Slot disjointness: two frames submitted through the same slot never
    /// have overlapping GPU execution windows — the fence wait fully
    /// separates them, so the slot's command buffer and uniform region are
    /// never touched by two frames at once.
    pub proof fn lemma_slot_windows_disjoint(&self, i: int, j: int)
        requires
            self.wf(),
            0 <= i < j < self.spec_history().len(),
            self.spec_history()[i].slot == self.spec_history()[j].slot,
        ensures
            self.spec_history()[i].end <= self.spec_history()[j].start,
    {
    }

    /// Slot assignment is round-robin: the k-th submitted frame went
    /// through slot k mod F, independent of which chain image it drew to.
    pub proof fn lemma_slot_round_robin(&self, k: int)
        requires
            self.wf(),
            0 <= k < self.spec_history().len(),
        ensures
            self.spec_history()[k].slot as int == k % (self.spec_f() as int),
    {
    }

    /// The number of frame slots.
    pub fn frames_in_flight(&self) -> (r: usize)
        ensures
            r == self.spec_f(),
    {
        self.slots.len()
    }

    /// The slot the next frame will use.
    pub fn current_slot(&self) -> (r: usize)
        ensures
            r == self.spec_current(),
    {
        self.current
    }

    /// The current simulated time.
    pub fn now(&self) -> (r: u64)
        ensures
            r == self.spec_now(),
    {
        self.now
    }

    /// Counts the slots whose fences are outstanding.
    pub fn in_flight(&self) -> (r: usize)
        ensures
            r == self.spec_in_flight(),
    {
        let n: usize = self.slots.len();
        let mut cnt: usize = 0;
        let mut i: usize = 0;
        while i < n
            invariant
                i <= n,
                n == self.slots@.len(),
                cnt == count_busy(self.slots@.take(i as int)),
                cnt <= i,
            decreases n - i,
        {
            let ghost prefix = self.slots@.take(i as int);
            if self.slots[i].busy {
                cnt = cnt + 1;
            }
            proof {
                assert(self.slots@.take(i + 1).drop_last() =~= prefix);
            }
            i = i + 1;
        }
        proof {
            assert(self.slots@.take(n as int) =~= self.slots@);
        }
        cnt
    }

    /// How many frames have been submitted so far.
    pub fn frames_submitted(&self) -> (r: usize)
        ensures
            r == self.spec_history().len(),
    {
        self.history.len()
    }

    /// The record of the k-th submitted frame.
    pub fn history_at(&self, k: usize) -> (r: FrameRecord)
        requires
            k < self.spec_history().len(),
        ensures
            r == self.spec_history()[k as int],
    {
        self.history[k]
    }

    /// Whether slot `s` has an outstanding fence.
    pub fn slot_is_busy(&self, s: usize) -> (r: bool)
        requires
            s < self.spec_f(),
        ensures
            r == self.slot_busy(s as int),
    {
        self.slots[s].busy
    }
}

/// Stepping the remainder: advancing a round-robin cursor by one tracks
/// the count it follows.
proof fn lemma_mod_succ(len: int, f: int)
    requires
        0 < f,
        0 <= len,
    ensures
        (len % f + 1) % f == (len + 1) % f,
{
    vstd::arithmetic::div_mod::lemma_add_mod_noop(len, 1, f);
    if f == 1 {
        assert((len % 1 + 1) % 1 == (len + 1) % 1) by (nonlinear_arith);
    } else {
        vstd::arithmetic::div_mod::lemma_small_mod(1nat, f as nat);
    }
}

/// Freeing one slot never raises the number of busy slots.
proof fn lemma_count_busy_update_to_free(s: Seq<Slot>, i: int)
    requires
        0 <= i < s.len(),
    ensures
        count_busy(s.update(i, Slot { busy: false, completes_at: 0 })) == count_busy(s) - (
        if s[i].busy {
            1int
        } else {
            0int
        }),
    decreases s.len(),
{
    let t = s.update(i, Slot { busy: false, completes_at: 0 });
    if i == s.len() - 1 {
        assert(t.drop_last() =~= s.drop_last());
    } else {
        lemma_count_busy_update_to_free(s.drop_last(), i);
        assert(t.drop_last() =~= s.drop_last().update(i, Slot { busy: false, completes_at: 0 }));
        assert(t.last() == s.last());
    }
}

/// Marking one free slot busy raises the number of busy slots by one.
proof fn lemma_count_busy_update_to_busy(s: Seq<Slot>, i: int, c: u64)
    requires
        0 <= i < s.len(),
        !s[i].busy,
    ensures
        count_busy(s.update(i, Slot { busy: true, completes_at: c })) == count_busy(s) + 1,
    decreases s.len(),
{
    let t = s.update(i, Slot { busy: true, completes_at: c });
    if i == s.len() - 1 {
        assert(t.drop_last() =~= s.drop_last());
    } else {
        lemma_count_busy_update_to_busy(s.drop_last(), i, c);
        assert(t.drop_last() =~= s.drop_last().update(i, Slot { busy: true, completes_at: c }));
        assert(t.last() == s.last());
    }
}

} // verus!
