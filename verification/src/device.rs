//! The logical device's bookkeeping: the GPU timeline counter and the
//! deferred-destruction queue.
//!
//! The timeline counter has two readings. The *reserved* counter is the
//! highest value handed out to a submission; the GPU later signals each
//! reserved value on the timeline semaphore, and the highest signaled value is
//! the *completed* counter. A resource scheduled for destruction carries the
//! reserved counter snapshotted at release time and may be physically
//! destroyed only once the completed counter has reached it.

use vstd::prelude::*;

verus! {

/// A device object waiting for its required timeline counter before it may be
/// physically destroyed. Handles are the raw 64-bit object ids of the
/// graphics API; a buffer also names the id under which its memory
/// allocation is kept.
#[derive(Clone, Copy, Debug, PartialEq, Eq, Structural)]
pub enum ResourceToDestroy {
    ImageView(u64),
    Semaphore(u64),
    Fence(u64),
    Buffer(u64, u64),
    ShaderModule(u64),
    PipelineLayout(u64),
    Pipeline(u64),
}

/// One entry of the deferred-destruction queue: the resource and the timeline
/// counter that must be completed before it may be destroyed.
#[derive(Clone, Copy, Debug, PartialEq, Eq, Structural)]
pub struct PendingDestruction {
    pub counter: u64,
    pub resource: ResourceToDestroy,
}

/// The device model: the reserved and completed timeline counters, the
/// timeline semaphore's handle, and the deferred-destruction queue, kept
/// sorted by required counter.
pub struct Device {
    timeline_semaphore: u64,
    timeline_counter: u64,
    completed_counter: u64,
    resources_to_destroy: Vec<PendingDestruction>,
}

/// A semaphore operation of a submission: which semaphore, the value to wait
/// for or signal (meaningful on the timeline semaphore only), and the
/// pipeline stage mask it applies to.
#[derive(Clone, Copy, Debug, PartialEq, Eq, Structural)]
pub struct SemaphoreSignal {
    pub semaphore: u64,
    pub value: u64,
    pub stage_mask: u64,
}

/// The queue is sorted: required counters never decrease along it.
pub open spec fn sorted_by_counter(s: Seq<PendingDestruction>) -> bool {
    forall|i: int, j: int| 0 <= i <= j < s.len() ==> s[i].counter <= s[j].counter
}

/// Every queued entry's required counter has already been reserved.
pub open spec fn all_reserved(s: Seq<PendingDestruction>, reserved: u64) -> bool {
    forall|i: int| 0 <= i < s.len() ==> #[trigger] s[i].counter <= reserved
}

/// The length of the longest prefix of `s` whose required counters are all at
/// most `c`. On a sorted queue this is where the entries eligible at
/// completed value `c` end, and where an entry with counter `c` is inserted.
pub open spec fn split_point(s: Seq<PendingDestruction>, c: u64) -> int
    decreases s.len(),
{
    if s.len() == 0 {
        0
    } else if s[0].counter <= c {
        1 + split_point(s.drop_first(), c)
    } else {
        0
    }
}

/// On a sorted queue, `split_point` parts the entries that are eligible at
/// completed value `c` from those that are not: everything before it is due
/// (counter at most `c`), everything from it on must wait (counter above
/// `c`). With `schedule_destroy` keeping the queue sorted, this is why a reap
/// at `c` destroys exactly the entries whose counter is at most `c`, in
/// non-decreasing counter order, and leaves exactly the others queued.
pub proof fn lemma_split_point_partitions(s: Seq<PendingDestruction>, c: u64)
    requires
        sorted_by_counter(s),
    ensures
        0 <= split_point(s, c) <= s.len(),
        forall|i: int| 0 <= i < split_point(s, c) ==> #[trigger] s[i].counter <= c,
        forall|i: int| split_point(s, c) <= i < s.len() ==> #[trigger] s[i].counter > c,
    decreases s.len(),
{
    if s.len() > 0 {
        let rest = s.drop_first();
        assert(forall|i: int, j: int| 0 <= i <= j < rest.len() ==> rest[i].counter <= rest[j].counter);
        lemma_split_point_partitions(rest, c);
        if s[0].counter <= c {
            assert(forall|i: int| 1 <= i < split_point(s, c) ==> s[i] == rest[i - 1]);
            assert(forall|i: int| split_point(s, c) <= i < s.len() ==> s[i] == rest[i - 1]);
        } else {
            assert(forall|i: int| 0 <= i < s.len() ==> s[0].counter <= #[trigger] s[i].counter);
        }
    }
}

/// A scan that stops at the first entry whose counter exceeds `c` has found
/// the split point: the prefix it passed and the bound it stopped at pin the
/// value down.
proof fn lemma_split_point_unique(s: Seq<PendingDestruction>, c: u64, k: int)
    requires
        0 <= k <= s.len(),
        forall|i: int| 0 <= i < k ==> #[trigger] s[i].counter <= c,
        k < s.len() ==> s[k].counter > c,
    ensures
        split_point(s, c) == k,
    decreases s.len(),
{
    if s.len() > 0 {
        let rest = s.drop_first();
        if k == 0 {
            if s.len() > 0 && s[0].counter <= c {
                assert(false);
            }
        } else {
            assert(s[0].counter <= c);
            assert(forall|i: int| 0 <= i < k - 1 ==> rest[i] == s[i + 1]);
            assert(k - 1 < rest.len() ==> rest[k - 1] == s[k]);
            lemma_split_point_unique(rest, c, k - 1);
        }
    }
}

impl Device {
    /// The reserved counter: the highest timeline value handed out so far.
    pub closed spec fn reserved(&self) -> u64 {
        self.timeline_counter
    }

    /// The highest timeline value the GPU has been observed to signal.
    pub closed spec fn completed(&self) -> u64 {
        self.completed_counter
    }

    /// The handle of the timeline semaphore that mirrors the counter.
    pub closed spec fn semaphore(&self) -> u64 {
        self.timeline_semaphore
    }

    /// The deferred-destruction queue's contents, in order.
    pub closed spec fn pending(&self) -> Seq<PendingDestruction> {
        self.resources_to_destroy@
    }

    /// Well-formedness: completion never runs ahead of reservation, the queue
    /// is sorted, and nothing waits for a counter that was never reserved.
    pub closed spec fn wf(&self) -> bool {
        &&& self.completed_counter <= self.timeline_counter
        &&& sorted_by_counter(self.pending())
        &&& all_reserved(self.pending(), self.timeline_counter)
    }

    /// A fresh device: counters at zero, nothing pending.
    pub fn new(timeline_semaphore: u64) -> (d: Device)
        ensures
            d.wf(),
            d.reserved() == 0,
            d.completed() == 0,
            d.semaphore() == timeline_semaphore,
            d.pending() =~= Seq::<PendingDestruction>::empty(),
    {
        Device {
            timeline_semaphore,
            timeline_counter: 0,
            completed_counter: 0,
            resources_to_destroy: Vec::new(),
        }
    }

    /// The current reserved counter.
    pub fn current_timeline_counter(&self) -> (c: u64)
        ensures
            c == self.reserved(),
    {
        self.timeline_counter
    }

    /// Reserves the next timeline value: returns the old reserved counter and
    /// raises it by one. The value a new submission signals on completion is
    /// the returned counter plus one.
    pub fn get_and_then_increment_timeline_counter(&mut self) -> (c: u64)
        requires
            old(self).wf(),
            old(self).reserved() < u64::MAX,
        ensures
            final(self).wf(),
            c == old(self).reserved(),
            final(self).reserved() == old(self).reserved() + 1,
            final(self).completed() == old(self).completed(),
            final(self).semaphore() == old(self).semaphore(),
            final(self).pending() == old(self).pending(),
    {
        let c = self.timeline_counter;
        self.timeline_counter = self.timeline_counter + 1;
        c
    }

    /// Reserves the next timeline value and describes the semaphore signal a
    /// submission must carry for it: the timeline semaphore, at the value the
    /// GPU signals when that submission completes.
    pub fn signal_timeline_submit_info(&mut self) -> (s: SemaphoreSignal)
        requires
            old(self).wf(),
            old(self).reserved() < u64::MAX,
        ensures
            final(self).wf(),
            s.semaphore == old(self).semaphore(),
            s.value == old(self).reserved() + 1,
            s.stage_mask == 0,
            final(self).reserved() == old(self).reserved() + 1,
            final(self).completed() == old(self).completed(),
            final(self).semaphore() == old(self).semaphore(),
            final(self).pending() == old(self).pending(),
    {
        let c = self.get_and_then_increment_timeline_counter();
        SemaphoreSignal { semaphore: self.timeline_semaphore, value: c + 1, stage_mask: 0 }
    }

    /// The deferred-destruction queue, oldest requirement first.
    pub fn pending_resources(&self) -> (r: &Vec<PendingDestruction>)
        ensures
            r@ == self.pending(),
    {
        &self.resources_to_destroy
    }

    /// Queues `resource` for destruction once the GPU completes `counter`.
    /// The entry goes in behind every entry whose required counter is at most
    /// `counter`, so the queue stays sorted; nothing is destroyed here.
    ///
    /// `counter` must already have been reserved: scheduling a destruction
    /// against a counter no submission will ever signal is a programming
    /// error.
    pub fn schedule_destroy_resource(&mut self, counter: u64, resource: ResourceToDestroy)
        requires
            old(self).wf(),
            counter <= old(self).reserved(),
        ensures
            final(self).wf(),
            final(self).reserved() == old(self).reserved(),
            final(self).completed() == old(self).completed(),
            final(self).semaphore() == old(self).semaphore(),
            final(self).pending() == old(self).pending().insert(
                split_point(old(self).pending(), counter),
                PendingDestruction { counter, resource },
            ),
    {
        let ghost orig = self.resources_to_destroy@;
        let mut index: usize = 0;
        while index < self.resources_to_destroy.len()
            && self.resources_to_destroy[index].counter <= counter
            invariant
                self == old(self),
                self.resources_to_destroy@ == orig,
                index <= orig.len(),
                forall|i: int| 0 <= i < index ==> #[trigger] orig[i].counter <= counter,
            decreases orig.len() - index,
        {
            index = index + 1;
        }
        proof {
            lemma_split_point_unique(orig, counter, index as int);
        }
        let entry = PendingDestruction { counter, resource };
        self.resources_to_destroy.insert(index, entry);
        proof {
            let s2 = self.resources_to_destroy@;
            let k = index as int;
            lemma_split_point_partitions(orig, counter);
            assert(forall|i: int| 0 <= i < k ==> s2[i] == orig[i]);
            assert(forall|i: int| k < i < s2.len() ==> s2[i] == orig[i - 1]);
            assert(sorted_by_counter(s2)) by {
                assert(forall|i: int, j: int|
                    0 <= i <= j < s2.len() ==> s2[i].counter <= s2[j].counter) by {
                    assert forall|i: int, j: int|
                        0 <= i <= j < s2.len() implies s2[i].counter <= s2[j].counter by {
                        if i < k && j == k {
                            assert(orig[i].counter <= counter);
                        } else if i == k && j > k {
                            assert(orig[j - 1].counter > counter);
                        }
                    }
                }
            }
        }
    }

    /// Reaps the deferred-destruction queue against the GPU's `completed`
    /// timeline value, as read from the timeline semaphore: removes and
    /// returns every entry whose required counter is at most `completed`,
    /// strictly in non-decreasing counter order, for the caller to destroy
    /// physically. Entries whose counter has not been reached stay queued. A
    /// no-op when nothing is eligible; a reap at the reserved counter drains
    /// the queue entirely.
    ///
    /// The timeline semaphore never goes backwards, so `completed` is at
    /// least the last value observed, and never beyond what was reserved.
    pub fn destroy_resources(&mut self, completed: u64) -> (out: Vec<PendingDestruction>)
        requires
            old(self).wf(),
            old(self).completed() <= completed <= old(self).reserved(),
        ensures
            final(self).wf(),
            final(self).reserved() == old(self).reserved(),
            final(self).completed() == completed,
            final(self).semaphore() == old(self).semaphore(),
            out@ == old(self).pending().take(split_point(old(self).pending(), completed)),
            final(self).pending() == old(self).pending().skip(
                split_point(old(self).pending(), completed),
            ),
            out@ + final(self).pending() == old(self).pending(),
            sorted_by_counter(out@),
            forall|i: int| 0 <= i < out@.len() ==> #[trigger] out@[i].counter <= completed,
            forall|i: int|
                0 <= i < final(self).pending().len()
                    ==> #[trigger] final(self).pending()[i].counter > completed,
            completed == old(self).reserved() ==> final(self).pending().len() == 0,
    {
        let ghost orig = self.resources_to_destroy@;
        let mut out: Vec<PendingDestruction> = Vec::new();
        while self.resources_to_destroy.len() > 0
            && self.resources_to_destroy[0].counter <= completed
            invariant
                orig == old(self).pending(),
                out@.len() <= orig.len(),
                out@ == orig.take(out@.len() as int),
                forall|i: int| 0 <= i < out@.len() ==> #[trigger] out@[i].counter <= completed,
                self.resources_to_destroy@ == orig.skip(out@.len() as int),
                self.timeline_counter == old(self).reserved(),
                self.completed_counter == old(self).completed(),
                self.timeline_semaphore == old(self).semaphore(),
                sorted_by_counter(orig),
                all_reserved(orig, self.timeline_counter),
            decreases self.resources_to_destroy.len(),
        {
            let ghost k = out@.len() as int;
            let entry = self.resources_to_destroy.remove(0);
            out.push(entry);
            proof {
                assert(entry == orig.skip(k)[0]);
                assert(orig.skip(k)[0] == orig[k]);
                assert(out@ =~= orig.take(k + 1));
                assert(orig.skip(k).remove(0) =~= orig.skip(k + 1));
            }
        }
        proof {
            let k = out@.len() as int;
            assert(k < orig.len() ==> orig.skip(k)[0] == orig[k]);
            assert(forall|i: int| 0 <= i < k ==> #[trigger] orig[i].counter <= completed) by {
                assert(forall|i: int| 0 <= i < k ==> orig.take(k)[i] == orig[i]);
            }
            lemma_split_point_unique(orig, completed, k);
            assert(forall|i: int|
                0 <= i < self.resources_to_destroy@.len()
                    ==> self.resources_to_destroy@[i] == orig[k + i]);
            lemma_split_point_partitions(orig, completed);
            assert(sorted_by_counter(self.resources_to_destroy@));
            assert(all_reserved(self.resources_to_destroy@, self.timeline_counter));
            assert(sorted_by_counter(out@));
            assert(out@ + self.resources_to_destroy@ =~= orig);
            if completed == old(self).reserved() && self.resources_to_destroy@.len() > 0 {
                assert(self.resources_to_destroy@[0].counter > completed);
                assert(self.resources_to_destroy@[0].counter <= old(self).reserved());
                assert(false);
            }
        }
        self.completed_counter = completed;
        out
    }
}

/// The timeline value signalled by the submission made after `i` earlier
/// reservations, counting from a reserved counter of `r0`: each reservation
/// raises the reserved counter by one and signals the raised value.
pub open spec fn reservation_value(r0: u64, i: nat) -> int {
    r0 + i + 1
}

/// Successive reservations of the timeline counter yield pairwise distinct,
/// strictly increasing values, with no gaps: each reservation's value exceeds
/// the previous one's by exactly one.
pub proof fn lemma_reservation_values(r0: u64, i: nat, j: nat)
    requires
        i < j,
    ensures
        reservation_value(r0, i) < reservation_value(r0, j),
        reservation_value(r0, j) - reservation_value(r0, i) == j - i,
        reservation_value(r0, (i + 1) as nat) == reservation_value(r0, i) + 1,
{
}

} // verus!
