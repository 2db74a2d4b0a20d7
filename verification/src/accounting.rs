//! Process-wide allocation accounting: monotone byte and event counters and
//! a peak-usage watermark, with laws about whole runs of recorded events.

use vstd::prelude::*;

verus! {

/// Bytes per megabyte, as the statistics are republished.
pub const BYTES_PER_MB: u64 = 1048576;

/// A snapshot of the allocation counters.
#[derive(Clone, Copy, Debug, PartialEq, Eq, Structural)]
pub struct MemoryStats {
    pub allocated_bytes: u64,
    pub deallocated_bytes: u64,
    pub peak_usage_bytes: u64,
    pub allocation_count: u64,
    pub deallocation_count: u64,
}

impl MemoryStats {
    /// Allocated bytes, in whole megabytes.
    pub fn allocated_mb(&self) -> (r: u64)
        ensures
            r == self.allocated_bytes / BYTES_PER_MB,
    {
        self.allocated_bytes / BYTES_PER_MB
    }

    /// Deallocated bytes, in whole megabytes.
    pub fn deallocated_mb(&self) -> (r: u64)
        ensures
            r == self.deallocated_bytes / BYTES_PER_MB,
    {
        self.deallocated_bytes / BYTES_PER_MB
    }

    /// Peak usage, in whole megabytes.
    pub fn peak_usage_mb(&self) -> (r: u64)
        ensures
            r == self.peak_usage_bytes / BYTES_PER_MB,
    {
        self.peak_usage_bytes / BYTES_PER_MB
    }
}

/// The running tally, over unbounded integers, that a manager's counters
/// stand for.
pub ghost struct MemTally {
    pub allocated: int,
    pub deallocated: int,
    pub peak: int,
    pub allocs: int,
    pub deallocs: int,
}

/// A sound tally: counters non-negative, no more deallocated than allocated,
/// and the peak between the live total and the allocated total.
pub open spec fn tally_wf(t: MemTally) -> bool {
    &&& 0 <= t.deallocated <= t.allocated
    &&& t.allocated - t.deallocated <= t.peak <= t.allocated
    &&& 0 <= t.allocs
    &&& 0 <= t.deallocs
}

/// The live total a tally reports: allocated minus deallocated bytes.
pub open spec fn tally_live(t: MemTally) -> int {
    t.allocated - t.deallocated
}

/// One recorded allocation: bytes and count rise, and the peak is raised to
/// the new live total where that exceeds it.
pub open spec fn tally_alloc(t: MemTally, bytes: int) -> MemTally {
    MemTally {
        allocated: t.allocated + bytes,
        allocs: t.allocs + 1,
        peak: if t.allocated + bytes - t.deallocated > t.peak {
            t.allocated + bytes - t.deallocated
        } else {
            t.peak
        },
        ..t
    }
}

/// One recorded deallocation, with the same peak recomputation.
pub open spec fn tally_dealloc(t: MemTally, bytes: int) -> MemTally {
    MemTally {
        deallocated: t.deallocated + bytes,
        deallocs: t.deallocs + 1,
        peak: if t.allocated - (t.deallocated + bytes) > t.peak {
            t.allocated - (t.deallocated + bytes)
        } else {
            t.peak
        },
        ..t
    }
}

/// One allocation or deallocation event, by its byte count.
pub ghost enum MemEvent {
    Alloc { bytes: int },
    Dealloc { bytes: int },
}

/// The tally after one event.
pub open spec fn tally_step(t: MemTally, e: MemEvent) -> MemTally {
    match e {
        MemEvent::Alloc { bytes } => tally_alloc(t, bytes),
        MemEvent::Dealloc { bytes } => tally_dealloc(t, bytes),
    }
}

/// The tally after a run of events, in order.
pub open spec fn tally_run(t: MemTally, es: Seq<MemEvent>) -> MemTally
    decreases es.len(),
{
    if es.len() == 0 {
        t
    } else {
        tally_run(tally_step(t, es[0]), es.drop_first())
    }
}

/// A run whose events are sound from the given tally on: every byte count
/// non-negative, and no deallocation beyond the live total at its moment.
pub open spec fn run_ok(t: MemTally, es: Seq<MemEvent>) -> bool
    decreases es.len(),
{
    es.len() == 0 || ({
        let head_ok = match es[0] {
            MemEvent::Alloc { bytes } => bytes >= 0,
            MemEvent::Dealloc { bytes } => 0 <= bytes <= tally_live(t),
        };
        head_ok && run_ok(tally_step(t, es[0]), es.drop_first())
    })
}

/// The bytes a run allocates in all.
pub open spec fn alloc_sum(es: Seq<MemEvent>) -> int
    decreases es.len(),
{
    if es.len() == 0 {
        0
    } else {
        (match es[0] {
            MemEvent::Alloc { bytes } => bytes,
            MemEvent::Dealloc { .. } => 0,
        }) + alloc_sum(es.drop_first())
    }
}

/// The bytes a run deallocates in all.
pub open spec fn dealloc_sum(es: Seq<MemEvent>) -> int
    decreases es.len(),
{
    if es.len() == 0 {
        0
    } else {
        (match es[0] {
            MemEvent::Alloc { .. } => 0,
            MemEvent::Dealloc { bytes } => bytes,
        }) + dealloc_sum(es.drop_first())
    }
}

/// Matched pairs: for each size in turn, an allocation of it immediately
/// followed by a deallocation of it.
pub open spec fn matched_pairs(sizes: Seq<int>) -> Seq<MemEvent>
    decreases sizes.len(),
{
    if sizes.len() == 0 {
        Seq::empty()
    } else {
        seq![
            MemEvent::Alloc { bytes: sizes[0] },
            MemEvent::Dealloc { bytes: sizes[0] },
        ] + matched_pairs(sizes.drop_first())
    }
}

/// Splitting a run: running a concatenation is running the parts in turn.
pub proof fn lemma_run_split(t: MemTally, a: Seq<MemEvent>, b: Seq<MemEvent>)
    ensures
        tally_run(t, a + b) == tally_run(tally_run(t, a), b),
    decreases a.len(),
{
    if a.len() == 0 {
        assert(a + b =~= b);
    } else {
        assert((a + b).drop_first() =~= a.drop_first() + b);
        lemma_run_split(tally_step(t, a[0]), a.drop_first(), b);
    }
}

proof fn lemma_sum_concat(a: Seq<MemEvent>, b: Seq<MemEvent>)
    ensures
        alloc_sum(a + b) == alloc_sum(a) + alloc_sum(b),
        dealloc_sum(a + b) == dealloc_sum(a) + dealloc_sum(b),
    decreases a.len(),
{
    if a.len() == 0 {
        assert(a + b =~= b);
    } else {
        assert((a + b).drop_first() =~= a.drop_first() + b);
        lemma_sum_concat(a.drop_first(), b);
    }
}

proof fn lemma_run_ok_split(t: MemTally, a: Seq<MemEvent>, b: Seq<MemEvent>)
    requires
        run_ok(t, a + b),
    ensures
        run_ok(t, a),
        run_ok(tally_run(t, a), b),
    decreases a.len(),
{
    if a.len() == 0 {
        assert(a + b =~= b);
    } else {
        assert((a + b).drop_first() =~= a.drop_first() + b);
        assert((a + b)[0] == a[0]);
        lemma_run_ok_split(tally_step(t, a[0]), a.drop_first(), b);
    }
}

/// Balance: a run moves the live total by exactly its allocated sum minus
/// its deallocated sum, whatever the order of its events.
pub proof fn lemma_live_balance(t: MemTally, es: Seq<MemEvent>)
    ensures
        tally_live(tally_run(t, es)) == tally_live(t) + alloc_sum(es) - dealloc_sum(es),
    decreases es.len(),
{
    if es.len() > 0 {
        lemma_live_balance(tally_step(t, es[0]), es.drop_first());
    }
}

/// Matched pairs allocate exactly as much as they deallocate.
pub proof fn lemma_matched_pairs_sums(sizes: Seq<int>)
    ensures
        alloc_sum(matched_pairs(sizes)) == dealloc_sum(matched_pairs(sizes)),
    decreases sizes.len(),
{
    if sizes.len() > 0 {
        let head = seq![
            MemEvent::Alloc { bytes: sizes[0] },
            MemEvent::Dealloc { bytes: sizes[0] },
        ];
        let tail = seq![MemEvent::Dealloc { bytes: sizes[0] }];
        assert(head.drop_first() =~= tail);
        assert(tail.drop_first() =~= Seq::<MemEvent>::empty());
        assert(alloc_sum(Seq::<MemEvent>::empty()) == 0);
        assert(dealloc_sum(Seq::<MemEvent>::empty()) == 0);
        assert(head[0] == MemEvent::Alloc { bytes: sizes[0] });
        assert(tail[0] == MemEvent::Dealloc { bytes: sizes[0] });
        assert(alloc_sum(tail) == 0);
        assert(dealloc_sum(tail) == sizes[0]);
        assert(alloc_sum(head) == sizes[0]);
        assert(dealloc_sum(head) == sizes[0]);
        lemma_sum_concat(head, matched_pairs(sizes.drop_first()));
        lemma_matched_pairs_sums(sizes.drop_first());
    }
}

/// After any number of matched allocate/release pairs, the live total stands
/// exactly where it began; from a fresh tally, at zero.
pub proof fn lemma_matched_pairs_balance(t: MemTally, sizes: Seq<int>)
    ensures
        tally_live(tally_run(t, matched_pairs(sizes))) == tally_live(t),
{
    lemma_matched_pairs_sums(sizes);
    lemma_live_balance(t, matched_pairs(sizes));
}

/// Soundness and peak monotony along a sound run.
pub proof fn lemma_run_wf(t: MemTally, es: Seq<MemEvent>)
    requires
        tally_wf(t),
        run_ok(t, es),
    ensures
        tally_wf(tally_run(t, es)),
        tally_run(t, es).peak >= t.peak,
    decreases es.len(),
{
    if es.len() > 0 {
        lemma_run_wf(tally_step(t, es[0]), es.drop_first());
    }
}

/// The peak dominates history: after a sound run, the recorded peak is at
/// least the live total observed after every prefix of that run.
pub proof fn lemma_peak_dominates(t: MemTally, es: Seq<MemEvent>, k: int)
    requires
        tally_wf(t),
        run_ok(t, es),
        0 <= k <= es.len(),
    ensures
        tally_live(tally_run(t, es.take(k))) <= tally_run(t, es).peak,
{
    let a = es.take(k);
    let b = es.skip(k);
    assert(es =~= a + b);
    lemma_run_ok_split(t, a, b);
    lemma_run_split(t, a, b);
    let mid = tally_run(t, a);
    lemma_run_wf(t, a);
    lemma_run_wf(mid, b);
}

/// Process-wide allocation accounting: byte and event counters that only
/// grow, and a peak-usage watermark recomputed on every record.
pub struct MemoryManager {
    allocated_bytes: u64,
    deallocated_bytes: u64,
    peak_usage_bytes: u64,
    allocation_count: u64,
    deallocation_count: u64,
}

impl MemoryManager {
    /// The tally the manager's counters stand for.
    pub closed spec fn tally(&self) -> MemTally {
        MemTally {
            allocated: self.allocated_bytes as int,
            deallocated: self.deallocated_bytes as int,
            peak: self.peak_usage_bytes as int,
            allocs: self.allocation_count as int,
            deallocs: self.deallocation_count as int,
        }
    }

    /// The manager's invariant: its tally is sound.
    pub open spec fn wf(&self) -> bool {
        tally_wf(self.tally())
    }

    /// A manager with every counter at zero.
    pub fn new() -> (r: Self)
        ensures
            r.wf(),
            r.tally() == (MemTally {
                allocated: 0,
                deallocated: 0,
                peak: 0,
                allocs: 0,
                deallocs: 0,
            }),
    {
        MemoryManager {
            allocated_bytes: 0,
            deallocated_bytes: 0,
            peak_usage_bytes: 0,
            allocation_count: 0,
            deallocation_count: 0,
        }
    }

    /// Record one allocation of the given byte count.
    pub fn record_allocation(&mut self, bytes: u64)
        requires
            old(self).wf(),
            old(self).tally().allocated + bytes <= u64::MAX,
            old(self).tally().allocs + 1 <= u64::MAX,
        ensures
            final(self).wf(),
            final(self).tally() == tally_alloc(old(self).tally(), bytes as int),
    {
        self.allocated_bytes = self.allocated_bytes + bytes;
        self.allocation_count = self.allocation_count + 1;
        let live = self.allocated_bytes - self.deallocated_bytes;
        if live > self.peak_usage_bytes {
            self.peak_usage_bytes = live;
        }
    }

    /// Record one deallocation of the given byte count. No more may be
    /// recorded as freed than stands allocated.
    pub fn record_deallocation(&mut self, bytes: u64)
        requires
            old(self).wf(),
            old(self).tally().deallocated + bytes <= old(self).tally().allocated,
            old(self).tally().deallocs + 1 <= u64::MAX,
        ensures
            final(self).wf(),
            final(self).tally() == tally_dealloc(old(self).tally(), bytes as int),
    {
        self.deallocated_bytes = self.deallocated_bytes + bytes;
        self.deallocation_count = self.deallocation_count + 1;
        let live = self.allocated_bytes - self.deallocated_bytes;
        if live > self.peak_usage_bytes {
            self.peak_usage_bytes = live;
        }
    }

    /// The counters stand in 64-bit fields, so every part of the tally is
    /// bounded by them.
    pub proof fn lemma_tally_bounded(&self)
        ensures
            0 <= self.tally().allocated <= u64::MAX,
            0 <= self.tally().deallocated <= u64::MAX,
            0 <= self.tally().peak <= u64::MAX,
            0 <= self.tally().allocs <= u64::MAX,
            0 <= self.tally().deallocs <= u64::MAX,
    {
    }

    /// A snapshot of the counters.
    pub fn stats(&self) -> (r: MemoryStats)
        ensures
            r.allocated_bytes == self.tally().allocated,
            r.deallocated_bytes == self.tally().deallocated,
            r.peak_usage_bytes == self.tally().peak,
            r.allocation_count == self.tally().allocs,
            r.deallocation_count == self.tally().deallocs,
    {
        MemoryStats {
            allocated_bytes: self.allocated_bytes,
            deallocated_bytes: self.deallocated_bytes,
            peak_usage_bytes: self.peak_usage_bytes,
            allocation_count: self.allocation_count,
            deallocation_count: self.deallocation_count,
        }
    }

    /// The live total: allocated minus deallocated bytes.
    pub fn live_bytes(&self) -> (r: u64)
        requires
            self.wf(),
        ensures
            r == tally_live(self.tally()),
    {
        self.allocated_bytes - self.deallocated_bytes
    }
}

} // verus!
