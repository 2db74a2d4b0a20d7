//! Tracked buffer pooling: identity-bearing buffers over the same
//! size-classed bins, pool statistics, and pressure classification.

use vstd::prelude::*;

use crate::accounting::{
    tally_alloc, tally_dealloc, tally_live, tally_wf, MemTally, MemoryManager, MemoryStats,
};
use crate::recycler::{
    alloc_capacity, bin_after_store, bin_after_take, carve, default_classes, default_ladder,
    fit_index, ladder_serves, ladder_wf, lemma_bins_bounded, same_ladder, stow, SizeClassBin,
    DEFAULT_MAX_BUFFERS,
};

verus! {

/// Allocated-byte load above which a pool reports elevated pressure.
pub const DEFAULT_ELEVATED_BYTES: usize = 134217728;

/// Allocated-byte load above which a pool reports critical pressure.
pub const DEFAULT_CRITICAL_BYTES: usize = 268435456;

/// Coarse classification of a pool's allocated-byte load.
#[derive(Clone, Copy, Debug, PartialEq, Eq, Structural)]
pub enum Pressure {
    Normal,
    Elevated,
    Critical,
}

/// The failures the tracked-buffer pool surfaces.
#[derive(Clone, Copy, Debug, PartialEq, Eq, Structural)]
pub enum PoolError {
    /// The underlying allocation failed; propagated, never retried.
    ResourceExhausted,
    /// An accessor or a release was used on a buffer already released.
    AlreadyReleased,
}

/// The pressure a given allocated-byte load maps to, against the two
/// configured thresholds.
pub open spec fn pressure_of(total: int, elevated: int, critical: int) -> Pressure {
    if total <= elevated {
        Pressure::Normal
    } else if total <= critical {
        Pressure::Elevated
    } else {
        Pressure::Critical
    }
}

/// A snapshot of one size class of a pool.
#[derive(Clone, Copy, Debug, PartialEq, Eq, Structural)]
pub struct SizeClassStats {
    pub size: usize,
    pub available: usize,
    pub capacity: usize,
    pub high_water_mark: usize,
}

/// A snapshot of a pool: live buffers, their bytes, the pressure those bytes
/// map to, and one entry per size class.
#[derive(Debug)]
pub struct PoolStats {
    pub total_active: usize,
    pub total_allocated_bytes: usize,
    pub pressure: Pressure,
    pub size_classes: Vec<SizeClassStats>,
}

/// An identity-bearing buffer handle. Once released — early, by hand — every
/// accessor fails deterministically with `AlreadyReleased`.
pub struct TrackedBuffer {
    id: u64,
    data: Vec<u8>,
    capacity: usize,
    original_capacity: usize,
    released: bool,
}

impl View for TrackedBuffer {
    type V = Seq<u8>;

    closed spec fn view(&self) -> Seq<u8> {
        self.data@
    }
}

impl TrackedBuffer {
    /// The unique identifier the pool issued this buffer under.
    pub closed spec fn spec_id(&self) -> u64 {
        self.id
    }

    /// Whether the buffer has been released.
    pub closed spec fn spec_released(&self) -> bool {
        self.released
    }

    /// The largest length this buffer has been grown to.
    pub closed spec fn spec_capacity(&self) -> nat {
        self.capacity as nat
    }

    /// The size class this buffer was carved from, or the exact requested
    /// size when the request exceeded the ladder.
    pub closed spec fn spec_original_capacity(&self) -> nat {
        self.original_capacity as nat
    }

    /// The size class this buffer was carved from, or the exact requested
    /// size when the request exceeded the ladder, at run time. It survives
    /// release: it is what the pool's counters settled by.
    pub fn original_capacity(&self) -> (r: usize)
        ensures
            r == self.spec_original_capacity(),
    {
        self.original_capacity
    }

    /// The identifier, or `AlreadyReleased` after release.
    pub fn id(&self) -> (r: Result<u64, PoolError>)
        ensures
            self.spec_released() ==> r == Err::<u64, PoolError>(PoolError::AlreadyReleased),
            !self.spec_released() ==> r == Ok::<u64, PoolError>(self.spec_id()),
    {
        if self.released {
            Err(PoolError::AlreadyReleased)
        } else {
            Ok(self.id)
        }
    }

    /// The buffer length, or `AlreadyReleased` after release.
    pub fn len(&self) -> (r: Result<usize, PoolError>)
        ensures
            self.spec_released() ==> r == Err::<usize, PoolError>(PoolError::AlreadyReleased),
            !self.spec_released() ==> (r matches Ok(l) && l == self@.len()),
    {
        if self.released {
            Err(PoolError::AlreadyReleased)
        } else {
            Ok(self.data.len())
        }
    }

    /// The contents, or `AlreadyReleased` after release.
    pub fn as_slice(&self) -> (r: Result<&[u8], PoolError>)
        ensures
            self.spec_released() ==> (r matches Err(e) && e == PoolError::AlreadyReleased),
            !self.spec_released() ==> (r matches Ok(s) && s@ == self@),
    {
        if self.released {
            Err(PoolError::AlreadyReleased)
        } else {
            Ok(self.data.as_slice())
        }
    }

    /// Early release, by hand: the storage is dropped and every later
    /// accessor fails. Idempotent, and a repeat is told apart from the first
    /// call by the result.
    pub fn release(&mut self) -> (was_live: bool)
        ensures
            final(self).spec_released(),
            final(self)@.len() == 0,
            final(self).spec_id() == old(self).spec_id(),
            final(self).spec_original_capacity() == old(self).spec_original_capacity(),
            was_live == !old(self).spec_released(),
    {
        let was_live = !self.released;
        self.released = true;
        self.data = Vec::new();
        was_live
    }
}

/// A pool of tracked buffers over size-classed bins, keeping statistics and
/// allocation accounting as buffers come and go.
pub struct AdvancedBufferPool {
    bins: Vec<SizeClassBin>,
    next_id: u64,
    total_active: usize,
    total_allocated_bytes: usize,
    elevated_threshold: usize,
    critical_threshold: usize,
    accounting: MemoryManager,
    issued: Ghost<Set<u64>>,
}

impl AdvancedBufferPool {
    /// The ladder of bins, as the model the contracts speak over.
    pub closed spec fn spec_bins(&self) -> Seq<SizeClassBin> {
        self.bins@
    }

    /// The identifier the next allocation is issued under.
    pub closed spec fn spec_next_id(&self) -> u64 {
        self.next_id
    }

    /// How many issued buffers have not come back.
    pub closed spec fn spec_total_active(&self) -> nat {
        self.total_active as nat
    }

    /// The bytes standing in issued buffers, by their original capacities.
    pub closed spec fn spec_total_allocated(&self) -> nat {
        self.total_allocated_bytes as nat
    }

    /// The elevated-pressure threshold, in bytes.
    pub closed spec fn spec_elevated(&self) -> nat {
        self.elevated_threshold as nat
    }

    /// The critical-pressure threshold, in bytes.
    pub closed spec fn spec_critical(&self) -> nat {
        self.critical_threshold as nat
    }

    /// The tally of the pool's own allocation accounting.
    pub closed spec fn spec_accounting(&self) -> MemTally {
        self.accounting.tally()
    }

    /// Every identifier the pool has ever issued.
    pub closed spec fn spec_issued(&self) -> Set<u64> {
        self.issued@
    }

    /// The pool's invariant: a well-formed ladder, ordered thresholds, sound
    /// accounting, counters that agree with it — the live total of the
    /// accounting is exactly the pool's outstanding bytes, and its event
    /// balance exactly the outstanding buffer count — and every identifier
    /// ever issued lying strictly below the issuance counter.
    pub open spec fn wf(&self) -> bool {
        &&& ladder_wf(self.spec_bins())
        &&& self.spec_elevated() <= self.spec_critical()
        &&& tally_wf(self.spec_accounting())
        &&& self.spec_total_allocated() == tally_live(self.spec_accounting())
        &&& self.spec_total_active() == self.spec_accounting().allocs - self.spec_accounting().deallocs
        &&& forall|i: u64| self.spec_issued().contains(i) ==> i < self.spec_next_id()
    }

    /// A pool over the default ladder and the default pressure thresholds.
    pub fn new() -> (r: Self)
        ensures
            r.wf(),
            r.spec_bins().len() == default_classes().len(),
            forall|i: int|
                0 <= i < r.spec_bins().len() ==> (#[trigger] r.spec_bins()[i]).spec_size()
                    == default_classes()[i] && r.spec_bins()[i].spec_available() == 0
                    && r.spec_bins()[i].spec_capacity() == DEFAULT_MAX_BUFFERS,
            r.spec_next_id() == 1,
            r.spec_total_active() == 0,
            r.spec_total_allocated() == 0,
            r.spec_issued() == Set::<u64>::empty(),
            r.spec_elevated() == DEFAULT_ELEVATED_BYTES,
            r.spec_critical() == DEFAULT_CRITICAL_BYTES,
            r.spec_accounting() == (MemTally {
                allocated: 0,
                deallocated: 0,
                peak: 0,
                allocs: 0,
                deallocs: 0,
            }),
    {
        Self::with_thresholds(DEFAULT_ELEVATED_BYTES, DEFAULT_CRITICAL_BYTES)
    }

    /// A pool over the default ladder, with the given pressure thresholds.
    pub fn with_thresholds(elevated_threshold: usize, critical_threshold: usize) -> (r: Self)
        requires
            elevated_threshold <= critical_threshold,
        ensures
            r.wf(),
            r.spec_bins().len() == default_classes().len(),
            forall|i: int|
                0 <= i < r.spec_bins().len() ==> (#[trigger] r.spec_bins()[i]).spec_size()
                    == default_classes()[i] && r.spec_bins()[i].spec_available() == 0
                    && r.spec_bins()[i].spec_capacity() == DEFAULT_MAX_BUFFERS,
            r.spec_next_id() == 1,
            r.spec_total_active() == 0,
            r.spec_total_allocated() == 0,
            r.spec_issued() == Set::<u64>::empty(),
            r.spec_elevated() == elevated_threshold,
            r.spec_critical() == critical_threshold,
            r.spec_accounting() == (MemTally {
                allocated: 0,
                deallocated: 0,
                peak: 0,
                allocs: 0,
                deallocs: 0,
            }),
    {
        AdvancedBufferPool {
            bins: default_ladder(),
            next_id: 1,
            total_active: 0,
            total_allocated_bytes: 0,
            elevated_threshold,
            critical_threshold,
            accounting: MemoryManager::new(),
            issued: Ghost(Set::empty()),
        }
    }

    /// Allocate a zero-filled tracked buffer of exactly the requested
    /// length, issued under a fresh identifier, served by the same
    /// size-class model as plain acquisition; counters and accounting record
    /// the buffer's original capacity.
    pub fn allocate(&mut self, size: usize) -> (r: Result<TrackedBuffer, PoolError>)
        requires
            old(self).wf(),
            old(self).spec_next_id() < u64::MAX,
            old(self).spec_total_active() + 1 <= usize::MAX,
            old(self).spec_total_allocated() + alloc_capacity(
                old(self).spec_bins(),
                size as int,
            ) <= usize::MAX,
            old(self).spec_accounting().allocated + alloc_capacity(
                old(self).spec_bins(),
                size as int,
            ) <= u64::MAX,
            old(self).spec_accounting().allocs + 1 <= u64::MAX,
        ensures
            final(self).wf(),
            same_ladder(old(self).spec_bins(), final(self).spec_bins()),
            final(self).spec_elevated() == old(self).spec_elevated(),
            final(self).spec_critical() == old(self).spec_critical(),
            r matches Ok(buf) && ({
                let bins0 = old(self).spec_bins();
                let bins1 = final(self).spec_bins();
                let f = fit_index(bins0, size as int);
                let cap = alloc_capacity(bins0, size as int);
                &&& buf@ == Seq::new(size as nat, |i: int| 0u8)
                &&& !buf.spec_released()
                &&& buf.spec_id() == old(self).spec_next_id()
                &&& !old(self).spec_issued().contains(buf.spec_id())
                &&& final(self).spec_issued() == old(self).spec_issued().insert(buf.spec_id())
                &&& buf.spec_original_capacity() == cap
                &&& final(self).spec_next_id() == old(self).spec_next_id() + 1
                &&& final(self).spec_total_active() == old(self).spec_total_active() + 1
                &&& final(self).spec_total_allocated() == old(self).spec_total_allocated() + cap
                &&& final(self).spec_accounting() == tally_alloc(old(self).spec_accounting(), cap)
                &&& if ladder_serves(bins0, size as int) && bins0[f].spec_available() > 0 {
                    &&& bin_after_take(bins0[f], bins1[f])
                    &&& forall|i: int| 0 <= i < bins1.len() && i != f ==> bins1[i] == bins0[i]
                    &&& buf.spec_capacity() == ({
                        let c = bins0[f].spec_slot_cap(0);
                        if size > c {
                            size as nat
                        } else {
                            c
                        }
                    })
                } else {
                    &&& bins1 == bins0
                    &&& buf.spec_capacity() == size
                }
            }),
    {
        let (data, capacity, original_capacity) = carve(&mut self.bins, size);
        let id = self.next_id;
        self.next_id = self.next_id + 1;
        self.issued = Ghost(self.issued@.insert(id));
        self.total_active = self.total_active + 1;
        self.total_allocated_bytes = self.total_allocated_bytes + original_capacity;
        self.accounting.record_allocation(original_capacity as u64);
        proof {
            assert forall|i: u64| self.spec_issued().contains(i) implies i
                < self.spec_next_id() by {
                assert(old(self).spec_issued().contains(i) || i == id);
            }
        }
        Ok(TrackedBuffer { id, data, capacity, original_capacity, released: false })
    }

    /// Take a released buffer back: mark it released, rest its storage in
    /// the matching bin under the same bounded-recycling rules, and settle
    /// the counters and the accounting. A buffer already released is
    /// reported as `AlreadyReleased` and nothing changes.
    pub fn release(&mut self, buffer: &mut TrackedBuffer) -> (r: Result<(), PoolError>)
        requires
            old(self).wf(),
            !old(buffer).spec_released() ==> old(self).spec_total_active() >= 1 && old(
                buffer,
            ).spec_original_capacity() <= old(self).spec_total_allocated(),
        ensures
            final(self).wf(),
            old(buffer).spec_released() ==> r == Err::<(), PoolError>(PoolError::AlreadyReleased)
                && *final(self) == *old(self) && *final(buffer) == *old(buffer),
            !old(buffer).spec_released() ==> r == Ok::<(), PoolError>(()) && ({
                let bins0 = old(self).spec_bins();
                let bins1 = final(self).spec_bins();
                let cap0 = old(buffer).spec_original_capacity();
                let f = fit_index(bins0, cap0 as int);
                &&& final(buffer).spec_released()
                &&& final(buffer)@.len() == 0
                &&& final(buffer).spec_id() == old(buffer).spec_id()
                &&& same_ladder(bins0, bins1)
                &&& final(self).spec_next_id() == old(self).spec_next_id()
                &&& final(self).spec_issued() == old(self).spec_issued()
                &&& final(self).spec_elevated() == old(self).spec_elevated()
                &&& final(self).spec_critical() == old(self).spec_critical()
                &&& final(self).spec_total_active() == old(self).spec_total_active() - 1
                &&& final(self).spec_total_allocated() == old(self).spec_total_allocated() - cap0
                &&& final(self).spec_accounting() == tally_dealloc(
                    old(self).spec_accounting(),
                    cap0 as int,
                )
                &&& if bins0[f].spec_available() < bins0[f].spec_capacity() && old(
                    buffer,
                ).spec_capacity() <= 2 * bins0[f].spec_size() {
                    &&& bin_after_store(bins0[f], bins1[f], old(buffer).spec_capacity())
                    &&& forall|i: int| 0 <= i < bins1.len() && i != f ==> bins1[i] == bins0[i]
                } else {
                    bins1 == bins0
                }
            }),
    {
        if buffer.released {
            return Err(PoolError::AlreadyReleased);
        }
        buffer.released = true;
        let mut data: Vec<u8> = Vec::new();
        core::mem::swap(&mut data, &mut buffer.data);
        let _kept = stow(&mut self.bins, data, buffer.capacity, buffer.original_capacity);
        self.total_active = self.total_active - 1;
        self.total_allocated_bytes = self.total_allocated_bytes - buffer.original_capacity;
        proof {
            self.accounting.lemma_tally_bounded();
        }
        self.accounting.record_deallocation(buffer.original_capacity as u64);
        proof {
            assert(self.spec_issued() == old(self).spec_issued());
            assert(self.spec_next_id() == old(self).spec_next_id());
            assert forall|i: u64| self.spec_issued().contains(i) implies i
                < self.spec_next_id() by {
                assert(old(self).spec_issued().contains(i));
            }
        }
        Ok(())
    }

    /// A statistics snapshot: live buffers, outstanding bytes, the pressure
    /// those bytes map to against the configured thresholds, and one entry
    /// per size class.
    pub fn stats(&self) -> (r: PoolStats)
        requires
            self.wf(),
        ensures
            r.total_active == self.spec_total_active(),
            r.total_allocated_bytes == self.spec_total_allocated(),
            r.pressure == pressure_of(
                self.spec_total_allocated() as int,
                self.spec_elevated() as int,
                self.spec_critical() as int,
            ),
            r.size_classes@.len() == self.spec_bins().len(),
            forall|i: int|
                0 <= i < self.spec_bins().len() ==> {
                    let b = #[trigger] self.spec_bins()[i];
                    &&& r.size_classes@[i].size == b.spec_size()
                    &&& r.size_classes@[i].available == b.spec_available()
                    &&& r.size_classes@[i].capacity == b.spec_capacity()
                    &&& r.size_classes@[i].high_water_mark == b.spec_high_water()
                    &&& r.size_classes@[i].available <= r.size_classes@[i].high_water_mark
                    &&& r.size_classes@[i].high_water_mark <= r.size_classes@[i].capacity
                },
    {
        let mut size_classes: Vec<SizeClassStats> = Vec::new();
        let n = self.bins.len();
        let mut i: usize = 0;
        while i < n
            invariant
                self.wf(),
                n == self.spec_bins().len(),
                i <= n,
                size_classes@.len() == i,
                forall|k: int|
                    0 <= k < i ==> {
                        let b = #[trigger] self.spec_bins()[k];
                        &&& size_classes@[k].size == b.spec_size()
                        &&& size_classes@[k].available == b.spec_available()
                        &&& size_classes@[k].capacity == b.spec_capacity()
                        &&& size_classes@[k].high_water_mark == b.spec_high_water()
                    },
            decreases n - i,
        {
            let b = &self.bins[i];
            size_classes.push(
                SizeClassStats {
                    size: b.size(),
                    available: b.available(),
                    capacity: b.capacity(),
                    high_water_mark: b.high_water_mark(),
                },
            );
            i = i + 1;
        }
        proof {
            lemma_bins_bounded(self.spec_bins());
        }
        let pressure = if self.total_allocated_bytes <= self.elevated_threshold {
            Pressure::Normal
        } else if self.total_allocated_bytes <= self.critical_threshold {
            Pressure::Elevated
        } else {
            Pressure::Critical
        };
        PoolStats {
            total_active: self.total_active,
            total_allocated_bytes: self.total_allocated_bytes,
            pressure,
            size_classes,
        }
    }

    /// A snapshot of the pool's own allocation accounting.
    pub fn memory_stats(&self) -> (r: MemoryStats)
        ensures
            r.allocated_bytes == self.spec_accounting().allocated,
            r.deallocated_bytes == self.spec_accounting().deallocated,
            r.peak_usage_bytes == self.spec_accounting().peak,
            r.allocation_count == self.spec_accounting().allocs,
            r.deallocation_count == self.spec_accounting().deallocs,
    {
        self.accounting.stats()
    }

    /// The identifier the next allocation will be issued under.
    pub fn next_id(&self) -> (r: u64)
        ensures
            r == self.spec_next_id(),
    {
        self.next_id
    }
}

/// Identifiers are never reused: a well-formed pool has issued only
/// identifiers strictly below its counter, so the identifier its next
/// allocation bears — the counter itself — differs from every identifier the
/// pool has ever issued, however many allocations and releases lie between.
pub proof fn lemma_ids_never_reused(p: AdvancedBufferPool)
    requires
        p.wf(),
    ensures
        forall|i: u64| p.spec_issued().contains(i) ==> i != p.spec_next_id(),
{
}

} // verus!
