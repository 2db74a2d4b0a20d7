//! Size-classed buffer recycling: a ladder of bounded bins of free byte
//! buffers, and the recyclable buffers they hand out.

use std::collections::VecDeque;
use vstd::prelude::*;

verus! {

/// A byte buffer handed out by a recycler or pool.
///
/// Besides its contents it remembers two sizes: `original_capacity`, the size
/// class it was carved from (or the exact requested size when the request
/// exceeded the ladder), which routes it back to its bin; and `capacity`, the
/// largest length the buffer has ever been grown to, which stands for the
/// size of its backing allocation when deciding whether it may be pooled
/// again.
pub struct RecyclableBuffer {
    data: Vec<u8>,
    capacity: usize,
    original_capacity: usize,
}

impl View for RecyclableBuffer {
    type V = Seq<u8>;

    closed spec fn view(&self) -> Seq<u8> {
        self.data@
    }
}

impl RecyclableBuffer {
    /// The largest length this buffer has been grown to.
    pub closed spec fn spec_capacity(&self) -> nat {
        self.capacity as nat
    }

    /// The size class this buffer was carved from, or the exact requested
    /// size when the request exceeded the ladder.
    pub closed spec fn spec_original_capacity(&self) -> nat {
        self.original_capacity as nat
    }

    /// A zero-filled buffer of the given size, bound to no recycler.
    pub fn new(size: usize) -> (r: Self)
        ensures
            r@ == Seq::new(size as nat, |i: int| 0u8),
            r.spec_capacity() == size,
            r.spec_original_capacity() == size,
    {
        RecyclableBuffer { data: zero_vec(size), capacity: size, original_capacity: size }
    }

    /// The buffer contents.
    pub fn as_slice(&self) -> (r: &[u8])
        ensures
            r@ == self@,
    {
        self.data.as_slice()
    }

    /// The buffer contents, writable. Writing through the slice changes the
    /// contents but neither length nor the recorded capacities.
    pub fn as_mut_slice(&mut self) -> (r: &mut [u8])
        ensures
            r@ == old(self)@,
            final(self)@ == final(r)@,
            final(self).spec_capacity() == old(self).spec_capacity(),
            final(self).spec_original_capacity() == old(self).spec_original_capacity(),
    {
        self.data.as_mut_slice()
    }

    /// The size class this buffer was carved from, or the exact requested
    /// size when the request exceeded the ladder, at run time.
    pub fn original_capacity(&self) -> (r: usize)
        ensures
            r == self.spec_original_capacity(),
    {
        self.original_capacity
    }

    /// The largest length this buffer has been grown to, at run time.
    pub fn capacity(&self) -> (r: usize)
        ensures
            r == self.spec_capacity(),
    {
        self.capacity
    }

    /// The current length.
    pub fn len(&self) -> (r: usize)
        ensures
            r == self@.len(),
    {
        self.data.len()
    }

    /// Resize the contents; new bytes take the given value. Growing the
    /// buffer raises its recorded capacity along with it.
    pub fn resize(&mut self, new_size: usize, value: u8)
        ensures
            final(self)@.len() == new_size,
            new_size <= old(self)@.len() ==> final(self)@ == old(self)@.subrange(
                0,
                new_size as int,
            ),
            new_size > old(self)@.len() ==> final(self)@ == old(self)@ + Seq::new(
                (new_size - old(self)@.len()) as nat,
                |i: int| value,
            ),
            final(self).spec_capacity() == if new_size > old(self).spec_capacity() {
                new_size as nat
            } else {
                old(self).spec_capacity()
            },
            final(self).spec_original_capacity() == old(self).spec_original_capacity(),
    {
        let old_len = self.data.len();
        if new_size <= old_len {
            self.data.truncate(new_size);
        } else {
            let ghost prev = self.data@;
            let mut i: usize = old_len;
            while i < new_size
                invariant
                    old_len <= i <= new_size,
                    self.data@ == prev + Seq::new((i - old_len) as nat, |j: int| value),
                    self.capacity == old(self).capacity,
                    self.original_capacity == old(self).original_capacity,
                decreases new_size - i,
            {
                self.data.push(value);
                i = i + 1;
            }
        }
        if new_size > self.capacity {
            self.capacity = new_size;
        }
    }

    /// Take the storage out, ending any relation to a pool: a buffer
    /// consumed this way is never recycled.
    pub fn into_vec(self) -> (r: Vec<u8>)
        ensures
            r@ == self@,
    {
        self.data
    }
}

/// How many free buffers a bin may hold before released buffers are
/// discarded instead of queued.
pub const DEFAULT_MAX_BUFFERS: usize = 10;

/// Storage resting in a bin: cleared bytes, and the capacity they stand for.
struct FreeSlot {
    bytes: Vec<u8>,
    cap: usize,
}

/// One rung of the recycling ladder: a bounded queue of free buffers for a
/// single size class, reused oldest first.
pub struct SizeClassBin {
    size_class: usize,
    slots: VecDeque<FreeSlot>,
    max_buffers: usize,
    high_water_mark: usize,
}

impl SizeClassBin {
    /// The size class this bin serves.
    pub closed spec fn spec_size(&self) -> nat {
        self.size_class as nat
    }

    /// How many free buffers rest in the bin.
    pub closed spec fn spec_available(&self) -> nat {
        self.slots@.len()
    }

    /// The most free buffers the bin may hold.
    pub closed spec fn spec_capacity(&self) -> nat {
        self.max_buffers as nat
    }

    /// The most free buffers the bin has ever held at once.
    pub closed spec fn spec_high_water(&self) -> nat {
        self.high_water_mark as nat
    }

    /// The recorded capacity of the free buffer at the given position.
    pub closed spec fn spec_slot_cap(&self, j: int) -> nat {
        self.slots@[j].cap as nat
    }

    /// The bin's internal invariant: it is bounded, its high-water mark is
    /// consistent, and every resting buffer is cleared and no larger than
    /// twice the size class.
    pub closed spec fn wf(&self) -> bool {
        &&& self.size_class * 2 <= usize::MAX
        &&& self.slots@.len() <= self.max_buffers
        &&& self.slots@.len() <= self.high_water_mark
        &&& self.high_water_mark <= self.max_buffers
        &&& forall|j: int|
            0 <= j < self.slots@.len() ==> (#[trigger] self.slots@[j]).cap <= self.size_class * 2
                && self.slots@[j].bytes@.len() == 0
    }

    /// An empty bin for one size class.
    pub fn new(size_class: usize, max_buffers: usize) -> (r: Self)
        requires
            size_class * 2 <= usize::MAX,
        ensures
            r.wf(),
            r.spec_size() == size_class,
            r.spec_available() == 0,
            r.spec_capacity() == max_buffers,
            r.spec_high_water() == 0,
    {
        SizeClassBin { size_class, slots: VecDeque::new(), max_buffers, high_water_mark: 0 }
    }

    /// The size class, at run time.
    pub fn size(&self) -> (r: usize)
        ensures
            r == self.spec_size(),
    {
        self.size_class
    }

    /// How many free buffers rest in the bin, at run time.
    pub fn available(&self) -> (r: usize)
        ensures
            r == self.spec_available(),
    {
        self.slots.len()
    }

    /// The bin's bound, at run time.
    pub fn capacity(&self) -> (r: usize)
        ensures
            r == self.spec_capacity(),
    {
        self.max_buffers
    }

    /// The high-water mark, at run time.
    pub fn high_water_mark(&self) -> (r: usize)
        ensures
            r == self.spec_high_water(),
    {
        self.high_water_mark
    }

    /// Take the oldest free buffer out of the queue: its cleared bytes and
    /// the capacity they stand for.
    pub(crate) fn take(&mut self) -> (r: Option<(Vec<u8>, usize)>)
        requires
            old(self).wf(),
        ensures
            final(self).wf(),
            old(self).spec_available() == 0 ==> r is None && *final(self) == *old(self),
            old(self).spec_available() > 0 ==> (r matches Some(p)
                && p.0@.len() == 0
                && p.1 == old(self).spec_slot_cap(0)
                && p.1 <= 2 * old(self).spec_size()
                && bin_after_take(*old(self), *final(self))),
    {
        if self.slots.len() == 0 {
            None
        } else {
            match self.slots.pop_front() {
                Some(slot) => Some((slot.bytes, slot.cap)),
                None => None,
            }
        }
    }

    /// Rest a released buffer at the back of the queue, cleared, if the bin
    /// is under its bound and the buffer's capacity is at most twice the
    /// size class; otherwise drop it. Reports whether the buffer was kept.
    pub(crate) fn store(&mut self, bytes: Vec<u8>, cap: usize) -> (kept: bool)
        requires
            old(self).wf(),
        ensures
            final(self).wf(),
            kept == (old(self).spec_available() < old(self).spec_capacity() && cap <= 2 * old(
                self,
            ).spec_size()),
            kept ==> bin_after_store(*old(self), *final(self), cap as nat),
            !kept ==> *final(self) == *old(self),
    {
        if self.slots.len() < self.max_buffers && cap <= self.size_class * 2 {
            let mut bytes = bytes;
            bytes.clear();
            self.slots.push_back(FreeSlot { bytes, cap });
            if self.slots.len() > self.high_water_mark {
                self.high_water_mark = self.slots.len();
            }
            true
        } else {
            false
        }
    }

    /// Acquire from this bin alone: reuse its oldest free buffer if one
    /// rests there, freshly allocate otherwise. The result is zero-filled,
    /// exactly the requested length, and carved with this bin's size class
    /// as its original capacity; the request must be one this bin serves.
    pub fn acquire_buffer(&mut self, size: usize) -> (r: RecyclableBuffer)
        requires
            old(self).wf(),
            size <= old(self).spec_size(),
        ensures
            final(self).wf(),
            r@ == Seq::new(size as nat, |i: int| 0u8),
            r.spec_original_capacity() == old(self).spec_size(),
            old(self).spec_available() > 0 ==> bin_after_take(*old(self), *final(self))
                && r.spec_capacity() == ({
                let c = old(self).spec_slot_cap(0);
                if size > c {
                    size as nat
                } else {
                    c
                }
            }),
            old(self).spec_available() == 0 ==> *final(self) == *old(self) && r.spec_capacity()
                == size,
    {
        let class = self.size_class;
        match self.take() {
            Some((storage, cap)) => {
                let mut storage = storage;
                fill_zero(&mut storage, size);
                let capacity = if size > cap {
                    size
                } else {
                    cap
                };
                RecyclableBuffer { data: storage, capacity, original_capacity: class }
            },
            None => RecyclableBuffer {
                data: zero_vec(size),
                capacity: size,
                original_capacity: class,
            },
        }
    }

    /// Release a buffer into this bin alone, under the bounded-recycling
    /// rules: it is kept iff the bin is under its bound and the buffer's
    /// capacity is at most twice the size class, and dropped otherwise.
    pub fn recycle_buffer(&mut self, buffer: RecyclableBuffer) -> (kept: bool)
        requires
            old(self).wf(),
        ensures
            final(self).wf(),
            kept == (old(self).spec_available() < old(self).spec_capacity()
                && buffer.spec_capacity() <= 2 * old(self).spec_size()),
            kept ==> bin_after_store(*old(self), *final(self), buffer.spec_capacity()),
            !kept ==> *final(self) == *old(self),
    {
        let RecyclableBuffer { data, capacity, original_capacity: _ } = buffer;
        self.store(data, capacity)
    }
}

/// How a bin looks after its oldest free buffer was taken: the front of the
/// queue gone, the rest moved up one place, everything else as before.
pub open spec fn bin_after_take(b0: SizeClassBin, b1: SizeClassBin) -> bool {
    &&& b1.spec_size() == b0.spec_size()
    &&& b1.spec_capacity() == b0.spec_capacity()
    &&& b1.spec_high_water() == b0.spec_high_water()
    &&& b0.spec_available() > 0
    &&& b1.spec_available() == b0.spec_available() - 1
    &&& forall|j: int|
        0 <= j < b1.spec_available() ==> b1.spec_slot_cap(j) == b0.spec_slot_cap(j + 1)
}

/// How a bin looks after a buffer of the given capacity was rested in it:
/// one more buffer, the others untouched, the high-water mark raised to the
/// new occupancy where that exceeds it.
pub open spec fn bin_after_store(b0: SizeClassBin, b1: SizeClassBin, cap: nat) -> bool {
    &&& b1.spec_size() == b0.spec_size()
    &&& b1.spec_capacity() == b0.spec_capacity()
    &&& b1.spec_available() == b0.spec_available() + 1
    &&& b1.spec_high_water() == if b0.spec_available() + 1 > b0.spec_high_water() {
        b0.spec_available() + 1
    } else {
        b0.spec_high_water()
    }
    &&& forall|j: int|
        0 <= j < b0.spec_available() ==> b1.spec_slot_cap(j) == b0.spec_slot_cap(j)
    &&& b1.spec_slot_cap(b0.spec_available() as int) == cap
}

/// A well-formed ladder: at least one bin, every bin well-formed, size
/// classes strictly increasing.
pub open spec fn ladder_wf(bins: Seq<SizeClassBin>) -> bool {
    &&& bins.len() >= 1
    &&& forall|i: int| 0 <= i < bins.len() ==> (#[trigger] bins[i]).wf()
    &&& forall|i: int, j: int|
        0 <= i < j < bins.len() ==> bins[i].spec_size() < bins[j].spec_size()
}

/// The bin index a request is routed to, scanning from position `i`: the
/// first class at least the requested size, or the last bin as fallback.
pub open spec fn fit_from(bins: Seq<SizeClassBin>, n: int, i: int) -> int
    recommends
        0 <= i < bins.len(),
    decreases bins.len() - i,
{
    if i >= bins.len() - 1 {
        bins.len() - 1
    } else if bins[i].spec_size() >= n {
        i
    } else {
        fit_from(bins, n, i + 1)
    }
}

/// The bin index a request of the given size is routed to.
pub open spec fn fit_index(bins: Seq<SizeClassBin>, n: int) -> int {
    fit_from(bins, n, 0)
}

/// Whether some class of the ladder is large enough for the request.
pub open spec fn ladder_serves(bins: Seq<SizeClassBin>, n: int) -> bool {
    n <= bins[bins.len() - 1].spec_size()
}

/// The capacity an acquisition of the given size is carved with: the serving
/// size class, or the exact size when the request exceeds the ladder.
pub open spec fn alloc_capacity(bins: Seq<SizeClassBin>, n: int) -> int {
    if ladder_serves(bins, n) {
        bins[fit_index(bins, n)].spec_size() as int
    } else {
        n
    }
}

/// Two ladders with the same rungs: equally many bins, of the same size
/// classes and the same bounds.
pub open spec fn same_ladder(a: Seq<SizeClassBin>, b: Seq<SizeClassBin>) -> bool {
    &&& b.len() == a.len()
    &&& forall|i: int|
        0 <= i < a.len() ==> (#[trigger] b[i]).spec_size() == a[i].spec_size()
            && b[i].spec_capacity() == a[i].spec_capacity()
}

proof fn lemma_fit_from_props(bins: Seq<SizeClassBin>, n: int, k: int)
    requires
        ladder_wf(bins),
        0 <= k < bins.len(),
    ensures
        k <= fit_from(bins, n, k) < bins.len(),
        n <= bins[bins.len() - 1].spec_size() ==> bins[fit_from(bins, n, k)].spec_size() >= n,
        forall|j: int| k <= j < fit_from(bins, n, k) ==> bins[j].spec_size() < n,
        bins[bins.len() - 1].spec_size() < n ==> fit_from(bins, n, k) == bins.len() - 1,
    decreases bins.len() - k,
{
    if k >= bins.len() - 1 {
    } else if bins[k].spec_size() >= n {
    } else {
        lemma_fit_from_props(bins, n, k + 1);
    }
}

/// The ladder routes a request to its first class that is at least the
/// requested size — hence, classes being increasing, to the smallest such
/// class — and to the last bin when no class is large enough.
pub proof fn lemma_fit_index(bins: Seq<SizeClassBin>, n: int)
    requires
        ladder_wf(bins),
    ensures
        0 <= fit_index(bins, n) < bins.len(),
        ladder_serves(bins, n) ==> bins[fit_index(bins, n)].spec_size() >= n,
        forall|j: int| 0 <= j < fit_index(bins, n) ==> bins[j].spec_size() < n,
        !ladder_serves(bins, n) ==> fit_index(bins, n) == bins.len() - 1,
{
    lemma_fit_from_props(bins, n, 0);
}

/// The capacity a request is carved with never exceeds the requested size
/// or the largest class, whichever is greater.
pub proof fn lemma_alloc_capacity_bound(bins: Seq<SizeClassBin>, n: int)
    requires
        ladder_wf(bins),
        n >= 0,
    ensures
        0 <= alloc_capacity(bins, n),
        alloc_capacity(bins, n) <= bins[bins.len() - 1].spec_size() || alloc_capacity(bins, n)
            <= n,
{
    lemma_fit_index(bins, n);
    let f = fit_index(bins, n);
    if ladder_serves(bins, n) && f < bins.len() - 1 {
        assert(bins[f].spec_size() < bins[bins.len() - 1].spec_size());
    }
}

/// The bin index a request of the given size is routed to, at run time.
pub(crate) fn find_bin_index(bins: &Vec<SizeClassBin>, size: usize) -> (r: usize)
    requires
        ladder_wf(bins@),
    ensures
        r == fit_index(bins@, size as int),
        r < bins@.len(),
{
    let n = bins.len();
    let mut i: usize = 0;
    while i < n - 1
        invariant
            ladder_wf(bins@),
            n == bins@.len(),
            0 <= i < n,
            fit_index(bins@, size as int) == fit_from(bins@, size as int, i as int),
        decreases n - 1 - i,
    {
        if bins[i].size_class >= size {
            assert(fit_from(bins@, size as int, i as int) == i);
            return i;
        }
        assert(fit_from(bins@, size as int, i as int) == fit_from(
            bins@,
            size as int,
            i as int + 1,
        ));
        i = i + 1;
    }
    assert(fit_from(bins@, size as int, i as int) == n - 1);
    n - 1
}

/// The ladder both pools are built on: doubling size classes from 256 bytes
/// to 128 KiB, each bin bounded by `DEFAULT_MAX_BUFFERS`.
pub open spec fn default_classes() -> Seq<nat> {
    seq![256nat, 512nat, 1024nat, 2048nat, 4096nat, 8192nat, 16384nat, 32768nat, 65536nat, 131072nat]
}

/// Fresh bins for the default ladder.
pub fn default_ladder() -> (bins: Vec<SizeClassBin>)
    ensures
        ladder_wf(bins@),
        bins@.len() == default_classes().len(),
        forall|i: int|
            0 <= i < bins@.len() ==> (#[trigger] bins@[i]).spec_size() == default_classes()[i]
                && bins@[i].spec_available() == 0 && bins@[i].spec_capacity()
                == DEFAULT_MAX_BUFFERS && bins@[i].spec_high_water() == 0,
{
    let mut bins: Vec<SizeClassBin> = Vec::new();
    bins.push(SizeClassBin::new(256, DEFAULT_MAX_BUFFERS));
    bins.push(SizeClassBin::new(512, DEFAULT_MAX_BUFFERS));
    bins.push(SizeClassBin::new(1024, DEFAULT_MAX_BUFFERS));
    bins.push(SizeClassBin::new(2048, DEFAULT_MAX_BUFFERS));
    bins.push(SizeClassBin::new(4096, DEFAULT_MAX_BUFFERS));
    bins.push(SizeClassBin::new(8192, DEFAULT_MAX_BUFFERS));
    bins.push(SizeClassBin::new(16384, DEFAULT_MAX_BUFFERS));
    bins.push(SizeClassBin::new(32768, DEFAULT_MAX_BUFFERS));
    bins.push(SizeClassBin::new(65536, DEFAULT_MAX_BUFFERS));
    bins.push(SizeClassBin::new(131072, DEFAULT_MAX_BUFFERS));
    bins
}

/// A size-classed buffer recycler: an ordered ladder of bounded bins of free
/// buffers, serving acquisitions by the smallest class large enough and
/// taking released buffers back into the matching bin.
pub struct BufferRecycler {
    bins: Vec<SizeClassBin>,
}

impl BufferRecycler {
    /// The ladder of bins, as the model every contract speaks over.
    pub closed spec fn spec_bins(&self) -> Seq<SizeClassBin> {
        self.bins@
    }

    /// The recycler's invariant: its ladder is well-formed.
    pub open spec fn wf(&self) -> bool {
        ladder_wf(self.spec_bins())
    }

    /// A recycler over the default ladder, every bin empty.
    pub fn new() -> (r: Self)
        ensures
            r.wf(),
            r.spec_bins().len() == default_classes().len(),
            forall|i: int|
                0 <= i < r.spec_bins().len() ==> (#[trigger] r.spec_bins()[i]).spec_size()
                    == default_classes()[i] && r.spec_bins()[i].spec_available() == 0
                    && r.spec_bins()[i].spec_capacity() == DEFAULT_MAX_BUFFERS,
    {
        BufferRecycler { bins: default_ladder() }
    }

    /// Acquire a zero-filled buffer of exactly the requested length.
    ///
    /// A request no larger than the biggest size class is served by the bin
    /// of the smallest class at least the request — reusing a free buffer if
    /// that bin holds one, freshly allocating otherwise — and is carved with
    /// that class as its original capacity. A larger request is an exact,
    /// unpooled allocation. Either way the contents are all zero.
    pub fn acquire(&mut self, size: usize) -> (r: RecyclableBuffer)
        requires
            old(self).wf(),
        ensures
            final(self).wf(),
            same_ladder(old(self).spec_bins(), final(self).spec_bins()),
            r@ == Seq::new(size as nat, |i: int| 0u8),
            r.spec_original_capacity() == alloc_capacity(old(self).spec_bins(), size as int),
            ({
                let bins0 = old(self).spec_bins();
                let bins1 = final(self).spec_bins();
                let f = fit_index(bins0, size as int);
                if ladder_serves(bins0, size as int) && bins0[f].spec_available() > 0 {
                    &&& bin_after_take(bins0[f], bins1[f])
                    &&& forall|i: int| 0 <= i < bins1.len() && i != f ==> bins1[i] == bins0[i]
                    &&& r.spec_capacity() == ({
                        let c = bins0[f].spec_slot_cap(0);
                        if size > c {
                            size as nat
                        } else {
                            c
                        }
                    })
                } else {
                    &&& bins1 == bins0
                    &&& r.spec_capacity() == size
                }
            }),
    {
        let (data, capacity, original_capacity) = carve(&mut self.bins, size);
        RecyclableBuffer { data, capacity, original_capacity }
    }

    /// Take a released buffer back. It rests in the bin of the smallest
    /// class at least its original capacity — the last bin standing in for
    /// oversized buffers — unless that bin is already at its bound or the
    /// buffer's capacity exceeds twice the class, in which case the buffer
    /// is dropped and every bin is left as it was.
    pub fn recycle(&mut self, buffer: RecyclableBuffer)
        requires
            old(self).wf(),
        ensures
            final(self).wf(),
            same_ladder(old(self).spec_bins(), final(self).spec_bins()),
            ({
                let bins0 = old(self).spec_bins();
                let bins1 = final(self).spec_bins();
                let f = fit_index(bins0, buffer.spec_original_capacity() as int);
                if bins0[f].spec_available() < bins0[f].spec_capacity() && buffer.spec_capacity()
                    <= 2 * bins0[f].spec_size() {
                    &&& bin_after_store(bins0[f], bins1[f], buffer.spec_capacity())
                    &&& forall|i: int| 0 <= i < bins1.len() && i != f ==> bins1[i] == bins0[i]
                } else {
                    bins1 == bins0
                }
            }),
    {
        let RecyclableBuffer { data, capacity, original_capacity } = buffer;
        stow(&mut self.bins, data, capacity, original_capacity);
    }

    /// How many free buffers rest in the bin that serves the given size.
    pub fn available_for(&self, size: usize) -> (r: usize)
        requires
            self.wf(),
        ensures
            r == self.spec_bins()[fit_index(self.spec_bins(), size as int)].spec_available(),
    {
        let idx = find_bin_index(&self.bins, size);
        self.bins[idx].available()
    }
}

/// Bounded recycling, published: a well-formed ladder never holds more free
/// buffers in a bin than the bin's high-water mark, which never exceeds the
/// bin's bound, and never holds a buffer whose recorded capacity exceeds
/// twice the bin's size class.
pub proof fn lemma_bins_bounded(bins: Seq<SizeClassBin>)
    requires
        ladder_wf(bins),
    ensures
        forall|i: int|
            0 <= i < bins.len() ==> (#[trigger] bins[i]).spec_available()
                <= bins[i].spec_high_water() && bins[i].spec_high_water()
                <= bins[i].spec_capacity(),
        forall|i: int, j: int|
            0 <= i < bins.len() && 0 <= j < bins[i].spec_available() ==> bins[i].spec_slot_cap(j)
                <= 2 * bins[i].spec_size(),
{
    assert forall|i: int, j: int|
        0 <= i < bins.len() && 0 <= j < bins[i].spec_available() implies bins[i].spec_slot_cap(j)
        <= 2 * bins[i].spec_size() by {
        assert(bins[i].wf());
    }
}

/// Carve a zero-filled buffer of the requested length out of a ladder:
/// reuse a free buffer of the serving bin when one rests there, freshly
/// allocate otherwise. Returns the bytes, the recorded capacity, and the
/// original capacity the buffer is carved with.
pub(crate) fn carve(bins: &mut Vec<SizeClassBin>, size: usize) -> (r: (Vec<u8>, usize, usize))
    requires
        ladder_wf(old(bins)@),
    ensures
        ladder_wf(final(bins)@),
        same_ladder(old(bins)@, final(bins)@),
        r.0@ == Seq::new(size as nat, |i: int| 0u8),
        r.2 == alloc_capacity(old(bins)@, size as int),
        ({
            let bins0 = old(bins)@;
            let bins1 = final(bins)@;
            let f = fit_index(bins0, size as int);
            if ladder_serves(bins0, size as int) && bins0[f].spec_available() > 0 {
                &&& bin_after_take(bins0[f], bins1[f])
                &&& forall|i: int| 0 <= i < bins1.len() && i != f ==> bins1[i] == bins0[i]
                &&& r.1 == ({
                    let c = bins0[f].spec_slot_cap(0);
                    if size > c {
                        size as nat
                    } else {
                        c
                    }
                })
            } else {
                &&& bins1 == bins0
                &&& r.1 == size
            }
        }),
{
    let n = bins.len();
    let serves = size <= bins[n - 1].size();
    if serves {
        let idx = find_bin_index(bins, size);
        proof {
            lemma_fit_index(old(bins)@, size as int);
        }
        let buffer = bins[idx].acquire_buffer(size);
        proof {
            assert(bins@ =~= old(bins)@.update(idx as int, bins@[idx as int]));
            if old(bins)@[idx as int].spec_available() == 0 {
                assert(bins@ =~= old(bins)@);
            }
        }
        let RecyclableBuffer { data, capacity, original_capacity } = buffer;
        (data, capacity, original_capacity)
    } else {
        (zero_vec(size), size, size)
    }
}

/// Rest released storage in the bin of the smallest class at least its
/// original capacity — the last bin standing in for oversized buffers —
/// unless that bin is at its bound or the recorded capacity exceeds twice
/// the class, in which case the storage is dropped and every bin is left as
/// it was. Reports whether the storage was kept.
pub(crate) fn stow(
    bins: &mut Vec<SizeClassBin>,
    data: Vec<u8>,
    capacity: usize,
    original_capacity: usize,
) -> (kept: bool)
    requires
        ladder_wf(old(bins)@),
    ensures
        ladder_wf(final(bins)@),
        same_ladder(old(bins)@, final(bins)@),
        ({
            let bins0 = old(bins)@;
            let f = fit_index(bins0, original_capacity as int);
            kept == (bins0[f].spec_available() < bins0[f].spec_capacity() && capacity <= 2
                * bins0[f].spec_size())
        }),
        ({
            let bins0 = old(bins)@;
            let bins1 = final(bins)@;
            let f = fit_index(bins0, original_capacity as int);
            if kept {
                &&& bin_after_store(bins0[f], bins1[f], capacity as nat)
                &&& forall|i: int| 0 <= i < bins1.len() && i != f ==> bins1[i] == bins0[i]
            } else {
                bins1 == bins0
            }
        }),
{
    let idx = find_bin_index(bins, original_capacity);
    let kept = bins[idx].store(data, capacity);
    proof {
        if kept {
            assert(bins@ =~= old(bins)@.update(idx as int, bins@[idx as int]));
        } else {
            assert(bins@ =~= old(bins)@);
        }
    }
    kept
}

/// Extend an empty vector to the given length with zeroes.
fn fill_zero(v: &mut Vec<u8>, n: usize)
    requires
        old(v)@.len() == 0,
    ensures
        final(v)@ == Seq::new(n as nat, |i: int| 0u8),
{
    let mut i: usize = 0;
    while i < n
        invariant
            i <= n,
            v@ == Seq::new(i as nat, |j: int| 0u8),
        decreases n - i,
    {
        v.push(0u8);
        i = i + 1;
        assert(v@ =~= Seq::new(i as nat, |j: int| 0u8));
    }
    assert(v@ =~= Seq::new(n as nat, |j: int| 0u8));
}

/// A zero-filled vector of the given length.
fn zero_vec(n: usize) -> (v: Vec<u8>)
    ensures
        v@ == Seq::new(n as nat, |i: int| 0u8),
{
    let mut v: Vec<u8> = Vec::new();
    fill_zero(&mut v, n);
    v
}

} // verus!
