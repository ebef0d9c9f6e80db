//! What the kernel computes about physical memory: which frames the
//! memory map of the bootloader offers, and in which order they are handed
//! out.

use vstd::prelude::*;

pub mod allocator;

verus! {

/// The size in bytes of a normal frame of physical memory, and of a page.
pub const FRAME_SIZE_NORMAL: usize = 4 * 1024;

/// The size in bytes of a huge frame of the second level.
pub const FRAME_SIZE_HUGE_2MB: usize = 512 * FRAME_SIZE_NORMAL;

/// The size in bytes of a huge frame of the third level.
pub const FRAME_SIZE_HUGE_1GB: usize = 512 * FRAME_SIZE_HUGE_2MB;

/// The number of frames that physical addresses of 52 bits can name.
pub const MAX_FRAME_NUMBER: u64 = 0x100_0000_0000;

/// One entry of the memory map that the bootloader hands over: a range of
/// frames, the last one excluded, and whether the kernel may use them.
#[derive(Clone, Copy, Debug, PartialEq, Eq, Structural)]
pub struct MemoryRegion {
    pub start_frame_number: u64,
    pub end_frame_number: u64,
    pub usable: bool,
}

impl MemoryRegion {
    /// How many frames the region offers: all of them if it is usable.
    pub open spec fn frames(self) -> nat {
        if self.usable && self.end_frame_number > self.start_frame_number {
            (self.end_frame_number - self.start_frame_number) as nat
        } else {
            0
        }
    }

    /// The frames of the region can be named by a physical address.
    pub open spec fn addressable(self) -> bool {
        self.end_frame_number <= MAX_FRAME_NUMBER
    }
}

/// How many frames the regions offer together.
pub open spec fn usable_frames(regions: Seq<MemoryRegion>) -> nat
    decreases regions.len(),
{
    if regions.len() == 0 {
        0
    } else {
        usable_frames(regions.drop_last()) + regions.last().frames()
    }
}

/// The start address of the `n`-th frame that the regions offer, counting
/// from zero through the regions in the order of the map.
pub open spec fn nth_usable_frame(regions: Seq<MemoryRegion>, n: nat) -> Option<u64>
    decreases regions.len(),
{
    if regions.len() == 0 {
        None
    } else if n < regions[0].frames() {
        Some(((regions[0].start_frame_number + n) * FRAME_SIZE_NORMAL) as u64)
    } else {
        nth_usable_frame(regions.skip(1), (n - regions[0].frames()) as nat)
    }
}

/// There is an `n`-th frame exactly when the regions offer more than `n`.
pub proof fn lemma_nth_frame_exists(regions: Seq<MemoryRegion>, n: nat)
    ensures
        nth_usable_frame(regions, n) is Some <==> n < usable_frames(regions),
    decreases regions.len(),
{
    if regions.len() > 0 {
        lemma_usable_frames_from_front(regions);
        if n >= regions[0].frames() {
            lemma_nth_frame_exists(regions.skip(1), (n - regions[0].frames()) as nat);
        }
    }
}

/// The frames of a map are those of its first region and those of the rest.
pub proof fn lemma_usable_frames_from_front(regions: Seq<MemoryRegion>)
    requires
        regions.len() > 0,
    ensures
        usable_frames(regions) == regions[0].frames() + usable_frames(regions.skip(1)),
    decreases regions.len(),
{
    if regions.len() == 1 {
        assert(regions.drop_last() =~= regions.skip(1));
    } else {
        lemma_usable_frames_from_front(regions.drop_last());
        assert(regions.drop_last().skip(1) =~= regions.skip(1).drop_last());
        assert(regions.skip(1).last() == regions.last());
        assert(regions.drop_last()[0] == regions[0]);
    }
}

/// The largest number of regions in a memory map.
pub const MAX_MEMORY_MAP_SIZE: usize = 64;

/// Hands out the usable frames of the bootloader's memory map, each once,
/// in the order of the map. The map is kept in place, so that the allocator
/// works before there is a heap.
pub struct BootInfoFrameAllocator {
    memory_map: [MemoryRegion; 64],
    entries: usize,
    next: usize,
}

impl BootInfoFrameAllocator {
    /// The memory map.
    pub closed spec fn regions(&self) -> Seq<MemoryRegion> {
        self.memory_map@.take(self.entries as int)
    }

    /// The map has as many regions as it says.
    pub closed spec fn bounded(&self) -> bool {
        self.entries <= MAX_MEMORY_MAP_SIZE
    }

    /// How many frames were asked for so far.
    pub closed spec fn next(&self) -> nat {
        self.next as nat
    }

    /// Every region of the map can be named by physical addresses.
    pub open spec fn wf(&self) -> bool {
        &&& self.bounded()
        &&& forall|i: int|
            0 <= i < self.regions().len() ==> (#[trigger] self.regions()[i]).addressable()
    }

    /// Makes the allocator of a memory map, of which the first `entries`
    /// regions count. The frames that the map calls usable must really be
    /// unused.
    pub fn init(memory_map: [MemoryRegion; 64], entries: usize) -> (allocator: Self)
        requires
            entries <= MAX_MEMORY_MAP_SIZE,
        ensures
            allocator.bounded(),
            allocator.regions() == memory_map@.take(entries as int),
            allocator.next() == 0,
    {
        BootInfoFrameAllocator { memory_map, entries, next: 0 }
    }

    /// How many frames were asked for so far.
    pub fn handed_out(&self) -> (count: usize)
        ensures
            count == self.next(),
    {
        self.next
    }

    /// How many frames the map offers, whether handed out or not.
    pub fn total_frames(&self) -> (total: u64)
        requires
            self.wf(),
            usable_frames(self.regions()) <= u64::MAX,
        ensures
            total == usable_frames(self.regions()),
    {
        let mut total: u64 = 0;
        let mut i: usize = 0;
        proof {
            assert(self.regions().take(0) =~= Seq::<MemoryRegion>::empty());
        }
        while i < self.entries
            invariant
                i <= self.regions().len(),
                self.wf(),
                self.regions().len() == self.entries,
                usable_frames(self.regions()) <= u64::MAX,
                total == usable_frames(self.regions().take(i as int)),
            decreases self.regions().len() - i,
        {
            let region = self.memory_map[i];
            proof {
                assert(region == self.regions()[i as int]);
                assert(self.regions().take(i as int + 1).drop_last() =~= self.regions().take(
                    i as int,
                ));
                assert(self.regions().take(i as int + 1).last() == region);
                lemma_usable_frames_of_prefix(self.regions(), i as int + 1);
            }
            if region.usable && region.end_frame_number > region.start_frame_number {
                total = total + (region.end_frame_number - region.start_frame_number);
            }
            i = i + 1;
        }
        proof {
            assert(self.regions().take(i as int) =~= self.regions());
        }
        total
    }

    /// How many frames are left to hand out.
    pub fn available_frames(&self) -> (available: u64)
        requires
            self.wf(),
            usable_frames(self.regions()) <= u64::MAX,
        ensures
            available == if self.next() <= usable_frames(self.regions()) {
                usable_frames(self.regions()) - self.next()
            } else {
                0
            },
    {
        let total = self.total_frames();
        let next = self.next as u64;
        if next <= total {
            total - next
        } else {
            0
        }
    }

    /// Hands out the next usable frame, by its start address, or `None`
    /// once the map is used up.
    pub fn allocate_frame(&mut self) -> (frame: Option<u64>)
        requires
            old(self).wf(),
            old(self).next() < usize::MAX,
        ensures
            final(self).wf(),
            final(self).regions() == old(self).regions(),
            final(self).next() == old(self).next() + 1,
            frame == nth_usable_frame(old(self).regions(), old(self).next()),
    {
        let mut skipped: u64 = 0;
        let mut i: usize = 0;
        let wanted = self.next as u64;
        let mut found: Option<u64> = None;
        proof {
            assert(self.regions().skip(0) =~= self.regions());
        }
        while i < self.entries && found.is_none()
            invariant
                i <= self.regions().len(),
                self.regions().len() == self.entries,
                self.wf(),
                wanted == self.next(),
                skipped <= wanted,
                found is None ==> nth_usable_frame(self.regions(), wanted as nat)
                    == nth_usable_frame(self.regions().skip(i as int), (wanted - skipped) as nat),
                found is Some ==> found == nth_usable_frame(self.regions(), wanted as nat),
            decreases self.regions().len() - i, if found is None { 1int } else { 0int },
        {
            let region = self.memory_map[i];
            let frames = if region.usable && region.end_frame_number > region.start_frame_number {
                region.end_frame_number - region.start_frame_number
            } else {
                0
            };
            proof {
                assert(self.regions().skip(i as int)[0] == region);
                assert(self.regions().skip(i as int).skip(1) =~= self.regions().skip(i as int + 1));
                assert(region.addressable());
            }
            if wanted - skipped < frames {
                let number = region.start_frame_number + (wanted - skipped);
                found = Some(number * 4096);
            } else {
                skipped = skipped + frames;
                i = i + 1;
            }
        }
        self.next = self.next + 1;
        found
    }
}

/// The frames of the first `upto` regions of a map are among the frames of
/// the whole map.
pub proof fn lemma_usable_frames_of_prefix(regions: Seq<MemoryRegion>, upto: int)
    requires
        0 <= upto <= regions.len(),
    ensures
        usable_frames(regions.take(upto)) <= usable_frames(regions),
    decreases regions.len() - upto,
{
    if upto < regions.len() {
        lemma_usable_frames_of_prefix(regions, upto + 1);
        assert(regions.take(upto + 1).drop_last() =~= regions.take(upto));
    } else {
        assert(regions.take(upto) =~= regions);
    }
}

} // verus!
