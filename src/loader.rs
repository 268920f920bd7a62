//! Where and how the firmware loader places the segments of an ELF image.
use vstd::prelude::*;

verus! {

/// Whether the bytes `[start, start + length)` lie inside `[lo, hi)`.
pub open spec fn within(lo: int, hi: int, start: int, length: int) -> bool {
    lo <= start && start + length <= hi
}

/// Whether a segment of `length` bytes may be loaded at `start`: it is
/// empty, or it lies wholly inside one of the RAM regions a loaded image
/// may use (ITCM, SRAM1, DTCM, SRAM3), and its end is addressable.
///
/// SRAM2 holds the loader itself and is never a valid destination. The
/// tightly coupled memories are given at their largest configurable size.
pub open spec fn valid_load(start: u32, length: u32) -> bool {
    length == 0 || (start + length <= u32::MAX && (within(
        0x0000_0000,
        0x0003_0000,
        start as int,
        length as int,
    ) || within(0x2400_0000, 0x2402_0000, start as int, length as int) || within(
        0x2000_0000,
        0x2003_0000,
        start as int,
        length as int,
    ) || within(0x2404_0000, 0x2406_0000, start as int, length as int)))
}

/// Checks whether a segment of `length` bytes may be loaded at `start`.
pub fn valid_dest(start: u32, length: u32) -> (r: bool)
    ensures
        r == valid_load(start, length),
{
    let regions: [(u32, u32); 4] = [
        (0x0000_0000, 0x0003_0000),
        (0x2400_0000, 0x2402_0000),
        (0x2000_0000, 0x2003_0000),
        (0x2404_0000, 0x2406_0000),
    ];
    if length == 0 {
        return true;
    }
    let end = match start.checked_add(length) {
        Some(e) => e,
        None => return false,
    };
    let last = end - 1;
    let mut i: usize = 0;
    while i < 4
        invariant
            0 <= i <= 4,
            end == start + length,
            last == end - 1,
            length > 0,
            regions@ == seq![
                (0x0000_0000u32, 0x0003_0000u32),
                (0x2400_0000u32, 0x2402_0000u32),
                (0x2000_0000u32, 0x2003_0000u32),
                (0x2404_0000u32, 0x2406_0000u32),
            ],
            forall|j: int|
                0 <= j < i ==> !within(
                    regions@[j].0 as int,
                    regions@[j].1 as int,
                    start as int,
                    length as int,
                ),
        decreases 4 - i,
    {
        let (lo, hi) = regions[i];
        if lo <= start && start < hi && lo <= last && last < hi {
            return true;
        }
        i = i + 1;
    }
    false
}

/// The ELF program header type of a loadable segment.
pub const PT_LOAD: u32 = 1;

/// What to do with one program header of the image.
#[derive(Debug, Clone, Copy, PartialEq, Eq, Structural)]
pub enum SegmentPlan {
    /// Not a loadable segment: nothing to do.
    Skip,
    /// A loadable segment that may not be placed where it asks: the image
    /// is refused.
    Invalid,
    /// A loadable segment of no bytes: nothing to do.
    Empty,
    /// Copy `size` bytes from file offset `offset` to address `addr`.
    Load { offset: u32, addr: u32, size: u32 },
    /// Write the byte at file offset `first` to address 0, which no Rust
    /// pointer may hold, then copy `size` bytes from file offset `offset`
    /// to address 1.
    LoadAtZero { first: u32, offset: u32, size: u32 },
}

/// The plan for a program header of type `p_type` that asks for `memsz`
/// bytes from file offset `offset` to be placed at `paddr`.
pub open spec fn segment_plan(p_type: u32, paddr: u32, memsz: u32, offset: u32) -> SegmentPlan {
    if p_type != PT_LOAD {
        SegmentPlan::Skip
    } else if !valid_load(paddr, memsz) {
        SegmentPlan::Invalid
    } else if memsz == 0 {
        SegmentPlan::Empty
    } else if paddr != 0 {
        SegmentPlan::Load { offset, addr: paddr, size: memsz }
    } else if offset == u32::MAX {
        SegmentPlan::Invalid
    } else {
        SegmentPlan::LoadAtZero { first: offset, offset: (offset + 1) as u32, size: (memsz - 1) as u32 }
    }
}

/// Decides what to do with one program header of the image: only
/// loadable segments are placed, and only where [`valid_dest`] allows.
pub fn plan_segment(p_type: u32, paddr: u32, memsz: u32, offset: u32) -> (r: SegmentPlan)
    ensures
        r == segment_plan(p_type, paddr, memsz, offset),
{
    if p_type != PT_LOAD {
        return SegmentPlan::Skip;
    }
    if !valid_dest(paddr, memsz) {
        return SegmentPlan::Invalid;
    }
    if memsz == 0 {
        return SegmentPlan::Empty;
    }
    if paddr != 0 {
        SegmentPlan::Load { offset, addr: paddr, size: memsz }
    } else if offset == u32::MAX {
        SegmentPlan::Invalid
    } else {
        SegmentPlan::LoadAtZero { first: offset, offset: offset + 1, size: memsz - 1 }
    }
}

} // verus!
