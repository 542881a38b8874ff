//! The layout of the virtual address range that the heap lives in.

use vstd::arithmetic::power2::{
    lemma2_to64, lemma2_to64_rest, lemma_pow2_strictly_increases, lemma_pow2_unfold, pow2,
};
use vstd::prelude::*;

verus! {

/// Number of bytes in a chunk, the coarsest unit in which address space is
/// handed out: two to the 22nd.
pub const BYTES_IN_CHUNK: usize = 0x40_0000;

/// Binary logarithm of the largest number of spaces in a heap.
pub const LOG_MAX_SPACES: usize = 4;

/// Binary logarithm of the address space that the machine offers at most.
pub open spec fn spec_max_log_address_space() -> usize {
    if usize::MAX > 0xffff_ffff {
        47
    } else {
        32
    }
}

/// Binary logarithm of the address space that the machine offers at most.
pub fn max_log_address_space() -> (bits: usize)
    ensures
        bits == spec_max_log_address_space(),
{
    if usize::MAX > 0xffff_ffff {
        47
    } else {
        32
    }
}

/// The virtual memory constants that a runtime may choose before the memory
/// manager is constructed.
#[derive(Clone, Copy, Debug, PartialEq, Eq, Structural)]
pub struct VmLayout {
    /// Binary logarithm of the addressable heap virtual space.
    pub log_address_space: usize,
    /// Lowest virtual address used by the virtual machine.
    pub heap_start: usize,
    /// Highest virtual address used by the virtual machine.
    pub heap_end: usize,
    /// Binary logarithm of the largest extent of any one space.
    pub log_space_extent: usize,
    /// Whether every space owns one contiguous piece of virtual memory.
    pub force_use_contiguous_spaces: bool,
}

/// The layout that the memory manager uses where the runtime chooses none:
/// on a machine with wide addresses 47 bits of address space and contiguous
/// spaces of two to the 41st bytes, on a narrow one 32 bits of address space
/// and spaces that share it.
pub open spec fn default_layout() -> VmLayout {
    if usize::MAX > 0xffff_ffff {
        VmLayout {
            log_address_space: 47,
            heap_start: 0x0000_0200_0000_0000u64 as usize,
            heap_end: 0x0000_2200_0000_0000u64 as usize,
            log_space_extent: 41,
            force_use_contiguous_spaces: true,
        }
    } else {
        VmLayout {
            log_address_space: 32,
            heap_start: 0x8000_0000,
            heap_end: 0xd000_0000,
            log_space_extent: 31,
            force_use_contiguous_spaces: false,
        }
    }
}

/// The layout that the memory manager uses where none is chosen is one that
/// it accepts.
pub proof fn lemma_default_layout_is_valid()
    ensures
        default_layout().valid(),
{
    lemma2_to64_rest();
}

impl VmLayout {
    /// A layout that the memory manager accepts: both ends of the heap lie
    /// on chunk boundaries, the heap is not empty, the address space is no
    /// larger than the machine's, and a space fits into it; with contiguous
    /// spaces, room is left for every space and the heap starts on a multiple
    /// of the space extent.
    pub open spec fn valid(self) -> bool {
        &&& self.heap_start % BYTES_IN_CHUNK == 0
        &&& self.heap_end % BYTES_IN_CHUNK == 0
        &&& self.heap_start < self.heap_end
        &&& self.log_address_space <= spec_max_log_address_space()
        &&& self.log_space_extent <= self.log_address_space
        &&& self.force_use_contiguous_spaces ==> {
            &&& self.log_space_extent + LOG_MAX_SPACES <= self.log_address_space
            &&& self.heap_start as nat % pow2(self.log_space_extent as nat) == 0
        }
    }

    /// Whether the memory manager accepts this layout.
    pub fn is_valid(&self) -> (ok: bool)
        ensures
            ok == self.valid(),
    {
        if self.heap_start % BYTES_IN_CHUNK != 0 || self.heap_end % BYTES_IN_CHUNK != 0 {
            return false;
        }
        if self.heap_start >= self.heap_end {
            return false;
        }
        if self.log_address_space > max_log_address_space() {
            return false;
        }
        if self.log_space_extent > self.log_address_space {
            return false;
        }
        if !self.force_use_contiguous_spaces {
            return true;
        }
        if self.log_address_space < LOG_MAX_SPACES || self.log_space_extent
            > self.log_address_space - LOG_MAX_SPACES {
            return false;
        }
        let extent: usize = space_extent(self.log_space_extent);
        self.heap_start % extent == 0
    }
}

/// Two to the power `log_extent`.
fn space_extent(log_extent: usize) -> (extent: usize)
    requires
        log_extent + LOG_MAX_SPACES <= spec_max_log_address_space(),
    ensures
        extent == pow2(log_extent as nat),
        extent > 0,
{
    let mut extent: usize = 1;
    let mut done: usize = 0;
    proof {
        lemma2_to64();
    }
    while done < log_extent
        invariant
            done <= log_extent,
            log_extent + LOG_MAX_SPACES <= spec_max_log_address_space(),
            extent == pow2(done as nat),
            extent > 0,
        decreases log_extent - done,
    {
        proof {
            // Doubling stays below two to the 43rd, or the 28th on a narrow
            // machine, and both fit.
            lemma2_to64();
            lemma2_to64_rest();
            lemma_pow2_unfold((done + 1) as nat);
            if done + 1 < 43 {
                lemma_pow2_strictly_increases((done + 1) as nat, 43);
            }
            if done + 1 < 28 {
                lemma_pow2_strictly_increases((done + 1) as nat, 28);
            }
        }
        extent = extent * 2;
        done = done + 1;
    }
    extent
}

} // verus!
