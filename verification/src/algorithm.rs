//! Static description of a flash algorithm and of the flash region it serves,
//! plus the operation types that tag an active flasher.

use vstd::prelude::*;

verus! {

/// Description of a position-independent flash algorithm blob and of the
/// register values used to call into it.
pub struct FlashAlgorithm {
    /// Target RAM address where the instruction words are staged.
    pub load_address: u32,
    /// The 32-bit instruction words of the blob.
    pub instructions: Vec<u32>,
    /// Address of the `Init` entry point, if the blob has one.
    pub pc_init: Option<u32>,
    /// Address of the `UnInit` entry point, if the blob has one.
    pub pc_uninit: Option<u32>,
    /// Address of the `ProgramPage` entry point.
    pub pc_program_page: u32,
    /// Address of the `EraseSector` entry point.
    pub pc_erase_sector: u32,
    /// Address of the `EraseAll` entry point, if the blob has one.
    pub pc_erase_all: Option<u32>,
    /// Initial value of R9 (base of the blob's position-independent data).
    pub static_base: u32,
    /// Initial stack pointer for every call into the blob.
    pub begin_stack: u32,
    /// Default page buffer base address.
    pub begin_data: u32,
    /// Additional page buffer base addresses; two or more enable
    /// double-buffered programming.
    pub page_buffers: Vec<u32>,
    /// Minimum programmable unit in bytes, if the algorithm declares one.
    pub min_program_length: Option<u32>,
    /// Whether the CRC-based verify accelerator is supported.
    pub analyzer_supported: bool,
    /// RAM base address for the verify accelerator code.
    pub analyzer_address: u32,
}

impl FlashAlgorithm {
    /// The staged instruction words fit between the load address and the
    /// initial stack pointer.
    pub open spec fn layout_fits(self) -> bool {
        self.load_address + 4 * self.instructions@.len() < self.begin_stack
    }

    /// Checks that the instruction words fit between `load_address` and
    /// `begin_stack`, leaving room for the stack to grow down.
    pub fn check_layout(&self) -> (ok: bool)
        ensures
            ok == self.layout_fits(),
    {
        let span: u128 = (self.load_address as u128) + 4 * (self.instructions.len() as u128);
        span < self.begin_stack as u128
    }

    /// Every page buffer of `page_size` bytes lies outside the staged
    /// instruction words, and no two page buffers overlap.
    pub open spec fn buffers_fit(self, page_size: u32) -> bool {
        &&& forall|i: int|
            0 <= i < self.page_buffers@.len() ==> (#[trigger] self.page_buffers@[i] + page_size
                <= self.load_address || self.page_buffers@[i] >= self.load_address + 4
                * self.instructions@.len())
        &&& forall|i: int, j: int|
            #![trigger self.page_buffers@[i], self.page_buffers@[j]]
            0 <= i < self.page_buffers@.len() && 0 <= j < self.page_buffers@.len() && i != j
                ==> (self.page_buffers@[i] + page_size <= self.page_buffers@[j]
                || self.page_buffers@[j] + page_size <= self.page_buffers@[i])
    }

    /// Checks that each page buffer, taken to be `page_size` bytes long,
    /// overlaps neither the staged instruction words nor another buffer.
    pub fn check_buffers(&self, page_size: u32) -> (ok: bool)
        ensures
            ok == self.buffers_fit(page_size),
    {
        let count = self.page_buffers.len();
        let instructions_end: u128 = (self.load_address as u128) + 4 * (self.instructions.len()
            as u128);
        let mut i: usize = 0;
        while i < count
            invariant
                count == self.page_buffers@.len(),
                instructions_end == self.load_address + 4 * self.instructions@.len(),
                i <= count,
                forall|k: int|
                    0 <= k < i ==> (#[trigger] self.page_buffers@[k] + page_size
                        <= self.load_address || self.page_buffers@[k] >= self.load_address + 4
                        * self.instructions@.len()),
                forall|k: int, j: int|
                    #![trigger self.page_buffers@[k], self.page_buffers@[j]]
                    0 <= k < i && 0 <= j < count && k != j ==> (self.page_buffers@[k] + page_size
                        <= self.page_buffers@[j] || self.page_buffers@[j] + page_size
                        <= self.page_buffers@[k]),
            decreases count - i,
        {
            let base = self.page_buffers[i];
            let buffer_end: u128 = base as u128 + page_size as u128;
            if !(buffer_end <= self.load_address as u128 || base as u128 >= instructions_end) {
                return false;
            }
            let mut j: usize = 0;
            while j < count
                invariant
                    count == self.page_buffers@.len(),
                    i < count,
                    j <= count,
                    base == self.page_buffers@[i as int],
                    forall|l: int|
                        0 <= l < j && l != i ==> (#[trigger] self.page_buffers@[l] + page_size
                            <= self.page_buffers@[i as int] || self.page_buffers@[i as int]
                            + page_size <= self.page_buffers@[l]),
                decreases count - j,
            {
                if j != i {
                    let other = self.page_buffers[j];
                    let separated = (base as u128 + page_size as u128 <= other as u128) || (other
                        as u128 + page_size as u128 <= base as u128);
                    if !separated {
                        return false;
                    }
                }
                j = j + 1;
            }
            i = i + 1;
        }
        true
    }
}

/// A flash region: address range, geometry, and the relative cost weights
/// that planners use to estimate progress.
#[derive(Clone, Copy, PartialEq, Eq, Structural, Debug)]
pub struct FlashRegion {
    /// First address of the region.
    pub range_start: u32,
    /// One past the last address of the region.
    pub range_end: u32,
    /// Size of the erase unit in bytes.
    pub sector_size: u32,
    /// Size of the program unit in bytes.
    pub page_size: u32,
    /// Relative cost of erasing the whole region.
    pub erase_all_weight: u32,
    /// Relative cost of erasing one sector.
    pub erase_sector_weight: u32,
    /// Relative cost of programming one page.
    pub program_page_weight: u32,
}

impl FlashRegion {
    /// The address lies inside the region.
    pub open spec fn spec_contains(self, address: u32) -> bool {
        self.range_start <= address < self.range_end
    }

    /// The region's geometry is usable: both units are non-empty.
    pub open spec fn wf(self) -> bool {
        self.sector_size > 0 && self.page_size > 0
    }

    /// Whether the address lies inside the region.
    pub fn contains(&self, address: u32) -> (r: bool)
        ensures
            r == self.spec_contains(address),
    {
        self.range_start <= address && address < self.range_end
    }
}

/// Geometry of the sector holding a given address.
#[derive(Clone, Copy, PartialEq, Eq, Structural, Debug)]
pub struct SectorInfo {
    /// First address of the sector.
    pub base_address: u32,
    /// Relative cost of erasing this sector.
    pub erase_weight: u32,
    /// Sector size in bytes.
    pub size: u32,
}

/// Geometry of the page holding a given address.
#[derive(Clone, Copy, PartialEq, Eq, Structural, Debug)]
pub struct PageInfo {
    /// First address of the page.
    pub base_address: u32,
    /// Relative cost of programming this page.
    pub program_weight: u32,
    /// Page size in bytes.
    pub size: u32,
}

/// Summary of the flash bank holding a given address.
#[derive(Clone, Copy, PartialEq, Eq, Structural, Debug)]
pub struct FlashInfo {
    /// First address of the bank.
    pub rom_start: u32,
    /// Relative cost of erasing the whole bank.
    pub erase_weight: u32,
    /// Whether CRC-based verification is available.
    pub crc_supported: bool,
}

/// An operation an active flasher can be initialised for.  The numeric code
/// is the value the `Init` routine receives in R2 and the `UnInit` routine
/// in R0.
pub trait Operation {
    /// The operation's numeric code.
    spec fn operation_code() -> u32;

    /// Returns the operation's numeric code.
    fn operation() -> (code: u32)
        ensures
            code == Self::operation_code(),
    ;
}

/// Tag of a flasher initialised for erasing.
pub struct Erase;

impl Operation for Erase {
    open spec fn operation_code() -> u32 {
        1
    }

    fn operation() -> (code: u32) {
        1
    }
}

/// Tag of a flasher initialised for programming.
pub struct Program;

impl Operation for Program {
    open spec fn operation_code() -> u32 {
        2
    }

    fn operation() -> (code: u32) {
        2
    }
}

/// Tag of a flasher initialised for verifying.
pub struct Verify;

impl Operation for Verify {
    open spec fn operation_code() -> u32 {
        3
    }

    fn operation() -> (code: u32) {
        3
    }
}

} // verus!
