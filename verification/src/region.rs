//! Flash region description and address translation.
//!
//! The programming host works with absolute bus addresses, while the ROM
//! erase/program routines take offsets relative to the start of the flash
//! translation unit. A [`FlashRegion`] is the static per-chip description
//! of that unit; [`to_device_offset`] validates an absolute address
//! against it and subtracts the base. Out-of-range input is rejected with
//! a distinct code rather than trusted; every operation applies the same
//! policy.

use vstd::prelude::*;

use crate::error::{ErrorCode, ADDRESS_OUT_OF_RANGE_CODE};

verus! {

/// Base address of the flash region on the observed chip family.
pub const RP2_FLASH_BASE: u32 = 0x1000_0000;

/// Total size in bytes of the flash region on the observed chip family.
pub const RP2_FLASH_SIZE: u32 = 0x0100_0000;

/// Program page size in bytes on the observed chip family.
pub const RP2_PAGE_SIZE: u32 = 0x100;

/// Erase sector size in bytes on the observed chip family.
pub const RP2_SECTOR_SIZE: u32 = 4096;

/// Erase block size in bytes on the observed chip family.
pub const RP2_BLOCK_SIZE: u32 = 65536;

/// Command opcode for the larger block erase on the observed chip family.
pub const RP2_BLOCK_ERASE_CMD: u8 = 0xd8;

/// Static description of one chip's flash: geometry and the block-erase
/// command. Fixed per target at build time, never computed or mutated at
/// runtime.
#[derive(Clone, Copy, Debug, PartialEq, Eq, Structural)]
pub struct FlashRegion {
    /// Absolute bus address where the flash region begins.
    pub base: u32,
    /// Total size of the region in bytes.
    pub size: u32,
    /// Size of one program page in bytes.
    pub page_size: u32,
    /// Size of one erase sector in bytes.
    pub sector_size: u32,
    /// Size of one erase block in bytes (the larger erase unit).
    pub block_size: u32,
    /// Command opcode the ROM routine uses for block erase.
    pub block_erase_cmd: u8,
}

impl FlashRegion {
    /// A well-formed region is nonempty, does not wrap past the end of
    /// the 32-bit address space, and has nonzero geometry units.
    pub open spec fn wf(self) -> bool {
        &&& self.size > 0
        &&& self.base + self.size <= 0x1_0000_0000
        &&& self.page_size > 0
        &&& self.sector_size > 0
        &&& self.block_size > 0
    }

    /// The profile of the observed chip family: 16 MiB of flash at
    /// `0x1000_0000`, 256-byte pages, 4 KiB sectors, 64 KiB blocks erased
    /// with command `0xd8`.
    pub fn rp2() -> (region: FlashRegion)
        ensures
            region == (FlashRegion {
                base: RP2_FLASH_BASE,
                size: RP2_FLASH_SIZE,
                page_size: RP2_PAGE_SIZE,
                sector_size: RP2_SECTOR_SIZE,
                block_size: RP2_BLOCK_SIZE,
                block_erase_cmd: RP2_BLOCK_ERASE_CMD,
            }),
            region.wf(),
    {
        FlashRegion {
            base: RP2_FLASH_BASE,
            size: RP2_FLASH_SIZE,
            page_size: RP2_PAGE_SIZE,
            sector_size: RP2_SECTOR_SIZE,
            block_size: RP2_BLOCK_SIZE,
            block_erase_cmd: RP2_BLOCK_ERASE_CMD,
        }
    }
}

/// Whether `addr` lies within `[region.base, region.base + region.size)`.
pub open spec fn spec_in_region(addr: u32, region: FlashRegion) -> bool {
    region.base <= addr && addr - region.base < region.size
}

/// The device-relative offset of `addr`: its distance from the region
/// base when `addr` lies inside the region, else the out-of-range code.
pub open spec fn spec_to_device_offset(addr: u32, region: FlashRegion) -> Result<u32, u32> {
    if spec_in_region(addr, region) {
        Ok((addr - region.base) as u32)
    } else {
        Err(ADDRESS_OUT_OF_RANGE_CODE)
    }
}

/// Translates the absolute address `addr` into an offset relative to the
/// region base, rejecting addresses outside the region.
pub fn to_device_offset(addr: u32, region: &FlashRegion) -> (result: Result<u32, ErrorCode>)
    ensures
        match spec_to_device_offset(addr, *region) {
            Ok(offset) => result == Ok::<u32, ErrorCode>(offset),
            Err(code) => result matches Err(e) && e.value() == code,
        },
{
    if addr >= region.base && addr - region.base < region.size {
        Ok(addr - region.base)
    } else {
        Err(ErrorCode::address_out_of_range())
    }
}

/// Translation is the exact inverse of the base offset: the region base
/// itself translates to offset `0`, and `base + k` translates to `k` for
/// every `k` inside the region.
pub proof fn lemma_to_device_offset_inverts_base(region: FlashRegion, k: u32)
    requires
        region.wf(),
        k < region.size,
    ensures
        spec_to_device_offset(region.base, region) == Ok::<u32, u32>(0),
        spec_to_device_offset((region.base + k) as u32, region) == Ok::<u32, u32>(k),
{
}

} // verus!
