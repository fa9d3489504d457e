//! Failure codes returned to the programming host.
//!
//! Every entry point reports a 32-bit code where zero means success, so a
//! failure is always a nonzero value. Codes are distinct per failure kind,
//! and the two resolution failures carry the 2-byte routine tag in their
//! low bits to aid field diagnosis.

use vstd::prelude::*;

verus! {

/// Sentinel returned by every operation that is attempted while the
/// algorithm is `Uninitialized`, and by teardown when there is nothing to
/// tear down.
pub const NOT_INITIALIZED_CODE: u32 = 1;

/// Diagnostic code returned when whole-chip erase is requested on a
/// profile that declares that capability unimplemented.
pub const UNIMPLEMENTED_OPERATION_CODE: u32 = 0x70d0;

/// Code returned when an address falls outside the flash region.
pub const ADDRESS_OUT_OF_RANGE_CODE: u32 = 0x3000_0000;

/// Base of the code family meaning the bootrom magic value was not
/// recognized; the low 16 bits carry the tag whose resolution was being
/// requested when the ROM was inspected.
pub const ROM_NOT_RECOGNIZED_BASE: u32 = 0x1000_0000;

/// Base of the code family meaning a ROM routine lookup returned the null
/// address; the low 16 bits carry the tag that failed to resolve.
pub const FUNCTION_NOT_FOUND_BASE: u32 = 0x2000_0000;

/// The code of the family rooted at [`ROM_NOT_RECOGNIZED_BASE`] that
/// carries `tag` in its low 16 bits.
pub open spec fn rom_not_recognized_code(tag: u16) -> u32 {
    (ROM_NOT_RECOGNIZED_BASE + tag) as u32
}

/// The code of the family rooted at [`FUNCTION_NOT_FOUND_BASE`] that
/// carries `tag` in its low 16 bits.
pub open spec fn function_not_found_code(tag: u16) -> u32 {
    (FUNCTION_NOT_FOUND_BASE + tag) as u32
}

/// A nonzero 32-bit failure code.
///
/// Zero is reserved to mean success and is never held by a value of this
/// type.
#[derive(Clone, Copy, Debug)]
pub struct ErrorCode {
    code: u32,
}

impl ErrorCode {
    /// The numeric value of this code.
    pub closed spec fn value(self) -> u32 {
        self.code
    }

    #[verifier::type_invariant]
    spec fn inv(self) -> bool {
        self.code != 0
    }

    /// Wraps a raw code; zero is refused, as it would read as success.
    pub fn new(code: u32) -> (r: Option<ErrorCode>)
        ensures
            code == 0 ==> r is None,
            code != 0 ==> (r matches Some(e) && e.value() == code),
    {
        if code == 0 {
            None
        } else {
            Some(ErrorCode { code })
        }
    }

    /// The raw numeric value; never zero.
    pub fn get(&self) -> (r: u32)
        ensures
            r == self.value(),
            r != 0,
    {
        proof {
            use_type_invariant(self);
        }
        self.code
    }

    /// The code reported when an operation is dispatched while the
    /// algorithm is not initialized.
    pub fn not_initialized() -> (e: ErrorCode)
        ensures
            e.value() == NOT_INITIALIZED_CODE,
    {
        ErrorCode { code: NOT_INITIALIZED_CODE }
    }

    /// The code reported when a profile does not provide the requested
    /// operation.
    pub fn unimplemented_operation() -> (e: ErrorCode)
        ensures
            e.value() == UNIMPLEMENTED_OPERATION_CODE,
    {
        ErrorCode { code: UNIMPLEMENTED_OPERATION_CODE }
    }

    /// The code reported when an address lies outside the flash region.
    pub fn address_out_of_range() -> (e: ErrorCode)
        ensures
            e.value() == ADDRESS_OUT_OF_RANGE_CODE,
    {
        ErrorCode { code: ADDRESS_OUT_OF_RANGE_CODE }
    }

    /// The code reported when the bootrom magic value matches no known ROM
    /// generation; `tag` is the routine tag whose resolution was in
    /// progress.
    pub fn rom_not_recognized(tag: u16) -> (e: ErrorCode)
        ensures
            e.value() == rom_not_recognized_code(tag),
    {
        ErrorCode { code: ROM_NOT_RECOGNIZED_BASE + tag as u32 }
    }

    /// The code reported when the ROM lookup for `tag` returned the null
    /// address.
    pub fn function_not_found(tag: u16) -> (e: ErrorCode)
        ensures
            e.value() == function_not_found_code(tag),
    {
        ErrorCode { code: FUNCTION_NOT_FOUND_BASE + tag as u32 }
    }
}

} // verus!
