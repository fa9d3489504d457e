//! Bootrom function-table resolution.
//!
//! The chip's boot ROM exposes a set of privileged flash-control routines,
//! each named by a 2-byte ASCII tag. Two incompatible ROM generations
//! exist: the older one resolves tags through a table-scan routine, the
//! newer one through a combined lookup-and-resolve routine that works only
//! after the redundancy coprocessor has been enabled. Which convention is
//! in effect is decided once per activation by a 3-byte magic value at a
//! fixed ROM offset.
//!
//! The raw ROM reads and lookup calls are performed by the unverified
//! runtime; this module holds the verified decision logic: classifying the
//! magic value, turning raw lookup results into a fully resolved routine
//! set (all-or-nothing), and deriving the diagnostic failure codes.

use vstd::prelude::*;

use crate::error::{function_not_found_code, rom_not_recognized_code, ErrorCode};

verus! {

/// First byte of the bootrom magic value (ASCII `M`).
pub const BOOTROM_MAGIC_0: u8 = 0x4d;

/// Second byte of the bootrom magic value (ASCII `u`).
pub const BOOTROM_MAGIC_1: u8 = 0x75;

/// Third magic byte identifying the table-scan ROM generation.
pub const GENERATION_A_MAGIC_2: u8 = 0x01;

/// Third magic byte identifying the lookup-and-resolve ROM generation.
pub const GENERATION_B_MAGIC_2: u8 = 0x02;

/// Tag of the routine that connects the internal flash (ASCII `IF`).
pub const TAG_CONNECT_INTERNAL_FLASH: u16 = 0x4649;

/// Tag of the routine that takes flash out of execute-in-place mode
/// (ASCII `EX`).
pub const TAG_FLASH_EXIT_XIP: u16 = 0x5845;

/// Tag of the range-erase routine (ASCII `RE`).
pub const TAG_FLASH_RANGE_ERASE: u16 = 0x4552;

/// Tag of the range-program routine (ASCII `RP`).
pub const TAG_FLASH_RANGE_PROGRAM: u16 = 0x5052;

/// Tag of the cache-flush routine (ASCII `FC`).
pub const TAG_FLASH_FLUSH_CACHE: u16 = 0x4346;

/// Tag of the routine that restores execute-in-place mode (ASCII `CX`).
pub const TAG_FLASH_ENTER_CMD_XIP: u16 = 0x5843;

/// The 16-bit lookup code of a 2-byte ASCII tag: the first byte in the low
/// half, the second in the high half (little-endian).
pub open spec fn spec_tag_code(bytes: [u8; 2]) -> u16 {
    (bytes[0] + 256 * bytes[1]) as u16
}

/// Computes the 16-bit lookup code of a 2-byte ASCII tag.
pub fn tag_code(bytes: [u8; 2]) -> (code: u16)
    ensures
        code == spec_tag_code(bytes),
{
    bytes[0] as u16 + 256 * bytes[1] as u16
}

/// Which ROM lookup convention is in effect; decided once per activation
/// and never re-evaluated mid-session.
#[derive(Clone, Copy, Debug, PartialEq, Eq, Structural)]
pub enum RomGeneration {
    /// The older convention: a table-scan routine walks a separate
    /// function table.
    GenerationA,
    /// The newer convention: a single lookup-and-resolve routine, usable
    /// only once the redundancy coprocessor is enabled.
    GenerationB,
}

/// The generation named by a 3-byte bootrom magic value, or `None` when
/// the value matches no known ROM.
pub open spec fn spec_classify_magic(magic: [u8; 3]) -> Option<RomGeneration> {
    if magic[0] == BOOTROM_MAGIC_0 && magic[1] == BOOTROM_MAGIC_1 && magic[2]
        == GENERATION_A_MAGIC_2 {
        Some(RomGeneration::GenerationA)
    } else if magic[0] == BOOTROM_MAGIC_0 && magic[1] == BOOTROM_MAGIC_1 && magic[2]
        == GENERATION_B_MAGIC_2 {
        Some(RomGeneration::GenerationB)
    } else {
        None
    }
}

/// Classifies the 3-byte magic value read from the fixed ROM offset.
pub fn classify_magic(magic: [u8; 3]) -> (generation: Option<RomGeneration>)
    ensures
        generation == spec_classify_magic(magic),
{
    if magic[0] == BOOTROM_MAGIC_0 && magic[1] == BOOTROM_MAGIC_1 {
        if magic[2] == GENERATION_A_MAGIC_2 {
            Some(RomGeneration::GenerationA)
        } else if magic[2] == GENERATION_B_MAGIC_2 {
            Some(RomGeneration::GenerationB)
        } else {
            None
        }
    } else {
        None
    }
}

/// Whether a ROM generation requires the redundancy coprocessor to be
/// enabled before lookups can succeed.
pub open spec fn spec_requires_coprocessor(generation: RomGeneration) -> bool {
    generation is GenerationB
}

/// Says whether the coprocessor-enable precondition applies to
/// `generation`.
pub fn requires_coprocessor(generation: RomGeneration) -> (required: bool)
    ensures
        required == spec_requires_coprocessor(generation),
{
    match generation {
        RomGeneration::GenerationA => false,
        RomGeneration::GenerationB => true,
    }
}

/// What the one-time coprocessor-enable step must do next.
#[derive(Clone, Copy, Debug, PartialEq, Eq, Structural)]
pub enum CoprocessorAction {
    /// The coprocessor is already enabled; initializing it twice corrupts
    /// processor state, so the step is skipped.
    SkipInitialization,
    /// The coprocessor is not yet enabled: initialize it, then send the
    /// completion event so sibling cores waiting on it do not race to
    /// enable it themselves.
    InitializeAndSignal,
}

/// Decides the coprocessor-enable step from the probed enablement state.
///
/// The enable sequence must run exactly once per device activation, so the
/// runtime probes whether the coprocessor is already enabled and hands the
/// probe's answer here.
pub fn coprocessor_enable_step(already_enabled: bool) -> (action: CoprocessorAction)
    ensures
        already_enabled ==> action is SkipInitialization,
        !already_enabled ==> action is InitializeAndSignal,
{
    if already_enabled {
        CoprocessorAction::SkipInitialization
    } else {
        CoprocessorAction::InitializeAndSignal
    }
}

/// The raw addresses that the ROM lookup reported for each required tag,
/// in the convention of the detected generation. A zero entry means the
/// ROM did not know the tag.
#[derive(Clone, Copy, Debug, PartialEq, Eq, Structural)]
pub struct RomLookupResults {
    /// Raw lookup result for [`TAG_CONNECT_INTERNAL_FLASH`].
    pub connect_internal_flash: u32,
    /// Raw lookup result for [`TAG_FLASH_EXIT_XIP`].
    pub flash_exit_xip: u32,
    /// Raw lookup result for [`TAG_FLASH_RANGE_ERASE`].
    pub flash_range_erase: u32,
    /// Raw lookup result for [`TAG_FLASH_RANGE_PROGRAM`].
    pub flash_range_program: u32,
    /// Raw lookup result for [`TAG_FLASH_FLUSH_CACHE`].
    pub flash_flush_cache: u32,
    /// Raw lookup result for [`TAG_FLASH_ENTER_CMD_XIP`].
    pub flash_enter_cmd_xip: u32,
}

/// The fully resolved set of ROM routine addresses, one per required tag.
///
/// A value of this type only ever comes out of [`ROMFuncs::load`], which
/// enforces the all-or-nothing invariant: every address is nonzero, or no
/// set exists at all. Partial sets are never exposed.
#[derive(Clone, Copy, Debug, PartialEq, Eq, Structural)]
pub struct ROMFuncs {
    /// Address of the routine that connects the internal flash.
    pub connect_internal_flash: u32,
    /// Address of the routine that exits execute-in-place mode.
    pub flash_exit_xip: u32,
    /// Address of the range-erase routine.
    pub flash_range_erase: u32,
    /// Address of the range-program routine.
    pub flash_range_program: u32,
    /// Address of the cache-flush routine.
    pub flash_flush_cache: u32,
    /// Address of the routine that restores execute-in-place mode.
    pub flash_enter_cmd_xip: u32,
}

/// What resolving one tag yields: the raw lookup result when the ROM was
/// recognized and the lookup found the routine, else the diagnostic code
/// derived from the tag.
pub open spec fn spec_resolve(generation: Option<RomGeneration>, tag: u16, raw: u32) -> Result<
    u32,
    u32,
> {
    if generation is None {
        Err(rom_not_recognized_code(tag))
    } else if raw == 0 {
        Err(function_not_found_code(tag))
    } else {
        Ok(raw)
    }
}

/// Resolves one routine tag from its raw lookup result.
///
/// `generation` is the classified magic value; an unrecognized ROM is a
/// fatal resolution failure. A zero lookup result means the ROM did not
/// know the tag. Either failure code carries `tag` in its low bits.
pub fn resolve(generation: Option<RomGeneration>, tag: u16, raw: u32) -> (result: Result<
    u32,
    ErrorCode,
>)
    ensures
        match spec_resolve(generation, tag, raw) {
            Ok(addr) => result == Ok::<u32, ErrorCode>(addr),
            Err(code) => result matches Err(e) && e.value() == code,
        },
{
    if generation.is_none() {
        Err(ErrorCode::rom_not_recognized(tag))
    } else if raw == 0 {
        Err(ErrorCode::function_not_found(tag))
    } else {
        Ok(raw)
    }
}

impl ROMFuncs {
    /// Every resolved address is nonzero: the set is fully populated.
    pub open spec fn wf(self) -> bool {
        &&& self.connect_internal_flash != 0
        &&& self.flash_exit_xip != 0
        &&& self.flash_range_erase != 0
        &&& self.flash_range_program != 0
        &&& self.flash_flush_cache != 0
        &&& self.flash_enter_cmd_xip != 0
    }

    /// Resolves every required tag from `lookups`, or fails with the code
    /// of the first tag (in request order) that could not be resolved;
    /// success carries the raw error code, failure the resolved set.
    pub open spec fn spec_load(magic: [u8; 3], lookups: RomLookupResults) -> Result<
        ROMFuncs,
        u32,
    > {
        if spec_classify_magic(magic) is None {
            Err(rom_not_recognized_code(TAG_CONNECT_INTERNAL_FLASH))
        } else if lookups.connect_internal_flash == 0 {
            Err(function_not_found_code(TAG_CONNECT_INTERNAL_FLASH))
        } else if lookups.flash_exit_xip == 0 {
            Err(function_not_found_code(TAG_FLASH_EXIT_XIP))
        } else if lookups.flash_range_erase == 0 {
            Err(function_not_found_code(TAG_FLASH_RANGE_ERASE))
        } else if lookups.flash_range_program == 0 {
            Err(function_not_found_code(TAG_FLASH_RANGE_PROGRAM))
        } else if lookups.flash_flush_cache == 0 {
            Err(function_not_found_code(TAG_FLASH_FLUSH_CACHE))
        } else if lookups.flash_enter_cmd_xip == 0 {
            Err(function_not_found_code(TAG_FLASH_ENTER_CMD_XIP))
        } else {
            Ok(
                ROMFuncs {
                    connect_internal_flash: lookups.connect_internal_flash,
                    flash_exit_xip: lookups.flash_exit_xip,
                    flash_range_erase: lookups.flash_range_erase,
                    flash_range_program: lookups.flash_range_program,
                    flash_flush_cache: lookups.flash_flush_cache,
                    flash_enter_cmd_xip: lookups.flash_enter_cmd_xip,
                },
            )
        }
    }

    /// Builds the resolved routine set from the host-performed lookups.
    ///
    /// Resolution requests the tags in a fixed order and fails fast: an
    /// unrecognized magic value fails with the code carrying the first
    /// requested tag, a null lookup result with the code carrying the
    /// first tag the ROM did not know. On failure no set is returned at
    /// all; on success every address in the set is nonzero.
    pub fn load(magic: [u8; 3], lookups: &RomLookupResults) -> (result: Result<
        ROMFuncs,
        ErrorCode,
    >)
        ensures
            match Self::spec_load(magic, *lookups) {
                Ok(funcs) => result == Ok::<ROMFuncs, ErrorCode>(funcs),
                Err(code) => result matches Err(e) && e.value() == code,
            },
            result matches Ok(funcs) ==> funcs.wf(),
    {
        let generation = classify_magic(magic);
        let connect_internal_flash = match resolve(
            generation,
            TAG_CONNECT_INTERNAL_FLASH,
            lookups.connect_internal_flash,
        ) {
            Ok(addr) => addr,
            Err(e) => return Err(e),
        };
        let flash_exit_xip = match resolve(generation, TAG_FLASH_EXIT_XIP, lookups.flash_exit_xip) {
            Ok(addr) => addr,
            Err(e) => return Err(e),
        };
        let flash_range_erase = match resolve(
            generation,
            TAG_FLASH_RANGE_ERASE,
            lookups.flash_range_erase,
        ) {
            Ok(addr) => addr,
            Err(e) => return Err(e),
        };
        let flash_range_program = match resolve(
            generation,
            TAG_FLASH_RANGE_PROGRAM,
            lookups.flash_range_program,
        ) {
            Ok(addr) => addr,
            Err(e) => return Err(e),
        };
        let flash_flush_cache = match resolve(
            generation,
            TAG_FLASH_FLUSH_CACHE,
            lookups.flash_flush_cache,
        ) {
            Ok(addr) => addr,
            Err(e) => return Err(e),
        };
        let flash_enter_cmd_xip = match resolve(
            generation,
            TAG_FLASH_ENTER_CMD_XIP,
            lookups.flash_enter_cmd_xip,
        ) {
            Ok(addr) => addr,
            Err(e) => return Err(e),
        };
        Ok(
            ROMFuncs {
                connect_internal_flash,
                flash_exit_xip,
                flash_range_erase,
                flash_range_program,
                flash_flush_cache,
                flash_enter_cmd_xip,
            },
        )
    }
}

/// Resolution is all-or-nothing: a set comes back exactly when the magic
/// value is recognized and every required tag resolved to a nonzero
/// address, and the set then holds precisely the looked-up addresses —
/// a partial set is never produced.
pub proof fn lemma_load_all_or_nothing(magic: [u8; 3], lookups: RomLookupResults)
    ensures
        ROMFuncs::spec_load(magic, lookups) is Ok <==> {
            &&& spec_classify_magic(magic) is Some
            &&& lookups.connect_internal_flash != 0
            &&& lookups.flash_exit_xip != 0
            &&& lookups.flash_range_erase != 0
            &&& lookups.flash_range_program != 0
            &&& lookups.flash_flush_cache != 0
            &&& lookups.flash_enter_cmd_xip != 0
        },
        ROMFuncs::spec_load(magic, lookups) matches Ok(funcs) ==> funcs == (ROMFuncs {
            connect_internal_flash: lookups.connect_internal_flash,
            flash_exit_xip: lookups.flash_exit_xip,
            flash_range_erase: lookups.flash_range_erase,
            flash_range_program: lookups.flash_range_program,
            flash_flush_cache: lookups.flash_flush_cache,
            flash_enter_cmd_xip: lookups.flash_enter_cmd_xip,
        }) && funcs.wf(),
{
}

} // verus!
