//! Lifecycle state machine and erase/program operation logic.
//!
//! The algorithm is driven by a host through a fixed set of entry points.
//! A [`Lifecycle`] value owns the current [`AlgorithmState`] and guards
//! every operation: while `Uninitialized` nothing touches hardware and the
//! fixed sentinel code is returned, so no flash-control ROM routine can
//! ever be reached through a stale or absent routine set.
//!
//! The verified methods decide everything — state transitions, result
//! codes, address translation, operation spans — and describe the hardware
//! work as a sequence of [`HardwareCall`] values. The unverified runtime
//! performs each call, in order, through the resolved ROM routines.

use vstd::prelude::*;

use crate::bootrom::{ROMFuncs, RomLookupResults};
use crate::error::{ErrorCode, ADDRESS_OUT_OF_RANGE_CODE, NOT_INITIALIZED_CODE,
    UNIMPLEMENTED_OPERATION_CODE};
use crate::region::{spec_to_device_offset, to_device_offset, FlashRegion};

verus! {

/// One invocation of a resolved ROM routine, with the exact arguments the
/// runtime must pass. Offsets are device-relative, already translated.
#[derive(Clone, Copy, Debug, PartialEq, Eq, Structural)]
pub enum HardwareCall {
    /// Invoke the routine that connects the internal flash.
    ConnectInternalFlash,
    /// Invoke the routine that takes flash out of execute-in-place mode.
    FlashExitXip,
    /// Invoke the range-erase routine over `count` bytes starting at
    /// `offset`, letting it use the `block_cmd` opcode for spans aligned
    /// to `block_size`.
    FlashRangeErase {
        /// Device-relative offset of the first byte to erase.
        offset: u32,
        /// Number of bytes to erase.
        count: u32,
        /// Size of the larger erase block in bytes.
        block_size: u32,
        /// Command opcode for the larger block erase.
        block_cmd: u8,
    },
    /// Invoke the range-program routine over `count` bytes of host data
    /// starting at `offset`.
    FlashRangeProgram {
        /// Device-relative offset of the first byte to program.
        offset: u32,
        /// Number of data bytes to program.
        count: u32,
    },
    /// Invoke the cache-flush routine.
    FlashFlushCache,
    /// Invoke the routine that restores execute-in-place mode.
    FlashEnterCmdXip,
}

/// The lifecycle state. At most one resolved routine set is ever live,
/// and it lives exactly as long as the `Initialized` state.
#[derive(Clone, Copy, Debug, PartialEq, Eq, Structural)]
pub enum AlgorithmState {
    /// Initial and terminal state: no routine set exists, no operation may
    /// touch hardware.
    Uninitialized,
    /// Activation succeeded: `funcs` is fully resolved and flash is out of
    /// execute-in-place mode.
    Initialized {
        /// The routine set resolved during this activation.
        funcs: ROMFuncs,
    },
}

/// Relates an executable result to the raw code a specification names:
/// success, or the failure carrying exactly that code.
pub open spec fn result_matches(r: Result<(), ErrorCode>, s: Result<(), u32>) -> bool {
    match s {
        Ok(_) => r is Ok,
        Err(code) => r matches Err(e) && e.value() == code,
    }
}

/// The lifecycle state machine of one algorithm instance, together with
/// the static flash region it operates on.
#[derive(Clone, Copy, Debug, PartialEq, Eq, Structural)]
pub struct Lifecycle {
    /// Current lifecycle state, owning the routine set while initialized.
    pub state: AlgorithmState,
    /// The static description of the target's flash.
    pub region: FlashRegion,
}

impl Lifecycle {
    /// A live activation only ever holds a fully populated routine set:
    /// partial resolution never reaches the `Initialized` state, so no
    /// operation can be forwarded through a null routine address.
    pub open spec fn wf(self) -> bool {
        self.state matches AlgorithmState::Initialized { funcs } ==> funcs.wf()
    }

    /// A fresh, uninitialized instance for the given flash region.
    pub fn new(region: FlashRegion) -> (lifecycle: Lifecycle)
        ensures
            lifecycle == (Lifecycle { state: AlgorithmState::Uninitialized, region }),
            lifecycle.wf(),
    {
        Lifecycle { state: AlgorithmState::Uninitialized, region }
    }

    /// Whether an activation is currently live.
    pub fn is_initialized(&self) -> (r: bool)
        ensures
            r == (self.state is Initialized),
    {
        match self.state {
            AlgorithmState::Initialized { .. } => true,
            AlgorithmState::Uninitialized => false,
        }
    }

    /// The calls that tear down a live activation: flush the cache, then
    /// restore execute-in-place mode. Empty when nothing is live.
    pub open spec fn spec_teardown_calls(self) -> Seq<HardwareCall> {
        if self.state is Initialized {
            seq![HardwareCall::FlashFlushCache, HardwareCall::FlashEnterCmdXip]
        } else {
            Seq::empty()
        }
    }

    /// The transition [`Lifecycle::deactivate`] takes: next state, result
    /// code, emitted calls.
    pub open spec fn spec_deactivate(self) -> (Lifecycle, Result<(), u32>, Seq<HardwareCall>) {
        if self.state is Initialized {
            (
                Lifecycle { state: AlgorithmState::Uninitialized, region: self.region },
                Ok(()),
                self.spec_teardown_calls(),
            )
        } else {
            (self, Err(NOT_INITIALIZED_CODE), Seq::empty())
        }
    }

    /// The transition [`Lifecycle::activate`] takes: next state, result
    /// code, emitted calls.
    pub open spec fn spec_activate(self, magic: [u8; 3], lookups: RomLookupResults) -> (
        Lifecycle,
        Result<(), u32>,
        Seq<HardwareCall>,
    ) {
        let teardown = self.spec_teardown_calls();
        match ROMFuncs::spec_load(magic, lookups) {
            Ok(funcs) => (
                Lifecycle { state: AlgorithmState::Initialized { funcs }, region: self.region },
                Ok(()),
                teardown + seq![HardwareCall::ConnectInternalFlash, HardwareCall::FlashExitXip],
            ),
            Err(code) => (
                Lifecycle { state: AlgorithmState::Uninitialized, region: self.region },
                Err(code),
                teardown,
            ),
        }
    }

    /// Starts an activation: resolves the routine set and, on success,
    /// connects the internal flash and leaves execute-in-place mode.
    ///
    /// A second activation without explicit teardown first performs the
    /// full deactivation sequence of the live session, so the old routine
    /// set is never leaked. On any resolution failure the state is
    /// `Uninitialized` and no flash-control call is made.
    pub fn activate(&mut self, magic: [u8; 3], lookups: &RomLookupResults) -> (r: (
        Result<(), ErrorCode>,
        Vec<HardwareCall>,
    ))
        ensures
            ({
                let (post, res, calls) = old(self).spec_activate(magic, *lookups);
                &&& *final(self) == post
                &&& result_matches(r.0, res)
                &&& r.1@ == calls
            }),
            final(self).wf(),
    {
        let mut calls: Vec<HardwareCall> = Vec::new();
        if self.is_initialized() {
            calls.push(HardwareCall::FlashFlushCache);
            calls.push(HardwareCall::FlashEnterCmdXip);
            self.state = AlgorithmState::Uninitialized;
        }
        match ROMFuncs::load(magic, lookups) {
            Ok(funcs) => {
                calls.push(HardwareCall::ConnectInternalFlash);
                calls.push(HardwareCall::FlashExitXip);
                self.state = AlgorithmState::Initialized { funcs };
                proof {
                    assert(calls@ =~= old(self).spec_activate(magic, *lookups).2);
                }
                (Ok(()), calls)
            },
            Err(e) => {
                proof {
                    assert(calls@ =~= old(self).spec_activate(magic, *lookups).2);
                }
                (Err(e), calls)
            },
        }
    }

    /// Tears down the live activation: flushes the cache, restores
    /// execute-in-place mode, and discards the routine set. While already
    /// `Uninitialized` it reports the fixed sentinel code and performs no
    /// hardware call.
    pub fn deactivate(&mut self) -> (r: (Result<(), ErrorCode>, Vec<HardwareCall>))
        ensures
            ({
                let (post, res, calls) = old(self).spec_deactivate();
                &&& *final(self) == post
                &&& result_matches(r.0, res)
                &&& r.1@ == calls
            }),
            old(self).wf() ==> final(self).wf(),
    {
        let mut calls: Vec<HardwareCall> = Vec::new();
        if self.is_initialized() {
            calls.push(HardwareCall::FlashFlushCache);
            calls.push(HardwareCall::FlashEnterCmdXip);
            self.state = AlgorithmState::Uninitialized;
            proof {
                assert(calls@ =~= old(self).spec_deactivate().2);
            }
            (Ok(()), calls)
        } else {
            (Err(ErrorCode::not_initialized()), calls)
        }
    }

    /// The outcome [`Lifecycle::erase_sector`] decides: result code and
    /// emitted calls. The state never changes.
    pub open spec fn spec_erase_sector(self, addr: u32) -> (Result<(), u32>, Seq<HardwareCall>) {
        if !(self.state is Initialized) {
            (Err(NOT_INITIALIZED_CODE), Seq::empty())
        } else {
            match spec_to_device_offset(addr, self.region) {
                Ok(offset) => (
                    Ok(()),
                    seq![
                        HardwareCall::FlashRangeErase {
                            offset,
                            count: self.region.sector_size,
                            block_size: self.region.block_size,
                            block_cmd: self.region.block_erase_cmd,
                        },
                    ],
                ),
                Err(code) => (Err(code), Seq::empty()),
            }
        }
    }

    /// Erases the sector holding `addr`: translates the address and
    /// invokes the range-erase routine over one sector, handing it the
    /// block size and block-erase command. Guarded by the dispatch check.
    pub fn erase_sector(&mut self, addr: u32) -> (r: (Result<(), ErrorCode>, Vec<HardwareCall>))
        ensures
            *final(self) == *old(self),
            ({
                let (res, calls) = old(self).spec_erase_sector(addr);
                &&& result_matches(r.0, res)
                &&& r.1@ == calls
            }),
    {
        let mut calls: Vec<HardwareCall> = Vec::new();
        if !self.is_initialized() {
            return (Err(ErrorCode::not_initialized()), calls);
        }
        match to_device_offset(addr, &self.region) {
            Ok(offset) => {
                calls.push(
                    HardwareCall::FlashRangeErase {
                        offset,
                        count: self.region.sector_size,
                        block_size: self.region.block_size,
                        block_cmd: self.region.block_erase_cmd,
                    },
                );
                proof {
                    assert(calls@ =~= old(self).spec_erase_sector(addr).1);
                }
                (Ok(()), calls)
            },
            Err(e) => (Err(e), calls),
        }
    }

    /// The outcome [`Lifecycle::erase_range`] decides. The span
    /// `[start, end)` must lie inside the region.
    pub open spec fn spec_erase_range(self, start: u32, end: u32) -> (
        Result<(), u32>,
        Seq<HardwareCall>,
    ) {
        if !(self.state is Initialized) {
            (Err(NOT_INITIALIZED_CODE), Seq::empty())
        } else if !(self.region.base <= start && start <= end && end - self.region.base
            <= self.region.size) {
            (Err(ADDRESS_OUT_OF_RANGE_CODE), Seq::empty())
        } else {
            (
                Ok(()),
                seq![
                    HardwareCall::FlashRangeErase {
                        offset: (start - self.region.base) as u32,
                        count: (end - start) as u32,
                        block_size: self.region.block_size,
                        block_cmd: self.region.block_erase_cmd,
                    },
                ],
            )
        }
    }

    /// Erases the span `[start, end)` with a single range-erase
    /// invocation rather than one per sector, so the ROM routine can
    /// select the larger block-erase command where the span is
    /// block-aligned — fewer operations and less flash wear than naive
    /// per-sector looping.
    pub fn erase_range(&mut self, start: u32, end: u32) -> (r: (
        Result<(), ErrorCode>,
        Vec<HardwareCall>,
    ))
        ensures
            *final(self) == *old(self),
            ({
                let (res, calls) = old(self).spec_erase_range(start, end);
                &&& result_matches(r.0, res)
                &&& r.1@ == calls
            }),
    {
        let mut calls: Vec<HardwareCall> = Vec::new();
        if !self.is_initialized() {
            return (Err(ErrorCode::not_initialized()), calls);
        }
        if start >= self.region.base && start <= end && end - self.region.base
            <= self.region.size {
            calls.push(
                HardwareCall::FlashRangeErase {
                    offset: start - self.region.base,
                    count: end - start,
                    block_size: self.region.block_size,
                    block_cmd: self.region.block_erase_cmd,
                },
            );
            proof {
                assert(calls@ =~= old(self).spec_erase_range(start, end).1);
            }
            (Ok(()), calls)
        } else {
            (Err(ErrorCode::address_out_of_range()), calls)
        }
    }

    /// The outcome [`Lifecycle::erase_sectors`] decides: `qty` whole
    /// sectors starting at `addr`, as one span.
    pub open spec fn spec_erase_sectors(self, addr: u32, qty: u32) -> (
        Result<(), u32>,
        Seq<HardwareCall>,
    ) {
        if !(self.state is Initialized) {
            (Err(NOT_INITIALIZED_CODE), Seq::empty())
        } else if !(self.region.base <= addr && addr - self.region.base + qty
            * self.region.sector_size <= self.region.size) {
            (Err(ADDRESS_OUT_OF_RANGE_CODE), Seq::empty())
        } else {
            (
                Ok(()),
                seq![
                    HardwareCall::FlashRangeErase {
                        offset: (addr - self.region.base) as u32,
                        count: (qty * self.region.sector_size) as u32,
                        block_size: self.region.block_size,
                        block_cmd: self.region.block_erase_cmd,
                    },
                ],
            )
        }
    }

    /// Erases `qty` sectors starting at `addr`, issuing a single
    /// range-erase invocation over the whole byte span (see
    /// [`Lifecycle::erase_range`] for why one span beats per-sector
    /// calls).
    pub fn erase_sectors(&mut self, addr: u32, qty: u32) -> (r: (
        Result<(), ErrorCode>,
        Vec<HardwareCall>,
    ))
        ensures
            *final(self) == *old(self),
            ({
                let (res, calls) = old(self).spec_erase_sectors(addr, qty);
                &&& result_matches(r.0, res)
                &&& r.1@ == calls
            }),
    {
        let mut calls: Vec<HardwareCall> = Vec::new();
        if !self.is_initialized() {
            return (Err(ErrorCode::not_initialized()), calls);
        }
        proof {
            assert((qty as int) * (self.region.sector_size as int) <= 0xffff_ffff * 0xffff_ffff)
                by (nonlinear_arith)
                requires
                    qty <= 0xffff_ffffu32,
                    self.region.sector_size <= 0xffff_ffffu32,
            ;
        }
        let span: u64 = (qty as u64) * (self.region.sector_size as u64);
        if addr >= self.region.base && span <= self.region.size as u64 && ((addr
            - self.region.base) as u64) + span <= self.region.size as u64 {
            calls.push(
                HardwareCall::FlashRangeErase {
                    offset: addr - self.region.base,
                    count: span as u32,
                    block_size: self.region.block_size,
                    block_cmd: self.region.block_erase_cmd,
                },
            );
            proof {
                assert(calls@ =~= old(self).spec_erase_sectors(addr, qty).1);
            }
            (Ok(()), calls)
        } else {
            (Err(ErrorCode::address_out_of_range()), calls)
        }
    }

    /// The outcome [`Lifecycle::erase_all`] decides.
    pub open spec fn spec_erase_all(self) -> (Result<(), u32>, Seq<HardwareCall>) {
        if !(self.state is Initialized) {
            (Err(NOT_INITIALIZED_CODE), Seq::empty())
        } else {
            (Err(UNIMPLEMENTED_OPERATION_CODE), Seq::empty())
        }
    }

    /// Whole-chip erase is a distinct, more destructive capability that a
    /// target profile must opt into with a documented ROM interaction of
    /// its own. This profile declares it unimplemented: the fixed
    /// diagnostic code is reported and no hardware is touched, rather
    /// than guessing an unsafe default.
    pub fn erase_all(&mut self) -> (r: (Result<(), ErrorCode>, Vec<HardwareCall>))
        ensures
            *final(self) == *old(self),
            ({
                let (res, calls) = old(self).spec_erase_all();
                &&& result_matches(r.0, res)
                &&& r.1@ == calls
            }),
    {
        let calls: Vec<HardwareCall> = Vec::new();
        if !self.is_initialized() {
            return (Err(ErrorCode::not_initialized()), calls);
        }
        (Err(ErrorCode::unimplemented_operation()), calls)
    }

    /// The outcome [`Lifecycle::program_page`] decides for `data.len()`
    /// bytes at `addr`.
    pub open spec fn spec_program_page(self, addr: u32, data: Seq<u8>) -> (
        Result<(), u32>,
        Seq<HardwareCall>,
    ) {
        if !(self.state is Initialized) {
            (Err(NOT_INITIALIZED_CODE), Seq::empty())
        } else if !(self.region.base <= addr && addr - self.region.base + data.len()
            <= self.region.size) {
            (Err(ADDRESS_OUT_OF_RANGE_CODE), Seq::empty())
        } else {
            (
                Ok(()),
                seq![
                    HardwareCall::FlashRangeProgram {
                        offset: (addr - self.region.base) as u32,
                        count: data.len() as u32,
                    },
                ],
            )
        }
    }

    /// Programs `data` at `addr`: translates the address and forwards one
    /// range-program invocation. The ROM routine manages page-boundary
    /// mechanics internally; this layer adds no buffering.
    pub fn program_page(&mut self, addr: u32, data: &[u8]) -> (r: (
        Result<(), ErrorCode>,
        Vec<HardwareCall>,
    ))
        ensures
            *final(self) == *old(self),
            ({
                let (res, calls) = old(self).spec_program_page(addr, data@);
                &&& result_matches(r.0, res)
                &&& r.1@ == calls
            }),
    {
        let mut calls: Vec<HardwareCall> = Vec::new();
        if !self.is_initialized() {
            return (Err(ErrorCode::not_initialized()), calls);
        }
        if addr >= self.region.base && data.len() as u64 <= self.region.size as u64 && ((addr
            - self.region.base) as u64) + (data.len() as u64) <= self.region.size as u64 {
            calls.push(
                HardwareCall::FlashRangeProgram {
                    offset: addr - self.region.base,
                    count: data.len() as u32,
                },
            );
            proof {
                assert(calls@ =~= old(self).spec_program_page(addr, data@).1);
            }
            (Ok(()), calls)
        } else {
            (Err(ErrorCode::address_out_of_range()), calls)
        }
    }
}

/// Re-activation without explicit teardown behaves exactly like teardown
/// followed by activation: same final state, same result, and the call
/// sequence is the teardown calls followed by the fresh activation's
/// calls. In particular no routine set of the first session survives the
/// second.
pub proof fn lemma_activate_idempotent_reinit(s: Lifecycle, magic: [u8; 3],
    lookups: RomLookupResults)
    ensures
        ({
            let direct = s.spec_activate(magic, lookups);
            let td = s.spec_deactivate();
            let then = td.0.spec_activate(magic, lookups);
            &&& direct.0 == then.0
            &&& direct.1 == then.1
            &&& direct.2 == td.2 + then.2
        }),
{
    let direct = s.spec_activate(magic, lookups);
    let td = s.spec_deactivate();
    let then = td.0.spec_activate(magic, lookups);
    assert(direct.2 =~= td.2 + then.2);
}

/// Interface of a flash algorithm as the host-facing entry points drive
/// it: one method per entry point, raw integer arguments, a nonzero
/// [`ErrorCode`] on failure. The runtime's hardware-backed implementation
/// lives outside this crate.
pub trait FlashAlgo: Sized + 'static {
    /// Initialize the flash algorithm.
    fn new(address: u32, clock: u32, function: u32) -> Result<Self, ErrorCode>;

    /// Erase the entire chip.
    fn erase_all(&mut self) -> Result<(), ErrorCode>;

    /// Erase the sector holding `addr`.
    fn erase_sector(&mut self, addr: u32) -> Result<(), ErrorCode>;

    /// Erase `qty` sectors starting at `addr`.
    fn erase_sectors(&mut self, addr: u32, qty: u32) -> Result<(), ErrorCode>;

    /// Program the first `size` bytes of `data` at `addr`.
    fn program_page(&mut self, addr: u32, size: u32, data: &[u8]) -> Result<(), ErrorCode>;
}

} // verus!
