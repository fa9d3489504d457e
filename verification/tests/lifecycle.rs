use rp2_flash_algo::algo::{AlgorithmState, HardwareCall, Lifecycle};
use rp2_flash_algo::bootrom::{RomLookupResults, TAG_CONNECT_INTERNAL_FLASH};
use rp2_flash_algo::error::{
    ADDRESS_OUT_OF_RANGE_CODE, NOT_INITIALIZED_CODE, UNIMPLEMENTED_OPERATION_CODE,
};
use rp2_flash_algo::region::FlashRegion;

const GEN_A_MAGIC: [u8; 3] = [0x4d, 0x75, 0x01];

fn all_resolved() -> RomLookupResults {
    RomLookupResults {
        connect_internal_flash: 0x0000_2001,
        flash_exit_xip: 0x0000_2005,
        flash_range_erase: 0x0000_2009,
        flash_range_program: 0x0000_200d,
        flash_flush_cache: 0x0000_2011,
        flash_enter_cmd_xip: 0x0000_2015,
    }
}

fn activated() -> Lifecycle {
    let mut lifecycle = Lifecycle::new(FlashRegion::rp2());
    let (result, _) = lifecycle.activate(GEN_A_MAGIC, &all_resolved());
    assert!(result.is_ok());
    lifecycle
}

#[test]
fn activation_generation_a_succeeds() {
    let mut lifecycle = Lifecycle::new(FlashRegion::rp2());
    let (result, calls) = lifecycle.activate(GEN_A_MAGIC, &all_resolved());
    assert!(result.is_ok());
    assert_eq!(
        calls,
        vec![
            HardwareCall::ConnectInternalFlash,
            HardwareCall::FlashExitXip,
        ]
    );
    assert!(matches!(
        lifecycle.state,
        AlgorithmState::Initialized { .. }
    ));
}

#[test]
fn activation_unrecognized_rom_touches_nothing() {
    let mut lifecycle = Lifecycle::new(FlashRegion::rp2());
    let (result, calls) = lifecycle.activate([0x4d, 0x75, 0x07], &all_resolved());
    let err = result.unwrap_err();
    assert_eq!(err.get(), 0x1000_0000 | TAG_CONNECT_INTERNAL_FLASH as u32);
    assert!(calls.is_empty());
    assert_eq!(lifecycle.state, AlgorithmState::Uninitialized);
}

#[test]
fn failed_resolution_leaves_uninitialized() {
    let mut lifecycle = Lifecycle::new(FlashRegion::rp2());
    let mut lookups = all_resolved();
    lookups.flash_range_program = 0;
    let (result, calls) = lifecycle.activate(GEN_A_MAGIC, &lookups);
    assert!(result.is_err());
    assert!(calls.is_empty());
    assert_eq!(lifecycle.state, AlgorithmState::Uninitialized);
    let (guarded, none) = lifecycle.erase_sector(0x1000_1000);
    assert_eq!(guarded.unwrap_err().get(), NOT_INITIALIZED_CODE);
    assert!(none.is_empty());
}

#[test]
fn reactivation_equals_teardown_then_activation() {
    let mut direct = activated();
    let mut explicit = activated();

    let (direct_result, direct_calls) = direct.activate(GEN_A_MAGIC, &all_resolved());
    let (teardown_result, mut explicit_calls) = explicit.deactivate();
    assert!(teardown_result.is_ok());
    let (explicit_result, fresh_calls) = explicit.activate(GEN_A_MAGIC, &all_resolved());
    explicit_calls.extend(fresh_calls);

    assert!(direct_result.is_ok());
    assert!(explicit_result.is_ok());
    assert_eq!(direct_calls, explicit_calls);
    assert_eq!(direct.state, explicit.state);
    assert_eq!(
        direct_calls,
        vec![
            HardwareCall::FlashFlushCache,
            HardwareCall::FlashEnterCmdXip,
            HardwareCall::ConnectInternalFlash,
            HardwareCall::FlashExitXip,
        ]
    );
}

#[test]
fn operations_guarded_while_uninitialized() {
    let mut lifecycle = Lifecycle::new(FlashRegion::rp2());
    let (result, calls) = lifecycle.erase_sector(0x1000_1000);
    assert_eq!(result.unwrap_err().get(), NOT_INITIALIZED_CODE);
    assert!(calls.is_empty());
    let (result, calls) = lifecycle.erase_sectors(0x1000_0000, 4);
    assert_eq!(result.unwrap_err().get(), NOT_INITIALIZED_CODE);
    assert!(calls.is_empty());
    let (result, calls) = lifecycle.erase_range(0x1000_0000, 0x1002_0000);
    assert_eq!(result.unwrap_err().get(), NOT_INITIALIZED_CODE);
    assert!(calls.is_empty());
    let (result, calls) = lifecycle.erase_all();
    assert_eq!(result.unwrap_err().get(), NOT_INITIALIZED_CODE);
    assert!(calls.is_empty());
    let (result, calls) = lifecycle.program_page(0x1000_0000, &[0xff; 4]);
    assert_eq!(result.unwrap_err().get(), NOT_INITIALIZED_CODE);
    assert!(calls.is_empty());
}

#[test]
fn deactivate_while_uninitialized_is_idempotent() {
    let mut lifecycle = Lifecycle::new(FlashRegion::rp2());
    let (result, calls) = lifecycle.deactivate();
    assert_eq!(result.unwrap_err().get(), NOT_INITIALIZED_CODE);
    assert!(calls.is_empty());
    assert_eq!(lifecycle.state, AlgorithmState::Uninitialized);
}

#[test]
fn deactivate_restores_execute_in_place() {
    let mut lifecycle = activated();
    let (result, calls) = lifecycle.deactivate();
    assert!(result.is_ok());
    assert_eq!(
        calls,
        vec![HardwareCall::FlashFlushCache, HardwareCall::FlashEnterCmdXip]
    );
    assert_eq!(lifecycle.state, AlgorithmState::Uninitialized);
}

#[test]
fn erase_sector_translates_and_forwards() {
    let mut lifecycle = activated();
    let (result, calls) = lifecycle.erase_sector(0x1000_1000);
    assert!(result.is_ok());
    assert_eq!(
        calls,
        vec![HardwareCall::FlashRangeErase {
            offset: 0x1000,
            count: 4096,
            block_size: 65536,
            block_cmd: 0xd8,
        }]
    );
}

#[test]
fn erase_sector_rejects_address_outside_region() {
    let mut lifecycle = activated();
    let (result, calls) = lifecycle.erase_sector(0x0fff_f000);
    assert_eq!(result.unwrap_err().get(), ADDRESS_OUT_OF_RANGE_CODE);
    assert!(calls.is_empty());
}

#[test]
fn erase_sectors_issues_one_span() {
    let mut lifecycle = activated();
    let (result, calls) = lifecycle.erase_sectors(0x1000_2000, 2);
    assert!(result.is_ok());
    assert_eq!(
        calls,
        vec![HardwareCall::FlashRangeErase {
            offset: 0x2000,
            count: 8192,
            block_size: 65536,
            block_cmd: 0xd8,
        }]
    );
}

#[test]
fn erase_sectors_zero_quantity_is_empty_span() {
    let mut lifecycle = activated();
    let (result, calls) = lifecycle.erase_sectors(0x1000_4000, 0);
    assert!(result.is_ok());
    assert_eq!(
        calls,
        vec![HardwareCall::FlashRangeErase {
            offset: 0x4000,
            count: 0,
            block_size: 65536,
            block_cmd: 0xd8,
        }]
    );
}

#[test]
fn erase_sectors_rejects_span_past_end() {
    let mut lifecycle = activated();
    let (result, calls) = lifecycle.erase_sectors(0x10ff_f000, 2);
    assert_eq!(result.unwrap_err().get(), ADDRESS_OUT_OF_RANGE_CODE);
    assert!(calls.is_empty());
    let (result, calls) = lifecycle.erase_sectors(0x1000_0000, u32::MAX);
    assert_eq!(result.unwrap_err().get(), ADDRESS_OUT_OF_RANGE_CODE);
    assert!(calls.is_empty());
}

#[test]
fn erase_range_spans_whole_blocks() {
    let mut lifecycle = activated();
    let (result, calls) = lifecycle.erase_range(0x1000_0000, 0x1002_0000);
    assert!(result.is_ok());
    assert_eq!(
        calls,
        vec![HardwareCall::FlashRangeErase {
            offset: 0,
            count: 0x20000,
            block_size: 65536,
            block_cmd: 0xd8,
        }]
    );
}

#[test]
fn erase_range_rejects_reversed_bounds() {
    let mut lifecycle = activated();
    let (result, calls) = lifecycle.erase_range(0x1002_0000, 0x1000_0000);
    assert_eq!(result.unwrap_err().get(), ADDRESS_OUT_OF_RANGE_CODE);
    assert!(calls.is_empty());
}

#[test]
fn erase_all_reports_unimplemented() {
    let mut lifecycle = activated();
    let (result, calls) = lifecycle.erase_all();
    assert_eq!(result.unwrap_err().get(), UNIMPLEMENTED_OPERATION_CODE);
    assert!(calls.is_empty());
}

#[test]
fn program_page_translates_and_forwards() {
    let mut lifecycle = activated();
    let data = [0xa5u8; 256];
    let (result, calls) = lifecycle.program_page(0x1000_0100, &data);
    assert!(result.is_ok());
    assert_eq!(
        calls,
        vec![HardwareCall::FlashRangeProgram {
            offset: 0x100,
            count: 256,
        }]
    );
}

#[test]
fn program_page_accepts_region_end_boundary() {
    let mut lifecycle = activated();
    let data = [0x5au8; 16];
    let (result, calls) = lifecycle.program_page(0x10ff_fff0, &data);
    assert!(result.is_ok());
    assert_eq!(
        calls,
        vec![HardwareCall::FlashRangeProgram {
            offset: 0x00ff_fff0,
            count: 16,
        }]
    );
}

#[test]
fn program_page_rejects_data_past_end() {
    let mut lifecycle = activated();
    let data = [0x5au8; 17];
    let (result, calls) = lifecycle.program_page(0x10ff_fff0, &data);
    assert_eq!(result.unwrap_err().get(), ADDRESS_OUT_OF_RANGE_CODE);
    assert!(calls.is_empty());
}
