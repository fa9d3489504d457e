use rp2_flash_algo::error::ADDRESS_OUT_OF_RANGE_CODE;
use rp2_flash_algo::region::{to_device_offset, FlashRegion};

#[test]
fn rp2_profile_constants() {
    let region = FlashRegion::rp2();
    assert_eq!(region.base, 0x1000_0000);
    assert_eq!(region.size, 0x0100_0000);
    assert_eq!(region.page_size, 0x100);
    assert_eq!(region.sector_size, 4096);
    assert_eq!(region.block_size, 65536);
    assert_eq!(region.block_erase_cmd, 0xd8);
}

#[test]
fn offset_of_base_is_zero() {
    let region = FlashRegion::rp2();
    assert_eq!(to_device_offset(region.base, &region).unwrap(), 0);
}

#[test]
fn offset_inverts_base_for_valid_addresses() {
    let region = FlashRegion::rp2();
    for k in [1u32, 0x1000, 0x1234, region.size - 1] {
        assert_eq!(to_device_offset(region.base + k, &region).unwrap(), k);
    }
}

#[test]
fn offset_rejects_address_below_base() {
    let region = FlashRegion::rp2();
    let err = to_device_offset(region.base - 1, &region).unwrap_err();
    assert_eq!(err.get(), ADDRESS_OUT_OF_RANGE_CODE);
    let err = to_device_offset(0, &region).unwrap_err();
    assert_eq!(err.get(), ADDRESS_OUT_OF_RANGE_CODE);
}

#[test]
fn offset_rejects_address_past_end() {
    let region = FlashRegion::rp2();
    let err = to_device_offset(region.base + region.size, &region).unwrap_err();
    assert_eq!(err.get(), ADDRESS_OUT_OF_RANGE_CODE);
    let err = to_device_offset(u32::MAX, &region).unwrap_err();
    assert_eq!(err.get(), ADDRESS_OUT_OF_RANGE_CODE);
}
