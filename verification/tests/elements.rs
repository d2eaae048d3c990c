//! Byte images of the element types.

use imxrt_async_hal::dma::Element;

#[test]
fn u8_round_trip() {
    let bytes = 0xABu8.to_bytes();
    assert_eq!(bytes, vec![0xAB]);
    assert_eq!(u8::from_bytes(&bytes), 0xAB);
    assert_eq!(u8::size(), 1);
}

#[test]
fn u16_round_trip() {
    let bytes = 0x1234u16.to_bytes();
    assert_eq!(bytes, vec![0x34, 0x12]);
    assert_eq!(u16::from_bytes(&bytes), 0x1234);
    assert_eq!(u16::size(), 2);
}

#[test]
fn u32_round_trip() {
    let bytes = 0xDEAD_BEEFu32.to_bytes();
    assert_eq!(bytes, vec![0xEF, 0xBE, 0xAD, 0xDE]);
    assert_eq!(u32::from_bytes(&bytes), 0xDEAD_BEEF);
    assert_eq!(u32::size(), 4);
}

#[test]
fn u64_round_trip() {
    let bytes = 0x0102_0304_0506_0708u64.to_bytes();
    assert_eq!(bytes, vec![8, 7, 6, 5, 4, 3, 2, 1]);
    assert_eq!(u64::from_bytes(&bytes), 0x0102_0304_0506_0708);
    assert_eq!(u64::size(), 8);
}

#[test]
fn i32_round_trip() {
    let bytes = (-19i32).to_bytes();
    assert_eq!(i32::from_bytes(&bytes), -19);
    let bytes = i32::MIN.to_bytes();
    assert_eq!(i32::from_bytes(&bytes), i32::MIN);
    assert_eq!(i32::size(), 4);
}
