//! Strongly-typed peripheral instances.

use imxrt_async_hal::instance;
use imxrt_async_hal::instance::Inst;
use imxrt_async_hal::regs::Lpi2cInstance;
use imxrt_async_hal::regs::LpspiInstance;
use imxrt_async_hal::regs::LpuartInstance;

#[test]
fn matching_instance_numbers_wrap() {
    let wrapped = instance::uart::<2>(LpuartInstance::new(2, 0)).unwrap();
    assert_eq!(wrapped.get().index, 2);
    let block = wrapped.release();
    assert_eq!(block.index, 2);
}

#[test]
fn mismatched_instance_numbers_do_not_wrap() {
    assert!(instance::uart::<2>(LpuartInstance::new(3, 0)).is_none());
    assert!(instance::spi::<1>(LpspiInstance::new(4, 0, 0)).is_none());
    assert!(instance::i2c::<4>(Lpi2cInstance::new(1)).is_none());
}

#[test]
fn inst_reports_the_run_time_number() {
    assert_eq!(LpuartInstance::new(7, 0).inst(), 7);
    assert_eq!(LpspiInstance::new(3, 0, 0).inst(), 3);
    assert_eq!(Lpi2cInstance::new(2).inst(), 2);
}

#[test]
fn spi_and_i2c_wrap_on_match() {
    assert!(instance::spi::<4>(LpspiInstance::new(4, 0, 0)).is_some());
    assert!(instance::i2c::<1>(Lpi2cInstance::new(1)).is_some());
}
