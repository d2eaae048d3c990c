//! Clock-gate register manipulation and clock-root frequencies.

use imxrt_async_hal::ccm;
use imxrt_async_hal::ccm::gates::set_clock_gate;
use imxrt_async_hal::regs::Lpi2cInstance;
use imxrt_async_hal::regs::LpspiInstance;
use imxrt_async_hal::regs::LpuartInstance;

#[test]
fn test_set_clock_gate() {
    let mut reg = 0;

    set_clock_gate(&mut reg, &vec![3, 7], 0b11);
    assert_eq!(reg, (0b11 << 14) | (0b11 << 6));

    set_clock_gate(&mut reg, &vec![3], 0b1);
    assert_eq!(reg, (0b11 << 14) | (0b01 << 6));
}

#[test]
fn set_clock_gate_leaves_other_fields() {
    let mut reg = 0xFFFF_FFFF;
    set_clock_gate(&mut reg, &vec![0], 0b00);
    assert_eq!(reg, 0xFFFF_FFFC);
}

#[test]
fn frequencies() {
    assert_eq!(ccm::i2c::I2CClock::frequency(), 8_000_000);
    assert_eq!(ccm::perclock::PerClock::frequency(), 1_000_000);
    assert_eq!(ccm::spi::SPIClock::frequency(), 105_600_000);
    assert_eq!(ccm::uart::UARTClock::frequency(), 24_000_000);
}

#[test]
fn i2c_clock_gate_field() {
    let ccm::CCM { mut handle, i2c_clock, .. } = ccm::CCM::new();
    let mut clk = i2c_clock.enable(&mut handle);
    let lpi2c3 = Lpi2cInstance::new(3);
    clk.clock_gate(&mut handle, &lpi2c3, ccm::ClockGate::On);
    // LPI2C3 gates in field 5 of clock-gate register 2.
    assert_eq!(handle.ccgr[2], 0b11 << 10);
    assert_eq!(handle.ccgr[6], 0);
}

#[test]
fn uart_clock_gate_field() {
    let ccm::CCM { mut handle, uart_clock, .. } = ccm::CCM::new();
    let mut clk = uart_clock.enable(&mut handle);
    let lpuart2 = LpuartInstance::new(2, 0);
    clk.clock_gate(&mut handle, &lpuart2, ccm::ClockGate::On);
    // LPUART2 gates in field 14 of clock-gate register 0.
    assert_eq!(handle.ccgr[0], 0b11 << 28);
}

#[test]
fn spi_clock_gate_field() {
    let ccm::CCM { mut handle, spi_clock, .. } = ccm::CCM::new();
    let mut clk = spi_clock.enable(&mut handle);
    let lpspi4 = LpspiInstance::new(4, 0, 0);
    clk.clock_gate(&mut handle, &lpspi4, ccm::ClockGate::OnlyRun);
    // LPSPI4 gates in field 3 of clock-gate register 1.
    assert_eq!(handle.ccgr[1], 0b01 << 6);
}

#[test]
fn gpt_and_pit_clock_gates() {
    let ccm::CCM { mut handle, perclock, .. } = ccm::CCM::new();
    let mut clk = perclock.enable(&mut handle);
    clk.clock_gate_gpt(&mut handle, 1, ccm::ClockGate::On);
    clk.clock_gate_pit(&mut handle, ccm::ClockGate::On);
    // GPT1 gates in fields 10 and 11, the PIT in field 6, of register 1.
    assert_eq!(handle.ccgr[1], (0b11 << 20) | (0b11 << 22) | (0b11 << 12));
}

#[test]
fn uart_root_enable_commits_selector() {
    let ccm::CCM { mut handle, uart_clock, .. } = ccm::CCM::new();
    handle.cscdr1 = 0xFFFF_FFFF;
    let _clk = uart_clock.enable(&mut handle);
    // Divider field cleared, oscillator selected, other bits kept.
    assert_eq!(handle.cscdr1, 0xFFFF_FFC0 | 0x40);
}
