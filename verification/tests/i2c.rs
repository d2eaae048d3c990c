//! The I2C driver: transactions against the master's FIFOs, error
//! reporting, and the clock search.

use imxrt_async_hal::i2c;
use imxrt_async_hal::i2c::commands;
use imxrt_async_hal::i2c::ClockSpeed;
use imxrt_async_hal::i2c::I2c;
use imxrt_async_hal::regs::Lpi2cInstance;
use imxrt_async_hal::Poll;

/// Status with both FIFO readiness flags up: commands suspend only while
/// waiting for bus conditions the test raises itself.
const MSR_FIFOS_READY: u32 = commands::MSR_TDF | commands::MSR_RDF;

#[test]
fn new_resets_and_enables_the_master() {
    let block = Lpi2cInstance::new(3);
    let driver: I2c<(), ()> = I2c::new(block, (), ());
    let (block, _, _) = driver.release();
    assert_eq!(block.mcr, i2c::MCR_MEN);
    assert_eq!(block.mfcr, i2c::MFCR_WATERMARKS);
}

#[test]
fn write_logs_start_bytes_and_stop() {
    let block = Lpi2cInstance::new(1);
    let mut driver: I2c<(), ()> = I2c::new(block, (), ());
    let mut op = driver.write(0x50, vec![0xAA, 0xBB]);
    let regs = driver.registers();
    regs.msr = MSR_FIFOS_READY;
    // Everything enqueues; the machine parks waiting for the stop
    // condition the bus has yet to generate.
    assert!(matches!(op.poll(regs, 1), Poll::Pending));
    regs.msr |= commands::MSR_SDF;
    assert!(matches!(op.poll(regs, 1), Poll::Ready(Ok(()))));
    assert_eq!(
        regs.tx_log,
        vec![
            (4 << 8) | (0x50 << 1),
            0xAA,
            0xBB,
            2 << 8,
        ]
    );
}

#[test]
fn read_collects_the_fifo_bytes_in_order() {
    let block = Lpi2cInstance::new(1);
    let mut driver: I2c<(), ()> = I2c::new(block, (), ());
    let mut op = driver.read(0x1C, 3);
    let regs = driver.registers();
    regs.msr = MSR_FIFOS_READY;
    // The first poll clears the FIFOs and parks waiting for data.
    assert!(matches!(op.poll(regs, 1), Poll::Pending));
    // The device clocks the requested bytes in; the machine collects them
    // and parks on the stop condition.
    regs.rx_fifo = vec![11, 22, 33];
    assert!(matches!(op.poll(regs, 1), Poll::Pending));
    regs.msr |= commands::MSR_SDF;
    assert!(matches!(op.poll(regs, 1), Poll::Ready(Ok(()))));
    assert_eq!(
        regs.tx_log,
        vec![
            (4 << 8) | (0x1C << 1) | 1,
            (1 << 8) | 2,
            2 << 8,
        ]
    );
    assert_eq!(op.into_bytes(), vec![11, 22, 33]);
}

#[test]
fn write_read_exchanges_both_directions() {
    let block = Lpi2cInstance::new(2);
    let mut driver: I2c<(), ()> = I2c::new(block, (), ());
    let mut op = driver.write_read(0x68, vec![0x0F], 2);
    let regs = driver.registers();
    regs.msr = MSR_FIFOS_READY;
    // The machine parks first on the repeated start's end of packet,
    // then — once the device clocks the reply in — on the stop
    // condition, as the bus produces each in turn.
    assert!(matches!(op.poll(regs, 1), Poll::Pending));
    regs.msr |= commands::MSR_EPF;
    regs.rx_fifo = vec![0x55, 0x66];
    assert!(matches!(op.poll(regs, 1), Poll::Pending));
    regs.msr |= commands::MSR_SDF;
    assert!(matches!(op.poll(regs, 1), Poll::Ready(Ok(()))));
    assert_eq!(
        regs.tx_log,
        vec![
            (4 << 8) | (0x68 << 1),
            0x0F,
            (4 << 8) | (0x68 << 1) | 1,
            (1 << 8) | 1,
            2 << 8,
        ]
    );
    assert_eq!(op.into_bytes(), vec![0x55, 0x66]);
}

#[test]
fn busy_master_rejects_a_transaction() {
    let block = Lpi2cInstance::new(1);
    let mut driver: I2c<(), ()> = I2c::new(block, (), ());
    let mut op = driver.write(0x50, vec![1]);
    let regs = driver.registers();
    regs.msr = commands::MSR_MBF;
    assert!(matches!(
        op.poll(regs, 1),
        Poll::Ready(Err(i2c::Error::BusyIsBusy))
    ));
}

#[test]
fn oversized_read_requests_are_rejected() {
    let block = Lpi2cInstance::new(1);
    let mut driver: I2c<(), ()> = I2c::new(block, (), ());
    let mut op = driver.read(0x1C, 300);
    let regs = driver.registers();
    assert!(matches!(
        op.poll(regs, 1),
        Poll::Ready(Err(i2c::Error::RequestTooMuchData))
    ));
}

#[test]
fn a_nack_mid_transaction_fails_it() {
    let block = Lpi2cInstance::new(1);
    let mut driver: I2c<(), ()> = I2c::new(block, (), ());
    let mut op = driver.write(0x50, vec![1]);
    let regs = driver.registers();
    // Transmit not ready: the first poll suspends with interrupts armed.
    assert!(matches!(op.poll(regs, 7), Poll::Pending));
    assert_eq!(regs.waker, Some(7));
    assert_eq!(
        regs.mier,
        commands::MIER_PLTIE | commands::MIER_ALIE | commands::MIER_NDIE | commands::MIER_TDIE
    );
    // The device NACKs; the interrupt handler wakes the task and the next
    // poll reports it.
    regs.msr = commands::MSR_NDF;
    assert_eq!(commands::on_interrupt(regs), Some(7));
    assert!(matches!(
        op.poll(regs, 7),
        Poll::Ready(Err(i2c::Error::UnexpectedNack))
    ));
}

#[test]
fn empty_transactions_resolve_at_once() {
    let block = Lpi2cInstance::new(1);
    let mut driver: I2c<(), ()> = I2c::new(block, (), ());
    let mut w = driver.write(0x50, vec![]);
    let mut r = driver.read(0x50, 0);
    let regs = driver.registers();
    assert!(matches!(w.poll(regs, 1), Poll::Ready(Ok(()))));
    assert!(matches!(r.poll(regs, 1), Poll::Ready(Ok(()))));
    assert!(r.into_bytes().is_empty());
}

#[test]
fn set_clock_speed_is_no_worse_than_any_candidate() {
    let base = 8_000_000u32;
    let block = Lpi2cInstance::new(1);
    let mut driver: I2c<(), ()> = I2c::new(block, (), ());
    driver.set_clock_speed(ClockSpeed::KHz400, base).unwrap();
    let (block, _, _) = driver.release();

    let chosen_p = block.mcfgr1;
    let chosen_clkhi = (block.mccr0 >> 8) & 0xFF;
    assert!(chosen_p <= 7);
    assert!((1..=31).contains(&chosen_clkhi));
    let chosen = candidate_error(base, 400_000, chosen_p, chosen_clkhi);
    for p in 0..=7u32 {
        for clkhi in 1..=31u32 {
            assert!(chosen <= candidate_error(base, 400_000, p, clkhi));
        }
    }
    // The period layout follows the chosen high period.
    let clklo = block.mccr0 & 0xFF;
    if chosen_clkhi < 2 {
        assert_eq!(clklo, 3);
    } else {
        assert_eq!(clklo, chosen_clkhi * 2);
    }
}

fn candidate_error(base: u32, target: u32, p: u32, clkhi: u32) -> u32 {
    let divider = 1u32 << p;
    let rate = if clkhi == 1 {
        (base / divider) / (6 + 2 / divider)
    } else {
        (base / divider) / ((3 * clkhi + 2) + 2 / divider)
    };
    rate.max(target) - rate.min(target)
}
