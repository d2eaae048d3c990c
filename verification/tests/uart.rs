//! The UART driver: baud timing search, register commits, and DMA writes
//! through the model engine.

use imxrt_async_hal::dma::channels;
use imxrt_async_hal::dma::interrupt::on_interrupt;
use imxrt_async_hal::dma::ServiceOutcome;
use imxrt_async_hal::mem::Memory;
use imxrt_async_hal::regs::LpuartInstance;
use imxrt_async_hal::uart;
use imxrt_async_hal::uart::timings;
use imxrt_async_hal::uart::UART;
use imxrt_async_hal::Poll;

#[test]
fn timings_finds_an_exact_division() {
    // 24 MHz / (4 * 625) == 9600 exactly; the search keeps the first
    // minimum, at the lowest oversampling ratio.
    let t = timings(24_000_000, 9600).unwrap();
    assert_eq!(t.osr, 3);
    assert_eq!(t.sbr, 625);
    assert!(t.both_edge);
}

#[test]
fn timings_rejects_a_zero_baud() {
    assert!(matches!(timings(24_000_000, 0), Err(uart::Error::Clock)));
}

#[test]
fn timings_is_no_worse_than_any_candidate() {
    let effective_clock = 24_000_000u32;
    let baud = 115_200u32;
    let t = timings(effective_clock, baud).unwrap();
    let chosen = candidate_error(effective_clock, baud, (t.osr as u32) + 1);
    for osr in 4..=32u32 {
        assert!(chosen <= candidate_error(effective_clock, baud, osr));
    }
}

fn candidate_error(effective_clock: u32, baud: u32, osr: u32) -> u32 {
    let sbr = (effective_clock / baud / osr).clamp(1, 8191);
    let eff = effective_clock / (osr * sbr);
    eff.max(baud) - eff.min(baud)
}

#[test]
fn new_enables_transmitter_and_receiver() {
    let block = LpuartInstance::new(2, 500);
    let driver: UART<(), ()> = UART::new(block, (), ());
    let (_, _, block) = driver.release();
    assert_eq!(block.ctrl, uart::CTRL_TE | uart::CTRL_RE);
}

#[test]
fn set_baud_commits_the_chosen_timing() {
    let block = LpuartInstance::new(1, 500);
    let mut driver: UART<(), ()> = UART::new(block, (), ());
    driver.set_baud(9600, 24_000_000).unwrap();
    let (_, _, block) = driver.release();
    // Ratio 4 (register 3), divisor 625, both-edge sampling.
    assert_eq!(
        block.baud,
        (3 << uart::BAUD_OSR_SHIFT) | 625 | uart::BAUD_BOTHEDGE
    );
    // The transmitter and receiver come back enabled.
    assert_eq!(block.ctrl, uart::CTRL_TE | uart::CTRL_RE);
}

#[test]
fn dma_write_moves_the_buffer_to_the_data_register() {
    let mut mem = Memory::new(1024);
    let mut pool = channels();
    let mut channel = pool[7].take().unwrap();
    let block = LpuartInstance::new(2, 500);
    let mut driver: UART<(), ()> = UART::new(block, (), ());

    mem.write_bytes(64, &vec![b'h', b'i']);
    let mut tx = driver.dma_write(&mut channel, 64, 2);
    assert!(matches!(tx.poll(&mut channel, &mut driver, 1), Poll::Pending));

    let mut seen = Vec::new();
    assert!(matches!(channel.service(&mut mem), ServiceOutcome::Serviced));
    seen.push(mem.read_byte(500));
    assert!(matches!(channel.service(&mut mem), ServiceOutcome::Completed));
    seen.push(mem.read_byte(500));
    assert_eq!(seen, vec![b'h', b'i']);

    assert_eq!(on_interrupt(&mut channel), vec![1]);
    assert!(matches!(tx.poll(&mut channel, &mut driver, 1), Poll::Ready(Ok(2))));
}

#[test]
fn dma_read_fills_the_buffer_from_the_data_register() {
    let mut mem = Memory::new(1024);
    let mut pool = channels();
    let mut channel = pool[8].take().unwrap();
    let block = LpuartInstance::new(3, 700);
    let mut driver: UART<(), ()> = UART::new(block, (), ());

    let mut rx = driver.dma_read(&mut channel, 80, 3);
    assert!(matches!(rx.poll(&mut channel, &mut driver, 9), Poll::Pending));

    for value in [7u8, 8, 9] {
        mem.write_byte(700, value);
        let outcome = channel.service(&mut mem);
        assert!(matches!(
            outcome,
            ServiceOutcome::Serviced | ServiceOutcome::Completed
        ));
    }
    assert_eq!(on_interrupt(&mut channel), vec![9]);
    assert!(matches!(rx.poll(&mut channel, &mut driver, 9), Poll::Ready(Ok(3))));
    assert_eq!(mem.read_bytes(80, 3), vec![7, 8, 9]);
}
