//! The SPI driver: construction, clock divider, and full-duplex DMA.

use imxrt_async_hal::dma::channels;
use imxrt_async_hal::dma::interrupt::on_interrupt;
use imxrt_async_hal::dma::ServiceOutcome;
use imxrt_async_hal::mem::Memory;
use imxrt_async_hal::regs::LpspiInstance;
use imxrt_async_hal::spi;
use imxrt_async_hal::spi::Pins;
use imxrt_async_hal::spi::SPI;
use imxrt_async_hal::Poll;

fn pins() -> Pins<(), (), (), ()> {
    Pins { sdo: (), sdi: (), sck: (), pcs0: () }
}

#[test]
fn new_resets_and_enables_the_module() {
    let block = LpspiInstance::new(4, 300, 301);
    let driver = SPI::new(pins(), block);
    let (_, block) = driver.release();
    assert_eq!(block.cr, spi::CR_MEN);
    assert_eq!(block.cfgr1, spi::CFGR1_MASTER | spi::CFGR1_SAMPLE);
    assert_eq!(block.fcr, spi::FCR_RXWATER_MASK | spi::FCR_TXWATER_MASK);
}

#[test]
fn set_clock_speed_commits_the_divider() {
    let block = LpspiInstance::new(4, 300, 301);
    let mut driver = SPI::new(pins(), block);
    driver.set_clock_speed(1_000_000, 105_600_000).unwrap();
    let (_, block) = driver.release();
    // 105.6 MHz / 1 MHz rounds up to a divider of 106; the register
    // carries it less its implicit two, half of it as the inter-transfer
    // delay, and the fixed chip-select delays.
    let div = 104u32;
    assert_eq!(block.ccr, div | ((div / 2) << 8) | (0x1F << 24) | (0x1F << 16));
    // The module comes back enabled.
    assert_eq!(block.cr, spi::CR_MEN);
}

#[test]
fn full_duplex_exchanges_the_buffer() {
    let mut mem = Memory::new(1024);
    let mut pool = channels();
    let mut rx_channel = pool[9].take().unwrap();
    let mut tx_channel = pool[8].take().unwrap();
    let block = LpspiInstance::new(4, 300, 301);
    let mut driver = SPI::new(pins(), block);

    mem.write_bytes(100, &vec![5u8, 6]);
    let mut fd = driver.dma_full_duplex::<u8>(&mut rx_channel, &mut tx_channel, 100, 2);
    assert!(matches!(
        fd.poll::<u8, _>(&mut rx_channel, &mut tx_channel, &mut driver, 1),
        Poll::Pending
    ));

    // The device replies with the complement of each transmitted element:
    // transmit one element out, then supply the reply and receive it.
    let mut sent = Vec::new();
    for _ in 0..2 {
        let outcome = tx_channel.service(&mut mem);
        assert!(matches!(
            outcome,
            ServiceOutcome::Serviced | ServiceOutcome::Completed
        ));
        let out = mem.read_byte(301);
        sent.push(out);
        mem.write_byte(300, !out);
        let outcome = rx_channel.service(&mut mem);
        assert!(matches!(
            outcome,
            ServiceOutcome::Serviced | ServiceOutcome::Completed
        ));
    }
    assert_eq!(sent, vec![5, 6]);

    assert_eq!(on_interrupt(&mut rx_channel), vec![1]);
    assert_eq!(on_interrupt(&mut tx_channel), vec![1]);
    assert!(matches!(
        fd.poll::<u8, _>(&mut rx_channel, &mut tx_channel, &mut driver, 1),
        Poll::Ready(Ok(2))
    ));
    // The buffer now holds the device's replies.
    assert_eq!(mem.read_bytes(100, 2), vec![!5u8, !6u8]);
    assert!(!rx_channel.is_enabled());
    assert!(!tx_channel.is_enabled());
}
