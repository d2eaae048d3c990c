//! GPIO inputs and outputs, trigger selection, and the bank's interrupt
//! handler.

use imxrt_async_hal::gpio;
use imxrt_async_hal::gpio::GpioBank;
use imxrt_async_hal::gpio::Pad;
use imxrt_async_hal::gpio::Trigger;
use imxrt_async_hal::gpio::GPIO;
use imxrt_async_hal::Poll;

#[test]
fn output_drives_clears_and_toggles() {
    let mut bank = GpioBank::new(2);
    let pin = GPIO::new(Pad { module: 2, offset: 3 });
    let mut out = pin.output(&mut bank);
    assert_eq!(bank.gdir, 1 << 3);

    out.set(&mut bank);
    assert!(out.is_set(&bank));
    assert_eq!(bank.dr, 1 << 3);

    out.toggle(&mut bank);
    assert!(!out.is_set(&bank));

    out.set(&mut bank);
    out.clear(&mut bank);
    assert_eq!(bank.dr, 0);

    let _back = out.input(&mut bank);
    assert_eq!(bank.gdir, 0);
}

#[test]
fn input_reads_the_pad_status() {
    let mut bank = GpioBank::new(1);
    let pin = GPIO::new(Pad { module: 1, offset: 14 });
    assert!(!pin.is_set(&bank));
    bank.psr = 1 << 14;
    assert!(pin.is_set(&bank));
}

#[test]
fn trigger_selection_commits_the_configuration() {
    let mut bank = GpioBank::new(1);
    let mut pin = GPIO::new(Pad { module: 1, offset: 14 });

    pin.set_trigger(&mut bank, Trigger::FallingEdge);
    // Pad 14 configures in the low configuration register, two bits per
    // pad; a falling edge is field value three.
    assert_eq!((bank.icr1 >> 28) & 0b11, 3);
    assert_eq!(bank.edge_sel & (1 << 14), 0);

    pin.set_trigger(&mut bank, Trigger::EitherEdge);
    assert_eq!(bank.edge_sel & (1 << 14), 1 << 14);

    let mut high_pin = GPIO::new(Pad { module: 1, offset: 20 });
    high_pin.set_trigger(&mut bank, Trigger::RisingEdge);
    // Pad 20 configures in the high configuration register.
    assert_eq!((bank.icr2 >> 8) & 0b11, 2);
}

#[test]
fn wait_for_parks_and_resolves_on_the_interrupt() {
    let mut bank = GpioBank::new(5);
    let mut pin = GPIO::new(Pad { module: 5, offset: 6 });

    let mut wait = pin.wait_for(Trigger::RisingEdge);
    assert!(matches!(wait.poll(&mut pin, &mut bank, 31), Poll::Pending));
    assert_eq!(bank.wakers[6], Some(31));
    assert_eq!(bank.imr & (1 << 6), 1 << 6);
    assert!(matches!(wait.poll(&mut pin, &mut bank, 31), Poll::Pending));

    // The edge fires: the handler acknowledges, masks, and wakes.
    bank.isr = 1 << 6;
    let woken = gpio::on_interrupt(&mut bank);
    assert_eq!(woken, vec![31]);
    assert_eq!(bank.isr, 0);
    assert_eq!(bank.imr & (1 << 6), 0);

    assert!(matches!(wait.poll(&mut pin, &mut bank, 31), Poll::Ready(())));
}

#[test]
fn interrupt_handler_only_wakes_signaled_pads() {
    let mut bank = GpioBank::new(1);
    bank.wakers[2] = Some(100);
    bank.wakers[9] = Some(200);
    bank.wakers[30] = Some(300);
    bank.imr = (1 << 2) | (1 << 9) | (1 << 30);
    bank.isr = (1 << 2) | (1 << 30);

    let woken = gpio::on_interrupt(&mut bank);
    assert_eq!(woken, vec![100, 300]);
    assert_eq!(bank.wakers[9], Some(200));
    assert_eq!(bank.imr, 1 << 9);
}

#[test]
fn cancelling_a_wait_clears_the_slot() {
    let mut bank = GpioBank::new(1);
    let mut pin = GPIO::new(Pad { module: 1, offset: 0 });
    let mut wait = pin.wait_for(Trigger::Low);
    assert!(matches!(wait.poll(&mut pin, &mut bank, 8), Poll::Pending));
    wait.cancel(&pin, &mut bank);
    assert_eq!(bank.wakers[0], None);
    assert_eq!(bank.imr, 0);
}
