//! The DMA channel pool, one-shot transfers through a loopback endpoint,
//! cancellation, and hardware configuration rejection.

use imxrt_async_hal::dma::channels;
use imxrt_async_hal::dma::interrupt::on_interrupt;
use imxrt_async_hal::dma::peripheral::receive;
use imxrt_async_hal::dma::peripheral::transfer;
use imxrt_async_hal::dma::peripheral::LoopbackEndpoint;
use imxrt_async_hal::dma::Channel;
use imxrt_async_hal::dma::ServiceOutcome;
use imxrt_async_hal::mem::Memory;
use imxrt_async_hal::Error;
use imxrt_async_hal::Poll;

const REGISTER: usize = 3000;

#[test]
fn pool_acquisition_resets_every_channel() {
    let mut pool = channels();
    assert_eq!(pool.len(), 32);
    for (i, slot) in pool.iter_mut().enumerate() {
        let channel = slot.take().expect("every pool slot holds a channel");
        assert_eq!(channel.channel(), i);
        assert!(channel.descriptor_is_zeroed());
        assert!(!channel.is_enabled());
        assert!(!channel.is_complete());
        assert!(!channel.is_error());
        assert!(!channel.is_interrupt());
    }
}

fn take_channel(index: usize) -> Channel {
    let mut pool = channels();
    pool[index].take().unwrap()
}

/// Run the transmit side: service the armed channel until it completes,
/// draining the loopback register after each minor loop.
fn drain_transfer(channel: &mut Channel, mem: &mut Memory) -> Vec<u8> {
    let mut seen = Vec::new();
    loop {
        match channel.service(mem) {
            ServiceOutcome::Serviced => {
                seen.push(mem.read_byte(REGISTER));
            }
            ServiceOutcome::Completed => {
                seen.push(mem.read_byte(REGISTER));
                return seen;
            }
            other => panic!("transfer stalled: {:?}", other),
        }
    }
}

#[test]
fn loopback_round_trip_returns_the_same_elements() {
    let mut mem = Memory::new(4096);
    let mut channel = take_channel(7);
    let mut device = LoopbackEndpoint::new(REGISTER, 5, 6);

    for round in 0..2u8 {
        // A fresh buffer each round; same channel both rounds.
        let out = vec![
            10 + round,
            20 + round,
            30 + round,
            40 + round,
        ];
        mem.write_bytes(100, &out);
        let mut tx = transfer::<u8, LoopbackEndpoint>(&mut channel, &mut device, 100, out.len());
        assert!(device.destination_on);
        assert!(matches!(tx.poll::<u8, _>(&mut channel, &mut device, 1), Poll::Pending));
        let seen = drain_transfer(&mut channel, &mut mem);
        assert_eq!(seen, out);
        let woken = on_interrupt(&mut channel);
        assert_eq!(woken, vec![1]);
        match tx.poll::<u8, _>(&mut channel, &mut device, 1) {
            Poll::Ready(Ok(n)) => assert_eq!(n, out.len()),
            other => panic!("transmit did not resolve: {:?}", other),
        }
        // The transmit request was withdrawn on resolution.
        assert!(!device.destination_on);

        // Receive the same elements back into a different region.
        let mut rx = receive::<u8, LoopbackEndpoint>(&mut channel, &mut device, 200, seen.len());
        assert!(matches!(rx.poll::<u8, _>(&mut channel, &mut device, 2), Poll::Pending));
        for value in seen.iter() {
            mem.write_byte(REGISTER, *value);
            match channel.service(&mut mem) {
                ServiceOutcome::Serviced | ServiceOutcome::Completed => {}
                other => panic!("receive stalled: {:?}", other),
            }
        }
        let woken = on_interrupt(&mut channel);
        assert_eq!(woken, vec![2]);
        match rx.poll::<u8, _>(&mut channel, &mut device, 2) {
            Poll::Ready(Ok(n)) => assert_eq!(n, seen.len()),
            other => panic!("receive did not resolve: {:?}", other),
        }
        assert_eq!(mem.read_bytes(200, out.len()), out);
        assert!(!channel.is_enabled());
        assert!(!device.source_on);
    }
}

#[test]
fn dropping_a_pending_receive_releases_the_channel() {
    let mut channel = take_channel(3);
    let mut device = LoopbackEndpoint::new(REGISTER, 9, 10);

    let mut rx = receive::<u8, LoopbackEndpoint>(&mut channel, &mut device, 100, 8);
    assert!(device.source_on);
    assert!(matches!(rx.poll::<u8, _>(&mut channel, &mut device, 7), Poll::Pending));
    assert!(channel.is_enabled());

    rx.cancel::<u8, _>(&mut channel, &mut device);
    assert!(!device.source_on);
    assert!(!channel.is_enabled());
    assert!(!channel.is_complete());
    assert!(!channel.is_error());
    assert!(!channel.is_hardware_signaling());
}

#[test]
fn dropping_a_pending_transfer_releases_the_channel() {
    let mut channel = take_channel(4);
    let mut device = LoopbackEndpoint::new(REGISTER, 11, 12);

    let mut tx = transfer::<u8, LoopbackEndpoint>(&mut channel, &mut device, 100, 8);
    assert!(matches!(tx.poll::<u8, _>(&mut channel, &mut device, 7), Poll::Pending));
    channel.set_hardware_signal(true);

    tx.cancel::<u8, _>(&mut channel, &mut device);
    assert!(!device.destination_on);
    assert!(!channel.is_enabled());
    assert!(!channel.is_complete());
    assert!(!channel.is_error());
    assert!(!channel.is_hardware_signaling());
}

#[test]
fn invalid_request_signal_is_rejected_as_setup() {
    let mut channel = take_channel(5);
    // A request-signal identifier the multiplexer does not have.
    let mut device = LoopbackEndpoint::new(REGISTER, 200, 201);

    let mut rx = receive::<u8, LoopbackEndpoint>(&mut channel, &mut device, 100, 4);
    match rx.poll::<u8, _>(&mut channel, &mut device, 3) {
        Poll::Ready(Err(Error::Setup(status))) => assert_ne!(status, 0),
        other => panic!("expected a setup rejection: {:?}", other),
    }
    assert!(!channel.is_enabled());
    assert!(!channel.is_error());
    // The endpoint's request was withdrawn on the failure path too.
    assert!(!device.source_on);
}

#[test]
fn rearming_an_enabled_channel_is_a_scheduled_transfer_error() {
    let mut channel = take_channel(6);
    let mut device = LoopbackEndpoint::new(REGISTER, 5, 6);

    channel.enable();
    let mut rx = receive::<u8, LoopbackEndpoint>(&mut channel, &mut device, 100, 4);
    match rx.poll::<u8, _>(&mut channel, &mut device, 3) {
        Poll::Ready(Err(Error::ScheduledTransfer)) => {}
        other => panic!("expected a scheduled-transfer error: {:?}", other),
    }
}

#[test]
fn out_of_bounds_transfer_faults_the_channel() {
    let mut mem = Memory::new(64);
    let mut channel = take_channel(8);
    let mut device = LoopbackEndpoint::new(1000, 5, 6);

    let mut tx = transfer::<u8, LoopbackEndpoint>(&mut channel, &mut device, 0, 4);
    assert!(matches!(tx.poll::<u8, _>(&mut channel, &mut device, 1), Poll::Pending));
    assert!(matches!(channel.service(&mut mem), ServiceOutcome::Faulted));
    assert!(channel.is_error());
    assert!(!channel.is_enabled());
}
