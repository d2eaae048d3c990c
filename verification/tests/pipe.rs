//! The rendezvous pipe: ordering, order-independence, and cancellation.

use imxrt_async_hal::dma::channels;
use imxrt_async_hal::dma::interrupt::on_interrupt;
use imxrt_async_hal::dma::pipe;
use imxrt_async_hal::dma::Channel;
use imxrt_async_hal::dma::Element;
use imxrt_async_hal::dma::ServiceOutcome;
use imxrt_async_hal::mem::Memory;
use imxrt_async_hal::Error;
use imxrt_async_hal::Poll;

fn take_channel(index: usize) -> Channel {
    let mut pool = channels();
    pool[index].take().unwrap()
}

/// Drive the armed pipe transaction to completion and run the interrupt
/// handler; returns the resumption tokens it woke.
fn run_transaction(channel: &mut Channel, mem: &mut Memory) -> Vec<u32> {
    loop {
        match channel.service(mem) {
            ServiceOutcome::Serviced => {}
            ServiceOutcome::Completed => break,
            other => panic!("pipe transaction stalled: {:?}", other),
        }
    }
    on_interrupt(channel)
}

/// One complete send/receive handshake of `value`, sender registering
/// first.
fn exchange<E: Element + core::fmt::Debug + PartialEq>(
    sender: &mut pipe::Sender<E>,
    receiver: &mut pipe::Receiver<E>,
    channel: &mut Channel,
    mem: &mut Memory,
    value: E,
) -> E {
    assert!(matches!(sender.send(channel, mem, &value, 1), Poll::Pending));
    assert!(matches!(receiver.receive(channel, mem, 2), Poll::Pending));
    let woken = run_transaction(channel, mem);
    assert_eq!(woken, vec![1, 2]);
    assert!(matches!(sender.send(channel, mem, &value, 1), Poll::Ready(Ok(()))));
    match receiver.receive(channel, mem, 2) {
        Poll::Ready(Ok(received)) => received,
        other => panic!("receive did not resolve: {:?}", other),
    }
}

#[test]
fn pipe_preserves_order() {
    let mut mem = Memory::new(256);
    let mut channel = take_channel(11);
    let (mut tx, mut rx) = pipe::new::<u16>(&mut channel, &mut mem);

    let sent = vec![500u16, 12, 65535, 7, 7, 0];
    let mut got = Vec::new();
    for v in sent.iter() {
        got.push(exchange(&mut tx, &mut rx, &mut channel, &mut mem, *v));
    }
    assert_eq!(got, sent);
}

#[test]
fn pipe_is_order_independent() {
    let mut mem = Memory::new(256);
    let mut channel = take_channel(12);
    let (mut tx, mut rx) = pipe::new::<u32>(&mut channel, &mut mem);

    // The receiver registers first; the sender arrives second and
    // triggers the transaction.
    assert!(matches!(rx.receive(&mut channel, &mem, 2), Poll::Pending));
    assert!(matches!(tx.send(&mut channel, &mut mem, &0xDEAD_BEEFu32, 1), Poll::Pending));
    let woken = run_transaction(&mut channel, &mut mem);
    assert_eq!(woken, vec![1, 2]);
    assert!(matches!(tx.send(&mut channel, &mut mem, &0xDEAD_BEEFu32, 1), Poll::Ready(Ok(()))));
    match rx.receive(&mut channel, &mem, 2) {
        Poll::Ready(Ok(v)) => assert_eq!(v, 0xDEAD_BEEF),
        other => panic!("receive did not resolve: {:?}", other),
    }
}

#[test]
fn pipe_of_twenty_integers_then_cancellation() {
    let mut mem = Memory::new(256);
    let mut channel = take_channel(13);
    let (mut tx, mut rx) = pipe::new::<i32>(&mut channel, &mut mem);

    // Task A sends 0 through 19; task B observes them in order.
    for v in 0..20i32 {
        let got = exchange(&mut tx, &mut rx, &mut channel, &mut mem, v);
        assert_eq!(got, v);
    }

    // Task A drops its sender; the 21st receive resolves cancelled.
    let woken = tx.close(&mut channel);
    assert_eq!(woken, None);
    assert!(matches!(
        rx.receive(&mut channel, &mem, 2),
        Poll::Ready(Err(Error::Cancelled))
    ));
}

#[test]
fn dropping_the_sender_wakes_and_cancels_a_pending_receive() {
    let mut mem = Memory::new(256);
    let mut channel = take_channel(14);
    let (tx, mut rx) = pipe::new::<u32>(&mut channel, &mut mem);

    // The receive is pending with its token parked.
    assert!(matches!(rx.receive(&mut channel, &mem, 42), Poll::Pending));

    // Dropping the sender hands back the receiver's token so the task can
    // be resumed to observe the cancellation.
    let woken = tx.close(&mut channel);
    assert_eq!(woken, Some(42));

    // The next poll resolves cancelled, and so does every one after it.
    assert!(matches!(
        rx.receive(&mut channel, &mem, 42),
        Poll::Ready(Err(Error::Cancelled))
    ));
    assert!(matches!(
        rx.receive(&mut channel, &mem, 42),
        Poll::Ready(Err(Error::Cancelled))
    ));
    assert!(!channel.is_enabled());
}

#[test]
fn dropping_the_receiver_cancels_the_sender() {
    let mut mem = Memory::new(256);
    let mut channel = take_channel(15);
    let (mut tx, rx) = pipe::new::<u8>(&mut channel, &mut mem);

    assert!(matches!(tx.send(&mut channel, &mut mem, &9u8, 5), Poll::Pending));
    let woken = rx.close(&mut channel);
    assert_eq!(woken, Some(5));
    assert!(matches!(
        tx.send(&mut channel, &mut mem, &9u8, 5),
        Poll::Ready(Err(Error::Cancelled))
    ));
}

#[test]
fn abandoning_a_send_clears_the_handshake() {
    let mut mem = Memory::new(256);
    let mut channel = take_channel(16);
    let (mut tx, mut rx) = pipe::new::<u32>(&mut channel, &mut mem);

    assert!(matches!(tx.send(&mut channel, &mut mem, &1u32, 1), Poll::Pending));
    tx.cancel(&mut channel);
    assert!(!channel.is_enabled());

    // The receiver is not cancelled — the sender still exists — it simply
    // keeps waiting.
    assert!(matches!(rx.receive(&mut channel, &mem, 2), Poll::Pending));
}
