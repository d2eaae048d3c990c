//! Cross-task communication over one DMA channel: a rendezvous, single-item
//! pipe.
//!
//! [`new`] splits one channel into a [`Sender`] and a [`Receiver`]. Each half
//! owns one shared slot of the same channel — sender slot 0, receiver slot 1
//! — and each call marks its own slot ready, fills in its half of the
//! transfer descriptor, and parks its resumption token. Whichever half
//! registers second finds the peer already pending and triggers the single
//! hardware transaction, because the descriptor needs both halves before it
//! is valid. That makes `send` and `receive` order-independent across tasks.
//!
//! Dropping either half marks its slot dropped and wakes the peer; the
//! surviving half then resolves with `Cancelled` on its next poll and on
//! every call thereafter — a dropped slot never transitions again.

use vstd::prelude::*;

use core::marker::PhantomData;

use crate::dma::interrupt::COMPLETE;
use crate::dma::interrupt::DROPPED;
use crate::dma::interrupt::PENDING;
use crate::dma::interrupt::READY;
use crate::dma::interrupt::UNDEFINED;
use crate::dma::Channel;
use crate::dma::ChannelView;
use crate::dma::Element;
use crate::dma::SlotView;
use crate::dma::Transfer;
use crate::dma::TriggerSelect;
use crate::dma::ADDRESS_LIMIT;
use crate::mem::Memory;
use crate::Error;
use crate::Poll;

verus! {

/// The sending half of a pipe.
pub struct Sender<E> {
    staging: usize,
    _element: PhantomData<E>,
}

/// The receiving half of a pipe.
pub struct Receiver<E> {
    landing: usize,
    _element: PhantomData<E>,
}

impl<E> Sender<E> {
    /// Address of the staging region the sender's half of the descriptor
    /// reads from.
    pub closed spec fn staging(&self) -> usize {
        self.staging
    }
}

impl<E> Receiver<E> {
    /// Address of the landing region the receiver's half of the descriptor
    /// writes to.
    pub closed spec fn landing(&self) -> usize {
        self.landing
    }
}

/// Create both halves of a pipe over `channel`.
///
/// The channel is placed, once, into always-on mode with the completion
/// interrupt armed and disable-on-completion set; a staging region for the
/// sender and a landing region for the receiver are reserved in `mem`.
pub fn new<E: Element>(channel: &mut Channel, mem: &mut Memory) -> (halves: (Sender<E>, Receiver<E>))
    requires
        old(mem).reserved() + 2 * E::size_spec() <= old(mem)@.len(),
        old(mem)@.len() <= ADDRESS_LIMIT,
    ensures
        final(channel)@ == (ChannelView {
            trigger: TriggerSelect::AlwaysOn,
            int_on_completion: true,
            disable_on_completion: true,
            ..old(channel)@
        }),
        final(mem)@ == old(mem)@,
        final(mem).reserved() == old(mem).reserved() + 2 * E::size_spec(),
        halves.0.staging() == old(mem).reserved(),
        halves.1.landing() == old(mem).reserved() + E::size_spec(),
{
    channel.set_always_on();
    channel.set_interrupt_on_completion(true);
    channel.set_disable_on_completion(true);
    let esize = E::size();
    let staging = match mem.reserve(esize) {
        Some(addr) => addr,
        None => {
            proof {
                assert(false);
            }
            0
        },
    };
    let landing = match mem.reserve(esize) {
        Some(addr) => addr,
        None => {
            proof {
                assert(false);
            }
            0
        },
    };
    (
        Sender { staging, _element: PhantomData },
        Receiver { landing, _element: PhantomData },
    )
}

/// The channel after a resolved pipe call has torn itself down: channel
/// disabled and the caller's own slot back to undefined.
pub open spec fn spec_torn_down(c: ChannelView, slot: int) -> ChannelView {
    let cleared = if slot == 0 {
        ChannelView { slot0: SlotView { state: UNDEFINED, ..c.slot0 }, ..c }
    } else {
        ChannelView { slot1: SlotView { state: UNDEFINED, ..c.slot1 }, ..c }
    };
    ChannelView { enabled: false, started: false, ..cleared }
}

/// Exactly what one [`Sender::send`] poll does, as a function of the
/// channel, the memory, the staged byte image of the value, and the token:
/// the new channel, the new memory, and the resolution.
pub open spec fn spec_send_poll(
    c: ChannelView,
    m: Seq<u8>,
    staging: int,
    bytes: Seq<u8>,
    waker: u32,
) -> (ChannelView, Seq<u8>, Poll<Result<(), Error>>) {
    let s0: u32 = if c.slot0.state == UNDEFINED {
        READY
    } else {
        c.slot0.state
    };
    if c.slot1.state == DROPPED {
        (spec_torn_down(c, 0), m, Poll::Ready(Result::<(), Error>::Err(Error::Cancelled)))
    } else if s0 == READY {
        let staged = Seq::new(
            m.len(),
            |i: int|
                if staging <= i < staging + bytes.len() {
                    bytes[i - staging]
                } else {
                    m[i]
                },
        );
        let armed = ChannelView {
            saddr: staging as u64,
            soff: 1u64,
            smod: 0u8,
            slast: (-(bytes.len() as int)) as i64,
            nbytes: 1u32,
            citer: bytes.len() as u16,
            biter: bytes.len() as u16,
            slot0: SlotView { state: PENDING, waker: Some(waker) },
            ..c
        };
        let fired = if c.slot1.state == PENDING {
            ChannelView { enabled: true, started: true, ..armed }
        } else {
            armed
        };
        (fired, staged, Poll::<Result<(), Error>>::Pending)
    } else if s0 == COMPLETE {
        (spec_torn_down(c, 0), m, Poll::Ready(Result::<(), Error>::Ok(())))
    } else {
        (c, m, Poll::<Result<(), Error>>::Pending)
    }
}

/// Exactly what one [`Receiver::receive`] poll does. On success the
/// resolution carries the bytes found in the landing region.
pub open spec fn spec_receive_poll(c: ChannelView, m: Seq<u8>, landing: int, esize: nat, waker: u32) -> (
    ChannelView,
    Poll<Result<Seq<u8>, Error>>,
) {
    let s1: u32 = if c.slot1.state == UNDEFINED {
        READY
    } else {
        c.slot1.state
    };
    if c.slot0.state == DROPPED {
        (spec_torn_down(c, 1), Poll::Ready(Result::<Seq<u8>, Error>::Err(Error::Cancelled)))
    } else if s1 == READY {
        let armed = ChannelView {
            daddr: landing as u64,
            doff: 1u64,
            dmod: 0u8,
            dlast: (-(esize as int)) as i64,
            slot1: SlotView { state: PENDING, waker: Some(waker) },
            ..c
        };
        let fired = if c.slot0.state == PENDING {
            ChannelView { enabled: true, started: true, ..armed }
        } else {
            armed
        };
        (fired, Poll::<Result<Seq<u8>, Error>>::Pending)
    } else if s1 == COMPLETE {
        (
            spec_torn_down(c, 1),
            Poll::Ready(Result::<Seq<u8>, Error>::Ok(m.subrange(landing, landing + esize))),
        )
    } else {
        (c, Poll::<Result<Seq<u8>, Error>>::Pending)
    }
}

impl<E: Element> Sender<E> {
    /// One poll of a send of `value`: await the receiving half, and
    /// transmit once the receiver is ready.
    ///
    /// If the receiver's slot is dropped, resolves immediately and
    /// permanently with `Cancelled`. On the first poll the value's bytes
    /// are staged, the sender's half of the descriptor is written, the
    /// token is parked, and — only if the receiver is already pending —
    /// the channel is enabled and software-started. Resolves `Ok` once the
    /// interrupt handler has marked the slot complete.
    pub fn send(&mut self, channel: &mut Channel, mem: &mut Memory, value: &E, waker: u32) -> (r:
        Poll<Result<(), Error>>)
        requires
            old(self).staging() + E::size_spec() <= old(mem)@.len(),
            old(mem)@.len() <= ADDRESS_LIMIT,
            old(channel)@.trigger == TriggerSelect::AlwaysOn,
        ensures
            (final(channel)@, final(mem)@, r) == spec_send_poll(
                old(channel)@,
                old(mem)@,
                old(self).staging() as int,
                value.to_bytes_spec(),
                waker,
            ),
            final(self).staging() == old(self).staging(),
            final(mem).reserved() == old(mem).reserved(),
    {
        if channel.shared(0).state() == UNDEFINED {
            channel.set_shared_state(0, READY);
        }
        let sender_state = channel.shared(0).state();
        let receiver_state = channel.shared(1).state();
        if receiver_state == DROPPED {
            channel.disable();
            channel.set_shared_state(0, UNDEFINED);
            Poll::Ready(Err(Error::Cancelled))
        } else if sender_state == READY {
            let esize = E::size();
            let bytes = value.to_bytes();
            let len = bytes.len();
            mem.write_bytes(self.staging, &bytes);
            channel.set_minor_loop_elements::<u8>(1);
            channel.set_transfer_iterations(len as u16);
            let half = Transfer::buffer_linear(self.staging, len, 1);
            channel.set_source_transfer(&half);
            channel.set_shared_waker(0, Some(waker));
            channel.set_shared_state(0, PENDING);
            if receiver_state == PENDING {
                channel.enable();
                channel.start();
            }
            assert(mem@ =~= spec_send_poll(
                old(channel)@,
                old(mem)@,
                self.staging() as int,
                value.to_bytes_spec(),
                waker,
            ).1);
            Poll::Pending
        } else if sender_state == COMPLETE {
            channel.disable();
            channel.set_shared_state(0, UNDEFINED);
            Poll::Ready(Ok(()))
        } else {
            Poll::Pending
        }
    }

    /// Abandon an in-flight send before completion: the channel is
    /// disabled and the sender's slot returns to undefined, so no
    /// half-armed transaction survives the call.
    pub fn cancel(&mut self, channel: &mut Channel)
        ensures
            final(channel)@ == spec_torn_down(old(channel)@, 0),
            final(self).staging() == old(self).staging(),
    {
        channel.disable();
        channel.set_shared_state(0, UNDEFINED);
    }

    /// Drop the sending half: its slot is marked dropped — permanently —
    /// and the token parked in the receiver's slot, if any, is taken and
    /// returned so the waiting task can be resumed to observe the
    /// cancellation.
    pub fn close(self, channel: &mut Channel) -> (woken: Option<u32>)
        ensures
            final(channel)@ == (ChannelView {
                slot0: (SlotView { state: DROPPED, ..old(channel)@.slot0 }),
                slot1: (SlotView { waker: None::<u32>, ..old(channel)@.slot1 }),
                ..old(channel)@
            }),
            woken == old(channel)@.slot1.waker,
    {
        channel.set_shared_state(0, DROPPED);
        channel.take_shared_waker(1)
    }
}

impl<E: Element> Receiver<E> {
    /// One poll of a receive: await the sending half, and resolve with the
    /// transferred value once the transaction completes.
    pub fn receive(&mut self, channel: &mut Channel, mem: &Memory, waker: u32) -> (r: Poll<
        Result<E, Error>,
    >)
        requires
            old(self).landing() + E::size_spec() <= mem@.len(),
            mem@.len() <= ADDRESS_LIMIT,
            old(channel)@.trigger == TriggerSelect::AlwaysOn,
        ensures
            ({
                let (c_post, r_spec) = spec_receive_poll(
                    old(channel)@,
                    mem@,
                    old(self).landing() as int,
                    E::size_spec(),
                    waker,
                );
                &&& final(channel)@ == c_post
                &&& match (r, r_spec) {
                    (Poll::Pending, Poll::Pending) => true,
                    (Poll::Ready(Err(e)), Poll::Ready(Err(e2))) => e == e2,
                    (Poll::Ready(Ok(v)), Poll::Ready(Ok(bytes))) => v
                        == E::from_bytes_spec(bytes),
                    _ => false,
                }
            }),
            final(self).landing() == old(self).landing(),
    {
        if channel.shared(1).state() == UNDEFINED {
            channel.set_shared_state(1, READY);
        }
        let receiver_state = channel.shared(1).state();
        let sender_state = channel.shared(0).state();
        if sender_state == DROPPED {
            channel.disable();
            channel.set_shared_state(1, UNDEFINED);
            Poll::Ready(Err(Error::Cancelled))
        } else if receiver_state == READY {
            let esize = E::size();
            let half = Transfer::buffer_linear(self.landing, esize, 1);
            channel.set_destination_transfer(&half);
            channel.set_shared_waker(1, Some(waker));
            channel.set_shared_state(1, PENDING);
            if sender_state == PENDING {
                channel.enable();
                channel.start();
            }
            Poll::Pending
        } else if receiver_state == COMPLETE {
            let bytes = mem.read_bytes(self.landing, E::size());
            let value = E::from_bytes(&bytes);
            channel.disable();
            channel.set_shared_state(1, UNDEFINED);
            Poll::Ready(Ok(value))
        } else {
            Poll::Pending
        }
    }

    /// Abandon an in-flight receive before completion; the mirror of
    /// [`Sender::cancel`].
    pub fn cancel(&mut self, channel: &mut Channel)
        ensures
            final(channel)@ == spec_torn_down(old(channel)@, 1),
            final(self).landing() == old(self).landing(),
    {
        channel.disable();
        channel.set_shared_state(1, UNDEFINED);
    }

    /// Drop the receiving half; the mirror of [`Sender::close`].
    pub fn close(self, channel: &mut Channel) -> (woken: Option<u32>)
        ensures
            final(channel)@ == (ChannelView {
                slot1: (SlotView { state: DROPPED, ..old(channel)@.slot1 }),
                slot0: (SlotView { waker: None::<u32>, ..old(channel)@.slot0 }),
                ..old(channel)@
            }),
            woken == old(channel)@.slot0.waker,
    {
        channel.set_shared_state(1, DROPPED);
        channel.take_shared_waker(0)
    }
}

} // verus!
