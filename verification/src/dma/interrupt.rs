//! DMA interrupts and shared state.
//!
//! Each channel carries [`NUM_SHARED_STATES`] shared slots: a status word and
//! a parked resumption token. Exactly two actors touch a slot: the owning
//! operation (which records the token and moves the status between ready,
//! pending, and dropped) and the interrupt handler [`on_interrupt`] (which
//! marks every slot of a completed channel [`COMPLETE`] and takes the parked
//! tokens so the scheduler can resume the waiting tasks).

use vstd::prelude::*;

use crate::dma::Channel;
use crate::dma::ChannelView;
use crate::dma::SlotView;
use crate::Error;
use crate::Poll;

verus! {

/// Shared slots per channel: slot 0 for one-shot operations and pipe
/// senders, slot 1 for pipe receivers.
pub const NUM_SHARED_STATES: usize = 2;

/// Slot status: nothing in progress.
pub const UNDEFINED: u32 = 0;

/// Slot status: armed parameters not yet committed to hardware.
pub const READY: u32 = 1;

/// Slot status: hardware armed, resumption token recorded.
pub const PENDING: u32 = 2;

/// Slot status: the interrupt handler observed completion.
pub const COMPLETE: u32 = 3;

/// Slot status: the owning half was dropped; never transitions again.
pub const DROPPED: u32 = 4;

/// Shared state between the interrupt handler and a suspended operation.
pub struct Shared {
    state: u32,
    /// The parked resumption token of the suspended task, if any.
    pub waker: Option<u32>,
}

impl View for Shared {
    type V = SlotView;

    closed spec fn view(&self) -> SlotView {
        SlotView { state: self.state, waker: self.waker }
    }
}

impl Shared {
    /// A slot with nothing in progress and no parked token.
    pub fn new() -> (s: Shared)
        ensures
            s@ == (SlotView { state: UNDEFINED, waker: None::<u32> }),
    {
        Shared { state: UNDEFINED, waker: None }
    }

    /// Store a new status word.
    pub fn set_state(&mut self, state: u32)
        ensures
            final(self)@ == (SlotView { state: state, ..old(self)@ }),
    {
        self.state = state;
    }

    /// Read the status word.
    pub fn state(&self) -> (s: u32)
        ensures
            s == self@.state,
    {
        self.state
    }
}

impl Channel {
    /// Borrow the shared slot `slot` of this channel.
    pub fn shared(&self, slot: usize) -> (s: &Shared)
        requires
            slot < NUM_SHARED_STATES,
        ensures
            s@ == spec_slot(self@, slot as int),
    {
        if slot == 0 {
            &self.slot0
        } else {
            &self.slot1
        }
    }

    /// Store `state` into the shared slot `slot`.
    pub fn set_shared_state(&mut self, slot: usize, state: u32)
        requires
            slot < NUM_SHARED_STATES,
        ensures
            final(self)@ == spec_set_slot(
                old(self)@,
                slot as int,
                (SlotView { state: state, ..spec_slot(old(self)@, slot as int) }),
            ),
    {
        if slot == 0 {
            self.slot0.set_state(state);
        } else {
            self.slot1.set_state(state);
        }
    }

    /// Park `waker` in the shared slot `slot` (or clear it with `None`).
    pub fn set_shared_waker(&mut self, slot: usize, waker: Option<u32>)
        requires
            slot < NUM_SHARED_STATES,
        ensures
            final(self)@ == spec_set_slot(
                old(self)@,
                slot as int,
                (SlotView { waker: waker, ..spec_slot(old(self)@, slot as int) }),
            ),
    {
        if slot == 0 {
            self.slot0.waker = waker;
        } else {
            self.slot1.waker = waker;
        }
    }

    /// Take the parked token out of the shared slot `slot`.
    pub fn take_shared_waker(&mut self, slot: usize) -> (w: Option<u32>)
        requires
            slot < NUM_SHARED_STATES,
        ensures
            w == spec_slot(old(self)@, slot as int).waker,
            final(self)@ == spec_set_slot(
                old(self)@,
                slot as int,
                (SlotView { waker: None::<u32>, ..spec_slot(old(self)@, slot as int) }),
            ),
    {
        if slot == 0 {
            let w = self.slot0.waker;
            self.slot0.waker = None;
            w
        } else {
            let w = self.slot1.waker;
            self.slot1.waker = None;
            w
        }
    }
}

/// The view of shared slot `slot` of channel view `v`.
pub open spec fn spec_slot(v: ChannelView, slot: int) -> SlotView {
    if slot == 0 {
        v.slot0
    } else {
        v.slot1
    }
}

/// The channel view with shared slot `slot` replaced by `s`.
pub open spec fn spec_set_slot(v: ChannelView, slot: int, s: SlotView) -> ChannelView {
    if slot == 0 {
        ChannelView { slot0: s, ..v }
    } else {
        ChannelView { slot1: s, ..v }
    }
}

/// The interrupt handler for one channel, run on a hardware completion
/// signal: clears the pending interrupt, and if the completion flag is set,
/// marks every shared slot of the channel [`COMPLETE`] and takes the parked
/// resumption tokens. The returned tokens are the tasks to resume; each is
/// handed out at most once.
pub fn on_interrupt(channel: &mut Channel) -> (woken: Vec<u32>)
    ensures
        final(channel)@ == (ChannelView {
            int_pending: false,
            slot0: if old(channel)@.complete {
                (SlotView { state: COMPLETE, waker: None::<u32> })
            } else {
                old(channel)@.slot0
            },
            slot1: if old(channel)@.complete {
                (SlotView { state: COMPLETE, waker: None::<u32> })
            } else {
                old(channel)@.slot1
            },
            ..old(channel)@
        }),
        old(channel)@.complete ==> woken@ == wakers_of(old(channel)@),
        !old(channel)@.complete ==> woken@.len() == 0,
{
    let mut woken: Vec<u32> = Vec::new();
    if channel.is_interrupt() {
        channel.clear_interrupt();
    }
    if channel.is_complete() {
        channel.set_shared_state(0, COMPLETE);
        if let Some(w) = channel.take_shared_waker(0) {
            woken.push(w);
        }
        channel.set_shared_state(1, COMPLETE);
        if let Some(w) = channel.take_shared_waker(1) {
            woken.push(w);
        }
        assert(woken@ =~= wakers_of(old(channel)@));
    }
    woken
}

/// The parked tokens of a channel, slot 0 first.
pub open spec fn wakers_of(v: ChannelView) -> Seq<u32> {
    let s0: Seq<u32> = match v.slot0.waker {
        Some(w) => seq![w],
        None => Seq::empty(),
    };
    let s1: Seq<u32> = match v.slot1.waker {
        Some(w) => seq![w],
        None => Seq::empty(),
    };
    s0 + s1
}

/// The interrupt-driven completion operation: binds an armed channel to the
/// task scheduler and resolves once the interrupt handler has observed
/// completion — or terminates at once when the hardware rejects the
/// configuration.
///
/// State machine: [`READY`] (parameters armed, hardware not yet committed)
/// → [`PENDING`] (hardware enabled, token recorded) → resolved.
pub struct Interrupt {
    state: u32,
}

impl View for Interrupt {
    type V = u32;

    closed spec fn view(&self) -> u32 {
        self.state
    }
}

/// Arm the completion operation on `channel`: the channel will disable
/// itself and raise its interrupt when the major loop completes. The caller
/// must have fully described the transfer beforehand.
pub fn interrupt(channel: &mut Channel) -> (op: Interrupt)
    ensures
        final(channel)@ == (ChannelView {
            int_on_completion: true,
            disable_on_completion: true,
            ..old(channel)@
        }),
        op@ == READY,
{
    channel.set_disable_on_completion(true);
    channel.set_interrupt_on_completion(true);
    Interrupt { state: READY }
}

impl Interrupt {
    /// One resumption-poll of the completion operation.
    ///
    /// On the first poll the token is parked in slot 0, the channel is
    /// enabled, and the hardware's verdict is read back: a rejected
    /// configuration disables the channel again, clears the slot, and
    /// terminates with `Setup` and the status snapshot. Later polls stay
    /// suspended until the interrupt handler has set the completion flag,
    /// then clear it and resolve. Re-arming an already enabled channel
    /// terminates with `ScheduledTransfer`.
    pub fn poll(&mut self, channel: &mut Channel, waker: u32) -> (r: Poll<Result<(), Error>>)
        ensures
            (final(self)@, final(channel)@, r) == spec_interrupt_poll(
                old(self)@,
                old(channel)@,
                waker,
            ),
    {
        if self.state == PENDING {
            if channel.is_complete() {
                self.state = COMPLETE;
                channel.clear_complete();
                Poll::Ready(Ok(()))
            } else {
                Poll::Pending
            }
        } else if self.state == READY {
            if channel.is_enabled() {
                Poll::Ready(Err(Error::ScheduledTransfer))
            } else {
                channel.set_shared_waker(0, Some(waker));
                channel.enable();
                if channel.is_error() {
                    channel.disable();
                    self.state = UNDEFINED;
                    channel.set_shared_waker(0, None);
                    let es = channel.error_status();
                    channel.clear_error();
                    Poll::Ready(Err(Error::Setup(es)))
                } else {
                    self.state = PENDING;
                    Poll::Pending
                }
            }
        } else {
            Poll::Pending
        }
    }

    /// Abandon the operation: disable the channel, clear its completion
    /// flag, and clear the parked token, so that no transfer stays armed
    /// and no stale resumption fires. The caller is responsible for first
    /// telling its peripheral to withdraw the request.
    pub fn cancel(&mut self, channel: &mut Channel)
        ensures
            final(channel)@ == (ChannelView {
                enabled: false,
                started: false,
                complete: false,
                slot0: (SlotView { waker: None::<u32>, ..old(channel)@.slot0 }),
                ..old(channel)@
            }),
            final(self)@ == UNDEFINED,
    {
        channel.disable();
        channel.clear_complete();
        channel.set_shared_waker(0, None);
        self.state = UNDEFINED;
    }
}

/// Exactly what [`Interrupt::poll`] does: the operation state, channel, and
/// resolution after one poll, as a function of the state going in.
pub open spec fn spec_interrupt_poll(op: u32, c: ChannelView, waker: u32) -> (
    u32,
    ChannelView,
    Poll<Result<(), Error>>,
) {
    if op == PENDING {
        if c.complete {
            (COMPLETE, ChannelView { complete: false, ..c }, Poll::Ready(Result::<(), Error>::Ok(())))
        } else {
            (op, c, Poll::<Result<(), Error>>::Pending)
        }
    } else if op == READY {
        if c.enabled {
            (op, c, Poll::Ready(Result::<(), Error>::Err(Error::ScheduledTransfer)))
        } else if crate::dma::invalid_signal(c.trigger) || c.error {
            let es: u32 = if crate::dma::invalid_signal(c.trigger) {
                (c.error_status | crate::dma::ES_INVALID_SIGNAL) as u32
            } else {
                c.error_status
            };
            (
                UNDEFINED,
                ChannelView {
                    enabled: false,
                    started: false,
                    error: false,
                    error_status: 0u32,
                    slot0: SlotView { waker: None::<u32>, ..c.slot0 },
                    ..c
                },
                Poll::Ready(Result::<(), Error>::Err(Error::Setup(es))),
            )
        } else {
            (
                PENDING,
                ChannelView {
                    enabled: true,
                    slot0: SlotView { waker: Some(waker), ..c.slot0 },
                    ..c
                },
                Poll::<Result<(), Error>>::Pending,
            )
        }
    } else {
        (op, c, Poll::<Result<(), Error>>::Pending)
    }
}

} // verus!
