//! Periodic interrupt timer (PIT).
//!
//! One hardware PIT carries four timer channels; [`PIT::new`] resets them
//! all and hands out four timers, each owning one channel's register
//! block. A delay loads the channel's start value, parks its resumption
//! token, and enables the channel; the interrupt handler stops the channel
//! and takes the token back once the timeout flag rises.

use vstd::prelude::*;

use crate::Poll;

verus! {

/// Timer-enable bit of the timer control register.
pub const TCTRL_TEN: u32 = 0x1;

/// Timer-interrupt-enable bit of the timer control register.
pub const TCTRL_TIE: u32 = 0x2;

/// Timeout flag of the timer flag register.
pub const TFLG_TIF: u32 = 0x1;

/// Module-disable bit of the module control register.
pub const MCR_MDIS: u32 = 0x2;

/// The register block of one PIT channel.
pub struct ChannelRegisterBlock {
    /// Timer load value register.
    pub ldval: u32,
    /// Current timer value register.
    pub cval: u32,
    /// Timer control register.
    pub tctrl: u32,
    /// Timer flag register.
    pub tflg: u32,
}

/// One PIT channel: its index, its registers, and its parked resumption
/// token.
pub struct ChannelInstance {
    /// The channel number, 0 through 3.
    pub idx: usize,
    /// The channel's register block.
    pub regs: ChannelRegisterBlock,
    /// The parked resumption token for this channel.
    pub waker: Option<u32>,
}

impl ChannelInstance {
    /// The channel number, 0 through 3.
    pub fn index(&self) -> (n: usize)
        ensures
            n == self.index_spec(),
    {
        self.idx
    }

    /// The channel number.
    pub open spec fn index_spec(&self) -> usize {
        self.idx
    }

    /// A zeroed channel block with number `idx`.
    fn fresh(idx: usize) -> (r: ChannelInstance)
        ensures
            r.index_spec() == idx,
            r.regs.ldval == 0 && r.regs.cval == 0 && r.regs.tctrl == 0 && r.regs.tflg == 0,
            r.waker is None,
    {
        ChannelInstance {
            idx,
            regs: ChannelRegisterBlock { ldval: 0, cval: 0, tctrl: 0, tflg: 0 },
            waker: None,
        }
    }

    /// Channel 0.
    pub fn zero() -> (r: ChannelInstance)
        ensures
            r.index_spec() == 0,
            r.regs.tctrl == 0 && r.regs.tflg == 0,
            r.waker is None,
    {
        ChannelInstance::fresh(0)
    }

    /// Channel 1.
    pub fn one() -> (r: ChannelInstance)
        ensures
            r.index_spec() == 1,
            r.regs.tctrl == 0 && r.regs.tflg == 0,
            r.waker is None,
    {
        ChannelInstance::fresh(1)
    }

    /// Channel 2.
    pub fn two() -> (r: ChannelInstance)
        ensures
            r.index_spec() == 2,
            r.regs.tctrl == 0 && r.regs.tflg == 0,
            r.waker is None,
    {
        ChannelInstance::fresh(2)
    }

    /// Channel 3.
    pub fn three() -> (r: ChannelInstance)
        ensures
            r.index_spec() == 3,
            r.regs.tctrl == 0 && r.regs.tflg == 0,
            r.waker is None,
    {
        ChannelInstance::fresh(3)
    }
}

/// The module-level register of the PIT.
pub struct PitInstance {
    /// Module control register.
    pub mcr: u32,
}

/// One PIT timer channel, the most precise timer here.
pub struct PIT {
    channel: ChannelInstance,
}

impl PIT {
    /// The channel this timer owns.
    pub closed spec fn channel_spec(&self) -> &ChannelInstance {
        &self.channel
    }

    /// Acquire the four PIT timers from the PIT instance: the module is
    /// enabled and every channel is reset to a known, disabled state.
    pub fn new(pit: &mut PitInstance) -> (timers: (PIT, PIT, PIT, PIT))
        ensures
            final(pit).mcr == old(pit).mcr & !MCR_MDIS,
            timers.0.channel_spec().index_spec() == 0,
            timers.1.channel_spec().index_spec() == 1,
            timers.2.channel_spec().index_spec() == 2,
            timers.3.channel_spec().index_spec() == 3,
            timers.0.channel_spec().regs.tctrl == 0 && timers.0.channel_spec().regs.tflg == 0,
            timers.1.channel_spec().regs.tctrl == 0 && timers.1.channel_spec().regs.tflg == 0,
            timers.2.channel_spec().regs.tctrl == 0 && timers.2.channel_spec().regs.tflg == 0,
            timers.3.channel_spec().regs.tctrl == 0 && timers.3.channel_spec().regs.tflg == 0,
    {
        pit.mcr = pit.mcr & !MCR_MDIS;
        (
            PIT { channel: ChannelInstance::zero() },
            PIT { channel: ChannelInstance::one() },
            PIT { channel: ChannelInstance::two() },
            PIT { channel: ChannelInstance::three() },
        )
    }

    /// Borrow the channel's register block mutably; how the test bench
    /// raises the timeout flag and inspects the channel.
    pub fn channel_mut(&mut self) -> (r: &mut ChannelInstance)
        ensures
            *r == *old(self).channel_spec(),
            *final(self).channel_spec() == *final(r),
    {
        &mut self.channel
    }

    /// Wait for `count` clock counts to elapse: returns the delay
    /// operation to poll.
    pub fn delay(&mut self, count: u32) -> (d: Delay)
        ensures
            d.count_spec() == count,
    {
        Delay { count }
    }

    /// One resumption-poll of a delay on this timer's channel.
    ///
    /// A raised timeout flag is acknowledged and resolves the delay; an
    /// active channel stays suspended; otherwise the start value is
    /// loaded, the token parked, and the channel's interrupt and enable
    /// bits set.
    pub fn poll(&mut self, d: &Delay, waker: u32) -> (r: Poll<()>)
        ensures
            spec_pit_poll(
                *old(self).channel_spec(),
                d.count_spec(),
                waker,
                *final(self).channel_spec(),
                r,
            ),
            final(self).channel_spec().index_spec() == old(self).channel_spec().index_spec(),
    {
        if self.channel.regs.tflg & TFLG_TIF != 0 {
            self.channel.regs.tflg = self.channel.regs.tflg & !TFLG_TIF;
            Poll::Ready(())
        } else if self.channel.regs.tctrl != 0 {
            Poll::Pending
        } else {
            self.channel.regs.ldval = d.count;
            self.channel.waker = Some(waker);
            self.channel.regs.tctrl = self.channel.regs.tctrl | TCTRL_TIE;
            self.channel.regs.tctrl = self.channel.regs.tctrl | TCTRL_TEN;
            proof {
                assert(((0u32 | 0x2u32) | 0x1u32) == (0x2u32 | 0x1u32)) by (bit_vector);
            }
            Poll::Pending
        }
    }

    /// Abandon a delay: the channel is stopped so no write or resumption
    /// lands later.
    pub fn cancel(&mut self)
        ensures
            final(self).channel_spec().regs.tctrl == 0,
            final(self).channel_spec().index_spec() == old(self).channel_spec().index_spec(),
            final(self).channel_spec().regs.ldval == old(self).channel_spec().regs.ldval,
            final(self).channel_spec().regs.tflg == old(self).channel_spec().regs.tflg,
            final(self).channel_spec().waker == old(self).channel_spec().waker,
    {
        self.channel.regs.tctrl = 0;
    }

    /// The interrupt handler for this timer's channel: a raised timeout
    /// flag stops the channel and takes the parked token, which is the
    /// task to resume.
    pub fn on_interrupt(&mut self) -> (woken: Option<u32>)
        ensures
            old(self).channel_spec().regs.tflg & TFLG_TIF != 0 ==> {
                &&& final(self).channel_spec().regs.tctrl == 0
                &&& final(self).channel_spec().waker is None
                &&& woken == old(self).channel_spec().waker
            },
            old(self).channel_spec().regs.tflg & TFLG_TIF == 0 ==> *final(self).channel_spec()
                == *old(self).channel_spec() && woken is None,
            final(self).channel_spec().index_spec() == old(self).channel_spec().index_spec(),
    {
        if self.channel.regs.tflg & TFLG_TIF != 0 {
            self.channel.regs.tctrl = 0;
            let w = self.channel.waker;
            self.channel.waker = None;
            w
        } else {
            None
        }
    }
}

/// Exactly what one [`PIT::poll`] does over the channel state.
pub open spec fn spec_pit_poll(
    pre: ChannelInstance,
    count: u32,
    waker: u32,
    post: ChannelInstance,
    r: Poll<()>,
) -> bool {
    if pre.regs.tflg & TFLG_TIF != 0 {
        &&& post == (ChannelInstance {
            regs: ChannelRegisterBlock { tflg: (pre.regs.tflg & !TFLG_TIF) as u32, ..pre.regs },
            ..pre
        })
        &&& r == Poll::Ready(())
    } else if pre.regs.tctrl != 0 {
        post == pre && r == Poll::<()>::Pending
    } else {
        &&& post == (ChannelInstance {
            regs: ChannelRegisterBlock {
                ldval: count,
                tctrl: (TCTRL_TIE | TCTRL_TEN) as u32,
                ..pre.regs
            },
            waker: Some(waker),
            ..pre
        })
        &&& r == Poll::<()>::Pending
    }
}

/// A pending delay: the start value to load.
pub struct Delay {
    count: u32,
}

impl Delay {
    /// The requested count.
    pub closed spec fn count_spec(&self) -> u32 {
        self.count
    }
}

} // verus!
