//! GPIOs.
//!
//! A [`GPIO`] wraps one pad of a GPIO bank, in either the input or the
//! output direction. Outputs drive, clear, and toggle their pad's data
//! bit; inputs read the pad and can wait for a [`Trigger`] — the wait
//! commits the trigger selection to the interrupt-configuration fields,
//! parks its resumption token in the bank, and unmasks the pad's
//! interrupt.

use vstd::prelude::*;

use core::marker::PhantomData;

use crate::Poll;

verus! {

/// Number of pads in one GPIO bank.
pub const PADS_PER_BANK: usize = 32;

/// Indicates that a pad is configured as an input.
pub struct Input {

}

/// Indicates that a pad is configured as an output.
pub struct Output {

}

/// Input interrupt triggers.
#[derive(Debug, Clone, Copy, PartialEq, Eq, Structural)]
pub enum Trigger {
    /// Interrupt while the pad is low.
    Low,
    /// Interrupt while the pad is high.
    High,
    /// Interrupt after a rising edge.
    RisingEdge,
    /// Interrupt after a falling edge.
    FallingEdge,
    /// Interrupt after either edge.
    EitherEdge,
}

impl Trigger {
    /// The two-bit interrupt-configuration field value; either-edge is
    /// selected through the edge-select register instead.
    pub open spec fn icr_spec(self) -> u32 {
        match self {
            Trigger::Low => 0u32,
            Trigger::High => 1u32,
            Trigger::RisingEdge => 2u32,
            Trigger::FallingEdge => 3u32,
            Trigger::EitherEdge => 0u32,
        }
    }
}

/// One GPIO bank: direction, data, and interrupt registers, plus the
/// parked resumption tokens of its 32 pads.
pub struct GpioBank {
    /// Bank number, starting at 1.
    pub module: u32,
    /// Direction register: a set bit drives the pad as an output.
    pub gdir: u32,
    /// Pad status register: the sampled input levels.
    pub psr: u32,
    /// Data register: the driven output levels.
    pub dr: u32,
    /// Interrupt configuration for pads 0 through 15, two bits each.
    pub icr1: u32,
    /// Interrupt configuration for pads 16 through 31, two bits each.
    pub icr2: u32,
    /// Interrupt mask register: a set bit lets the pad interrupt.
    pub imr: u32,
    /// Interrupt status register.
    pub isr: u32,
    /// Edge-select register: a set bit triggers on either edge.
    pub edge_sel: u32,
    /// Parked resumption tokens, one per pad.
    pub wakers: Vec<Option<u32>>,
}

impl GpioBank {
    /// The bank carries one token slot per pad.
    pub open spec fn wf(&self) -> bool {
        self.wakers@.len() == PADS_PER_BANK
    }

    /// A powered-up bank with all registers zero and no parked tokens.
    pub fn new(module: u32) -> (r: GpioBank)
        ensures
            r.wf(),
            r.module == module,
            r.gdir == 0 && r.psr == 0 && r.dr == 0 && r.icr1 == 0 && r.icr2 == 0,
            r.imr == 0 && r.isr == 0 && r.edge_sel == 0,
            forall|i: int| 0 <= i < PADS_PER_BANK ==> r.wakers@[i] is None,
    {
        let mut wakers: Vec<Option<u32>> = Vec::new();
        let mut i: usize = 0;
        while i < PADS_PER_BANK
            invariant
                i <= PADS_PER_BANK,
                wakers@.len() == i,
                forall|j: int| 0 <= j < i ==> wakers@[j] is None,
            decreases PADS_PER_BANK - i,
        {
            wakers.push(None);
            i = i + 1;
        }
        GpioBank {
            module,
            gdir: 0,
            psr: 0,
            dr: 0,
            icr1: 0,
            icr2: 0,
            imr: 0,
            isr: 0,
            edge_sel: 0,
            wakers,
        }
    }
}

/// One pad of a GPIO bank: the bank number and the pad's bit position.
#[derive(Debug, Clone, Copy, PartialEq, Eq, Structural)]
pub struct Pad {
    /// Bank number, starting at 1.
    pub module: u32,
    /// Bit position within the bank, 0 through 31.
    pub offset: u32,
}

/// A wrapper around one pad, supporting simple I/O in direction `D`.
pub struct GPIO<D> {
    pin: Pad,
    dir: PhantomData<D>,
}

impl<D> GPIO<D> {
    /// The wrapped pad.
    pub closed spec fn pad(&self) -> Pad {
        self.pin
    }

    /// The pad's bit mask within its bank's registers.
    pub fn offset(&self) -> (r: u32)
        requires
            self.pad().offset < 32,
        ensures
            r == spec_offset(self.pad()),
    {
        1u32 << self.pin.offset
    }

    /// The pad's bank number.
    pub fn module(&self) -> (r: u32)
        ensures
            r == self.pad().module,
    {
        self.pin.module
    }

    /// The pad's field offset within its interrupt-configuration
    /// register.
    pub fn icr_offset(&self) -> (r: u32)
        requires
            self.pad().offset < 32,
        ensures
            r == (self.pad().offset % 16) * 2,
    {
        (self.pin.offset % 16) * 2
    }
}

/// The pad's bit mask within its bank's registers.
pub open spec fn spec_offset(pin: Pad) -> u32 {
    1u32 << pin.offset
}

impl GPIO<Input> {
    /// Wrap a pad as a GPIO input.
    pub fn new(pin: Pad) -> (r: GPIO<Input>)
        ensures
            r.pad() == pin,
    {
        GPIO { pin, dir: PhantomData }
    }

    /// Transition the pad from an input to an output: its direction bit
    /// rises.
    pub fn output(self, bank: &mut GpioBank) -> (r: GPIO<Output>)
        requires
            self.pad().offset < 32,
        ensures
            *final(bank) == (GpioBank {
                gdir: (old(bank).gdir | spec_offset(self.pad())) as u32,
                ..*old(bank)
            }),
            r.pad() == self.pad(),
    {
        bank.gdir = bank.gdir | self.offset();
        GPIO { pin: self.pin, dir: PhantomData }
    }

    /// True when the input pad samples high.
    pub fn is_set(&self, bank: &GpioBank) -> (r: bool)
        requires
            self.pad().offset < 32,
        ensures
            r == (bank.psr & spec_offset(self.pad()) != 0),
    {
        bank.psr & self.offset() != 0
    }

    /// Commit `trigger` for this pad: either-edge sets the pad's
    /// edge-select bit; every other trigger clears it and writes the
    /// trigger's two-bit field into the pad's interrupt-configuration
    /// register.
    pub fn set_trigger(&mut self, bank: &mut GpioBank, trigger: Trigger)
        requires
            old(self).pad().offset < 32,
        ensures
            final(self).pad() == old(self).pad(),
            spec_trigger_committed(*old(bank), *final(bank), old(self).pad(), trigger),
    {
        if trigger == Trigger::EitherEdge {
            bank.edge_sel = bank.edge_sel | self.offset();
        } else {
            bank.edge_sel = bank.edge_sel & !self.offset();
            let icr: u32 = match trigger {
                Trigger::Low => 0,
                Trigger::High => 1,
                Trigger::RisingEdge => 2,
                Trigger::FallingEdge => 3,
                Trigger::EitherEdge => 0,
            };
            let icr_offset = self.icr_offset();
            if self.pin.offset < 16 {
                bank.icr1 = (bank.icr1 & !(3u32 << icr_offset)) | (icr << icr_offset);
            } else {
                bank.icr2 = (bank.icr2 & !(3u32 << icr_offset)) | (icr << icr_offset);
            }
        }
    }

    /// Begin waiting for `trigger` on this input: returns the wait
    /// operation to poll.
    pub fn wait_for(&mut self, trigger: Trigger) -> (w: WaitFor)
        ensures
            w.trigger_spec() == trigger,
            !w.started_spec(),
    {
        WaitFor { trigger, started: false }
    }
}

/// The bank after a trigger selection has been committed for `pin`.
pub open spec fn spec_trigger_committed(
    pre: GpioBank,
    post: GpioBank,
    pin: Pad,
    trigger: Trigger,
) -> bool {
    if trigger == Trigger::EitherEdge {
        post == (GpioBank { edge_sel: (pre.edge_sel | spec_offset(pin)) as u32, ..pre })
    } else {
        let sel = GpioBank { edge_sel: (pre.edge_sel & !spec_offset(pin)) as u32, ..pre };
        let sh: u32 = (((pin.offset % 16) * 2) as int) as u32;
        if pin.offset < 16 {
            post == (GpioBank {
                icr1: ((sel.icr1 & !(3u32 << sh)) | (trigger.icr_spec() << sh)) as u32,
                ..sel
            })
        } else {
            post == (GpioBank {
                icr2: ((sel.icr2 & !(3u32 << sh)) | (trigger.icr_spec() << sh)) as u32,
                ..sel
            })
        }
    }
}

impl GPIO<Output> {
    /// Transition the pad from an output to an input: its direction bit
    /// falls.
    pub fn input(self, bank: &mut GpioBank) -> (r: GPIO<Input>)
        requires
            self.pad().offset < 32,
        ensures
            *final(bank) == (GpioBank {
                gdir: (old(bank).gdir & !spec_offset(self.pad())) as u32,
                ..*old(bank)
            }),
            r.pad() == self.pad(),
    {
        bank.gdir = bank.gdir & !self.offset();
        GPIO { pin: self.pin, dir: PhantomData }
    }

    /// Drive the pad high.
    pub fn set(&mut self, bank: &mut GpioBank)
        requires
            old(self).pad().offset < 32,
        ensures
            final(self).pad() == old(self).pad(),
            *final(bank) == (GpioBank {
                dr: (old(bank).dr | spec_offset(old(self).pad())) as u32,
                ..*old(bank)
            }),
    {
        bank.dr = bank.dr | self.offset();
    }

    /// Drive the pad low.
    pub fn clear(&mut self, bank: &mut GpioBank)
        requires
            old(self).pad().offset < 32,
        ensures
            final(self).pad() == old(self).pad(),
            *final(bank) == (GpioBank {
                dr: (old(bank).dr & !spec_offset(old(self).pad())) as u32,
                ..*old(bank)
            }),
    {
        bank.dr = bank.dr & !self.offset();
    }

    /// True when the pad is driven high.
    pub fn is_set(&self, bank: &GpioBank) -> (r: bool)
        requires
            self.pad().offset < 32,
        ensures
            r == (bank.dr & spec_offset(self.pad()) != 0),
    {
        bank.dr & self.offset() != 0
    }

    /// Alternate the driven level of the pad.
    pub fn toggle(&mut self, bank: &mut GpioBank)
        requires
            old(self).pad().offset < 32,
        ensures
            final(self).pad() == old(self).pad(),
            *final(bank) == (GpioBank {
                dr: (old(bank).dr ^ spec_offset(old(self).pad())) as u32,
                ..*old(bank)
            }),
    {
        bank.dr = bank.dr ^ self.offset();
    }
}

/// A pending wait for an input trigger.
pub struct WaitFor {
    trigger: Trigger,
    started: bool,
}

impl WaitFor {
    /// The trigger waited for.
    pub closed spec fn trigger_spec(&self) -> Trigger {
        self.trigger
    }

    /// Whether the wait has armed the interrupt.
    pub closed spec fn started_spec(&self) -> bool {
        self.started
    }

    /// One resumption-poll of the wait, for the input `pin`.
    ///
    /// The first poll commits the trigger selection, parks the token in
    /// the pad's slot, and unmasks the pad's interrupt. Later polls stay
    /// suspended until the interrupt handler has taken the token, then
    /// resolve.
    pub fn poll(&mut self, pin: &mut GPIO<Input>, bank: &mut GpioBank, waker: u32) -> (r: Poll<()>)
        requires
            old(bank).wf(),
            old(pin).pad().offset < 32,
        ensures
            final(bank).wf(),
            final(pin).pad() == old(pin).pad(),
            final(self).trigger_spec() == old(self).trigger_spec(),
            !old(self).started_spec() ==> {
                &&& final(self).started_spec()
                &&& r == Poll::<()>::Pending
                &&& final(bank).wakers@ == old(bank).wakers@.update(
                    old(pin).pad().offset as int,
                    Some(waker),
                )
                &&& final(bank).imr == spec_armed_imr(*old(bank), old(pin).pad(), old(
                    self,
                ).trigger_spec()).imr
                &&& spec_trigger_committed(
                    *old(bank),
                    (GpioBank { imr: old(bank).imr, wakers: old(bank).wakers, ..*final(bank) }),
                    old(pin).pad(),
                    old(self).trigger_spec(),
                )
            },
            old(self).started_spec() ==> {
                &&& *final(bank) == *old(bank)
                &&& *final(self) == *old(self)
                &&& r == if old(bank).wakers@[old(pin).pad().offset as int] is None {
                    Poll::Ready(())
                } else {
                    Poll::<()>::Pending
                }
            },
    {
        if !self.started {
            self.started = true;
            pin.set_trigger(bank, self.trigger);
            bank.wakers.set(pin.pin.offset as usize, Some(waker));
            bank.imr = bank.imr | pin.offset();
            Poll::Pending
        } else if matches!(bank.wakers[self_offset(pin)], None) {
            Poll::Ready(())
        } else {
            Poll::Pending
        }
    }

    /// Abandon the wait: the pad's interrupt is masked and its token
    /// slot cleared, so no stale resumption fires.
    pub fn cancel(&mut self, pin: &GPIO<Input>, bank: &mut GpioBank)
        requires
            old(bank).wf(),
            pin.pad().offset < 32,
        ensures
            final(bank).wf(),
            final(bank).imr == old(bank).imr & !spec_offset(pin.pad()),
            final(bank).wakers@ == old(bank).wakers@.update(pin.pad().offset as int, None::<u32>),
            *final(bank) == (GpioBank {
                imr: final(bank).imr,
                wakers: final(bank).wakers,
                ..*old(bank)
            }),
    {
        bank.imr = bank.imr & !(1u32 << pin.pin.offset);
        bank.wakers.set(pin.pin.offset as usize, None);
    }
}

/// The pad's slot index within its bank.
fn self_offset(pin: &GPIO<Input>) -> (r: usize)
    requires
        pin.pad().offset < 32,
    ensures
        r == pin.pad().offset as usize,
{
    pin.pin.offset as usize
}

/// The bank with the pad's interrupt unmasked after its trigger was
/// committed.
pub open spec fn spec_armed_imr(pre: GpioBank, pin: Pad, trigger: Trigger) -> GpioBank {
    GpioBank { imr: (pre.imr | spec_offset(pin)) as u32, ..pre }
}

/// The tokens taken by the interrupt handler: one per signaled pad with a
/// parked token, in pad order, over the first `n` pads.
pub open spec fn spec_gathered(wakers: Seq<Option<u32>>, isr: u32, n: int) -> Seq<u32>
    decreases n,
{
    if n <= 0 {
        Seq::empty()
    } else {
        let rest = spec_gathered(wakers, isr, n - 1);
        if isr & (1u32 << ((n - 1) as u32)) != 0 && wakers[n - 1] is Some {
            rest.push(wakers[n - 1]->0)
        } else {
            rest
        }
    }
}

/// The interrupt handler for one GPIO bank: acknowledges every signaled
/// pad, masks their interrupts, and takes their parked tokens — the tasks
/// to resume, in pad order.
pub fn on_interrupt(bank: &mut GpioBank) -> (woken: Vec<u32>)
    requires
        old(bank).wf(),
    ensures
        final(bank).wf(),
        final(bank).isr == 0,
        final(bank).imr == old(bank).imr & !old(bank).isr,
        woken@ == spec_gathered(old(bank).wakers@, old(bank).isr, PADS_PER_BANK as int),
        forall|i: int|
            0 <= i < PADS_PER_BANK ==> #[trigger] final(bank).wakers@[i] == if old(bank).isr & (1u32
                << (i as u32)) != 0 {
                None::<u32>
            } else {
                old(bank).wakers@[i]
            },
        *final(bank) == (GpioBank {
            isr: 0u32,
            imr: final(bank).imr,
            wakers: final(bank).wakers,
            ..*old(bank)
        }),
{
    let isr = bank.isr;
    bank.isr = 0;
    bank.imr = bank.imr & !isr;
    let mut woken: Vec<u32> = Vec::new();
    let mut i: usize = 0;
    while i < PADS_PER_BANK
        invariant
            bank.wf(),
            i <= PADS_PER_BANK,
            isr == old(bank).isr,
            bank.isr == 0,
            bank.imr == old(bank).imr & !old(bank).isr,
            woken@ == spec_gathered(old(bank).wakers@, old(bank).isr, i as int),
            forall|j: int|
                0 <= j < i ==> #[trigger] bank.wakers@[j] == if old(bank).isr & (1u32 << (
                j as u32)) != 0 {
                    None::<u32>
                } else {
                    old(bank).wakers@[j]
                },
            forall|j: int| i <= j < PADS_PER_BANK ==> #[trigger] bank.wakers@[j] == old(
                bank,
            ).wakers@[j],
            bank.module == old(bank).module && bank.gdir == old(bank).gdir && bank.psr == old(
                bank,
            ).psr && bank.dr == old(bank).dr && bank.icr1 == old(bank).icr1 && bank.icr2 == old(
                bank,
            ).icr2 && bank.edge_sel == old(bank).edge_sel,
        decreases PADS_PER_BANK - i,
    {
        if isr & (1u32 << (i as u32)) != 0 {
            let w = bank.wakers[i];
            bank.wakers.set(i, None);
            if let Some(token) = w {
                woken.push(token);
            }
        }
        i = i + 1;
    }
    woken
}

} // verus!
