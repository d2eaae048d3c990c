//! General purpose timers (GPT).
//!
//! One GPT instance carries three output-compare channels; [`Gpt::new`]
//! turns the register-block model into three timer handles, one per
//! channel. A delay arms its channel's compare register at the current
//! count plus the requested ticks, parks its resumption token, and enables
//! the channel's compare interrupt; the interrupt handler takes the token
//! back once the compare fires.

use vstd::prelude::*;

use crate::Poll;

verus! {

/// Timer-enable bit of the control register.
pub const CR_EN: u32 = 0x1;

/// Wait-mode-enable bit of the control register.
pub const CR_WAITEN: u32 = 0x8;

/// Free-running-mode bit of the control register.
pub const CR_FRR: u32 = 0x200;

/// All six status flags of the status register.
pub const SR_ALL: u32 = 0x3F;

/// Rollover interrupt enable bit of the interrupt register.
pub const IR_ROVIE: u32 = 0x20;

/// An output-compare channel of a GPT instance.
#[derive(Debug, Clone, Copy, PartialEq, Eq, Structural)]
pub enum OutputCompare {
    Channel1,
    Channel2,
    Channel3,
}

/// The status and interrupt bit of an output-compare channel.
pub open spec fn oc_mask(oc: OutputCompare) -> u32 {
    match oc {
        OutputCompare::Channel1 => 1u32,
        OutputCompare::Channel2 => 2u32,
        OutputCompare::Channel3 => 4u32,
    }
}

/// One GPT register-block model.
pub struct GptInstance {
    /// Instance number, starting at 1.
    pub index: u32,
    /// Control register.
    pub cr: u32,
    /// Prescaler register.
    pub pr: u32,
    /// Status register: output-compare and rollover flags.
    pub sr: u32,
    /// Interrupt register: per-channel compare interrupt enables.
    pub ir: u32,
    /// Output compare register, channel 1.
    pub ocr1: u32,
    /// Output compare register, channel 2.
    pub ocr2: u32,
    /// Output compare register, channel 3.
    pub ocr3: u32,
    /// Free-running counter.
    pub cnt: u32,
    /// Parked resumption token, channel 1.
    pub waker1: Option<u32>,
    /// Parked resumption token, channel 2.
    pub waker2: Option<u32>,
    /// Parked resumption token, channel 3.
    pub waker3: Option<u32>,
    /// Whether the instance's interrupt line is unmasked at the
    /// controller.
    pub unmasked: bool,
}

impl GptInstance {
    /// A powered-up instance with all registers zero.
    pub fn new(index: u32) -> (r: GptInstance)
        ensures
            r.index == index,
            r.cr == 0 && r.pr == 0 && r.sr == 0 && r.ir == 0,
            r.ocr1 == 0 && r.ocr2 == 0 && r.ocr3 == 0 && r.cnt == 0,
            r.waker1 is None && r.waker2 is None && r.waker3 is None,
            !r.unmasked,
    {
        GptInstance {
            index,
            cr: 0,
            pr: 0,
            sr: 0,
            ir: 0,
            ocr1: 0,
            ocr2: 0,
            ocr3: 0,
            cnt: 0,
            waker1: None,
            waker2: None,
            waker3: None,
            unmasked: false,
        }
    }

    /// The parked token of channel `oc`.
    pub open spec fn waker_of(&self, oc: OutputCompare) -> Option<u32> {
        match oc {
            OutputCompare::Channel1 => self.waker1,
            OutputCompare::Channel2 => self.waker2,
            OutputCompare::Channel3 => self.waker3,
        }
    }

    /// The compare register of channel `oc`.
    pub open spec fn ocr_of(&self, oc: OutputCompare) -> u32 {
        match oc {
            OutputCompare::Channel1 => self.ocr1,
            OutputCompare::Channel2 => self.ocr2,
            OutputCompare::Channel3 => self.ocr3,
        }
    }
}

/// Clear the output-compare flag of channel `oc`; the flag clears on
/// write.
pub fn clear_trigger(gpt: &mut GptInstance, oc: OutputCompare)
    ensures
        *final(gpt) == (GptInstance { sr: (old(gpt).sr & !oc_mask(oc)) as u32, ..*old(gpt) }),
{
    match oc {
        OutputCompare::Channel1 => {
            gpt.sr = gpt.sr & !1u32;
        },
        OutputCompare::Channel2 => {
            gpt.sr = gpt.sr & !2u32;
        },
        OutputCompare::Channel3 => {
            gpt.sr = gpt.sr & !4u32;
        },
    }
}

/// True when the output-compare flag of channel `oc` is up.
pub fn is_triggered(gpt: &GptInstance, oc: OutputCompare) -> (r: bool)
    ensures
        r == (gpt.sr & oc_mask(oc) != 0),
{
    match oc {
        OutputCompare::Channel1 => gpt.sr & 1u32 != 0,
        OutputCompare::Channel2 => gpt.sr & 2u32 != 0,
        OutputCompare::Channel3 => gpt.sr & 4u32 != 0,
    }
}

/// Enable the compare interrupt of channel `oc`.
pub fn enable_interrupt(gpt: &mut GptInstance, oc: OutputCompare)
    ensures
        *final(gpt) == (GptInstance { ir: (old(gpt).ir | oc_mask(oc)) as u32, ..*old(gpt) }),
{
    match oc {
        OutputCompare::Channel1 => {
            gpt.ir = gpt.ir | 1u32;
        },
        OutputCompare::Channel2 => {
            gpt.ir = gpt.ir | 2u32;
        },
        OutputCompare::Channel3 => {
            gpt.ir = gpt.ir | 4u32;
        },
    }
}

/// Disable the compare interrupt of channel `oc`.
pub fn disable_interrupt(gpt: &mut GptInstance, oc: OutputCompare)
    ensures
        *final(gpt) == (GptInstance { ir: (old(gpt).ir & !oc_mask(oc)) as u32, ..*old(gpt) }),
{
    match oc {
        OutputCompare::Channel1 => {
            gpt.ir = gpt.ir & !1u32;
        },
        OutputCompare::Channel2 => {
            gpt.ir = gpt.ir & !2u32;
        },
        OutputCompare::Channel3 => {
            gpt.ir = gpt.ir & !4u32;
        },
    }
}

/// True when the compare interrupt of channel `oc` is enabled.
pub fn interrupt_enabled(gpt: &GptInstance, oc: OutputCompare) -> (r: bool)
    ensures
        r == (gpt.ir & oc_mask(oc) != 0),
{
    match oc {
        OutputCompare::Channel1 => gpt.ir & 1u32 != 0,
        OutputCompare::Channel2 => gpt.ir & 2u32 != 0,
        OutputCompare::Channel3 => gpt.ir & 4u32 != 0,
    }
}

/// Write `ticks` into the compare register of channel `oc`.
pub fn set_ticks(gpt: &mut GptInstance, oc: OutputCompare, ticks: u32)
    ensures
        final(gpt).ocr_of(oc) == ticks,
        forall|other: OutputCompare|
            other != oc ==> #[trigger] final(gpt).ocr_of(other) == old(gpt).ocr_of(other),
        *final(gpt) == (GptInstance {
            ocr1: final(gpt).ocr1,
            ocr2: final(gpt).ocr2,
            ocr3: final(gpt).ocr3,
            ..*old(gpt)
        }),
{
    match oc {
        OutputCompare::Channel1 => {
            gpt.ocr1 = ticks;
        },
        OutputCompare::Channel2 => {
            gpt.ocr2 = ticks;
        },
        OutputCompare::Channel3 => {
            gpt.ocr3 = ticks;
        },
    }
}

/// Park `waker` for channel `oc`.
fn set_waker(gpt: &mut GptInstance, oc: OutputCompare, waker: Option<u32>)
    ensures
        final(gpt).waker_of(oc) == waker,
        forall|other: OutputCompare|
            other != oc ==> #[trigger] final(gpt).waker_of(other) == old(gpt).waker_of(other),
        *final(gpt) == (GptInstance {
            waker1: final(gpt).waker1,
            waker2: final(gpt).waker2,
            waker3: final(gpt).waker3,
            ..*old(gpt)
        }),
{
    match oc {
        OutputCompare::Channel1 => {
            gpt.waker1 = waker;
        },
        OutputCompare::Channel2 => {
            gpt.waker2 = waker;
        },
        OutputCompare::Channel3 => {
            gpt.waker3 = waker;
        },
    }
}

/// One GPT timer: exclusive use of one output-compare channel.
pub struct Gpt {
    output_compare: OutputCompare,
}

impl Gpt {
    /// The channel this timer owns.
    pub closed spec fn channel_spec(&self) -> OutputCompare {
        self.output_compare
    }

    /// Turn a GPT instance into its three timers: all status flags are
    /// cleared, the rollover interrupt is disabled, the counter is
    /// started free-running in wait mode, and the instance's interrupt
    /// line is unmasked at the controller.
    pub fn new(gpt: &mut GptInstance) -> (timers: (Gpt, Gpt, Gpt))
        ensures
            *final(gpt) == (GptInstance {
                sr: (old(gpt).sr & !SR_ALL) as u32,
                ir: (old(gpt).ir & !IR_ROVIE) as u32,
                cr: (old(gpt).cr | CR_FRR | CR_WAITEN | CR_EN) as u32,
                unmasked: true,
                ..*old(gpt)
            }),
            timers.0.channel_spec() == OutputCompare::Channel1,
            timers.1.channel_spec() == OutputCompare::Channel2,
            timers.2.channel_spec() == OutputCompare::Channel3,
    {
        gpt.sr = gpt.sr & !SR_ALL;
        gpt.ir = gpt.ir & !IR_ROVIE;
        gpt.cr = gpt.cr | CR_FRR | CR_WAITEN | CR_EN;
        gpt.unmasked = true;
        (
            Gpt { output_compare: OutputCompare::Channel1 },
            Gpt { output_compare: OutputCompare::Channel2 },
            Gpt { output_compare: OutputCompare::Channel3 },
        )
    }

    /// Wait for `ticks` clock counts to elapse: returns the delay
    /// operation to poll.
    pub fn delay(&mut self, ticks: u32) -> (d: Delay)
        ensures
            d.ticks_spec() == ticks,
            d.channel_spec() == old(self).channel_spec(),
    {
        Delay { output_compare: self.output_compare, ticks }
    }
}

/// A pending delay on one output-compare channel.
pub struct Delay {
    output_compare: OutputCompare,
    ticks: u32,
}

/// Exactly what one [`Delay::poll`] does: a raised compare flag is
/// cleared and resolves the delay; an armed interrupt stays suspended;
/// otherwise the compare is armed at the current count plus the ticks,
/// the token parked, and the interrupt enabled.
pub open spec fn spec_delay_poll(g: GptInstance, oc: OutputCompare, ticks: u32, waker: u32) -> (
    GptInstance,
    Poll<()>,
) {
    if g.sr & oc_mask(oc) != 0 {
        (GptInstance { sr: (g.sr & !oc_mask(oc)) as u32, ..g }, Poll::Ready(()))
    } else if g.ir & oc_mask(oc) != 0 {
        (g, Poll::<()>::Pending)
    } else {
        let target: u32 = if g.cnt + ticks <= u32::MAX {
            (g.cnt + ticks) as u32
        } else {
            (g.cnt + ticks - 0x1_0000_0000) as u32
        };
        let armed = GptInstance {
            ocr1: if oc == OutputCompare::Channel1 {
                target
            } else {
                g.ocr1
            },
            ocr2: if oc == OutputCompare::Channel2 {
                target
            } else {
                g.ocr2
            },
            ocr3: if oc == OutputCompare::Channel3 {
                target
            } else {
                g.ocr3
            },
            waker1: if oc == OutputCompare::Channel1 {
                Some(waker)
            } else {
                g.waker1
            },
            waker2: if oc == OutputCompare::Channel2 {
                Some(waker)
            } else {
                g.waker2
            },
            waker3: if oc == OutputCompare::Channel3 {
                Some(waker)
            } else {
                g.waker3
            },
            ir: (g.ir | oc_mask(oc)) as u32,
            ..g
        };
        (armed, Poll::<()>::Pending)
    }
}

impl Delay {
    /// The requested tick count.
    pub closed spec fn ticks_spec(&self) -> u32 {
        self.ticks
    }

    /// The channel the delay runs on.
    pub closed spec fn channel_spec(&self) -> OutputCompare {
        self.output_compare
    }

    /// One resumption-poll of the delay.
    pub fn poll(&mut self, gpt: &mut GptInstance, waker: u32) -> (r: Poll<()>)
        ensures
            (*final(gpt), r) == spec_delay_poll(
                *old(gpt),
                old(self).channel_spec(),
                old(self).ticks_spec(),
                waker,
            ),
            *final(self) == *old(self),
    {
        let oc = self.output_compare;
        if is_triggered(gpt, oc) {
            clear_trigger(gpt, oc);
            Poll::Ready(())
        } else if interrupt_enabled(gpt, oc) {
            Poll::Pending
        } else {
            let current_tick = gpt.cnt;
            let sum: u64 = (current_tick as u64) + (self.ticks as u64);
            let next_tick: u32 = if sum <= 0xFFFF_FFFFu64 {
                sum as u32
            } else {
                (sum - 0x1_0000_0000u64) as u32
            };
            match oc {
                OutputCompare::Channel1 => {
                    gpt.waker1 = Some(waker);
                    gpt.ocr1 = next_tick;
                    gpt.ir = gpt.ir | 1u32;
                },
                OutputCompare::Channel2 => {
                    gpt.waker2 = Some(waker);
                    gpt.ocr2 = next_tick;
                    gpt.ir = gpt.ir | 2u32;
                },
                OutputCompare::Channel3 => {
                    gpt.waker3 = Some(waker);
                    gpt.ocr3 = next_tick;
                    gpt.ir = gpt.ir | 4u32;
                },
            }
            Poll::Pending
        }
    }

    /// Abandon the delay: the channel's compare interrupt is disabled and
    /// its flag cleared, so no stale resumption fires.
    pub fn cancel(&mut self, gpt: &mut GptInstance)
        ensures
            *final(gpt) == (GptInstance {
                ir: (old(gpt).ir & !oc_mask(old(self).channel_spec())) as u32,
                sr: (old(gpt).sr & !oc_mask(old(self).channel_spec())) as u32,
                ..*old(gpt)
            }),
            *final(self) == *old(self),
    {
        let oc = self.output_compare;
        disable_interrupt(gpt, oc);
        clear_trigger(gpt, oc);
    }
}

/// The interrupt handler for one GPT instance: every channel whose
/// compare flag is up has its interrupt disabled and its parked token
/// taken; the returned tokens, in channel order, are the tasks to resume.
pub fn on_interrupt(gpt: &mut GptInstance) -> (woken: Vec<u32>)
    ensures
        final(gpt).ir == old(gpt).ir & !(old(gpt).sr & 7),
        forall|oc: OutputCompare|
            old(gpt).sr & oc_mask(oc) != 0 ==> #[trigger] final(gpt).waker_of(oc) is None && (
            final(gpt).ir & oc_mask(oc) == 0),
        forall|oc: OutputCompare|
            old(gpt).sr & oc_mask(oc) == 0 ==> #[trigger] final(gpt).waker_of(oc) == old(
                gpt,
            ).waker_of(oc),
        final(gpt).sr == old(gpt).sr && final(gpt).cnt == old(gpt).cnt && final(gpt).cr == old(
            gpt,
        ).cr,
{
    let triggered: u32 = gpt.sr & 7;
    gpt.ir = gpt.ir & !triggered;
    let mut woken: Vec<u32> = Vec::new();
    if is_triggered(gpt, OutputCompare::Channel1) {
        let w = gpt.waker1;
        gpt.waker1 = None;
        if let Some(token) = w {
            woken.push(token);
        }
    }
    if is_triggered(gpt, OutputCompare::Channel2) {
        let w = gpt.waker2;
        gpt.waker2 = None;
        if let Some(token) = w {
            woken.push(token);
        }
    }
    if is_triggered(gpt, OutputCompare::Channel3) {
        let w = gpt.waker3;
        gpt.waker3 = None;
        if let Some(token) = w {
            woken.push(token);
        }
    }
    proof {
        let ir0: u32 = old(gpt).ir;
        let sr0: u32 = old(gpt).sr;
        assert forall|oc: OutputCompare| sr0 & oc_mask(oc) != 0 implies #[trigger] gpt.waker_of(
            oc,
        ) is None && (gpt.ir & oc_mask(oc) == 0) by {
            match oc {
                OutputCompare::Channel1 => {
                    assert(sr0 & 1 != 0 ==> (ir0 & !(sr0 & 7)) & 1 == 0) by (bit_vector);
                },
                OutputCompare::Channel2 => {
                    assert(sr0 & 2 != 0 ==> (ir0 & !(sr0 & 7)) & 2 == 0) by (bit_vector);
                },
                OutputCompare::Channel3 => {
                    assert(sr0 & 4 != 0 ==> (ir0 & !(sr0 & 7)) & 4 == 0) by (bit_vector);
                },
            }
        }
        assert forall|oc: OutputCompare| sr0 & oc_mask(oc) == 0 implies #[trigger] gpt.waker_of(oc)
            == old(gpt).waker_of(oc) by {
            match oc {
                OutputCompare::Channel1 => {},
                OutputCompare::Channel2 => {},
                OutputCompare::Channel3 => {},
            }
        }
    }
    woken
}

} // verus!
