//! Direct Memory Access (DMA) channels for async I/O.
//!
//! A [`Channel`] owns the model of one hardware DMA channel: its
//! transfer-control descriptor, its control and status flags, its request
//! multiplexer selection, and the two shared slots that bridge the interrupt
//! handler to suspended tasks. [`channels`] acquires the whole pool, with
//! every descriptor reset.
//!
//! The engine itself is [`Channel::service`]: one call performs one minor
//! loop — it moves `nbytes` bytes of [`Memory`](crate::mem::Memory), advances
//! the source and destination addresses, counts down the major loop, and on
//! the final iteration applies the wrap-around adjustments and raises the
//! completion and interrupt flags. Its contract states that effect exactly,
//! as [`spec_service`] over the channel view and the memory bytes.

use vstd::prelude::*;

pub mod element;
pub mod interrupt;
pub mod laws;
pub mod peripheral;
pub mod pipe;

use crate::mem::Memory;
pub use element::Element;
use interrupt::Shared;
use interrupt::UNDEFINED;

verus! {

/// Number of channels the controller owns.
pub const CHANNEL_COUNT: usize = 32;

/// Number of request-multiplexer input signals; a hardware trigger selection
/// at or above this bound is rejected when the channel is enabled.
pub const REQUEST_SIGNAL_COUNT: u32 = 128;

/// Error-status snapshot bit: the configured request signal is out of range.
pub const ES_INVALID_SIGNAL: u32 = 0x1;
/// Error-status snapshot bit: a transfer address fell outside memory.
pub const ES_BUS: u32 = 0x2;
/// Error-status snapshot bit: a wrap-around adjustment left the address range.
pub const ES_ADJUSTMENT: u32 = 0x4;

/// Largest address the engine lets a descriptor pointer reach.
pub const ADDRESS_LIMIT: u64 = 0x1_0000_0000_0000;

/// How a channel's transfer requests are generated.
#[derive(Debug, Clone, Copy, PartialEq, Eq, Structural)]
pub enum TriggerSelect {
    /// No multiplexer routing; the channel is serviced only when armed.
    Off,
    /// Serviced when the named peripheral request signal asserts.
    Hardware(u32),
    /// Continuously serviced once enabled; no external trigger needed.
    AlwaysOn,
}

/// What one [`Channel::service`] call did.
#[derive(Debug, Clone, Copy, PartialEq, Eq, Structural)]
pub enum ServiceOutcome {
    /// The channel was disabled or had no remaining major iterations.
    Idle,
    /// One minor loop was executed; the major loop has iterations left.
    Serviced,
    /// One minor loop was executed and it was the last: the major loop
    /// finished, adjustments were applied, and completion was recorded.
    Completed,
    /// A transfer address fell outside memory; the channel recorded an
    /// error snapshot and disabled itself.
    Faulted,
}

/// Spec-level image of a [`Channel`]: every register and slot as a plain value.
pub struct ChannelView {
    pub index: usize,
    pub saddr: u64,
    pub soff: u64,
    pub smod: u8,
    pub slast: i64,
    pub daddr: u64,
    pub doff: u64,
    pub dmod: u8,
    pub dlast: i64,
    pub nbytes: u32,
    pub citer: u16,
    pub biter: u16,
    pub enabled: bool,
    pub int_on_completion: bool,
    pub disable_on_completion: bool,
    pub complete: bool,
    pub error: bool,
    pub error_status: u32,
    pub int_pending: bool,
    pub hw_signal: bool,
    pub started: bool,
    pub trigger: TriggerSelect,
    pub unmasked: bool,
    pub slot0: SlotView,
    pub slot1: SlotView,
}

/// Spec-level image of one shared slot.
pub struct SlotView {
    pub state: u32,
    pub waker: Option<u32>,
}

impl ChannelView {
    /// The transfer-control descriptor holds only zeroes.
    pub open spec fn descriptor_zeroed(self) -> bool {
        &&& self.saddr == 0 && self.soff == 0 && self.smod == 0 && self.slast == 0
        &&& self.daddr == 0 && self.doff == 0 && self.dmod == 0 && self.dlast == 0
        &&& self.nbytes == 0 && self.citer == 0 && self.biter == 0
    }

    /// A freshly acquired channel: descriptor zeroed, disabled, no flags
    /// raised, no multiplexer routing, interrupt line unmasked, both shared
    /// slots undefined and empty.
    pub open spec fn is_reset(self, index: int) -> bool {
        &&& self.index == index
        &&& self.descriptor_zeroed()
        &&& !self.enabled && !self.int_on_completion && !self.disable_on_completion
        &&& !self.complete && !self.error && self.error_status == 0
        &&& !self.int_pending && !self.hw_signal && !self.started
        &&& self.trigger == TriggerSelect::Off
        &&& self.unmasked
        &&& self.slot0 == (SlotView { state: UNDEFINED, waker: None::<u32> })
        &&& self.slot1 == (SlotView { state: UNDEFINED, waker: None::<u32> })
    }

    /// Ranges every reachable channel stays inside; established by
    /// [`channels`] and preserved by every operation.
    pub open spec fn wf(self) -> bool {
        &&& self.soff <= 8 && self.doff <= 8
        &&& self.smod == 0 && self.dmod == 0
        &&& self.saddr <= ADDRESS_LIMIT && self.daddr <= ADDRESS_LIMIT
        &&& self.nbytes <= 0x8_0000
        &&& -0x10_0000 <= self.slast <= 0x10_0000
        &&& -0x10_0000 <= self.dlast <= 0x10_0000
    }
}

/// Memory after a block copy of `n` bytes from `saddr` to `daddr`.
pub open spec fn copy_block(m: Seq<u8>, saddr: int, daddr: int, n: int) -> Seq<u8> {
    Seq::new(
        m.len(),
        |i: int|
            if daddr <= i < daddr + n {
                m[saddr + (i - daddr)]
            } else {
                m[i]
            },
    )
}

/// Whether the engine would run at all: the channel is enabled and the major
/// loop has iterations left.
pub open spec fn can_service(v: ChannelView) -> bool {
    v.enabled && v.citer > 0
}

/// Whether the pending minor loop stays inside memory of length `mlen`.
pub open spec fn service_in_bounds(v: ChannelView, mlen: int) -> bool {
    &&& v.saddr + v.nbytes <= mlen
    &&& v.daddr + v.nbytes <= mlen
}

/// Whether stepping the addresses — including, on the last minor loop, the
/// wrap-around adjustments — keeps both of them in range.
pub open spec fn advance_ok(v: ChannelView) -> bool {
    if v.citer > 1 {
        &&& v.saddr + v.soff <= ADDRESS_LIMIT
        &&& v.daddr + v.doff <= ADDRESS_LIMIT
    } else {
        &&& 0 <= v.saddr + v.soff + v.slast <= ADDRESS_LIMIT
        &&& 0 <= v.daddr + v.doff + v.dlast <= ADDRESS_LIMIT
    }
}

/// The channel after one successful minor loop: addresses stepped, major
/// count decremented; on the final iteration the adjustments are applied,
/// the count reloads, and completion is recorded.
pub open spec fn spec_step(v: ChannelView) -> ChannelView {
    if v.citer > 1 {
        ChannelView {
            saddr: (v.saddr + v.soff) as u64,
            daddr: (v.daddr + v.doff) as u64,
            citer: (v.citer - 1) as u16,
            ..v
        }
    } else {
        ChannelView {
            saddr: (v.saddr + v.soff + v.slast) as u64,
            daddr: (v.daddr + v.doff + v.dlast) as u64,
            citer: v.biter,
            complete: true,
            started: false,
            enabled: v.enabled && !v.disable_on_completion,
            int_pending: v.int_pending || v.int_on_completion,
            ..v
        }
    }
}

/// The channel after a faulted service: error recorded with snapshot bits
/// `es`, channel disabled.
pub open spec fn spec_fault(v: ChannelView, es: u32) -> ChannelView {
    ChannelView { enabled: false, error: true, error_status: es, started: false, ..v }
}

/// One engine step over (channel, memory): exactly what
/// [`Channel::service`] does.
pub open spec fn spec_service(v: ChannelView, m: Seq<u8>) -> (ChannelView, Seq<u8>) {
    if !can_service(v) {
        (v, m)
    } else if !service_in_bounds(v, m.len() as int) {
        (spec_fault(v, (v.error_status | ES_BUS) as u32), m)
    } else if !advance_ok(v) {
        (spec_fault(v, (v.error_status | ES_ADJUSTMENT) as u32), m)
    } else {
        (spec_step(v), copy_block(m, v.saddr as int, v.daddr as int, v.nbytes as int))
    }
}

/// An ephemeral description of one endpoint of a transfer: where it starts,
/// how far each minor loop advances it, its circular-buffer modulo, and the
/// adjustment applied when the major loop completes.
pub struct Transfer {
    address: u64,
    offset: u64,
    modulo: u8,
    adjustment: i64,
}

impl Transfer {
    pub closed spec fn address(self) -> u64 {
        self.address
    }

    pub closed spec fn offset(self) -> u64 {
        self.offset
    }

    pub closed spec fn modulo(self) -> u8 {
        self.modulo
    }

    pub closed spec fn adjustment(self) -> i64 {
        self.adjustment
    }

    /// Every constructed transfer stays inside these ranges.
    pub open spec fn wf(self) -> bool {
        &&& self.address() <= ADDRESS_LIMIT
        &&& self.offset() <= 8
        &&& self.modulo() == 0
        &&& -0x10_0000 <= self.adjustment() <= 0x10_0000
    }

    /// An endpoint at a fixed peripheral register: the address never
    /// advances and no adjustment is applied.
    pub fn hardware(address: usize) -> (t: Transfer)
        requires
            address <= ADDRESS_LIMIT,
        ensures
            t.address() == address,
            t.offset() == 0,
            t.modulo() == 0,
            t.adjustment() == 0,
            t.wf(),
    {
        Transfer { address: address as u64, offset: 0, modulo: 0, adjustment: 0 }
    }

    /// A linear buffer of `len` elements of `elem_size` bytes: each minor
    /// loop advances by one element, and after a full pass the adjustment
    /// returns the address to its starting point.
    pub fn buffer_linear(address: usize, len: usize, elem_size: usize) -> (t: Transfer)
        requires
            address <= ADDRESS_LIMIT,
            1 <= elem_size <= 8,
            len <= 0xFFFF,
        ensures
            t.address() == address,
            t.offset() == elem_size,
            t.modulo() == 0,
            t.adjustment() == -(len * elem_size),
            t.wf(),
    {
        assert(len * elem_size <= 0xFFFF * 8) by (nonlinear_arith)
            requires
                len <= 0xFFFF,
                1 <= elem_size <= 8,
        ;
        let total: usize = len * elem_size;
        Transfer {
            address: address as u64,
            offset: elem_size as u64,
            modulo: 0,
            adjustment: -(total as i64),
        }
    }
}

/// One DMA channel: descriptor registers, control and status flags,
/// multiplexer routing, and the two shared interrupt slots.
pub struct Channel {
    index: usize,
    saddr: u64,
    soff: u64,
    smod: u8,
    slast: i64,
    daddr: u64,
    doff: u64,
    dmod: u8,
    dlast: i64,
    nbytes: u32,
    citer: u16,
    biter: u16,
    enabled: bool,
    int_on_completion: bool,
    disable_on_completion: bool,
    complete: bool,
    error: bool,
    error_status: u32,
    int_pending: bool,
    hw_signal: bool,
    started: bool,
    trigger: TriggerSelect,
    unmasked: bool,
    slot0: Shared,
    slot1: Shared,
}

impl View for Channel {
    type V = ChannelView;

    closed spec fn view(&self) -> ChannelView {
        ChannelView {
            index: self.index,
            saddr: self.saddr,
            soff: self.soff,
            smod: self.smod,
            slast: self.slast,
            daddr: self.daddr,
            doff: self.doff,
            dmod: self.dmod,
            dlast: self.dlast,
            nbytes: self.nbytes,
            citer: self.citer,
            biter: self.biter,
            enabled: self.enabled,
            int_on_completion: self.int_on_completion,
            disable_on_completion: self.disable_on_completion,
            complete: self.complete,
            error: self.error,
            error_status: self.error_status,
            int_pending: self.int_pending,
            hw_signal: self.hw_signal,
            started: self.started,
            trigger: self.trigger,
            unmasked: self.unmasked,
            slot0: self.slot0@,
            slot1: self.slot1@,
        }
    }
}

impl Channel {
    /// The channel number.
    pub fn channel(&self) -> (n: usize)
        ensures
            n == self@.index,
    {
        self.index
    }

    /// True when the transfer-control descriptor holds only zeroes; how a
    /// test bench inspects a freshly acquired or reset channel.
    pub fn descriptor_is_zeroed(&self) -> (r: bool)
        ensures
            r == self@.descriptor_zeroed(),
    {
        self.saddr == 0 && self.soff == 0 && self.smod == 0 && self.slast == 0 && self.daddr == 0
            && self.doff == 0 && self.dmod == 0 && self.dlast == 0 && self.nbytes == 0
            && self.citer == 0 && self.biter == 0
    }

    /// Zero the descriptor, disable the channel, clear every flag, and
    /// clear the multiplexer routing. The shared slots are left alone.
    pub fn reset(&mut self)
        ensures
            final(self)@ == (ChannelView {
                saddr: 0u64,
                soff: 0u64,
                smod: 0u8,
                slast: 0i64,
                daddr: 0u64,
                doff: 0u64,
                dmod: 0u8,
                dlast: 0i64,
                nbytes: 0u32,
                citer: 0u16,
                biter: 0u16,
                enabled: false,
                int_on_completion: false,
                disable_on_completion: false,
                complete: false,
                error: false,
                error_status: 0u32,
                int_pending: false,
                hw_signal: false,
                started: false,
                trigger: TriggerSelect::Off,
                ..old(self)@
            }),
            final(self)@.wf(),
    {
        self.saddr = 0;
        self.soff = 0;
        self.smod = 0;
        self.slast = 0;
        self.daddr = 0;
        self.doff = 0;
        self.dmod = 0;
        self.dlast = 0;
        self.nbytes = 0;
        self.citer = 0;
        self.biter = 0;
        self.enabled = false;
        self.int_on_completion = false;
        self.disable_on_completion = false;
        self.complete = false;
        self.error = false;
        self.error_status = 0;
        self.int_pending = false;
        self.hw_signal = false;
        self.started = false;
        self.trigger = TriggerSelect::Off;
    }

    /// Program the source half of the descriptor.
    pub fn set_source_transfer(&mut self, transfer: &Transfer)
        requires
            transfer.wf(),
        ensures
            final(self)@ == (ChannelView {
                saddr: transfer.address(),
                soff: transfer.offset(),
                smod: transfer.modulo(),
                slast: transfer.adjustment(),
                ..old(self)@
            }),
    {
        self.saddr = transfer.address;
        self.soff = transfer.offset;
        self.smod = transfer.modulo;
        self.slast = transfer.adjustment;
    }

    /// Program the destination half of the descriptor.
    pub fn set_destination_transfer(&mut self, transfer: &Transfer)
        requires
            transfer.wf(),
        ensures
            final(self)@ == (ChannelView {
                daddr: transfer.address(),
                doff: transfer.offset(),
                dmod: transfer.modulo(),
                dlast: transfer.adjustment(),
                ..old(self)@
            }),
    {
        self.daddr = transfer.address;
        self.doff = transfer.offset;
        self.dmod = transfer.modulo;
        self.dlast = transfer.adjustment;
    }

    /// Set the minor loop to move `count` elements of type `E` per service
    /// request.
    pub fn set_minor_loop_elements<E: Element>(&mut self, count: usize)
        requires
            count <= 0xFFFF,
        ensures
            final(self)@ == (ChannelView {
                nbytes: (count * E::size_spec()) as u32,
                ..old(self)@
            }),
            final(self)@.nbytes == count * E::size_spec(),
    {
        let sz = E::size();
        assert(count * sz <= 0xFFFF * 8) by (nonlinear_arith)
            requires
                count <= 0xFFFF,
                1 <= sz <= 8,
        ;
        self.nbytes = (count * sz) as u32;
    }

    /// Set the major loop iteration count: how many minor loops complete
    /// the whole transfer.
    pub fn set_transfer_iterations(&mut self, iterations: u16)
        ensures
            final(self)@ == (ChannelView { citer: iterations, biter: iterations, ..old(self)@ }),
    {
        self.citer = iterations;
        self.biter = iterations;
    }

    /// Raise the interrupt flag when the major loop completes.
    pub fn set_interrupt_on_completion(&mut self, on: bool)
        ensures
            final(self)@ == (ChannelView { int_on_completion: on, ..old(self)@ }),
    {
        self.int_on_completion = on;
    }

    /// Disable the channel when the major loop completes.
    pub fn set_disable_on_completion(&mut self, on: bool)
        ensures
            final(self)@ == (ChannelView { disable_on_completion: on, ..old(self)@ }),
    {
        self.disable_on_completion = on;
    }

    /// Route a peripheral request signal to this channel, or clear the
    /// routing with `None`.
    pub fn set_trigger_from_hardware(&mut self, signal: Option<u32>)
        ensures
            final(self)@ == (ChannelView {
                trigger: match signal {
                    Some(s) => TriggerSelect::Hardware(s),
                    None => TriggerSelect::Off,
                },
                ..old(self)@
            }),
    {
        self.trigger = match signal {
            Some(s) => TriggerSelect::Hardware(s),
            None => TriggerSelect::Off,
        };
    }

    /// Put the multiplexer in always-on mode: the channel is continuously
    /// serviced once enabled, with no external trigger.
    pub fn set_always_on(&mut self)
        ensures
            final(self)@ == (ChannelView { trigger: TriggerSelect::AlwaysOn, ..old(self)@ }),
    {
        self.trigger = TriggerSelect::AlwaysOn;
    }

    /// Enable the channel. A hardware-trigger selection out of range is
    /// rejected here: the error flag rises with a status snapshot instead
    /// of arming a bad routing.
    pub fn enable(&mut self)
        ensures
            final(self)@ == if invalid_signal(old(self)@.trigger) {
                (ChannelView {
                    enabled: true,
                    error: true,
                    error_status: (old(self)@.error_status | ES_INVALID_SIGNAL) as u32,
                    ..old(self)@
                })
            } else {
                (ChannelView { enabled: true, ..old(self)@ })
            },
    {
        self.enabled = true;
        match self.trigger {
            TriggerSelect::Hardware(s) => {
                if s >= REQUEST_SIGNAL_COUNT {
                    self.error = true;
                    self.error_status = self.error_status | ES_INVALID_SIGNAL;
                }
            },
            _ => {},
        }
    }

    /// Disable the channel; no further service requests are honored.
    pub fn disable(&mut self)
        ensures
            final(self)@ == (ChannelView { enabled: false, started: false, ..old(self)@ }),
    {
        self.enabled = false;
        self.started = false;
    }

    /// Software-start the channel's transfer, for channels without a
    /// hardware trigger.
    pub fn start(&mut self)
        ensures
            final(self)@ == (ChannelView { started: true, ..old(self)@ }),
    {
        self.started = true;
    }

    /// True while the channel is enabled.
    pub fn is_enabled(&self) -> (r: bool)
        ensures
            r == self@.enabled,
    {
        self.enabled
    }

    /// True once the major loop has completed and the flag has not been
    /// cleared.
    pub fn is_complete(&self) -> (r: bool)
        ensures
            r == self@.complete,
    {
        self.complete
    }

    /// Clear the completion flag.
    pub fn clear_complete(&mut self)
        ensures
            final(self)@ == (ChannelView { complete: false, ..old(self)@ }),
    {
        self.complete = false;
    }

    /// True when the channel has recorded an error.
    pub fn is_error(&self) -> (r: bool)
        ensures
            r == self@.error,
    {
        self.error
    }

    /// The error-status register snapshot.
    pub fn error_status(&self) -> (r: u32)
        ensures
            r == self@.error_status,
    {
        self.error_status
    }

    /// Clear the error flag and its status snapshot.
    pub fn clear_error(&mut self)
        ensures
            final(self)@ == (ChannelView { error: false, error_status: 0u32, ..old(self)@ }),
    {
        self.error = false;
        self.error_status = 0;
    }

    /// True while the interrupt line is pending.
    pub fn is_interrupt(&self) -> (r: bool)
        ensures
            r == self@.int_pending,
    {
        self.int_pending
    }

    /// Clear the pending interrupt.
    pub fn clear_interrupt(&mut self)
        ensures
            final(self)@ == (ChannelView { int_pending: false, ..old(self)@ }),
    {
        self.int_pending = false;
    }

    /// True while the routed peripheral still asserts its request signal.
    pub fn is_hardware_signaling(&self) -> (r: bool)
        ensures
            r == self@.hw_signal,
    {
        self.hw_signal
    }

    /// Drive the modeled peripheral request line; how a test bench makes the
    /// routed peripheral assert or withdraw its request.
    pub fn set_hardware_signal(&mut self, on: bool)
        ensures
            final(self)@ == (ChannelView { hw_signal: on, ..old(self)@ }),
    {
        self.hw_signal = on;
    }

    /// Block until the routed peripheral stops signaling. In the model the
    /// wait is one atomic step: it returns at the moment the request line
    /// has deasserted.
    pub fn wait_hardware_quiescent(&mut self)
        ensures
            final(self)@ == (ChannelView { hw_signal: false, ..old(self)@ }),
    {
        self.hw_signal = false;
    }

    /// Execute one service request: one minor loop of the armed transfer.
    /// The effect on the channel and on memory is exactly one
    /// [`spec_service`] step.
    #[verifier::rlimit(60)]
    pub fn service(&mut self, mem: &mut Memory) -> (outcome: ServiceOutcome)
        requires
            old(self)@.wf(),
        ensures
            final(self)@.wf(),
            (final(self)@, final(mem)@) == spec_service(old(self)@, old(mem)@),
            outcome == ServiceOutcome::Idle <==> !can_service(old(self)@),
            outcome == ServiceOutcome::Faulted <==> (can_service(old(self)@) && !(
            service_in_bounds(old(self)@, old(mem)@.len() as int) && advance_ok(old(self)@))),
            outcome == ServiceOutcome::Completed <==> (can_service(old(self)@)
                && service_in_bounds(old(self)@, old(mem)@.len() as int) && advance_ok(old(self)@)
                && old(self)@.citer == 1),
    {
        if !self.enabled || self.citer == 0 {
            return ServiceOutcome::Idle;
        }
        let mlen: u64 = mem.len() as u64;
        if self.saddr + (self.nbytes as u64) > mlen || self.daddr + (self.nbytes as u64) > mlen {
            self.error = true;
            self.error_status = self.error_status | ES_BUS;
            self.enabled = false;
            self.started = false;
            return ServiceOutcome::Faulted;
        }
        if self.citer == 1 {
            let s_next: i64 = (self.saddr + self.soff) as i64 + self.slast;
            let d_next: i64 = (self.daddr + self.doff) as i64 + self.dlast;
            if s_next < 0 || s_next > ADDRESS_LIMIT as i64 || d_next < 0 || d_next
                > ADDRESS_LIMIT as i64 {
                self.error = true;
                self.error_status = self.error_status | ES_ADJUSTMENT;
                self.enabled = false;
                self.started = false;
                return ServiceOutcome::Faulted;
            }
            self.copy_minor_loop(mem);
            self.saddr = (s_next) as u64;
            self.daddr = (d_next) as u64;
            self.citer = self.biter;
            self.complete = true;
            self.started = false;
            if self.disable_on_completion {
                self.enabled = false;
            }
            if self.int_on_completion {
                self.int_pending = true;
            }
            ServiceOutcome::Completed
        } else {
            if self.saddr + self.soff > ADDRESS_LIMIT || self.daddr + self.doff > ADDRESS_LIMIT {
                self.error = true;
                self.error_status = self.error_status | ES_ADJUSTMENT;
                self.enabled = false;
                self.started = false;
                return ServiceOutcome::Faulted;
            }
            self.copy_minor_loop(mem);
            self.saddr = self.saddr + self.soff;
            self.daddr = self.daddr + self.doff;
            self.citer = self.citer - 1;
            ServiceOutcome::Serviced
        }
    }

    /// Move the `nbytes` bytes of the current minor loop.
    fn copy_minor_loop(&self, mem: &mut Memory)
        requires
            self@.saddr + self@.nbytes <= old(mem)@.len(),
            self@.daddr + self@.nbytes <= old(mem)@.len(),
        ensures
            final(mem)@ == copy_block(
                old(mem)@,
                self@.saddr as int,
                self@.daddr as int,
                self@.nbytes as int,
            ),
            final(mem).reserved() == old(mem).reserved(),
    {
        let mlen = mem.len();
        let data = mem.read_bytes(self.saddr as usize, self.nbytes as usize);
        mem.write_bytes(self.daddr as usize, &data);
        assert(mem@ =~= copy_block(
            old(mem)@,
            self@.saddr as int,
            self@.daddr as int,
            self@.nbytes as int,
        ));
    }
}

/// True when the trigger selection names a request signal the multiplexer
/// does not have.
pub open spec fn invalid_signal(t: TriggerSelect) -> bool {
    match t {
        TriggerSelect::Hardware(s) => s >= REQUEST_SIGNAL_COUNT,
        _ => false,
    }
}

/// Initialize and acquire the DMA channel pool.
///
/// Every returned channel has its descriptor reset to zeroes, is disabled,
/// and has its owning interrupt line unmasked.
pub fn channels() -> (r: Vec<Option<Channel>>)
    ensures
        r@.len() == CHANNEL_COUNT,
        forall|i: int|
            0 <= i < CHANNEL_COUNT ==> ((#[trigger] r@[i]) matches Some(c) && c@.is_reset(i) && c@.wf()),
{
    let mut r: Vec<Option<Channel>> = Vec::new();
    let mut i: usize = 0;
    while i < CHANNEL_COUNT
        invariant
            i <= CHANNEL_COUNT,
            r@.len() == i,
            forall|j: int| 0 <= j < i ==> ((#[trigger] r@[j]) matches Some(c) && c@.is_reset(j) && c@.wf()),
        decreases CHANNEL_COUNT - i,
    {
        let mut c = Channel {
            index: i,
            saddr: 0,
            soff: 0,
            smod: 0,
            slast: 0,
            daddr: 0,
            doff: 0,
            dmod: 0,
            dlast: 0,
            nbytes: 0,
            citer: 0,
            biter: 0,
            enabled: false,
            int_on_completion: false,
            disable_on_completion: false,
            complete: false,
            error: false,
            error_status: 0,
            int_pending: false,
            hw_signal: false,
            started: false,
            trigger: TriggerSelect::Off,
            unmasked: true,
            slot0: Shared::new(),
            slot1: Shared::new(),
        };
        c.reset();
        r.push(Some(c));
        i = i + 1;
    }
    r
}

} // verus!
