//! Peripheral DMA endpoints and the one-shot `receive` / `transfer`
//! operations built on them.
//!
//! A peripheral driver becomes a DMA endpoint by implementing [`Source`] or
//! [`Destination`]: it names its fixed request signal, its data-register
//! address, and hooks that toggle its own DMA-request enable. The core
//! consumes that contract; it never implements it.
//!
//! [`receive`] and [`transfer`] arm exactly one hardware-triggered,
//! element-granularity transfer between the peripheral register and a linear
//! buffer, then hand back an operation to poll. On every exit path — success,
//! setup failure, or abandonment — the operation disables the peripheral
//! request and waits for residual hardware signaling to clear before the
//! channel is released, so the buffer region is free the moment the call
//! resolves.

use vstd::prelude::*;

use crate::dma::interrupt::interrupt;
use crate::dma::interrupt::spec_interrupt_poll;
use crate::dma::interrupt::Interrupt;
use crate::dma::SlotView;
use crate::dma::interrupt::PENDING;
use crate::dma::interrupt::READY;
use crate::dma::interrupt::UNDEFINED;
use crate::dma::Channel;
use crate::dma::ChannelView;
use crate::dma::Element;
use crate::dma::Transfer;
use crate::dma::TriggerSelect;
use crate::dma::ADDRESS_LIMIT;
use crate::Error;
use crate::Poll;

verus! {

/// A peripheral that can feed a DMA transfer with elements of type `E`.
///
/// The spec functions are the peripheral's side of the endpoint contract:
/// its fixed signal and register address, whether its DMA-request
/// generation is on, and the exact effect of toggling it. The arming and
/// release contracts below are stated over them, so what `receive` and
/// `transfer` promise is tied to the endpoint the caller supplied.
pub trait Source<E>: Sized {
    /// The fixed request-multiplexer signal for this peripheral's
    /// receive direction.
    spec fn source_signal_spec(&self) -> u32;

    /// The fixed data-register address the transfer reads from.
    spec fn source_address_spec(&self) -> usize;

    /// Whether the peripheral's own DMA-request generation is on.
    spec fn source_request_enabled(&self) -> bool;

    /// The peripheral after [`Source::enable_source`].
    spec fn source_enabled_spec(&self) -> Self;

    /// The peripheral after [`Source::disable_source`].
    spec fn source_disabled_spec(&self) -> Self;

    /// The fixed request-multiplexer signal for this peripheral's
    /// receive direction.
    fn source_signal(&self) -> (signal: u32)
        ensures
            signal == self.source_signal_spec(),
    ;

    /// The fixed data-register address the transfer reads from.
    fn source_address(&self) -> (a: usize)
        ensures
            a == self.source_address_spec(),
    ;

    /// Enable the peripheral's own DMA-request generation, clearing stale
    /// status flags first.
    fn enable_source(&mut self)
        ensures
            *final(self) == old(self).source_enabled_spec(),
            final(self).source_request_enabled(),
            final(self).source_signal_spec() == old(self).source_signal_spec(),
            final(self).source_address_spec() == old(self).source_address_spec(),
    ;

    /// Disable the peripheral's DMA-request generation.
    fn disable_source(&mut self)
        ensures
            *final(self) == old(self).source_disabled_spec(),
            !final(self).source_request_enabled(),
            final(self).source_signal_spec() == old(self).source_signal_spec(),
            final(self).source_address_spec() == old(self).source_address_spec(),
    ;
}

/// A peripheral that can accept elements of type `E` from a DMA transfer;
/// the mirror of [`Source`].
pub trait Destination<E>: Sized {
    /// The fixed request-multiplexer signal for this peripheral's
    /// transmit direction.
    spec fn destination_signal_spec(&self) -> u32;

    /// The fixed data-register address the transfer writes to.
    spec fn destination_address_spec(&self) -> usize;

    /// Whether the peripheral's own DMA-request generation is on.
    spec fn destination_request_enabled(&self) -> bool;

    /// The peripheral after [`Destination::enable_destination`].
    spec fn destination_enabled_spec(&self) -> Self;

    /// The peripheral after [`Destination::disable_destination`].
    spec fn destination_disabled_spec(&self) -> Self;

    /// The fixed request-multiplexer signal for this peripheral's
    /// transmit direction.
    fn destination_signal(&self) -> (signal: u32)
        ensures
            signal == self.destination_signal_spec(),
    ;

    /// The fixed data-register address the transfer writes to.
    fn destination_address(&self) -> (a: usize)
        ensures
            a == self.destination_address_spec(),
    ;

    /// Enable the peripheral's own DMA-request generation.
    fn enable_destination(&mut self)
        ensures
            *final(self) == old(self).destination_enabled_spec(),
            final(self).destination_request_enabled(),
            final(self).destination_signal_spec() == old(self).destination_signal_spec(),
            final(self).destination_address_spec() == old(self).destination_address_spec(),
    ;

    /// Disable the peripheral's DMA-request generation.
    fn disable_destination(&mut self)
        ensures
            *final(self) == old(self).destination_disabled_spec(),
            !final(self).destination_request_enabled(),
            final(self).destination_signal_spec() == old(self).destination_signal_spec(),
            final(self).destination_address_spec() == old(self).destination_address_spec(),
    ;
}

/// A loopback endpoint: one data register in model memory, a request
/// signal per direction, and the request-enable flags the hooks toggle.
///
/// It stands in for a serial peripheral when exercising transfers: a test
/// bench plays the device by draining or refilling the register between
/// service requests, which is how the round-trip and cancellation
/// behaviors are observed without hardware.
pub struct LoopbackEndpoint {
    /// Address of the data register in system memory.
    pub register: usize,
    /// Request signal of the receive direction.
    pub rx_signal: u32,
    /// Request signal of the transmit direction.
    pub tx_signal: u32,
    /// Whether the receive-direction request generation is on.
    pub source_on: bool,
    /// Whether the transmit-direction request generation is on.
    pub destination_on: bool,
}

impl LoopbackEndpoint {
    /// A loopback endpoint over the data register at `register`, with
    /// both request generations off.
    pub fn new(register: usize, rx_signal: u32, tx_signal: u32) -> (r: LoopbackEndpoint)
        ensures
            r == (LoopbackEndpoint {
                register,
                rx_signal,
                tx_signal,
                source_on: false,
                destination_on: false,
            }),
    {
        LoopbackEndpoint { register, rx_signal, tx_signal, source_on: false, destination_on: false }
    }
}

impl<E> Source<E> for LoopbackEndpoint {
    open spec fn source_signal_spec(&self) -> u32 {
        self.rx_signal
    }

    open spec fn source_address_spec(&self) -> usize {
        self.register
    }

    open spec fn source_request_enabled(&self) -> bool {
        self.source_on
    }

    open spec fn source_enabled_spec(&self) -> Self {
        LoopbackEndpoint { source_on: true, ..*self }
    }

    open spec fn source_disabled_spec(&self) -> Self {
        LoopbackEndpoint { source_on: false, ..*self }
    }

    fn source_signal(&self) -> (signal: u32) {
        self.rx_signal
    }

    fn source_address(&self) -> (a: usize) {
        self.register
    }

    fn enable_source(&mut self) {
        self.source_on = true;
    }

    fn disable_source(&mut self) {
        self.source_on = false;
    }
}

impl<E> Destination<E> for LoopbackEndpoint {
    open spec fn destination_signal_spec(&self) -> u32 {
        self.tx_signal
    }

    open spec fn destination_address_spec(&self) -> usize {
        self.register
    }

    open spec fn destination_request_enabled(&self) -> bool {
        self.destination_on
    }

    open spec fn destination_enabled_spec(&self) -> Self {
        LoopbackEndpoint { destination_on: true, ..*self }
    }

    open spec fn destination_disabled_spec(&self) -> Self {
        LoopbackEndpoint { destination_on: false, ..*self }
    }

    fn destination_signal(&self) -> (signal: u32) {
        self.tx_signal
    }

    fn destination_address(&self) -> (a: usize) {
        self.register
    }

    fn enable_destination(&mut self) {
        self.destination_on = true;
    }

    fn disable_destination(&mut self) {
        self.destination_on = false;
    }
}

/// The channel state after an operation has fully released it: disabled,
/// completion flag clear, no parked token, and no residual hardware signal.
pub open spec fn spec_released(c: ChannelView) -> ChannelView {
    ChannelView {
        enabled: false,
        started: false,
        complete: false,
        hw_signal: false,
        slot0: SlotView { waker: None::<u32>, ..c.slot0 },
        ..c
    }
}

/// What one poll of a one-shot operation does: an [`Interrupt`] poll, with
/// the release steps folded in when the operation resolves, and the
/// element count as the success value.
pub open spec fn spec_transfer_poll(op: u32, c: ChannelView, waker: u32, len: usize) -> (
    u32,
    ChannelView,
    Poll<Result<usize, Error>>,
) {
    let (op1, c1, r1) = spec_interrupt_poll(op, c, waker);
    match r1 {
        Poll::Pending => (op1, c1, Poll::<Result<usize, Error>>::Pending),
        Poll::Ready(res) => (
            UNDEFINED,
            spec_released(c1),
            Poll::Ready(
                match res {
                    Ok(()) => Result::<usize, Error>::Ok(len),
                    Err(e) => Result::<usize, Error>::Err(e),
                },
            ),
        ),
    }
}

/// The descriptor shape [`receive`] arms: hardware register source, linear
/// buffer destination of `len` elements of `esize` bytes at `buffer`, one
/// element per service request, completion interrupt armed.
pub open spec fn spec_rx_armed(
    pre: ChannelView,
    post: ChannelView,
    buffer: usize,
    len: usize,
    esize: nat,
    signal: u32,
    register: usize,
) -> bool {
    &&& post.saddr == spec_clamp_address(register)
    &&& post.soff == 0 && post.smod == 0 && post.slast == 0
    &&& post.daddr == buffer && post.doff == esize && post.dmod == 0
    &&& post.dlast == -(len * esize)
    &&& post.nbytes == esize
    &&& post.citer == len && post.biter == len
    &&& post.int_on_completion && post.disable_on_completion
    &&& post.trigger == TriggerSelect::Hardware(signal)
    &&& post.enabled == pre.enabled
    &&& post.complete == pre.complete
    &&& post.error == pre.error && post.error_status == pre.error_status
    &&& post.int_pending == pre.int_pending
    &&& post.started == pre.started
    &&& post.slot0 == pre.slot0 && post.slot1 == pre.slot1
    &&& post.wf()
}

/// The descriptor shape [`transfer`] arms: linear buffer source, hardware
/// register destination.
pub open spec fn spec_tx_armed(
    pre: ChannelView,
    post: ChannelView,
    buffer: usize,
    len: usize,
    esize: nat,
    signal: u32,
    register: usize,
) -> bool {
    &&& post.daddr == spec_clamp_address(register)
    &&& post.doff == 0 && post.dmod == 0 && post.dlast == 0
    &&& post.saddr == buffer && post.soff == esize && post.smod == 0
    &&& post.slast == -(len * esize)
    &&& post.nbytes == esize
    &&& post.citer == len && post.biter == len
    &&& post.int_on_completion && post.disable_on_completion
    &&& post.trigger == TriggerSelect::Hardware(signal)
    &&& post.enabled == pre.enabled
    &&& post.complete == pre.complete
    &&& post.error == pre.error && post.error_status == pre.error_status
    &&& post.int_pending == pre.int_pending
    &&& post.started == pre.started
    &&& post.slot0 == pre.slot0 && post.slot1 == pre.slot1
    &&& post.wf()
}

/// A register address as the descriptor's address field can hold it: an
/// address beyond the engine's reach is pinned to the limit. A pinned
/// address still points outside every memory the engine accepts, so a
/// transfer armed with one faults at its first service request instead of
/// moving data.
pub open spec fn spec_clamp_address(a: usize) -> usize {
    if a > ADDRESS_LIMIT {
        ADDRESS_LIMIT as usize
    } else {
        a
    }
}

/// Exec mirror of [`spec_clamp_address`].
fn clamp_address(a: usize) -> (r: usize)
    ensures
        r == spec_clamp_address(a),
        r <= ADDRESS_LIMIT,
{
    if (a as u64) > ADDRESS_LIMIT {
        ADDRESS_LIMIT as usize
    } else {
        a
    }
}

/// A pending one-shot receive: peripheral register to caller buffer.
pub struct Rx {
    op: Interrupt,
    len: usize,
}

impl View for Rx {
    type V = (u32, usize);

    closed spec fn view(&self) -> (u32, usize) {
        (self.op@, self.len)
    }
}

/// A pending one-shot transmit: caller buffer to peripheral register.
pub struct Tx {
    op: Interrupt,
    len: usize,
}

impl View for Tx {
    type V = (u32, usize);

    closed spec fn view(&self) -> (u32, usize) {
        (self.op@, self.len)
    }
}

/// Arm `channel` to receive `len` elements from `source` into the linear
/// buffer at `buffer`, and enable the peripheral's request. Poll the
/// returned operation to completion — or cancel it — to run the transfer
/// and release the channel.
pub fn receive<E: Element, S: Source<E>>(
    channel: &mut Channel,
    source: &mut S,
    buffer: usize,
    len: usize,
) -> (rx: Rx)
    requires
        buffer <= ADDRESS_LIMIT,
        len <= 0xFFFF,
    ensures
        spec_rx_armed(
            old(channel)@,
            final(channel)@,
            buffer,
            len,
            E::size_spec(),
            old(source).source_signal_spec(),
            old(source).source_address_spec(),
        ),
        *final(source) == old(source).source_enabled_spec(),
        final(source).source_request_enabled(),
        rx@ == (READY, len),
{
    let signal = source.source_signal();
    channel.set_trigger_from_hardware(Some(signal));
    let source_register = Transfer::hardware(clamp_address(source.source_address()));
    channel.set_source_transfer(&source_register);
    let esize = E::size();
    let buffer_description = Transfer::buffer_linear(buffer, len, esize);
    channel.set_destination_transfer(&buffer_description);
    channel.set_minor_loop_elements::<E>(1);
    channel.set_transfer_iterations(len as u16);
    source.enable_source();
    let op = interrupt(channel);
    Rx { op, len }
}

/// Arm `channel` to transmit the `len` elements in the linear buffer at
/// `buffer` to `destination`, and enable the peripheral's request.
pub fn transfer<E: Element, D: Destination<E>>(
    channel: &mut Channel,
    destination: &mut D,
    buffer: usize,
    len: usize,
) -> (tx: Tx)
    requires
        buffer <= ADDRESS_LIMIT,
        len <= 0xFFFF,
    ensures
        spec_tx_armed(
            old(channel)@,
            final(channel)@,
            buffer,
            len,
            E::size_spec(),
            old(destination).destination_signal_spec(),
            old(destination).destination_address_spec(),
        ),
        *final(destination) == old(destination).destination_enabled_spec(),
        final(destination).destination_request_enabled(),
        tx@ == (READY, len),
{
    let signal = destination.destination_signal();
    channel.set_trigger_from_hardware(Some(signal));
    let destination_register = Transfer::hardware(clamp_address(destination.destination_address()));
    channel.set_destination_transfer(&destination_register);
    let esize = E::size();
    let buffer_description = Transfer::buffer_linear(buffer, len, esize);
    channel.set_source_transfer(&buffer_description);
    channel.set_minor_loop_elements::<E>(1);
    channel.set_transfer_iterations(len as u16);
    destination.enable_destination();
    let op = interrupt(channel);
    Tx { op, len }
}

impl Rx {
    /// One resumption-poll of the receive. When the operation resolves —
    /// with the element count, a `Setup` rejection, or `ScheduledTransfer`
    /// — the peripheral request is disabled, residual signaling is waited
    /// out, and the channel is released.
    pub fn poll<E: Element, S: Source<E>>(
        &mut self,
        channel: &mut Channel,
        source: &mut S,
        waker: u32,
    ) -> (r: Poll<Result<usize, Error>>)
        ensures
            (final(self)@.0, final(channel)@, r) == spec_transfer_poll(
                old(self)@.0,
                old(channel)@,
                waker,
                old(self)@.1,
            ),
            final(self)@.1 == old(self)@.1,
            r is Pending ==> *final(source) == *old(source),
            r matches Poll::Ready(_) ==> *final(source) == old(source).source_disabled_spec()
                && !final(source).source_request_enabled(),
    {
        let polled = self.op.poll(channel, waker);
        match polled {
            Poll::Pending => Poll::Pending,
            Poll::Ready(res) => {
                source.disable_source();
                channel.wait_hardware_quiescent();
                self.op.cancel(channel);
                match res {
                    Ok(()) => Poll::Ready(Ok(self.len)),
                    Err(e) => Poll::Ready(Err(e)),
                }
            },
        }
    }

    /// Abandon the receive before completion: withdraw the peripheral's
    /// request, wait until the hardware stops signaling, and release the
    /// channel, leaving it disabled with its completion flag clear.
    pub fn cancel<E: Element, S: Source<E>>(&mut self, channel: &mut Channel, source: &mut S)
        ensures
            final(channel)@ == spec_released(old(channel)@),
            *final(source) == old(source).source_disabled_spec(),
            !final(source).source_request_enabled(),
            final(self)@.0 == UNDEFINED,
            final(self)@.1 == old(self)@.1,
    {
        source.disable_source();
        channel.wait_hardware_quiescent();
        self.op.cancel(channel);
    }
}

impl Tx {
    /// One resumption-poll of the transmit; the mirror of [`Rx::poll`].
    pub fn poll<E: Element, D: Destination<E>>(
        &mut self,
        channel: &mut Channel,
        destination: &mut D,
        waker: u32,
    ) -> (r: Poll<Result<usize, Error>>)
        ensures
            (final(self)@.0, final(channel)@, r) == spec_transfer_poll(
                old(self)@.0,
                old(channel)@,
                waker,
                old(self)@.1,
            ),
            final(self)@.1 == old(self)@.1,
            r is Pending ==> *final(destination) == *old(destination),
            r matches Poll::Ready(_) ==> *final(destination) == old(
                destination,
            ).destination_disabled_spec() && !final(destination).destination_request_enabled(),
    {
        let polled = self.op.poll(channel, waker);
        match polled {
            Poll::Pending => Poll::Pending,
            Poll::Ready(res) => {
                destination.disable_destination();
                channel.wait_hardware_quiescent();
                self.op.cancel(channel);
                match res {
                    Ok(()) => Poll::Ready(Ok(self.len)),
                    Err(e) => Poll::Ready(Err(e)),
                }
            },
        }
    }

    /// Abandon the transmit before completion; the mirror of
    /// [`Rx::cancel`].
    pub fn cancel<E: Element, D: Destination<E>>(
        &mut self,
        channel: &mut Channel,
        destination: &mut D,
    )
        ensures
            final(channel)@ == spec_released(old(channel)@),
            *final(destination) == old(destination).destination_disabled_spec(),
            !final(destination).destination_request_enabled(),
            final(self)@.0 == UNDEFINED,
            final(self)@.1 == old(self)@.1,
    {
        destination.disable_destination();
        channel.wait_hardware_quiescent();
        self.op.cancel(channel);
    }
}

/// A pending full-duplex transfer over two channels: one transmits the
/// buffer to the peripheral while the other receives the peripheral's
/// replies back into it.
pub struct FullDuplex {
    rx: Interrupt,
    tx: Interrupt,
    rx_done: bool,
    tx_done: bool,
    len: usize,
}

impl FullDuplex {
    /// Number of elements moved in each direction.
    pub closed spec fn len_spec(&self) -> usize {
        self.len
    }

    /// Both halves have completed.
    pub closed spec fn done(&self) -> bool {
        self.rx_done && self.tx_done
    }

    /// The receive half has completed, or its operation is pending.
    pub closed spec fn rx_resolved(&self) -> bool {
        self.rx_done
    }

    /// The transmit half has completed, or its operation is pending.
    pub closed spec fn tx_resolved(&self) -> bool {
        self.tx_done
    }

    /// The interrupt-operation states of the two halves, receive first.
    pub closed spec fn op_states(&self) -> (u32, u32) {
        (self.rx@, self.tx@)
    }
}

/// The channel flags a released one-shot operation leaves behind: disabled,
/// completion flag clear, no residual signal, no parked token.
pub open spec fn is_released(c: ChannelView) -> bool {
    &&& !c.enabled && !c.started && !c.complete && !c.hw_signal
    &&& c.slot0.waker is None
}

/// The descriptor, routing, and slot-1 state of `b` equal those of `a`:
/// only status flags and slot 0 may differ.
pub open spec fn control_unchanged(a: ChannelView, b: ChannelView) -> bool {
    b == (ChannelView {
        enabled: b.enabled,
        started: b.started,
        complete: b.complete,
        error: b.error,
        error_status: b.error_status,
        int_pending: b.int_pending,
        hw_signal: b.hw_signal,
        slot0: b.slot0,
        ..a
    })
}

/// Arm a full-duplex transfer with `device`: `rx_channel` receives `len`
/// elements into the buffer at `buffer` while `tx_channel` transmits the
/// same region out.
pub fn full_duplex<E: Element, P: Source<E> + Destination<E>>(
    rx_channel: &mut Channel,
    tx_channel: &mut Channel,
    device: &mut P,
    buffer: usize,
    len: usize,
) -> (fd: FullDuplex)
    requires
        buffer <= ADDRESS_LIMIT,
        len <= 0xFFFF,
    ensures
        spec_rx_armed(
            old(rx_channel)@,
            final(rx_channel)@,
            buffer,
            len,
            E::size_spec(),
            Source::<E>::source_signal_spec(old(device)),
            Source::<E>::source_address_spec(old(device)),
        ),
        spec_tx_armed(
            old(tx_channel)@,
            final(tx_channel)@,
            buffer,
            len,
            E::size_spec(),
            Destination::<E>::destination_signal_spec(old(device)),
            Destination::<E>::destination_address_spec(old(device)),
        ),
        *final(device) == Destination::<E>::destination_enabled_spec(
            &Source::<E>::source_enabled_spec(old(device)),
        ),
        Destination::<E>::destination_request_enabled(final(device)),
        fd.len_spec() == len,
        !fd.done(),
{
    let rx_signal = Source::<E>::source_signal(device);
    let rx_register = Transfer::hardware(clamp_address(Source::<E>::source_address(device)));
    let tx_signal = Destination::<E>::destination_signal(device);
    let tx_register = Transfer::hardware(
        clamp_address(Destination::<E>::destination_address(device)),
    );

    rx_channel.set_trigger_from_hardware(Some(rx_signal));
    rx_channel.set_source_transfer(&rx_register);
    let esize = E::size();
    let rx_buffer = Transfer::buffer_linear(buffer, len, esize);
    rx_channel.set_destination_transfer(&rx_buffer);
    rx_channel.set_minor_loop_elements::<E>(1);
    rx_channel.set_transfer_iterations(len as u16);
    device.enable_source();
    let rx = interrupt(rx_channel);

    tx_channel.set_trigger_from_hardware(Some(tx_signal));
    tx_channel.set_destination_transfer(&tx_register);
    let tx_buffer = Transfer::buffer_linear(buffer, len, esize);
    tx_channel.set_source_transfer(&tx_buffer);
    tx_channel.set_minor_loop_elements::<E>(1);
    tx_channel.set_transfer_iterations(len as u16);
    device.enable_destination();
    let tx = interrupt(tx_channel);

    FullDuplex { rx, tx, rx_done: false, tx_done: false, len }
}

impl FullDuplex {
    /// One resumption-poll of the full-duplex transfer: polls whichever
    /// halves are still outstanding, resolves with the element count once
    /// both have completed, and on any resolution — success or failure —
    /// disables both peripheral requests, waits the hardware out, and
    /// releases both channels.
    #[verifier::rlimit(100)]
    pub fn poll<E: Element, P: Source<E> + Destination<E>>(
        &mut self,
        rx_channel: &mut Channel,
        tx_channel: &mut Channel,
        device: &mut P,
        waker: u32,
    ) -> (r: Poll<Result<usize, Error>>)
        ensures
            final(self).len_spec() == old(self).len_spec(),
            control_unchanged(old(rx_channel)@, final(rx_channel)@),
            control_unchanged(old(tx_channel)@, final(tx_channel)@),
            r matches Poll::Ready(res) ==> {
                &&& is_released(final(rx_channel)@)
                &&& is_released(final(tx_channel)@)
                &&& *final(device) == Destination::<E>::destination_disabled_spec(
                    &Source::<E>::source_disabled_spec(old(device)),
                )
                &&& !Destination::<E>::destination_request_enabled(final(device))
                &&& (res matches Ok(n) ==> n == old(self).len_spec() && final(self).done())
            },
            r is Pending ==> !final(self).done() && *final(device) == *old(device),
            (old(self).rx_resolved() || (old(self).op_states().0 == PENDING && old(
                rx_channel,
            )@.complete)) && (old(self).tx_resolved() || (old(self).op_states().1 == PENDING && old(
                tx_channel,
            )@.complete)) ==> r == Poll::Ready(Result::<usize, Error>::Ok(old(self).len_spec())),
    {
        if !self.rx_done {
            match self.rx.poll(rx_channel, waker) {
                Poll::Ready(Ok(())) => {
                    self.rx_done = true;
                },
                Poll::Ready(Err(e)) => {
                    self.release_all(rx_channel, tx_channel, device);
                    return Poll::Ready(Err(e));
                },
                Poll::Pending => {},
            }
        }
        if !self.tx_done {
            match self.tx.poll(tx_channel, waker) {
                Poll::Ready(Ok(())) => {
                    self.tx_done = true;
                },
                Poll::Ready(Err(e)) => {
                    self.release_all(rx_channel, tx_channel, device);
                    return Poll::Ready(Err(e));
                },
                Poll::Pending => {},
            }
        }
        if self.rx_done && self.tx_done {
            self.release_all(rx_channel, tx_channel, device);
            Poll::Ready(Ok(self.len))
        } else {
            Poll::Pending
        }
    }

    /// Disable both peripheral requests, wait out the hardware, and release
    /// both channels.
    fn release_all<E: Element, P: Source<E> + Destination<E>>(
        &mut self,
        rx_channel: &mut Channel,
        tx_channel: &mut Channel,
        device: &mut P,
    )
        ensures
            final(rx_channel)@ == spec_released(old(rx_channel)@),
            final(tx_channel)@ == spec_released(old(tx_channel)@),
            *final(device) == Destination::<E>::destination_disabled_spec(
                &Source::<E>::source_disabled_spec(old(device)),
            ),
            !Destination::<E>::destination_request_enabled(final(device)),
            final(self).len_spec() == old(self).len_spec(),
            final(self).rx_resolved() == old(self).rx_resolved(),
            final(self).tx_resolved() == old(self).tx_resolved(),
    {
        device.disable_source();
        device.disable_destination();
        rx_channel.wait_hardware_quiescent();
        tx_channel.wait_hardware_quiescent();
        self.rx.cancel(rx_channel);
        self.tx.cancel(tx_channel);
    }

    /// Abandon the transfer: both requests withdrawn, both channels
    /// released.
    pub fn cancel<E: Element, P: Source<E> + Destination<E>>(
        &mut self,
        rx_channel: &mut Channel,
        tx_channel: &mut Channel,
        device: &mut P,
    )
        ensures
            final(rx_channel)@ == spec_released(old(rx_channel)@),
            final(tx_channel)@ == spec_released(old(tx_channel)@),
            *final(device) == Destination::<E>::destination_disabled_spec(
                &Source::<E>::source_disabled_spec(old(device)),
            ),
            !Destination::<E>::destination_request_enabled(final(device)),
            final(self).len_spec() == old(self).len_spec(),
    {
        self.release_all(rx_channel, tx_channel, device);
    }
}

} // verus!
