//! Asynchronous I2C commands.
//!
//! Each `poll_*` function performs one step of an I2C transaction against
//! the master's registers: it checks the error flags, acts when the
//! relevant status bit is up, and otherwise parks the resumption token and
//! enables exactly the interrupts that will report readiness.

use vstd::prelude::*;

use crate::i2c::Error;
use crate::regs::Lpi2cInstance;
use crate::Poll;

verus! {

/// Status: transmit FIFO has room.
pub const MSR_TDF: u32 = 0x1;

/// Status: receive FIFO has data.
pub const MSR_RDF: u32 = 0x2;

/// Status: end of packet (repeated start or stop observed).
pub const MSR_EPF: u32 = 0x100;

/// Status: stop condition generated.
pub const MSR_SDF: u32 = 0x200;

/// Status: a NACK was detected.
pub const MSR_NDF: u32 = 0x400;

/// Status: arbitration lost.
pub const MSR_ALF: u32 = 0x800;

/// Status: FIFO error.
pub const MSR_FEF: u32 = 0x1000;

/// Status: pin low timeout.
pub const MSR_PLTF: u32 = 0x2000;

/// Status: master busy.
pub const MSR_MBF: u32 = 0x100_0000;

/// Status: bus busy.
pub const MSR_BBF: u32 = 0x200_0000;

/// Interrupt enable: transmit ready.
pub const MIER_TDIE: u32 = 0x1;

/// Interrupt enable: receive ready.
pub const MIER_RDIE: u32 = 0x2;

/// Interrupt enable: end of packet.
pub const MIER_EPIE: u32 = 0x100;

/// Interrupt enable: stop condition.
pub const MIER_SDIE: u32 = 0x200;

/// Interrupt enable: NACK.
pub const MIER_NDIE: u32 = 0x400;

/// Interrupt enable: arbitration lost.
pub const MIER_ALIE: u32 = 0x800;

/// Interrupt enable: FIFO error.
pub const MIER_FEIE: u32 = 0x1000;

/// Interrupt enable: pin low timeout.
pub const MIER_PLTIE: u32 = 0x2000;

/// Transmit-data command: transmit the data byte.
pub const CMD_TRANSMIT: u16 = 0;

/// Transmit-data command: receive `data + 1` bytes.
pub const CMD_RECEIVE: u16 = 1;

/// Transmit-data command: generate a stop condition.
pub const CMD_STOP: u16 = 2;

/// Transmit-data command: generate a (repeated) start and transmit the
/// address byte.
pub const CMD_START: u16 = 4;

/// The interrupt a suspended command waits on.
#[derive(Debug, Clone, Copy, PartialEq, Eq, Structural)]
pub enum InterruptKind {
    Receive,
    Transfer,
    EndPacket,
    Stop,
}

/// The error the master status flags report, if any.
pub open spec fn msr_error(msr: u32) -> Option<Error> {
    if msr & MSR_PLTF != 0 {
        Some(Error::PinLowTimeout)
    } else if msr & MSR_ALF != 0 {
        Some(Error::LostBusArbitration)
    } else if msr & MSR_NDF != 0 {
        Some(Error::UnexpectedNack)
    } else if msr & MSR_FEF != 0 {
        Some(Error::Fifo)
    } else {
        None
    }
}

/// The interrupt-enable word armed while waiting on `kind`: the error
/// interrupts plus exactly the readiness interrupt of interest.
pub open spec fn mier_armed(kind: InterruptKind) -> u32 {
    (MIER_PLTIE | MIER_ALIE | MIER_NDIE | (match kind {
        InterruptKind::Receive => MIER_RDIE,
        InterruptKind::Transfer => MIER_TDIE,
        InterruptKind::EndPacket => MIER_EPIE,
        InterruptKind::Stop => MIER_SDIE,
    })) as u32
}

/// The interrupt-enable word after the interrupts are disabled: only the
/// FIFO-error enable is left set.
pub open spec fn mier_disabled() -> u32 {
    MIER_FEIE
}

/// A transmit-data register entry: the command in the high byte, the data
/// in the low byte.
pub open spec fn mtdr_entry(cmd: u16, data: u8) -> u16 {
    ((cmd << 8u16) | (data as u16)) as u16
}

/// The instance with `waker` parked and the interrupts for `kind` armed.
pub open spec fn spec_suspended(i2c: Lpi2cInstance, kind: InterruptKind, waker: u32) -> Lpi2cInstance {
    Lpi2cInstance { waker: Some(waker), mier: mier_armed(kind), ..i2c }
}

/// `post` equals `pre` in every field but the transmit log.
pub open spec fn same_but_tx_log(pre: Lpi2cInstance, post: Lpi2cInstance) -> bool {
    post == (Lpi2cInstance { tx_log: post.tx_log, ..pre })
}

/// `post` equals `pre` in every field but the receive FIFO.
pub open spec fn same_but_rx_fifo(pre: Lpi2cInstance, post: Lpi2cInstance) -> bool {
    post == (Lpi2cInstance { rx_fifo: post.rx_fifo, ..pre })
}

/// Check the master status flags for erroneous conditions.
fn check_errors(i2c: &Lpi2cInstance) -> (r: Result<u32, Error>)
    ensures
        match msr_error(i2c.msr) {
            Some(e) => r == Result::<u32, Error>::Err(e),
            None => r == Result::<u32, Error>::Ok(i2c.msr),
        },
{
    let status = i2c.msr;
    if status & MSR_PLTF != 0 {
        Err(Error::PinLowTimeout)
    } else if status & MSR_ALF != 0 {
        Err(Error::LostBusArbitration)
    } else if status & MSR_NDF != 0 {
        Err(Error::UnexpectedNack)
    } else if status & MSR_FEF != 0 {
        Err(Error::Fifo)
    } else {
        Ok(status)
    }
}

/// Park `waker` and arm the interrupts for `kind`.
fn suspend(i2c: &mut Lpi2cInstance, kind: InterruptKind, waker: u32)
    ensures
        *final(i2c) == spec_suspended(*old(i2c), kind, waker),
{
    i2c.waker = Some(waker);
    i2c.mier = match kind {
        InterruptKind::Receive => MIER_PLTIE | MIER_ALIE | MIER_NDIE | MIER_RDIE,
        InterruptKind::Transfer => MIER_PLTIE | MIER_ALIE | MIER_NDIE | MIER_TDIE,
        InterruptKind::EndPacket => MIER_PLTIE | MIER_ALIE | MIER_NDIE | MIER_EPIE,
        InterruptKind::Stop => MIER_PLTIE | MIER_ALIE | MIER_NDIE | MIER_SDIE,
    };
}

/// Exactly what a transmit-enqueueing poll does: an error resolves it, a
/// ready transmit FIFO enqueues `entry` and resolves `Ok`, and otherwise
/// it suspends waiting on transmit readiness.
pub open spec fn spec_poll_enqueue(
    pre: Lpi2cInstance,
    post: Lpi2cInstance,
    r: Poll<Result<(), Error>>,
    waker: u32,
    entry: u16,
) -> bool {
    match msr_error(pre.msr) {
        Some(e) => post == pre && r == Poll::Ready(Result::<(), Error>::Err(e)),
        None => if pre.msr & MSR_TDF != 0 {
            &&& same_but_tx_log(pre, post)
            &&& post.tx_log@ == pre.tx_log@.push(entry)
            &&& r == Poll::Ready(Result::<(), Error>::Ok(()))
        } else {
            &&& post == spec_suspended(pre, InterruptKind::Transfer, waker)
            &&& r == Poll::<Result<(), Error>>::Pending
        },
    }
}

/// Resolves when there is space in the transmit FIFO; on success `entry`
/// has been enqueued.
fn poll_enqueue(i2c: &mut Lpi2cInstance, waker: u32, entry: u16) -> (r: Poll<Result<(), Error>>)
    ensures
        spec_poll_enqueue(*old(i2c), *final(i2c), r, waker, entry),
{
    match check_errors(i2c) {
        Err(e) => Poll::Ready(Err(e)),
        Ok(status) => {
            if status & MSR_TDF != 0 {
                i2c.tx_log.push(entry);
                Poll::Ready(Ok(()))
            } else {
                suspend(i2c, InterruptKind::Transfer, waker);
                Poll::Pending
            }
        },
    }
}

/// Command a write to `address`: a start condition with the address byte
/// and the write bit.
pub fn poll_start_write(i2c: &mut Lpi2cInstance, waker: u32, address: u8) -> (r: Poll<
    Result<(), Error>,
>)
    ensures
        spec_poll_enqueue(
            *old(i2c),
            *final(i2c),
            r,
            waker,
            mtdr_entry(CMD_START, (address << 1u8) as u8),
        ),
{
    poll_enqueue(i2c, waker, ((CMD_START << 8) | ((address << 1) as u16)))
}

/// Command a read from `address`: a start condition with the address byte
/// and the read bit.
pub fn poll_start_read(i2c: &mut Lpi2cInstance, waker: u32, address: u8) -> (r: Poll<
    Result<(), Error>,
>)
    ensures
        spec_poll_enqueue(
            *old(i2c),
            *final(i2c),
            r,
            waker,
            mtdr_entry(CMD_START, ((address << 1u8) | 1u8) as u8),
        ),
{
    poll_enqueue(i2c, waker, ((CMD_START << 8) | (((address << 1) | 1) as u16)))
}

/// Send `value` to the I2C device.
pub fn poll_send(i2c: &mut Lpi2cInstance, waker: u32, value: u8) -> (r: Poll<Result<(), Error>>)
    ensures
        spec_poll_enqueue(*old(i2c), *final(i2c), r, waker, mtdr_entry(CMD_TRANSMIT, value)),
{
    poll_enqueue(i2c, waker, ((CMD_TRANSMIT << 8) | (value as u16)))
}

/// Prepare to receive `len` bytes from the I2C device.
pub fn poll_receive_length(i2c: &mut Lpi2cInstance, waker: u32, len: usize) -> (r: Poll<
    Result<(), Error>,
>)
    requires
        1 <= len <= 256,
    ensures
        spec_poll_enqueue(
            *old(i2c),
            *final(i2c),
            r,
            waker,
            mtdr_entry(CMD_RECEIVE, (len - 1) as u8),
        ),
{
    poll_enqueue(i2c, waker, ((CMD_RECEIVE << 8) | ((len - 1) as u16)))
}

/// Command a stop, resolving once the command is enqueued.
pub fn poll_stop_setup(i2c: &mut Lpi2cInstance, waker: u32) -> (r: Poll<Result<(), Error>>)
    ensures
        spec_poll_enqueue(*old(i2c), *final(i2c), r, waker, mtdr_entry(CMD_STOP, 0)),
{
    proof {
        assert((2u16 << 8u16) | (0u8 as u16) == 2u16 << 8u16) by (bit_vector);
    }
    poll_enqueue(i2c, waker, CMD_STOP << 8)
}

/// Exactly what [`poll_receive`] does: an error resolves it; a byte in
/// the receive FIFO (with the ready flag up) is popped and resolves `Ok`;
/// otherwise it suspends waiting on receive readiness.
pub open spec fn spec_poll_receive(
    pre: Lpi2cInstance,
    post: Lpi2cInstance,
    r: Poll<Result<u8, Error>>,
    waker: u32,
) -> bool {
    match msr_error(pre.msr) {
        Some(e) => post == pre && r == Poll::Ready(Result::<u8, Error>::Err(e)),
        None => if pre.msr & MSR_RDF != 0 && pre.rx_fifo@.len() > 0 {
            &&& same_but_rx_fifo(pre, post)
            &&& post.rx_fifo@ == pre.rx_fifo@.drop_first()
            &&& r == Poll::Ready(Result::<u8, Error>::Ok(pre.rx_fifo@[0]))
        } else {
            &&& post == spec_suspended(pre, InterruptKind::Receive, waker)
            &&& r == Poll::<Result<u8, Error>>::Pending
        },
    }
}

/// Receive a byte from the I2C device.
pub fn poll_receive(i2c: &mut Lpi2cInstance, waker: u32) -> (r: Poll<Result<u8, Error>>)
    ensures
        spec_poll_receive(*old(i2c), *final(i2c), r, waker),
{
    match check_errors(i2c) {
        Err(e) => Poll::Ready(Err(e)),
        Ok(status) => {
            if status & MSR_RDF != 0 && i2c.rx_fifo.len() > 0 {
                let byte = i2c.rx_fifo.remove(0);
                assert(i2c.rx_fifo@ =~= old(i2c).rx_fifo@.drop_first());
                Poll::Ready(Ok(byte))
            } else {
                suspend(i2c, InterruptKind::Receive, waker);
                Poll::Pending
            }
        },
    }
}

/// Exactly what a flag-acknowledging poll does: an error resolves it; the
/// watched flag up is acknowledged (written clear) and resolves `Ok`;
/// otherwise it suspends on `kind`.
pub open spec fn spec_poll_flag(
    pre: Lpi2cInstance,
    post: Lpi2cInstance,
    r: Poll<Result<(), Error>>,
    waker: u32,
    flag: u32,
    kind: InterruptKind,
) -> bool {
    match msr_error(pre.msr) {
        Some(e) => post == pre && r == Poll::Ready(Result::<(), Error>::Err(e)),
        None => if pre.msr & flag != 0 {
            &&& post == (Lpi2cInstance { msr: (pre.msr & !flag) as u32, ..pre })
            &&& r == Poll::Ready(Result::<(), Error>::Ok(()))
        } else {
            &&& post == spec_suspended(pre, kind, waker)
            &&& r == Poll::<Result<(), Error>>::Pending
        },
    }
}

/// Resolves when the master acknowledges an end of packet: a repeated
/// start or stop condition.
pub fn poll_end_of_packet(i2c: &mut Lpi2cInstance, waker: u32) -> (r: Poll<Result<(), Error>>)
    ensures
        spec_poll_flag(*old(i2c), *final(i2c), r, waker, MSR_EPF, InterruptKind::EndPacket),
{
    match check_errors(i2c) {
        Err(e) => Poll::Ready(Err(e)),
        Ok(status) => {
            if status & MSR_EPF != 0 {
                i2c.msr = i2c.msr & !MSR_EPF;
                Poll::Ready(Ok(()))
            } else {
                suspend(i2c, InterruptKind::EndPacket, waker);
                Poll::Pending
            }
        },
    }
}

/// Resolves when the stop condition has been generated.
pub fn poll_stop(i2c: &mut Lpi2cInstance, waker: u32) -> (r: Poll<Result<(), Error>>)
    ensures
        spec_poll_flag(*old(i2c), *final(i2c), r, waker, MSR_SDF, InterruptKind::Stop),
{
    match check_errors(i2c) {
        Err(e) => Poll::Ready(Err(e)),
        Ok(status) => {
            if status & MSR_SDF != 0 {
                i2c.msr = i2c.msr & !MSR_SDF;
                Poll::Ready(Ok(()))
            } else {
                suspend(i2c, InterruptKind::Stop, waker);
                Poll::Pending
            }
        },
    }
}

/// Disable the command interrupts, leaving only the FIFO-error enable.
pub fn disable_interrupts(i2c: &mut Lpi2cInstance)
    ensures
        *final(i2c) == (Lpi2cInstance { mier: mier_disabled(), ..*old(i2c) }),
{
    i2c.mier = MIER_FEIE;
}

/// The interrupt handler for one I2C instance: disables the command
/// interrupts and takes the parked resumption token, which is the task to
/// resume.
pub fn on_interrupt(i2c: &mut Lpi2cInstance) -> (woken: Option<u32>)
    ensures
        *final(i2c) == (Lpi2cInstance {
            mier: mier_disabled(),
            waker: None::<u32>,
            ..*old(i2c)
        }),
        woken == old(i2c).waker,
{
    disable_interrupts(i2c);
    let woken = i2c.waker;
    i2c.waker = None;
    woken
}

} // verus!
