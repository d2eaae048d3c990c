//! I2C driver, types, and transaction state machines.
//!
//! The driver uses the master's transmit and receive FIFOs. A transaction
//! is a poll-style state machine — [`Read`](read::Read),
//! [`Write`](write::Write), or [`WriteRead`](write_read::WriteRead) — that
//! enqueues commands while the transmit FIFO has room, collects bytes as
//! the receive FIFO produces them, and otherwise parks its resumption token
//! and arms exactly the interrupts that will report readiness.

use vstd::prelude::*;

pub mod clock;
pub mod commands;
pub mod read;
pub mod write;
pub mod write_read;

pub use clock::ClockSpeed;
pub use read::Read;
pub use write::Write;
pub use write_read::WriteRead;

use crate::regs::Lpi2cInstance;

verus! {

/// Master-enable bit of the master control register.
pub const MCR_MEN: u32 = 0x1;

/// Software-reset bit of the master control register.
pub const MCR_RST: u32 = 0x2;

/// Receive-FIFO reset bit of the master control register.
pub const MCR_RRF: u32 = 0x100;

/// Transmit-FIFO reset bit of the master control register.
pub const MCR_RTF: u32 = 0x200;

/// Transmit watermark committed at construction.
pub const MFCR_WATERMARKS: u32 = 0x3;

/// Errors propagated from an [`I2c`] device.
#[derive(Debug, Clone, Copy, PartialEq, Eq, Structural)]
pub enum Error {
    /// There was an issue when setting the clock speed.
    ClockSpeed,
    /// Master has lost arbitration.
    LostBusArbitration,
    /// SCL and / or SDA went low for too long.
    PinLowTimeout,
    /// Detected a NACK when sending an address or data.
    UnexpectedNack,
    /// Sending or receiving data without a START condition.
    Fifo,
    /// Requesting more data in a receive than the protocol can express.
    RequestTooMuchData,
    /// The master or the bus is busy; attempting the transaction now
    /// would block.
    BusyIsBusy,
}

/// The phase of an I2C transaction state machine.
#[derive(Debug, Clone, Copy, PartialEq, Eq, Structural)]
pub enum State {
    StartWrite,
    Send(usize),
    StartRead,
    EndOfPacket,
    ReceiveLength,
    Receive(usize),
    StopSetup,
    Stop,
}

/// The I2C driver instance: the register-block model plus the SCL and SDA
/// pins it owns.
pub struct I2c<SCL, SDA> {
    i2c: Lpi2cInstance,
    scl: SCL,
    sda: SDA,
}

impl<SCL, SDA> I2c<SCL, SDA> {
    /// The register-block model this driver owns.
    pub closed spec fn instance(&self) -> Lpi2cInstance {
        self.i2c
    }

    /// Create an I2C driver from an instance model and its pins: the
    /// block is reset, given its FIFO watermarks, and enabled. The clock
    /// speed is unspecified until [`I2c::set_clock_speed`] is called.
    pub fn new(i2c: Lpi2cInstance, scl: SCL, sda: SDA) -> (r: I2c<SCL, SDA>)
        ensures
            r.instance() == (Lpi2cInstance {
                mcr: MCR_MEN,
                mfcr: MFCR_WATERMARKS,
                ..i2c
            }),
    {
        let mut i2c = i2c;
        i2c.mcr = MCR_RST;
        i2c.mcr = 0;
        i2c.mfcr = MFCR_WATERMARKS;
        i2c.mcr = MCR_MEN;
        I2c { i2c, scl, sda }
    }

    /// Release the I2C peripheral components.
    pub fn release(self) -> (r: (Lpi2cInstance, SCL, SDA))
        ensures
            r.0 == self.instance(),
    {
        (self.i2c, self.scl, self.sda)
    }

    /// Set the I2C clock speed: the master is disabled while the chosen
    /// timing commits and re-enabled as it was.
    pub fn set_clock_speed(&mut self, clock_speed: ClockSpeed, source_clock_hz: u32) -> (r: Result<
        (),
        Error,
    >)
        ensures
            r is Ok,
            exists|p: int, clkhi: int|
                {
                    &&& #[trigger] clock::is_best(
                        source_clock_hz as int,
                        clock_speed.hz_spec() as int,
                        p,
                        clkhi,
                    )
                    &&& final(self).instance() == (Lpi2cInstance {
                        mccr0: clock::spec_mccr0(clkhi),
                        mcfgr1: p as u32,
                        ..old(self).instance()
                    })
                },
    {
        let men: u32 = self.i2c.mcr & MCR_MEN;
        self.i2c.mcr = self.i2c.mcr & !MCR_MEN;
        clock::set_speed(clock_speed, source_clock_hz, &mut self.i2c);
        self.i2c.mcr = self.i2c.mcr | men;
        proof {
            let c: u32 = old(self).instance().mcr;
            let m: u32 = MCR_MEN;
            assert((c & !m) | (c & m) == c) by (bit_vector);
        }
        Ok(())
    }

    /// Perform a write-read to the device at `address`: send `output`,
    /// generate a repeated start, then collect `input_len` bytes.
    pub fn write_read(&mut self, address: u8, output: Vec<u8>, input_len: usize) -> (op:
        WriteRead)
        ensures
            op.address_spec() == address,
            op.output_spec() == output@,
            op.input_len_spec() == input_len,
            op.fresh(),
    {
        WriteRead::new(address, output, input_len)
    }

    /// Perform an I2C write, sending `buffer` to the device at `address`.
    pub fn write(&mut self, address: u8, buffer: Vec<u8>) -> (op: Write)
        ensures
            op.address_spec() == address,
            op.buffer_spec() == buffer@,
            op.fresh(),
    {
        Write::new(address, buffer)
    }

    /// Request `buffer_len` bytes from the device at `address`.
    pub fn read(&mut self, address: u8, buffer_len: usize) -> (op: Read)
        ensures
            op.address_spec() == address,
            op.len_spec() == buffer_len,
            op.fresh(),
    {
        Read::new(address, buffer_len)
    }

    /// Borrow the register-block model mutably; how the polls and the
    /// test bench reach the registers.
    pub fn registers(&mut self) -> (r: &mut Lpi2cInstance)
        ensures
            *r == old(self).instance(),
            final(self).instance() == *final(r),
    {
        &mut self.i2c
    }
}

/// Clears all master status flags that must be low before acting as a
/// master.
pub open spec fn spec_cleared_status(msr: u32) -> u32 {
    (msr & !(commands::MSR_EPF | commands::MSR_SDF | commands::MSR_NDF | commands::MSR_ALF
        | commands::MSR_FEF | commands::MSR_PLTF)) as u32
}

/// Clear all master status flags required to be low before acting as a
/// master; the flags clear on write.
pub fn clear_status(i2c: &mut Lpi2cInstance)
    ensures
        *final(i2c) == (Lpi2cInstance { msr: spec_cleared_status(old(i2c).msr), ..*old(i2c) }),
{
    i2c.msr = i2c.msr & !(commands::MSR_EPF | commands::MSR_SDF | commands::MSR_NDF
        | commands::MSR_ALF | commands::MSR_FEF | commands::MSR_PLTF);
}

/// Clear both the receive and transmit FIFOs, as writing the
/// [`MCR_RRF`] and [`MCR_RTF`] reset bits does; both bits self-clear.
pub fn clear_fifo(i2c: &mut Lpi2cInstance)
    ensures
        *final(i2c) == (Lpi2cInstance {
            tx_log: final(i2c).tx_log,
            rx_fifo: final(i2c).rx_fifo,
            ..*old(i2c)
        }),
        final(i2c).tx_log@.len() == 0,
        final(i2c).rx_fifo@.len() == 0,
{
    i2c.tx_log = Vec::new();
    i2c.rx_fifo = Vec::new();
}

/// Whether the master or the bus reports busy.
pub open spec fn spec_busy(msr: u32) -> bool {
    msr & commands::MSR_MBF != 0 || msr & commands::MSR_BBF != 0
}

/// Fail with `BusyIsBusy` when the master or the bus is busy.
pub fn check_busy(i2c: &Lpi2cInstance) -> (r: Result<(), Error>)
    ensures
        spec_busy(i2c.msr) <==> r is Err,
        r matches Err(e) ==> e == Error::BusyIsBusy,
{
    if i2c.msr & commands::MSR_MBF != 0 || i2c.msr & commands::MSR_BBF != 0 {
        Err(Error::BusyIsBusy)
    } else {
        Ok(())
    }
}

} // verus!
