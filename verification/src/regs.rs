//! Register-block models for the serial peripherals.
//!
//! Each instance holds its control and status registers as plain words,
//! its instance number, and — for peripherals that feed DMA — the address
//! of its data register inside the system [`Memory`](crate::mem::Memory).

use vstd::prelude::*;

verus! {

/// One LPUART peripheral instance.
pub struct LpuartInstance {
    /// Instance number, starting at 1.
    pub index: u32,
    /// Control register: transmitter and receiver enables.
    pub ctrl: u32,
    /// Baud register: oversampling ratio, divisor, edge sampling, and the
    /// DMA-request enables.
    pub baud: u32,
    /// Status register.
    pub stat: u32,
    /// FIFO control register.
    pub fifo: u32,
    /// Address of the DATA register in system memory.
    pub data_addr: usize,
}

impl LpuartInstance {
    /// A powered-up instance with all registers zero and its DATA register
    /// at `data_addr`.
    pub fn new(index: u32, data_addr: usize) -> (r: LpuartInstance)
        ensures
            r.index == index,
            r.ctrl == 0 && r.baud == 0 && r.stat == 0 && r.fifo == 0,
            r.data_addr == data_addr,
    {
        LpuartInstance { index, ctrl: 0, baud: 0, stat: 0, fifo: 0, data_addr }
    }
}

/// One LPSPI peripheral instance.
pub struct LpspiInstance {
    /// Instance number, starting at 1.
    pub index: u32,
    /// Control register: reset, module enable.
    pub cr: u32,
    /// Configuration register: master mode, sample point.
    pub cfgr1: u32,
    /// FIFO control register: watermarks.
    pub fcr: u32,
    /// Transmit command register: frame size.
    pub tcr: u32,
    /// DMA enable register.
    pub der: u32,
    /// Clock configuration register: divider and delays.
    pub ccr: u32,
    /// Address of the receive-data register in system memory.
    pub rdr_addr: usize,
    /// Address of the transmit-data register in system memory.
    pub tdr_addr: usize,
}

impl LpspiInstance {
    /// A powered-up instance with all registers zero.
    pub fn new(index: u32, rdr_addr: usize, tdr_addr: usize) -> (r: LpspiInstance)
        ensures
            r.index == index,
            r.cr == 0 && r.cfgr1 == 0 && r.fcr == 0 && r.tcr == 0 && r.der == 0 && r.ccr == 0,
            r.rdr_addr == rdr_addr,
            r.tdr_addr == tdr_addr,
    {
        LpspiInstance { index, cr: 0, cfgr1: 0, fcr: 0, tcr: 0, der: 0, ccr: 0, rdr_addr, tdr_addr }
    }
}

/// One LPI2C peripheral instance.
///
/// The transmit FIFO is modeled as the log of commands enqueued in the
/// transmit-data register — each entry the command bits and the data byte —
/// and the receive FIFO as the bytes the bus has produced and the master
/// has not yet read.
pub struct Lpi2cInstance {
    /// Instance number, starting at 1.
    pub index: u32,
    /// Master control register.
    pub mcr: u32,
    /// Master configuration: prescaler.
    pub mcfgr1: u32,
    /// Master clock configuration: high/low periods, setup, data valid.
    pub mccr0: u32,
    /// Master FIFO control: watermarks.
    pub mfcr: u32,
    /// Master interrupt enables.
    pub mier: u32,
    /// Master status register.
    pub msr: u32,
    /// Commands written to the transmit-data register, oldest first.
    pub tx_log: Vec<u16>,
    /// Bytes waiting in the receive FIFO, oldest first.
    pub rx_fifo: Vec<u8>,
    /// The parked resumption token for this instance.
    pub waker: Option<u32>,
}

impl Lpi2cInstance {
    /// A powered-up instance with all registers zero and both FIFOs empty.
    pub fn new(index: u32) -> (r: Lpi2cInstance)
        ensures
            r.index == index,
            r.mcr == 0 && r.mcfgr1 == 0 && r.mccr0 == 0 && r.mfcr == 0 && r.mier == 0 && r.msr
                == 0,
            r.tx_log@.len() == 0,
            r.rx_fifo@.len() == 0,
            r.waker is None,
    {
        Lpi2cInstance {
            index,
            mcr: 0,
            mcfgr1: 0,
            mccr0: 0,
            mfcr: 0,
            mier: 0,
            msr: 0,
            tx_log: Vec::new(),
            rx_fifo: Vec::new(),
            waker: None,
        }
    }
}

} // verus!
