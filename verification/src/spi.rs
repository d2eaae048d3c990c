//! Serial Peripheral Interface (SPI) driver.
//!
//! `SPI` drives one LPSPI register-block model. Data moves by DMA:
//! reads, writes, and full-duplex transfers each arm one-shot transfers on
//! caller-supplied channels. The serial clock speed after construction is
//! unspecified; [`SPI::set_clock_speed`] commits a divider derived from the
//! requested rate.

use vstd::prelude::*;

use crate::dma::peripheral::full_duplex;
use crate::dma::peripheral::receive;
use crate::dma::peripheral::spec_rx_armed;
use crate::dma::peripheral::spec_tx_armed;
use crate::dma::peripheral::transfer;
use crate::dma::peripheral::Destination;
use crate::dma::peripheral::FullDuplex;
use crate::dma::peripheral::Rx;
use crate::dma::peripheral::Source;
use crate::dma::peripheral::Tx;
use crate::dma::Channel;
use crate::dma::Element;
use crate::dma::ADDRESS_LIMIT;
use crate::regs::LpspiInstance;

verus! {

/// Module-enable bit of the control register.
pub const CR_MEN: u32 = 0x1;

/// Software-reset bit of the control register.
pub const CR_RST: u32 = 0x2;

/// Master-mode bit of the configuration register.
pub const CFGR1_MASTER: u32 = 0x1;

/// Sample-point bit of the configuration register.
pub const CFGR1_SAMPLE: u32 = 0x8;

/// Frame-size field mask of the transmit command register.
pub const TCR_FRAMESZ_MASK: u32 = 0xFFF;

/// Receive watermark field mask of the FIFO control register.
pub const FCR_RXWATER_MASK: u32 = 0xF_0000;

/// Transmit watermark field mask of the FIFO control register.
pub const FCR_TXWATER_MASK: u32 = 0xF;

/// Transmit-DMA enable bit of the DMA enable register.
pub const DER_TDDE: u32 = 0x1;

/// Receive-DMA enable bit of the DMA enable register.
pub const DER_RDDE: u32 = 0x2;

/// Errors propagated from a [`SPI`] device.
#[derive(Debug, Clone, Copy, PartialEq, Eq, Structural)]
pub enum Error {
    /// Error when configuring the SPI serial clock.
    ClockSpeed,
}

/// Pins for a SPI device: data out, data in, clock, and chip select.
pub struct Pins<SDO, SDI, SCK, PCS0> {
    /// Serial data out: host to device.
    pub sdo: SDO,
    /// Serial data in: device to host.
    pub sdi: SDI,
    /// Serial clock.
    pub sck: SCK,
    /// Chip select 0.
    pub pcs0: PCS0,
}

/// SPI driver: the register-block model plus the pins it owns.
pub struct SPI<P> {
    pins: P,
    spi: LpspiInstance,
}

impl<P> SPI<P> {
    /// The register-block model this driver owns.
    pub closed spec fn instance(&self) -> LpspiInstance {
        self.spi
    }

    /// Create a `SPI` from a set of pins and an instance model: the block
    /// is reset, put into master mode with delayed sampling, given full
    /// FIFO watermarks, and enabled. The clock speed is unspecified until
    /// [`SPI::set_clock_speed`] is called.
    pub fn new(pins: P, spi: LpspiInstance) -> (r: SPI<P>)
        ensures
            r.instance() == (LpspiInstance {
                cr: CR_MEN,
                cfgr1: (CFGR1_MASTER | CFGR1_SAMPLE) as u32,
                fcr: (FCR_RXWATER_MASK | FCR_TXWATER_MASK) as u32,
                ..spi
            }),
    {
        let mut spi = spi;
        spi.cr = CR_RST;
        spi.cr = 0;
        spi.cfgr1 = CFGR1_MASTER | CFGR1_SAMPLE;
        spi.fcr = FCR_RXWATER_MASK | FCR_TXWATER_MASK;
        spi.cr = CR_MEN;
        SPI { pins, spi }
    }

    /// Return the pins and the register-block model.
    pub fn release(self) -> (r: (P, LpspiInstance))
        ensures
            r.1 == self.instance(),
    {
        (self.pins, self.spi)
    }

    /// Commit the frame size for elements of `elem_size` bytes.
    fn set_frame_size(&mut self, elem_size: usize)
        requires
            1 <= elem_size <= 8,
        ensures
            *final(self) == (SPI {
                spi: LpspiInstance {
                    tcr: spec_framesz(old(self).instance().tcr, elem_size as int),
                    ..old(self).instance()
                },
                ..*old(self)
            }),
    {
        self.spi.tcr = (self.spi.tcr & !TCR_FRAMESZ_MASK) | (((elem_size * 8 - 1) as u32)
            & TCR_FRAMESZ_MASK);
    }

    /// Use a DMA channel to read `len` elements from the SPI into the
    /// buffer at `buffer`: arms a one-shot transfer out of the
    /// receive-data register, triggered by this instance's receive
    /// request signal, commits the frame size, and sets the receive-DMA
    /// enable.
    pub fn dma_read<E: Element>(&mut self, channel: &mut Channel, buffer: usize, len: usize) -> (rx:
        Rx)
        requires
            buffer <= ADDRESS_LIMIT,
            len <= 0xFFFF,
        ensures
            spec_rx_armed(
                old(channel)@,
                final(channel)@,
                buffer,
                len,
                E::size_spec(),
                spi_source_signal(old(self).instance().index),
                old(self).instance().rdr_addr,
            ),
            final(self).instance() == (LpspiInstance {
                tcr: spec_framesz(old(self).instance().tcr, E::size_spec() as int),
                fcr: (old(self).instance().fcr & !FCR_RXWATER_MASK) as u32,
                der: (old(self).instance().der | DER_RDDE) as u32,
                ..old(self).instance()
            }),
    {
        receive::<E, Self>(channel, self, buffer, len)
    }

    /// Use a DMA channel to write the `len` elements at `buffer` to the
    /// SPI: arms a one-shot transfer into the transmit-data register,
    /// triggered by this instance's transmit request signal, commits the
    /// frame size, and sets the transmit-DMA enable.
    pub fn dma_write<E: Element>(&mut self, channel: &mut Channel, buffer: usize, len: usize) -> (
        tx: Tx)
        requires
            buffer <= ADDRESS_LIMIT,
            len <= 0xFFFF,
        ensures
            spec_tx_armed(
                old(channel)@,
                final(channel)@,
                buffer,
                len,
                E::size_spec(),
                (spi_source_signal(old(self).instance().index) + 1) as u32,
                old(self).instance().tdr_addr,
            ),
            final(self).instance() == (LpspiInstance {
                tcr: spec_framesz(old(self).instance().tcr, E::size_spec() as int),
                fcr: (old(self).instance().fcr & !FCR_TXWATER_MASK) as u32,
                der: (old(self).instance().der | DER_TDDE) as u32,
                ..old(self).instance()
            }),
    {
        transfer::<E, Self>(channel, self, buffer, len)
    }

    /// Use two DMA channels to perform a full-duplex transfer: transmit
    /// the `len` elements at `buffer` while receiving the device's replies
    /// back into the same region.
    pub fn dma_full_duplex<E: Element>(
        &mut self,
        rx_channel: &mut Channel,
        tx_channel: &mut Channel,
        buffer: usize,
        len: usize,
    ) -> (fd: FullDuplex)
        requires
            buffer <= ADDRESS_LIMIT,
            len <= 0xFFFF,
        ensures
            spec_rx_armed(
                old(rx_channel)@,
                final(rx_channel)@,
                buffer,
                len,
                E::size_spec(),
                spi_source_signal(old(self).instance().index),
                old(self).instance().rdr_addr,
            ),
            spec_tx_armed(
                old(tx_channel)@,
                final(tx_channel)@,
                buffer,
                len,
                E::size_spec(),
                (spi_source_signal(old(self).instance().index) + 1) as u32,
                old(self).instance().tdr_addr,
            ),
            final(self).instance() == (LpspiInstance {
                tcr: spec_framesz(old(self).instance().tcr, E::size_spec() as int),
                fcr: (old(self).instance().fcr & !(FCR_RXWATER_MASK | FCR_TXWATER_MASK)) as u32,
                der: (old(self).instance().der | DER_RDDE | DER_TDDE) as u32,
                ..old(self).instance()
            }),
    {
        let fd = full_duplex::<E, Self>(rx_channel, tx_channel, self, buffer, len);
        proof {
            let t: u32 = old(self).instance().tcr;
            let f: u32 = old(self).instance().fcr;
            let w: u32 = ((E::size_spec() * 8 - 1) as u32);
            assert((((t & !TCR_FRAMESZ_MASK) | (w & TCR_FRAMESZ_MASK)) & !TCR_FRAMESZ_MASK) | (w
                & TCR_FRAMESZ_MASK) == (t & !TCR_FRAMESZ_MASK) | (w & TCR_FRAMESZ_MASK))
                by (bit_vector);
            assert((f & !FCR_RXWATER_MASK) & !FCR_TXWATER_MASK == f & !(FCR_RXWATER_MASK
                | FCR_TXWATER_MASK)) by (bit_vector);
        }
        fd
    }

    /// Set the SPI master clock speed. The module is disabled while the
    /// divider commits and re-enabled as it was. Requires an achievable
    /// rate: positive and no faster than the source clock.
    pub fn set_clock_speed(&mut self, hz: u32, source_clock_hz: u32) -> (r: Result<(), Error>)
        requires
            0 < hz <= source_clock_hz,
        ensures
            r is Ok,
            final(self).instance() == (LpspiInstance {
                ccr: spec_ccr(source_clock_hz as int, hz as int),
                ..old(self).instance()
            }),
    {
        let men: u32 = self.spi.cr & CR_MEN;
        self.spi.cr = self.spi.cr & !CR_MEN;
        set_clock_speed(&mut self.spi, source_clock_hz, hz);
        self.spi.cr = self.spi.cr | men;
        proof {
            let c: u32 = old(self).instance().cr;
            let m: u32 = CR_MEN;
            assert((c & !m) | (c & m) == c) by (bit_vector);
        }
        Ok(())
    }
}

/// The committed serial-clock divider for `hz` from `base`: the quotient,
/// bumped when it still overshoots, offset by the register's implicit two,
/// and clamped to the field.
pub open spec fn spec_sckdiv(base: int, hz: int) -> int {
    let d0 = base / hz;
    let d1 = if base / d0 > hz {
        d0 + 1
    } else {
        d0
    };
    let d2 = if d1 >= 2 {
        d1 - 2
    } else {
        0
    };
    if d2 > 255 {
        255
    } else {
        d2
    }
}

/// The clock configuration register after committing the divider: the
/// divider, half of it as the delay between transfers, and fixed
/// chip-select delays.
pub open spec fn spec_ccr(base: int, hz: int) -> u32 {
    let div = spec_sckdiv(base, hz) as u32;
    div | ((div / 2) << 8u32) | (0x1Fu32 << 24u32) | (0x1Fu32 << 16u32)
}

/// Commit the serial clock divider; must be called while the module is
/// disabled.
pub fn set_clock_speed(spi: &mut LpspiInstance, base: u32, hz: u32)
    requires
        0 < hz <= base,
    ensures
        *final(spi) == (LpspiInstance { ccr: spec_ccr(base as int, hz as int), ..*old(spi) }),
{
    proof {
        assert(base as int / hz as int >= 1) by (nonlinear_arith)
            requires
                1 <= hz as int <= base as int,
        ;
    }
    let d0: u32 = base / hz;
    let d1: u64 = if base / d0 > hz {
        (d0 as u64) + 1
    } else {
        d0 as u64
    };
    let d2: u64 = if d1 >= 2 {
        d1 - 2
    } else {
        0
    };
    let div: u32 = if d2 > 255 {
        255
    } else {
        d2 as u32
    };
    spi.ccr = div | ((div / 2) << 8) | (0x1Fu32 << 24) | (0x1Fu32 << 16);
}

/// The receive-direction request-multiplexer signal of each SPI instance.
pub open spec fn spi_source_signal(index: u32) -> u32 {
    if index == 1 {
        13
    } else if index == 2 {
        77
    } else if index == 3 {
        15
    } else {
        79
    }
}

impl<E: Element, P> Source<E> for SPI<P> {
    closed spec fn source_signal_spec(&self) -> u32 {
        spi_source_signal(self.spi.index)
    }

    closed spec fn source_address_spec(&self) -> usize {
        self.spi.rdr_addr
    }

    closed spec fn source_request_enabled(&self) -> bool {
        self.spi.der & DER_RDDE != 0
    }

    closed spec fn source_enabled_spec(&self) -> Self {
        SPI {
            spi: LpspiInstance {
                tcr: spec_framesz(self.spi.tcr, E::size_spec() as int),
                fcr: (self.spi.fcr & !FCR_RXWATER_MASK) as u32,
                der: (self.spi.der | DER_RDDE) as u32,
                ..self.spi
            },
            ..*self
        }
    }

    closed spec fn source_disabled_spec(&self) -> Self {
        SPI {
            spi: LpspiInstance { der: (self.spi.der & !DER_RDDE) as u32, ..self.spi },
            ..*self
        }
    }

    fn source_signal(&self) -> (signal: u32) {
        if self.spi.index == 1 {
            13
        } else if self.spi.index == 2 {
            77
        } else if self.spi.index == 3 {
            15
        } else {
            79
        }
    }

    fn source_address(&self) -> (a: usize) {
        self.spi.rdr_addr
    }

    fn enable_source(&mut self) {
        let esize = E::size();
        self.set_frame_size(esize);
        self.spi.fcr = self.spi.fcr & !FCR_RXWATER_MASK;
        self.spi.der = self.spi.der | DER_RDDE;
        proof {
            let d: u32 = old(self).instance().der;
            assert((d | DER_RDDE) & DER_RDDE != 0) by (bit_vector);
        }
    }

    fn disable_source(&mut self) {
        self.spi.der = self.spi.der & !DER_RDDE;
        proof {
            let d: u32 = old(self).instance().der;
            assert((d & !DER_RDDE) & DER_RDDE == 0) by (bit_vector);
        }
    }
}

impl<E: Element, P> Destination<E> for SPI<P> {
    closed spec fn destination_signal_spec(&self) -> u32 {
        (spi_source_signal(self.spi.index) + 1) as u32
    }

    closed spec fn destination_address_spec(&self) -> usize {
        self.spi.tdr_addr
    }

    closed spec fn destination_request_enabled(&self) -> bool {
        self.spi.der & DER_TDDE != 0
    }

    closed spec fn destination_enabled_spec(&self) -> Self {
        SPI {
            spi: LpspiInstance {
                tcr: spec_framesz(self.spi.tcr, E::size_spec() as int),
                fcr: (self.spi.fcr & !FCR_TXWATER_MASK) as u32,
                der: (self.spi.der | DER_TDDE) as u32,
                ..self.spi
            },
            ..*self
        }
    }

    closed spec fn destination_disabled_spec(&self) -> Self {
        SPI {
            spi: LpspiInstance { der: (self.spi.der & !DER_TDDE) as u32, ..self.spi },
            ..*self
        }
    }

    fn destination_signal(&self) -> (signal: u32) {
        let source = if self.spi.index == 1 {
            13
        } else if self.spi.index == 2 {
            77
        } else if self.spi.index == 3 {
            15
        } else {
            79
        };
        source + 1
    }

    fn destination_address(&self) -> (a: usize) {
        self.spi.tdr_addr
    }

    fn enable_destination(&mut self) {
        let esize = E::size();
        self.set_frame_size(esize);
        self.spi.fcr = self.spi.fcr & !FCR_TXWATER_MASK;
        self.spi.der = self.spi.der | DER_TDDE;
        proof {
            let d: u32 = old(self).instance().der;
            assert((d | DER_TDDE) & DER_TDDE != 0) by (bit_vector);
        }
    }

    fn disable_destination(&mut self) {
        self.spi.der = self.spi.der & !DER_TDDE;
        proof {
            let d: u32 = old(self).instance().der;
            assert((d & !DER_TDDE) & DER_TDDE == 0) by (bit_vector);
        }
    }
}

/// The frame-size field of the transmit command register committed for
/// `elem_size`-byte elements.
pub open spec fn spec_framesz(pre: u32, elem_size: int) -> u32 {
    ((pre & !TCR_FRAMESZ_MASK) | (((elem_size * 8 - 1) as u32) & TCR_FRAMESZ_MASK)) as u32
}

} // verus!
