//! UART serial driver.
//!
//! `UART` drives one LPUART register-block model. After construction the
//! baud rate is unspecified; [`UART::set_baud`] searches the oversampling
//! and divisor space for the closest reachable rate and commits it. Data
//! moves by DMA: [`UART::dma_write`] and [`UART::dma_read`] arm one-shot
//! transfers on a caller-supplied channel.

use vstd::prelude::*;

use crate::dma::peripheral::receive;
use crate::dma::peripheral::spec_rx_armed;
use crate::dma::peripheral::spec_tx_armed;
use crate::dma::peripheral::transfer;
use crate::dma::peripheral::Destination;
use crate::dma::peripheral::Rx;
use crate::dma::peripheral::Source;
use crate::dma::Channel;
use crate::dma::ADDRESS_LIMIT;
use crate::dma::peripheral::Tx;
use crate::regs::LpuartInstance;

verus! {

/// Transmitter enable bit of the control register.
pub const CTRL_TE: u32 = 0x8_0000;

/// Receiver enable bit of the control register.
pub const CTRL_RE: u32 = 0x4_0000;

/// Oversampling-ratio field shift in the baud register.
pub const BAUD_OSR_SHIFT: u32 = 24;

/// Oversampling-ratio field mask.
pub const BAUD_OSR_MASK: u32 = 0x1F00_0000;

/// Divisor field mask in the baud register.
pub const BAUD_SBR_MASK: u32 = 0x1FFF;

/// Both-edge sampling bit in the baud register.
pub const BAUD_BOTHEDGE: u32 = 0x2_0000;

/// Transmit DMA enable bit in the baud register.
pub const BAUD_TDMAE: u32 = 0x80_0000;

/// Receive DMA enable bit in the baud register.
pub const BAUD_RDMAE: u32 = 0x20_0000;

/// Status bits cleared before a receive begins.
pub const STAT_CLEAR: u32 = 0x1F_0000;

/// Errors propagated from a [`UART`] device.
#[derive(Debug, Clone, Copy, PartialEq, Eq, Structural)]
pub enum Error {
    /// The requested baud rate cannot be prepared from the source clock.
    Clock,
}

/// UART serial driver: the register-block model plus the TX and RX pins
/// it owns.
pub struct UART<TX, RX> {
    uart: LpuartInstance,
    tx: TX,
    rx: RX,
}

/// Timing configuration for a baud rate: the oversampling-ratio register
/// value (one less than the ratio), the divisor, and whether both-edge
/// sampling is needed.
pub struct Timings {
    /// Oversampling ratio, minus one; written to the register directly.
    pub osr: u8,
    /// Whether both-edge sampling must be set for this ratio.
    pub both_edge: bool,
    /// Divisor value.
    pub sbr: u16,
}

/// The divisor candidate for oversampling ratio `osr`: the ideal divisor
/// clamped into the register's range.
pub open spec fn cand_sbr(effective_clock: int, baud: int, osr: int) -> int {
    let ideal = (effective_clock / baud) / osr;
    if ideal < 1 {
        1
    } else if ideal > 8191 {
        8191
    } else {
        ideal
    }
}

/// The rate error of ratio `osr` with its candidate divisor.
pub open spec fn cand_err(effective_clock: int, baud: int, osr: int) -> int {
    let eff = effective_clock / (osr * cand_sbr(effective_clock, baud, osr));
    if eff >= baud {
        eff - baud
    } else {
        baud - eff
    }
}

impl Timings {
    /// `self` is the candidate for ratio `osr` and no ratio in 4..=32
    /// comes closer to `baud`.
    pub open spec fn is_best(self, effective_clock: int, baud: int) -> bool {
        &&& 4 <= self.osr + 1 <= 32
        &&& self.sbr == cand_sbr(effective_clock, baud, self.osr + 1)
        &&& self.both_edge == (self.osr + 1 < 8)
        &&& forall|osr: int|
            4 <= osr <= 32 ==> cand_err(effective_clock, baud, self.osr + 1) <= #[trigger] cand_err(
                effective_clock,
                baud,
                osr,
            )
    }
}

/// Compute timings for a UART peripheral: the oversampling ratio and
/// divisor whose effective rate is closest to `baud`. Fails exactly when
/// `baud` is zero.
pub fn timings(effective_clock: u32, baud: u32) -> (r: Result<Timings, Error>)
    ensures
        baud == 0 <==> r is Err,
        r matches Err(e) ==> e == Error::Clock,
        r matches Ok(t) ==> t.is_best(effective_clock as int, baud as int),
{
    if baud == 0 {
        return Err(Error::Clock);
    }
    let base_clock: u32 = effective_clock / baud;

    let first_sbr: u32 = clamp_sbr(base_clock / 4);
    let mut best_osr: u32 = 4;
    let mut best_sbr: u32 = first_sbr;
    let mut error: u32 = rate_error(effective_clock, baud, 4, first_sbr);

    let mut osr: u32 = 5;
    while osr <= 32
        invariant
            5 <= osr <= 33,
            baud > 0,
            base_clock == effective_clock / baud,
            4 <= best_osr <= 32,
            best_osr < osr,
            1 <= best_sbr <= 8191,
            best_sbr == cand_sbr(effective_clock as int, baud as int, best_osr as int),
            error == cand_err(effective_clock as int, baud as int, best_osr as int),
            forall|o: int|
                4 <= o < osr ==> cand_err(effective_clock as int, baud as int, best_osr as int)
                    <= #[trigger] cand_err(effective_clock as int, baud as int, o),
        decreases 33 - osr,
    {
        let sbr: u32 = clamp_sbr(base_clock / osr);
        let err: u32 = rate_error(effective_clock, baud, osr, sbr);
        if err < error {
            best_osr = osr;
            best_sbr = sbr;
            error = err;
        }
        osr = osr + 1;
    }

    Ok(Timings { osr: (best_osr - 1) as u8, sbr: best_sbr as u16, both_edge: best_osr < 8 })
}

/// Clamp an ideal divisor into the register range 1..=8191.
fn clamp_sbr(ideal: u32) -> (r: u32)
    ensures
        1 <= r <= 8191,
        r as int == if ideal < 1 {
            1int
        } else if ideal > 8191 {
            8191int
        } else {
            ideal as int
        },
{
    if ideal < 1 {
        1
    } else if ideal > 8191 {
        8191
    } else {
        ideal
    }
}

/// The absolute error between `baud` and the rate that `osr` and `sbr`
/// reach from `effective_clock`.
fn rate_error(effective_clock: u32, baud: u32, osr: u32, sbr: u32) -> (err: u32)
    requires
        4 <= osr <= 32,
        1 <= sbr <= 8191,
        baud > 0,
        sbr == cand_sbr(effective_clock as int, baud as int, osr as int),
    ensures
        err == cand_err(effective_clock as int, baud as int, osr as int),
{
    proof {
        assert(osr * sbr <= 32 * 8191) by (nonlinear_arith)
            requires
                osr <= 32,
                sbr <= 8191,
        ;
        assert(osr * sbr >= 1) by (nonlinear_arith)
            requires
                osr >= 1,
                sbr >= 1,
        ;
    }
    let divisor: u32 = osr * sbr;
    let effective_baud: u32 = effective_clock / divisor;
    if effective_baud >= baud {
        effective_baud - baud
    } else {
        baud - effective_baud
    }
}

impl<TX, RX> UART<TX, RX> {
    /// The register-block model this driver owns.
    pub closed spec fn instance(&self) -> LpuartInstance {
        self.uart
    }

    /// Create a `UART` from an instance model and its TX and RX pins,
    /// enabling the transmitter and the receiver. The baud rate is
    /// unspecified until [`UART::set_baud`] is called.
    pub fn new(uart: LpuartInstance, tx: TX, rx: RX) -> (r: UART<TX, RX>)
        ensures
            r.instance() == (LpuartInstance { ctrl: (uart.ctrl | CTRL_TE | CTRL_RE) as u32, ..uart }),
    {
        let mut uart = uart;
        uart.ctrl = uart.ctrl | CTRL_TE | CTRL_RE;
        UART { uart, tx, rx }
    }

    /// Set the serial baud rate, choosing the closest reachable timing.
    /// Fails with [`Error::Clock`] exactly when `baud` is zero; on success
    /// the baud register carries the chosen ratio, divisor, and edge
    /// setting, and the transmitter and receiver are re-enabled as they
    /// were. Both FIFOs are flushed while the enables are down; the model
    /// keeps no FIFO contents and the flush bits read back clear, so the
    /// FIFO register is unchanged by the flush.
    pub fn set_baud(&mut self, baud: u32, source_clock_hz: u32) -> (r: Result<(), Error>)
        ensures
            baud == 0 <==> r is Err,
            r matches Ok(()) ==> exists|t: Timings|
                #[trigger] t.is_best(source_clock_hz as int, baud as int) && final(self).instance()
                    == (LpuartInstance {
                    baud: spec_baud_register(old(self).instance().baud, t),
                    ..old(self).instance()
                }),
            r is Err ==> final(self).instance() == old(self).instance(),
    {
        let t = match timings(source_clock_hz, baud) {
            Ok(t) => t,
            Err(e) => {
                return Err(e);
            },
        };
        let te_re: u32 = self.uart.ctrl & (CTRL_TE | CTRL_RE);
        self.uart.ctrl = self.uart.ctrl & !(CTRL_TE | CTRL_RE);
        self.uart.baud = (self.uart.baud & !(BAUD_OSR_MASK | BAUD_SBR_MASK | BAUD_BOTHEDGE)) | ((
        (t.osr as u32) << BAUD_OSR_SHIFT) & BAUD_OSR_MASK) | ((t.sbr as u32) & BAUD_SBR_MASK) | (
        if t.both_edge {
            BAUD_BOTHEDGE
        } else {
            0
        });
        self.uart.ctrl = self.uart.ctrl | te_re;
        proof {
            let c: u32 = old(self).instance().ctrl;
            let m: u32 = CTRL_TE | CTRL_RE;
            assert((c & !m) | (c & m) == c) by (bit_vector);
            assert(self.uart.ctrl == old(self).instance().ctrl);
        }
        Ok(())
    }

    /// Return the pins and the register-block model.
    pub fn release(self) -> (r: (TX, RX, LpuartInstance))
        ensures
            r.2 == self.instance(),
    {
        (self.tx, self.rx, self.uart)
    }

    /// Use a DMA channel to write the `len` bytes at `buffer` to the
    /// UART: arms a one-shot transfer into the DATA register, triggered
    /// by this instance's transmit request signal, and sets the
    /// transmit-DMA enable. Poll the returned operation to completion.
    pub fn dma_write(&mut self, channel: &mut Channel, buffer: usize, len: usize) -> (tx: Tx)
        requires
            buffer <= ADDRESS_LIMIT,
            len <= 0xFFFF,
        ensures
            spec_tx_armed(
                old(channel)@,
                final(channel)@,
                buffer,
                len,
                1,
                (uart_source_signal(old(self).instance().index) - 1) as u32,
                old(self).instance().data_addr,
            ),
            final(self).instance() == (LpuartInstance {
                baud: (old(self).instance().baud | BAUD_TDMAE) as u32,
                ..old(self).instance()
            }),
    {
        transfer::<u8, Self>(channel, self, buffer, len)
    }

    /// Use a DMA channel to read `len` bytes from the UART into
    /// `buffer`: arms a one-shot transfer out of the DATA register,
    /// triggered by this instance's receive request signal, clears the
    /// stale status flags, and sets the receive-DMA enable.
    pub fn dma_read(&mut self, channel: &mut Channel, buffer: usize, len: usize) -> (rx: Rx)
        requires
            buffer <= ADDRESS_LIMIT,
            len <= 0xFFFF,
        ensures
            spec_rx_armed(
                old(channel)@,
                final(channel)@,
                buffer,
                len,
                1,
                uart_source_signal(old(self).instance().index),
                old(self).instance().data_addr,
            ),
            final(self).instance() == (LpuartInstance {
                stat: (old(self).instance().stat | STAT_CLEAR) as u32,
                baud: (old(self).instance().baud | BAUD_RDMAE) as u32,
                ..old(self).instance()
            }),
    {
        receive::<u8, Self>(channel, self, buffer, len)
    }
}

/// The baud register contents after committing `t`: ratio, divisor, and
/// edge setting replaced; every other bit kept.
pub open spec fn spec_baud_register(pre: u32, t: Timings) -> u32 {
    ((pre & !(BAUD_OSR_MASK | BAUD_SBR_MASK | BAUD_BOTHEDGE)) | (((t.osr as u32) << BAUD_OSR_SHIFT)
        & BAUD_OSR_MASK) | ((t.sbr as u32) & BAUD_SBR_MASK) | (if t.both_edge {
        BAUD_BOTHEDGE
    } else {
        0u32
    })) as u32
}

/// The receive-direction request-multiplexer signal of each UART instance.
pub open spec fn uart_source_signal(index: u32) -> u32 {
    if index == 1 {
        3
    } else if index == 2 {
        67
    } else if index == 3 {
        5
    } else if index == 4 {
        69
    } else if index == 5 {
        7
    } else if index == 6 {
        71
    } else if index == 7 {
        9
    } else {
        73
    }
}

impl<TX, RX> Source<u8> for UART<TX, RX> {
    closed spec fn source_signal_spec(&self) -> u32 {
        uart_source_signal(self.uart.index)
    }

    closed spec fn source_address_spec(&self) -> usize {
        self.uart.data_addr
    }

    closed spec fn source_request_enabled(&self) -> bool {
        self.uart.baud & BAUD_RDMAE != 0
    }

    closed spec fn source_enabled_spec(&self) -> Self {
        UART {
            uart: LpuartInstance {
                stat: (self.uart.stat | STAT_CLEAR) as u32,
                baud: (self.uart.baud | BAUD_RDMAE) as u32,
                ..self.uart
            },
            ..*self
        }
    }

    closed spec fn source_disabled_spec(&self) -> Self {
        UART {
            uart: LpuartInstance { baud: (self.uart.baud & !BAUD_RDMAE) as u32, ..self.uart },
            ..*self
        }
    }

    fn source_signal(&self) -> (signal: u32) {
        if self.uart.index == 1 {
            3
        } else if self.uart.index == 2 {
            67
        } else if self.uart.index == 3 {
            5
        } else if self.uart.index == 4 {
            69
        } else if self.uart.index == 5 {
            7
        } else if self.uart.index == 6 {
            71
        } else if self.uart.index == 7 {
            9
        } else {
            73
        }
    }

    fn source_address(&self) -> (a: usize) {
        self.uart.data_addr
    }

    fn enable_source(&mut self)
        ensures
            final(self).instance() == (LpuartInstance {
                stat: (old(self).instance().stat | STAT_CLEAR) as u32,
                baud: (old(self).instance().baud | BAUD_RDMAE) as u32,
                ..old(self).instance()
            }),
    {
        self.uart.stat = self.uart.stat | STAT_CLEAR;
        self.uart.baud = self.uart.baud | BAUD_RDMAE;
        proof {
            let b: u32 = old(self).instance().baud;
            assert((b | BAUD_RDMAE) & BAUD_RDMAE != 0) by (bit_vector);
        }
    }

    fn disable_source(&mut self)
        ensures
            final(self).instance() == (LpuartInstance {
                baud: (old(self).instance().baud & !BAUD_RDMAE) as u32,
                ..old(self).instance()
            }),
    {
        self.uart.baud = self.uart.baud & !BAUD_RDMAE;
        proof {
            let b: u32 = old(self).instance().baud;
            assert((b & !BAUD_RDMAE) & BAUD_RDMAE == 0) by (bit_vector);
        }
    }
}

impl<TX, RX> Destination<u8> for UART<TX, RX> {
    closed spec fn destination_signal_spec(&self) -> u32 {
        (uart_source_signal(self.uart.index) - 1) as u32
    }

    closed spec fn destination_address_spec(&self) -> usize {
        self.uart.data_addr
    }

    closed spec fn destination_request_enabled(&self) -> bool {
        self.uart.baud & BAUD_TDMAE != 0
    }

    closed spec fn destination_enabled_spec(&self) -> Self {
        UART {
            uart: LpuartInstance { baud: (self.uart.baud | BAUD_TDMAE) as u32, ..self.uart },
            ..*self
        }
    }

    closed spec fn destination_disabled_spec(&self) -> Self {
        UART {
            uart: LpuartInstance { baud: (self.uart.baud & !BAUD_TDMAE) as u32, ..self.uart },
            ..*self
        }
    }

    fn destination_signal(&self) -> (signal: u32) {
        let source = if self.uart.index == 1 {
            3
        } else if self.uart.index == 2 {
            67
        } else if self.uart.index == 3 {
            5
        } else if self.uart.index == 4 {
            69
        } else if self.uart.index == 5 {
            7
        } else if self.uart.index == 6 {
            71
        } else if self.uart.index == 7 {
            9
        } else {
            73
        };
        source - 1
    }

    fn destination_address(&self) -> (a: usize) {
        self.uart.data_addr
    }

    fn enable_destination(&mut self)
        ensures
            final(self).instance() == (LpuartInstance {
                baud: (old(self).instance().baud | BAUD_TDMAE) as u32,
                ..old(self).instance()
            }),
    {
        self.uart.baud = self.uart.baud | BAUD_TDMAE;
        proof {
            let b: u32 = old(self).instance().baud;
            assert((b | BAUD_TDMAE) & BAUD_TDMAE != 0) by (bit_vector);
        }
    }

    fn disable_destination(&mut self)
        ensures
            final(self).instance() == (LpuartInstance {
                baud: (old(self).instance().baud & !BAUD_TDMAE) as u32,
                ..old(self).instance()
            }),
    {
        self.uart.baud = self.uart.baud & !BAUD_TDMAE;
        proof {
            let b: u32 = old(self).instance().baud;
            assert((b & !BAUD_TDMAE) & BAUD_TDMAE == 0) by (bit_vector);
        }
    }
}

} // verus!
