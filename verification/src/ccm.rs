//! Clock control module (CCM).
//!
//! [`CCM::new`] yields the CCM handle — the model of the clock-control
//! register file — together with the disabled clock roots. Enabling a root
//! commits its selector and divider; an enabled root can then gate
//! individual peripheral instances on and off through the clock-gate
//! registers.

use vstd::prelude::*;

pub mod gates;
pub mod i2c;
pub mod perclock;
pub mod spi;
pub mod uart;

use i2c::I2CClock;
use perclock::PerClock;
use spi::SPIClock;
use uart::UARTClock;

verus! {

/// The crystal oscillator every root clock here derives from.
pub const OSCILLATOR_FREQUENCY_HZ: u32 = 24_000_000;

/// Number of clock-gate registers.
pub const CCGR_COUNT: usize = 8;

/// Clock gate setting for one peripheral instance.
#[derive(Debug, Clone, Copy, PartialEq, Eq, Structural)]
pub enum ClockGate {
    /// Clock off in all modes.
    Off,
    /// Clock on in run mode, off in wait and stop modes.
    OnlyRun,
    /// Clock on in run, wait, and stop modes.
    On,
}

impl ClockGate {
    /// The two-bit field value this setting writes into a gate register.
    pub open spec fn value_spec(self) -> u8 {
        match self {
            ClockGate::Off => 0u8,
            ClockGate::OnlyRun => 1u8,
            ClockGate::On => 3u8,
        }
    }

    /// The two-bit field value this setting writes into a gate register.
    pub fn value(self) -> (v: u8)
        ensures
            v == self.value_spec(),
    {
        match self {
            ClockGate::Off => 0,
            ClockGate::OnlyRun => 1,
            ClockGate::On => 3,
        }
    }
}

/// The CCM register file: the clock-gate registers and the root selector
/// registers the drivers here touch.
pub struct Handle {
    /// Clock-gate registers, sixteen two-bit fields each.
    pub ccgr: Vec<u32>,
    /// Serial clock divider register 1: UART root selection.
    pub cscdr1: u32,
    /// Serial clock divider register 2: I2C root selection.
    pub cscdr2: u32,
    /// Serial clock multiplexer register 1: periodic clock selection.
    pub cscmr1: u32,
    /// Bus clock multiplexer register: SPI root selection.
    pub cbcmr: u32,
}

impl Handle {
    /// The register file is complete.
    pub open spec fn wf(&self) -> bool {
        self.ccgr@.len() == CCGR_COUNT
    }

    /// A CCM register file with every register zeroed.
    pub fn new() -> (h: Handle)
        ensures
            h.wf(),
            forall|i: int| 0 <= i < CCGR_COUNT ==> h.ccgr@[i] == 0u32,
            h.cscdr1 == 0 && h.cscdr2 == 0 && h.cscmr1 == 0 && h.cbcmr == 0,
    {
        let mut ccgr: Vec<u32> = Vec::new();
        let mut i: usize = 0;
        while i < CCGR_COUNT
            invariant
                i <= CCGR_COUNT,
                ccgr@.len() == i,
                forall|j: int| 0 <= j < i ==> ccgr@[j] == 0u32,
            decreases CCGR_COUNT - i,
        {
            ccgr.push(0);
            i = i + 1;
        }
        Handle { ccgr, cscdr1: 0, cscdr2: 0, cscmr1: 0, cbcmr: 0 }
    }
}

/// A clock root that has not been enabled yet: its selector and divider
/// are uncommitted, so it cannot gate peripherals.
pub struct Disabled<T> {
    clock: T,
}

impl<T> Disabled<T> {
    /// Wrap a clock root as disabled.
    pub fn hold(clock: T) -> (d: Disabled<T>) {
        Disabled { clock }
    }

    /// Give the root out; used by the `enable` implementations once the
    /// root's selector is committed.
    pub fn take(self) -> (t: T) {
        self.clock
    }
}

/// The CCM: the handle over the register file, and each clock root in its
/// disabled state.
pub struct CCM {
    /// The register file handle.
    pub handle: Handle,
    /// The periodic clock root (GPT, PIT), disabled.
    pub perclock: Disabled<PerClock>,
    /// The UART clock root, disabled.
    pub uart_clock: Disabled<UARTClock>,
    /// The SPI clock root, disabled.
    pub spi_clock: Disabled<SPIClock>,
    /// The I2C clock root, disabled.
    pub i2c_clock: Disabled<I2CClock>,
}

impl CCM {
    /// Acquire the CCM: a zeroed register file and the disabled roots.
    pub fn new() -> (ccm: CCM)
        ensures
            ccm.handle.wf(),
    {
        CCM {
            handle: Handle::new(),
            perclock: Disabled::hold(PerClock::root()),
            uart_clock: Disabled::hold(UARTClock::root()),
            spi_clock: Disabled::hold(SPIClock::root()),
            i2c_clock: Disabled::hold(I2CClock::root()),
        }
    }
}

} // verus!
