//! UART clock control.

use vstd::prelude::*;

use crate::ccm::gates::gate_field;
use crate::ccm::gates::set_gate;
use crate::ccm::ClockGate;
use crate::ccm::Disabled;
use crate::ccm::Handle;
use crate::ccm::CCGR_COUNT;
use crate::ccm::OSCILLATOR_FREQUENCY_HZ;
use crate::regs::LpuartInstance;

verus! {

/// Root-selection field in the serial clock divider register 1.
pub const UART_CLK_SEL: u32 = 0x40;

/// Divider field mask in the serial clock divider register 1.
pub const UART_CLK_PODF_MASK: u32 = 0x3F;

/// The UART clock root.
pub struct UARTClock {}

impl UARTClock {
    /// The root as handed out by the CCM, before it is enabled.
    pub(crate) fn root() -> UARTClock {
        UARTClock {}
    }

    /// Set the clock gate for the UART instance.
    pub fn clock_gate(&mut self, handle: &mut Handle, uart: &LpuartInstance, gate: ClockGate)
        requires
            old(handle).wf(),
            1 <= uart.index <= 8,
        ensures
            final(handle).wf(),
            spec_gated(
                old(handle),
                final(handle),
                uart_gate_register(uart.index),
                uart_gate_field(uart.index),
                gate,
            ),
    {
        clock_gate(handle, uart, gate)
    }

    /// The UART clock frequency (Hz): the oscillator, undivided.
    pub fn frequency() -> (hz: u32)
        ensures
            hz == OSCILLATOR_FREQUENCY_HZ,
    {
        OSCILLATOR_FREQUENCY_HZ
    }
}

impl Disabled<UARTClock> {
    /// Enable the UART clock root: select the oscillator, undivided.
    pub fn enable(self, handle: &mut Handle) -> (clk: UARTClock)
        ensures
            final(handle).cscdr1 == spec_enabled_cscdr1(old(handle).cscdr1),
            final(handle).ccgr@ == old(handle).ccgr@,
            final(handle).cscdr2 == old(handle).cscdr2,
            final(handle).cscmr1 == old(handle).cscmr1,
            final(handle).cbcmr == old(handle).cbcmr,
    {
        enable(handle);
        self.take()
    }
}

/// `post` is `pre` with exactly the two-bit field `fld` of CCGR register
/// `reg` rewritten to the selected setting.
pub open spec fn spec_gated(pre: &Handle, post: &Handle, reg: int, fld: u32, gate: ClockGate) -> bool {
    &&& forall|r: int| 0 <= r < CCGR_COUNT && r != reg ==> post.ccgr@[r] == pre.ccgr@[r]
    &&& forall|k: u32|
        k < 16 ==> #[trigger] gate_field(post.ccgr@[reg], k) == if k == fld {
            crate::ccm::gates::gate_value(gate.value_spec())
        } else {
            gate_field(pre.ccgr@[reg], k)
        }
    &&& post.cscdr1 == pre.cscdr1
    &&& post.cscdr2 == pre.cscdr2
    &&& post.cscmr1 == pre.cscmr1
    &&& post.cbcmr == pre.cbcmr
}

/// The CCGR index holding a UART instance's gate.
pub open spec fn uart_gate_register(index: u32) -> int {
    if index == 1 {
        5
    } else if index == 2 {
        0
    } else if index == 3 {
        0
    } else if index == 4 {
        1
    } else if index == 5 {
        3
    } else if index == 6 {
        3
    } else if index == 7 {
        5
    } else {
        6
    }
}

/// The two-bit field a UART instance gates in, within its CCGR register.
pub open spec fn uart_gate_field(index: u32) -> u32 {
    if index == 1 {
        12
    } else if index == 2 {
        14
    } else if index == 3 {
        6
    } else if index == 4 {
        12
    } else if index == 5 {
        1
    } else if index == 6 {
        3
    } else if index == 7 {
        13
    } else {
        7
    }
}

/// Set the clock gate for a UART peripheral.
pub fn clock_gate(handle: &mut Handle, uart: &LpuartInstance, gate: ClockGate)
    requires
        old(handle).wf(),
        1 <= uart.index <= 8,
    ensures
        final(handle).wf(),
        spec_gated(
            old(handle),
            final(handle),
            uart_gate_register(uart.index),
            uart_gate_field(uart.index),
            gate,
        ),
{
    let idx: usize = if uart.index == 1 {
        5
    } else if uart.index == 2 {
        0
    } else if uart.index == 3 {
        0
    } else if uart.index == 4 {
        1
    } else if uart.index == 5 {
        3
    } else if uart.index == 6 {
        3
    } else if uart.index == 7 {
        5
    } else {
        6
    };
    let fld: usize = if uart.index == 1 {
        12
    } else if uart.index == 2 {
        14
    } else if uart.index == 3 {
        6
    } else if uart.index == 4 {
        12
    } else if uart.index == 5 {
        1
    } else if uart.index == 6 {
        3
    } else if uart.index == 7 {
        13
    } else {
        7
    };
    set_gate(handle, idx, fld, gate.value());
}

/// The serial clock divider register 1 after the UART root is enabled:
/// oscillator selected, divide by one.
pub open spec fn spec_enabled_cscdr1(pre: u32) -> u32 {
    (pre & !UART_CLK_PODF_MASK | UART_CLK_SEL) as u32
}

/// Enable the UART clock root.
pub fn enable(handle: &mut Handle)
    ensures
        final(handle).cscdr1 == spec_enabled_cscdr1(old(handle).cscdr1),
        final(handle).ccgr@ == old(handle).ccgr@,
        final(handle).cscdr2 == old(handle).cscdr2,
        final(handle).cscmr1 == old(handle).cscmr1,
        final(handle).cbcmr == old(handle).cbcmr,
{
    handle.cscdr1 = handle.cscdr1 & !UART_CLK_PODF_MASK | UART_CLK_SEL;
}

} // verus!
