//! I2C clock control.

use vstd::prelude::*;

use crate::ccm::gates::gate_field;
use crate::ccm::gates::set_gate;
use crate::ccm::ClockGate;
use crate::ccm::Disabled;
use crate::ccm::Handle;
use crate::ccm::CCGR_COUNT;
use crate::ccm::OSCILLATOR_FREQUENCY_HZ;
use crate::regs::Lpi2cInstance;

verus! {

/// Divider applied to the oscillator for the I2C root.
pub const I2C_CLOCK_DIVIDER: u32 = 3;

/// Root-selection field in the serial clock divider register 2.
pub const LPI2C_CLK_SEL: u32 = 0x4_0000;

/// Divider field mask in the serial clock divider register 2.
pub const LPI2C_CLK_PODF_MASK: u32 = 0x3F_8000;

/// Shift of the divider field.
pub const LPI2C_CLK_PODF_SHIFT: u32 = 19;

/// The I2C clock root.
pub struct I2CClock {}

impl I2CClock {
    /// The root as handed out by the CCM, before it is enabled.
    pub(crate) fn root() -> I2CClock {
        I2CClock {}
    }

    /// Set the clock gate for the I2C instance.
    pub fn clock_gate(&mut self, handle: &mut Handle, i2c: &Lpi2cInstance, gate: ClockGate)
        requires
            old(handle).wf(),
            1 <= i2c.index <= 4,
        ensures
            final(handle).wf(),
            spec_gated(
                old(handle),
                final(handle),
                i2c_gate_register(i2c.index),
                i2c_gate_field(i2c.index),
                gate,
            ),
    {
        clock_gate(handle, i2c, gate)
    }

    /// The I2C peripheral clock frequency (Hz).
    pub fn frequency() -> (hz: u32)
        ensures
            hz == OSCILLATOR_FREQUENCY_HZ / I2C_CLOCK_DIVIDER,
    {
        OSCILLATOR_FREQUENCY_HZ / I2C_CLOCK_DIVIDER
    }
}

impl Disabled<I2CClock> {
    /// Enable the I2C clock root: select the oscillator and commit the
    /// divider.
    pub fn enable(self, handle: &mut Handle) -> (clk: I2CClock)
        ensures
            final(handle).cscdr2 == spec_enabled_cscdr2(old(handle).cscdr2),
            final(handle).ccgr@ == old(handle).ccgr@,
            final(handle).cscdr1 == old(handle).cscdr1,
            final(handle).cscmr1 == old(handle).cscmr1,
            final(handle).cbcmr == old(handle).cbcmr,
    {
        enable(handle);
        self.take()
    }
}

/// The CCGR index holding an I2C instance's gate.
pub open spec fn i2c_gate_register(index: u32) -> int {
    if index == 4 {
        6
    } else {
        2
    }
}

/// The two-bit field an I2C instance gates in, within its CCGR register.
pub open spec fn i2c_gate_field(index: u32) -> u32 {
    if index == 1 {
        3
    } else if index == 2 {
        4
    } else if index == 3 {
        5
    } else {
        12
    }
}

/// `post` is `pre` with exactly the two-bit field `fld` of CCGR register
/// `reg` rewritten to the selected setting.
pub open spec fn spec_gated(pre: &Handle, post: &Handle, reg: int, fld: u32, gate: ClockGate) -> bool {
    &&& forall|r: int| 0 <= r < CCGR_COUNT && r != reg ==> post.ccgr@[r] == pre.ccgr@[r]
    &&& forall|k: u32|
        k < 16 ==> #[trigger] gate_field(post.ccgr@[reg], k) == if k == fld {
            crate::ccm::gates::gate_value(gate.value_spec())
        } else {
            gate_field(pre.ccgr@[reg], k)
        }
    &&& post.cscdr1 == pre.cscdr1
    &&& post.cscdr2 == pre.cscdr2
    &&& post.cscmr1 == pre.cscmr1
    &&& post.cbcmr == pre.cbcmr
}

/// The serial clock divider register 2 after the I2C root is enabled:
/// oscillator selected, divider committed, everything else untouched.
pub open spec fn spec_enabled_cscdr2(pre: u32) -> u32 {
    (pre & !LPI2C_CLK_PODF_MASK | LPI2C_CLK_SEL | (((I2C_CLOCK_DIVIDER - 1) as u32)
        << LPI2C_CLK_PODF_SHIFT)) as u32
}

/// Set the clock gate for an I2C peripheral.
pub fn clock_gate(handle: &mut Handle, i2c: &Lpi2cInstance, gate: ClockGate)
    requires
        old(handle).wf(),
        1 <= i2c.index <= 4,
    ensures
        final(handle).wf(),
        spec_gated(
            old(handle),
            final(handle),
            i2c_gate_register(i2c.index),
            i2c_gate_field(i2c.index),
            gate,
        ),
{
    let idx: usize = if i2c.index == 4 {
        6
    } else {
        2
    };
    let fld: usize = if i2c.index == 1 {
        3
    } else if i2c.index == 2 {
        4
    } else if i2c.index == 3 {
        5
    } else {
        12
    };
    set_gate(handle, idx, fld, gate.value());
}

/// Enable the I2C clock root: select the 24 MHz oscillator and commit the
/// divider into the serial clock divider register 2.
pub fn enable(handle: &mut Handle)
    ensures
        final(handle).cscdr2 == spec_enabled_cscdr2(old(handle).cscdr2),
        final(handle).ccgr@ == old(handle).ccgr@,
        final(handle).cscdr1 == old(handle).cscdr1,
        final(handle).cscmr1 == old(handle).cscmr1,
        final(handle).cbcmr == old(handle).cbcmr,
{
    handle.cscdr2 = handle.cscdr2 & !LPI2C_CLK_PODF_MASK | LPI2C_CLK_SEL | ((I2C_CLOCK_DIVIDER - 1)
        << LPI2C_CLK_PODF_SHIFT);
}

} // verus!
