//! Periodic clock (GPT, PIT) control.

use vstd::prelude::*;

use crate::ccm::gates::gate_field;
use crate::ccm::gates::set_gate;
use crate::ccm::ClockGate;
use crate::ccm::Disabled;
use crate::ccm::Handle;
use crate::ccm::CCGR_COUNT;
use crate::ccm::OSCILLATOR_FREQUENCY_HZ;

verus! {

/// Divider applied to the oscillator for the periodic clock root.
pub const PERIODIC_CLOCK_DIVIDER: u32 = 24;

/// Root-selection field in the serial clock multiplexer register 1.
pub const PERCLK_CLK_SEL: u32 = 0x40;

/// Divider field mask in the serial clock multiplexer register 1.
pub const PERCLK_PODF_MASK: u32 = 0x3F;

/// The periodic clock root.
pub struct PerClock {}

impl PerClock {
    /// The root as handed out by the CCM, before it is enabled.
    pub(crate) fn root() -> PerClock {
        PerClock {}
    }

    /// Set the clock gates for a GPT instance; each GPT owns two gate
    /// fields, for its peripheral and its serial sides.
    pub fn clock_gate_gpt(&mut self, handle: &mut Handle, gpt_index: u32, gate: ClockGate)
        requires
            old(handle).wf(),
            1 <= gpt_index <= 2,
        ensures
            final(handle).wf(),
            spec_gated_two(
                old(handle),
                final(handle),
                gpt_gate_register(gpt_index),
                gpt_gate_fields(gpt_index).0,
                gpt_gate_fields(gpt_index).1,
                gate,
            ),
    {
        clock_gate_gpt(handle, gpt_index, gate)
    }

    /// Set the clock gate for the PIT.
    pub fn clock_gate_pit(&mut self, handle: &mut Handle, gate: ClockGate)
        requires
            old(handle).wf(),
        ensures
            final(handle).wf(),
            spec_gated_one(old(handle), final(handle), 1, 6, gate),
    {
        clock_gate_pit(handle, gate)
    }

    /// The periodic clock frequency (Hz).
    pub fn frequency() -> (hz: u32)
        ensures
            hz == OSCILLATOR_FREQUENCY_HZ / PERIODIC_CLOCK_DIVIDER,
    {
        OSCILLATOR_FREQUENCY_HZ / PERIODIC_CLOCK_DIVIDER
    }
}

impl Disabled<PerClock> {
    /// Enable the periodic clock root: select the oscillator and commit
    /// the divider.
    pub fn enable(self, handle: &mut Handle) -> (clk: PerClock)
        ensures
            final(handle).cscmr1 == spec_enabled_cscmr1(old(handle).cscmr1),
            final(handle).ccgr@ == old(handle).ccgr@,
            final(handle).cscdr1 == old(handle).cscdr1,
            final(handle).cscdr2 == old(handle).cscdr2,
            final(handle).cbcmr == old(handle).cbcmr,
    {
        enable(handle);
        self.take()
    }
}

/// `post` is `pre` with exactly the two-bit field `fld` of CCGR register
/// `reg` rewritten to the selected setting.
pub open spec fn spec_gated_one(pre: &Handle, post: &Handle, reg: int, fld: u32, gate: ClockGate) -> bool {
    &&& forall|r: int| 0 <= r < CCGR_COUNT && r != reg ==> post.ccgr@[r] == pre.ccgr@[r]
    &&& forall|k: u32|
        k < 16 ==> #[trigger] gate_field(post.ccgr@[reg], k) == if k == fld {
            crate::ccm::gates::gate_value(gate.value_spec())
        } else {
            gate_field(pre.ccgr@[reg], k)
        }
    &&& post.cscdr1 == pre.cscdr1
    &&& post.cscdr2 == pre.cscdr2
    &&& post.cscmr1 == pre.cscmr1
    &&& post.cbcmr == pre.cbcmr
}

/// `post` is `pre` with exactly the two-bit fields `fld0` and `fld1` of
/// CCGR register `reg` rewritten to the selected setting.
pub open spec fn spec_gated_two(
    pre: &Handle,
    post: &Handle,
    reg: int,
    fld0: u32,
    fld1: u32,
    gate: ClockGate,
) -> bool {
    &&& forall|r: int| 0 <= r < CCGR_COUNT && r != reg ==> post.ccgr@[r] == pre.ccgr@[r]
    &&& forall|k: u32|
        k < 16 ==> #[trigger] gate_field(post.ccgr@[reg], k) == if k == fld0 || k == fld1 {
            crate::ccm::gates::gate_value(gate.value_spec())
        } else {
            gate_field(pre.ccgr@[reg], k)
        }
    &&& post.cscdr1 == pre.cscdr1
    &&& post.cscdr2 == pre.cscdr2
    &&& post.cscmr1 == pre.cscmr1
    &&& post.cbcmr == pre.cbcmr
}

/// The CCGR index holding a GPT instance's gates.
pub open spec fn gpt_gate_register(index: u32) -> int {
    if index == 1 {
        1
    } else {
        0
    }
}

/// The two gate fields of a GPT instance within its CCGR register.
pub open spec fn gpt_gate_fields(index: u32) -> (u32, u32) {
    if index == 1 {
        (10u32, 11u32)
    } else {
        (12u32, 13u32)
    }
}

/// Set the two clock gates of a GPT instance.
pub fn clock_gate_gpt(handle: &mut Handle, gpt_index: u32, gate: ClockGate)
    requires
        old(handle).wf(),
        1 <= gpt_index <= 2,
    ensures
        final(handle).wf(),
        spec_gated_two(
            old(handle),
            final(handle),
            gpt_gate_register(gpt_index),
            gpt_gate_fields(gpt_index).0,
            gpt_gate_fields(gpt_index).1,
            gate,
        ),
{
    let idx: usize = if gpt_index == 1 {
        1
    } else {
        0
    };
    let fld0: usize = if gpt_index == 1 {
        10
    } else {
        12
    };
    set_gate(handle, idx, fld0, gate.value());
    set_gate(handle, idx, fld0 + 1, gate.value());
}

/// Set the clock gate of the PIT.
pub fn clock_gate_pit(handle: &mut Handle, gate: ClockGate)
    requires
        old(handle).wf(),
    ensures
        final(handle).wf(),
        spec_gated_one(old(handle), final(handle), 1, 6, gate),
{
    set_gate(handle, 1, 6, gate.value());
}

/// The serial clock multiplexer register 1 after the periodic root is
/// enabled: oscillator selected, divider committed.
pub open spec fn spec_enabled_cscmr1(pre: u32) -> u32 {
    (pre & !PERCLK_PODF_MASK | PERCLK_CLK_SEL | ((PERIODIC_CLOCK_DIVIDER - 1) as u32)) as u32
}

/// Enable the periodic clock root.
pub fn enable(handle: &mut Handle)
    ensures
        final(handle).cscmr1 == spec_enabled_cscmr1(old(handle).cscmr1),
        final(handle).ccgr@ == old(handle).ccgr@,
        final(handle).cscdr1 == old(handle).cscdr1,
        final(handle).cscdr2 == old(handle).cscdr2,
        final(handle).cbcmr == old(handle).cbcmr,
{
    handle.cscmr1 = handle.cscmr1 & !PERCLK_PODF_MASK | PERCLK_CLK_SEL | (PERIODIC_CLOCK_DIVIDER
        - 1);
}

} // verus!
