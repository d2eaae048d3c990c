//! SPI clock control.

use vstd::prelude::*;

use crate::ccm::gates::gate_field;
use crate::ccm::gates::set_gate;
use crate::ccm::ClockGate;
use crate::ccm::Disabled;
use crate::ccm::Handle;
use crate::ccm::CCGR_COUNT;
use crate::regs::LpspiInstance;

verus! {

/// Divider applied to the SPI root's PLL source.
pub const SPI_CLOCK_DIVIDER: u32 = 5;

/// Frequency of the PLL the SPI root derives from.
pub const SPI_SOURCE_CLOCK_HZ: u32 = 528_000_000;

/// Root-selection field in the bus clock multiplexer register.
pub const LPSPI_CLK_SEL: u32 = 0x20;

/// Divider field mask in the bus clock multiplexer register.
pub const LPSPI_PODF_MASK: u32 = 0x1C;

/// Shift of the divider field.
pub const LPSPI_PODF_SHIFT: u32 = 2;

/// The SPI clock root.
pub struct SPIClock {}

impl SPIClock {
    /// The root as handed out by the CCM, before it is enabled.
    pub(crate) fn root() -> SPIClock {
        SPIClock {}
    }

    /// Set the clock gate for the SPI instance.
    pub fn clock_gate(&mut self, handle: &mut Handle, spi: &LpspiInstance, gate: ClockGate)
        requires
            old(handle).wf(),
            1 <= spi.index <= 4,
        ensures
            final(handle).wf(),
            spec_gated(old(handle), final(handle), 1, (spi.index - 1) as u32, gate),
    {
        clock_gate(handle, spi, gate)
    }

    /// The SPI clock frequency (Hz).
    pub fn frequency() -> (hz: u32)
        ensures
            hz == SPI_SOURCE_CLOCK_HZ / SPI_CLOCK_DIVIDER,
    {
        SPI_SOURCE_CLOCK_HZ / SPI_CLOCK_DIVIDER
    }
}

impl Disabled<SPIClock> {
    /// Enable the SPI clock root: select the PLL and commit the divider.
    pub fn enable(self, handle: &mut Handle) -> (clk: SPIClock)
        ensures
            final(handle).cbcmr == spec_enabled_cbcmr(old(handle).cbcmr),
            final(handle).ccgr@ == old(handle).ccgr@,
            final(handle).cscdr1 == old(handle).cscdr1,
            final(handle).cscdr2 == old(handle).cscdr2,
            final(handle).cscmr1 == old(handle).cscmr1,
    {
        enable(handle);
        self.take()
    }
}

/// `post` is `pre` with exactly the two-bit field `fld` of CCGR register
/// `reg` rewritten to the selected setting.
pub open spec fn spec_gated(pre: &Handle, post: &Handle, reg: int, fld: u32, gate: ClockGate) -> bool {
    &&& forall|r: int| 0 <= r < CCGR_COUNT && r != reg ==> post.ccgr@[r] == pre.ccgr@[r]
    &&& forall|k: u32|
        k < 16 ==> #[trigger] gate_field(post.ccgr@[reg], k) == if k == fld {
            crate::ccm::gates::gate_value(gate.value_spec())
        } else {
            gate_field(pre.ccgr@[reg], k)
        }
    &&& post.cscdr1 == pre.cscdr1
    &&& post.cscdr2 == pre.cscdr2
    &&& post.cscmr1 == pre.cscmr1
    &&& post.cbcmr == pre.cbcmr
}

/// Set the clock gate for a SPI peripheral; the four instances gate in
/// fields 0 through 3 of CCGR register 1.
pub fn clock_gate(handle: &mut Handle, spi: &LpspiInstance, gate: ClockGate)
    requires
        old(handle).wf(),
        1 <= spi.index <= 4,
    ensures
        final(handle).wf(),
        spec_gated(old(handle), final(handle), 1, (spi.index - 1) as u32, gate),
{
    let fld: usize = (spi.index - 1) as usize;
    set_gate(handle, 1, fld, gate.value());
}

/// The bus clock multiplexer register after the SPI root is enabled: PLL
/// selected, divider committed.
pub open spec fn spec_enabled_cbcmr(pre: u32) -> u32 {
    (pre & !LPSPI_PODF_MASK | LPSPI_CLK_SEL | (((SPI_CLOCK_DIVIDER - 1) as u32)
        << LPSPI_PODF_SHIFT)) as u32
}

/// Enable the SPI clock root.
pub fn enable(handle: &mut Handle)
    ensures
        final(handle).cbcmr == spec_enabled_cbcmr(old(handle).cbcmr),
        final(handle).ccgr@ == old(handle).ccgr@,
        final(handle).cscdr1 == old(handle).cscdr1,
        final(handle).cscdr2 == old(handle).cscdr2,
        final(handle).cscmr1 == old(handle).cscmr1,
{
    handle.cbcmr = handle.cbcmr & !LPSPI_PODF_MASK | LPSPI_CLK_SEL | ((SPI_CLOCK_DIVIDER - 1)
        << LPSPI_PODF_SHIFT);
}

} // verus!
