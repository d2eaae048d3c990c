//! Strongly-typed peripheral instances.
//!
//! A register-block model such as [`LpuartInstance`] carries its instance
//! number only at run time. [`Instance`] pins that number at the type level:
//! [`instance`] checks the run-time number against the type-level constant
//! and wraps the block only when they agree, so an API that demands, say,
//! the second UART cannot be handed the third.

use vstd::prelude::*;

use crate::regs::Lpi2cInstance;
use crate::regs::LpspiInstance;
use crate::regs::LpuartInstance;

verus! {

/// Marks the register-block models this module may wrap; nothing outside
/// the crate implements it.
pub trait Sealed {

}

/// A register-block model with a run-time instance number.
pub trait Inst: Sealed {
    /// The instance number.
    spec fn inst_spec(&self) -> usize;

    /// Return the peripheral instance number as a run-time value.
    fn inst(&self) -> (n: usize)
        ensures
            n == self.inst_spec(),
    ;
}

/// A register-block model wrapped with a type-level instance number `M`,
/// guaranteed to equal the block's run-time number.
pub struct Instance<I, const M: u32> {
    inst: I,
}

impl<I, const M: u32> Instance<I, M> {
    /// The wrapped register block.
    pub closed spec fn inner(&self) -> &I {
        &self.inst
    }

    /// Returns the wrapped register block.
    pub fn release(self) -> (r: I)
        ensures
            r == *self.inner(),
    {
        self.inst
    }

    /// Borrow the wrapped register block.
    pub fn get(&self) -> (r: &I)
        ensures
            r == self.inner(),
    {
        &self.inst
    }

    /// Borrow the wrapped register block mutably.
    pub fn get_mut(&mut self) -> (r: &mut I)
        ensures
            *r == *old(self).inner(),
            *final(self).inner() == *final(r),
    {
        &mut self.inst
    }
}

/// Wrap `inst` as an `Instance<I, M>` when its run-time number is `M`;
/// `None` on a mismatch.
pub fn instance<I: Inst, const M: u32>(inst: I) -> (r: Option<Instance<I, M>>)
    ensures
        inst.inst_spec() == M as usize ==> (r matches Some(i) && *i.inner() == inst),
        inst.inst_spec() != M as usize ==> r is None,
{
    if M as usize == inst.inst() {
        Some(Instance { inst })
    } else {
        None
    }
}

impl Sealed for LpuartInstance {

}

impl Inst for LpuartInstance {
    open spec fn inst_spec(&self) -> usize {
        self.index as usize
    }

    fn inst(&self) -> (n: usize) {
        self.index as usize
    }
}

impl Sealed for LpspiInstance {

}

impl Inst for LpspiInstance {
    open spec fn inst_spec(&self) -> usize {
        self.index as usize
    }

    fn inst(&self) -> (n: usize) {
        self.index as usize
    }
}

impl Sealed for Lpi2cInstance {

}

impl Inst for Lpi2cInstance {
    open spec fn inst_spec(&self) -> usize {
        self.index as usize
    }

    fn inst(&self) -> (n: usize) {
        self.index as usize
    }
}

/// Specify a UART instance: `Some` exactly when `M` matches the block's
/// instance number.
pub fn uart<const M: u32>(block: LpuartInstance) -> (r: Option<Instance<LpuartInstance, M>>)
    ensures
        block.index == M ==> (r matches Some(i) && *i.inner() == block),
        block.index != M ==> r is None,
{
    instance(block)
}

/// Specify a SPI instance: `Some` exactly when `M` matches the block's
/// instance number.
pub fn spi<const M: u32>(block: LpspiInstance) -> (r: Option<Instance<LpspiInstance, M>>)
    ensures
        block.index == M ==> (r matches Some(i) && *i.inner() == block),
        block.index != M ==> r is None,
{
    instance(block)
}

/// Specify an I2C instance: `Some` exactly when `M` matches the block's
/// instance number.
pub fn i2c<const M: u32>(block: Lpi2cInstance) -> (r: Option<Instance<Lpi2cInstance, M>>)
    ensures
        block.index == M ==> (r matches Some(i) && *i.inner() == block),
        block.index != M ==> r is None,
{
    instance(block)
}

} // verus!
