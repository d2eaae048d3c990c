//! Async hardware abstraction layer for i.MX RT processors, built around an
//! explicit register-level model of the peripherals.
//!
//! The core of the crate is the DMA transfer engine and its interrupt-to-task
//! bridge: a [`dma::Channel`] owns the model of one hardware channel's
//! transfer-control descriptor, operations arm the channel and then suspend as
//! explicit poll-style state machines, and an interrupt handler marks shared
//! per-channel slots complete and hands back the parked resumption tokens.
//! On top of that sit one-shot peripheral transfers
//! (`dma::peripheral::receive` / `dma::peripheral::transfer`) and a
//! rendezvous pipe (`dma::pipe`).
//!
//! Every register block is held as plain data, so the whole engine — descriptor
//! arithmetic, the handshake protocols, and the byte movement itself — is
//! executable and carries verified contracts.

use vstd::prelude::*;

pub mod ccm;
pub mod dma;
pub mod gpio;
pub mod gpt;
pub mod i2c;
pub mod instance;
pub mod mem;
pub mod pit;
pub mod regs;
pub mod spi;
pub mod uart;

verus! {

/// Errors reported by DMA transfer operations.
#[derive(Debug, Clone, Copy, PartialEq, Eq, Structural)]
pub enum Error {
    /// The channel already has a scheduled transfer: a programmer error,
    /// reported instead of re-arming the hardware.
    ScheduledTransfer,
    /// The hardware rejected the transfer configuration; carries a snapshot
    /// of the channel's error-status register.
    Setup(u32),
    /// The peer half of a pipe was dropped; permanent for the remaining half.
    Cancelled,
}

/// The resolution state of a poll-style operation: either a final value, or
/// a request to be polled again once the recorded resumption token is woken.
#[derive(Debug, Clone, Copy, PartialEq, Eq)]
pub enum Poll<T> {
    Ready(T),
    Pending,
}

impl<T> Poll<T> {
    /// True exactly when the operation has resolved.
    pub fn is_ready(&self) -> (r: bool)
        ensures
            r == self is Ready,
    {
        match self {
            Poll::Ready(_) => true,
            Poll::Pending => false,
        }
    }
}

} // verus!
