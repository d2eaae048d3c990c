//! The I2C read transaction.

use vstd::prelude::*;

use crate::i2c::check_busy;
use crate::i2c::clear_fifo;
use crate::i2c::clear_status;
use crate::i2c::commands;
use crate::i2c::write::lemma_gain_one;
use crate::i2c::Error;
use crate::i2c::State;
use crate::regs::Lpi2cInstance;
use crate::Poll;

verus! {

/// An I2C read transaction: request `len` bytes from the device at
/// `address` and collect them as the receive FIFO produces them.
///
/// Poll it to completion against the instance's registers; once it
/// resolves `Ok`, [`Read::into_bytes`] hands out the collected bytes.
pub struct Read {
    address: u8,
    len: usize,
    collected: Vec<u8>,
    state: Option<State>,
}

/// Ordering of the read phases, for termination: every transition within
/// one poll moves strictly down, except receiving, which counts bytes.
pub open spec fn read_phase_rank(s: Option<State>) -> int {
    match s {
        None => 6,
        Some(State::StartRead) => 5,
        Some(State::ReceiveLength) => 4,
        Some(State::Receive(_)) => 3,
        Some(State::StopSetup) => 2,
        Some(State::Stop) => 1,
        Some(_) => 0,
    }
}

/// Bytes still to collect in the receiving phase.
pub open spec fn read_phase_rem(s: Option<State>, len: int) -> int {
    match s {
        Some(State::Receive(idx)) => len - idx,
        _ => 0,
    }
}

/// The full command sequence a read of `len` bytes from `address`
/// enqueues: a start with the address and the read bit, a receive command
/// for `len` bytes, then a stop.
pub open spec fn read_cmds(address: u8, len: int) -> Seq<u16> {
    seq![
        commands::mtdr_entry(commands::CMD_START, ((address << 1u8) | 1u8) as u8),
        commands::mtdr_entry(commands::CMD_RECEIVE, (len - 1) as u8),
        commands::mtdr_entry(commands::CMD_STOP, 0),
    ]
}

/// How many of those commands phase `s` has already enqueued.
pub open spec fn read_emitted(s: Option<State>) -> int {
    match s {
        None => 0,
        Some(State::StartRead) => 0,
        Some(State::ReceiveLength) => 1,
        Some(State::Receive(_)) => 2,
        Some(State::StopSetup) => 2,
        Some(State::Stop) => 3,
        Some(_) => 0,
    }
}

/// The enqueue count a poll's resolution implies: the whole sequence on
/// success, otherwise whatever the phase it stopped in has enqueued.
pub open spec fn read_goal(r: Poll<Result<(), Error>>, s: Option<State>) -> int {
    if r == Poll::Ready(Result::<(), Error>::Ok(())) {
        3
    } else {
        read_emitted(s)
    }
}

impl Read {
    /// The device address.
    pub closed spec fn address_spec(&self) -> u8 {
        self.address
    }

    /// The number of bytes requested.
    pub closed spec fn len_spec(&self) -> usize {
        self.len
    }

    /// The bytes collected so far.
    pub closed spec fn collected_spec(&self) -> Seq<u8> {
        self.collected@
    }

    /// The current phase.
    pub closed spec fn state_spec(&self) -> Option<State> {
        self.state
    }

    /// Not yet polled.
    pub open spec fn fresh(&self) -> bool {
        self.state_spec() is None && self.collected_spec().len() == 0
    }

    /// The phases the machine actually reaches, with the byte count in
    /// step with the receive index.
    pub open spec fn wf(&self) -> bool {
        match self.state_spec() {
            None => true,
            Some(State::StartRead) => 1 <= self.len_spec() <= 256 && self.collected_spec().len()
                == 0,
            Some(State::ReceiveLength) => 1 <= self.len_spec() <= 256 && self.collected_spec().len()
                == 0,
            Some(State::Receive(idx)) => 1 <= self.len_spec() <= 256 && idx < self.len_spec()
                && self.collected_spec().len() == idx,
            Some(State::StopSetup) => self.collected_spec().len() == self.len_spec(),
            Some(State::Stop) => self.collected_spec().len() == self.len_spec(),
            Some(_) => false,
        }
    }

    /// A fresh read of `len` bytes from `address`.
    pub fn new(address: u8, len: usize) -> (r: Read)
        ensures
            r.address_spec() == address,
            r.len_spec() == len,
            r.fresh(),
            r.wf(),
    {
        Read { address, len, collected: Vec::new(), state: None }
    }

    /// The collected bytes, once the transaction has resolved.
    pub fn into_bytes(self) -> (r: Vec<u8>)
        ensures
            r@ == self.collected_spec(),
    {
        self.collected
    }

    /// One resumption-poll of the read.
    ///
    /// The first poll rejects a request of more than 256 bytes with
    /// `RequestTooMuchData`, resolves an empty request at once, fails with
    /// `BusyIsBusy` while the master or bus is busy, and otherwise clears
    /// the FIFOs and status and starts the transaction. Collected bytes
    /// only ever move from the receive FIFO, in order; when the machine
    /// resolves `Ok`, exactly `len` bytes have been collected.
    #[verifier::loop_isolation(false)]
    pub fn poll(&mut self, i2c: &mut Lpi2cInstance, waker: u32) -> (r: Poll<Result<(), Error>>)
        requires
            old(self).wf(),
        ensures
            final(self).wf(),
            final(self).address_spec() == old(self).address_spec(),
            final(self).len_spec() == old(self).len_spec(),
            old(self).state_spec() is None ==> ((r == Poll::Ready(
                Result::<(), Error>::Err(Error::RequestTooMuchData),
            )) <==> old(self).len_spec() > 256),
            old(self).state_spec() is None && old(self).len_spec() > 256 ==> *final(i2c) == *old(
                i2c,
            ),
            old(self).state_spec() is None && old(self).len_spec() == 0 ==> r == Poll::Ready(
                Result::<(), Error>::Ok(()),
            ) && *final(i2c) == *old(i2c),
            old(self).state_spec() is None && 1 <= old(self).len_spec() <= 256 ==> ((r
                == Poll::Ready(Result::<(), Error>::Err(Error::BusyIsBusy))) <==> crate::i2c::spec_busy(
                old(i2c).msr,
            )),
            old(self).state_spec() is None && 1 <= old(self).len_spec() <= 256
                && crate::i2c::spec_busy(old(i2c).msr) ==> *final(i2c) == *old(i2c),
            old(self).state_spec() is None && 1 <= old(self).len_spec() <= 256
                && !crate::i2c::spec_busy(old(i2c).msr) ==> final(i2c).tx_log@ == read_cmds(
                old(self).address_spec(),
                old(self).len_spec() as int,
            ).subrange(0, read_goal(r, final(self).state_spec())),
            old(self).state_spec() is Some ==> final(i2c).tx_log@ == old(i2c).tx_log@ + read_cmds(
                old(self).address_spec(),
                old(self).len_spec() as int,
            ).subrange(read_emitted(old(self).state_spec()), read_goal(r, final(self).state_spec())),
            old(self).state_spec() is Some ==> final(self).collected_spec() + final(i2c).rx_fifo@ == old(self).collected_spec() + old(i2c).rx_fifo@,
            r == Poll::Ready(Result::<(), Error>::Ok(())) ==> final(self).collected_spec().len()
                == final(self).len_spec() && final(self).state_spec() is None,
    {
        if self.state.is_none() {
            if self.len > 256 {
                return Poll::Ready(Err(Error::RequestTooMuchData));
            }
            if self.len == 0 {
                self.collected = Vec::new();
                return Poll::Ready(Ok(()));
            }
            match check_busy(i2c) {
                Err(e) => {
                    return Poll::Ready(Err(e));
                },
                Ok(()) => {},
            }
            clear_fifo(i2c);
            clear_status(i2c);
            self.collected = Vec::new();
            self.state = Some(State::StartRead);
        }
        let ghost c0 = self.collected@;
        let ghost f0 = i2c.rx_fifo@;
        let ghost cmds = read_cmds(self.address, self.len as int);
        proof {
            if old(self).state_spec() is None {
                assert(i2c.tx_log@ =~= cmds.subrange(0, 0));
            } else {
                assert(i2c.tx_log@ =~= old(i2c).tx_log@ + cmds.subrange(
                    read_emitted(old(self).state_spec()),
                    read_emitted(self.state_spec()),
                ));
            }
        }
        loop
            invariant
                self.wf(),
                self.state_spec() is Some,
                self.address == old(self).address_spec(),
                self.len == old(self).len_spec(),
                self.collected@ + i2c.rx_fifo@ == c0 + f0,
                old(self).state_spec() is Some ==> c0 + f0 == old(self).collected_spec() + old(i2c).rx_fifo@,
                0 <= read_emitted(self.state_spec()) <= 3,
                old(self).state_spec() is None ==> i2c.tx_log@ == cmds.subrange(
                    0,
                    read_emitted(self.state_spec()),
                ),
                old(self).state_spec() is Some ==> read_emitted(old(self).state_spec())
                    <= read_emitted(self.state_spec()) && i2c.tx_log@ == old(i2c).tx_log@
                    + cmds.subrange(
                    read_emitted(old(self).state_spec()),
                    read_emitted(self.state_spec()),
                ),
            decreases read_phase_rank(self.state_spec()), read_phase_rem(
                self.state_spec(),
                self.len as int,
            ),
        {
            match self.state {
                Some(State::StartRead) => {
                    match commands::poll_start_read(i2c, waker, self.address) {
                        Poll::Pending => {
                            return Poll::Pending;
                        },
                        Poll::Ready(Err(e)) => {
                            return Poll::Ready(Err(e));
                        },
                        Poll::Ready(Ok(())) => {
                            proof {
                                lemma_gain_one(cmds, read_emitted(old(self).state_spec()), 0);
                            }
                            self.state = Some(State::ReceiveLength);
                        },
                    }
                },
                Some(State::ReceiveLength) => {
                    match commands::poll_receive_length(i2c, waker, self.len) {
                        Poll::Pending => {
                            return Poll::Pending;
                        },
                        Poll::Ready(Err(e)) => {
                            return Poll::Ready(Err(e));
                        },
                        Poll::Ready(Ok(())) => {
                            proof {
                                lemma_gain_one(cmds, read_emitted(old(self).state_spec()), 1);
                            }
                            self.state = Some(State::Receive(0));
                        },
                    }
                },
                Some(State::Receive(idx)) => {
                    match commands::poll_receive(i2c, waker) {
                        Poll::Pending => {
                            return Poll::Pending;
                        },
                        Poll::Ready(Err(e)) => {
                            return Poll::Ready(Err(e));
                        },
                        Poll::Ready(Ok(byte)) => {
                            self.collected.push(byte);
                            proof {
                                assert(self.collected@ + i2c.rx_fifo@ =~= c0 + f0);
                            }
                            let next_idx = idx + 1;
                            self.state = if next_idx < self.len {
                                Some(State::Receive(next_idx))
                            } else {
                                Some(State::StopSetup)
                            };
                        },
                    }
                },
                Some(State::StopSetup) => {
                    match commands::poll_stop_setup(i2c, waker) {
                        Poll::Pending => {
                            return Poll::Pending;
                        },
                        Poll::Ready(Err(e)) => {
                            return Poll::Ready(Err(e));
                        },
                        Poll::Ready(Ok(())) => {
                            proof {
                                lemma_gain_one(cmds, read_emitted(old(self).state_spec()), 2);
                            }
                            self.state = Some(State::Stop);
                        },
                    }
                },
                Some(State::Stop) => {
                    match commands::poll_stop(i2c, waker) {
                        Poll::Pending => {
                            return Poll::Pending;
                        },
                        Poll::Ready(Err(e)) => {
                            return Poll::Ready(Err(e));
                        },
                        Poll::Ready(Ok(())) => {
                            self.state = None;
                            return Poll::Ready(Ok(()));
                        },
                    }
                },
                _ => {
                    return Poll::Pending;
                },
            }
        }
    }

    /// Abandon the transaction: the command interrupts are disabled so no
    /// stale resumption fires.
    pub fn cancel(&mut self, i2c: &mut Lpi2cInstance)
        ensures
            *final(i2c) == (Lpi2cInstance {
                mier: commands::mier_disabled(),
                ..*old(i2c)
            }),
            *final(self) == *old(self),
    {
        commands::disable_interrupts(i2c);
    }
}

} // verus!
