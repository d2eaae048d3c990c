//! The I2C write transaction.

use vstd::prelude::*;

use crate::i2c::check_busy;
use crate::i2c::clear_fifo;
use crate::i2c::clear_status;
use crate::i2c::commands;
use crate::i2c::Error;
use crate::i2c::State;
use crate::regs::Lpi2cInstance;
use crate::Poll;

verus! {

/// An I2C write transaction: send `buffer` to the device at `address`,
/// one command per byte, then a stop condition.
pub struct Write {
    address: u8,
    buffer: Vec<u8>,
    state: Option<State>,
}

/// Ordering of the write phases, for termination.
pub open spec fn write_phase_rank(s: Option<State>) -> int {
    match s {
        None => 6,
        Some(State::StartWrite) => 5,
        Some(State::Send(_)) => 4,
        Some(State::StopSetup) => 2,
        Some(State::Stop) => 1,
        Some(_) => 0,
    }
}

/// Bytes still to send in the sending phase.
pub open spec fn write_phase_rem(s: Option<State>, len: int) -> int {
    match s {
        Some(State::Send(idx)) => len - idx,
        _ => 0,
    }
}

/// The full command sequence a write of `buffer` to `address` enqueues:
/// a start with the address and the write bit, each byte in order, then
/// a stop.
pub open spec fn write_cmds(address: u8, buffer: Seq<u8>) -> Seq<u16> {
    seq![commands::mtdr_entry(commands::CMD_START, (address << 1u8) as u8)] + buffer.map(
        |i: int, b: u8| commands::mtdr_entry(commands::CMD_TRANSMIT, b),
    ) + seq![commands::mtdr_entry(commands::CMD_STOP, 0)]
}

/// The enqueue count a poll's resolution implies: the whole sequence on
/// success, otherwise whatever the phase it stopped in has enqueued.
pub open spec fn write_goal(r: Poll<Result<(), Error>>, s: Option<State>, len: int) -> int {
    if r == Poll::Ready(Result::<(), Error>::Ok(())) {
        len + 2
    } else {
        write_emitted(s, len)
    }
}

/// Extending an enqueued prefix `cmds[lo..k]` by `cmds[k]` gives
/// `cmds[lo..k + 1]`.
pub proof fn lemma_gain_one(cmds: Seq<u16>, lo: int, k: int)
    requires
        0 <= lo <= k < cmds.len(),
    ensures
        cmds.subrange(lo, k + 1) == cmds.subrange(lo, k).push(cmds[k]),
        cmds.subrange(0, k + 1) == cmds.subrange(0, k).push(cmds[k]),
{
    assert(cmds.subrange(lo, k + 1) =~= cmds.subrange(lo, k).push(cmds[k]));
    assert(cmds.subrange(0, k + 1) =~= cmds.subrange(0, k).push(cmds[k]));
}

/// How many of those commands phase `s` has already enqueued.
pub open spec fn write_emitted(s: Option<State>, len: int) -> int {
    match s {
        None => 0,
        Some(State::StartWrite) => 0,
        Some(State::Send(idx)) => 1 + idx,
        Some(State::StopSetup) => 1 + len,
        Some(State::Stop) => 2 + len,
        Some(_) => 0,
    }
}

impl Write {
    /// The device address.
    pub closed spec fn address_spec(&self) -> u8 {
        self.address
    }

    /// The bytes to send.
    pub closed spec fn buffer_spec(&self) -> Seq<u8> {
        self.buffer@
    }

    /// The current phase.
    pub closed spec fn state_spec(&self) -> Option<State> {
        self.state
    }

    /// Not yet polled.
    pub open spec fn fresh(&self) -> bool {
        self.state_spec() is None
    }

    /// The phases the machine actually reaches.
    pub open spec fn wf(&self) -> bool {
        match self.state_spec() {
            None => true,
            Some(State::StartWrite) => self.buffer_spec().len() >= 1,
            Some(State::Send(idx)) => idx < self.buffer_spec().len(),
            Some(State::StopSetup) => true,
            Some(State::Stop) => true,
            Some(_) => false,
        }
    }

    /// A fresh write of `buffer` to `address`.
    pub fn new(address: u8, buffer: Vec<u8>) -> (r: Write)
        ensures
            r.address_spec() == address,
            r.buffer_spec() == buffer@,
            r.fresh(),
            r.wf(),
    {
        Write { address, buffer, state: None }
    }

    /// One resumption-poll of the write.
    ///
    /// The first poll resolves an empty buffer at once, fails with
    /// `BusyIsBusy` while the master or bus is busy, and otherwise clears
    /// the FIFOs and status and starts the transaction. Every command the
    /// machine enqueues appends to the instance's transmit log; when the
    /// machine resolves `Ok` the whole buffer has been commanded out,
    /// byte for byte, followed by a stop.
    #[verifier::loop_isolation(false)]
    pub fn poll(&mut self, i2c: &mut Lpi2cInstance, waker: u32) -> (r: Poll<Result<(), Error>>)
        requires
            old(self).wf(),
        ensures
            final(self).wf(),
            final(self).address_spec() == old(self).address_spec(),
            final(self).buffer_spec() == old(self).buffer_spec(),
            old(self).state_spec() is None && old(self).buffer_spec().len() == 0 ==> r
                == Poll::Ready(Result::<(), Error>::Ok(())) && *final(i2c) == *old(i2c),
            old(self).state_spec() is None && old(self).buffer_spec().len() > 0 ==> ((r
                == Poll::Ready(Result::<(), Error>::Err(Error::BusyIsBusy))) <==> crate::i2c::spec_busy(
                old(i2c).msr,
            )),
            old(self).state_spec() is None && old(self).buffer_spec().len() > 0
                && crate::i2c::spec_busy(old(i2c).msr) ==> *final(i2c) == *old(i2c),
            old(self).state_spec() is None && old(self).buffer_spec().len() > 0
                && !crate::i2c::spec_busy(old(i2c).msr) ==> final(i2c).tx_log@ == write_cmds(
                old(self).address_spec(),
                old(self).buffer_spec(),
            ).subrange(0, write_goal(r, final(self).state_spec(), old(self).buffer_spec().len() as int)),
            old(self).state_spec() is Some ==> final(i2c).tx_log@ == old(i2c).tx_log@ + write_cmds(
                old(self).address_spec(),
                old(self).buffer_spec(),
            ).subrange(
                write_emitted(old(self).state_spec(), old(self).buffer_spec().len() as int),
                write_goal(r, final(self).state_spec(), old(self).buffer_spec().len() as int),
            ),
            r == Poll::Ready(Result::<(), Error>::Ok(())) ==> final(self).state_spec() is None,
    {
        if self.state.is_none() {
            if self.buffer.len() == 0 {
                return Poll::Ready(Ok(()));
            }
            match check_busy(i2c) {
                Err(e) => {
                    return Poll::Ready(Err(e));
                },
                Ok(()) => {},
            }
            clear_fifo(i2c);
            clear_status(i2c);
            self.state = Some(State::StartWrite);
        }
        let ghost cmds = write_cmds(self.address, self.buffer@);
        let ghost blen = self.buffer@.len() as int;
        proof {
            assert(cmds.len() == blen + 2);
            if old(self).state_spec() is None {
                assert(i2c.tx_log@ =~= cmds.subrange(0, 0));
            } else {
                assert(i2c.tx_log@ =~= old(i2c).tx_log@ + cmds.subrange(
                    write_emitted(old(self).state_spec(), blen),
                    write_emitted(self.state_spec(), blen),
                ));
            }
        }
        loop
            invariant
                self.wf(),
                self.state_spec() is Some,
                self.address == old(self).address_spec(),
                self.buffer@ == old(self).buffer_spec(),
                old(self).state_spec() is None ==> old(self).buffer_spec().len() > 0,
                cmds == write_cmds(self.address, self.buffer@),
                blen == self.buffer@.len() as int,
                cmds.len() == blen + 2,
                0 <= write_emitted(self.state_spec(), blen) <= cmds.len(),
                old(self).state_spec() is None ==> i2c.tx_log@ == cmds.subrange(
                    0,
                    write_emitted(self.state_spec(), blen),
                ),
                old(self).state_spec() is Some ==> write_emitted(old(self).state_spec(), blen)
                    <= write_emitted(self.state_spec(), blen) && i2c.tx_log@ == old(
                    i2c,
                ).tx_log@ + cmds.subrange(
                    write_emitted(old(self).state_spec(), blen),
                    write_emitted(self.state_spec(), blen),
                ),
            decreases write_phase_rank(self.state_spec()), write_phase_rem(
                self.state_spec(),
                self.buffer@.len() as int,
            ),
        {
            match self.state {
                Some(State::StartWrite) => {
                    match commands::poll_start_write(i2c, waker, self.address) {
                        Poll::Pending => {
                            return Poll::Pending;
                        },
                        Poll::Ready(Err(e)) => {
                            return Poll::Ready(Err(e));
                        },
                        Poll::Ready(Ok(())) => {
                            proof {
                                lemma_gain_one(cmds, write_emitted(old(self).state_spec(), blen), 0);
                                assert(cmds[0] == commands::mtdr_entry(
                                    commands::CMD_START,
                                    (self.address << 1u8) as u8,
                                ));
                            }
                            self.state = Some(State::Send(0));
                        },
                    }
                },
                Some(State::Send(idx)) => {
                    match commands::poll_send(i2c, waker, self.buffer[idx]) {
                        Poll::Pending => {
                            return Poll::Pending;
                        },
                        Poll::Ready(Err(e)) => {
                            return Poll::Ready(Err(e));
                        },
                        Poll::Ready(Ok(())) => {
                            proof {
                                lemma_gain_one(
                                    cmds,
                                    write_emitted(old(self).state_spec(), blen),
                                    1 + idx,
                                );
                                assert(cmds[1 + idx] == commands::mtdr_entry(
                                    commands::CMD_TRANSMIT,
                                    self.buffer@[idx as int],
                                ));
                            }
                            let blen_exec = self.buffer.len();
                            let next_idx = idx + 1;
                            self.state = if next_idx < blen_exec {
                                Some(State::Send(next_idx))
                            } else {
                                Some(State::StopSetup)
                            };
                        },
                    }
                },
                Some(State::StopSetup) => {
                    match commands::poll_stop_setup(i2c, waker) {
                        Poll::Pending => {
                            return Poll::Pending;
                        },
                        Poll::Ready(Err(e)) => {
                            return Poll::Ready(Err(e));
                        },
                        Poll::Ready(Ok(())) => {
                            proof {
                                lemma_gain_one(
                                    cmds,
                                    write_emitted(old(self).state_spec(), blen),
                                    1 + blen,
                                );
                                assert(cmds[1 + blen] == commands::mtdr_entry(
                                    commands::CMD_STOP,
                                    0,
                                ));
                            }
                            self.state = Some(State::Stop);
                        },
                    }
                },
                Some(State::Stop) => {
                    match commands::poll_stop(i2c, waker) {
                        Poll::Pending => {
                            return Poll::Pending;
                        },
                        Poll::Ready(Err(e)) => {
                            return Poll::Ready(Err(e));
                        },
                        Poll::Ready(Ok(())) => {
                            self.state = None;
                            return Poll::Ready(Ok(()));
                        },
                    }
                },
                _ => {
                    return Poll::Pending;
                },
            }
        }
    }

    /// Abandon the transaction: the command interrupts are disabled so no
    /// stale resumption fires.
    pub fn cancel(&mut self, i2c: &mut Lpi2cInstance)
        ensures
            *final(i2c) == (Lpi2cInstance {
                mier: commands::mier_disabled(),
                ..*old(i2c)
            }),
            *final(self) == *old(self),
    {
        commands::disable_interrupts(i2c);
    }
}

} // verus!
