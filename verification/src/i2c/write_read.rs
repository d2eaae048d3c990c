//! The I2C write-read transaction.

use vstd::prelude::*;

use crate::i2c::check_busy;
use crate::i2c::clear_fifo;
use crate::i2c::clear_status;
use crate::i2c::commands;
use crate::i2c::write::lemma_gain_one;
use crate::i2c::Error;
use crate::i2c::State;
use crate::regs::Lpi2cInstance;
use crate::Poll;

verus! {

/// An I2C write-read transaction: send `output` to the device at
/// `address`, generate a repeated start, then collect `input_len` bytes.
pub struct WriteRead {
    address: u8,
    output: Vec<u8>,
    input_len: usize,
    collected: Vec<u8>,
    state: Option<State>,
}

/// Ordering of the write-read phases, for termination.
pub open spec fn write_read_phase_rank(s: Option<State>) -> int {
    match s {
        None => 9,
        Some(State::StartWrite) => 8,
        Some(State::Send(_)) => 7,
        Some(State::StartRead) => 6,
        Some(State::EndOfPacket) => 5,
        Some(State::ReceiveLength) => 4,
        Some(State::Receive(_)) => 3,
        Some(State::StopSetup) => 2,
        Some(State::Stop) => 1,
    }
}

/// Items still to move in the counting phases.
pub open spec fn write_read_phase_rem(s: Option<State>, out_len: int, in_len: int) -> int {
    match s {
        Some(State::Send(idx)) => out_len - idx,
        Some(State::Receive(idx)) => in_len - idx,
        _ => 0,
    }
}

/// The full command sequence a write-read of `output` and `input_len`
/// bytes back enqueues: a start with the address and the write bit, each
/// output byte in order, a repeated start with the read bit, a receive
/// command when bytes are requested back, then a stop.
pub open spec fn write_read_cmds(address: u8, output: Seq<u8>, input_len: int) -> Seq<u16> {
    seq![commands::mtdr_entry(commands::CMD_START, (address << 1u8) as u8)] + output.map(
        |i: int, b: u8| commands::mtdr_entry(commands::CMD_TRANSMIT, b),
    ) + seq![commands::mtdr_entry(commands::CMD_START, ((address << 1u8) | 1u8) as u8)] + (
    if input_len > 0 {
        seq![commands::mtdr_entry(commands::CMD_RECEIVE, (input_len - 1) as u8)]
    } else {
        Seq::<u16>::empty()
    }) + seq![commands::mtdr_entry(commands::CMD_STOP, 0)]
}

/// How many of those commands phase `s` has already enqueued.
pub open spec fn write_read_emitted(s: Option<State>, out_len: int, in_len: int) -> int {
    match s {
        None => 0,
        Some(State::StartWrite) => 0,
        Some(State::Send(idx)) => 1 + idx,
        Some(State::StartRead) => 1 + out_len,
        Some(State::EndOfPacket) => 2 + out_len,
        Some(State::ReceiveLength) => 2 + out_len,
        Some(State::Receive(_)) => 3 + out_len,
        Some(State::StopSetup) => 2 + out_len + if in_len > 0 {
            1int
        } else {
            0int
        },
        Some(State::Stop) => 3 + out_len + if in_len > 0 {
            1int
        } else {
            0int
        },
    }
}

/// The phases before any byte comes back: the write half of the
/// transaction, through the repeated start and its end of packet.
pub open spec fn spec_write_phase(s: Option<State>) -> bool {
    ||| s == Some(State::StartWrite)
    ||| s matches Some(State::Send(_))
    ||| s == Some(State::StartRead)
    ||| s == Some(State::EndOfPacket)
}

/// Exec mirror of [`spec_write_phase`].
fn in_write_phase(s: &Option<State>) -> (b: bool)
    ensures
        b == spec_write_phase(*s),
{
    match s {
        Some(State::StartWrite) => true,
        Some(State::Send(_)) => true,
        Some(State::StartRead) => true,
        Some(State::EndOfPacket) => true,
        _ => false,
    }
}

/// The enqueue count a poll's resolution implies: the whole sequence on
/// success, otherwise whatever the phase it stopped in has enqueued.
pub open spec fn write_read_goal(
    r: Poll<Result<(), Error>>,
    s: Option<State>,
    out_len: int,
    in_len: int,
) -> int {
    if r == Poll::Ready(Result::<(), Error>::Ok(())) {
        3 + out_len + if in_len > 0 {
            1int
        } else {
            0int
        }
    } else {
        write_read_emitted(s, out_len, in_len)
    }
}

impl WriteRead {
    /// The device address.
    pub closed spec fn address_spec(&self) -> u8 {
        self.address
    }

    /// The bytes to send.
    pub closed spec fn output_spec(&self) -> Seq<u8> {
        self.output@
    }

    /// The number of bytes requested back.
    pub closed spec fn input_len_spec(&self) -> usize {
        self.input_len
    }

    /// The bytes collected so far.
    pub closed spec fn collected_spec(&self) -> Seq<u8> {
        self.collected@
    }

    /// The current phase.
    pub closed spec fn state_spec(&self) -> Option<State> {
        self.state
    }

    /// Not yet polled.
    pub open spec fn fresh(&self) -> bool {
        self.state_spec() is None && self.collected_spec().len() == 0
    }

    /// The phases the machine actually reaches.
    pub open spec fn wf(&self) -> bool {
        match self.state_spec() {
            None => true,
            Some(State::StartWrite) => self.output_spec().len() >= 1 && self.input_len_spec()
                <= 256 && self.collected_spec().len() == 0,
            Some(State::Send(idx)) => idx < self.output_spec().len() && self.input_len_spec()
                <= 256 && self.collected_spec().len() == 0,
            Some(State::StartRead) => self.input_len_spec() <= 256 && self.collected_spec().len()
                == 0,
            Some(State::EndOfPacket) => self.input_len_spec() <= 256 && self.collected_spec().len()
                == 0,
            Some(State::ReceiveLength) => 1 <= self.input_len_spec() <= 256
                && self.collected_spec().len() == 0,
            Some(State::Receive(idx)) => 1 <= self.input_len_spec() <= 256 && idx
                < self.input_len_spec() && self.collected_spec().len() == idx,
            Some(State::StopSetup) => self.collected_spec().len() == self.input_len_spec(),
            Some(State::Stop) => self.collected_spec().len() == self.input_len_spec(),
        }
    }

    /// A fresh write-read of `output` and `input_len` bytes back.
    pub fn new(address: u8, output: Vec<u8>, input_len: usize) -> (r: WriteRead)
        ensures
            r.address_spec() == address,
            r.output_spec() == output@,
            r.input_len_spec() == input_len,
            r.fresh(),
            r.wf(),
    {
        WriteRead { address, output, input_len, collected: Vec::new(), state: None }
    }

    /// The collected bytes, once the transaction has resolved.
    pub fn into_bytes(self) -> (r: Vec<u8>)
        ensures
            r@ == self.collected_spec(),
    {
        self.collected
    }

    /// One resumption-poll of the write-read.
    ///
    /// The first poll resolves an empty output at once, rejects a request
    /// of more than 256 bytes back with `RequestTooMuchData`, fails with
    /// `BusyIsBusy` while the master or bus is busy, and otherwise clears
    /// the FIFOs and status and starts the transaction. Collected bytes
    /// only ever move from the receive FIFO, in order; every command the
    /// machine enqueues extends the transmit log along the transaction's
    /// command sequence, and resolving `Ok` means the whole sequence went
    /// out and all requested bytes came back.
    pub fn poll(&mut self, i2c: &mut Lpi2cInstance, waker: u32) -> (r: Poll<Result<(), Error>>)
        requires
            old(self).wf(),
        ensures
            final(self).wf(),
            final(self).address_spec() == old(self).address_spec(),
            final(self).output_spec() == old(self).output_spec(),
            final(self).input_len_spec() == old(self).input_len_spec(),
            old(self).state_spec() is None && old(self).output_spec().len() == 0 ==> r
                == Poll::Ready(Result::<(), Error>::Ok(())) && *final(i2c) == *old(i2c),
            old(self).state_spec() is None && old(self).output_spec().len() > 0 ==> ((r
                == Poll::Ready(Result::<(), Error>::Err(Error::RequestTooMuchData))) <==> old(
                self,
            ).input_len_spec() > 256),
            old(self).state_spec() is None && old(self).output_spec().len() > 0 && old(
                self,
            ).input_len_spec() > 256 ==> *final(i2c) == *old(i2c),
            old(self).state_spec() is None && old(self).output_spec().len() > 0 && old(
                self,
            ).input_len_spec() <= 256 ==> ((r == Poll::Ready(
                Result::<(), Error>::Err(Error::BusyIsBusy),
            )) <==> crate::i2c::spec_busy(old(i2c).msr)),
            old(self).state_spec() is None && old(self).output_spec().len() > 0 && old(
                self,
            ).input_len_spec() <= 256 && crate::i2c::spec_busy(old(i2c).msr) ==> *final(i2c)
                == *old(i2c),
            old(self).state_spec() is None && old(self).output_spec().len() > 0 && old(
                self,
            ).input_len_spec() <= 256 && !crate::i2c::spec_busy(old(i2c).msr) ==> final(i2c).tx_log@ == write_read_cmds(
                old(self).address_spec(),
                old(self).output_spec(),
                old(self).input_len_spec() as int,
            ).subrange(
                0,
                write_read_goal(
                    r,
                    final(self).state_spec(),
                    old(self).output_spec().len() as int,
                    old(self).input_len_spec() as int,
                ),
            ),
            old(self).state_spec() is Some ==> final(i2c).tx_log@ == old(i2c).tx_log@
                + write_read_cmds(
                old(self).address_spec(),
                old(self).output_spec(),
                old(self).input_len_spec() as int,
            ).subrange(
                write_read_emitted(
                    old(self).state_spec(),
                    old(self).output_spec().len() as int,
                    old(self).input_len_spec() as int,
                ),
                write_read_goal(
                    r,
                    final(self).state_spec(),
                    old(self).output_spec().len() as int,
                    old(self).input_len_spec() as int,
                ),
            ),
            old(self).state_spec() is Some ==> final(self).collected_spec() + final(i2c).rx_fifo@ == old(self).collected_spec() + old(i2c).rx_fifo@,
            r == Poll::Ready(Result::<(), Error>::Ok(())) && old(self).state_spec() is Some
                ==> final(self).collected_spec().len() == final(self).input_len_spec() && final(self).state_spec() is None,
    {
        if self.state.is_none() {
            if self.output.len() == 0 {
                return Poll::Ready(Ok(()));
            }
            if self.input_len > 256 {
                return Poll::Ready(Err(Error::RequestTooMuchData));
            }
            match check_busy(i2c) {
                Err(e) => {
                    return Poll::Ready(Err(e));
                },
                Ok(()) => {},
            }
            clear_fifo(i2c);
            clear_status(i2c);
            self.collected = Vec::new();
            self.state = Some(State::StartWrite);
            let ghost started = *self;
            let r = self.poll_running(i2c, waker);
            proof {
                let cmds = write_read_cmds(
                    started.address_spec(),
                    started.output_spec(),
                    started.input_len_spec() as int,
                );
                assert(i2c.tx_log@ =~= cmds.subrange(
                    0,
                    write_read_goal(
                        r,
                        self.state_spec(),
                        started.output_spec().len() as int,
                        started.input_len_spec() as int,
                    ),
                ));
            }
            r
        } else {
            self.poll_running(i2c, waker)
        }
    }

    /// Advance a transaction that has passed the first-poll admission
    /// checks; the machine's phase decides everything from here.
    #[verifier::rlimit(100)]
    fn poll_running(&mut self, i2c: &mut Lpi2cInstance, waker: u32) -> (r: Poll<Result<(), Error>>)
        requires
            old(self).wf(),
            old(self).state_spec() is Some,
        ensures
            final(self).wf(),
            final(self).address_spec() == old(self).address_spec(),
            final(self).output_spec() == old(self).output_spec(),
            final(self).input_len_spec() == old(self).input_len_spec(),
            final(i2c).tx_log@ == old(i2c).tx_log@ + write_read_cmds(
                old(self).address_spec(),
                old(self).output_spec(),
                old(self).input_len_spec() as int,
            ).subrange(
                write_read_emitted(
                    old(self).state_spec(),
                    old(self).output_spec().len() as int,
                    old(self).input_len_spec() as int,
                ),
                write_read_goal(
                    r,
                    final(self).state_spec(),
                    old(self).output_spec().len() as int,
                    old(self).input_len_spec() as int,
                ),
            ),
            final(self).collected_spec() + final(i2c).rx_fifo@ == old(self).collected_spec()
                + old(i2c).rx_fifo@,
            r != Poll::Ready(Result::<(), Error>::Err(Error::RequestTooMuchData)),
            r != Poll::Ready(Result::<(), Error>::Err(Error::BusyIsBusy)),
            r == Poll::Ready(Result::<(), Error>::Ok(())) ==> final(self).collected_spec().len() == final(self).input_len_spec() && final(self).state_spec() is None,
    {
        let ghost c0 = self.collected@;
        let ghost f0 = i2c.rx_fifo@;
        let ghost olen = self.output@.len() as int;
        let ghost ilen = self.input_len as int;
        let ghost cmds = write_read_cmds(self.address, self.output@, ilen);
        proof {
            assert(cmds.len() == olen + 3 + if ilen > 0 {
                1int
            } else {
                0int
            });
            assert(i2c.tx_log@ =~= old(i2c).tx_log@ + cmds.subrange(
                write_read_emitted(old(self).state_spec(), olen, ilen),
                write_read_emitted(self.state_spec(), olen, ilen),
            ));
        }
        while in_write_phase(&self.state)
            invariant
                self.wf(),
                self.state_spec() is Some,
                self.address == old(self).address_spec(),
                self.output@ == old(self).output_spec(),
                self.input_len == old(self).input_len_spec(),
                self.collected@ + i2c.rx_fifo@ == c0 + f0,
                c0 + f0 == old(self).collected_spec() + old(i2c).rx_fifo@,
                olen == self.output@.len() as int,
                ilen == self.input_len as int,
                cmds == write_read_cmds(self.address, self.output@, ilen),
                cmds.len() == olen + 3 + if ilen > 0 {
                    1int
                } else {
                    0int
                },
                0 <= write_read_emitted(self.state_spec(), olen, ilen) <= cmds.len(),
                write_read_emitted(old(self).state_spec(), olen, ilen) <= write_read_emitted(
                    self.state_spec(),
                    olen,
                    ilen,
                ),
                i2c.tx_log@ == old(i2c).tx_log@ + cmds.subrange(
                    write_read_emitted(old(self).state_spec(), olen, ilen),
                    write_read_emitted(self.state_spec(), olen, ilen),
                ),
            decreases write_read_phase_rank(self.state_spec()), write_read_phase_rem(
                self.state_spec(),
                self.output@.len() as int,
                self.input_len as int,
            ),
        {
            match self.state {
                Some(State::StartWrite) => {
                    match commands::poll_start_write(i2c, waker, self.address) {
                        Poll::Pending => {
                            return Poll::Pending;
                        },
                        Poll::Ready(Err(e)) => {
                            return Poll::Ready(Err(e));
                        },
                        Poll::Ready(Ok(())) => {
                            proof {
                                lemma_gain_one(
                                    cmds,
                                    write_read_emitted(old(self).state_spec(), olen, ilen),
                                    0,
                                );
                                assert(cmds[0] == commands::mtdr_entry(
                                    commands::CMD_START,
                                    (self.address << 1u8) as u8,
                                ));
                            }
                            self.state = Some(State::Send(0));
                        },
                    }
                },
                Some(State::Send(idx)) => {
                    match commands::poll_send(i2c, waker, self.output[idx]) {
                        Poll::Pending => {
                            return Poll::Pending;
                        },
                        Poll::Ready(Err(e)) => {
                            return Poll::Ready(Err(e));
                        },
                        Poll::Ready(Ok(())) => {
                            proof {
                                lemma_gain_one(
                                    cmds,
                                    write_read_emitted(old(self).state_spec(), olen, ilen),
                                    1 + idx,
                                );
                                assert(cmds[1 + idx] == commands::mtdr_entry(
                                    commands::CMD_TRANSMIT,
                                    self.output@[idx as int],
                                ));
                            }
                            let blen = self.output.len();
                            let next_idx = idx + 1;
                            self.state = if next_idx < blen {
                                Some(State::Send(next_idx))
                            } else {
                                Some(State::StartRead)
                            };
                        },
                    }
                },
                Some(State::StartRead) => {
                    match commands::poll_start_read(i2c, waker, self.address) {
                        Poll::Pending => {
                            return Poll::Pending;
                        },
                        Poll::Ready(Err(e)) => {
                            return Poll::Ready(Err(e));
                        },
                        Poll::Ready(Ok(())) => {
                            proof {
                                lemma_gain_one(
                                    cmds,
                                    write_read_emitted(old(self).state_spec(), olen, ilen),
                                    1 + olen,
                                );
                                assert(cmds[1 + olen] == commands::mtdr_entry(
                                    commands::CMD_START,
                                    ((self.address << 1u8) | 1u8) as u8,
                                ));
                            }
                            self.state = Some(State::EndOfPacket);
                        },
                    }
                },
                Some(State::EndOfPacket) => {
                    match commands::poll_end_of_packet(i2c, waker) {
                        Poll::Pending => {
                            return Poll::Pending;
                        },
                        Poll::Ready(Err(e)) => {
                            return Poll::Ready(Err(e));
                        },
                        Poll::Ready(Ok(())) => {
                            self.state = if self.input_len > 0 {
                                Some(State::ReceiveLength)
                            } else {
                                Some(State::StopSetup)
                            };
                        },
                    }
                },
                _ => {
                    return Poll::Pending;
                },
            }
        }
        loop
            invariant
                self.wf(),
                self.state_spec() is Some,
                self.address == old(self).address_spec(),
                self.output@ == old(self).output_spec(),
                self.input_len == old(self).input_len_spec(),
                self.collected@ + i2c.rx_fifo@ == c0 + f0,
                c0 + f0 == old(self).collected_spec() + old(i2c).rx_fifo@,
                olen == self.output@.len() as int,
                ilen == self.input_len as int,
                cmds == write_read_cmds(self.address, self.output@, ilen),
                cmds.len() == olen + 3 + if ilen > 0 {
                    1int
                } else {
                    0int
                },
                0 <= write_read_emitted(self.state_spec(), olen, ilen) <= cmds.len(),
                write_read_emitted(old(self).state_spec(), olen, ilen) <= write_read_emitted(
                    self.state_spec(),
                    olen,
                    ilen,
                ),
                i2c.tx_log@ == old(i2c).tx_log@ + cmds.subrange(
                    write_read_emitted(old(self).state_spec(), olen, ilen),
                    write_read_emitted(self.state_spec(), olen, ilen),
                ),
                self.state_spec() == Some(State::ReceiveLength) || self.state_spec() == Some(
                    State::Receive(self.collected@.len() as usize),
                ) || self.state_spec() == Some(State::StopSetup) || self.state_spec() == Some(
                    State::Stop,
                ),
            decreases write_read_phase_rank(self.state_spec()), write_read_phase_rem(
                self.state_spec(),
                self.output@.len() as int,
                self.input_len as int,
            ),
        {
            match self.state {
                Some(State::ReceiveLength) => {
                    match commands::poll_receive_length(i2c, waker, self.input_len) {
                        Poll::Pending => {
                            return Poll::Pending;
                        },
                        Poll::Ready(Err(e)) => {
                            return Poll::Ready(Err(e));
                        },
                        Poll::Ready(Ok(())) => {
                            proof {
                                lemma_gain_one(
                                    cmds,
                                    write_read_emitted(old(self).state_spec(), olen, ilen),
                                    2 + olen,
                                );
                                assert(cmds[2 + olen] == commands::mtdr_entry(
                                    commands::CMD_RECEIVE,
                                    (ilen - 1) as u8,
                                ));
                            }
                            self.state = Some(State::Receive(0));
                        },
                    }
                },
                Some(State::Receive(idx)) => {
                    match commands::poll_receive(i2c, waker) {
                        Poll::Pending => {
                            return Poll::Pending;
                        },
                        Poll::Ready(Err(e)) => {
                            return Poll::Ready(Err(e));
                        },
                        Poll::Ready(Ok(byte)) => {
                            self.collected.push(byte);
                            proof {
                                assert(self.collected@ + i2c.rx_fifo@ =~= c0 + f0);
                            }
                            let next_idx = idx + 1;
                            self.state = if next_idx < self.input_len {
                                Some(State::Receive(next_idx))
                            } else {
                                Some(State::StopSetup)
                            };
                        },
                    }
                },
                Some(State::StopSetup) => {
                    match commands::poll_stop_setup(i2c, waker) {
                        Poll::Pending => {
                            return Poll::Pending;
                        },
                        Poll::Ready(Err(e)) => {
                            return Poll::Ready(Err(e));
                        },
                        Poll::Ready(Ok(())) => {
                            proof {
                                let k = write_read_emitted(old(self).state_spec(), olen, ilen);
                                lemma_gain_one(cmds, k, cmds.len() - 1);
                                assert(cmds[cmds.len() - 1] == commands::mtdr_entry(
                                    commands::CMD_STOP,
                                    0,
                                ));
                            }
                            self.state = Some(State::Stop);
                        },
                    }
                },
                Some(State::Stop) => {
                    match commands::poll_stop(i2c, waker) {
                        Poll::Pending => {
                            return Poll::Pending;
                        },
                        Poll::Ready(Err(e)) => {
                            return Poll::Ready(Err(e));
                        },
                        Poll::Ready(Ok(())) => {
                            self.state = None;
                            return Poll::Ready(Ok(()));
                        },
                    }
                },
                _ => {
                    return Poll::Pending;
                },
            }
        }
    }

    /// Abandon the transaction: the command interrupts are disabled so no
    /// stale resumption fires.
    pub fn cancel(&mut self, i2c: &mut Lpi2cInstance)
        ensures
            *final(i2c) == (Lpi2cInstance {
                mier: commands::mier_disabled(),
                ..*old(i2c)
            }),
            *final(self) == *old(self),
    {
        commands::disable_interrupts(i2c);
    }
}

} // verus!
