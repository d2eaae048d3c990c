//! Theorems about the DMA engine and the pipe protocol.
//!
//! These proofs run entirely over the spec-level transition functions that
//! the executable operations are verified against — [`spec_service`],
//! [`spec_send_poll`], [`spec_receive_poll`] — so what they state holds of
//! any execution of those operations.

use vstd::prelude::*;

use crate::dma::interrupt::COMPLETE;
use crate::dma::interrupt::DROPPED;
use crate::dma::interrupt::PENDING;
use crate::dma::interrupt::UNDEFINED;
use crate::dma::peripheral::spec_rx_armed;
use crate::dma::peripheral::spec_tx_armed;
use crate::dma::pipe::spec_receive_poll;
use crate::dma::pipe::spec_send_poll;
use crate::dma::spec_service;
use crate::dma::ChannelView;
use crate::dma::Element;
use crate::dma::SlotView;
use crate::dma::TriggerSelect;
use crate::dma::ADDRESS_LIMIT;
use crate::Error;
use crate::Poll;

verus! {

/// The channel and memory after `k` service requests.
pub open spec fn run_services(v: ChannelView, m: Seq<u8>, k: nat) -> (ChannelView, Seq<u8>)
    decreases k,
{
    if k == 0 {
        (v, m)
    } else {
        let (v1, m1) = run_services(v, m, (k - 1) as nat);
        spec_service(v1, m1)
    }
}

/// A channel armed for a byte-by-byte move of `len` bytes from `src` to
/// `dst`, with `done` of them already transferred.
pub open spec fn armed_linear_move(
    v: ChannelView,
    src: int,
    dst: int,
    len: nat,
    done: nat,
) -> bool {
    &&& v.enabled
    &&& v.nbytes == 1 && v.soff == 1 && v.doff == 1
    &&& v.saddr == src + done && v.daddr == dst + done
    &&& v.slast == -(len as int) && v.dlast == -(len as int)
    &&& v.citer == len - done && v.biter == len
    &&& done < len
}

/// The memory `m` with its `dst` region holding the first `k` bytes of the
/// `src` region of `m0`, and every other byte as in `m0`.
pub open spec fn copied_prefix(m0: Seq<u8>, src: int, dst: int, k: int) -> Seq<u8> {
    Seq::new(
        m0.len(),
        |i: int|
            if dst <= i < dst + k {
                m0[src + (i - dst)]
            } else {
                m0[i]
            },
    )
}

/// Progress of the armed byte-by-byte move: after `k` of `len` service
/// requests, the first `k` source bytes stand at the destination and the
/// channel has advanced by `k`; after the `len`-th, the whole region has
/// moved, the addresses have wrapped back, and completion is recorded.
pub proof fn lemma_linear_move_progress(
    v: ChannelView,
    m: Seq<u8>,
    src: int,
    dst: int,
    len: nat,
    k: nat,
)
    requires
        armed_linear_move(v, src, dst, len, 0),
        0 <= src,
        0 <= dst,
        src + len <= m.len(),
        dst + len <= m.len(),
        m.len() <= ADDRESS_LIMIT,
        dst + len <= src || src + len <= dst,
        len <= 0xFFFF,
        k <= len,
    ensures
        ({
            let (vk, mk) = run_services(v, m, k);
            &&& mk == copied_prefix(m, src, dst, k as int)
            &&& k < len ==> armed_linear_move(vk, src, dst, len, k) && vk == (ChannelView {
                saddr: (src + k) as u64,
                daddr: (dst + k) as u64,
                citer: (len - k) as u16,
                ..v
            })
            &&& k == len ==> vk == (ChannelView {
                saddr: src as u64,
                daddr: dst as u64,
                citer: len as u16,
                complete: true,
                started: false,
                enabled: !v.disable_on_completion,
                int_pending: v.int_pending || v.int_on_completion,
                ..v
            })
        }),
    decreases k,
{
    if k == 0 {
        assert(run_services(v, m, 0) == (v, m));
        assert(copied_prefix(m, src, dst, 0) =~= m);
    } else {
        lemma_linear_move_progress(v, m, src, dst, len, (k - 1) as nat);
        let (vp, mp) = run_services(v, m, (k - 1) as nat);
        let (vk, mk) = spec_service(vp, mp);
        assert(run_services(v, m, k) == (vk, mk));
        assert(crate::dma::can_service(vp));
        assert(crate::dma::service_in_bounds(vp, mp.len() as int));
        assert(crate::dma::advance_ok(vp));
        assert(mk == crate::dma::copy_block(mp, src + (k - 1), dst + (k - 1), 1));
        assert(mp[src + (k - 1)] == m[src + (k - 1)]);
        assert(mk =~= copied_prefix(m, src, dst, k as int));
    }
}

/// The pipe handshake, walked from a fresh pipe channel to resolution:
///
/// 1. the sender's first poll stages the value's bytes and goes pending;
/// 2. the receiver's first poll arms its half and — arriving second —
///    enables and starts the channel;
/// 3. the engine's service requests move the bytes;
/// 4. the interrupt handler marks both slots complete;
/// 5. the receiver's next poll resolves `Ok` with exactly the value the
///    sender staged.
pub proof fn lemma_pipe_round_trip<E: Element>(
    value: E,
    c: ChannelView,
    m: Seq<u8>,
    staging: int,
    landing: int,
    waker_s: u32,
    waker_r: u32,
)
    requires
        c.trigger == TriggerSelect::AlwaysOn,
        c.int_on_completion && c.disable_on_completion,
        !c.enabled,
        c.slot0.state == UNDEFINED,
        c.slot1.state == UNDEFINED,
        0 <= staging,
        staging + E::size_spec() <= landing,
        landing + E::size_spec() <= m.len(),
        m.len() <= ADDRESS_LIMIT,
        1 <= E::size_spec() <= 8,
    ensures
        ({
            let bytes = value.to_bytes_spec();
            let len = E::size_spec();
            let (c1, m1, r1) = spec_send_poll(c, m, staging, bytes, waker_s);
            let (c2, r2) = spec_receive_poll(c1, m1, landing, len, waker_r);
            let (c3, m3) = run_services(c2, m1, len);
            let c4 = ChannelView {
                int_pending: false,
                slot0: SlotView { state: COMPLETE, waker: None::<u32> },
                slot1: SlotView { state: COMPLETE, waker: None::<u32> },
                ..c3
            };
            let (c5, r5) = spec_receive_poll(c4, m3, landing, len, waker_r);
            &&& r1 is Pending
            &&& r2 is Pending
            &&& c3.complete && !c3.enabled
            &&& (r5 matches Poll::Ready(res) && res matches Ok(delivered)
                && E::from_bytes_spec(delivered) == value)
        }),
{
    let bytes = value.to_bytes_spec();
    let len = E::size_spec();
    value.lemma_size();
    let (c1, m1, r1) = spec_send_poll(c, m, staging, bytes, waker_s);
    let (c2, r2) = spec_receive_poll(c1, m1, landing, len, waker_r);
    assert(c2.slot0.state == PENDING && c2.slot1.state == PENDING);
    assert(c2.enabled && c2.started);
    assert(armed_linear_move(c2, staging, landing, len, 0));
    lemma_linear_move_progress(c2, m1, staging, landing, len, len);
    let (c3, m3) = run_services(c2, m1, len);
    assert(m3 == copied_prefix(m1, staging, landing, len as int));
    assert(m3.subrange(landing, landing + len) =~= bytes) by {
        assert(forall|i: int|
            0 <= i < len ==> #[trigger] m3.subrange(landing, landing + len)[i] == m1[staging + i]);
        assert(forall|i: int| 0 <= i < len ==> #[trigger] m1[staging + i] == bytes[i]);
    }
    let c4 = ChannelView {
        int_pending: false,
        slot0: SlotView { state: COMPLETE, waker: None::<u32> },
        slot1: SlotView { state: COMPLETE, waker: None::<u32> },
        ..c3
    };
    let (c5, r5) = spec_receive_poll(c4, m3, landing, len, waker_r);
    assert(r5 == Poll::Ready(Result::<Seq<u8>, Error>::Ok(m3.subrange(landing, landing + len))));
    value.lemma_round_trip();
}

/// A channel armed as `transfer` arms it — linear buffer source of `len`
/// elements of `esize` bytes at `src`, fixed register destination at
/// `reg` — with `done` elements already emitted.
pub open spec fn armed_register_sink(
    v: ChannelView,
    src: int,
    reg: int,
    esize: nat,
    len: nat,
    done: nat,
) -> bool {
    &&& v.enabled
    &&& v.nbytes == esize && v.soff == esize && v.doff == 0
    &&& v.saddr == src + done * esize && v.daddr == reg
    &&& v.slast == -(len * esize) && v.dlast == 0
    &&& v.citer == len - done && v.biter == len
    &&& done < len
    &&& 1 <= esize
}

/// The transmit side of the round trip: each service request of a
/// register-sink transfer emits exactly the next buffer element into the
/// register, in order, and leaves every byte outside the register
/// untouched — so draining the register after each request observes the
/// buffer's elements in their original order.
pub proof fn lemma_transfer_emits_in_order(
    v: ChannelView,
    m: Seq<u8>,
    src: int,
    reg: int,
    esize: nat,
    len: nat,
    done: nat,
)
    requires
        armed_register_sink(v, src, reg, esize, len, done),
        0 <= src,
        0 <= reg,
        src + len * esize <= m.len(),
        reg + esize <= m.len(),
        m.len() <= ADDRESS_LIMIT,
        reg + esize <= src || src + len * esize <= reg,
        len <= 0xFFFF,
        esize <= 8,
    ensures
        ({
            let (v1, m1) = spec_service(v, m);
            &&& m1.subrange(reg, reg + esize) == m.subrange(
                src + done * esize,
                src + done * esize + esize,
            )
            &&& forall|i: int| 0 <= i < m.len() && !(reg <= i < reg + esize) ==> m1[i] == m[i]
            &&& done + 1 < len ==> armed_register_sink(v1, src, reg, esize, len, done + 1)
            &&& done + 1 == len ==> v1.complete && v1.saddr == src && v1.citer == len
        }),
{
    assert(done * esize <= len * esize && (done + 1) * esize <= len * esize && done * esize
        + esize == (done + 1) * esize) by (nonlinear_arith)
        requires
            done < len,
            1 <= esize,
    ;
    assert(crate::dma::can_service(v));
    assert(crate::dma::service_in_bounds(v, m.len() as int));
    assert(crate::dma::advance_ok(v));
    let (v1, m1) = spec_service(v, m);
    assert(m1 == crate::dma::copy_block(m, v.saddr as int, reg, esize as int));
    assert(m1.subrange(reg, reg + esize) =~= m.subrange(
        src + done * esize,
        src + done * esize + esize,
    ));
    if done + 1 < len {
        assert(src + done * esize + esize == src + (done + 1) * esize) by (nonlinear_arith);
    }
}

/// A channel armed as `receive` arms it — fixed register source at `reg`,
/// linear buffer destination of `len` elements at `dst` — with `done`
/// elements already landed.
pub open spec fn armed_register_source(
    v: ChannelView,
    reg: int,
    dst: int,
    esize: nat,
    len: nat,
    done: nat,
) -> bool {
    &&& v.enabled
    &&& v.nbytes == esize && v.soff == 0 && v.doff == esize
    &&& v.saddr == reg && v.daddr == dst + done * esize
    &&& v.slast == 0 && v.dlast == -(len * esize)
    &&& v.citer == len - done && v.biter == len
    &&& done < len
    &&& 1 <= esize
}

/// The receive side of the round trip: each service request of a
/// register-source transfer lands exactly the register's current contents
/// in the next buffer slot, in order — so refilling the register before
/// each request delivers a sequence of values into the buffer in the
/// order they were supplied.
pub proof fn lemma_receive_lands_in_order(
    v: ChannelView,
    m: Seq<u8>,
    reg: int,
    dst: int,
    esize: nat,
    len: nat,
    done: nat,
)
    requires
        armed_register_source(v, reg, dst, esize, len, done),
        0 <= reg,
        0 <= dst,
        dst + len * esize <= m.len(),
        reg + esize <= m.len(),
        m.len() <= ADDRESS_LIMIT,
        reg + esize <= dst || dst + len * esize <= reg,
        len <= 0xFFFF,
        esize <= 8,
    ensures
        ({
            let (v1, m1) = spec_service(v, m);
            &&& m1.subrange(dst + done * esize, dst + done * esize + esize) == m.subrange(
                reg,
                reg + esize,
            )
            &&& forall|i: int|
                0 <= i < m.len() && !(dst + done * esize <= i < dst + done * esize + esize)
                    ==> m1[i] == m[i]
            &&& done + 1 < len ==> armed_register_source(v1, reg, dst, esize, len, done + 1)
            &&& done + 1 == len ==> v1.complete && v1.daddr == dst && v1.citer == len
        }),
{
    assert(done * esize <= len * esize && (done + 1) * esize <= len * esize && done * esize
        + esize == (done + 1) * esize) by (nonlinear_arith)
        requires
            done < len,
            1 <= esize,
    ;
    assert(crate::dma::can_service(v));
    assert(crate::dma::service_in_bounds(v, m.len() as int));
    assert(crate::dma::advance_ok(v));
    let (v1, m1) = spec_service(v, m);
    assert(m1 == crate::dma::copy_block(m, reg, v.daddr as int, esize as int));
    assert(m1.subrange(dst + done * esize, dst + done * esize + esize) =~= m.subrange(
        reg,
        reg + esize,
    ));
    if done + 1 < len {
        assert(dst + done * esize + esize == dst + (done + 1) * esize) by (nonlinear_arith);
    }
}

/// An armed one-shot transmit is one enable away from the emitting shape:
/// once its first poll has enabled the channel, the register-sink law
/// applies from the descriptor that [`spec_tx_armed`] pins, with the
/// endpoint's own register as the sink.
pub proof fn lemma_tx_armed_emits(
    pre: ChannelView,
    armed: ChannelView,
    buffer: usize,
    len: usize,
    esize: nat,
    signal: u32,
    register: usize,
)
    requires
        spec_tx_armed(pre, armed, buffer, len, esize, signal, register),
        len > 0,
        1 <= esize,
        register <= crate::dma::ADDRESS_LIMIT,
    ensures
        armed_register_sink(
            ChannelView { enabled: true, ..armed },
            buffer as int,
            register as int,
            esize,
            len as nat,
            0,
        ),
{
    assert(0 * esize == 0);
}

/// The mirror for an armed one-shot receive: the register-source law
/// applies from the descriptor that [`spec_rx_armed`] pins.
pub proof fn lemma_rx_armed_lands(
    pre: ChannelView,
    armed: ChannelView,
    buffer: usize,
    len: usize,
    esize: nat,
    signal: u32,
    register: usize,
)
    requires
        spec_rx_armed(pre, armed, buffer, len, esize, signal, register),
        len > 0,
        1 <= esize,
        register <= crate::dma::ADDRESS_LIMIT,
    ensures
        armed_register_source(
            ChannelView { enabled: true, ..armed },
            register as int,
            buffer as int,
            esize,
            len as nat,
            0,
        ),
{
    assert(0 * esize == 0);
}

/// Cancellation is permanent: once the sender's slot is dropped, every
/// receiver poll — whatever the receiver's own state — resolves with
/// `Cancelled` and leaves the sender's slot dropped, so every later poll
/// resolves the same way.
pub proof fn lemma_receiver_cancelled_permanent(
    c: ChannelView,
    m: Seq<u8>,
    landing: int,
    esize: nat,
    waker: u32,
)
    requires
        c.slot0.state == DROPPED,
    ensures
        ({
            let (c2, r) = spec_receive_poll(c, m, landing, esize, waker);
            &&& r == Poll::Ready(Result::<Seq<u8>, Error>::Err(Error::Cancelled))
            &&& c2.slot0.state == DROPPED
            &&& !c2.enabled
        }),
{
}

/// The mirror for the sending half: once the receiver's slot is dropped,
/// every sender poll resolves with `Cancelled` and leaves it dropped.
pub proof fn lemma_sender_cancelled_permanent(
    c: ChannelView,
    m: Seq<u8>,
    staging: int,
    bytes: Seq<u8>,
    waker: u32,
)
    requires
        c.slot1.state == DROPPED,
    ensures
        ({
            let (c2, m2, r) = spec_send_poll(c, m, staging, bytes, waker);
            &&& r == Poll::Ready(Result::<(), Error>::Err(Error::Cancelled))
            &&& m2 == m
            &&& c2.slot1.state == DROPPED
            &&& !c2.enabled
        }),
{
}

} // verus!
