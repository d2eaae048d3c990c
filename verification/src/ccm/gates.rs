//! Clock-gate register manipulation.
//!
//! A clock-gate register packs sixteen two-bit fields, one per gated
//! peripheral. [`set_clock_gate`] rewrites a chosen set of fields and
//! leaves every other field exactly as it was.

use vstd::prelude::*;

use crate::ccm::Handle;
use crate::ccm::CCGR_COUNT;

verus! {

/// The two-bit gate field `gate` of register value `reg`.
pub open spec fn gate_field(reg: u32, gate: u32) -> u32 {
    (reg >> (2 * gate)) & 3
}

/// The two low bits of a gate setting, as a register-sized word.
pub open spec fn gate_value(value: u8) -> u32 {
    (value as u32) & 3
}

/// Whether one of the first `n` entries of `gates` names field `k`.
pub open spec fn names_gate(gates: Seq<usize>, n: int, k: u32) -> bool {
    exists|j: int| 0 <= j < n && gates[j] == k as usize
}

/// Write `value` into each two-bit field of `*ccgr` named by `gates`;
/// every field not named keeps its value.
pub fn set_clock_gate(ccgr: &mut u32, gates: &Vec<usize>, value: u8)
    requires
        forall|i: int| 0 <= i < gates@.len() ==> gates@[i] < 16,
    ensures
        forall|k: u32|
            k < 16 ==> #[trigger] gate_field(*final(ccgr), k) == if names_gate(
                gates@,
                gates@.len() as int,
                k,
            ) {
                gate_value(value)
            } else {
                gate_field(*old(ccgr), k)
            },
{
    let vv: u32 = (value as u32) & 3;
    proof {
        let w: u32 = value as u32;
        assert(w & 3 <= 3) by (bit_vector);
    }
    let mut register: u32 = *ccgr;
    let mut i: usize = 0;
    while i < gates.len()
        invariant
            i <= gates@.len(),
            vv == gate_value(value),
            vv <= 3,
            forall|i0: int| 0 <= i0 < gates@.len() ==> gates@[i0] < 16,
            forall|k: u32|
                k < 16 ==> #[trigger] gate_field(register, k) == if names_gate(
                    gates@,
                    i as int,
                    k,
                ) {
                    vv
                } else {
                    gate_field(*old(ccgr), k)
                },
        decreases gates@.len() - i,
    {
        let gate: usize = gates[i];
        let g: u32 = gate as u32;
        let shift: u32 = g * 2;
        let before: u32 = register;
        register = (register & !(3u32 << shift)) | (vv << shift);
        proof {
            let after = register;
            assert(gate_field(after, g) == vv) by (bit_vector)
                requires
                    g < 16,
                    vv <= 3,
                    after == (before & !(3u32 << (g * 2))) | (vv << (g * 2)),
            ;
            assert forall|k: u32| k < 16 && k != g implies #[trigger] gate_field(after, k)
                == gate_field(before, k) by {
                assert(((after >> (2 * k)) & 3) == ((before >> (2 * k)) & 3)) by (bit_vector)
                    requires
                        g < 16,
                        k < 16,
                        k != g,
                        vv <= 3,
                        after == (before & !(3u32 << (g * 2))) | (vv << (g * 2)),
                ;
            }
        }
        i = i + 1;
    }
    *ccgr = register;
}

/// Write `value` into the single gate field `fld` of clock-gate register
/// `idx` of the handle; every other field, register, and selector keeps
/// its value.
pub fn set_gate(handle: &mut Handle, idx: usize, fld: usize, value: u8)
    requires
        old(handle).wf(),
        idx < CCGR_COUNT,
        fld < 16,
    ensures
        final(handle).wf(),
        forall|r: int|
            0 <= r < CCGR_COUNT && r != idx ==> final(handle).ccgr@[r] == old(handle).ccgr@[r],
        forall|k: u32|
            k < 16 ==> #[trigger] gate_field(final(handle).ccgr@[idx as int], k) == if k
                == fld as u32 {
                gate_value(value)
            } else {
                gate_field(old(handle).ccgr@[idx as int], k)
            },
        final(handle).cscdr1 == old(handle).cscdr1,
        final(handle).cscdr2 == old(handle).cscdr2,
        final(handle).cscmr1 == old(handle).cscmr1,
        final(handle).cbcmr == old(handle).cbcmr,
{
    let mut reg: u32 = handle.ccgr[idx];
    let mut fields: Vec<usize> = Vec::new();
    fields.push(fld);
    set_clock_gate(&mut reg, &fields, value);
    handle.ccgr.set(idx, reg);
    proof {
        assert forall|k: u32| k < 16 implies (names_gate(fields@, 1, k) <==> k == fld as u32) by {
            if k == fld as u32 {
                assert(fields@[0] == k as usize);
            }
        }
    }
}

} // verus!
