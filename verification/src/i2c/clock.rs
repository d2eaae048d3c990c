//! I2C clock configuration.
//!
//! [`set_speed`] searches every prescaler and clock-high combination for
//! the one whose computed rate is closest to the requested speed, then
//! commits the derived register fields. Must only be called while the
//! master is disabled.

use vstd::prelude::*;

use crate::regs::Lpi2cInstance;

verus! {

/// I2C clock speed selections.
#[derive(Debug, Clone, Copy, PartialEq, Eq, Structural)]
pub enum ClockSpeed {
    /// 100 kHz.
    KHz100,
    /// 400 kHz.
    KHz400,
}

impl ClockSpeed {
    /// The target rate in Hz.
    pub open spec fn hz_spec(self) -> u32 {
        match self {
            ClockSpeed::KHz100 => 100_000u32,
            ClockSpeed::KHz400 => 400_000u32,
        }
    }

    /// The target rate in Hz.
    pub fn hz(self) -> (r: u32)
        ensures
            r == self.hz_spec(),
    {
        match self {
            ClockSpeed::KHz100 => 100_000,
            ClockSpeed::KHz400 => 400_000,
        }
    }
}

/// The rate a candidate reaches: prescaler `p` divides the source by
/// `2^p`, and the high period `clkhi` fixes the low, setup, and data-valid
/// periods.
pub open spec fn computed_rate(base_hz: int, p: int, clkhi: int) -> int {
    let divider: int = pow2(p);
    if clkhi == 1 {
        (base_hz / divider) / (6int + 2int / divider)
    } else {
        (base_hz / divider) / ((3 * clkhi + 2) + 2int / divider)
    }
}

/// `2^p` for the small prescaler exponents.
pub open spec fn pow2(p: int) -> int
    decreases p,
{
    if p <= 0 {
        1
    } else {
        2 * pow2(p - 1)
    }
}

/// The rate error of a candidate against the target.
pub open spec fn rate_err(base_hz: int, target: int, p: int, clkhi: int) -> int {
    let rate: int = computed_rate(base_hz, p, clkhi);
    if rate >= target {
        rate - target
    } else {
        target - rate
    }
}

/// A chosen (prescaler, clkhi) pair is best when no candidate with
/// prescaler 0..=7 and clkhi 1..=31 comes closer to the target.
pub open spec fn is_best(base_hz: int, target: int, p: int, clkhi: int) -> bool {
    &&& 0 <= p <= 7
    &&& 1 <= clkhi <= 31
    &&& forall|p2: int, c2: int|
        0 <= p2 <= 7 && 1 <= c2 <= 31 ==> rate_err(base_hz, target, p, clkhi) <= #[trigger] rate_err(
            base_hz,
            target,
            p2,
            c2,
        )
}

/// The master clock configuration register for a chosen `clkhi`: the low
/// period is twice the high, setup is the high, and data valid is half —
/// with the fixed minimum layout when the high period is one.
pub open spec fn spec_mccr0(clkhi: int) -> u32 {
    let clklo: int = if clkhi < 2 {
        3
    } else {
        clkhi * 2
    };
    let sethold: int = if clkhi < 2 {
        2
    } else {
        clkhi
    };
    let datavd: int = if clkhi < 2 {
        1
    } else {
        clkhi / 2
    };
    ((clkhi as u32) << 8u32) | (clklo as u32) | ((sethold as u32) << 16u32) | ((datavd as u32)
        << 24u32)
}

/// Exponentiate the prescaler at run time.
fn pow2_exec(p: u32) -> (r: u32)
    requires
        p <= 7,
    ensures
        r == pow2(p as int),
        1 <= r <= 128,
{
    proof {
        reveal_with_fuel(pow2, 9);
    }
    if p == 0 {
        1
    } else if p == 1 {
        2
    } else if p == 2 {
        4
    } else if p == 3 {
        8
    } else if p == 4 {
        16
    } else if p == 5 {
        32
    } else if p == 6 {
        64
    } else {
        128
    }
}

/// The absolute rate error of candidate `(p, clkhi)` at run time.
fn rate_err_exec(base_hz: u32, target: u32, p: u32, clkhi: u32) -> (err: u32)
    requires
        p <= 7,
        1 <= clkhi <= 31,
        target > 0,
    ensures
        err == rate_err(base_hz as int, target as int, p as int, clkhi as int),
{
    let divider = pow2_exec(p);
    let scaled = base_hz / divider;
    let rate: u32 = if clkhi == 1 {
        scaled / (6 + 2 / divider)
    } else {
        scaled / ((3 * clkhi + 2) + 2 / divider)
    };
    if rate >= target {
        rate - target
    } else {
        target - rate
    }
}

/// Commit the clock speed to the I2C peripheral: choose the prescaler and
/// high period closest to the target rate, and write the period layout
/// and the prescaler. Should only be called while the master is disabled.
pub fn set_speed(clock_speed: ClockSpeed, base_hz: u32, i2c: &mut Lpi2cInstance)
    ensures
        exists|p: int, clkhi: int|
            {
                &&& #[trigger] is_best(
                    base_hz as int,
                    clock_speed.hz_spec() as int,
                    p,
                    clkhi,
                )
                &&& *final(i2c) == (Lpi2cInstance {
                    mccr0: spec_mccr0(clkhi),
                    mcfgr1: p as u32,
                    ..*old(i2c)
                })
            },
{
    let target: u32 = clock_speed.hz();
    let mut best_p: u32 = 0;
    let mut best_clkhi: u32 = 1;
    let mut best_err: u32 = rate_err_exec(base_hz, target, 0, 1);

    let mut p: u32 = 0;
    while p <= 7
        invariant
            p <= 8,
            target == clock_speed.hz_spec(),
            target > 0,
            best_p <= 7,
            1 <= best_clkhi <= 31,
            best_err == rate_err(base_hz as int, target as int, best_p as int, best_clkhi as int),
            forall|p2: int, c2: int|
                0 <= p2 < p && 1 <= c2 <= 31 ==> rate_err(
                    base_hz as int,
                    target as int,
                    best_p as int,
                    best_clkhi as int,
                ) <= #[trigger] rate_err(base_hz as int, target as int, p2, c2),
        decreases 8 - p,
    {
        let mut clkhi: u32 = 1;
        while clkhi <= 31
            invariant
                p <= 7,
                1 <= clkhi <= 32,
                target == clock_speed.hz_spec(),
                target > 0,
                best_p <= 7,
                1 <= best_clkhi <= 31,
                best_err == rate_err(
                    base_hz as int,
                    target as int,
                    best_p as int,
                    best_clkhi as int,
                ),
                forall|p2: int, c2: int|
                    0 <= p2 < p && 1 <= c2 <= 31 ==> rate_err(
                        base_hz as int,
                        target as int,
                        best_p as int,
                        best_clkhi as int,
                    ) <= #[trigger] rate_err(base_hz as int, target as int, p2, c2),
                forall|c2: int|
                    1 <= c2 < clkhi ==> rate_err(
                        base_hz as int,
                        target as int,
                        best_p as int,
                        best_clkhi as int,
                    ) <= #[trigger] rate_err(base_hz as int, target as int, p as int, c2),
            decreases 32 - clkhi,
        {
            let err = rate_err_exec(base_hz, target, p, clkhi);
            if err < best_err {
                best_p = p;
                best_clkhi = clkhi;
                best_err = err;
            }
            clkhi = clkhi + 1;
        }
        p = p + 1;
    }

    let clklo: u32 = if best_clkhi < 2 {
        3
    } else {
        best_clkhi * 2
    };
    let sethold: u32 = if best_clkhi < 2 {
        2
    } else {
        best_clkhi
    };
    let datavd: u32 = if best_clkhi < 2 {
        1
    } else {
        best_clkhi / 2
    };
    i2c.mccr0 = (best_clkhi << 8) | clklo | (sethold << 16) | (datavd << 24);
    i2c.mcfgr1 = best_p;
    proof {
        assert(is_best(base_hz as int, target as int, best_p as int, best_clkhi as int));
        assert(i2c.mccr0 == spec_mccr0(best_clkhi as int));
    }
}

} // verus!
