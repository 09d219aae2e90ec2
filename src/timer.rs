//! Periodic timer: splitting a period in clock ticks into prescaler and
//! auto-reload values.

use vstd::prelude::*;

use crate::narrowing::{narrow_u16, widen_u32};

verus! {

/// A period that the timer cannot count.
#[derive(Clone, Copy, Debug, PartialEq, Eq)]
pub struct Error {
    _0: (),
}

/// Prescaler and auto-reload values of a timer period.
#[derive(Clone, Copy, Debug, PartialEq, Eq, Structural)]
pub struct TimerPeriod {
    /// The counter advances once every `prescaler + 1` clock ticks.
    pub prescaler: u16,
    /// The counter wraps, raising an update event, after `reload` advances.
    pub reload: u16,
}

/// The prescaler of a period of `ticks` clock ticks: the smallest that lets
/// the reload value fit in 16 bits.
pub open spec fn spec_prescaler(ticks: u32) -> int {
    (ticks - 1) / 65535
}

/// Whether the timer can count a period of `ticks` clock ticks.
pub open spec fn period_fits(ticks: u32) -> bool {
    ticks > 0 && spec_prescaler(ticks) < 65535
}

/// Splits a period of `ticks` clock ticks into prescaler and reload values.
/// A period of zero ticks, or one that would need the largest prescaler or
/// more, is refused.
pub fn period(ticks: u32) -> (r: Result<TimerPeriod, Error>)
    ensures
        !period_fits(ticks) ==> r is Err,
        period_fits(ticks) ==> r == Ok::<TimerPeriod, Error>(
            TimerPeriod {
                prescaler: spec_prescaler(ticks) as u16,
                reload: (ticks as int / (spec_prescaler(ticks) + 1)) as u16,
            },
        ),
{
    if ticks == 0 {
        return Err(Error { _0: () });
    }
    let psc = match narrow_u16((ticks - 1) / widen_u32(0xffff)) {
        Some(p) => p,
        None => {
            return Err(Error { _0: () });
        },
    };
    if psc == 0xffff {
        return Err(Error { _0: () });
    }
    let divisor = widen_u32(psc + 1);
    proof {
        let p = psc as int;
        let t = ticks as int;
        assert(t / (p + 1) <= 65535) by (nonlinear_arith)
            requires
                p == (t - 1) / 65535,
                t > 0,
        ;
    }
    let arr = match narrow_u16(ticks / divisor) {
        Some(a) => a,
        None => {
            return Err(Error { _0: () });
        },
    };
    Ok(TimerPeriod { prescaler: psc, reload: arr })
}

} // verus!
