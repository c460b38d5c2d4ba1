use vstd::prelude::*;

use crate::cap::FpsMode;

verus! {

pub const NANOS_PER_SEC: u64 = 1_000_000_000;

/// The trailing slice of a frame budget that is spun through instead of slept,
/// to absorb the scheduler's wake-up jitter.
pub const SLEEP_MARGIN_NANOS: u64 = 7_000_000;

/// What the frame governor does next, given the time since the frame began.
#[derive(Clone, Copy, PartialEq, Eq, Debug, Structural)]
pub enum WaitAction {
    /// The frame may end now.
    Done,
    /// Block the thread for this many nanoseconds, then ask again.
    Sleep(u64),
    /// Busy-wait briefly, then ask again.
    Spin,
}

/// The target rate when the mode enforces a deadline, 0 when it does not.
pub open spec fn enforced_rate(mode: FpsMode) -> int {
    match mode {
        FpsMode::Manual(rate) => rate as int,
        _ => 0,
    }
}

/// What is left of the frame budget after `elapsed` nanoseconds, scaled by
/// `rate` so that it stays an integer: `rate * (1 s / rate - elapsed)` in ns.
pub open spec fn scaled_budget(rate: int, elapsed: int) -> int {
    NANOS_PER_SEC as int - elapsed * rate
}

pub open spec fn wait_action_of(mode: FpsMode, elapsed: int) -> WaitAction {
    let rate = enforced_rate(mode);
    let budget = scaled_budget(rate, elapsed);
    if rate <= 0 || budget <= 0 {
        WaitAction::Done
    } else if budget / rate > SLEEP_MARGIN_NANOS {
        WaitAction::Sleep((budget / rate - SLEEP_MARGIN_NANOS) as u64)
    } else {
        WaitAction::Spin
    }
}

/// The frame governor's step. The caller records the frame start, then keeps
/// asking with the time elapsed since it: it sleeps while told to sleep, spins
/// while told to spin, and ends the frame on `Done`.
pub fn wait_action(mode: FpsMode, elapsed_nanos: u64) -> (r: WaitAction)
    ensures
        r == wait_action_of(mode, elapsed_nanos as int),
        // no deadline without a positive fixed rate
        enforced_rate(mode) == 0 ==> r == WaitAction::Done,
        // an overrun frame ends at once
        enforced_rate(mode) > 0 && elapsed_nanos * enforced_rate(mode) >= NANOS_PER_SEC ==> r
            == WaitAction::Done,
        // the frame never ends before its period is over
        enforced_rate(mode) > 0 && r == WaitAction::Done ==> elapsed_nanos * enforced_rate(mode)
            >= NANOS_PER_SEC,
        // a sleep stops at least the margin before the deadline, and at most one
        // nanosecond earlier than that
        forall|d: u64|
            r == WaitAction::Sleep(d) ==> {
                &&& enforced_rate(mode) > 0
                &&& d >= 1
                &&& (elapsed_nanos + d + SLEEP_MARGIN_NANOS) * enforced_rate(mode)
                    <= NANOS_PER_SEC
                &&& (elapsed_nanos + d + SLEEP_MARGIN_NANOS + 1) * enforced_rate(mode)
                    > NANOS_PER_SEC
            },
        // spinning covers only the margin (to the nanosecond) before the deadline
        r == WaitAction::Spin ==> enforced_rate(mode) > 0 && elapsed_nanos * enforced_rate(mode)
            < NANOS_PER_SEC && (elapsed_nanos + SLEEP_MARGIN_NANOS + 1) * enforced_rate(mode)
            > NANOS_PER_SEC,
{
    let rate: u32 = match mode {
        FpsMode::Manual(rate) => rate,
        _ => 0,
    };
    if rate == 0 {
        return WaitAction::Done;
    }
    proof {
        assert(elapsed_nanos * rate <= 0xffff_ffff_ffff_ffffu64 * 0xffff_ffffu32) by (nonlinear_arith)
            requires
                elapsed_nanos <= 0xffff_ffff_ffff_ffffu64,
                rate <= 0xffff_ffffu32,
        ;
    }
    let used: u128 = elapsed_nanos as u128 * rate as u128;
    if used >= NANOS_PER_SEC as u128 {
        return WaitAction::Done;
    }
    let budget: u128 = NANOS_PER_SEC as u128 - used;
    let q: u128 = budget / rate as u128;
    proof {
        let b = budget as int;
        assert(q * rate <= b < (q + 1) * rate) by (nonlinear_arith)
            requires
                rate > 0,
                q == b / (rate as int),
        ;
    }
    if q > SLEEP_MARGIN_NANOS as u128 {
        let sleep: u128 = q - SLEEP_MARGIN_NANOS as u128;
        proof {
            assert((elapsed_nanos + sleep + SLEEP_MARGIN_NANOS) * rate == elapsed_nanos * rate + q
                * rate) by (nonlinear_arith)
                requires
                    sleep + SLEEP_MARGIN_NANOS == q,
            ;
            assert((elapsed_nanos + sleep + SLEEP_MARGIN_NANOS + 1) * rate == elapsed_nanos * rate
                + (q + 1) * rate) by (nonlinear_arith)
                requires
                    sleep + SLEEP_MARGIN_NANOS == q,
            ;
        }
        WaitAction::Sleep(sleep as u64)
    } else {
        proof {
            let b = budget as int;
            assert((elapsed_nanos + SLEEP_MARGIN_NANOS + 1) * rate > elapsed_nanos * rate + b)
                by (nonlinear_arith)
                requires
                    q <= SLEEP_MARGIN_NANOS,
                    b < (q + 1) * rate,
                    rate > 0,
            ;
        }
        WaitAction::Spin
    }
}

} // verus!
