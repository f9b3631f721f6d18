use vstd::prelude::*;
use crate::control::EngineCommand;
use crate::fixed::{MAX_SCALAR, SCALE};

verus! {

/// The fuel left and how fast commanded effort burns it.
#[derive(Clone, Copy, Debug, PartialEq, Eq, Structural)]
pub struct FuelLedger {
    pub remaining: u64,
    /// Fuel burnt per tick per unit of total commanded effort.
    pub burn_rate: u64,
}

/// Fuel burnt in one tick under `cmd`: total effort times the burn rate.
pub open spec fn burn_amount(cmd: EngineCommand, burn_rate: int) -> int {
    (cmd.main_thrust + cmd.left_authority + cmd.right_authority) * burn_rate / (SCALE as int)
}

/// Fuel left after one tick under `cmd`, held at zero.
pub open spec fn fuel_after_tick(remaining: int, burn_rate: int, cmd: EngineCommand) -> int {
    if remaining >= burn_amount(cmd, burn_rate) {
        remaining - burn_amount(cmd, burn_rate)
    } else {
        0
    }
}

/// Fuel left after the ticks of `cmds`, in order.
pub open spec fn fuel_after(remaining: int, burn_rate: int, cmds: Seq<EngineCommand>) -> int
    decreases cmds.len(),
{
    if cmds.len() == 0 {
        remaining
    } else {
        fuel_after_tick(fuel_after(remaining, burn_rate, cmds.drop_last()), burn_rate, cmds.last())
    }
}

impl FuelLedger {
    pub open spec fn wf(self) -> bool {
        self.burn_rate <= MAX_SCALAR
    }

    /// A full tank of 1000 units burning 0.1 per unit of effort each tick.
    pub fn full() -> (r: FuelLedger)
        ensures
            r.wf(),
            r.remaining == 1_000_000_000,
            r.burn_rate == 100_000,
    {
        FuelLedger { remaining: 1_000_000_000, burn_rate: 100_000 }
    }

    pub fn new(remaining: u64, burn_rate: u64) -> (r: FuelLedger)
        requires
            burn_rate <= MAX_SCALAR,
        ensures
            r.wf(),
            r.remaining == remaining,
            r.burn_rate == burn_rate,
    {
        FuelLedger { remaining, burn_rate }
    }

    /// Burns the fuel of one tick under `cmd`, stopping at zero.
    pub fn burn(&mut self, cmd: &EngineCommand)
        requires
            old(self).wf(),
        ensures
            final(self).wf(),
            final(self).burn_rate == old(self).burn_rate,
            final(self).remaining == fuel_after_tick(old(self).remaining as int, old(self).burn_rate as int, *cmd),
            final(self).remaining <= old(self).remaining,
    {
        let effort: u128 = cmd.main_thrust as u128 + cmd.left_authority as u128 + cmd.right_authority as u128;
        proof {
            assert(effort * self.burn_rate <= 0x3_0000_0000_0000_0000 * MAX_SCALAR) by (nonlinear_arith)
                requires
                    effort <= 0x3_0000_0000_0000_0000,
                    self.burn_rate <= MAX_SCALAR,
            ;
            assert(effort * self.burn_rate >= 0) by (nonlinear_arith)
                requires
                    effort >= 0,
                    self.burn_rate >= 0,
            ;
        }
        let burnt: u128 = effort * (self.burn_rate as u128) / (SCALE as u128);
        if burnt <= self.remaining as u128 {
            self.remaining = (self.remaining as u128 - burnt) as u64;
        } else {
            self.remaining = 0;
        }
    }
}

/// Over any sequence of commands the fuel never rises from one tick to a
/// later one, and it never goes below zero.
pub proof fn lemma_fuel_never_rises(remaining: u64, burn_rate: u64, cmds: Seq<EngineCommand>, i: int, j: int)
    requires
        0 <= i <= j <= cmds.len(),
    ensures
        0 <= fuel_after(remaining as int, burn_rate as int, cmds.take(j))
            <= fuel_after(remaining as int, burn_rate as int, cmds.take(i)),
    decreases j,
{
    if j > 0 {
        let prefix = cmds.take(j);
        assert(prefix.drop_last() == cmds.take(j - 1));
        if i < j {
            lemma_fuel_never_rises(remaining, burn_rate, cmds, i, j - 1);
        } else {
            lemma_fuel_never_rises(remaining, burn_rate, cmds, j - 1, j - 1);
        }
        let before = fuel_after(remaining as int, burn_rate as int, cmds.take(j - 1));
        assert(burn_amount(prefix.last(), burn_rate as int) >= 0) by {
            let e = prefix.last().main_thrust + prefix.last().left_authority + prefix.last().right_authority;
            assert(e * burn_rate >= 0) by (nonlinear_arith)
                requires
                    e >= 0,
                    burn_rate >= 0,
            ;
        }
    } else {
        assert(cmds.take(0).len() == 0);
    }
}

} // verus!
