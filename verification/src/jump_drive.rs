//! The jump drive: a fuel reservoir and a range limit.

use crate::inv_store::floor_zero;
use crate::pos::{lemma_distance_truncates, Position};
use crate::text::{decimal, push_decimal};
use vstd::prelude::*;
use vstd::string::*;

verus! {

/// The message of a jump refused for range.
pub open spec fn msg_out_of_range(distance: int, max_range: int) -> Seq<char> {
    "Jump failed: distance "@ + decimal(distance) + " exceeds max range "@ + decimal(max_range)
}

/// The message of a jump refused for want of fuel.
pub open spec fn msg_no_fuel(needed: int, held: int) -> Seq<char> {
    "Jump failed: not enough fuel (need "@ + decimal(needed) + ", have "@ + decimal(held) + ")"@
}

/// The message of a jump that took place.
pub open spec fn msg_jumped(distance: int, fuel_used: int) -> Seq<char> {
    "Jump successful: traveled "@ + decimal(distance) + " light years, consumed "@ + decimal(
        fuel_used,
    ) + " fuel"@
}

/// The outcome of a jump attempt. A failed attempt reports distance and fuel
/// as zero.
#[derive(Debug, Clone)]
pub struct JumpRes {
    pub success: bool,
    pub message: String,
    pub distance: i32,
    pub fuel_used: i32,
}

impl JumpRes {
    /// A failure with an empty message.
    pub fn new() -> (res: JumpRes)
        ensures
            !res.success,
            res.message@ == Seq::<char>::empty(),
            res.distance == 0,
            res.fuel_used == 0,
    {
        JumpRes { success: false, message: String::new(), distance: 0, fuel_used: 0 }
    }
}

/// A jump drive. `fuel_max` is fixed when the drive is made.
#[derive(Debug, Clone, Copy, PartialEq, Eq, Structural)]
pub struct JumpDrive {
    pub fuel_per_ly: i32,
    pub max_range: i32,
    pub fuel_max: i32,
    pub fuel_cur: i32,
}

impl JumpDrive {
    /// The reservoir holds eight full-range jumps, and the fuel in it is
    /// between nothing and that.
    pub open spec fn wf(&self) -> bool {
        &&& self.fuel_max == self.fuel_per_ly * self.max_range * 8
        &&& 0 <= self.fuel_cur <= self.fuel_max
    }

    /// The fuel that a jump over `distance` takes.
    pub open spec fn fuel_for(&self, distance: int) -> int {
        distance * self.fuel_per_ly
    }

    /// The fuel that the jump from `from` to `to` takes.
    pub open spec fn cost(&self, from: Position, to: Position) -> int {
        self.fuel_for(from.dist(to))
    }

    /// The jump from `from` to `to` is within range.
    pub open spec fn in_range(&self, from: Position, to: Position) -> bool {
        from.dist(to) <= self.max_range
    }

    /// The jump from `from` to `to` is within range and the fuel suffices.
    pub open spec fn can_jump(&self, from: Position, to: Position) -> bool {
        self.in_range(from, to) && self.cost(from, to) <= self.fuel_cur
    }

    /// The drive after an attempt to jump from `from` to `to`: the fuel of the
    /// jump is gone if it took place, and nothing has changed if it did not.
    pub open spec fn after_jump(&self, from: Position, to: Position) -> JumpDrive {
        if self.can_jump(from, to) {
            JumpDrive { fuel_cur: floor_zero(self.fuel_cur - self.cost(from, to)) as i32, ..*self }
        } else {
            *self
        }
    }

    /// The message that an attempt to jump from `from` to `to` reports.
    pub open spec fn jump_message(&self, from: Position, to: Position) -> Seq<char> {
        if !self.in_range(from, to) {
            msg_out_of_range(from.dist(to), self.max_range as int)
        } else if !self.can_jump(from, to) {
            msg_no_fuel(self.cost(from, to), self.fuel_cur as int)
        } else {
            msg_jumped(from.dist(to), self.cost(from, to))
        }
    }

    /// The drive after `amount` is added to its fuel: the fuel stops at
    /// `fuel_max`, and at nothing where the amount takes out more than there
    /// is.
    pub open spec fn after_refuel(&self, amount: int) -> JumpDrive {
        JumpDrive {
            fuel_cur: if self.fuel_cur + amount > self.fuel_max {
                self.fuel_max
            } else if self.fuel_cur + amount < 0 {
                0
            } else {
                (self.fuel_cur + amount) as i32
            },
            ..*self
        }
    }

    /// Within range, the fuel of a jump is between nothing and an eighth of
    /// the reservoir.
    pub proof fn lemma_cost_in_range(&self, distance: int)
        requires
            self.wf(),
            0 <= distance <= self.max_range,
        ensures
            0 <= self.fuel_for(distance),
            self.fuel_for(distance) * 8 <= self.fuel_max,
    {
        let f = self.fuel_per_ly as int;
        let m = self.max_range as int;
        assert(0 <= distance * f && distance * f * 8 <= f * m * 8) by (nonlinear_arith)
            requires
                0 <= distance <= m,
                0 <= f * m * 8,
        ;
    }

    /// Whether the drive is in order.
    pub fn is_valid(&self) -> (valid: bool)
        ensures
            valid == self.wf(),
    {
        let rate: i128 = self.fuel_per_ly as i128;
        let range: i128 = self.max_range as i128;
        assert(-0x8000_0000 * 0x8000_0000 <= rate * range <= 0x8000_0000 * 0x8000_0000)
            by (nonlinear_arith)
            requires
                -0x8000_0000 <= rate <= 0x8000_0000,
                -0x8000_0000 <= range <= 0x8000_0000,
        ;
        let full: i128 = rate * range * 8;
        self.fuel_max as i128 == full && 0 <= self.fuel_cur && self.fuel_cur <= self.fuel_max
    }

    /// A drive with a full reservoir of eight full-range jumps.
    pub fn new(fuel_per_ly: i32, max_range: i32) -> (drive: JumpDrive)
        requires
            0 <= fuel_per_ly * max_range * 8 <= i32::MAX,
        ensures
            drive.wf(),
            drive.fuel_per_ly == fuel_per_ly,
            drive.max_range == max_range,
            drive.fuel_max == fuel_per_ly * max_range * 8,
            drive.fuel_cur == drive.fuel_max,
    {
        assert(0 <= fuel_per_ly * max_range <= i32::MAX) by (nonlinear_arith)
            requires
                0 <= fuel_per_ly * max_range * 8 <= i32::MAX,
        ;
        let fuel: i32 = fuel_per_ly * max_range * 8;
        JumpDrive { fuel_per_ly, max_range, fuel_max: fuel, fuel_cur: fuel }
    }

    /// Attempts the jump from `from` to `to`. It is refused beyond
    /// `max_range`, then for want of fuel; otherwise its fuel leaves the
    /// reservoir.
    pub fn jump(&mut self, from: &Position, to: &Position) -> (res: JumpRes)
        requires
            old(self).wf(),
        ensures
            final(self).wf(),
            *final(self) == old(self).after_jump(*from, *to),
            res.success == old(self).can_jump(*from, *to),
            res.success ==> {
                &&& res.distance == from.dist(*to)
                &&& res.fuel_used == old(self).cost(*from, *to)
                &&& final(self).fuel_cur == old(self).fuel_cur - res.fuel_used
            },
            !res.success ==> res.distance == 0 && res.fuel_used == 0,
            res.message@ == old(self).jump_message(*from, *to),
    {
        let mut res = JumpRes::new();
        let distance: i32 = from.distance(to);
        if distance > self.max_range {
            let mut message = String::from_str("Jump failed: distance ");
            push_decimal(&mut message, distance);
            message.append(" exceeds max range ");
            push_decimal(&mut message, self.max_range);
            res.message = message;
            return res;
        }
        proof {
            self.lemma_cost_in_range(distance as int);
        }
        let fuel_needed: i32 = self.calc_fuel(distance);
        if fuel_needed > self.fuel_cur {
            let mut message = String::from_str("Jump failed: not enough fuel (need ");
            push_decimal(&mut message, fuel_needed);
            message.append(", have ");
            push_decimal(&mut message, self.fuel_cur);
            message.append(")");
            res.message = message;
            return res;
        }
        self.consume(fuel_needed);
        let mut message = String::from_str("Jump successful: traveled ");
        push_decimal(&mut message, distance);
        message.append(" light years, consumed ");
        push_decimal(&mut message, fuel_needed);
        message.append(" fuel");
        res.message = message;
        res.success = true;
        res.distance = distance;
        res.fuel_used = fuel_needed;
        res
    }

    /// The fuel that a full reservoir would still take.
    pub fn refuel_amt(&self) -> (amount: i32)
        requires
            self.wf(),
        ensures
            amount == self.fuel_max - self.fuel_cur,
            0 <= amount,
    {
        self.fuel_max - self.fuel_cur
    }

    /// Adds `amount` to the fuel; what would exceed `fuel_max` is lost, and
    /// the fuel never goes below nothing.
    pub fn refuel(&mut self, amount: i32)
        requires
            old(self).wf(),
        ensures
            final(self).wf(),
            *final(self) == old(self).after_refuel(amount as int),
            final(self).fuel_cur == if old(self).fuel_cur + amount > old(self).fuel_max {
                old(self).fuel_max as int
            } else if old(self).fuel_cur + amount < 0 {
                0
            } else {
                old(self).fuel_cur + amount
            },
            final(self).fuel_per_ly == old(self).fuel_per_ly,
            final(self).max_range == old(self).max_range,
            final(self).fuel_max == old(self).fuel_max,
    {
        let sum: i64 = self.fuel_cur as i64 + amount as i64;
        if sum > self.fuel_max as i64 {
            self.fuel_cur = self.fuel_max;
        } else if sum < 0 {
            self.fuel_cur = 0;
        } else {
            self.fuel_cur = sum as i32;
        }
    }

    /// The fuel that a jump over `distance` takes.
    pub fn calc_fuel(&self, distance: i32) -> (fuel: i32)
        requires
            i32::MIN <= self.fuel_for(distance as int) <= i32::MAX,
        ensures
            fuel == self.fuel_for(distance as int),
    {
        distance * self.fuel_per_ly
    }

    /// The fuel gauge as text: the fuel held, a slash, the capacity, and the
    /// unit.
    pub fn fuel_str(&self) -> (s: String)
        ensures
            s@ == decimal(self.fuel_cur as int) + "/"@ + decimal(self.fuel_max as int) + " g"@,
    {
        let mut s = String::new();
        push_decimal(&mut s, self.fuel_cur);
        s.append("/");
        push_decimal(&mut s, self.fuel_max);
        s.append(" g");
        assert(s@ =~= decimal(self.fuel_cur as int) + "/"@ + decimal(self.fuel_max as int)
            + " g"@);
        s
    }

    /// Takes `amount` out of the fuel; the fuel never goes below nothing.
    pub fn consume(&mut self, amount: i32)
        requires
            i32::MIN <= old(self).fuel_cur - amount <= i32::MAX,
        ensures
            final(self).fuel_cur == floor_zero(old(self).fuel_cur - amount),
            final(self).fuel_per_ly == old(self).fuel_per_ly,
            final(self).max_range == old(self).max_range,
            final(self).fuel_max == old(self).fuel_max,
            old(self).wf() && 0 <= amount ==> final(self).wf(),
    {
        self.fuel_cur = self.fuel_cur - amount;
        if self.fuel_cur < 0 {
            self.fuel_cur = 0;
        }
    }
}

/// Something done to a drive: an attempt to jump, or a refuelling.
pub enum DriveOp {
    Jump { from: Position, to: Position },
    Refuel { amount: i32 },
}

impl DriveOp {
    /// The drive after this is done to `drive`.
    pub open spec fn apply(self, drive: JumpDrive) -> JumpDrive {
        match self {
            DriveOp::Jump { from, to } => drive.after_jump(from, to),
            DriveOp::Refuel { amount } => drive.after_refuel(amount as int),
        }
    }
}

/// The drive after all of `ops` are done to `drive`, one after the other.
pub open spec fn after_all(drive: JumpDrive, ops: Seq<DriveOp>) -> JumpDrive
    decreases ops.len(),
{
    if ops.len() == 0 {
        drive
    } else {
        ops.last().apply(after_all(drive, ops.drop_last()))
    }
}

/// Whatever jumps and refuellings are done to a drive in order, one after
/// the other, the drive stays in order: its fuel never goes below nothing and
/// never exceeds the capacity, and rate, range and capacity stay what they
/// were.
pub proof fn lemma_fuel_stays_in_bounds(drive: JumpDrive, ops: Seq<DriveOp>)
    requires
        drive.wf(),
    ensures
        after_all(drive, ops).wf(),
        0 <= after_all(drive, ops).fuel_cur <= after_all(drive, ops).fuel_max,
        after_all(drive, ops).fuel_max == drive.fuel_max,
        after_all(drive, ops).fuel_per_ly == drive.fuel_per_ly,
        after_all(drive, ops).max_range == drive.max_range,
    decreases ops.len(),
{
    if ops.len() > 0 {
        lemma_fuel_stays_in_bounds(drive, ops.drop_last());
        let before = after_all(drive, ops.drop_last());
        match ops.last() {
            DriveOp::Jump { from, to } => {
                if before.can_jump(from, to) {
                    lemma_distance_truncates(from, to);
                    before.lemma_cost_in_range(from.dist(to));
                }
            },
            DriveOp::Refuel { amount } => {},
        }
    }
}

} // verus!
