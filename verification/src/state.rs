//! The mathematical model of the meter: its state and the transitions between
//! states, as pure functions over unbounded integers.

use vstd::prelude::*;

verus! {

/// Number of orbs.
pub const ORB_COUNT: usize = 6;

/// Number of units of charge that make up one point.
pub const CHARGE_UNIT: u64 = 1_000_000;

/// Largest charge the meter holds: 700 points.
pub const METER_MAX: u64 = 700_000_000;

/// Charge gained per turn with every orb active, at the start: 200 points.
pub const DEFAULT_DIFFICULTY: u64 = 200_000_000;

/// Largest difficulty that can be represented.
pub const DIFFICULTY_MAX: u64 = 0xffff_ffff_ffff_ffff;

/// Turn length at the start: ten seconds, in nanoseconds.
pub const DEFAULT_TURN_LENGTH: u64 = 10_000_000_000;

/// Shortest turn length a calibration can set: ten milliseconds, in nanoseconds.
pub const MIN_TURN_LENGTH: u64 = 10_000_000;

/// Number of spending tiers; tiers are numbered from 1.
pub const TIER_COUNT: u8 = 6;

/// Cost of the first tier, and the step between tiers: 100 points.
pub const TIER_STEP: u64 = 100_000_000;

/// How many of the flags are set.
pub open spec fn count_true(flags: Seq<bool>) -> nat
    decreases flags.len(),
{
    if flags.len() == 0 {
        0
    } else {
        count_true(flags.drop_last()) + if flags.last() { 1nat } else { 0nat }
    }
}

/// Time that passed from `earlier` to `later`; zero when `later` lies before
/// `earlier`.
pub open spec fn elapsed_between(earlier: nat, later: nat) -> nat {
    if later >= earlier {
        (later - earlier) as nat
    } else {
        0
    }
}

/// `value` brought into the range from `low` to `high`.
pub open spec fn clamp(value: int, low: int, high: int) -> int {
    if value < low {
        low
    } else if value > high {
        high
    } else {
        value
    }
}

/// Charge gained over `elapsed` time with `active` orbs working: the
/// difficulty, scaled by the share of a turn that has passed and divided by
/// one more than the number of broken orbs, rounded down. With no orb working
/// nothing is gained.
pub open spec fn accrual(elapsed: nat, turn_length: nat, difficulty: nat, active: nat) -> nat
    recommends
        turn_length > 0,
        active <= ORB_COUNT,
{
    if active == 0 {
        0
    } else {
        ((elapsed * difficulty) as int / (turn_length * (ORB_COUNT - active + 1))) as nat
    }
}

/// Whether `tier` names one of the spending tiers.
pub open spec fn tier_in_range(tier: nat) -> bool {
    1 <= tier <= TIER_COUNT
}

/// Cost of spending at `tier`.
pub open spec fn tier_cost(tier: nat) -> nat {
    tier * (TIER_STEP as nat)
}

/// Everything the meter remembers.
pub struct ModelState {
    /// Current charge.
    pub charge: nat,
    /// Whether charge accrues.
    pub running: bool,
    /// One flag per orb; set means the orb works.
    pub orbs: Seq<bool>,
    /// Time over which `difficulty` accrues with every orb working.
    pub turn_length: nat,
    /// Charge gained per turn with every orb working.
    pub difficulty: nat,
    /// Whether a calibration is under way.
    pub calibrating: bool,
    /// When the calibration under way began.
    pub calibration_start: nat,
    /// Time of the latest tick.
    pub last_tick: nat,
}

impl ModelState {
    /// The state the meter starts in at time `now`.
    pub open spec fn initial(now: nat) -> ModelState {
        ModelState {
            charge: 0,
            running: false,
            orbs: Seq::new(ORB_COUNT as nat, |i: int| true),
            turn_length: DEFAULT_TURN_LENGTH as nat,
            difficulty: DEFAULT_DIFFICULTY as nat,
            calibrating: false,
            calibration_start: now,
            last_tick: now,
        }
    }

    /// What every reachable state satisfies.
    pub open spec fn valid(self) -> bool {
        &&& self.charge <= METER_MAX
        &&& self.orbs.len() == ORB_COUNT
        &&& self.turn_length >= MIN_TURN_LENGTH
        &&& self.difficulty <= DIFFICULTY_MAX
    }

    /// Number of working orbs.
    pub open spec fn active_orbs(self) -> nat {
        count_true(self.orbs)
    }

    /// Charge that a tick at time `now` would add, before the meter's limit
    /// is applied.
    pub open spec fn tick_gain(self, now: nat) -> nat {
        if self.running {
            accrual(
                elapsed_between(self.last_tick, now),
                self.turn_length,
                self.difficulty,
                self.active_orbs(),
            )
        } else {
            0
        }
    }

    /// The state after a tick at time `now`.
    pub open spec fn tick(self, now: nat) -> ModelState {
        ModelState {
            charge: clamp((self.charge + self.tick_gain(now)) as int, 0, METER_MAX as int) as nat,
            last_tick: now,
            ..self
        }
    }

    /// The state after accrual is switched on or off.
    pub open spec fn set_running(self, value: bool) -> ModelState {
        ModelState { running: value, ..self }
    }

    /// The state after the charge is emptied.
    pub open spec fn reset_charge(self) -> ModelState {
        ModelState { charge: 0, ..self }
    }

    /// The state after orb `index` is flipped; unchanged when there is no
    /// such orb.
    pub open spec fn toggle_orb(self, index: nat) -> ModelState {
        if index < self.orbs.len() {
            ModelState { orbs: self.orbs.update(index as int, !self.orbs[index as int]), ..self }
        } else {
            self
        }
    }

    /// The state after a calibration is asked to start at time `now`;
    /// unchanged when one is already under way.
    pub open spec fn start_calibration(self, now: nat) -> ModelState {
        if self.calibrating {
            self
        } else {
            ModelState { calibrating: true, calibration_start: now, ..self }
        }
    }

    /// The turn length that finishing the calibration at time `now` measures:
    /// the time since it began, but no less than the shortest turn length.
    pub open spec fn measured_turn(self, now: nat) -> nat {
        let elapsed = elapsed_between(self.calibration_start, now);
        if elapsed < MIN_TURN_LENGTH {
            MIN_TURN_LENGTH as nat
        } else {
            elapsed
        }
    }

    /// The state after a calibration is asked to finish at time `now`;
    /// unchanged when none is under way.
    pub open spec fn finish_calibration(self, now: nat) -> ModelState {
        if self.calibrating {
            ModelState { calibrating: false, turn_length: self.measured_turn(now), ..self }
        } else {
            self
        }
    }

    /// Whether the charge covers the cost of `tier`.
    pub open spec fn can_afford(self, tier: nat) -> bool {
        tier_in_range(tier) && self.charge >= tier_cost(tier)
    }

    /// The state after a spend at `tier` is asked for: the cost is deducted
    /// when the charge covers it, and nothing changes otherwise.
    pub open spec fn spend(self, tier: nat) -> ModelState {
        if self.can_afford(tier) {
            ModelState { charge: (self.charge - tier_cost(tier)) as nat, ..self }
        } else {
            self
        }
    }

    /// The state after `delta` is added to the charge, within the meter's
    /// limits.
    pub open spec fn adjust_charge(self, delta: int) -> ModelState {
        ModelState { charge: clamp(self.charge + delta, 0, METER_MAX as int) as nat, ..self }
    }

    /// The state after `delta` is added to the difficulty, which never falls
    /// below zero nor rises above what can be represented.
    pub open spec fn adjust_difficulty(self, delta: int) -> ModelState {
        ModelState {
            difficulty: clamp(self.difficulty + delta, 0, DIFFICULTY_MAX as int) as nat,
            ..self
        }
    }
}

} // verus!
