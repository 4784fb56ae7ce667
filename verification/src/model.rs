//! The meter itself: the executable state and its operations, each tied to
//! the transition of the model that it performs.

use vstd::prelude::*;
use crate::laws::lemma_initial_state;
use crate::state::{
    count_true, tier_cost, tier_in_range, ModelState, DEFAULT_DIFFICULTY, DEFAULT_TURN_LENGTH,
    DIFFICULTY_MAX, METER_MAX, MIN_TURN_LENGTH, ORB_COUNT, TIER_COUNT, TIER_STEP,
};

verus! {

/// Why an operation was refused.
#[derive(Clone, Copy, Debug, PartialEq, Eq, Structural)]
pub enum ModelError {
    /// An orb index or a tier lies outside its domain.
    OutOfRange,
    /// A calibration was finished while none was under way.
    InvalidState,
}

/// The charge meter.
pub struct ChargeModel {
    charge: u64,
    running: bool,
    orbs: [bool; 6],
    turn_length: u64,
    difficulty: u64,
    calibrating: bool,
    calibration_start: u64,
    last_tick: u64,
}

impl View for ChargeModel {
    type V = ModelState;

    closed spec fn view(&self) -> ModelState {
        ModelState {
            charge: self.charge as nat,
            running: self.running,
            orbs: self.orbs@,
            turn_length: self.turn_length as nat,
            difficulty: self.difficulty as nat,
            calibrating: self.calibrating,
            calibration_start: self.calibration_start as nat,
            last_tick: self.last_tick as nat,
        }
    }
}

/// Number of set flags among the six.
fn count_active(orbs: &[bool; 6]) -> (n: u8)
    ensures
        n == count_true(orbs@),
        n <= ORB_COUNT,
{
    let mut n: u8 = 0;
    let mut i: usize = 0;
    while i < 6
        invariant
            i <= 6,
            n <= i,
            n == count_true(orbs@.take(i as int)),
        decreases 6 - i,
    {
        proof {
            assert(orbs@.take(i + 1).drop_last() =~= orbs@.take(i as int));
        }
        if orbs[i] {
            n = n + 1;
        }
        i = i + 1;
    }
    proof {
        assert(orbs@.take(6) =~= orbs@);
    }
    n
}

impl ChargeModel {
    #[verifier::type_invariant]
    spec fn in_limits(self) -> bool {
        &&& self.charge <= METER_MAX
        &&& self.turn_length >= MIN_TURN_LENGTH
    }

    /// A meter in its starting state: empty, paused, every orb working, the
    /// default turn length and difficulty, no calibration under way.
    pub fn new(now: u64) -> (model: ChargeModel)
        ensures
            model@ == ModelState::initial(now as nat),
            model@.active_orbs() == ORB_COUNT,
            model@.valid(),
    {
        let model = ChargeModel {
            charge: 0,
            running: false,
            orbs: [true; 6],
            turn_length: DEFAULT_TURN_LENGTH,
            difficulty: DEFAULT_DIFFICULTY,
            calibrating: false,
            calibration_start: now,
            last_tick: now,
        };
        proof {
            assert(model.orbs@ =~= Seq::new(ORB_COUNT as nat, |i: int| true));
            lemma_initial_state(now as nat);
        }
        model
    }

    /// Current charge; never above `METER_MAX`.
    pub fn charge(&self) -> (charge: u64)
        ensures
            charge == self@.charge,
            charge <= METER_MAX,
            self@.valid(),
    {
        proof {
            use_type_invariant(self);
        }
        self.charge
    }

    /// Whether charge accrues.
    pub fn running(&self) -> (running: bool)
        ensures
            running == self@.running,
    {
        self.running
    }

    /// The six orb flags, in order.
    pub fn orb_states(&self) -> (orbs: [bool; 6])
        ensures
            orbs@ == self@.orbs,
    {
        self.orbs
    }

    /// Number of working orbs.
    pub fn active_orbs(&self) -> (active: u8)
        ensures
            active == self@.active_orbs(),
            active <= ORB_COUNT,
    {
        count_active(&self.orbs)
    }

    /// The calibrated turn length; never below `MIN_TURN_LENGTH`.
    pub fn turn_length(&self) -> (turn_length: u64)
        ensures
            turn_length == self@.turn_length,
            turn_length >= MIN_TURN_LENGTH,
    {
        proof {
            use_type_invariant(self);
        }
        self.turn_length
    }

    /// Charge gained per turn with every orb working.
    pub fn difficulty(&self) -> (difficulty: u64)
        ensures
            difficulty == self@.difficulty,
    {
        self.difficulty
    }

    /// Whether a calibration is under way.
    pub fn calibrating(&self) -> (calibrating: bool)
        ensures
            calibrating == self@.calibrating,
    {
        self.calibrating
    }

    /// Advances the clock to `now` and, while running, adds the charge that
    /// accrued since the previous tick, up to the meter's limit. A `now`
    /// before the previous tick counts as no time passed.
    pub fn tick(&mut self, now: u64)
        ensures
            final(self)@ == old(self)@.tick(now as nat),
            final(self)@.last_tick == now,
            !old(self)@.running ==> final(self)@.charge == old(self)@.charge,
            old(self)@.active_orbs() == 0 ==> final(self)@.charge == old(self)@.charge,
            final(self)@.charge >= old(self)@.charge,
            final(self)@.valid(),
    {
        proof {
            use_type_invariant(&*self);
        }
        let elapsed: u64 = if now >= self.last_tick { now - self.last_tick } else { 0 };
        let active: u8 = count_active(&self.orbs);
        self.last_tick = now;
        if self.running && active > 0 {
            let shares: u8 = 6 - active + 1;
            assert(elapsed as u128 * self.difficulty as u128 <= 0xffff_ffff_ffff_ffff_u128
                * 0xffff_ffff_ffff_ffff_u128) by (nonlinear_arith)
                requires
                    elapsed as u128 <= 0xffff_ffff_ffff_ffff_u128,
                    self.difficulty as u128 <= 0xffff_ffff_ffff_ffff_u128,
            ;
            assert(0 < self.turn_length as u128 * shares as u128 <= 0xffff_ffff_ffff_ffff_u128 * 6)
                by (nonlinear_arith)
                requires
                    0 < self.turn_length as u128 <= 0xffff_ffff_ffff_ffff_u128,
                    0 < shares as u128 <= 6,
            ;
            let scaled: u128 = elapsed as u128 * self.difficulty as u128;
            let divisor: u128 = self.turn_length as u128 * shares as u128;
            let gain: u128 = scaled / divisor;
            let room: u64 = METER_MAX - self.charge;
            if gain >= room as u128 {
                self.charge = METER_MAX;
            } else {
                self.charge = self.charge + gain as u64;
            }
        }
    }

    /// Switches accrual on or off; the charge is left as it is.
    pub fn set_running(&mut self, value: bool)
        ensures
            final(self)@ == old(self)@.set_running(value),
            final(self)@.valid(),
    {
        proof {
            use_type_invariant(&*self);
        }
        self.running = value;
    }

    /// Empties the charge.
    pub fn reset_charge(&mut self)
        ensures
            final(self)@ == old(self)@.reset_charge(),
            final(self)@.valid(),
    {
        proof {
            use_type_invariant(&*self);
        }
        self.charge = 0;
    }

    /// Flips orb `index`. An index that names no orb is refused with
    /// `OutOfRange`, and nothing changes.
    pub fn toggle_orb(&mut self, index: usize) -> (result: Result<(), ModelError>)
        ensures
            match result {
                Ok(_) => index < ORB_COUNT,
                Err(e) => {
                    &&& index >= ORB_COUNT
                    &&& e == ModelError::OutOfRange
                    &&& final(self)@ == old(self)@
                },
            },
            final(self)@ == old(self)@.toggle_orb(index as nat),
            final(self)@.valid(),
    {
        proof {
            use_type_invariant(&*self);
        }
        if index < 6 {
            let flipped: bool = !self.orbs[index];
            self.orbs[index] = flipped;
            Ok(())
        } else {
            Err(ModelError::OutOfRange)
        }
    }

    /// Begins a calibration at time `now`. While one is under way this does
    /// nothing, so the time it began is kept.
    pub fn start_calibration(&mut self, now: u64)
        ensures
            final(self)@ == old(self)@.start_calibration(now as nat),
            final(self)@.valid(),
    {
        proof {
            use_type_invariant(&*self);
        }
        if !self.calibrating {
            self.calibration_start = now;
            self.calibrating = true;
        }
    }

    /// Ends the calibration at time `now`: the time since it began, raised to
    /// `MIN_TURN_LENGTH` where it is shorter, becomes the turn length and is
    /// returned. With no calibration under way this is refused with
    /// `InvalidState`, and nothing changes.
    pub fn finish_calibration(&mut self, now: u64) -> (result: Result<u64, ModelError>)
        ensures
            match result {
                Ok(measured) => {
                    &&& old(self)@.calibrating
                    &&& measured == old(self)@.measured_turn(now as nat)
                    &&& final(self)@.turn_length == measured
                    &&& !final(self)@.calibrating
                },
                Err(e) => {
                    &&& !old(self)@.calibrating
                    &&& e == ModelError::InvalidState
                    &&& final(self)@ == old(self)@
                },
            },
            final(self)@ == old(self)@.finish_calibration(now as nat),
            final(self)@.valid(),
    {
        proof {
            use_type_invariant(&*self);
        }
        if !self.calibrating {
            return Err(ModelError::InvalidState);
        }
        let elapsed: u64 = if now >= self.calibration_start {
            now - self.calibration_start
        } else {
            0
        };
        let measured: u64 = if elapsed < MIN_TURN_LENGTH { MIN_TURN_LENGTH } else { elapsed };
        self.turn_length = measured;
        self.calibrating = false;
        Ok(measured)
    }

    /// Cost of spending at `tier`, or `OutOfRange` when there is no such tier.
    pub fn cost(tier: u8) -> (result: Result<u64, ModelError>)
        ensures
            match result {
                Ok(cost) => tier_in_range(tier as nat) && cost == tier_cost(tier as nat),
                Err(e) => !tier_in_range(tier as nat) && e == ModelError::OutOfRange,
            },
    {
        if tier < 1 || tier > TIER_COUNT {
            Err(ModelError::OutOfRange)
        } else {
            Ok(tier as u64 * TIER_STEP)
        }
    }

    /// Whether a spend at `tier` would succeed now: whether the charge is at
    /// least the tier's cost. A tier outside 1 to 6 is refused with
    /// `OutOfRange`.
    pub fn can_afford(&self, tier: u8) -> (result: Result<bool, ModelError>)
        ensures
            match result {
                Ok(affordable) => {
                    &&& tier_in_range(tier as nat)
                    &&& affordable == (self@.charge >= tier_cost(tier as nat))
                    &&& affordable == self@.can_afford(tier as nat)
                },
                Err(e) => !tier_in_range(tier as nat) && e == ModelError::OutOfRange,
            },
    {
        match Self::cost(tier) {
            Ok(cost) => Ok(self.charge >= cost),
            Err(e) => Err(e),
        }
    }

    /// Spends at `tier`. Where the charge is at least the tier's cost, the
    /// cost is deducted and the result is `true`; otherwise nothing changes
    /// and the result is `false`. A tier outside 1 to 6 is refused with
    /// `OutOfRange`, and nothing changes.
    pub fn spend(&mut self, tier: u8) -> (result: Result<bool, ModelError>)
        ensures
            match result {
                Ok(spent) => {
                    &&& tier_in_range(tier as nat)
                    &&& spent == (old(self)@.charge >= tier_cost(tier as nat))
                    &&& spent ==> final(self)@ == (ModelState {
                        charge: (old(self)@.charge - tier_cost(tier as nat)) as nat,
                        ..old(self)@
                    })
                    &&& !spent ==> final(self)@ == old(self)@
                },
                Err(e) => {
                    &&& !tier_in_range(tier as nat)
                    &&& e == ModelError::OutOfRange
                    &&& final(self)@ == old(self)@
                },
            },
            final(self)@ == old(self)@.spend(tier as nat),
            final(self)@.valid(),
    {
        proof {
            use_type_invariant(&*self);
        }
        match Self::cost(tier) {
            Ok(cost) => {
                if self.charge >= cost {
                    self.charge = self.charge - cost;
                    Ok(true)
                } else {
                    Ok(false)
                }
            },
            Err(e) => Err(e),
        }
    }

    /// Adds `delta` to the charge; the result is held within zero and
    /// `METER_MAX`.
    pub fn adjust_charge(&mut self, delta: i64)
        ensures
            final(self)@ == old(self)@.adjust_charge(delta as int),
            final(self)@.valid(),
    {
        proof {
            use_type_invariant(&*self);
        }
        let sum: i128 = self.charge as i128 + delta as i128;
        if sum < 0 {
            self.charge = 0;
        } else if sum > METER_MAX as i128 {
            self.charge = METER_MAX;
        } else {
            self.charge = sum as u64;
        }
    }

    /// Adds `delta` to the difficulty; the result is held within zero and
    /// `DIFFICULTY_MAX`.
    pub fn adjust_difficulty(&mut self, delta: i64)
        ensures
            final(self)@ == old(self)@.adjust_difficulty(delta as int),
            final(self)@.valid(),
    {
        proof {
            use_type_invariant(&*self);
        }
        let sum: i128 = self.difficulty as i128 + delta as i128;
        if sum < 0 {
            self.difficulty = 0;
        } else if sum > DIFFICULTY_MAX as i128 {
            self.difficulty = DIFFICULTY_MAX;
        } else {
            self.difficulty = sum as u64;
        }
    }
}

impl Default for ChargeModel {
    /// The starting state with the clock at zero.
    fn default() -> (model: ChargeModel)
        ensures
            model@ == ModelState::initial(0),
            model@.active_orbs() == ORB_COUNT,
            model@.valid(),
    {
        ChargeModel::new(0)
    }
}

} // verus!
