//! Input events and their dispatch: what the surrounding shell hands to the
//! meter, and what the meter answers.

use vstd::prelude::*;
use crate::model::{ChargeModel, ModelError};
use crate::state::{tier_in_range, ModelState, ORB_COUNT};

verus! {

/// Something that happened outside the meter.
#[derive(Clone, Copy, Debug, PartialEq, Eq, Structural)]
pub enum Event {
    /// The clock reads the given time.
    Tick(u64),
    /// Accrual is switched on or off.
    SetRunning(bool),
    /// The charge is emptied.
    ResetCharge,
    /// The orb with the given index is flipped.
    ToggleOrb(usize),
    /// A calibration begins at the given time.
    StartCalibration(u64),
    /// The calibration ends at the given time.
    FinishCalibration(u64),
    /// A spend at the given tier is asked for.
    Spend(u8),
    /// The charge is nudged by the given amount.
    AdjustCharge(i64),
    /// The difficulty is nudged by the given amount.
    AdjustDifficulty(i64),
}

/// What the meter answers to an event it accepted.
#[derive(Clone, Copy, Debug, PartialEq, Eq, Structural)]
pub enum Outcome {
    /// The event was carried out and there is nothing to report.
    Applied,
    /// The spend went through and its cost was deducted.
    Spent,
    /// The charge did not cover the spend; nothing was deducted.
    Declined,
    /// The calibration ended with the given turn length.
    Calibrated(u64),
}

/// The state that follows `state` when `event` arrives. An event that is
/// refused leaves the state as it is.
pub open spec fn next_state(state: ModelState, event: Event) -> ModelState {
    match event {
        Event::Tick(now) => state.tick(now as nat),
        Event::SetRunning(value) => state.set_running(value),
        Event::ResetCharge => state.reset_charge(),
        Event::ToggleOrb(index) => state.toggle_orb(index as nat),
        Event::StartCalibration(now) => state.start_calibration(now as nat),
        Event::FinishCalibration(now) => state.finish_calibration(now as nat),
        Event::Spend(tier) => state.spend(tier as nat),
        Event::AdjustCharge(delta) => state.adjust_charge(delta as int),
        Event::AdjustDifficulty(delta) => state.adjust_difficulty(delta as int),
    }
}

/// The answer to `event` arriving in `state`.
pub open spec fn outcome(state: ModelState, event: Event) -> Result<Outcome, ModelError> {
    match event {
        Event::ToggleOrb(index) => if index < ORB_COUNT {
            Ok(Outcome::Applied)
        } else {
            Err(ModelError::OutOfRange)
        },
        Event::FinishCalibration(now) => if state.calibrating {
            Ok(Outcome::Calibrated(state.measured_turn(now as nat) as u64))
        } else {
            Err(ModelError::InvalidState)
        },
        Event::Spend(tier) => if !tier_in_range(tier as nat) {
            Err(ModelError::OutOfRange)
        } else if state.can_afford(tier as nat) {
            Ok(Outcome::Spent)
        } else {
            Ok(Outcome::Declined)
        },
        _ => Ok(Outcome::Applied),
    }
}

/// The state reached from `state` after `events` have arrived in order.
pub open spec fn run(state: ModelState, events: Seq<Event>) -> ModelState
    decreases events.len(),
{
    if events.len() == 0 {
        state
    } else {
        next_state(run(state, events.drop_last()), events.last())
    }
}

impl ChargeModel {
    /// Carries out the operation that `event` stands for and reports its
    /// answer. A refused event changes nothing.
    pub fn apply(&mut self, event: Event) -> (result: Result<Outcome, ModelError>)
        ensures
            final(self)@ == next_state(old(self)@, event),
            result == outcome(old(self)@, event),
            result is Err ==> final(self)@ == old(self)@,
            final(self)@.valid(),
    {
        match event {
            Event::Tick(now) => {
                self.tick(now);
                Ok(Outcome::Applied)
            },
            Event::SetRunning(value) => {
                self.set_running(value);
                Ok(Outcome::Applied)
            },
            Event::ResetCharge => {
                self.reset_charge();
                Ok(Outcome::Applied)
            },
            Event::ToggleOrb(index) => match self.toggle_orb(index) {
                Ok(()) => Ok(Outcome::Applied),
                Err(e) => Err(e),
            },
            Event::StartCalibration(now) => {
                self.start_calibration(now);
                Ok(Outcome::Applied)
            },
            Event::FinishCalibration(now) => match self.finish_calibration(now) {
                Ok(turn_length) => Ok(Outcome::Calibrated(turn_length)),
                Err(e) => Err(e),
            },
            Event::Spend(tier) => match self.spend(tier) {
                Ok(true) => Ok(Outcome::Spent),
                Ok(false) => Ok(Outcome::Declined),
                Err(e) => Err(e),
            },
            Event::AdjustCharge(delta) => {
                self.adjust_charge(delta);
                Ok(Outcome::Applied)
            },
            Event::AdjustDifficulty(delta) => {
                self.adjust_difficulty(delta);
                Ok(Outcome::Applied)
            },
        }
    }
}

} // verus!
