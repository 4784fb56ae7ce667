//! A charge meter for a tabletop prop: charge accrues over time at a rate set
//! by a difficulty, a calibrated turn length and six orb toggles, and is spent
//! in six fixed tiers.
//!
//! All quantities are integers. Charge and difficulty are counted in
//! millionths of a point; timestamps and durations are counted in nanoseconds.

pub mod state;
pub mod model;
pub mod event;
pub mod laws;

pub use crate::event::{Event, Outcome};
pub use crate::model::{ChargeModel, ModelError};
pub use crate::state::{
    CHARGE_UNIT, DEFAULT_DIFFICULTY, DEFAULT_TURN_LENGTH, DIFFICULTY_MAX, METER_MAX,
    MIN_TURN_LENGTH, ORB_COUNT, TIER_COUNT, TIER_STEP,
};
