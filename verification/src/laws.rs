//! Laws of the meter, proved over the model.

use vstd::prelude::*;
use vstd::arithmetic::div_mod::lemma_div_is_ordered_by_denominator;
use crate::event::{next_state, outcome, run, Event, Outcome};
use crate::model::ModelError;
use crate::state::{
    accrual, count_true, elapsed_between, tier_cost, tier_in_range, ModelState, METER_MAX,
    MIN_TURN_LENGTH, ORB_COUNT,
};

verus! {

/// Every flag of a sequence of set flags is counted.
proof fn lemma_count_all_set(flags: Seq<bool>)
    requires
        forall|i: int| 0 <= i < flags.len() ==> flags[i],
    ensures
        count_true(flags) == flags.len(),
    decreases flags.len(),
{
    if flags.len() > 0 {
        lemma_count_all_set(flags.drop_last());
    }
}

/// The starting state is valid and has all six orbs working.
pub proof fn lemma_initial_state(now: nat)
    ensures
        ModelState::initial(now).valid(),
        ModelState::initial(now).active_orbs() == ORB_COUNT,
{
    lemma_count_all_set(ModelState::initial(now).orbs);
}

/// No event leads out of the valid states: whatever arrives, the charge stays
/// within zero and `METER_MAX`, there are still six orbs, and the turn length
/// stays at or above `MIN_TURN_LENGTH`.
pub proof fn lemma_event_keeps_valid(state: ModelState, event: Event)
    requires
        state.valid(),
    ensures
        next_state(state, event).valid(),
        0 <= next_state(state, event).charge <= METER_MAX,
{
}

/// A sequence of events leads from a valid state to a valid state.
proof fn lemma_run_keeps_valid(state: ModelState, events: Seq<Event>)
    requires
        state.valid(),
    ensures
        run(state, events).valid(),
    decreases events.len(),
{
    if events.len() > 0 {
        lemma_run_keeps_valid(state, events.drop_last());
        lemma_event_keeps_valid(run(state, events.drop_last()), events.last());
    }
}

/// The charge never leaves the meter: over any sequence of events, and so
/// over any sequence of ticks, spends and adjustments, the charge lies within
/// zero and `METER_MAX` at the end and after every event on the way.
pub proof fn lemma_charge_stays_in_range(state: ModelState, events: Seq<Event>)
    requires
        state.valid(),
    ensures
        run(state, events).valid(),
        forall|seen: int|
            0 <= seen <= events.len() ==> 0 <= (#[trigger] run(state, events.take(seen))).charge
                <= METER_MAX,
{
    lemma_run_keeps_valid(state, events);
    assert forall|seen: int| 0 <= seen <= events.len() implies 0 <= (#[trigger] run(
        state,
        events.take(seen),
    )).charge <= METER_MAX by {
        lemma_run_keeps_valid(state, events.take(seen));
    }
}

/// A spend is all or nothing: a spend at a tier goes through exactly
/// when the charge is at least the tier's cost. Then the charge falls by
/// exactly that cost; otherwise the state is untouched. Nothing but the
/// charge ever changes.
pub proof fn lemma_spend_all_or_nothing(state: ModelState, tier: u8)
    requires
        state.valid(),
        tier_in_range(tier as nat),
    ensures
        outcome(state, Event::Spend(tier)) == Ok::<Outcome, ModelError>(Outcome::Spent)
            <==> state.charge >= tier_cost(tier as nat),
        outcome(state, Event::Spend(tier)) == Ok::<Outcome, ModelError>(Outcome::Declined)
            <==> state.charge < tier_cost(tier as nat),
        state.charge >= tier_cost(tier as nat) ==> state.spend(tier as nat).charge
            == state.charge - tier_cost(tier as nat),
        state.charge < tier_cost(tier as nat) ==> state.spend(tier as nat) == state,
        state.spend(tier as nat) == (ModelState {
            charge: state.spend(tier as nat).charge,
            ..state
        }),
{
}

/// Broken orbs slow the meter: with the elapsed time, the turn length and the
/// difficulty held fixed, fewer working orbs never gain more charge. So all
/// six working gain the most, and none working gains nothing.
pub proof fn lemma_fewer_orbs_gain_no_more(
    elapsed: nat,
    turn_length: nat,
    difficulty: nat,
    fewer: nat,
    more: nat,
)
    requires
        turn_length > 0,
        fewer <= more <= ORB_COUNT,
    ensures
        accrual(elapsed, turn_length, difficulty, fewer) <= accrual(
            elapsed,
            turn_length,
            difficulty,
            more,
        ),
        accrual(elapsed, turn_length, difficulty, more) <= accrual(
            elapsed,
            turn_length,
            difficulty,
            ORB_COUNT as nat,
        ),
        accrual(elapsed, turn_length, difficulty, 0) == 0,
{
    lemma_gain_ordered(elapsed, turn_length, difficulty, fewer, more);
    lemma_gain_ordered(elapsed, turn_length, difficulty, more, ORB_COUNT as nat);
}

/// One step of the comparison above.
proof fn lemma_gain_ordered(
    elapsed: nat,
    turn_length: nat,
    difficulty: nat,
    fewer: nat,
    more: nat,
)
    requires
        turn_length > 0,
        fewer <= more <= ORB_COUNT,
    ensures
        accrual(elapsed, turn_length, difficulty, fewer) <= accrual(
            elapsed,
            turn_length,
            difficulty,
            more,
        ),
{
    let scaled = (elapsed * difficulty) as int;
    let wide = turn_length * (ORB_COUNT - fewer + 1);
    let narrow = turn_length * (ORB_COUNT - more + 1);
    assert(1 <= narrow <= wide) by (nonlinear_arith)
        requires
            turn_length >= 1,
            1 <= ORB_COUNT - more + 1 <= ORB_COUNT - fewer + 1,
            wide == turn_length * (ORB_COUNT - fewer + 1),
            narrow == turn_length * (ORB_COUNT - more + 1),
    ;
    lemma_div_is_ordered_by_denominator(scaled, narrow, wide);
    assert(scaled / narrow >= 0) by (nonlinear_arith)
        requires
            scaled >= 0,
            narrow >= 1,
    ;
    assert(scaled / wide >= 0) by (nonlinear_arith)
        requires
            scaled >= 0,
            wide >= 1,
    ;
}

/// No more flags are set than there are flags.
proof fn lemma_count_bounded(flags: Seq<bool>)
    ensures
        count_true(flags) <= flags.len(),
    decreases flags.len(),
{
    if flags.len() > 0 {
        lemma_count_bounded(flags.drop_last());
    }
}

/// The same between states: of two meters that differ at most in
/// which orbs work, the one with fewer working orbs gains no more charge from
/// a tick at the same time.
pub proof fn lemma_breaking_orbs_never_speeds_up(state: ModelState, other: ModelState, now: nat)
    requires
        state.valid(),
        other == (ModelState { orbs: other.orbs, ..state }),
        other.orbs.len() == ORB_COUNT,
        other.active_orbs() <= state.active_orbs(),
    ensures
        other.tick_gain(now) <= state.tick_gain(now),
        other.tick(now).charge <= state.tick(now).charge,
{
    lemma_count_bounded(state.orbs);
    if state.running {
        lemma_fewer_orbs_gain_no_more(
            elapsed_between(state.last_tick, now),
            state.turn_length,
            state.difficulty,
            other.active_orbs(),
            state.active_orbs(),
        );
    }
}

/// With no orb working a tick adds nothing, whether the meter runs or not.
pub proof fn lemma_no_orbs_no_gain(state: ModelState, now: nat)
    requires
        state.valid(),
        state.active_orbs() == 0,
    ensures
        state.tick_gain(now) == 0,
        state.tick(now).charge == state.charge,
{
}

/// While the meter is paused, any number of ticks, at any
/// times, leaves the charge as it was, and the meter paused.
pub proof fn lemma_paused_ticks_keep_charge(state: ModelState, ticks: Seq<Event>)
    requires
        state.valid(),
        !state.running,
        forall|i: int| 0 <= i < ticks.len() ==> ticks[i] is Tick,
    ensures
        run(state, ticks).charge == state.charge,
        !run(state, ticks).running,
    decreases ticks.len(),
{
    if ticks.len() > 0 {
        lemma_paused_ticks_keep_charge(state, ticks.drop_last());
        assert(ticks.last() is Tick);
    }
}

/// A calibration begun at `begin` and ended at a
/// later `end` sets the turn length to the time between the two, raised to
/// `MIN_TURN_LENGTH` where it is shorter, reports that turn length, and
/// leaves no calibration under way.
pub proof fn lemma_calibration_round_trip(state: ModelState, begin: u64, end: u64)
    requires
        state.valid(),
        !state.calibrating,
        end > begin,
    ensures
        ({
            let started = next_state(state, Event::StartCalibration(begin));
            let finished = next_state(started, Event::FinishCalibration(end));
            let measured: u64 = if end - begin < MIN_TURN_LENGTH {
                MIN_TURN_LENGTH
            } else {
                (end - begin) as u64
            };
            &&& started.calibrating
            &&& finished.turn_length == measured
            &&& !finished.calibrating
            &&& outcome(started, Event::FinishCalibration(end)) == Ok::<Outcome, ModelError>(
                Outcome::Calibrated(measured),
            )
            &&& finished == (ModelState {
                turn_length: finished.turn_length,
                calibration_start: begin as nat,
                ..state
            })
        }),
{
}

/// Ending a calibration that was never begun is refused as an invalid state
/// and changes nothing, the turn length included.
pub proof fn lemma_finish_without_start_refused(state: ModelState, end: u64)
    requires
        !state.calibrating,
    ensures
        outcome(state, Event::FinishCalibration(end)) == Err::<Outcome, ModelError>(
            ModelError::InvalidState,
        ),
        next_state(state, Event::FinishCalibration(end)) == state,
{
}

} // verus!
