//! Laws of a single vehicle's journey: its maneuver is made once.

use crate::car::Car;
use crate::geometry::{Direction, Turn};
use crate::planner::{planned, survivors};
use crate::simulation::World;
use vstd::prelude::*;

verus! {

/// What a vehicle can be one tick after it was `car`: it has moved, stayed,
/// or been held by a light, and then had its turn check.
pub open spec fn succeeds(next: Car, car: Car, speed: i16) -> bool {
    ||| next == car.stepped().after_turn_check(speed)
    ||| next == car.after_turn_check(speed)
    ||| next == (Car { check_move: false, ..car }).after_turn_check(speed)
}

/// Whether `states` can be the states of one vehicle tick after tick.
pub open spec fn is_journey(states: Seq<Car>, speed: i16) -> bool {
    forall|k: int| 0 < k < states.len() ==> succeeds(#[trigger] states[k], states[k - 1], speed)
}

/// How often the heading differs from one state to the next.
pub open spec fn heading_changes(states: Seq<Car>) -> nat
    decreases states.len(),
{
    if states.len() < 2 {
        0
    } else {
        heading_changes(states.drop_last()) + if states[states.len() - 1].direction
            != states[states.len() - 2].direction {
            1nat
        } else {
            0nat
        }
    }
}

/// In a tick every vehicle that is kept takes one step of its journey, and
/// keeps its place among the others.
pub proof fn law_tick_moves_each_vehicle_one_step(
    w: World,
    now: u64,
    fallback: Direction,
    i: int,
)
    requires
        0 <= i < survivors(w.cars).len(),
    ensures
        w.ticked(now, fallback).cars.len() == survivors(w.cars).len(),
        succeeds(w.ticked(now, fallback).cars[i], survivors(w.cars)[i], w.config.speed),
{
    let signalled = w.pruned().signalled(now, fallback);
    let moved = signalled.moved();
    assert(moved.cars[i] == planned(
        signalled.cars,
        i,
        signalled.controller,
        w.config.min_following_distance,
    ));
}

/// A vehicle makes its maneuver once.
///
/// Along any journey the heading changes at most once, and not at all
/// before the maneuver is made. Once the maneuver is made the heading is
/// settled: it changes no more, however long the vehicle stands where the
/// maneuver was due. The turn a vehicle entered with stays with it.
pub proof fn law_turn_fires_once(states: Seq<Car>, speed: i16)
    requires
        is_journey(states, speed),
        states.len() > 0,
    ensures
        heading_changes(states) <= 1,
        !states.last().has_passed_control_point ==> heading_changes(states) == 0
            && states.last().direction == states[0].direction,
        states[0].has_passed_control_point ==> heading_changes(states) == 0
            && states.last().has_passed_control_point && states.last().direction
            == states[0].direction,
        states.last().turn == states[0].turn,
    decreases states.len(),
{
    if states.len() >= 2 {
        let before = states.drop_last();
        lemma_journey_so_far(states, speed);
        law_turn_fires_once(before, speed);
        let n = states.len() as int;
        assert(succeeds(states[n - 1], states[n - 2], speed));
        assert(before.last() == states[n - 2]);
        assert(before[0] == states[0]);
    }
}

/// A journey without its last state is a journey.
proof fn lemma_journey_so_far(states: Seq<Car>, speed: i16)
    requires
        is_journey(states, speed),
        states.len() > 0,
    ensures
        is_journey(states.drop_last(), speed),
{
    let before = states.drop_last();
    assert forall|k: int| 0 < k < before.len() implies succeeds(
        #[trigger] before[k],
        before[k - 1],
        speed,
    ) by {
        assert(succeeds(states[k], states[k - 1], speed));
    }
}

/// A left or right turn changes the heading exactly once.
///
/// Along a journey that begins before the maneuver and ends after it, of a
/// vehicle that does not go straight on, the heading changes once.
pub proof fn law_turn_changes_heading_exactly_once(states: Seq<Car>, speed: i16)
    requires
        is_journey(states, speed),
        states.len() > 0,
        states[0].turn != Turn::Front,
        !states[0].has_passed_control_point,
        states.last().has_passed_control_point,
    ensures
        heading_changes(states) == 1,
        states.last().direction == states[0].direction.spec_after(states[0].turn),
    decreases states.len(),
{
    let n = states.len() as int;
    assert(n >= 2);
    let before = states.drop_last();
    lemma_journey_so_far(states, speed);
    law_turn_fires_once(before, speed);
    assert(succeeds(states[n - 1], states[n - 2], speed));
    assert(before.last() == states[n - 2]);
    assert(before[0] == states[0]);
    if before.last().has_passed_control_point {
        law_turn_changes_heading_exactly_once(before, speed);
    }
}

/// The change of heading is made once: whatever the vehicle, a second
/// change leaves what the first one gave, at whatever speed it is asked
/// for, and so does every turn check after it.
pub proof fn law_heading_change_is_one_shot(car: Car, first: i16, second: i16)
    ensures
        car.redirected(first).redirected(second) == car.redirected(first),
        car.turn != Turn::Front ==> car.redirected(first).after_turn_check(second)
            == car.redirected(first),
        car.has_passed_control_point ==> car.redirected(first) == car,
        !car.has_passed_control_point && car.turn != Turn::Front ==> car.redirected(
            first,
        ).direction == car.direction.spec_after(car.turn) && car.redirected(first).direction
            != car.direction,
{
}

/// A vehicle that stands where its left or right turn is due, and has not
/// turned yet, turns: its heading becomes the one the turn leads to, which
/// differs from the one it had, and its velocity follows. A second check at
/// the same place changes nothing.
pub proof fn law_turn_fires(car: Car, speed: i16)
    requires
        car.spec_maneuver_due(),
        car.turn != Turn::Front,
    ensures
        car.after_turn_check(speed).direction == car.direction.spec_after(car.turn),
        car.after_turn_check(speed).direction != car.direction,
        car.after_turn_check(speed).cruising(speed),
        car.after_turn_check(speed).has_passed_control_point,
        car.after_turn_check(speed).x == car.x,
        car.after_turn_check(speed).y == car.y,
        car.after_turn_check(speed).after_turn_check(speed) == car.after_turn_check(speed),
{
}

/// Going straight on changes neither heading nor velocity.
pub proof fn law_straight_on(car: Car, speed: i16)
    requires
        car.turn == Turn::Front,
    ensures
        car.after_turn_check(speed).direction == car.direction,
        car.after_turn_check(speed).dx == car.dx,
        car.after_turn_check(speed).dy == car.dy,
{
}

} // verus!
