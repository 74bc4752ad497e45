//! Laws of a layout that the speed divides: vehicles keep to their lanes,
//! stop on their stop lines and turn on their maneuver lines.

use crate::car::Car;
use crate::geometry::{
    distance_to, spec_across, spec_along, spec_lane, spec_maneuver_line, Col, Direction, Turn,
    LANE_WIDTH,
};
use crate::laws::journey::{law_tick_moves_each_vehicle_one_step, succeeds};
use crate::laws::order::law_order_is_kept;
use crate::planner::{spec_at_stop_line, survivors, to_stop_line};
use crate::simulation::{entrant, lemma_survivors_come_from, roadworthy, Event, World};
use vstd::arithmetic::div_mod::{lemma_fundamental_div_mod, lemma_mod_multiples_basic};
use vstd::prelude::*;

verus! {

/// Whether steps of `speed` divide the layout. Every entry point, stop line
/// and maneuver line lies a whole number of lane widths from every other,
/// so a speed does when it divides the lane width.
pub open spec fn aligned(speed: i16) -> bool {
    speed > 0 && (LANE_WIDTH as int) % (speed as int) == 0
}

/// How far the vehicle still has to go to its maneuver line; negative once
/// it is past the line.
pub open spec fn to_maneuver_line(car: Car) -> int {
    distance_to(
        car.direction,
        spec_along(car.direction, car.x, car.y),
        spec_maneuver_line(car.direction, car.turn),
    )
}

/// Whether the vehicle keeps step with the layout: it is exactly on the lane
/// of its heading, a whole number of steps away from its stop line, and, as
/// long as its maneuver is to come, still before its maneuver line.
pub open spec fn in_step(car: Car, speed: i16) -> bool {
    &&& speed > 0
    &&& spec_across(car.direction, car.x, car.y) == spec_lane(car.direction)
    &&& to_stop_line(car) % (speed as int) == 0
    &&& !car.has_passed_control_point ==> to_maneuver_line(car) > 0
}

/// Whether every vehicle keeps step with the layout.
pub open spec fn all_in_step(cars: Seq<Car>, speed: i16) -> bool {
    forall|i: int| 0 <= i < cars.len() ==> in_step(#[trigger] cars[i], speed)
}

/// A step that divides the lane width divides every multiple of it.
proof fn lemma_lane_multiples(speed: int, k: int)
    requires
        speed > 0,
        50int % speed == 0,
    ensures
        (50 * k) % speed == 0,
{
    lemma_fundamental_div_mod(50, speed);
    let q = 50int / speed;
    assert(50 * k == (q * k) * speed) by (nonlinear_arith)
        requires
            50 == speed * q + 0,
    ;
    lemma_mod_multiples_basic(q * k, speed);
}

/// The sum of two multiples of a step is a multiple of it.
proof fn lemma_sum_of_multiples(a: int, b: int, speed: int)
    requires
        speed > 0,
        a % speed == 0,
        b % speed == 0,
    ensures
        (a + b) % speed == 0,
{
    lemma_fundamental_div_mod(a, speed);
    lemma_fundamental_div_mod(b, speed);
    let qa = a / speed;
    let qb = b / speed;
    assert(a + b == (qa + qb) * speed) by (nonlinear_arith)
        requires
            a == speed * qa + 0,
            b == speed * qb + 0,
    ;
    lemma_mod_multiples_basic(qa + qb, speed);
}

/// A positive multiple of a step is at least one step.
proof fn lemma_positive_multiple(a: int, speed: int)
    requires
        speed > 0,
        a % speed == 0,
        a > 0,
    ensures
        a >= speed,
{
    lemma_fundamental_div_mod(a, speed);
    let q = a / speed;
    assert(q >= 1) by (nonlinear_arith)
        requires
            speed * q > 0,
            speed > 0,
    ;
    assert(speed * q >= speed) by (nonlinear_arith)
        requires
            q >= 1,
            speed > 0,
    ;
}

/// Where the speed divides the layout, a vehicle that is a whole number of
/// steps from its stop line is a whole number of steps from its maneuver
/// line too.
proof fn lemma_maneuver_line_on_grid(car: Car, speed: i16)
    requires
        aligned(speed),
        to_stop_line(car) % (speed as int) == 0,
    ensures
        to_maneuver_line(car) % (speed as int) == 0,
{
    let s = speed as int;
    let k = (to_maneuver_line(car) - to_stop_line(car)) / 50;
    assert(to_maneuver_line(car) - to_stop_line(car) == 50 * k);
    lemma_lane_multiples(s, k);
    lemma_sum_of_multiples(to_stop_line(car), 50 * k, s);
}

/// A vehicle in step is held by a red light exactly on its stop line, and
/// nowhere else.
pub proof fn law_in_step_stops_on_the_line(car: Car, speed: i16)
    requires
        car.cruising(speed),
        in_step(car, speed),
    ensures
        spec_at_stop_line(car) <==> to_stop_line(car) == 0,
{
    if to_stop_line(car) > 0 {
        lemma_positive_multiple(to_stop_line(car), speed as int);
    }
}

/// Where the speed divides the layout, a vehicle is in step when it
/// enters.
pub proof fn law_entrant_is_in_step(heading: Direction, color: Col, turn: Turn, speed: i16)
    requires
        aligned(speed),
    ensures
        in_step(entrant(heading, color, turn, speed), speed),
        to_stop_line(entrant(heading, color, turn, speed)) > 0,
{
    let s = speed as int;
    lemma_lane_multiples(s, 5);
    lemma_lane_multiples(s, 6);
    lemma_lane_multiples(s, 7);
    lemma_lane_multiples(s, 8);
}

/// Where the speed divides the layout, a vehicle in step makes its maneuver
/// exactly on its maneuver line, and is in step afterwards: one tick of its
/// journey, whether it moves or waits, leaves it in step.
pub proof fn law_step_is_kept_by_each_vehicle(car: Car, next: Car, speed: i16)
    requires
        aligned(speed),
        car.cruising(speed),
        car.can_step(),
        in_step(car, speed),
        succeeds(next, car, speed),
    ensures
        in_step(next, speed),
        next.cruising(speed),
        next.has_passed_control_point && !car.has_passed_control_point ==> spec_along(
            car.direction,
            next.x,
            next.y,
        ) == spec_maneuver_line(car.direction, car.turn),
{
    let s = speed as int;
    lemma_maneuver_line_on_grid(car, speed);
    if to_maneuver_line(car) > 0 {
        lemma_positive_multiple(to_maneuver_line(car), s);
    }
    lemma_mod_multiples_basic(-1, s);
    assert((-1) * s == -s);
    lemma_sum_of_multiples(to_stop_line(car), -s, s);
    lemma_lane_multiples(s, -1);
    lemma_lane_multiples(s, -2);
}

/// Where the speed divides the layout, whatever happens to a simulation
/// whose vehicles are in step leaves them in step: every vehicle stays on
/// its lane, stops exactly on its stop line, and turns exactly where its
/// lane meets the lane it turns into.
pub proof fn law_step_is_kept(w: World, events: Seq<Event>)
    requires
        w.wf(),
        aligned(w.config.speed),
        all_in_step(w.cars, w.config.speed),
    ensures
        all_in_step(w.after_all(events).cars, w.config.speed),
        w.after_all(events).config == w.config,
        w.after_all(events).wf(),
    decreases events.len(),
{
    let speed = w.config.speed;
    law_order_is_kept(w, events);
    if events.len() > 0 {
        law_step_is_kept(w, events.drop_last());
        let before = w.after_all(events.drop_last());
        match events.last() {
            Event::Arrival { heading, color, turn } => {
                law_entrant_is_in_step(heading, color, turn, speed);
                let after = before.spawned(heading, color, turn);
                assert forall|i: int| 0 <= i < after.cars.len() implies in_step(
                    #[trigger] after.cars[i],
                    speed,
                ) by {
                    if i < before.cars.len() {
                        assert(in_step(before.cars[i], speed));
                    }
                }
            },
            Event::Tick { now, fallback } => {
                let kept = survivors(before.cars);
                let after = before.ticked(now, fallback);
                lemma_survivors_come_from(before.cars);
                assert forall|i: int| 0 <= i < after.cars.len() implies in_step(
                    #[trigger] after.cars[i],
                    speed,
                ) by {
                    let k = choose|k: int|
                        0 <= k < before.cars.len() && before.cars[k] == kept[i];
                    assert(in_step(before.cars[k], speed));
                    assert(roadworthy(before.cars[k], speed));
                    law_tick_moves_each_vehicle_one_step(before, now, fallback, i);
                    law_step_is_kept_by_each_vehicle(kept[i], after.cars[i], speed);
                }
            },
        }
    }
}

} // verus!
