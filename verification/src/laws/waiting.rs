//! Laws of the demand: it counts the vehicles that wait.

use crate::car::Car;
use crate::counting::{
    lemma_count_after_sifting, lemma_count_pointwise, lemma_count_split, lemma_filter_push,
};
use crate::demand::Demand;
use crate::geometry::{
    distance_to, spec_across, spec_along, spec_entry_x, spec_entry_y, spec_lane, Direction,
};
use crate::laws::order::law_order_is_kept;
use crate::laws::step::to_maneuver_line;
use crate::planner::{due_count, planned, spec_on_stage, survivors, turned, waiting};
use crate::simulation::{entrant, lemma_survivors_come_from, roadworthy, Event, World};
use vstd::prelude::*;

verus! {

/// How far the vehicle is from the entry point of its heading; negative
/// once it has set out.
pub open spec fn to_entry(car: Car) -> int {
    distance_to(
        car.direction,
        spec_along(car.direction, car.x, car.y),
        spec_along(car.direction, spec_entry_x(car.direction), spec_entry_y(car.direction)),
    )
}

/// Whether a vehicle whose maneuver is to come is on its way to it: exactly
/// on the lane of its heading, at its entry point or past it, and before its
/// maneuver line.
pub open spec fn on_approach(car: Car) -> bool {
    !car.has_passed_control_point ==> {
        &&& spec_across(car.direction, car.x, car.y) == spec_lane(car.direction)
        &&& to_entry(car) <= 0
        &&& to_maneuver_line(car) > 0
    }
}

/// Whether the demand is true to the road: every vehicle whose maneuver is
/// to come is on its way to it, and each heading's count is the number of
/// such vehicles.
pub open spec fn demand_is_true(w: World) -> bool {
    &&& forall|i: int| 0 <= i < w.cars.len() ==> on_approach(#[trigger] w.cars[i])
    &&& forall|heading: Direction| #[trigger]
        w.controller.demand.spec_count(heading) == waiting(w.cars, heading)
}

/// One event leaves a true demand true, as long as the counts have room.
proof fn lemma_demand_stays_true(w: World, event: Event)
    requires
        w.wf(),
        demand_is_true(w),
        w.cars.len() < u64::MAX,
    ensures
        demand_is_true(w.after(event)),
        w.after(event).cars.len() <= w.cars.len() + 1,
{
    let speed = w.config.speed;
    match event {
        Event::Arrival { heading, color, turn } => {
            let after = w.spawned(heading, color, turn);
            if w.admits(heading) {
                let car = entrant(heading, color, turn, speed);
                assert forall|i: int| 0 <= i < after.cars.len() implies on_approach(
                    #[trigger] after.cars[i],
                ) by {
                    if i < w.cars.len() {
                        assert(on_approach(w.cars[i]));
                    }
                }
                assert forall|h: Direction| #[trigger]
                    after.controller.demand.spec_count(h) == waiting(after.cars, h) by {
                    let pred = |car: Car| car.direction == h && !car.has_passed_control_point;
                    lemma_filter_push(w.cars, car, pred);
                    w.cars.lemma_filter_len(pred);
                    assert(w.controller.demand.spec_count(h) == waiting(w.cars, h));
                    assert(w.controller.demand.spec_count(heading) == waiting(w.cars, heading));
                }
            }
        },
        Event::Tick { now, fallback } => {
            let stage = |car: Car| spec_on_stage(car);
            let kept = survivors(w.cars);
            lemma_survivors_come_from(w.cars);
            w.cars.lemma_filter_len(stage);
            assert forall|i: int| 0 <= i < kept.len() implies on_approach(#[trigger] kept[i])
                && roadworthy(kept[i], speed) by {
                let k = choose|k: int| 0 <= k < w.cars.len() && w.cars[k] == kept[i];
                assert(on_approach(w.cars[k]));
                assert(roadworthy(w.cars[k], speed));
            }
            let signalled = w.pruned().signalled(now, fallback);
            let moved = signalled.moved();
            let after = moved.maneuvered();
            assert forall|i: int| 0 <= i < moved.cars.len() implies {
                &&& (#[trigger] moved.cars[i]).direction == kept[i].direction
                &&& moved.cars[i].turn == kept[i].turn
                &&& moved.cars[i].has_passed_control_point == kept[i].has_passed_control_point
                &&& !moved.cars[i].has_passed_control_point ==> spec_across(
                    moved.cars[i].direction,
                    moved.cars[i].x,
                    moved.cars[i].y,
                ) == spec_lane(moved.cars[i].direction) && to_entry(moved.cars[i]) <= 0
            } by {
                assert(on_approach(kept[i]));
                assert(roadworthy(kept[i], speed));
                assert(moved.cars[i] == planned(
                    signalled.cars,
                    i,
                    signalled.controller,
                    w.config.min_following_distance,
                ));
            }
            assert forall|i: int| 0 <= i < after.cars.len() implies on_approach(
                #[trigger] after.cars[i],
            ) by {
                assert(after.cars[i] == moved.cars[i].after_turn_check(speed));
                assert(moved.cars[i].direction == kept[i].direction);
            }
            assert forall|h: Direction| #[trigger]
                after.controller.demand.spec_count(h) == waiting(after.cars, h) by {
                let waits = |car: Car| car.direction == h && !car.has_passed_control_point;
                let due = |car: Car| car.direction == h && car.spec_maneuver_due();
                assert forall|i: int| 0 <= i < w.cars.len() && waits(
                    #[trigger] w.cars[i],
                ) implies stage(w.cars[i]) by {
                    assert(on_approach(w.cars[i]));
                }
                lemma_count_after_sifting(w.cars, stage, waits);
                assert(waiting(kept, h) == waiting(w.cars, h));
                assert forall|i: int| 0 <= i < kept.len() implies waits(#[trigger] kept[i])
                    == waits(moved.cars[i]) by {
                    assert(moved.cars[i].direction == kept[i].direction);
                }
                lemma_count_pointwise(kept, moved.cars, waits, waits);
                assert forall|i: int| 0 <= i < moved.cars.len() implies waits(
                    #[trigger] moved.cars[i],
                ) == (waits(after.cars[i]) || due(moved.cars[i])) by {
                    assert(after.cars[i] == moved.cars[i].after_turn_check(speed));
                }
                assert forall|i: int| 0 <= i < moved.cars.len() implies !(waits(after.cars[i])
                    && due(#[trigger] moved.cars[i])) by {
                    assert(after.cars[i] == moved.cars[i].after_turn_check(speed));
                }
                lemma_count_split(moved.cars, after.cars, waits, waits, due);
                assert(waiting(moved.cars, h) == waiting(after.cars, h) + due_count(
                    moved.cars,
                    h,
                ));
                assert(moved.controller.demand == w.controller.demand);
                assert(w.controller.demand.spec_count(h) == waiting(w.cars, h));
                assert(after.cars == turned(moved.cars, speed));
            }
        },
    }
}

/// The demand counts the vehicles that wait.
///
/// Start from a simulation whose demand is true to the road, as one
/// without vehicles is. Whatever happens, each heading's count stays the
/// number of vehicles with that heading whose maneuver is to come: an
/// arrival that is let in raises it by one, a maneuver lowers it by one, and
/// no vehicle leaves the view before its maneuver. (The counts are taken to
/// have room for every vehicle that may enter.)
pub proof fn law_demand_counts_the_waiting(w: World, events: Seq<Event>)
    requires
        w.wf(),
        demand_is_true(w),
        w.cars.len() + events.len() < u64::MAX,
    ensures
        demand_is_true(w.after_all(events)),
        w.after_all(events).cars.len() <= w.cars.len() + events.len(),
    decreases events.len(),
{
    if events.len() > 0 {
        law_demand_counts_the_waiting(w, events.drop_last());
        law_order_is_kept(w, events.drop_last());
        lemma_demand_stays_true(w.after_all(events.drop_last()), events.last());
    }
}

/// The demand of a simulation without vehicles and with all counts at zero
/// is true to the road.
pub proof fn law_empty_road_has_true_demand(w: World)
    requires
        w.cars.len() == 0,
        w.controller.demand == Demand::spec_empty(),
    ensures
        demand_is_true(w),
{
    reveal(Seq::filter);
    assert forall|heading: Direction| #[trigger]
        w.controller.demand.spec_count(heading) == waiting(w.cars, heading) by {
        assert(w.cars.filter(
            |car: Car| car.direction == heading && !car.has_passed_control_point,
        ).len() == 0);
    }
}

} // verus!
