//! Laws of the simulation as a whole: what every event keeps in order.

use crate::car::Car;
use crate::counting::{lemma_count_after_sifting, lemma_count_pointwise};
use crate::geometry::{Col, Direction, Turn};
use crate::laws::lights::law_look_keeps_lights_exclusive;
use crate::planner::{spec_on_stage, survivors};
use crate::simulation::{
    entrant, lemma_motion_keeps_roadworthy, lemma_survivors_come_from,
    lemma_turns_keep_roadworthy, roadworthy, Event, World,
};
use vstd::prelude::*;

verus! {

/// A vehicle that is turned away leaves everything as it was; one that is
/// let in is the only vehicle added, stands at the entry point of its
/// heading with that heading's velocity at the configured speed, and is
/// fit for the road.
pub proof fn law_spawn(w: World, heading: Direction, color: Col, turn: Turn)
    requires
        w.wf(),
    ensures
        !w.admits(heading) ==> w.spawned(heading, color, turn) == w,
        w.admits(heading) ==> {
            let after = w.spawned(heading, color, turn);
            &&& after.cars.len() == w.cars.len() + 1
            &&& after.cars.drop_last() == w.cars
            &&& after.cars.last() == entrant(heading, color, turn, w.config.speed)
            &&& roadworthy(after.cars.last(), w.config.speed)
        },
        w.spawned(heading, color, turn).wf(),
{
    if w.admits(heading) {
        let after = w.spawned(heading, color, turn);
        assert(after.cars.drop_last() =~= w.cars);
        assert forall|i: int| 0 <= i < after.cars.len() implies roadworthy(
            #[trigger] after.cars[i],
            after.config.speed,
        ) by {
            if i < w.cars.len() {
                assert(roadworthy(w.cars[i], w.config.speed));
            }
        }
    }
}

/// A tick leaves a simulation as it has to be; in particular at most one
/// light is green afterwards, and no vehicle is added.
pub proof fn law_tick_keeps_order(w: World, now: u64, fallback: Direction)
    requires
        w.wf(),
    ensures
        w.ticked(now, fallback).wf(),
        w.ticked(now, fallback).controller.green_count() <= 1,
        w.ticked(now, fallback).cars.len() == survivors(w.cars).len(),
        w.ticked(now, fallback).config == w.config,
{
    let pruned = w.pruned();
    lemma_survivors_come_from(w.cars);
    assert forall|i: int| 0 <= i < pruned.cars.len() implies roadworthy(
        #[trigger] pruned.cars[i],
        w.config.speed,
    ) && spec_on_stage(pruned.cars[i]) by {
        let k = choose|k: int| 0 <= k < w.cars.len() && w.cars[k] == pruned.cars[i];
        assert(roadworthy(w.cars[k], w.config.speed));
    }
    let signalled = pruned.signalled(now, fallback);
    law_look_keeps_lights_exclusive(w.controller, now, fallback);
    lemma_motion_keeps_roadworthy(signalled);
    let moved = signalled.moved();
    lemma_turns_keep_roadworthy(moved);
}

/// Whatever happens to a simulation, in whatever order, it stays as it has
/// to be: after every event at most one light is green, and every vehicle
/// is fit for the road.
pub proof fn law_order_is_kept(w: World, events: Seq<Event>)
    requires
        w.wf(),
    ensures
        w.after_all(events).wf(),
        w.after_all(events).controller.green_count() <= 1,
    decreases events.len(),
{
    if events.len() > 0 {
        law_order_is_kept(w, events.drop_last());
        let before = w.after_all(events.drop_last());
        match events.last() {
            Event::Arrival { heading, color, turn } => {
                law_spawn(before, heading, color, turn);
            },
            Event::Tick { now, fallback } => {
                law_tick_keeps_order(before, now, fallback);
            },
        }
    }
}

/// The test that a vehicle is equal to `car`.
pub open spec fn same_as(car: Car) -> spec_fn(Car) -> bool {
    |other: Car| other == car
}

/// How many of the vehicles are equal to `car`.
pub open spec fn copies(cars: Seq<Car>, car: Car) -> nat {
    cars.filter(same_as(car)).len()
}

/// A vehicle is gone after pruning if and only if it was outside the view.
///
/// The vehicles that remain are those that were there and within the view;
/// each of them remains as often as it was there, and none that was outside
/// the view remains at all.
pub proof fn law_lifecycle(cars: Seq<Car>, car: Car)
    ensures
        survivors(cars).contains(car) <==> cars.contains(car) && spec_on_stage(car),
        spec_on_stage(car) ==> copies(survivors(cars), car) == copies(cars, car),
        !spec_on_stage(car) ==> copies(survivors(cars), car) == 0,
        survivors(cars).len() <= cars.len(),
{
    let stage = |car: Car| spec_on_stage(car);
    let same = same_as(car);
    lemma_survivors_come_from(cars);
    if survivors(cars).contains(car) {
        let i = choose|i: int| 0 <= i < survivors(cars).len() && survivors(cars)[i] == car;
        assert(cars.contains(survivors(cars)[i]));
    }
    if cars.contains(car) && spec_on_stage(car) {
        let k = choose|k: int| 0 <= k < cars.len() && cars[k] == car;
        cars.lemma_filter_contains(stage, k);
    }
    cars.lemma_filter_len(stage);
    if spec_on_stage(car) {
        lemma_count_after_sifting(cars, stage, same);
    } else {
        let kept = survivors(cars);
        let never = |other: Car| false;
        assert forall|i: int| 0 <= i < kept.len() implies same(#[trigger] kept[i]) == never(
            kept[i],
        ) by {
            assert(spec_on_stage(kept[i]));
        }
        lemma_count_pointwise(kept, kept, same, never);
        kept.lemma_all_neg_filter_empty(never);
    }
}

} // verus!
