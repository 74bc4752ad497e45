//! Laws of motion: following distance and red lights.

use crate::car::Car;
use crate::controller::IntersectionController;
use crate::geometry::Direction;
use crate::planner::{
    advanced, lead, lead_along, planned, spec_held_by_traffic, spec_tails, stride, survivors,
    to_stop_line,
};
use crate::simulation::{lemma_survivors_come_from, roadworthy, World};
use vstd::prelude::*;

verus! {

/// Motion never closes a gap below one step short of the following
/// distance.
///
/// Take two vehicles with the same heading, both travelling at `speed`, the
/// second strictly ahead of the first. After the tick's motion the second
/// leads the first by at least the smaller of the lead it had and
/// `min_gap - speed`.
pub proof fn law_following_distance(
    cars: Seq<Car>,
    controller: IntersectionController,
    min_gap: i32,
    speed: i16,
    i: int,
    j: int,
)
    requires
        0 <= i < cars.len(),
        0 <= j < cars.len(),
        speed > 0,
        cars[i].cruising(speed),
        cars[j].cruising(speed),
        cars[i].can_step(),
        cars[j].can_step(),
        cars[i].direction == cars[j].direction,
        lead(cars[i], cars[j]) > 0,
    ensures
        advanced(cars, controller, min_gap)[i].direction == advanced(
            cars,
            controller,
            min_gap,
        )[j].direction,
        lead(cars[i], cars[j]) >= min_gap - speed ==> lead(
            advanced(cars, controller, min_gap)[i],
            advanced(cars, controller, min_gap)[j],
        ) >= min_gap - speed,
        lead(cars[i], cars[j]) < min_gap - speed ==> lead(
            advanced(cars, controller, min_gap)[i],
            advanced(cars, controller, min_gap)[j],
        ) >= lead(cars[i], cars[j]),
{
    let after = advanced(cars, controller, min_gap);
    assert(after[i] == planned(cars, i, controller, min_gap));
    assert(after[j] == planned(cars, j, controller, min_gap));
    if lead(cars[i], cars[j]) < min_gap {
        assert(spec_tails(cars[i], cars[j], min_gap));
        assert(spec_held_by_traffic(cars, i, min_gap));
    }
}

/// A tick never closes a gap below one step short of the following
/// distance.
///
/// Take two vehicles that a tick keeps, with the same heading, the second
/// strictly ahead of the first. Measured along that heading, after the tick
/// the second leads the first by at least the smaller of the lead it had and
/// the following distance less one step.
pub proof fn law_tick_keeps_following_distance(
    w: World,
    now: u64,
    fallback: Direction,
    i: int,
    j: int,
)
    requires
        w.wf(),
        0 <= i < survivors(w.cars).len(),
        0 <= j < survivors(w.cars).len(),
        survivors(w.cars)[i].direction == survivors(w.cars)[j].direction,
        lead(survivors(w.cars)[i], survivors(w.cars)[j]) > 0,
    ensures
        ({
            let before = survivors(w.cars);
            let after = w.ticked(now, fallback).cars;
            let floor = w.config.min_following_distance - w.config.speed;
            let had = lead(before[i], before[j]);
            let has = lead_along(before[i].direction, after[i], after[j]);
            &&& after.len() == before.len()
            &&& had >= floor ==> has >= floor
            &&& had < floor ==> has >= had
        }),
{
    let before = survivors(w.cars);
    let speed = w.config.speed;
    lemma_survivors_come_from(w.cars);
    let ki = choose|k: int| 0 <= k < w.cars.len() && w.cars[k] == before[i];
    let kj = choose|k: int| 0 <= k < w.cars.len() && w.cars[k] == before[j];
    assert(roadworthy(w.cars[ki], speed));
    assert(roadworthy(w.cars[kj], speed));
    let signalled = w.pruned().signalled(now, fallback);
    law_following_distance(
        signalled.cars,
        signalled.controller,
        w.config.min_following_distance,
        speed,
        i,
        j,
    );
}

/// While a vehicle tails another it does not move at all.
pub proof fn law_tailing_vehicle_waits(
    cars: Seq<Car>,
    controller: IntersectionController,
    min_gap: i32,
    i: int,
    j: int,
)
    requires
        0 <= i < cars.len(),
        0 <= j < cars.len(),
        i != j,
        spec_tails(cars[i], cars[j], min_gap),
    ensures
        advanced(cars, controller, min_gap)[i].x == cars[i].x,
        advanced(cars, controller, min_gap)[i].y == cars[i].y,
{
    assert(spec_held_by_traffic(cars, i, min_gap));
}

/// No vehicle runs a red light.
///
/// A vehicle that has not passed its stop line, and whose light is not
/// green, has not passed the line after the tick's motion either.
pub proof fn law_red_light_is_obeyed(
    cars: Seq<Car>,
    controller: IntersectionController,
    min_gap: i32,
    i: int,
)
    requires
        0 <= i < cars.len(),
        cars[i].can_step(),
        to_stop_line(cars[i]) >= 0,
        !controller.spec_green_for(cars[i].direction),
    ensures
        to_stop_line(advanced(cars, controller, min_gap)[i]) >= 0,
{
    assert(advanced(cars, controller, min_gap)[i] == planned(cars, i, controller, min_gap));
}

/// A green light holds nobody, and neither does a line that is still a
/// step or more away, or already passed.
pub proof fn law_light_holds_only_at_the_line(
    cars: Seq<Car>,
    controller: IntersectionController,
    min_gap: i32,
    i: int,
)
    requires
        0 <= i < cars.len(),
        controller.spec_green_for(cars[i].direction) || to_stop_line(cars[i]) < 0 || (
        to_stop_line(cars[i]) > 0 && to_stop_line(cars[i]) >= stride(cars[i])),
        !spec_held_by_traffic(cars, i, min_gap),
    ensures
        advanced(cars, controller, min_gap)[i] == cars[i].stepped(),
{
}

} // verus!
