//! Who may enter, and who may advance.
//!
//! Every decision of a tick is taken on the vehicles as they stand when the
//! tick's motion begins, each vehicle for itself; only then do the cleared
//! vehicles move.

use crate::car::Car;
use crate::controller::IntersectionController;
use crate::counting::lemma_filter_push;
use crate::demand::Demand;
use crate::geometry::{
    along, distance_to, in_view, spec_along, spec_in_view, spec_stop_line, stop_line, Direction,
    LANE_TOLERANCE, LANE_WIDTH, WINDOW_HEIGHT, WINDOW_WIDTH,
};
use vstd::prelude::*;

verus! {

/// How far `(x, y)` is ahead of the point where a vehicle with velocity
/// `(dir_x, dir_y)` along one axis enters, measured along its travel. The
/// entry point lies one lane width outside the window: left of it for travel
/// to the right, right of it for travel to the left, above it for travel
/// downwards, below it for travel upwards.
pub open spec fn ahead_of_entry(x: i32, y: i32, dir_x: i32, dir_y: i32) -> int {
    if dir_y == 0 {
        if dir_x > 0 {
            x + LANE_WIDTH
        } else {
            WINDOW_WIDTH + LANE_WIDTH - x
        }
    } else {
        if dir_y > 0 {
            y + LANE_WIDTH
        } else {
            WINDOW_HEIGHT + LANE_WIDTH - y
        }
    }
}

/// Whether `car` keeps a vehicle from entering on the lane at `lane_pos`
/// with velocity `(dir_x, dir_y)`.
///
/// It does when it stands on that lane, within the lane tolerance, at the
/// entry point or ahead of it by less than `min_distance`. A velocity along
/// neither axis, or none at all, meets no obstacle.
pub open spec fn spec_obstructs(
    car: Car,
    lane_pos: i32,
    min_distance: i32,
    dir_x: i32,
    dir_y: i32,
) -> bool {
    if dir_y == 0 {
        &&& dir_x != 0
        &&& -LANE_TOLERANCE < car.y - lane_pos < LANE_TOLERANCE
        &&& 0 <= ahead_of_entry(car.x, car.y, dir_x, dir_y) < min_distance
    } else if dir_x == 0 {
        &&& -LANE_TOLERANCE < car.x - lane_pos < LANE_TOLERANCE
        &&& 0 <= ahead_of_entry(car.x, car.y, dir_x, dir_y) < min_distance
    } else {
        false
    }
}

#[verifier::when_used_as_spec(spec_obstructs)]
pub fn obstructs(car: Car, lane_pos: i32, min_distance: i32, dir_x: i32, dir_y: i32) -> (r: bool)
    ensures
        r == spec_obstructs(car, lane_pos, min_distance, dir_x, dir_y),
{
    let tolerance: i64 = LANE_TOLERANCE as i64;
    let lane_width: i64 = LANE_WIDTH as i64;
    let x: i64 = car.x as i64;
    let y: i64 = car.y as i64;
    if dir_y == 0 {
        let off: i64 = y - lane_pos as i64;
        let ahead: i64 = if dir_x > 0 {
            x + lane_width
        } else {
            WINDOW_WIDTH as i64 + lane_width - x
        };
        dir_x != 0 && -tolerance < off && off < tolerance && 0 <= ahead && ahead
            < min_distance as i64
    } else if dir_x == 0 {
        let off: i64 = x - lane_pos as i64;
        let ahead: i64 = if dir_y > 0 {
            y + lane_width
        } else {
            WINDOW_HEIGHT as i64 + lane_width - y
        };
        -tolerance < off && off < tolerance && 0 <= ahead && ahead < min_distance as i64
    } else {
        false
    }
}

/// Whether no vehicle of `cars` obstructs the entry.
pub open spec fn spec_can_spawn(
    cars: Seq<Car>,
    lane_pos: i32,
    min_distance: i32,
    dir_x: i32,
    dir_y: i32,
) -> bool {
    forall|i: int|
        0 <= i < cars.len() ==> !spec_obstructs(
            #[trigger] cars[i],
            lane_pos,
            min_distance,
            dir_x,
            dir_y,
        )
}

/// The entry check: whether a vehicle may enter on the lane at `lane_pos` with
/// velocity `(dir_x, dir_y)`, given the vehicles already there.
pub fn can_spawn(cars: &Vec<Car>, lane_pos: i32, min_distance: i32, dir_x: i32, dir_y: i32) -> (r:
    bool)
    ensures
        r == spec_can_spawn(cars@, lane_pos, min_distance, dir_x, dir_y),
{
    let mut i: usize = 0;
    while i < cars.len()
        invariant
            i <= cars.len(),
            forall|k: int|
                0 <= k < i ==> !spec_obstructs(
                    #[trigger] cars@[k],
                    lane_pos,
                    min_distance,
                    dir_x,
                    dir_y,
                ),
        decreases cars.len() - i,
    {
        if obstructs(cars[i], lane_pos, min_distance, dir_x, dir_y) {
            return false;
        }
        i += 1;
    }
    true
}

/// How far the vehicle still has to go to the stop line of its heading;
/// negative once it is past the line.
pub open spec fn to_stop_line(car: Car) -> int {
    distance_to(
        car.direction,
        spec_along(car.direction, car.x, car.y),
        spec_stop_line(car.direction),
    )
}

/// How far one step carries the vehicle along its heading.
pub open spec fn stride(car: Car) -> int {
    match car.direction {
        Direction::North => -car.dy,
        Direction::South => car.dy as int,
        Direction::East => car.dx as int,
        Direction::West => -car.dx,
    }
}

/// Whether the vehicle has come up to the stop line of its heading: it
/// stands on the line, or before it so close that its next step would carry
/// it across.
pub open spec fn spec_at_stop_line(car: Car) -> bool {
    to_stop_line(car) == 0 || 0 < to_stop_line(car) < stride(car)
}

#[verifier::when_used_as_spec(spec_at_stop_line)]
pub fn at_stop_line(car: Car) -> (r: bool)
    ensures
        r == spec_at_stop_line(car),
{
    let at: i64 = along(car.direction, car.x, car.y) as i64;
    let line: i64 = stop_line(car.direction) as i64;
    let (left, step): (i64, i64) = match car.direction {
        Direction::North => (at - line, -(car.dy as i64)),
        Direction::South => (line - at, car.dy as i64),
        Direction::East => (line - at, car.dx as i64),
        Direction::West => (at - line, -(car.dx as i64)),
    };
    left == 0 || (0 < left && left < step)
}

/// Whether a red light holds the vehicle: it has come up to its stop line
/// and the light that governs its heading is not green.
pub open spec fn spec_held_by_light(car: Car, controller: IntersectionController) -> bool {
    spec_at_stop_line(car) && !controller.spec_green_for(car.direction)
}

#[verifier::when_used_as_spec(spec_held_by_light)]
pub fn held_by_light(car: Car, controller: IntersectionController) -> (r: bool)
    ensures
        r == spec_held_by_light(car, controller),
{
    at_stop_line(car) && !controller.green_for(car.direction)
}

/// How far `other` is ahead of `me`, measured along `heading`; negative
/// where it is behind.
pub open spec fn lead_along(heading: Direction, me: Car, other: Car) -> int {
    match heading {
        Direction::North => me.y - other.y,
        Direction::South => other.y - me.y,
        Direction::East => other.x - me.x,
        Direction::West => me.x - other.x,
    }
}

/// How far `other` is ahead of `me`, measured along the heading of `me`.
pub open spec fn lead(me: Car, other: Car) -> int {
    lead_along(me.direction, me, other)
}

/// Whether `me` runs too close behind `other`: both have the same heading,
/// `other` is strictly ahead, and by less than `min_gap`.
pub open spec fn spec_tails(me: Car, other: Car, min_gap: i32) -> bool {
    other.direction == me.direction && 0 < lead(me, other) < min_gap
}

#[verifier::when_used_as_spec(spec_tails)]
pub fn tails(me: Car, other: Car, min_gap: i32) -> (r: bool)
    ensures
        r == spec_tails(me, other, min_gap),
{
    let gap: i64 = match me.direction {
        Direction::North => me.y as i64 - other.y as i64,
        Direction::South => other.y as i64 - me.y as i64,
        Direction::East => other.x as i64 - me.x as i64,
        Direction::West => me.x as i64 - other.x as i64,
    };
    other.direction == me.direction && 0 < gap && gap < min_gap as i64
}

/// Whether the vehicle at `i` runs too close behind any other vehicle.
pub open spec fn spec_held_by_traffic(cars: Seq<Car>, i: int, min_gap: i32) -> bool {
    exists|j: int| 0 <= j < cars.len() && j != i && spec_tails(cars[i], #[trigger] cars[j], min_gap)
}

/// Looks through the vehicles for one that the vehicle at `i` tails.
pub fn held_by_traffic(cars: &Vec<Car>, i: usize, min_gap: i32) -> (r: bool)
    requires
        i < cars.len(),
    ensures
        r == spec_held_by_traffic(cars@, i as int, min_gap),
{
    let me = cars[i];
    let mut j: usize = 0;
    while j < cars.len()
        invariant
            j <= cars.len(),
            i < cars.len(),
            me == cars@[i as int],
            forall|k: int| 0 <= k < j && k != i ==> !spec_tails(me, #[trigger] cars@[k], min_gap),
        decreases cars.len() - j,
    {
        if j != i && tails(me, cars[j], min_gap) {
            return true;
        }
        j += 1;
    }
    false
}

/// Whether the vehicle at `i` may advance this tick: no red light holds it
/// and it tails nobody.
pub open spec fn spec_may_advance(
    cars: Seq<Car>,
    i: int,
    controller: IntersectionController,
    min_gap: i32,
) -> bool {
    !spec_held_by_light(cars[i], controller) && !spec_held_by_traffic(cars, i, min_gap)
}

/// Decides whether the vehicle at `i` may advance this tick.
pub fn may_advance(cars: &Vec<Car>, i: usize, controller: &IntersectionController, min_gap: i32)
    -> (r: bool)
    requires
        i < cars.len(),
    ensures
        r == spec_may_advance(cars@, i as int, *controller, min_gap),
{
    !held_by_light(cars[i], *controller) && !held_by_traffic(cars, i, min_gap)
}

/// The vehicle at `i` after this tick's motion. Held by a red light it
/// stays and is marked as not moving; held only by traffic it stays as it
/// is; cleared, it moves one step.
pub open spec fn planned(
    cars: Seq<Car>,
    i: int,
    controller: IntersectionController,
    min_gap: i32,
) -> Car {
    if spec_held_by_light(cars[i], controller) {
        Car { check_move: false, ..cars[i] }
    } else if spec_held_by_traffic(cars, i, min_gap) {
        cars[i]
    } else {
        cars[i].stepped()
    }
}

/// All vehicles after this tick's motion.
pub open spec fn advanced(cars: Seq<Car>, controller: IntersectionController, min_gap: i32) -> Seq<
    Car,
> {
    Seq::new(cars.len(), |i: int| planned(cars, i, controller, min_gap))
}

/// Whether every vehicle can take one step without leaving the machine's
/// range of coordinates.
pub open spec fn all_can_step(cars: Seq<Car>) -> bool {
    forall|i: int| 0 <= i < cars.len() ==> (#[trigger] cars[i]).can_step()
}

/// Moves every vehicle that may advance by one step.
pub fn advance_all(cars: &mut Vec<Car>, controller: &IntersectionController, min_gap: i32)
    requires
        all_can_step(old(cars)@),
    ensures
        final(cars)@ == advanced(old(cars)@, *controller, min_gap),
{
    let n = cars.len();
    let mut next: Vec<Car> = Vec::with_capacity(n);
    let mut i: usize = 0;
    while i < n
        invariant
            i <= n,
            n == cars.len(),
            cars@ == old(cars)@,
            all_can_step(cars@),
            next@.len() == i,
            forall|k: int| 0 <= k < i ==> next@[k] == planned(cars@, k, *controller, min_gap),
        decreases n - i,
    {
        let mut car = cars[i];
        if held_by_light(car, *controller) {
            car.check_move = false;
        } else if !held_by_traffic(cars, i, min_gap) {
            car.update();
        }
        next.push(car);
        i += 1;
    }
    assert(next@ =~= advanced(old(cars)@, *controller, min_gap));
    *cars = next;
}

/// Whether the vehicle is still within the view.
pub open spec fn spec_on_stage(car: Car) -> bool {
    spec_in_view(car.x, car.y)
}

#[verifier::when_used_as_spec(spec_on_stage)]
pub fn on_stage(car: Car) -> (r: bool)
    ensures
        r == spec_on_stage(car),
{
    in_view(car.x, car.y)
}

/// The vehicles that are still within the view, in their order.
pub open spec fn survivors(cars: Seq<Car>) -> Seq<Car> {
    cars.filter(|car: Car| spec_on_stage(car))
}

/// Discards every vehicle that has left the view.
pub fn retire(cars: &mut Vec<Car>)
    ensures
        final(cars)@ == survivors(old(cars)@),
{
    let n = cars.len();
    let mut kept: Vec<Car> = Vec::new();
    let mut i: usize = 0;
    assert(cars@.take(0) =~= Seq::<Car>::empty());
    while i < n
        invariant
            i <= n,
            n == cars.len(),
            cars@ == old(cars)@,
            kept@ == survivors(cars@.take(i as int)),
        decreases n - i,
    {
        let car = cars[i];
        proof {
            assert(cars@.take(i + 1) =~= cars@.take(i as int).push(car));
            lemma_filter_push(cars@.take(i as int), car, |car: Car| spec_on_stage(car));
        }
        if on_stage(car) {
            kept.push(car);
        }
        i += 1;
    }
    assert(cars@.take(n as int) =~= cars@);
    *cars = kept;
}

/// How many of the vehicles with `heading` are due to make their maneuver.
pub open spec fn due_count(cars: Seq<Car>, heading: Direction) -> nat {
    cars.filter(|car: Car| car.direction == heading && car.spec_maneuver_due()).len()
}

/// How many of the vehicles with `heading` have their maneuver still to
/// make.
pub open spec fn waiting(cars: Seq<Car>, heading: Direction) -> nat {
    cars.filter(|car: Car| car.direction == heading && !car.has_passed_control_point).len()
}

/// The demand once every vehicle of `cars` that is due has made its
/// maneuver: each heading's count is lowered by the number of its vehicles
/// that are due, and stops at zero.
pub open spec fn settled(demand: Demand, cars: Seq<Car>) -> Demand {
    demand.departed(Direction::North, due_count(cars, Direction::North)).departed(
        Direction::South,
        due_count(cars, Direction::South),
    ).departed(Direction::East, due_count(cars, Direction::East)).departed(
        Direction::West,
        due_count(cars, Direction::West),
    )
}

/// All vehicles after the turn check of one tick.
pub open spec fn turned(cars: Seq<Car>, speed: i16) -> Seq<Car> {
    Seq::new(cars.len(), |i: int| cars[i].after_turn_check(speed))
}

/// Lets every vehicle that is due make its maneuver, and takes each of them
/// off the count of the heading it came with.
pub fn turn_pass(cars: &mut Vec<Car>, demand: &mut Demand, speed: i16)
    ensures
        final(cars)@ == turned(old(cars)@, speed),
        *final(demand) == settled(*old(demand), old(cars)@),
{
    let n = cars.len();
    let mut next: Vec<Car> = Vec::with_capacity(n);
    let mut i: usize = 0;
    proof {
        assert(cars@.take(0) =~= Seq::<Car>::empty());
        assert(*demand =~= settled(*demand, Seq::<Car>::empty()));
    }
    while i < n
        invariant
            i <= n,
            n == cars.len(),
            cars@ == old(cars)@,
            next@.len() == i,
            forall|k: int| 0 <= k < i ==> next@[k] == cars@[k].after_turn_check(speed),
            *demand == settled(*old(demand), cars@.take(i as int)),
        decreases n - i,
    {
        let mut car = cars[i];
        let heading = car.direction;
        proof {
            let before = cars@.take(i as int);
            assert(cars@.take(i + 1) =~= before.push(car));
            lemma_filter_push(
                before,
                car,
                |car: Car| car.direction == Direction::North && car.spec_maneuver_due(),
            );
            lemma_filter_push(
                before,
                car,
                |car: Car| car.direction == Direction::South && car.spec_maneuver_due(),
            );
            lemma_filter_push(
                before,
                car,
                |car: Car| car.direction == Direction::East && car.spec_maneuver_due(),
            );
            lemma_filter_push(
                before,
                car,
                |car: Car| car.direction == Direction::West && car.spec_maneuver_due(),
            );
        }
        if car.turn_check(speed) {
            demand.record_departure(heading);
        }
        next.push(car);
        i += 1;
    }
    assert(cars@.take(n as int) =~= cars@);
    assert(next@ =~= turned(old(cars)@, speed));
    *cars = next;
}

} // verus!
