use traffic_sim::car::Car;
use traffic_sim::config::Config;
use traffic_sim::controller::IntersectionController;
use traffic_sim::demand::Demand;
use traffic_sim::geometry::{velocity_x, velocity_y, Col, Direction, Turn};
use traffic_sim::planner::{
    advance_all, at_stop_line, can_spawn, held_by_light, held_by_traffic, may_advance, obstructs,
    on_stage, retire, tails, turn_pass,
};

fn car(heading: Direction, x: i32, y: i32) -> Car {
    car_turning(heading, Turn::Front, x, y)
}

fn car_turning(heading: Direction, turn: Turn, x: i32, y: i32) -> Car {
    Car::new(heading, x, y, velocity_x(heading, 5), velocity_y(heading, 5), true, Col::Gold, turn)
}

fn lights(green: Direction) -> IntersectionController {
    IntersectionController::new(&Config::default(), green, 0).unwrap()
}

#[test]
fn empty_road_admits_everyone() {
    let cars = Vec::new();
    assert!(can_spawn(&cars, 400, 50, 0, -5));
    assert!(can_spawn(&cars, 350, 50, 0, 5));
    assert!(can_spawn(&cars, 300, 50, 5, 0));
    assert!(can_spawn(&cars, 250, 50, -5, 0));
}

#[test]
fn vehicle_near_the_entry_blocks_it() {
    // Travel to the right enters at x = -50.
    assert!(obstructs(car(Direction::East, -50, 300), 300, 50, 5, 0));
    assert!(obstructs(car(Direction::East, -1, 300), 300, 50, 5, 0));
    assert!(!obstructs(car(Direction::East, 0, 300), 300, 50, 5, 0));
    // Travel to the left enters at x = 850.
    assert!(obstructs(car(Direction::West, 850, 250), 250, 50, -5, 0));
    assert!(obstructs(car(Direction::West, 801, 250), 250, 50, -5, 0));
    assert!(!obstructs(car(Direction::West, 800, 250), 250, 50, -5, 0));
    // Travel downwards enters at y = -50.
    assert!(obstructs(car(Direction::South, 350, -50), 350, 50, 0, 5));
    assert!(obstructs(car(Direction::South, 350, -1), 350, 50, 0, 5));
    assert!(!obstructs(car(Direction::South, 350, 0), 350, 50, 0, 5));
    // Travel upwards enters at y = 650.
    assert!(obstructs(car(Direction::North, 400, 650), 400, 50, 0, -5));
    assert!(obstructs(car(Direction::North, 400, 601), 400, 50, 0, -5));
    assert!(!obstructs(car(Direction::North, 400, 600), 400, 50, 0, -5));
}

#[test]
fn vehicle_behind_the_entry_does_not_block() {
    assert!(!obstructs(car(Direction::East, -51, 300), 300, 50, 5, 0));
    assert!(!obstructs(car(Direction::West, 851, 250), 250, 50, -5, 0));
    assert!(!obstructs(car(Direction::South, 350, -51), 350, 50, 0, 5));
    assert!(!obstructs(car(Direction::North, 400, 651), 400, 50, 0, -5));
}

#[test]
fn vehicle_on_another_lane_does_not_block() {
    assert!(!obstructs(car(Direction::East, -20, 301), 300, 50, 5, 0));
    assert!(!obstructs(car(Direction::East, -20, 299), 300, 50, 5, 0));
    assert!(!obstructs(car(Direction::West, -20, 250), 300, 50, 5, 0));
    assert!(!obstructs(car(Direction::North, 401, 620), 400, 50, 0, -5));
    // The heading of the vehicle in the way does not matter, its place does.
    assert!(obstructs(car(Direction::South, -20, 300), 300, 50, 5, 0));
}

#[test]
fn velocity_along_no_axis_meets_no_obstacle() {
    assert!(!obstructs(car(Direction::East, -20, 300), 300, 50, 5, 5));
    assert!(!obstructs(car(Direction::East, -20, 300), 300, 50, 0, 0));
    assert!(!obstructs(car(Direction::North, 300, -20), 300, 50, 0, 0));
    assert!(!obstructs(car(Direction::North, 300, 620), 300, 50, 0, 0));
}

#[test]
fn clearance_is_measured_with_the_given_distance() {
    assert!(obstructs(car(Direction::East, 49, 300), 300, 100, 5, 0));
    assert!(!obstructs(car(Direction::East, 50, 300), 300, 100, 5, 0));
    assert!(!obstructs(car(Direction::East, -50, 300), 300, 0, 5, 0));
    assert!(!obstructs(car(Direction::East, -50, 300), 300, -50, 5, 0));
    assert!(obstructs(car(Direction::East, i32::MAX - 51, 300), 300, i32::MAX, 5, 0));
    assert!(!obstructs(car(Direction::East, i32::MAX - 50, 300), 300, i32::MAX, 5, 0));
    assert!(!obstructs(car(Direction::East, i32::MAX, 300), 300, i32::MAX, 5, 0));
    assert!(!obstructs(car(Direction::West, i32::MIN, 250), 250, i32::MAX, -5, 0));
    assert!(!obstructs(car(Direction::West, 0, i32::MAX), i32::MIN, 50, -5, 0));
}

#[test]
fn can_spawn_scans_every_vehicle() {
    let cars = vec![
        car(Direction::North, 400, 300),
        car(Direction::East, 200, 300),
        car(Direction::East, -20, 300),
    ];
    assert!(!can_spawn(&cars, 300, 50, 5, 0));
    assert!(can_spawn(&cars, 250, 50, -5, 0));
    assert!(can_spawn(&cars, 400, 50, 0, -5));
    let cars = vec![car(Direction::North, 400, 300), car(Direction::East, 200, 300)];
    assert!(can_spawn(&cars, 300, 50, 5, 0));
}

#[test]
fn stop_line_is_met_on_it() {
    assert!(at_stop_line(car(Direction::North, 400, 350)));
    assert!(!at_stop_line(car(Direction::North, 400, 355)));
    assert!(!at_stop_line(car(Direction::North, 400, 345)));
    assert!(at_stop_line(car(Direction::South, 350, 200)));
    assert!(!at_stop_line(car(Direction::South, 350, 195)));
    assert!(!at_stop_line(car(Direction::South, 350, 205)));
    assert!(at_stop_line(car(Direction::East, 300, 300)));
    assert!(!at_stop_line(car(Direction::East, 295, 300)));
    assert!(!at_stop_line(car(Direction::East, 310, 300)));
    assert!(at_stop_line(car(Direction::West, 450, 250)));
    assert!(!at_stop_line(car(Direction::West, 455, 250)));
    assert!(!at_stop_line(car(Direction::West, 350, 450)));
}

#[test]
fn stop_line_is_met_less_than_a_step_before_it() {
    for short in 1..5 {
        assert!(at_stop_line(car(Direction::North, 400, 350 + short)));
        assert!(at_stop_line(car(Direction::South, 350, 200 - short)));
        assert!(at_stop_line(car(Direction::East, 300 - short, 300)));
        assert!(at_stop_line(car(Direction::West, 450 + short, 250)));
        assert!(!at_stop_line(car(Direction::North, 400, 350 - short)));
        assert!(!at_stop_line(car(Direction::South, 350, 200 + short)));
        assert!(!at_stop_line(car(Direction::East, 300 + short, 300)));
        assert!(!at_stop_line(car(Direction::West, 450 - short, 250)));
    }
    // A vehicle that stands still is met only on the line itself.
    let mut still = car(Direction::North, 400, 351);
    still.dy = 0;
    assert!(!at_stop_line(still));
    still.y = 350;
    assert!(at_stop_line(still));
    // The widest coordinates do not trip the check.
    let mut far = car(Direction::North, 400, i32::MAX);
    far.dy = i32::MIN;
    assert!(at_stop_line(far));
    far.y = i32::MIN;
    assert!(!at_stop_line(far));
}

#[test]
fn red_light_holds_only_at_the_stop_line() {
    // The east light is green: it governs traffic heading west.
    let c = lights(Direction::East);
    assert!(held_by_light(car(Direction::North, 400, 350), c));
    assert!(!held_by_light(car(Direction::North, 400, 355), c));
    assert!(!held_by_light(car(Direction::North, 400, 345), c));
    assert!(held_by_light(car(Direction::South, 350, 200), c));
    assert!(held_by_light(car(Direction::East, 300, 300), c));
    assert!(!held_by_light(car(Direction::West, 450, 250), c));
    let c = lights(Direction::South);
    assert!(!held_by_light(car(Direction::North, 400, 350), c));
    assert!(held_by_light(car(Direction::West, 450, 250), c));
}

#[test]
fn tailing_needs_same_heading_and_a_short_positive_lead() {
    let me = car(Direction::North, 400, 500);
    assert!(tails(me, car(Direction::North, 400, 411), 90));
    assert!(!tails(me, car(Direction::North, 400, 410), 90));
    assert!(tails(me, car(Direction::North, 400, 499), 90));
    assert!(!tails(me, car(Direction::North, 400, 500), 90));
    assert!(!tails(me, car(Direction::North, 400, 501), 90));
    assert!(!tails(me, car(Direction::South, 400, 450), 90));
    assert!(tails(me, car(Direction::North, 400, 410), 100));
    let me = car(Direction::South, 350, 100);
    assert!(tails(me, car(Direction::South, 350, 189), 90));
    assert!(!tails(me, car(Direction::South, 350, 190), 90));
    assert!(!tails(me, car(Direction::South, 350, 50), 90));
    let me = car(Direction::East, 100, 300);
    assert!(tails(me, car(Direction::East, 189, 300), 90));
    assert!(!tails(me, car(Direction::East, 190, 300), 90));
    assert!(!tails(me, car(Direction::East, 11, 300), 90));
    let me = car(Direction::West, 500, 250);
    assert!(tails(me, car(Direction::West, 411, 250), 90));
    assert!(!tails(me, car(Direction::West, 410, 250), 90));
    assert!(!tails(me, car(Direction::West, 589, 250), 90));
}

#[test]
fn tailing_copes_with_the_widest_coordinates() {
    let me = car(Direction::East, i32::MIN, 300);
    assert!(!tails(me, car(Direction::East, i32::MAX, 300), i32::MAX));
    assert!(tails(me, car(Direction::East, i32::MIN + 1, 300), i32::MAX));
    let me = car(Direction::West, i32::MAX, 250);
    assert!(!tails(me, car(Direction::West, i32::MIN, 250), i32::MAX));
}

#[test]
fn traffic_check_skips_the_vehicle_itself() {
    let cars = vec![car(Direction::North, 400, 500)];
    assert!(!held_by_traffic(&cars, 0, 90));
    let cars = vec![car(Direction::North, 400, 500), car(Direction::North, 400, 450)];
    assert!(held_by_traffic(&cars, 0, 90));
    assert!(!held_by_traffic(&cars, 1, 90));
    // Two vehicles on the same spot do not hold each other.
    let cars = vec![car(Direction::North, 400, 500), car(Direction::North, 400, 500)];
    assert!(!held_by_traffic(&cars, 0, 90));
    assert!(!held_by_traffic(&cars, 1, 90));
}

#[test]
fn may_advance_needs_both_clearances() {
    let c = lights(Direction::East);
    let cars = vec![
        car(Direction::North, 400, 350),
        car(Direction::North, 400, 400),
        car(Direction::North, 400, 500),
        car(Direction::West, 450, 250),
    ];
    assert!(!may_advance(&cars, 0, &c, 90));
    assert!(!may_advance(&cars, 1, &c, 90));
    assert!(may_advance(&cars, 2, &c, 90));
    assert!(may_advance(&cars, 3, &c, 90));
}

#[test]
fn motion_is_decided_on_the_vehicles_as_they_stand() {
    let c = lights(Direction::South);
    // The follower is exactly at the following distance: it may move, and it
    // does so whether it comes before or after its leader in the collection.
    let mut cars = vec![car(Direction::North, 400, 590), car(Direction::North, 400, 500)];
    advance_all(&mut cars, &c, 90);
    assert_eq!((cars[0].y, cars[1].y), (585, 495));
    let mut cars = vec![car(Direction::North, 400, 500), car(Direction::North, 400, 590)];
    advance_all(&mut cars, &c, 90);
    assert_eq!((cars[0].y, cars[1].y), (495, 585));
    // One unit closer and it waits, again in either order.
    let mut cars = vec![car(Direction::North, 400, 589), car(Direction::North, 400, 500)];
    advance_all(&mut cars, &c, 90);
    assert_eq!((cars[0].y, cars[1].y), (589, 495));
    let mut cars = vec![car(Direction::North, 400, 500), car(Direction::North, 400, 589)];
    advance_all(&mut cars, &c, 90);
    assert_eq!((cars[0].y, cars[1].y), (495, 589));
}

#[test]
fn motion_marks_what_a_light_holds() {
    let c = lights(Direction::East);
    let mut waiting = car(Direction::North, 400, 400);
    waiting.check_move = false;
    let mut cars = vec![car(Direction::North, 400, 350), waiting, car(Direction::West, 500, 250)];
    advance_all(&mut cars, &c, 90);
    // Held by the light: stays, and is marked.
    assert_eq!((cars[0].x, cars[0].y), (400, 350));
    assert!(!cars[0].check_move);
    // Held by traffic only: stays as it is.
    assert_eq!((cars[1].x, cars[1].y), (400, 400));
    assert!(!cars[1].check_move);
    // Cleared: moves, and is marked as moving.
    assert_eq!((cars[2].x, cars[2].y), (495, 250));
    assert!(cars[2].check_move);
    assert_eq!(cars.len(), 3);
}

#[test]
fn gap_after_motion_is_never_below_minimum_less_one_step() {
    let c = lights(Direction::East);
    for lead in 1..200 {
        let mut cars =
            vec![car(Direction::North, 400, 350 + lead), car(Direction::North, 400, 350)];
        advance_all(&mut cars, &c, 90);
        let after = cars[0].y - cars[1].y;
        assert!(after >= std::cmp::min(lead, 85));
        assert_eq!(cars[1].y, 350);
        assert_eq!(cars[0].y, if lead < 90 { 350 + lead } else { 345 + lead });
    }
}

#[test]
fn vehicles_leave_at_the_margin() {
    assert!(on_stage(car(Direction::West, -99, 250)));
    assert!(!on_stage(car(Direction::West, -100, 250)));
    assert!(on_stage(car(Direction::East, 899, 300)));
    assert!(!on_stage(car(Direction::East, 900, 300)));
    assert!(on_stage(car(Direction::North, 400, -99)));
    assert!(!on_stage(car(Direction::North, 400, -100)));
    assert!(on_stage(car(Direction::South, 350, 699)));
    assert!(!on_stage(car(Direction::South, 350, 700)));
}

#[test]
fn retire_keeps_exactly_the_vehicles_in_view_in_order() {
    let a = car(Direction::West, -99, 250);
    let b = car(Direction::West, -100, 250);
    let c = car(Direction::East, 900, 300);
    let d = car(Direction::North, 400, 0);
    let e = car(Direction::South, 350, 700);
    let f = car(Direction::South, 350, 699);
    let mut cars = vec![a, b, c, d, e, f];
    retire(&mut cars);
    assert_eq!(cars, vec![a, d, f]);
    retire(&mut cars);
    assert_eq!(cars, vec![a, d, f]);
    let mut none: Vec<Car> = Vec::new();
    retire(&mut none);
    assert!(none.is_empty());
    let mut all_gone = vec![b, c, e];
    retire(&mut all_gone);
    assert!(all_gone.is_empty());
}

#[test]
fn turn_pass_turns_and_settles_the_demand() {
    let mut cars = vec![
        car_turning(Direction::North, Turn::Left, 400, 250),
        car_turning(Direction::North, Turn::Right, 400, 300),
        car_turning(Direction::North, Turn::Left, 400, 300),
        car_turning(Direction::East, Turn::Front, 450, 300),
        car_turning(Direction::West, Turn::Right, 400, 250),
        car_turning(Direction::South, Turn::Front, 350, 100),
    ];
    let before = cars.clone();
    let mut demand = Demand { north: 1, south: 4, east: 3, west: 0 };
    turn_pass(&mut cars, &mut demand, 5);
    assert_eq!(cars.len(), 6);
    assert_eq!(cars[0].direction, Direction::West);
    assert_eq!((cars[0].dx, cars[0].dy), (-5, 0));
    assert_eq!(cars[1].direction, Direction::East);
    assert_eq!((cars[1].dx, cars[1].dy), (5, 0));
    assert_eq!(cars[2], before[2]);
    assert_eq!(cars[3].direction, Direction::East);
    assert!(cars[3].has_passed_control_point);
    assert_eq!(cars[4].direction, Direction::North);
    assert_eq!((cars[4].dx, cars[4].dy), (0, -5));
    assert_eq!(cars[5], before[5]);
    for (now, then) in cars.iter().zip(before.iter()) {
        assert_eq!((now.x, now.y), (then.x, then.y));
    }
    // Two northbound vehicles were due but only one was counted; the count
    // stops at zero. One eastbound and one westbound were due.
    assert_eq!(demand, Demand { north: 0, south: 4, east: 2, west: 0 });
    // A second pass fires nothing.
    let turned = cars.clone();
    turn_pass(&mut cars, &mut demand, 5);
    assert_eq!(cars, turned);
    assert_eq!(demand, Demand { north: 0, south: 4, east: 2, west: 0 });
}
