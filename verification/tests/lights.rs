use traffic_sim::config::{Config, ConfigError};
use traffic_sim::controller::{elapsed, IntersectionController, Phase};
use traffic_sim::demand::Demand;
use traffic_sim::geometry::Direction;
use traffic_sim::light::TrafficLight;

const LABELS: [Direction; 4] =
    [Direction::North, Direction::South, Direction::East, Direction::West];

fn greens(c: &IntersectionController) -> usize {
    LABELS.iter().filter(|l| c.light(**l).is_green()).count()
}

fn controller(initial: Direction) -> IntersectionController {
    IntersectionController::new(&Config::default(), initial, 0).unwrap()
}

#[test]
fn light_update_turns_green() {
    let mut light = TrafficLight::new(Direction::North, 310, 200, false);
    assert_eq!(light.direction, Direction::North);
    assert_eq!((light.x, light.y), (310, 200));
    assert!(!light.is_green());
    light.update();
    assert!(light.is_green());
    light.update();
    assert!(light.is_green());
    light.force_red();
    assert!(!light.is_green());
    light.force_red();
    assert!(!light.is_green());
    light.set_green(true);
    assert!(light.green);
    light.set_green(false);
    assert!(!light.green);
}

#[test]
fn default_config_is_valid() {
    let config = Config::default();
    assert_eq!(config.speed, 5);
    assert_eq!(config.green_hold_duration, 1000);
    assert_eq!(config.all_red_duration, 500);
    assert_eq!(config.min_following_distance, 90);
    assert_eq!(config.min_spawn_clearance, 50);
    assert_eq!(config.validate(), Ok(()));
}

#[test]
fn config_with_non_positive_speed_is_rejected() {
    let mut config = Config::default();
    config.speed = 0;
    assert_eq!(config.validate(), Err(ConfigError::NonPositiveSpeed));
    config.speed = -5;
    assert_eq!(config.validate(), Err(ConfigError::NonPositiveSpeed));
    config.green_hold_duration = 0;
    assert_eq!(config.validate(), Err(ConfigError::NonPositiveSpeed));
}

#[test]
fn config_with_non_positive_green_hold_is_rejected() {
    let mut config = Config::default();
    config.green_hold_duration = 0;
    assert_eq!(config.validate(), Err(ConfigError::NonPositiveGreenHold));
    config.green_hold_duration = -1;
    config.all_red_duration = -1;
    assert_eq!(config.validate(), Err(ConfigError::NonPositiveGreenHold));
}

#[test]
fn config_with_non_positive_all_red_is_rejected() {
    let mut config = Config::default();
    config.all_red_duration = 0;
    assert_eq!(config.validate(), Err(ConfigError::NonPositiveAllRed));
    config.all_red_duration = i64::MIN;
    assert_eq!(config.validate(), Err(ConfigError::NonPositiveAllRed));
}

#[test]
fn controller_is_not_built_from_a_bad_config() {
    let mut config = Config::default();
    config.all_red_duration = 0;
    assert_eq!(
        IntersectionController::new(&config, Direction::North, 0).err(),
        Some(ConfigError::NonPositiveAllRed)
    );
    config.speed = 0;
    assert_eq!(
        IntersectionController::new(&config, Direction::North, 0).err(),
        Some(ConfigError::NonPositiveSpeed)
    );
}

#[test]
fn controller_starts_with_the_chosen_light_green() {
    for initial in LABELS {
        let c = IntersectionController::new(&Config::default(), initial, 42).unwrap();
        assert!(c.is_wf());
        assert_eq!(c.phase, Phase::GreenHold);
        assert_eq!(c.since, 42);
        assert_eq!(c.green_hold_duration, 1000);
        assert_eq!(c.all_red_duration, 500);
        assert_eq!(c.demand, Demand::empty());
        for label in LABELS {
            let light = c.light(label);
            assert_eq!(light.direction, label);
            assert_eq!(light.green, label == initial);
            assert_eq!(c.green_for(label.opposite()), label == initial);
        }
        assert_eq!((c.north.x, c.north.y), (310, 200));
        assert_eq!((c.south.x, c.south.y), (450, 350));
        assert_eq!((c.east.x, c.east.y), (450, 200));
        assert_eq!((c.west.x, c.west.y), (310, 350));
    }
}

#[test]
fn elapsed_ignores_a_clock_that_ran_backwards() {
    assert_eq!(elapsed(100, 350), 250);
    assert_eq!(elapsed(100, 100), 0);
    assert_eq!(elapsed(100, 99), 0);
    assert_eq!(elapsed(0, u64::MAX), u64::MAX);
}

#[test]
fn demand_counts_arrivals_and_departures() {
    let mut d = Demand::empty();
    d.record_arrival(Direction::East);
    d.record_arrival(Direction::East);
    d.record_arrival(Direction::North);
    assert_eq!(d.count(Direction::East), 2);
    assert_eq!(d.count(Direction::North), 1);
    assert_eq!(d.count(Direction::South), 0);
    assert_eq!(d.count(Direction::West), 0);
    d.record_departure(Direction::East);
    assert_eq!(d.count(Direction::East), 1);
    d.record_departure(Direction::South);
    assert_eq!(d.count(Direction::South), 0);
    assert_eq!(d, Demand { north: 1, south: 0, east: 1, west: 0 });
}

#[test]
fn demand_stops_at_its_bounds() {
    let mut d = Demand { north: u64::MAX, south: 0, east: 0, west: 0 };
    d.record_arrival(Direction::North);
    assert_eq!(d.north, u64::MAX);
    d.record_departure(Direction::South);
    assert_eq!(d.south, 0);
}

#[test]
fn leader_needs_strictly_more_than_every_other() {
    let d = Demand { north: 3, south: 2, east: 2, west: 0 };
    assert!(d.leads(Direction::North));
    assert!(!d.leads(Direction::South));
    assert_eq!(d.leader(), Some(Direction::North));
    let d = Demand { north: 3, south: 3, east: 2, west: 0 };
    assert!(!d.leads(Direction::North));
    assert_eq!(d.leader(), None);
    assert_eq!(Demand::empty().leader(), None);
    assert_eq!(Demand { north: 0, south: 0, east: 0, west: 1 }.leader(), Some(Direction::West));
    assert_eq!(Demand { north: 0, south: 0, east: 7, west: 1 }.leader(), Some(Direction::East));
    assert_eq!(Demand { north: 0, south: 9, east: 7, west: 1 }.leader(), Some(Direction::South));
}

#[test]
fn next_green_governs_the_leading_heading_or_falls_back() {
    let d = Demand { north: 3, south: 2, east: 2, west: 0 };
    assert_eq!(d.next_green(Direction::East), Direction::South);
    let d = Demand { north: 0, south: 2, east: 0, west: 0 };
    assert_eq!(d.next_green(Direction::East), Direction::North);
    let d = Demand { north: 0, south: 2, east: 5, west: 0 };
    assert_eq!(d.next_green(Direction::East), Direction::West);
    let d = Demand { north: 0, south: 2, east: 5, west: 6 };
    assert_eq!(d.next_green(Direction::North), Direction::East);
    let d = Demand { north: 2, south: 2, east: 0, west: 0 };
    for fallback in LABELS {
        assert_eq!(d.next_green(fallback), fallback);
    }
}

#[test]
fn green_hold_lasts_its_duration() {
    let mut c = controller(Direction::East);
    let start = c;
    c.advance_with(0, Direction::North);
    assert_eq!(c, start);
    c.advance_with(999, Direction::North);
    assert_eq!(c, start);
    assert!(!c.due(999));
    assert!(c.due(1000));
    c.advance_with(1000, Direction::North);
    assert_eq!(c.phase, Phase::AllRed);
    assert_eq!(c.since, 1000);
    assert_eq!(greens(&c), 0);
    assert!(c.is_wf());
}

#[test]
fn all_red_dwell_ends_with_one_light_green() {
    let mut c = controller(Direction::East);
    c.advance_with(1000, Direction::North);
    let dark = c;
    c.advance_with(1499, Direction::West);
    assert_eq!(c, dark);
    c.advance_with(1500, Direction::West);
    assert_eq!(c.phase, Phase::GreenHold);
    assert_eq!(c.since, 1500);
    assert_eq!(greens(&c), 1);
    assert!(c.west.green);
    assert!(c.green_for(Direction::East));
    assert!(c.is_wf());
    // The next hold is measured from the moment the light turned green.
    c.advance_with(2499, Direction::North);
    assert_eq!(c.phase, Phase::GreenHold);
    c.advance_with(2500, Direction::North);
    assert_eq!(c.phase, Phase::AllRed);
    assert_eq!(greens(&c), 0);
}

#[test]
fn demand_decides_before_the_fallback() {
    let mut c = controller(Direction::East);
    c.demand.record_arrival(Direction::South);
    c.advance_with(1000, Direction::West);
    assert!(!c.undecided(1500));
    c.advance_with(1500, Direction::West);
    assert!(c.north.green);
    assert!(c.green_for(Direction::South));
    assert_eq!(greens(&c), 1);
    assert_eq!(c.demand.count(Direction::South), 1);
}

#[test]
fn second_look_at_the_same_reading_changes_nothing() {
    let mut c = controller(Direction::East);
    c.advance_with(1000, Direction::West);
    let once = c;
    c.advance_with(1000, Direction::West);
    assert_eq!(c, once);
    c.advance_with(1600, Direction::West);
    let once = c;
    c.advance_with(1600, Direction::South);
    assert_eq!(c, once);
}

#[test]
fn a_clock_running_backwards_stalls_the_cycle() {
    let mut c = IntersectionController::new(&Config::default(), Direction::North, 5000).unwrap();
    let start = c;
    c.advance_with(0, Direction::North);
    assert_eq!(c, start);
    c.advance_with(5999, Direction::North);
    assert_eq!(c, start);
    c.advance_with(6000, Direction::North);
    assert_eq!(c.phase, Phase::AllRed);
}

#[test]
fn at_most_one_light_is_green_over_many_looks() {
    let mut c = controller(Direction::North);
    let mut now = 0;
    let mut saw_green = 0;
    let mut saw_dark = 0;
    for k in 0..2000u64 {
        now += 37 + (k % 5) * 101;
        if k % 7 == 0 {
            c.demand.record_arrival(Direction::from_index((k % 4) as usize));
        }
        if k % 11 == 0 {
            c.demand.record_departure(Direction::from_index((k % 3) as usize));
        }
        c.advance(now);
        assert!(greens(&c) <= 1);
        assert!(c.is_wf());
        match c.phase {
            Phase::AllRed => {
                assert_eq!(greens(&c), 0);
                saw_dark += 1;
            }
            Phase::GreenHold => {
                assert_eq!(greens(&c), 1);
                saw_green += 1;
            }
        }
    }
    assert!(saw_green > 0 && saw_dark > 0);
}

#[test]
fn undecided_only_when_the_dwell_is_over_and_nobody_leads() {
    let mut c = controller(Direction::North);
    assert!(!c.undecided(5000));
    c.advance_with(1000, Direction::North);
    assert!(!c.undecided(1499));
    assert!(c.undecided(1500));
    c.demand.record_arrival(Direction::West);
    assert!(!c.undecided(1500));
    c.demand.record_arrival(Direction::East);
    assert!(c.undecided(1500));
}

#[test]
fn fallback_is_not_drawn_when_it_plays_no_part() {
    let c = controller(Direction::East);
    for now in [0, 999, 1000, 5000] {
        assert_eq!(c.draw_fallback(now), Direction::North);
    }
}

#[test]
fn drawn_fallbacks_vary() {
    let mut c = controller(Direction::East);
    c.advance_with(1000, Direction::North);
    assert!(c.undecided(1500));
    let mut seen = [false; 4];
    for _ in 0..256 {
        seen[c.draw_fallback(1500).index()] = true;
    }
    assert!(seen.iter().filter(|s| **s).count() >= 2);
}

#[test]
fn advance_picks_some_light_when_nobody_leads() {
    for _ in 0..50 {
        let mut c = controller(Direction::East);
        c.advance(1000);
        assert_eq!(c.phase, Phase::AllRed);
        c.advance(1500);
        assert_eq!(c.phase, Phase::GreenHold);
        assert_eq!(greens(&c), 1);
        assert_eq!(c.since, 1500);
    }
}

#[test]
fn is_wf_spots_a_second_green_light() {
    let mut c = controller(Direction::East);
    assert!(c.is_wf());
    c.north.green = true;
    assert!(!c.is_wf());
    c.east.green = false;
    assert!(c.is_wf());
    c.phase = Phase::AllRed;
    assert!(!c.is_wf());
    c.north.green = false;
    assert!(c.is_wf());
    c.west.x += 1;
    assert!(!c.is_wf());
    c.west.x -= 1;
    c.south.direction = Direction::North;
    assert!(!c.is_wf());
    c.south.direction = Direction::South;
    c.all_red_duration = 0;
    assert!(!c.is_wf());
}
