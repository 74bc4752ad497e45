//! The simulation: its vehicles, its lights, and the tick that moves both.

use crate::car::Car;
use crate::chance::random_index;
use crate::config::{Config, ConfigError};
use crate::controller::IntersectionController;
use crate::geometry::{
    entry_x, entry_y, lane, spec_entry_x, spec_entry_y, spec_lane, spec_style, spec_velocity_x,
    spec_velocity_y, style, velocity_x, velocity_y, Col, Direction, Turn, STYLES, VIEW_MARGIN,
    WINDOW_HEIGHT, WINDOW_WIDTH,
};
use crate::planner::{
    advance_all, advanced, all_can_step, can_spawn, retire, settled, spec_can_spawn,
    spec_on_stage, survivors, turn_pass, turned,
};
use vstd::prelude::*;

verus! {

/// A running simulation.
#[derive(Debug)]
pub struct Simulation {
    pub config: Config,
    pub controller: IntersectionController,
    pub cars: Vec<Car>,
}

/// What a simulation is, as a value: its configuration, its controller and
/// its vehicles in the order they entered.
pub struct World {
    pub config: Config,
    pub controller: IntersectionController,
    pub cars: Seq<Car>,
}

impl View for Simulation {
    type V = World;

    open spec fn view(&self) -> World {
        World { config: self.config, controller: self.controller, cars: self.cars@ }
    }
}

/// Something that happens to a simulation.
#[derive(Clone, Copy, Debug, PartialEq, Eq, Structural)]
pub enum Event {
    /// A vehicle asks to enter.
    Arrival { heading: Direction, color: Col, turn: Turn },
    /// A tick at clock reading `now`; `fallback` labels the light to turn
    /// green where the demand names none.
    Tick { now: u64, fallback: Direction },
}

/// The vehicle that enters with `heading`: at the entry point of that
/// heading, with its velocity at `speed`, its maneuver still to make.
pub open spec fn entrant(heading: Direction, color: Col, turn: Turn, speed: i16) -> Car {
    Car {
        direction: heading,
        x: spec_entry_x(heading),
        y: spec_entry_y(heading),
        dx: spec_velocity_x(heading, speed),
        dy: spec_velocity_y(heading, speed),
        check_move: true,
        color,
        turn,
        has_passed_control_point: false,
    }
}

/// Whether the vehicle is no further outside the view than one step takes
/// it.
pub open spec fn near_view(car: Car, speed: i16) -> bool {
    &&& -VIEW_MARGIN - speed < car.x < WINDOW_WIDTH + VIEW_MARGIN + speed
    &&& -VIEW_MARGIN - speed < car.y < WINDOW_HEIGHT + VIEW_MARGIN + speed
}

/// What holds of every vehicle of a simulation: it travels at the
/// configured speed along its heading, and is in or just outside the view.
pub open spec fn roadworthy(car: Car, speed: i16) -> bool {
    car.cruising(speed) && near_view(car, speed)
}

/// Checks what has to hold of a vehicle of a simulation.
pub fn is_roadworthy(car: Car, speed: i16) -> (r: bool)
    ensures
        r == roadworthy(car, speed),
{
    let reach: i32 = VIEW_MARGIN + speed as i32;
    car.dx == velocity_x(car.direction, speed) && car.dy == velocity_y(car.direction, speed)
        && -reach < car.x && car.x < WINDOW_WIDTH + reach && -reach < car.y && car.y
        < WINDOW_HEIGHT + reach
}

impl World {
    /// What holds of a simulation at all times.
    pub open spec fn wf(self) -> bool {
        &&& self.config.valid()
        &&& self.controller.wf()
        &&& self.controller.green_hold_duration == self.config.green_hold_duration
        &&& self.controller.all_red_duration == self.config.all_red_duration
        &&& forall|i: int|
            0 <= i < self.cars.len() ==> roadworthy(#[trigger] self.cars[i], self.config.speed)
    }

    /// Whether the entry check lets a vehicle with `heading` in.
    pub open spec fn admits(self, heading: Direction) -> bool {
        spec_can_spawn(
            self.cars,
            spec_lane(heading),
            self.config.min_spawn_clearance,
            spec_velocity_x(heading, self.config.speed),
            spec_velocity_y(heading, self.config.speed),
        )
    }

    /// The world after an attempt to let a vehicle in: where the entry check
    /// admits it, the vehicle is added behind the others and counted as
    /// waiting; where not, nothing changes.
    pub open spec fn spawned(self, heading: Direction, color: Col, turn: Turn) -> World {
        if self.admits(heading) {
            World {
                cars: self.cars.push(entrant(heading, color, turn, self.config.speed)),
                controller: IntersectionController {
                    demand: self.controller.demand.arrived(heading),
                    ..self.controller
                },
                ..self
            }
        } else {
            self
        }
    }

    /// The world without the vehicles that have left the view.
    pub open spec fn pruned(self) -> World {
        World { cars: survivors(self.cars), ..self }
    }

    /// The world after the controller has looked at the clock.
    pub open spec fn signalled(self, now: u64, fallback: Direction) -> World {
        World { controller: self.controller.advanced(now, fallback), ..self }
    }

    /// The world after the cleared vehicles have moved.
    pub open spec fn moved(self) -> World {
        World {
            cars: advanced(self.cars, self.controller, self.config.min_following_distance),
            ..self
        }
    }

    /// The world after the vehicles that were due have made their maneuver.
    pub open spec fn maneuvered(self) -> World {
        World {
            cars: turned(self.cars, self.config.speed),
            controller: IntersectionController {
                demand: settled(self.controller.demand, self.cars),
                ..self.controller
            },
            ..self
        }
    }

    /// The world one tick later: vehicles out of view are discarded, the
    /// lights follow the clock, the cleared vehicles move, and those that
    /// are due make their maneuver.
    pub open spec fn ticked(self, now: u64, fallback: Direction) -> World {
        self.pruned().signalled(now, fallback).moved().maneuvered()
    }

    /// The world after one event.
    pub open spec fn after(self, event: Event) -> World {
        match event {
            Event::Arrival { heading, color, turn } => self.spawned(heading, color, turn),
            Event::Tick { now, fallback } => self.ticked(now, fallback),
        }
    }

    /// The world after a course of events, first to last.
    pub open spec fn after_all(self, events: Seq<Event>) -> World
        decreases events.len(),
    {
        if events.len() == 0 {
            self
        } else {
            self.after_all(events.drop_last()).after(events.last())
        }
    }
}

impl Simulation {
    /// What holds of a simulation at all times.
    pub open spec fn wf(&self) -> bool {
        self@.wf()
    }

    /// Checks what has to hold of a simulation at all times.
    pub fn is_wf(&self) -> (r: bool)
        ensures
            r == self.wf(),
    {
        if !(self.config.validate().is_ok() && self.controller.is_wf()) {
            return false;
        }
        if self.controller.green_hold_duration != self.config.green_hold_duration as u64
            || self.controller.all_red_duration != self.config.all_red_duration as u64 {
            return false;
        }
        let mut i: usize = 0;
        while i < self.cars.len()
            invariant
                i <= self.cars.len(),
                forall|k: int|
                    0 <= k < i ==> roadworthy(#[trigger] self.cars@[k], self.config.speed),
            decreases self.cars.len() - i,
        {
            if !is_roadworthy(self.cars[i], self.config.speed) {
                assert(!roadworthy(self@.cars[i as int], self.config.speed));
                return false;
            }
            i += 1;
        }
        true
    }

    /// A simulation without vehicles, the light labelled `initial` green,
    /// its green hold beginning at `now`; or what is wrong with the
    /// configuration.
    pub fn new(config: Config, initial: Direction, now: u64) -> (r: Result<Self, ConfigError>)
        ensures
            match r {
                Ok(sim) => {
                    &&& config.valid()
                    &&& sim@ == (World {
                        config,
                        controller: IntersectionController::initial(config, initial, now),
                        cars: Seq::<Car>::empty(),
                    })
                    &&& sim.wf()
                },
                Err(e) => config.verdict() == Err::<(), ConfigError>(e),
            },
    {
        match IntersectionController::new(&config, initial, now) {
            Err(e) => Err(e),
            Ok(controller) => Ok(Simulation { config, controller, cars: Vec::new() }),
        }
    }

    /// Tries to let a vehicle with `heading` in, and says whether it was
    /// admitted.
    pub fn spawn(&mut self, heading: Direction, color: Col, turn: Turn) -> (accepted: bool)
        ensures
            accepted == old(self)@.admits(heading),
            final(self)@ == old(self)@.spawned(heading, color, turn),
            !accepted ==> final(self)@ == old(self)@,
            accepted ==> final(self).cars@ == old(self).cars@.push(
                entrant(heading, color, turn, old(self).config.speed),
            ),
            old(self).wf() ==> final(self).wf(),
    {
        let speed: i16 = self.config.speed;
        let dx: i32 = velocity_x(heading, speed);
        let dy: i32 = velocity_y(heading, speed);
        if can_spawn(&self.cars, lane(heading), self.config.min_spawn_clearance, dx, dy) {
            self.controller.demand.record_arrival(heading);
            self.cars.push(
                Car::new(heading, entry_x(heading), entry_y(heading), dx, dy, true, color, turn),
            );
            proof {
                assert(self@.cars =~= old(self)@.spawned(heading, color, turn).cars);
            }
            true
        } else {
            false
        }
    }

    /// Tries to let in a vehicle with `heading` whose paint and turn are
    /// entry `pick` of the palette.
    pub fn spawn_styled(&mut self, heading: Direction, pick: usize) -> (accepted: bool)
        requires
            pick < STYLES,
        ensures
            accepted == old(self)@.admits(heading),
            final(self)@ == old(self)@.spawned(heading, spec_style(pick).0, spec_style(pick).1),
            !accepted ==> final(self)@ == old(self)@,
            old(self).wf() ==> final(self).wf(),
    {
        let (color, turn) = style(pick);
        self.spawn(heading, color, turn)
    }

    /// Tries to let in a vehicle with `heading` whose paint and turn are
    /// drawn from the palette by chance.
    pub fn spawn_random(&mut self, heading: Direction) -> (accepted: bool)
        ensures
            accepted == old(self)@.admits(heading),
            exists|pick: usize|
                pick < STYLES && final(self)@ == old(self)@.spawned(
                    heading,
                    spec_style(pick).0,
                    spec_style(pick).1,
                ),
            !accepted ==> final(self)@ == old(self)@,
            old(self).wf() ==> final(self).wf(),
    {
        let pick: usize = random_index(STYLES);
        self.spawn_styled(heading, pick)
    }

    /// Tries to let in a vehicle whose heading, paint and turn are all drawn
    /// by chance.
    pub fn spawn_anywhere(&mut self) -> (accepted: bool)
        ensures
            exists|at: usize, pick: usize|
                at < 4 && pick < STYLES && accepted == old(self)@.admits(
                    Direction::spec_from_index(at),
                ) && final(self)@ == old(self)@.spawned(
                    Direction::spec_from_index(at),
                    spec_style(pick).0,
                    spec_style(pick).1,
                ),
            !accepted ==> final(self)@ == old(self)@,
            old(self).wf() ==> final(self).wf(),
    {
        let at: usize = random_index(4);
        let pick: usize = random_index(STYLES);
        self.spawn_styled(Direction::from_index(at), pick)
    }

    /// Discards the vehicles that have left the view.
    pub fn prune(&mut self)
        ensures
            final(self)@ == old(self)@.pruned(),
            old(self).wf() ==> final(self).wf(),
            forall|i: int| 0 <= i < final(self).cars@.len() ==> spec_on_stage(final(self).cars@[i]),
    {
        retire(&mut self.cars);
        proof {
            lemma_survivors_come_from(old(self).cars@);
        }
    }

    /// One tick at clock reading `now`, with `fallback` labelling the light
    /// to turn green where the demand names none.
    pub fn step(&mut self, now: u64, fallback: Direction)
        requires
            old(self).wf(),
        ensures
            final(self)@ == old(self)@.ticked(now, fallback),
            final(self).wf(),
    {
        self.prune();
        self.controller.advance_with(now, fallback);
        proof {
            lemma_roadworthy_can_step(self.cars@, self.config.speed);
        }
        advance_all(&mut self.cars, &self.controller, self.config.min_following_distance);
        proof {
            lemma_motion_keeps_roadworthy(
                old(self)@.pruned().signalled(now, fallback),
            );
        }
        turn_pass(&mut self.cars, &mut self.controller.demand, self.config.speed);
        proof {
            lemma_turns_keep_roadworthy(old(self)@.pruned().signalled(now, fallback).moved());
        }
    }

    /// Lets one event happen.
    pub fn apply(&mut self, event: Event)
        requires
            old(self).wf(),
        ensures
            final(self)@ == old(self)@.after(event),
            final(self).wf(),
    {
        match event {
            Event::Arrival { heading, color, turn } => {
                self.spawn(heading, color, turn);
            },
            Event::Tick { now, fallback } => {
                self.step(now, fallback);
            },
        }
    }

    /// Lets a course of events happen, first to last.
    pub fn run(&mut self, events: &Vec<Event>)
        requires
            old(self).wf(),
        ensures
            final(self)@ == old(self)@.after_all(events@),
            final(self).wf(),
    {
        let mut i: usize = 0;
        assert(events@.take(0) =~= Seq::<Event>::empty());
        while i < events.len()
            invariant
                i <= events.len(),
                self.wf(),
                self@ == old(self)@.after_all(events@.take(i as int)),
            decreases events.len() - i,
        {
            assert(events@.take(i + 1).drop_last() =~= events@.take(i as int));
            self.apply(events[i]);
            i += 1;
        }
        assert(events@.take(events.len() as int) =~= events@);
    }

    /// One tick at clock reading `now`. Where the demand names no light to
    /// turn green, one of the four is drawn by chance.
    pub fn tick(&mut self, now: u64)
        requires
            old(self).wf(),
        ensures
            exists|fallback: Direction| final(self)@ == old(self)@.ticked(now, fallback),
            !old(self).controller.spec_undecided(now) ==> forall|fallback: Direction|
                final(self)@ == old(self)@.ticked(now, fallback),
            final(self).wf(),
    {
        let fallback = self.controller.draw_fallback(now);
        self.step(now, fallback);
    }
}

/// Every vehicle that survives pruning was there before.
pub proof fn lemma_survivors_come_from(cars: Seq<Car>)
    ensures
        forall|i: int|
            0 <= i < survivors(cars).len() ==> cars.contains(#[trigger] survivors(cars)[i])
                && spec_on_stage(survivors(cars)[i]),
    decreases cars.len(),
{
    reveal(Seq::filter);
    if cars.len() > 0 {
        lemma_survivors_come_from(cars.drop_last());
        let rest = survivors(cars.drop_last());
        assert forall|i: int| 0 <= i < survivors(cars).len() implies cars.contains(
            #[trigger] survivors(cars)[i],
        ) && spec_on_stage(survivors(cars)[i]) by {
            if i < rest.len() {
                let k = choose|k: int|
                    0 <= k < cars.drop_last().len() && cars.drop_last()[k] == rest[i];
                assert(cars[k] == rest[i]);
            } else {
                assert(survivors(cars)[i] == cars[cars.len() - 1]);
            }
        }
    }
}

/// A roadworthy vehicle can take a step without leaving the machine's range.
proof fn lemma_roadworthy_can_step(cars: Seq<Car>, speed: i16)
    requires
        forall|i: int| 0 <= i < cars.len() ==> roadworthy(#[trigger] cars[i], speed),
    ensures
        all_can_step(cars),
{
    assert forall|i: int| 0 <= i < cars.len() implies (#[trigger] cars[i]).can_step() by {
        assert(roadworthy(cars[i], speed));
    }
}

/// Vehicles that are roadworthy and within the view are roadworthy after
/// they have moved.
pub proof fn lemma_motion_keeps_roadworthy(w: World)
    requires
        w.config.speed > 0,
        forall|i: int|
            0 <= i < w.cars.len() ==> roadworthy(#[trigger] w.cars[i], w.config.speed)
                && spec_on_stage(w.cars[i]),
    ensures
        forall|i: int|
            0 <= i < w.moved().cars.len() ==> roadworthy(
                #[trigger] w.moved().cars[i],
                w.config.speed,
            ),
{
    assert forall|i: int| 0 <= i < w.moved().cars.len() implies roadworthy(
        #[trigger] w.moved().cars[i],
        w.config.speed,
    ) by {
        assert(roadworthy(w.cars[i], w.config.speed));
    }
}

/// Roadworthy vehicles are roadworthy after their maneuver.
pub proof fn lemma_turns_keep_roadworthy(w: World)
    requires
        forall|i: int| 0 <= i < w.cars.len() ==> roadworthy(#[trigger] w.cars[i], w.config.speed),
    ensures
        forall|i: int|
            0 <= i < w.maneuvered().cars.len() ==> roadworthy(
                #[trigger] w.maneuvered().cars[i],
                w.config.speed,
            ),
{
    assert forall|i: int| 0 <= i < w.maneuvered().cars.len() implies roadworthy(
        #[trigger] w.maneuvered().cars[i],
        w.config.speed,
    ) by {
        assert(roadworthy(w.cars[i], w.config.speed));
    }
}

} // verus!
