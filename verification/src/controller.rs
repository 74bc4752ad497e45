//! The four lights of the intersection and the cycle that drives them:
//! one light green for a while, then every light red for a short dwell, then
//! the next light green.

use crate::chance::quad_index;
use crate::config::{Config, ConfigError};
use crate::demand::Demand;
use crate::geometry::{light_x, light_y, spec_light_x, spec_light_y, Direction};
use crate::light::TrafficLight;
use vstd::prelude::*;

verus! {

/// Where the cycle stands.
#[derive(Clone, Copy, Debug, PartialEq, Eq, Structural)]
pub enum Phase {
    /// One light was chosen and is held green.
    GreenHold,
    /// Every light is red.
    AllRed,
}

/// Owner of the four lights.
///
/// A light is labelled with a heading and governs the traffic that faces it,
/// that is the vehicles with the opposite heading.
#[derive(Clone, Copy, Debug, PartialEq, Eq, Structural)]
pub struct IntersectionController {
    pub north: TrafficLight,
    pub south: TrafficLight,
    pub east: TrafficLight,
    pub west: TrafficLight,
    pub phase: Phase,
    /// Clock reading, in milliseconds, at which the phase began.
    pub since: u64,
    pub green_hold_duration: u64,
    pub all_red_duration: u64,
    pub demand: Demand,
}

/// One for a green light, zero for a red one.
pub open spec fn lit(light: TrafficLight) -> nat {
    if light.green {
        1
    } else {
        0
    }
}

/// Time gone by at `now` since `since`; a clock that ran backwards counts as
/// no time gone by.
pub open spec fn spec_elapsed(since: u64, now: u64) -> u64 {
    if now >= since {
        (now - since) as u64
    } else {
        0
    }
}

#[verifier::when_used_as_spec(spec_elapsed)]
pub fn elapsed(since: u64, now: u64) -> (r: u64)
    ensures
        r == spec_elapsed(since, now),
{
    if now >= since {
        now - since
    } else {
        0
    }
}

impl IntersectionController {
    pub open spec fn spec_light(&self, label: Direction) -> TrafficLight {
        match label {
            Direction::North => self.north,
            Direction::South => self.south,
            Direction::East => self.east,
            Direction::West => self.west,
        }
    }

    /// The light labelled `label`.
    #[verifier::when_used_as_spec(spec_light)]
    pub fn light(&self, label: Direction) -> (light: TrafficLight)
        ensures
            light == self.spec_light(label),
    {
        match label {
            Direction::North => self.north,
            Direction::South => self.south,
            Direction::East => self.east,
            Direction::West => self.west,
        }
    }

    pub open spec fn spec_green_for(&self, heading: Direction) -> bool {
        self.spec_light(heading.spec_opposite()).green
    }

    /// Whether vehicles with `heading` have a green light.
    #[verifier::when_used_as_spec(spec_green_for)]
    pub fn green_for(&self, heading: Direction) -> (r: bool)
        ensures
            r == self.spec_green_for(heading),
    {
        self.light(heading.opposite()).is_green()
    }

    /// How many lights are green.
    pub open spec fn green_count(self) -> nat {
        lit(self.north) + lit(self.south) + lit(self.east) + lit(self.west)
    }

    /// Whether the light labelled `label` carries that label and stands at
    /// its post.
    pub open spec fn spec_post_in_place(&self, label: Direction) -> bool {
        &&& self.spec_light(label).direction == label
        &&& self.spec_light(label).x == spec_light_x(label)
        &&& self.spec_light(label).y == spec_light_y(label)
    }

    #[verifier::when_used_as_spec(spec_post_in_place)]
    pub fn post_in_place(&self, label: Direction) -> (r: bool)
        ensures
            r == self.spec_post_in_place(label),
    {
        let light = self.light(label);
        light.direction == label && light.x == light_x(label) && light.y == light_y(label)
    }

    /// Every light carries its own label and stands at its post.
    pub open spec fn posts_in_place(self) -> bool {
        &&& self.spec_post_in_place(Direction::North)
        &&& self.spec_post_in_place(Direction::South)
        &&& self.spec_post_in_place(Direction::East)
        &&& self.spec_post_in_place(Direction::West)
    }

    /// What holds of a controller at all times: the lights are in place, both
    /// durations are positive, at most one light is green, and none is during
    /// the all-red dwell.
    pub open spec fn wf(self) -> bool {
        &&& self.posts_in_place()
        &&& self.green_hold_duration > 0
        &&& self.all_red_duration > 0
        &&& self.green_count() <= 1
        &&& self.phase == Phase::AllRed ==> self.green_count() == 0
    }

    /// Checks what has to hold of a controller at all times.
    pub fn is_wf(&self) -> (r: bool)
        ensures
            r == self.wf(),
    {
        let posts = self.post_in_place(Direction::North) && self.post_in_place(Direction::South)
            && self.post_in_place(Direction::East) && self.post_in_place(Direction::West);
        let mut greens: u8 = 0;
        if self.north.green {
            greens += 1;
        }
        if self.south.green {
            greens += 1;
        }
        if self.east.green {
            greens += 1;
        }
        if self.west.green {
            greens += 1;
        }
        posts && self.green_hold_duration > 0 && self.all_red_duration > 0 && greens <= 1 && (
        self.phase != Phase::AllRed || greens == 0)
    }

    /// The controller at the start of a run: the light labelled `initial`
    /// green, the others red, the green hold beginning at `now`, nobody
    /// waiting.
    pub open spec fn initial(config: Config, initial: Direction, now: u64) -> Self {
        IntersectionController {
            north: TrafficLight {
                direction: Direction::North,
                x: spec_light_x(Direction::North),
                y: spec_light_y(Direction::North),
                green: initial == Direction::North,
            },
            south: TrafficLight {
                direction: Direction::South,
                x: spec_light_x(Direction::South),
                y: spec_light_y(Direction::South),
                green: initial == Direction::South,
            },
            east: TrafficLight {
                direction: Direction::East,
                x: spec_light_x(Direction::East),
                y: spec_light_y(Direction::East),
                green: initial == Direction::East,
            },
            west: TrafficLight {
                direction: Direction::West,
                x: spec_light_x(Direction::West),
                y: spec_light_y(Direction::West),
                green: initial == Direction::West,
            },
            phase: Phase::GreenHold,
            since: now,
            green_hold_duration: config.green_hold_duration as u64,
            all_red_duration: config.all_red_duration as u64,
            demand: Demand::spec_empty(),
        }
    }

    /// Builds the controller, or reports what is wrong with the
    /// configuration.
    pub fn new(config: &Config, initial: Direction, now: u64) -> (r: Result<Self, ConfigError>)
        ensures
            match r {
                Ok(c) => config.valid() && c == Self::initial(*config, initial, now) && c.wf()
                    && c.green_count() == 1,
                Err(e) => config.verdict() == Err::<(), ConfigError>(e),
            },
    {
        match config.validate() {
            Err(e) => Err(e),
            Ok(()) => {
                let c = IntersectionController {
                    north: TrafficLight::new(
                        Direction::North,
                        light_x(Direction::North),
                        light_y(Direction::North),
                        initial == Direction::North,
                    ),
                    south: TrafficLight::new(
                        Direction::South,
                        light_x(Direction::South),
                        light_y(Direction::South),
                        initial == Direction::South,
                    ),
                    east: TrafficLight::new(
                        Direction::East,
                        light_x(Direction::East),
                        light_y(Direction::East),
                        initial == Direction::East,
                    ),
                    west: TrafficLight::new(
                        Direction::West,
                        light_x(Direction::West),
                        light_y(Direction::West),
                        initial == Direction::West,
                    ),
                    phase: Phase::GreenHold,
                    since: now,
                    green_hold_duration: config.green_hold_duration as u64,
                    all_red_duration: config.all_red_duration as u64,
                    demand: Demand::empty(),
                };
                Ok(c)
            },
        }
    }

    /// The controller with every light red.
    pub open spec fn darkened(self) -> Self {
        IntersectionController {
            north: TrafficLight { green: false, ..self.north },
            south: TrafficLight { green: false, ..self.south },
            east: TrafficLight { green: false, ..self.east },
            west: TrafficLight { green: false, ..self.west },
            ..self
        }
    }

    /// The controller with the light labelled `label` green and the others as
    /// they are.
    pub open spec fn granting(self, label: Direction) -> Self {
        match label {
            Direction::North => IntersectionController {
                north: TrafficLight { green: true, ..self.north },
                ..self
            },
            Direction::South => IntersectionController {
                south: TrafficLight { green: true, ..self.south },
                ..self
            },
            Direction::East => IntersectionController {
                east: TrafficLight { green: true, ..self.east },
                ..self
            },
            Direction::West => IntersectionController {
                west: TrafficLight { green: true, ..self.west },
                ..self
            },
        }
    }

    /// Whether the phase has lasted its full duration at `now`.
    pub open spec fn spec_due(&self, now: u64) -> bool {
        match self.phase {
            Phase::GreenHold => spec_elapsed(self.since, now) >= self.green_hold_duration,
            Phase::AllRed => spec_elapsed(self.since, now) >= self.all_red_duration,
        }
    }

    #[verifier::when_used_as_spec(spec_due)]
    pub fn due(&self, now: u64) -> (r: bool)
        ensures
            r == self.spec_due(now),
    {
        match self.phase {
            Phase::GreenHold => elapsed(self.since, now) >= self.green_hold_duration,
            Phase::AllRed => elapsed(self.since, now) >= self.all_red_duration,
        }
    }

    /// The controller after it has looked at the clock once.
    ///
    /// While the phase has not lasted its duration nothing changes. A green
    /// hold that has, ends with every light red. An all-red dwell that has,
    /// ends with one light green: the one that the demand asks for, or the one
    /// labelled `fallback` where the demand names none. Either way the new
    /// phase begins at `now`.
    pub open spec fn advanced(self, now: u64, fallback: Direction) -> Self {
        if !self.spec_due(now) {
            self
        } else {
            match self.phase {
                Phase::GreenHold => IntersectionController {
                    phase: Phase::AllRed,
                    since: now,
                    ..self.darkened()
                },
                Phase::AllRed => IntersectionController {
                    phase: Phase::GreenHold,
                    since: now,
                    ..self.granting(self.demand.spec_next_green(fallback))
                },
            }
        }
    }

    /// Looks at the clock and moves the cycle on where the phase has lasted
    /// its duration; `fallback` labels the light to turn green where the
    /// demand names none.
    pub fn advance_with(&mut self, now: u64, fallback: Direction)
        ensures
            *final(self) == old(self).advanced(now, fallback),
            old(self).wf() ==> final(self).wf(),
            final(self).demand == old(self).demand,
    {
        if self.due(now) {
            match self.phase {
                Phase::GreenHold => {
                    self.north.force_red();
                    self.south.force_red();
                    self.east.force_red();
                    self.west.force_red();
                    self.phase = Phase::AllRed;
                    self.since = now;
                },
                Phase::AllRed => {
                    let label = self.demand.next_green(fallback);
                    match label {
                        Direction::North => self.north.update(),
                        Direction::South => self.south.update(),
                        Direction::East => self.east.update(),
                        Direction::West => self.west.update(),
                    }
                    self.phase = Phase::GreenHold;
                    self.since = now;
                },
            }
        }
    }

    /// Whether a look at the clock at `now` has to pick a light by other
    /// means than the demand: the all-red dwell is over and no heading has
    /// more waiting vehicles than every other.
    pub open spec fn spec_undecided(&self, now: u64) -> bool {
        self.phase == Phase::AllRed && self.spec_due(now) && self.demand.spec_leader() is None
    }

    #[verifier::when_used_as_spec(spec_undecided)]
    pub fn undecided(&self, now: u64) -> (r: bool)
        ensures
            r == self.spec_undecided(now),
    {
        self.phase == Phase::AllRed && self.due(now) && self.demand.leader().is_none()
    }

    /// The label to hand to the next look at the clock as its fallback. One
    /// of the four is drawn by chance where the look is undecided; where it is
    /// not, the fallback plays no part and no draw is made.
    pub fn draw_fallback(&self, now: u64) -> (fallback: Direction)
        ensures
            !self.spec_undecided(now) ==> fallback == Direction::North,
    {
        if self.undecided(now) {
            Direction::from_index(quad_index(0, 4))
        } else {
            Direction::North
        }
    }

    /// Looks at the clock and moves the cycle on where the phase has lasted
    /// its duration. Where the demand names no light to turn green, one of
    /// the four is drawn by chance.
    pub fn advance(&mut self, now: u64)
        ensures
            exists|fallback: Direction| *final(self) == old(self).advanced(now, fallback),
            !old(self).spec_undecided(now) ==> forall|fallback: Direction|
                *final(self) == old(self).advanced(now, fallback),
            old(self).wf() ==> final(self).wf(),
    {
        let fallback = self.draw_fallback(now);
        self.advance_with(now, fallback);
    }
}

} // verus!
