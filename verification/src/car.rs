//! A vehicle and the two things it can do: move one step, and change its
//! heading.

use crate::geometry::{
    at_maneuver, spec_at_maneuver, spec_velocity_x, spec_velocity_y, velocity_x, velocity_y, Col,
    Direction, Turn,
};
use vstd::prelude::*;

verus! {

/// A vehicle: a square one lane wide that travels along one axis.
#[derive(Clone, Copy, Debug, PartialEq, Eq, Structural)]
pub struct Car {
    /// Current heading.
    pub direction: Direction,
    /// Top-left corner of the vehicle's square.
    pub x: i32,
    pub y: i32,
    /// Displacement per tick.
    pub dx: i32,
    pub dy: i32,
    /// Cleared when a red light holds the vehicle, set when it moves.
    pub check_move: bool,
    pub color: Col,
    /// The maneuver chosen when the vehicle entered.
    pub turn: Turn,
    /// Set once the vehicle has made its maneuver; from then on its heading
    /// is settled.
    pub has_passed_control_point: bool,
}

impl Car {
    /// A vehicle that has not made its maneuver yet.
    pub fn new(
        direction: Direction,
        x: i32,
        y: i32,
        dx: i32,
        dy: i32,
        check_move: bool,
        color: Col,
        turn: Turn,
    ) -> (car: Self)
        ensures
            car == (Car {
                direction,
                x,
                y,
                dx,
                dy,
                check_move,
                color,
                turn,
                has_passed_control_point: false,
            }),
    {
        Self { direction, x, y, dx, dy, check_move, color, turn, has_passed_control_point: false }
    }

    /// Whether one step keeps both coordinates within the machine's range.
    pub open spec fn can_step(self) -> bool {
        &&& i32::MIN <= self.x + self.dx <= i32::MAX
        &&& i32::MIN <= self.y + self.dy <= i32::MAX
    }

    /// The vehicle one step further along its velocity.
    pub open spec fn stepped(self) -> Car {
        Car {
            x: (self.x + self.dx) as i32,
            y: (self.y + self.dy) as i32,
            check_move: true,
            ..self
        }
    }

    /// Moves the vehicle by its velocity.
    pub fn update(&mut self)
        requires
            old(self).can_step(),
        ensures
            *final(self) == old(self).stepped(),
    {
        self.check_move = true;
        self.x += self.dx;
        self.y += self.dy;
    }

    /// Whether the velocity is that of the heading at `speed`.
    pub open spec fn cruising(self, speed: i16) -> bool {
        &&& self.dx == spec_velocity_x(self.direction, speed)
        &&& self.dy == spec_velocity_y(self.direction, speed)
    }

    /// The vehicle after its change of heading, which it makes once.
    ///
    /// A vehicle that turns left or right and has not done so yet gets the
    /// heading its turn leads to and the velocity of that heading at `speed`,
    /// and is marked as having made its maneuver. One that has made its
    /// maneuver, or goes straight on, stays as it is.
    pub open spec fn redirected(self, speed: i16) -> Car {
        if self.has_passed_control_point || self.turn == Turn::Front {
            self
        } else {
            Car {
                direction: self.direction.spec_after(self.turn),
                dx: spec_velocity_x(self.direction.spec_after(self.turn), speed),
                dy: spec_velocity_y(self.direction.spec_after(self.turn), speed),
                has_passed_control_point: true,
                ..self
            }
        }
    }

    /// Points the vehicle where its turn leads, at `speed`, unless it has
    /// made its maneuver already: a second call changes nothing.
    pub fn update_direction(&mut self, speed: i16)
        ensures
            *final(self) == old(self).redirected(speed),
            final(self).redirected(speed) == *final(self),
    {
        if !self.has_passed_control_point {
            match self.turn {
                Turn::Front => {},
                _ => {
                    let heading = self.direction.after(self.turn);
                    self.direction = heading;
                    self.dx = velocity_x(heading, speed);
                    self.dy = velocity_y(heading, speed);
                    self.has_passed_control_point = true;
                },
            }
        }
    }

    /// Whether the vehicle's maneuver is due where it stands, and not made
    /// yet.
    pub open spec fn spec_maneuver_due(&self) -> bool {
        !self.has_passed_control_point && spec_at_maneuver(
            self.direction,
            self.turn,
            self.x,
            self.y,
        )
    }

    #[verifier::when_used_as_spec(spec_maneuver_due)]
    pub fn maneuver_due(&self) -> (r: bool)
        ensures
            r == self.spec_maneuver_due(),
    {
        !self.has_passed_control_point && at_maneuver(self.direction, self.turn, self.x, self.y)
    }

    /// The vehicle after the turn check of one tick: where the maneuver is
    /// due it is made and marked as made, also where it is to go straight
    /// on; elsewhere nothing changes.
    pub open spec fn after_turn_check(self, speed: i16) -> Car {
        if self.spec_maneuver_due() {
            Car { has_passed_control_point: true, ..self.redirected(speed) }
        } else {
            self
        }
    }

    /// Makes the maneuver if it is due, and says whether it did.
    pub fn turn_check(&mut self, speed: i16) -> (fired: bool)
        ensures
            fired == old(self).spec_maneuver_due(),
            *final(self) == old(self).after_turn_check(speed),
    {
        if self.maneuver_due() {
            self.update_direction(speed);
            self.has_passed_control_point = true;
            true
        } else {
            false
        }
    }
}

} // verus!
