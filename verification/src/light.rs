//! A single traffic light.

use crate::geometry::Direction;
use vstd::prelude::*;

verus! {

/// One light of the intersection: green lets traffic pass, anything else is
/// red.
#[derive(Clone, Copy, Debug, PartialEq, Eq, Structural)]
pub struct TrafficLight {
    /// The light's label.
    pub direction: Direction,
    /// Where its post stands.
    pub x: i32,
    pub y: i32,
    pub green: bool,
}

impl TrafficLight {
    /// A light labelled `direction` whose post stands at `(x, y)`.
    pub fn new(direction: Direction, x: i32, y: i32, start_green: bool) -> (light: Self)
        ensures
            light == (TrafficLight { direction, x, y, green: start_green }),
    {
        Self { direction, x, y, green: start_green }
    }

    /// Turns the light green; a green light stays green.
    pub fn update(&mut self)
        ensures
            *final(self) == (TrafficLight { green: true, ..*old(self) }),
    {
        if !self.green {
            self.green = !self.green;
        }
    }

    /// Sets the light, whatever it showed before.
    pub fn set_green(&mut self, green: bool)
        ensures
            *final(self) == (TrafficLight { green, ..*old(self) }),
    {
        self.green = green;
    }

    /// Turns the light red.
    pub fn force_red(&mut self)
        ensures
            *final(self) == (TrafficLight { green: false, ..*old(self) }),
    {
        self.green = false;
    }

    pub open spec fn spec_is_green(&self) -> bool {
        self.green
    }

    #[verifier::when_used_as_spec(spec_is_green)]
    pub fn is_green(&self) -> (r: bool)
        ensures
            r == self.green,
    {
        self.green
    }
}

} // verus!
