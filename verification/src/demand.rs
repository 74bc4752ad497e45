//! The demand: how many vehicles wait on each approach, and which approach
//! that puts first.

use crate::geometry::Direction;
use vstd::prelude::*;

verus! {

/// Vehicles waiting to cross, counted by the heading they entered with.
#[derive(Clone, Copy, Debug, PartialEq, Eq, Structural)]
pub struct Demand {
    pub north: u64,
    pub south: u64,
    pub east: u64,
    pub west: u64,
}

impl Demand {
    /// No vehicle waiting anywhere.
    pub open spec fn spec_empty() -> Demand {
        Demand { north: 0, south: 0, east: 0, west: 0 }
    }

    #[verifier::when_used_as_spec(spec_empty)]
    pub fn empty() -> (d: Demand)
        ensures
            d == Demand::spec_empty(),
    {
        Demand { north: 0, south: 0, east: 0, west: 0 }
    }

    pub open spec fn spec_count(&self, heading: Direction) -> u64 {
        match heading {
            Direction::North => self.north,
            Direction::South => self.south,
            Direction::East => self.east,
            Direction::West => self.west,
        }
    }

    /// How many vehicles with this heading are waiting.
    #[verifier::when_used_as_spec(spec_count)]
    pub fn count(&self, heading: Direction) -> (n: u64)
        ensures
            n == self.spec_count(heading),
    {
        match heading {
            Direction::North => self.north,
            Direction::South => self.south,
            Direction::East => self.east,
            Direction::West => self.west,
        }
    }

    /// The demand with the count of `heading` replaced by `n`.
    pub open spec fn with_count(self, heading: Direction, n: u64) -> Demand {
        match heading {
            Direction::North => Demand { north: n, ..self },
            Direction::South => Demand { south: n, ..self },
            Direction::East => Demand { east: n, ..self },
            Direction::West => Demand { west: n, ..self },
        }
    }

    fn set_count(&mut self, heading: Direction, n: u64)
        ensures
            *final(self) == old(self).with_count(heading, n),
    {
        match heading {
            Direction::North => {
                self.north = n;
            },
            Direction::South => {
                self.south = n;
            },
            Direction::East => {
                self.east = n;
            },
            Direction::West => {
                self.west = n;
            },
        }
    }

    /// The demand after one more vehicle with `heading` has entered. The
    /// count stops at the largest value it can hold.
    pub open spec fn arrived(self, heading: Direction) -> Demand {
        if self.spec_count(heading) < u64::MAX {
            self.with_count(heading, (self.spec_count(heading) + 1) as u64)
        } else {
            self
        }
    }

    /// The demand after `n` vehicles with `heading` have made their maneuver.
    /// The count stops at zero.
    pub open spec fn departed(self, heading: Direction, n: nat) -> Demand {
        if self.spec_count(heading) >= n {
            self.with_count(heading, (self.spec_count(heading) - n) as u64)
        } else {
            self.with_count(heading, 0)
        }
    }

    /// Counts one more vehicle with `heading`.
    pub fn record_arrival(&mut self, heading: Direction)
        ensures
            *final(self) == old(self).arrived(heading),
    {
        let c: u64 = self.count(heading);
        if c < u64::MAX {
            self.set_count(heading, c + 1);
        }
    }

    /// Counts one vehicle with `heading` less, if any is counted.
    pub fn record_departure(&mut self, heading: Direction)
        ensures
            *final(self) == old(self).departed(heading, 1),
    {
        let c: u64 = self.count(heading);
        if c > 0 {
            self.set_count(heading, c - 1);
        } else {
            self.set_count(heading, 0);
        }
    }

    /// Whether more vehicles wait with `heading` than with any other heading.
    pub open spec fn spec_leads(&self, heading: Direction) -> bool {
        forall|other: Direction|
            other != heading ==> self.spec_count(heading) > #[trigger] self.spec_count(other)
    }

    #[verifier::when_used_as_spec(spec_leads)]
    pub fn leads(&self, heading: Direction) -> (r: bool)
        ensures
            r == self.spec_leads(heading),
    {
        let c: u64 = self.count(heading);
        let r = (heading == Direction::North || c > self.north) && (heading == Direction::South
            || c > self.south) && (heading == Direction::East || c > self.east) && (heading
            == Direction::West || c > self.west);
        proof {
            if r {
                assert forall|other: Direction| other != heading implies self.spec_count(heading)
                    > #[trigger] self.spec_count(other) by {
                    match other {
                        Direction::North => {},
                        Direction::South => {},
                        Direction::East => {},
                        Direction::West => {},
                    }
                }
            } else {
                if !(heading == Direction::North || c > self.north) {
                    assert(!(self.spec_count(heading) > self.spec_count(Direction::North)));
                } else if !(heading == Direction::South || c > self.south) {
                    assert(!(self.spec_count(heading) > self.spec_count(Direction::South)));
                } else if !(heading == Direction::East || c > self.east) {
                    assert(!(self.spec_count(heading) > self.spec_count(Direction::East)));
                } else {
                    assert(!(self.spec_count(heading) > self.spec_count(Direction::West)));
                }
            }
        }
        r
    }

    /// The heading with more waiting vehicles than any other, if there is one.
    pub open spec fn spec_leader(&self) -> Option<Direction> {
        if self.spec_leads(Direction::North) {
            Some(Direction::North)
        } else if self.spec_leads(Direction::South) {
            Some(Direction::South)
        } else if self.spec_leads(Direction::East) {
            Some(Direction::East)
        } else if self.spec_leads(Direction::West) {
            Some(Direction::West)
        } else {
            None
        }
    }

    #[verifier::when_used_as_spec(spec_leader)]
    pub fn leader(&self) -> (r: Option<Direction>)
        ensures
            r == self.spec_leader(),
            forall|h: Direction| r == Some(h) <==> self.spec_leads(h),
    {
        proof {
            lemma_one_leader(*self);
        }
        if self.leads(Direction::North) {
            Some(Direction::North)
        } else if self.leads(Direction::South) {
            Some(Direction::South)
        } else if self.leads(Direction::East) {
            Some(Direction::East)
        } else if self.leads(Direction::West) {
            Some(Direction::West)
        } else {
            None
        }
    }

    /// The label of the light that turns green next: the light that governs
    /// the heading with the most waiting vehicles, or `fallback` where no
    /// heading has more than every other.
    pub open spec fn spec_next_green(&self, fallback: Direction) -> Direction {
        match self.spec_leader() {
            Some(heading) => heading.spec_opposite(),
            None => fallback,
        }
    }

    #[verifier::when_used_as_spec(spec_next_green)]
    pub fn next_green(&self, fallback: Direction) -> (label: Direction)
        ensures
            label == self.spec_next_green(fallback),
    {
        match self.leader() {
            Some(heading) => heading.opposite(),
            None => fallback,
        }
    }
}

/// At most one heading leads, and the leader is the heading that does.
pub proof fn lemma_one_leader(demand: Demand)
    ensures
        forall|heading: Direction|
            demand.spec_leader() == Some(heading) <==> #[trigger] demand.spec_leads(heading),
{
    assert forall|heading: Direction|
        demand.spec_leader() == Some(heading) <==> #[trigger] demand.spec_leads(heading) by {
        if demand.spec_leads(heading) {
            match demand.spec_leader() {
                Some(other) => {
                    if other != heading {
                        assert(demand.spec_count(heading) > demand.spec_count(other));
                        assert(demand.spec_count(other) > demand.spec_count(heading));
                    }
                },
                None => {
                    match heading {
                        Direction::North => {},
                        Direction::South => {},
                        Direction::East => {},
                        Direction::West => {},
                    }
                },
            }
        }
    }
}

} // verus!
