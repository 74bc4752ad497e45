//! The fixed layout of the intersection: window, lanes, entry points, stop
//! lines and maneuver lines, together with the compass headings and turns
//! they are indexed by.
//!
//! The screen's origin is its top-left corner, `x` grows to the right and `y`
//! grows downwards. A vehicle's position is the top-left corner of its square.

use vstd::prelude::*;

verus! {

/// Width of the simulated window.
pub const WINDOW_WIDTH: i32 = 800;

/// Height of the simulated window.
pub const WINDOW_HEIGHT: i32 = 600;

/// Width of one lane; also the side of a vehicle's square.
pub const LANE_WIDTH: i32 = 50;

/// How far beyond the window a vehicle may be before it is discarded.
pub const VIEW_MARGIN: i32 = 100;

/// Two vehicles share a lane when their perpendicular coordinates differ by
/// less than this.
pub const LANE_TOLERANCE: i32 = 1;

/// Compass heading of a vehicle, and label of a traffic light.
#[derive(Clone, Copy, Debug, PartialEq, Eq, Structural)]
pub enum Direction {
    North,
    South,
    East,
    West,
}

/// The maneuver a vehicle makes inside the intersection.
#[derive(Clone, Copy, Debug, PartialEq, Eq, Structural)]
pub enum Turn {
    Left,
    Right,
    /// Straight on.
    Front,
}

/// Paint of a vehicle. It tells the turn the vehicle will take.
#[derive(Clone, Copy, Debug, PartialEq, Eq, Structural)]
pub enum Col {
    Darkblue,
    Pink,
    Gold,
}

impl Direction {
    /// The heading pointing the other way.
    pub open spec fn spec_opposite(self) -> Direction {
        match self {
            Direction::North => Direction::South,
            Direction::South => Direction::North,
            Direction::East => Direction::West,
            Direction::West => Direction::East,
        }
    }

    #[verifier::when_used_as_spec(spec_opposite)]
    pub fn opposite(self) -> (r: Direction)
        ensures
            r == self.spec_opposite(),
    {
        match self {
            Direction::North => Direction::South,
            Direction::South => Direction::North,
            Direction::East => Direction::West,
            Direction::West => Direction::East,
        }
    }

    /// Whether vehicles with this heading travel along the `y` axis.
    pub open spec fn spec_is_vertical(self) -> bool {
        self == Direction::North || self == Direction::South
    }

    #[verifier::when_used_as_spec(spec_is_vertical)]
    pub fn is_vertical(self) -> (r: bool)
        ensures
            r == self.spec_is_vertical(),
    {
        match self {
            Direction::North | Direction::South => true,
            Direction::East | Direction::West => false,
        }
    }

    /// The heading a vehicle has after making `turn` while heading `self`.
    /// Left and right lead to the two perpendicular headings, in opposite
    /// senses; straight on keeps the heading.
    pub open spec fn spec_after(self, turn: Turn) -> Direction {
        match turn {
            Turn::Front => self,
            Turn::Left => match self {
                Direction::North => Direction::West,
                Direction::West => Direction::South,
                Direction::South => Direction::East,
                Direction::East => Direction::North,
            },
            Turn::Right => match self {
                Direction::North => Direction::East,
                Direction::East => Direction::South,
                Direction::South => Direction::West,
                Direction::West => Direction::North,
            },
        }
    }

    #[verifier::when_used_as_spec(spec_after)]
    pub fn after(self, turn: Turn) -> (r: Direction)
        ensures
            r == self.spec_after(turn),
    {
        match turn {
            Turn::Front => self,
            Turn::Left => match self {
                Direction::North => Direction::West,
                Direction::West => Direction::South,
                Direction::South => Direction::East,
                Direction::East => Direction::North,
            },
            Turn::Right => match self {
                Direction::North => Direction::East,
                Direction::East => Direction::South,
                Direction::South => Direction::West,
                Direction::West => Direction::North,
            },
        }
    }

    /// Position of this heading in the order North, South, East, West.
    pub open spec fn spec_index(self) -> usize {
        match self {
            Direction::North => 0,
            Direction::South => 1,
            Direction::East => 2,
            Direction::West => 3,
        }
    }

    #[verifier::when_used_as_spec(spec_index)]
    pub fn index(self) -> (r: usize)
        ensures
            r == self.spec_index(),
    {
        match self {
            Direction::North => 0,
            Direction::South => 1,
            Direction::East => 2,
            Direction::West => 3,
        }
    }

    /// The heading at position `i` in the order North, South, East, West;
    /// every position past the third gives West.
    pub open spec fn spec_from_index(i: usize) -> Direction {
        if i == 0 {
            Direction::North
        } else if i == 1 {
            Direction::South
        } else if i == 2 {
            Direction::East
        } else {
            Direction::West
        }
    }

    #[verifier::when_used_as_spec(spec_from_index)]
    pub fn from_index(i: usize) -> (r: Direction)
        ensures
            r == Direction::spec_from_index(i),
            i < 4 ==> r.spec_index() == i,
    {
        if i == 0 {
            Direction::North
        } else if i == 1 {
            Direction::South
        } else if i == 2 {
            Direction::East
        } else {
            Direction::West
        }
    }
}

/// Velocity along `x` of a vehicle heading `heading` at `speed`.
pub open spec fn spec_velocity_x(heading: Direction, speed: i16) -> i32 {
    match heading {
        Direction::East => speed as i32,
        Direction::West => (-(speed as int)) as i32,
        _ => 0,
    }
}

#[verifier::when_used_as_spec(spec_velocity_x)]
pub fn velocity_x(heading: Direction, speed: i16) -> (r: i32)
    ensures
        r == spec_velocity_x(heading, speed),
{
    let s: i32 = speed as i32;
    match heading {
        Direction::East => s,
        Direction::West => -s,
        _ => 0,
    }
}

/// Velocity along `y` of a vehicle heading `heading` at `speed`.
pub open spec fn spec_velocity_y(heading: Direction, speed: i16) -> i32 {
    match heading {
        Direction::South => speed as i32,
        Direction::North => (-(speed as int)) as i32,
        _ => 0,
    }
}

#[verifier::when_used_as_spec(spec_velocity_y)]
pub fn velocity_y(heading: Direction, speed: i16) -> (r: i32)
    ensures
        r == spec_velocity_y(heading, speed),
{
    let s: i32 = speed as i32;
    match heading {
        Direction::South => s,
        Direction::North => -s,
        _ => 0,
    }
}

/// The coordinate, perpendicular to the direction of travel, of the lane
/// that carries traffic heading `heading`: `x` for north and south, `y` for
/// east and west.
pub open spec fn spec_lane(heading: Direction) -> i32 {
    match heading {
        Direction::North => 400,
        Direction::South => 350,
        Direction::East => 300,
        Direction::West => 250,
    }
}

#[verifier::when_used_as_spec(spec_lane)]
pub fn lane(heading: Direction) -> (r: i32)
    ensures
        r == spec_lane(heading),
{
    match heading {
        Direction::North => WINDOW_WIDTH / 2,
        Direction::South => WINDOW_WIDTH / 2 - LANE_WIDTH,
        Direction::East => WINDOW_HEIGHT / 2,
        Direction::West => WINDOW_HEIGHT / 2 - LANE_WIDTH,
    }
}

/// `x` of the point where a vehicle heading `heading` enters: one lane width
/// outside the window, on its lane.
pub open spec fn spec_entry_x(heading: Direction) -> i32 {
    match heading {
        Direction::North => 400,
        Direction::South => 350,
        Direction::East => -50i32,
        Direction::West => 850,
    }
}

#[verifier::when_used_as_spec(spec_entry_x)]
pub fn entry_x(heading: Direction) -> (r: i32)
    ensures
        r == spec_entry_x(heading),
{
    match heading {
        Direction::North => lane(Direction::North),
        Direction::South => lane(Direction::South),
        Direction::East => -LANE_WIDTH,
        Direction::West => WINDOW_WIDTH + LANE_WIDTH,
    }
}

/// `y` of the point where a vehicle heading `heading` enters.
pub open spec fn spec_entry_y(heading: Direction) -> i32 {
    match heading {
        Direction::North => 650,
        Direction::South => -50i32,
        Direction::East => 300,
        Direction::West => 250,
    }
}

#[verifier::when_used_as_spec(spec_entry_y)]
pub fn entry_y(heading: Direction) -> (r: i32)
    ensures
        r == spec_entry_y(heading),
{
    match heading {
        Direction::North => WINDOW_HEIGHT + LANE_WIDTH,
        Direction::South => -LANE_WIDTH,
        Direction::East => lane(Direction::East),
        Direction::West => lane(Direction::West),
    }
}

/// The coordinate along the direction of travel at which a vehicle heading
/// `heading` waits for its light: the last position before its square
/// enters the crossing.
pub open spec fn spec_stop_line(heading: Direction) -> i32 {
    match heading {
        Direction::North => 350,
        Direction::South => 200,
        Direction::East => 300,
        Direction::West => 450,
    }
}

#[verifier::when_used_as_spec(spec_stop_line)]
pub fn stop_line(heading: Direction) -> (r: i32)
    ensures
        r == spec_stop_line(heading),
{
    match heading {
        Direction::North => WINDOW_HEIGHT / 2 + LANE_WIDTH,
        Direction::South => WINDOW_HEIGHT / 2 - 2 * LANE_WIDTH,
        Direction::East => WINDOW_WIDTH / 2 - 2 * LANE_WIDTH,
        Direction::West => WINDOW_WIDTH / 2 + LANE_WIDTH,
    }
}

/// `x` of the post of the light labelled `label`.
pub open spec fn spec_light_x(label: Direction) -> i32 {
    match label {
        Direction::North | Direction::West => 310,
        Direction::South | Direction::East => 450,
    }
}

#[verifier::when_used_as_spec(spec_light_x)]
pub fn light_x(label: Direction) -> (r: i32)
    ensures
        r == spec_light_x(label),
{
    match label {
        Direction::North | Direction::West => WINDOW_WIDTH / 2 - 90,
        Direction::South | Direction::East => WINDOW_WIDTH / 2 + LANE_WIDTH,
    }
}

/// `y` of the post of the light labelled `label`.
pub open spec fn spec_light_y(label: Direction) -> i32 {
    match label {
        Direction::North | Direction::East => 200,
        Direction::South | Direction::West => 350,
    }
}

#[verifier::when_used_as_spec(spec_light_y)]
pub fn light_y(label: Direction) -> (r: i32)
    ensures
        r == spec_light_y(label),
{
    match label {
        Direction::North | Direction::East => WINDOW_HEIGHT / 2 - 100,
        Direction::South | Direction::West => WINDOW_HEIGHT / 2 + LANE_WIDTH,
    }
}

/// Whether the point lies strictly inside the window widened by the view
/// margin on every side.
pub open spec fn spec_in_view(x: i32, y: i32) -> bool {
    -VIEW_MARGIN < x < WINDOW_WIDTH + VIEW_MARGIN && -VIEW_MARGIN < y < WINDOW_HEIGHT + VIEW_MARGIN
}

#[verifier::when_used_as_spec(spec_in_view)]
pub fn in_view(x: i32, y: i32) -> (r: bool)
    ensures
        r == spec_in_view(x, y),
{
    x > -VIEW_MARGIN && x < WINDOW_WIDTH + VIEW_MARGIN && y > -VIEW_MARGIN && y < WINDOW_HEIGHT
        + VIEW_MARGIN
}

/// The coordinate along the direction of travel past which a vehicle
/// heading `heading` has cleared the crossing.
pub open spec fn spec_far_line(heading: Direction) -> i32 {
    match heading {
        Direction::North => 250,
        Direction::South => 350,
        Direction::East => 450,
        Direction::West => 350,
    }
}

#[verifier::when_used_as_spec(spec_far_line)]
pub fn far_line(heading: Direction) -> (r: i32)
    ensures
        r == spec_far_line(heading),
{
    match heading {
        Direction::North => WINDOW_HEIGHT / 2 - LANE_WIDTH,
        Direction::South => WINDOW_HEIGHT / 2 + LANE_WIDTH,
        Direction::East => WINDOW_WIDTH / 2 + LANE_WIDTH,
        Direction::West => WINDOW_WIDTH / 2 - LANE_WIDTH,
    }
}

/// The coordinate of `(x, y)` along which a vehicle heading `heading`
/// travels: `y` for north and south, `x` for east and west.
pub open spec fn spec_along(heading: Direction, x: i32, y: i32) -> i32 {
    if heading.spec_is_vertical() {
        y
    } else {
        x
    }
}

#[verifier::when_used_as_spec(spec_along)]
pub fn along(heading: Direction, x: i32, y: i32) -> (r: i32)
    ensures
        r == spec_along(heading, x, y),
{
    if heading.is_vertical() {
        y
    } else {
        x
    }
}

/// The coordinate of `(x, y)` across the travel of a vehicle heading
/// `heading`: the one that tells its lane.
pub open spec fn spec_across(heading: Direction, x: i32, y: i32) -> i32 {
    if heading.spec_is_vertical() {
        x
    } else {
        y
    }
}

#[verifier::when_used_as_spec(spec_across)]
pub fn across(heading: Direction, x: i32, y: i32) -> (r: i32)
    ensures
        r == spec_across(heading, x, y),
{
    if heading.is_vertical() {
        x
    } else {
        y
    }
}

/// How far a vehicle heading `heading` at coordinate `at` along its travel
/// still has to go to `line`; negative once it is past.
pub open spec fn distance_to(heading: Direction, at: i32, line: i32) -> int {
    match heading {
        Direction::North | Direction::West => at - line,
        Direction::South | Direction::East => line - at,
    }
}

/// Whether a vehicle heading `heading` at coordinate `at` along its travel
/// has reached `line` or passed it.
pub open spec fn spec_reached(heading: Direction, at: i32, line: i32) -> bool {
    distance_to(heading, at, line) <= 0
}

#[verifier::when_used_as_spec(spec_reached)]
pub fn reached(heading: Direction, at: i32, line: i32) -> (r: bool)
    ensures
        r == spec_reached(heading, at, line),
{
    match heading {
        Direction::North | Direction::West => at <= line,
        Direction::South | Direction::East => at >= line,
    }
}

/// The coordinate along its travel at which a vehicle heading `heading`
/// makes `turn`: for a left or right turn the lane that carries the heading
/// it turns into, for straight on the far line of the crossing.
pub open spec fn spec_maneuver_line(heading: Direction, turn: Turn) -> i32 {
    match turn {
        Turn::Front => spec_far_line(heading),
        _ => spec_lane(heading.spec_after(turn)),
    }
}

#[verifier::when_used_as_spec(spec_maneuver_line)]
pub fn maneuver_line(heading: Direction, turn: Turn) -> (r: i32)
    ensures
        r == spec_maneuver_line(heading, turn),
{
    match turn {
        Turn::Front => far_line(heading),
        _ => lane(heading.after(turn)),
    }
}

/// Whether a vehicle at `(x, y)` keeps to the lane that carries `heading`,
/// within the lane tolerance.
pub open spec fn spec_in_lane(heading: Direction, x: i32, y: i32) -> bool {
    -LANE_TOLERANCE < spec_across(heading, x, y) - spec_lane(heading) < LANE_TOLERANCE
}

#[verifier::when_used_as_spec(spec_in_lane)]
pub fn in_lane(heading: Direction, x: i32, y: i32) -> (r: bool)
    ensures
        r == spec_in_lane(heading, x, y),
{
    let off: i64 = across(heading, x, y) as i64 - lane(heading) as i64;
    -(LANE_TOLERANCE as i64) < off && off < LANE_TOLERANCE as i64
}

/// Whether the maneuver of a vehicle heading `heading` with `turn` is due at
/// `(x, y)`.
///
/// It is once the vehicle has reached its maneuver line or passed it. For a
/// left or right turn the vehicle must also be in the lane of its heading:
/// the two together single out the point where that lane meets the lane it
/// turns into, and whatever lies past that point on the same lane.
pub open spec fn spec_at_maneuver(heading: Direction, turn: Turn, x: i32, y: i32) -> bool {
    &&& spec_reached(heading, spec_along(heading, x, y), spec_maneuver_line(heading, turn))
    &&& turn != Turn::Front ==> spec_in_lane(heading, x, y)
}

#[verifier::when_used_as_spec(spec_at_maneuver)]
pub fn at_maneuver(heading: Direction, turn: Turn, x: i32, y: i32) -> (r: bool)
    ensures
        r == spec_at_maneuver(heading, turn, x, y),
{
    reached(heading, along(heading, x, y), maneuver_line(heading, turn)) && (turn == Turn::Front
        || in_lane(heading, x, y))
}

/// Number of entries in the palette that entering vehicles are drawn from.
pub const STYLES: usize = 3;

/// The paint and turn at position `i` of the palette: dark blue turns left,
/// pink turns right, gold goes straight on.
pub open spec fn spec_style(i: usize) -> (Col, Turn) {
    if i == 0 {
        (Col::Darkblue, Turn::Left)
    } else if i == 1 {
        (Col::Pink, Turn::Right)
    } else {
        (Col::Gold, Turn::Front)
    }
}

#[verifier::when_used_as_spec(spec_style)]
pub fn style(i: usize) -> (r: (Col, Turn))
    requires
        i < STYLES,
    ensures
        r == spec_style(i),
{
    if i == 0 {
        (Col::Darkblue, Turn::Left)
    } else if i == 1 {
        (Col::Pink, Turn::Right)
    } else {
        (Col::Gold, Turn::Front)
    }
}

impl Col {
    /// Red, green, blue and opacity of the paint, each from 0 to 255.
    pub open spec fn spec_rgba(self) -> (u8, u8, u8, u8) {
        match self {
            Col::Darkblue => (0, 0, 139, 255),
            Col::Pink => (255, 105, 180, 255),
            Col::Gold => (255, 215, 0, 255),
        }
    }

    #[verifier::when_used_as_spec(spec_rgba)]
    pub fn rgba(self) -> (r: (u8, u8, u8, u8))
        ensures
            r == self.spec_rgba(),
    {
        match self {
            Col::Darkblue => (0, 0, 139, 255),
            Col::Pink => (255, 105, 180, 255),
            Col::Gold => (255, 215, 0, 255),
        }
    }
}

} // verus!
