//! The heading state machine: which quarter turn, if any, an arrow key
//! causes, and the velocity that goes with each heading.

use vstd::prelude::*;
use crate::vector::{Coords, Vector};

verus! {

/// Speed of the bike in the standard arena, in coordinate steps per second.
pub const BIKE_SPEED: u32 = 4_000;

/// The four cardinal headings a bike can travel in.
#[derive(Clone, Copy, Debug, PartialEq, Eq, Structural)]
pub enum Direction {
    Forward,
    Right,
    Left,
    Back,
}

/// The four arrow keys.
#[derive(Clone, Copy, Debug, PartialEq, Eq, Structural)]
pub enum Key {
    Right,
    Left,
    Up,
    Down,
}

/// A quarter turn about the vertical axis, as seen from above.
#[derive(Clone, Copy, Debug, PartialEq, Eq, Structural)]
pub enum Rotation {
    /// Yaw of -90 degrees.
    Clockwise,
    /// Yaw of +90 degrees.
    CounterClockwise,
}

/// What a key press does to the bike: its new heading, the quarter turn to
/// add to its orientation, and its new velocity.
#[derive(Clone, Copy, Debug, PartialEq, Eq, Structural)]
pub struct Turn {
    pub direction: Direction,
    pub rotation: Rotation,
    pub velocity: Vector,
}

/// The arrow keys that went down during one tick.
#[derive(Clone, Copy, Debug, PartialEq, Eq, Structural)]
pub struct Keys {
    pub right: bool,
    pub left: bool,
    pub up: bool,
    pub down: bool,
}

/// The bike's heading and its constant speed, in coordinate steps per second.
#[derive(Clone, Copy, Debug, PartialEq, Eq, Structural)]
pub struct Bike {
    pub direction: Direction,
    pub speed: u32,
}

/// The table of legal turns: the heading and quarter turn that `key` leads
/// to from heading `from`, or `None` where the key is ignored. Only the two
/// headings at right angles to the current one can be reached.
pub open spec fn legal_turn(from: Direction, key: Key) -> Option<(Direction, Rotation)> {
    match (from, key) {
        (Direction::Forward, Key::Right) => Some((Direction::Right, Rotation::Clockwise)),
        (Direction::Forward, Key::Left) => Some((Direction::Left, Rotation::CounterClockwise)),
        (Direction::Right, Key::Down) => Some((Direction::Back, Rotation::Clockwise)),
        (Direction::Right, Key::Up) => Some((Direction::Forward, Rotation::CounterClockwise)),
        (Direction::Left, Key::Down) => Some((Direction::Back, Rotation::CounterClockwise)),
        (Direction::Left, Key::Up) => Some((Direction::Forward, Rotation::Clockwise)),
        (Direction::Back, Key::Right) => Some((Direction::Right, Rotation::CounterClockwise)),
        (Direction::Back, Key::Left) => Some((Direction::Left, Rotation::Clockwise)),
        _ => None,
    }
}

/// The key that takes effect when the keys in `pressed` went down together
/// while heading `from`: the first of the heading's two watched keys that is
/// among them.
pub open spec fn chosen_key(from: Direction, pressed: Set<Key>) -> Option<Key> {
    let (first, second) = from.watched();
    if pressed.contains(first) {
        Some(first)
    } else if pressed.contains(second) {
        Some(second)
    } else {
        None
    }
}

/// `v` turned about the vertical axis by the quarter turn `rotation`.
pub open spec fn rotate_yaw(v: Coords, rotation: Rotation) -> Coords {
    match rotation {
        Rotation::Clockwise => Coords { x: -v.z, y: v.y, z: v.x },
        Rotation::CounterClockwise => Coords { x: v.z, y: v.y, z: -v.x },
    }
}

impl Rotation {
    /// The signed number of quarter turns: -1 clockwise, +1 counter-clockwise.
    pub open spec fn quarters(self) -> int {
        match self {
            Rotation::Clockwise => -1,
            Rotation::CounterClockwise => 1,
        }
    }

    /// The signed number of quarter turns of yaw.
    pub fn quarter_turns(self) -> (q: i8)
        ensures
            q == self.quarters(),
    {
        match self {
            Rotation::Clockwise => -1,
            Rotation::CounterClockwise => 1,
        }
    }

    /// The yaw in degrees.
    pub fn degrees(self) -> (d: i16)
        ensures
            d == 90 * self.quarters(),
    {
        match self {
            Rotation::Clockwise => -90,
            Rotation::CounterClockwise => 90,
        }
    }
}

impl View for Keys {
    type V = Set<Key>;

    /// The set of keys that went down.
    open spec fn view(&self) -> Set<Key> {
        Set::new(|key: Key| self.has(key))
    }
}

impl Keys {
    /// Whether `key` went down.
    pub open spec fn has(self, key: Key) -> bool {
        match key {
            Key::Right => self.right,
            Key::Left => self.left,
            Key::Up => self.up,
            Key::Down => self.down,
        }
    }

    /// A tick on which no key went down.
    pub fn none() -> (keys: Keys)
        ensures
            keys@ == Set::<Key>::empty(),
    {
        let keys = Keys { right: false, left: false, up: false, down: false };
        assert(keys@ =~= Set::<Key>::empty());
        keys
    }

    /// A tick on which `key` alone went down.
    pub fn only(key: Key) -> (keys: Keys)
        ensures
            keys@ == set![key],
    {
        let keys = Keys {
            right: matches!(key, Key::Right),
            left: matches!(key, Key::Left),
            up: matches!(key, Key::Up),
            down: matches!(key, Key::Down),
        };
        assert(keys@ =~= set![key]);
        keys
    }

    /// Whether `key` went down.
    pub fn pressed(&self, key: Key) -> (hit: bool)
        ensures
            hit == self@.contains(key),
    {
        match key {
            Key::Right => self.right,
            Key::Left => self.left,
            Key::Up => self.up,
            Key::Down => self.down,
        }
    }
}

impl Direction {
    /// The heading directly opposite to this one.
    pub open spec fn opposite(self) -> Direction {
        match self {
            Direction::Forward => Direction::Back,
            Direction::Right => Direction::Left,
            Direction::Left => Direction::Right,
            Direction::Back => Direction::Forward,
        }
    }

    /// The two keys a bike on this heading listens to, in the order in which
    /// they are checked.
    pub open spec fn watched(self) -> (Key, Key) {
        match self {
            Direction::Forward | Direction::Back => (Key::Right, Key::Left),
            Direction::Right | Direction::Left => (Key::Down, Key::Up),
        }
    }

    /// The orientation that goes with this heading, in quarter turns of yaw
    /// counted counter-clockwise from `Forward`.
    pub open spec fn yaw(self) -> int {
        match self {
            Direction::Forward => 0,
            Direction::Left => 1,
            Direction::Back => 2,
            Direction::Right => 3,
        }
    }

    /// The velocity of a bike on this heading at the given speed.
    pub open spec fn travel(self, speed: u32) -> Vector {
        match self {
            Direction::Forward => Vector { x: 0, y: 0, z: speed as i64 },
            Direction::Back => Vector { x: 0, y: 0, z: (-(speed as int)) as i64 },
            Direction::Left => Vector { x: speed as i64, y: 0, z: 0 },
            Direction::Right => Vector { x: (-(speed as int)) as i64, y: 0, z: 0 },
        }
    }

    /// The two keys a bike on this heading listens to, in checking order.
    pub fn watched_keys(self) -> (keys: (Key, Key))
        ensures
            keys == self.watched(),
    {
        match self {
            Direction::Forward => (Key::Right, Key::Left),
            Direction::Back => (Key::Right, Key::Left),
            Direction::Right => (Key::Down, Key::Up),
            Direction::Left => (Key::Down, Key::Up),
        }
    }

    /// The orientation that goes with this heading, in quarter turns of yaw
    /// counted counter-clockwise from `Forward`.
    pub fn yaw_quarter_turns(self) -> (q: u8)
        ensures
            q == self.yaw(),
    {
        match self {
            Direction::Forward => 0,
            Direction::Left => 1,
            Direction::Back => 2,
            Direction::Right => 3,
        }
    }

    /// The velocity of a bike on this heading: along one axis, and of length
    /// exactly `speed`.
    pub fn velocity(self, speed: u32) -> (v: Vector)
        ensures
            v == self.travel(speed),
            v@.norm_squared() == speed * speed,
            speed > 0 ==> v@.on_one_axis(),
    {
        let forth: i64 = speed as i64;
        let back: i64 = -forth;
        assert(back * back == forth * forth) by (nonlinear_arith)
            requires
                back == -forth,
        ;
        match self {
            Direction::Forward => Vector { x: 0, y: 0, z: forth },
            Direction::Back => Vector { x: 0, y: 0, z: back },
            Direction::Left => Vector { x: forth, y: 0, z: 0 },
            Direction::Right => Vector { x: back, y: 0, z: 0 },
        }
    }

    /// Looks `key` up in the table of legal turns.
    pub fn turn(self, key: Key) -> (next: Option<(Direction, Rotation)>)
        ensures
            next == legal_turn(self, key),
    {
        match self {
            Direction::Forward => match key {
                Key::Right => Some((Direction::Right, Rotation::Clockwise)),
                Key::Left => Some((Direction::Left, Rotation::CounterClockwise)),
                _ => None,
            },
            Direction::Right => match key {
                Key::Down => Some((Direction::Back, Rotation::Clockwise)),
                Key::Up => Some((Direction::Forward, Rotation::CounterClockwise)),
                _ => None,
            },
            Direction::Left => match key {
                Key::Down => Some((Direction::Back, Rotation::CounterClockwise)),
                Key::Up => Some((Direction::Forward, Rotation::Clockwise)),
                _ => None,
            },
            Direction::Back => match key {
                Key::Right => Some((Direction::Right, Rotation::CounterClockwise)),
                Key::Left => Some((Direction::Left, Rotation::Clockwise)),
                _ => None,
            },
        }
    }
}

impl Bike {
    /// The turn that the keys in `pressed` cause, or `None` where they leave
    /// the bike alone.
    pub open spec fn steered(self, pressed: Set<Key>) -> Option<Turn> {
        match chosen_key(self.direction, pressed) {
            Some(key) => match legal_turn(self.direction, key) {
                Some((direction, rotation)) => Some(
                    Turn { direction, rotation, velocity: direction.travel(self.speed) },
                ),
                None => None,
            },
            None => None,
        }
    }

    /// The bike after a tick on which the keys in `pressed` went down.
    pub open spec fn after(self, pressed: Set<Key>) -> Bike {
        match self.steered(pressed) {
            Some(turn) => Bike { direction: turn.direction, speed: self.speed },
            None => self,
        }
    }

    /// The bike after the ticks in `ticks`, taken in order.
    pub open spec fn after_all(self, ticks: Seq<Set<Key>>) -> Bike
        decreases ticks.len(),
    {
        if ticks.len() == 0 {
            self
        } else {
            self.after(ticks.first()).after_all(ticks.drop_first())
        }
    }

    /// A bike heading `Forward` at the given speed.
    pub fn new(speed: u32) -> (bike: Bike)
        ensures
            bike == (Bike { direction: Direction::Forward, speed }),
    {
        Bike { direction: Direction::Forward, speed }
    }

    /// The bike's current velocity: along its heading, of length `speed`.
    pub fn velocity(&self) -> (v: Vector)
        ensures
            v == self.direction.travel(self.speed),
            v@.norm_squared() == self.speed * self.speed,
    {
        self.direction.velocity(self.speed)
    }

    /// Applies one tick of input. Of the keys that went down, the first one
    /// that the current heading watches takes effect; the bike then changes
    /// heading and the turn is returned. Any other input leaves the bike as
    /// it is and returns `None`.
    pub fn steer(&mut self, keys: Keys) -> (turn: Option<Turn>)
        ensures
            turn == old(self).steered(keys@),
            *final(self) == old(self).after(keys@),
    {
        let (first, second) = self.direction.watched_keys();
        let key = if keys.pressed(first) {
            first
        } else if keys.pressed(second) {
            second
        } else {
            return None;
        };
        match self.direction.turn(key) {
            Some((direction, rotation)) => {
                self.direction = direction;
                Some(Turn { direction, rotation, velocity: direction.velocity(self.speed) })
            },
            None => None,
        }
    }
}

/// A key is acted on exactly when the current heading watches it.
pub proof fn legal_turn_iff_watched(from: Direction, key: Key)
    ensures
        legal_turn(from, key) is Some <==> (key == from.watched().0 || key == from.watched().1),
{
}

/// A turn never keeps the heading and never reverses it.
pub proof fn turn_is_at_right_angles(from: Direction, key: Key)
    ensures
        legal_turn(from, key) matches Some((to, _)) ==> to != from && to != from.opposite(),
{
}

/// The orientation follows the heading: adding the turn's quarter turn to
/// the yaw of the old heading gives the yaw of the new one, so the quarter
/// turns of a whole session add up to the yaw of the current heading.
pub proof fn turn_composes_yaw(from: Direction, key: Key)
    ensures
        legal_turn(from, key) matches Some((to, rotation)) ==> to.yaw() == (from.yaw()
            + rotation.quarters()) % 4,
{
}

/// The velocity turns with the bike: the velocity after a turn is the
/// velocity before it, rotated by the same quarter turn.
pub proof fn turn_rotates_velocity(from: Direction, key: Key, speed: u32)
    ensures
        legal_turn(from, key) matches Some((to, rotation)) ==> to.travel(speed)@ == rotate_yaw(
            from.travel(speed)@,
            rotation,
        ),
{
}

/// The speed never changes: on every heading, and so after any input, the
/// velocity has length exactly `speed` and lies along one axis.
pub proof fn speed_is_constant(bike: Bike, pressed: Set<Key>)
    ensures
        bike.after(pressed).speed == bike.speed,
        bike.after(pressed).direction.travel(bike.speed)@.norm_squared() == bike.speed
            * bike.speed,
        bike.speed > 0 ==> bike.after(pressed).direction.travel(bike.speed)@.on_one_axis(),
{
    let s = bike.speed as int;
    assert((-s) * (-s) == s * s) by (nonlinear_arith);
}

/// Input that the current heading does not watch changes nothing.
pub proof fn unwatched_input_is_ignored(bike: Bike, pressed: Set<Key>)
    requires
        !pressed.contains(bike.direction.watched().0),
        !pressed.contains(bike.direction.watched().1),
    ensures
        bike.steered(pressed) is None,
        bike.after(pressed) == bike,
{
}

/// Four right turns in a row (Right, Down, Left, Up) take a bike that heads
/// `Forward` through `Right`, `Back` and `Left` back to `Forward` with the
/// velocity it started with, each by a clockwise quarter turn.
pub proof fn four_right_turns_come_round(bike: Bike)
    requires
        bike.direction == Direction::Forward,
    ensures
        ({
            let first = bike.after(set![Key::Right]);
            let second = first.after(set![Key::Down]);
            let third = second.after(set![Key::Left]);
            let fourth = third.after(set![Key::Up]);
            &&& first.direction == Direction::Right
            &&& second.direction == Direction::Back
            &&& third.direction == Direction::Left
            &&& fourth == bike
            &&& fourth.direction.travel(fourth.speed) == bike.direction.travel(bike.speed)
            &&& bike.steered(set![Key::Right]).unwrap().rotation == Rotation::Clockwise
            &&& first.steered(set![Key::Down]).unwrap().rotation == Rotation::Clockwise
            &&& second.steered(set![Key::Left]).unwrap().rotation == Rotation::Clockwise
            &&& third.steered(set![Key::Up]).unwrap().rotation == Rotation::Clockwise
        }),
        bike.after_all(seq![set![Key::Right], set![Key::Down], set![Key::Left], set![Key::Up]])
            == bike,
{
    let ticks = seq![set![Key::Right], set![Key::Down], set![Key::Left], set![Key::Up]];
    reveal_with_fuel(Bike::after_all, 5);
    assert(ticks.drop_first() =~= seq![set![Key::Down], set![Key::Left], set![Key::Up]]);
    assert(ticks.drop_first().drop_first() =~= seq![set![Key::Left], set![Key::Up]]);
    assert(ticks.drop_first().drop_first().drop_first() =~= seq![set![Key::Up]]);
}

/// Ticks on which no key goes down leave the bike as it is, however many
/// there are.
pub proof fn idle_ticks_change_nothing(bike: Bike, ticks: Seq<Set<Key>>)
    requires
        forall|i: int| 0 <= i < ticks.len() ==> ticks[i] == Set::<Key>::empty(),
    ensures
        bike.after_all(ticks) == bike,
    decreases ticks.len(),
{
    if ticks.len() > 0 {
        assert(ticks.first() == Set::<Key>::empty());
        assert(bike.after(ticks.first()) == bike);
        let rest = ticks.drop_first();
        assert forall|i: int| 0 <= i < rest.len() implies rest[i] == Set::<Key>::empty() by {
            assert(rest[i] == ticks[i + 1]);
        }
        idle_ticks_change_nothing(bike, rest);
    }
}

/// A key that is held down turns the bike once. The press is reported on
/// one tick only, and the ticks that follow, on which nothing new goes down,
/// change nothing; even a second report of the same key could not turn the
/// bike again, since no heading is left by the key that led to it.
pub proof fn held_key_turns_once(bike: Bike, key: Key, ticks: Seq<Set<Key>>)
    requires
        forall|i: int| 0 <= i < ticks.len() ==> ticks[i] == Set::<Key>::empty(),
    ensures
        bike.after(set![key]).after_all(ticks) == bike.after(set![key]),
        bike.after(set![key]).after(set![key]) == bike.after(set![key]),
{
    idle_ticks_change_nothing(bike.after(set![key]), ticks);
}

} // verus!
