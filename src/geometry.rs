use vstd::prelude::*;

verus! {

/// One of the four directions in which the snake can head.
#[derive(Clone, Copy, Debug, PartialEq, Eq, Structural)]
pub enum Direction {
    Up,
    Down,
    Left,
    Right,
}

/// The direction that points the other way.
pub open spec fn spec_opposite(d: Direction) -> Direction {
    match d {
        Direction::Up => Direction::Down,
        Direction::Down => Direction::Up,
        Direction::Left => Direction::Right,
        Direction::Right => Direction::Left,
    }
}

impl Direction {
    pub fn opposite(&self) -> (r: Direction)
        ensures
            r == spec_opposite(*self),
    {
        match self {
            Direction::Up => Direction::Down,
            Direction::Down => Direction::Up,
            Direction::Left => Direction::Right,
            Direction::Right => Direction::Left,
        }
    }
}

/// Turning around twice faces the way one started.
pub proof fn lemma_opposite_involutive(d: Direction)
    ensures
        spec_opposite(spec_opposite(d)) == d,
{
}

/// The dimensions of the field, walls included: width, then height.
#[derive(Clone, Copy, Debug, PartialEq, Eq, Structural)]
pub struct Size(pub u16, pub u16);

/// A cell of the field: column, then row, counted from the top left corner.
#[derive(Clone, Copy, Debug, PartialEq, Eq, Structural)]
pub struct Coord(pub u16, pub u16);

/// Whether a step from `c` in direction `d` stays within the range of `u16`.
pub open spec fn can_shift(c: Coord, d: Direction) -> bool {
    match d {
        Direction::Up => c.1 > 0,
        Direction::Down => c.1 < u16::MAX,
        Direction::Left => c.0 > 0,
        Direction::Right => c.0 < u16::MAX,
    }
}

/// The neighbour of `c` in direction `d`.
pub open spec fn shifted(c: Coord, d: Direction) -> Coord
    recommends
        can_shift(c, d),
{
    match d {
        Direction::Up => Coord(c.0, (c.1 - 1) as u16),
        Direction::Down => Coord(c.0, (c.1 + 1) as u16),
        Direction::Left => Coord((c.0 - 1) as u16, c.1),
        Direction::Right => Coord((c.0 + 1) as u16, c.1),
    }
}

/// Whether `c` lies in the box spanned by `min` and `max`, bounds included.
pub open spec fn in_box(c: Coord, min: Coord, max: Coord) -> bool {
    min.0 <= c.0 <= max.0 && min.1 <= c.1 <= max.1
}

/// Relies on rand::random::<u16>, a draw from the thread-local generator;
/// nothing is known of the value drawn.
#[verifier::external_body]
fn draw_u16() -> (r: u16) {
    rand::random::<u16>()
}

impl Coord {
    /// The neighbouring cell in direction `dir`.
    pub fn adjacent(&self, dir: &Direction) -> (r: Coord)
        requires
            can_shift(*self, *dir),
        ensures
            r == shifted(*self, *dir),
    {
        match dir {
            Direction::Up => Coord(self.0, self.1 - 1),
            Direction::Down => Coord(self.0, self.1 + 1),
            Direction::Left => Coord(self.0 - 1, self.1),
            Direction::Right => Coord(self.0 + 1, self.1),
        }
    }

    /// A random cell of the box spanned by `min` and `max`, each axis drawn on
    /// its own.
    pub fn rand(min: &Coord, max: &Coord) -> (r: Coord)
        requires
            min.0 <= max.0,
            min.1 <= max.1,
        ensures
            in_box(r, *min, *max),
    {
        let x = Self::offset_in(min.0, max.0, draw_u16());
        let y = Self::offset_in(min.1, max.1, draw_u16());
        Coord(x, y)
    }

    /// Maps a drawn value `draw` into `lo..=hi` by taking it modulo the width
    /// of the range.
    pub fn offset_in(lo: u16, hi: u16, draw: u16) -> (r: u16)
        requires
            lo <= hi,
        ensures
            r as int == lo as int + (draw as int) % (hi as int - lo as int + 1),
            lo <= r <= hi,
    {
        let span: u32 = hi as u32 - lo as u32 + 1;
        let off: u32 = draw as u32 % span;
        (lo as u32 + off) as u16
    }
}

} // verus!
