use vstd::prelude::*;

use crate::game::{collides, hits_self, SnakeGameLogic};
use crate::geometry::{Coord, Direction};

verus! {

/// The glyph of the head, pointing where the snake heads.
pub open spec fn spec_head_glyph(d: Direction) -> char {
    match d {
        Direction::Up => '^',
        Direction::Down => 'v',
        Direction::Left => '<',
        Direction::Right => '>',
    }
}

/// What the frame of `g` shows at cell `c`: the food over the body, the body
/// over the head, the head over walls and blank interior.
pub open spec fn spec_glyph(g: SnakeGameLogic, c: Coord) -> char {
    let w = g.field_size.0;
    let h = g.field_size.1;
    if c == g.pos_feed {
        '@'
    } else if hits_self(g.body@, c) {
        'x'
    } else if c == g.body@[0] {
        spec_head_glyph(g.dir)
    } else if c.1 == 0 || c.1 + 1 == h {
        if c.0 == 0 || c.0 + 1 == w {
            '+'
        } else {
            '-'
        }
    } else if c.0 == 0 || c.0 + 1 == w {
        '|'
    } else {
        ' '
    }
}

pub fn head_glyph(d: Direction) -> (r: char)
    ensures
        r == spec_head_glyph(d),
{
    match d {
        Direction::Up => '^',
        Direction::Down => 'v',
        Direction::Left => '<',
        Direction::Right => '>',
    }
}

impl SnakeGameLogic {
    /// The glyph shown at cell `c`.
    pub fn glyph(&self, c: Coord) -> (r: char)
        requires
            self.body@.len() > 0,
        ensures
            r == spec_glyph(*self, c),
    {
        let w = self.field_size.0 as u32;
        let h = self.field_size.1 as u32;
        if c == self.pos_feed {
            '@'
        } else if collides(&self.body, c) {
            'x'
        } else if c == self.body[0] {
            head_glyph(self.dir)
        } else if c.1 == 0 || c.1 as u32 + 1 == h {
            if c.0 == 0 || c.0 as u32 + 1 == w {
                '+'
            } else {
                '-'
            }
        } else if c.0 == 0 || c.0 as u32 + 1 == w {
            '|'
        } else {
            ' '
        }
    }

    /// The whole field as rows of glyphs, top row first, walls included.
    pub fn frame(&self) -> (rows: Vec<Vec<char>>)
        requires
            self.body@.len() > 0,
        ensures
            rows@.len() == self.field_size.1,
            forall|y: int| 0 <= y < rows@.len() ==> (#[trigger] rows@[y])@.len() == self.field_size.0,
            forall|y: int, x: int|
                0 <= y < rows@.len() && 0 <= x < self.field_size.0 ==> #[trigger] rows@[y]@[x]
                    == spec_glyph(*self, Coord(x as u16, y as u16)),
    {
        let w = self.field_size.0;
        let h = self.field_size.1;
        let mut rows: Vec<Vec<char>> = Vec::new();
        let mut y: u16 = 0;
        while y < h
            invariant
                self.body@.len() > 0,
                w == self.field_size.0,
                h == self.field_size.1,
                y <= h,
                rows@.len() == y,
                forall|yy: int| 0 <= yy < y ==> (#[trigger] rows@[yy])@.len() == w,
                forall|yy: int, x: int|
                    0 <= yy < y && 0 <= x < w ==> #[trigger] rows@[yy]@[x] == spec_glyph(
                        *self,
                        Coord(x as u16, yy as u16),
                    ),
            decreases h - y,
        {
            let mut row: Vec<char> = Vec::new();
            let mut x: u16 = 0;
            while x < w
                invariant
                    self.body@.len() > 0,
                    w == self.field_size.0,
                    x <= w,
                    row@.len() == x,
                    forall|xx: int| 0 <= xx < x ==> row@[xx] == spec_glyph(*self, Coord(xx as u16, y)),
                decreases w - x,
            {
                row.push(self.glyph(Coord(x, y)));
                x += 1;
            }
            rows.push(row);
            y += 1;
        }
        rows
    }
}

} // verus!
