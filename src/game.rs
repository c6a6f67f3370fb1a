use vstd::prelude::*;

use crate::geometry::{shifted, spec_opposite, Coord, Direction, Size};

verus! {

/// The length of the snake when a game starts.
pub const INITIAL_LENGTH: usize = 3;

/// How many random cells are tried for new food before the field is scanned.
pub const FOOD_DRAWS: usize = 64;

/// Whether `c` lies strictly inside the walls of a field of size `size`.
pub open spec fn interior(size: Size, c: Coord) -> bool {
    1 <= c.0 && c.0 + 1 < size.0 && 1 <= c.1 && c.1 + 1 < size.1
}

/// Whether `c` is an interior cell that no cell of `body` covers.
pub open spec fn is_free(size: Size, body: Seq<Coord>, c: Coord) -> bool {
    interior(size, c) && !body.contains(c)
}

/// Whether some interior cell is not covered by `body`.
pub open spec fn has_free(size: Size, body: Seq<Coord>) -> bool {
    exists|c: Coord| is_free(size, body, c)
}

/// Row-major order: `a` lies in an earlier row than `b`, or left of it in the same row.
pub open spec fn precedes(a: Coord, b: Coord) -> bool {
    a.1 < b.1 || (a.1 == b.1 && a.0 < b.0)
}

/// `c` is the first free cell of the field in row-major order.
pub open spec fn is_first_free(size: Size, body: Seq<Coord>, c: Coord) -> bool {
    &&& is_free(size, body, c)
    &&& forall|o: Coord| #[trigger] precedes(o, c) && interior(size, o) ==> body.contains(o)
}

/// The first of `cands` that is free, if any.
pub open spec fn first_free_of(size: Size, body: Seq<Coord>, cands: Seq<Coord>) -> Option<Coord>
    decreases cands.len(),
{
    if cands.len() == 0 {
        None
    } else if is_free(size, body, cands[0]) {
        Some(cands[0])
    } else {
        first_free_of(size, body, cands.drop_first())
    }
}

/// Where food goes once the snake `body` has eaten the food at `prev`: the
/// first free candidate; else the first free cell of the field; else, on a
/// full field, nowhere new.
pub open spec fn placed_food(
    size: Size,
    body: Seq<Coord>,
    cands: Seq<Coord>,
    prev: Coord,
    f: Coord,
) -> bool {
    match first_free_of(size, body, cands) {
        Some(c) => f == c,
        None => if has_free(size, body) {
            is_first_free(size, body, f)
        } else {
            f == prev
        },
    }
}

/// Some cell of `body` other than its head lies on `c`.
pub open spec fn hits_self(body: Seq<Coord>, c: Coord) -> bool {
    exists|i: int| 1 <= i < body.len() && body[i] == c
}

/// No two cells of `body` coincide.
pub open spec fn distinct(body: Seq<Coord>) -> bool {
    forall|i: int, j: int| 0 <= i < j < body.len() ==> body[i] != body[j]
}

proof fn lemma_first_free_is_free(size: Size, body: Seq<Coord>, cands: Seq<Coord>)
    ensures
        first_free_of(size, body, cands) matches Some(c) ==> is_free(size, body, c),
    decreases cands.len(),
{
    if cands.len() > 0 && !is_free(size, body, cands[0]) {
        lemma_first_free_is_free(size, body, cands.drop_first());
    }
}

/// Whether `body` covers `c`.
pub fn occupies(body: &Vec<Coord>, c: Coord) -> (r: bool)
    ensures
        r == body@.contains(c),
{
    let mut i: usize = 0;
    while i < body.len()
        invariant
            i <= body.len(),
            forall|k: int| 0 <= k < i ==> body@[k] != c,
        decreases body.len() - i,
    {
        if body[i] == c {
            return true;
        }
        i += 1;
    }
    false
}

/// Whether a cell of `body` other than its head lies on `c`.
pub fn collides(body: &Vec<Coord>, c: Coord) -> (r: bool)
    ensures
        r == hits_self(body@, c),
{
    let mut i: usize = 1;
    while i < body.len()
        invariant
            1 <= i,
            forall|k: int| 1 <= k < i && k < body.len() ==> body@[k] != c,
        decreases body.len() - i,
    {
        if body[i] == c {
            return true;
        }
        i += 1;
    }
    false
}

/// Whether `c` lies strictly inside the walls of a field of size `size`.
pub fn inside(size: Size, c: Coord) -> (r: bool)
    ensures
        r == interior(size, c),
{
    1 <= c.0 && (c.0 as u32) + 1 < size.0 as u32 && 1 <= c.1 && (c.1 as u32) + 1 < size.1 as u32
}

/// The first free cell of the field in row-major order, or `None` when the
/// body covers the whole interior.
pub fn first_free_cell(size: Size, body: &Vec<Coord>) -> (r: Option<Coord>)
    ensures
        r matches Some(c) ==> is_first_free(size, body@, c),
        r is None ==> !has_free(size, body@),
{
    let mut y: u16 = 1;
    while (y as u32) + 1 < size.1 as u32
        invariant
            1 <= y,
            forall|o: Coord| interior(size, o) && o.1 < y ==> #[trigger] body@.contains(o),
        decreases size.1 - y,
    {
        let mut x: u16 = 1;
        while (x as u32) + 1 < size.0 as u32
            invariant
                1 <= x,
                1 <= y,
                (y as u32) + 1 < size.1 as u32,
                forall|o: Coord|
                    interior(size, o) && (o.1 < y || (o.1 == y && o.0 < x)) ==> #[trigger] body@.contains(o),
            decreases size.0 - x,
        {
            let c = Coord(x, y);
            if !occupies(body, c) {
                assert forall|o: Coord| #[trigger] precedes(o, c) && interior(size, o) implies body@.contains(o) by {}
                return Some(c);
            }
            x += 1;
        }
        y += 1;
    }
    assert forall|c: Coord| !is_free(size, body@, c) by {
        if interior(size, c) {
            assert(body@.contains(c));
        }
    }
    None
}

/// Where food goes once the snake `body` has eaten the food at `prev`: the
/// first free cell among `cands`, else the first free cell of the field, else
/// `prev` when the body fills the field.
pub fn pick_food(size: Size, body: &Vec<Coord>, cands: &Vec<Coord>, prev: Coord) -> (r: Coord)
    ensures
        placed_food(size, body@, cands@, prev, r),
{
    let mut i: usize = 0;
    assert(cands@.subrange(0, cands@.len() as int) =~= cands@);
    while i < cands.len()
        invariant
            i <= cands.len(),
            first_free_of(size, body@, cands@) == first_free_of(size, body@, cands@.subrange(i as int, cands@.len() as int)),
        decreases cands.len() - i,
    {
        let c = cands[i];
        assert(cands@.subrange(i as int + 1, cands@.len() as int) =~= cands@.subrange(i as int, cands@.len() as int).drop_first());
        if inside(size, c) && !occupies(body, c) {
            return c;
        }
        i += 1;
    }
    assert(cands@.subrange(i as int, cands@.len() as int).len() == 0);
    match first_free_cell(size, body) {
        Some(c) => c,
        None => prev,
    }
}

/// The state of one game: the field, the snake (head first), the food and
/// the direction in which the snake heads.
pub struct SnakeGameLogic {
    pub field_size: Size,
    pub body: Vec<Coord>,
    pub pos_feed: Coord,
    pub dir: Direction,
}

impl SnakeGameLogic {
    /// The snake has at least its initial length, and it and the food lie
    /// inside the walls.
    pub open spec fn wf(&self) -> bool {
        &&& self.body@.len() >= INITIAL_LENGTH
        &&& forall|i: int| 0 <= i < self.body@.len() ==> interior(self.field_size, #[trigger] self.body@[i])
        &&& interior(self.field_size, self.pos_feed)
    }

    /// No two cells of the snake coincide, and the food lies on none of them.
    pub open spec fn consistent(&self) -> bool {
        &&& distinct(self.body@)
        &&& !self.body@.contains(self.pos_feed)
    }

    pub open spec fn head(&self) -> Coord {
        self.body@[0]
    }

    /// The cell the head moves to on the next tick.
    pub open spec fn next_head(&self) -> Coord {
        shifted(self.head(), self.dir)
    }

    /// The snake after its head has moved to `next_head()` inside the walls:
    /// it keeps its tail when the head lands on the food.
    pub open spec fn moved_body(&self) -> Seq<Coord> {
        let grown = seq![self.next_head()] + self.body@;
        if self.next_head() == self.pos_feed {
            grown
        } else {
            grown.drop_last()
        }
    }

    /// The head lands on the food inside the walls on the next tick.
    pub open spec fn eats_next(&self) -> bool {
        interior(self.field_size, self.next_head()) && self.next_head() == self.pos_feed
    }

    pub open spec fn spec_score(&self) -> int {
        self.body@.len() - INITIAL_LENGTH
    }

    /// A new game: a snake of three cells in the second row, heading right,
    /// and food at (10, 10). The field must be large enough to hold both
    /// inside its walls.
    pub fn new(field_size: Size) -> (r: SnakeGameLogic)
        requires
            field_size.0 >= 12,
            field_size.1 >= 12,
        ensures
            r.field_size == field_size,
            r.body@ == seq![Coord(4, 2), Coord(3, 2), Coord(2, 2)],
            r.pos_feed == Coord(10, 10),
            r.dir == Direction::Right,
            r.wf(),
            r.consistent(),
            r.spec_score() == 0,
    {
        let body: Vec<Coord> = vec![Coord(4, 2), Coord(3, 2), Coord(2, 2)];
        let r = SnakeGameLogic { field_size, body, pos_feed: Coord(10, 10), dir: Direction::Right };
        assert(r.body@ == seq![Coord(4, 2), Coord(3, 2), Coord(2, 2)]);
        r
    }

    pub fn is_inner_field(&self, c: &Coord) -> (r: bool)
        ensures
            r == interior(self.field_size, *c),
    {
        inside(self.field_size, *c)
    }

    /// The number of food items eaten.
    pub fn score(&self) -> (r: usize)
        requires
            self.wf(),
        ensures
            r == self.spec_score(),
    {
        self.body.len() - INITIAL_LENGTH
    }

    /// Turns the snake towards `dir`, unless that is straight back.
    pub fn set_direction(&mut self, dir: Direction)
        ensures
            final(self).dir == (if dir == spec_opposite(old(self).dir) { old(self).dir } else { dir }),
            final(self).field_size == old(self).field_size,
            final(self).body@ == old(self).body@,
            final(self).pos_feed == old(self).pos_feed,
    {
        if self.dir.opposite() != dir {
            self.dir = dir;
        }
    }

    /// Moves the snake one cell, taking the food cell from `cands` (then from
    /// a scan of the field) when it eats. Returns whether the snake is still
    /// alive.
    pub fn step(&mut self, cands: &Vec<Coord>) -> (alive: bool)
        requires
            old(self).wf(),
        ensures
            final(self).wf(),
            ticked(*old(self), *final(self), alive),
            old(self).eats_next() ==> placed_food(
                old(self).field_size,
                final(self).body@,
                cands@,
                old(self).pos_feed,
                final(self).pos_feed,
            ),
    {
        let ghost pre = *self;
        let head = self.body[0];
        assert(interior(self.field_size, head));
        let next = head.adjacent(&self.dir);
        if !self.is_inner_field(&next) {
            return false;
        }
        self.body.insert(0, next);
        if next == self.pos_feed {
            assert(self.body@ =~= pre.moved_body());
            let food = pick_food(self.field_size, &self.body, cands, self.pos_feed);
            proof {
                lemma_first_free_is_free(self.field_size, self.body@, cands@);
            }
            self.pos_feed = food;
        } else {
            self.body.pop();
            assert(self.body@ =~= pre.moved_body());
        }
        assert forall|i: int| 0 <= i < self.body@.len() implies interior(self.field_size, #[trigger] self.body@[i]) by {
            if i > 0 {
                assert(self.body@[i] == pre.body@[i - 1]);
            }
        }
        !collides(&self.body, next)
    }

    /// Moves the snake one cell on a tick; when it eats, the food moves to a
    /// random free cell, or to the first free cell of the field when no draw
    /// was free. Returns whether the snake is still alive.
    pub fn advance(&mut self) -> (alive: bool)
        requires
            old(self).wf(),
        ensures
            final(self).wf(),
            ticked(*old(self), *final(self), alive),
            food_relocated(*old(self), *final(self)),
            old(self).consistent() && alive && (old(self).eats_next() ==> has_free(
                final(self).field_size,
                final(self).body@,
            )) ==> final(self).consistent(),
    {
        let ghost pre = *self;
        let head = self.body[0];
        assert(interior(self.field_size, head));
        let next = head.adjacent(&self.dir);
        let mut cands: Vec<Coord> = Vec::new();
        if self.is_inner_field(&next) && next == self.pos_feed {
            let max = Coord(self.field_size.0 - 2, self.field_size.1 - 2);
            let mut i: usize = 0;
            while i < FOOD_DRAWS
                invariant
                    max.0 >= 1,
                    max.1 >= 1,
                decreases FOOD_DRAWS - i,
            {
                cands.push(Coord::rand(&Coord(1, 1), &max));
                i += 1;
            }
        }
        let alive = self.step(&cands);
        proof {
            let size = self.field_size;
            let body = self.body@;
            lemma_first_free_is_free(size, body, cands@);
            if pre.consistent() && alive && interior(size, pre.next_head()) {
                let nh = pre.next_head();
                assert forall|i: int, j: int| 0 <= i < j < body.len() implies body[i] != body[j] by {
                    if i > 0 {
                        assert(body[i] == pre.body@[i - 1]);
                        assert(body[j] == pre.body@[j - 1]);
                    }
                }
                if nh != pre.pos_feed {
                    assert forall|i: int| 0 <= i < body.len() implies body[i] != pre.pos_feed by {
                        if i > 0 {
                            assert(body[i] == pre.body@[i - 1]);
                            assert(pre.body@.contains(pre.body@[i - 1]));
                        }
                    }
                }
            }
        }
        alive
    }
}

/// Where the food stands after a tick of `old` that gave `new`: on a free
/// cell when the snake ate and one is left, else where it was.
pub open spec fn food_relocated(old: SnakeGameLogic, new: SnakeGameLogic) -> bool {
    if old.eats_next() {
        if has_free(new.field_size, new.body@) {
            is_free(new.field_size, new.body@, new.pos_feed)
        } else {
            new.pos_feed == old.pos_feed
        }
    } else {
        new.pos_feed == old.pos_feed
    }
}

/// What one tick does to `old`, giving `new` and whether the snake lives,
/// apart from where new food goes when the snake eats: at a wall nothing
/// moves and the snake dies; else the head moves on, the tail follows unless
/// the head lands on the food, and the snake dies when the head lands on
/// another of its cells.
pub open spec fn ticked(old: SnakeGameLogic, new: SnakeGameLogic, alive: bool) -> bool {
    let nh = old.next_head();
    &&& new.field_size == old.field_size
    &&& new.dir == old.dir
    &&& if !interior(old.field_size, nh) {
        &&& !alive
        &&& new.body@ == old.body@
        &&& new.pos_feed == old.pos_feed
    } else {
        &&& new.body@ == old.moved_body()
        &&& alive == !hits_self(new.body@, nh)
        &&& nh != old.pos_feed ==> new.pos_feed == old.pos_feed
    }
}

/// A tick never shortens the snake, and lengthens it by exactly one cell
/// exactly when the new head lands on the food that was there before.
pub proof fn lemma_tick_length(old: SnakeGameLogic, new: SnakeGameLogic, alive: bool)
    requires
        old.wf(),
        ticked(old, new, alive),
    ensures
        new.body@.len() >= old.body@.len(),
        new.body@.len() == old.body@.len() + 1 <==> old.eats_next(),
        !old.eats_next() ==> new.body@.len() == old.body@.len(),
{
}

/// A tick kills the snake exactly when the new head would leave the
/// interior, or lands on a cell of the snake other than itself.
pub proof fn lemma_tick_death(old: SnakeGameLogic, new: SnakeGameLogic, alive: bool)
    requires
        old.wf(),
        ticked(old, new, alive),
    ensures
        !alive <==> (!interior(old.field_size, old.next_head()) || hits_self(
            new.body@,
            old.next_head(),
        )),
{
}

/// After a tick on which the snake grew, the food lies on no cell of the
/// snake, provided the snake left some interior cell free.
pub proof fn lemma_food_after_growth(old: SnakeGameLogic, new: SnakeGameLogic, alive: bool)
    requires
        old.wf(),
        ticked(old, new, alive),
        food_relocated(old, new),
        new.body@.len() > old.body@.len(),
        has_free(new.field_size, new.body@),
    ensures
        !new.body@.contains(new.pos_feed),
{
    lemma_tick_length(old, new, alive);
}

} // verus!
