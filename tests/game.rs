use snake::control::{key_event, on_event, Reaction, SnakeGameEvent};
use snake::game::{
    collides, first_free_cell, inside, occupies, pick_food, SnakeGameLogic, FOOD_DRAWS,
    INITIAL_LENGTH,
};
use snake::geometry::{Coord, Direction, Size};
use snake::render::head_glyph;

fn fresh() -> SnakeGameLogic {
    SnakeGameLogic::new(Size(20, 20))
}

fn all_directions() -> [Direction; 4] {
    [Direction::Up, Direction::Down, Direction::Left, Direction::Right]
}

#[test]
fn opposite_pairs() {
    assert_eq!(Direction::Up.opposite(), Direction::Down);
    assert_eq!(Direction::Down.opposite(), Direction::Up);
    assert_eq!(Direction::Left.opposite(), Direction::Right);
    assert_eq!(Direction::Right.opposite(), Direction::Left);
}

#[test]
fn opposite_twice_is_identity() {
    for d in all_directions() {
        assert_eq!(d.opposite().opposite(), d);
    }
}

#[test]
fn adjacent_cells() {
    let c = Coord(5, 7);
    assert_eq!(c.adjacent(&Direction::Up), Coord(5, 6));
    assert_eq!(c.adjacent(&Direction::Down), Coord(5, 8));
    assert_eq!(c.adjacent(&Direction::Left), Coord(4, 7));
    assert_eq!(c.adjacent(&Direction::Right), Coord(6, 7));
}

#[test]
fn offset_in_takes_the_draw_modulo_the_span() {
    assert_eq!(Coord::offset_in(1, 18, 0), 1);
    assert_eq!(Coord::offset_in(1, 18, 17), 18);
    assert_eq!(Coord::offset_in(1, 18, 18), 1);
    assert_eq!(Coord::offset_in(3, 3, 65535), 3);
    assert_eq!(Coord::offset_in(0, 65535, 65535), 65535);
    assert_eq!(Coord::offset_in(10, 14, 12), 12);
}

#[test]
fn rand_stays_in_its_box() {
    let min = Coord(1, 1);
    let max = Coord(18, 18);
    for _ in 0..1000 {
        let c = Coord::rand(&min, &max);
        assert!(1 <= c.0 && c.0 <= 18 && 1 <= c.1 && c.1 <= 18);
    }
    assert_eq!(Coord::rand(&Coord(4, 9), &Coord(4, 9)), Coord(4, 9));
}

#[test]
fn initial_state() {
    let g = fresh();
    assert_eq!(g.body, vec![Coord(4, 2), Coord(3, 2), Coord(2, 2)]);
    assert_eq!(g.dir, Direction::Right);
    assert_eq!(g.pos_feed, Coord(10, 10));
    assert_eq!(g.field_size, Size(20, 20));
    assert_eq!(g.score(), 0);
    assert_eq!(INITIAL_LENGTH, 3);
}

#[test]
fn inner_field_excludes_walls() {
    let g = fresh();
    assert!(g.is_inner_field(&Coord(1, 1)));
    assert!(g.is_inner_field(&Coord(18, 18)));
    assert!(!g.is_inner_field(&Coord(0, 5)));
    assert!(!g.is_inner_field(&Coord(19, 5)));
    assert!(!g.is_inner_field(&Coord(5, 0)));
    assert!(!g.is_inner_field(&Coord(5, 19)));
    assert!(!inside(Size(0, 0), Coord(0, 0)));
    assert!(!inside(Size(2, 2), Coord(1, 1)));
    assert!(inside(Size(3, 3), Coord(1, 1)));
}

#[test]
fn first_advance_moves_right() {
    let mut g = fresh();
    assert!(g.advance());
    assert_eq!(g.body, vec![Coord(5, 2), Coord(4, 2), Coord(3, 2)]);
    assert_eq!(g.score(), 0);
    assert_eq!(g.pos_feed, Coord(10, 10));
}

#[test]
fn reversal_is_rejected() {
    let mut g = fresh();
    g.set_direction(Direction::Left);
    assert_eq!(g.dir, Direction::Right);
}

#[test]
fn turns_other_than_reversal_succeed() {
    for cur in all_directions() {
        for d in all_directions() {
            let mut g = fresh();
            g.dir = cur;
            g.set_direction(d);
            if d == cur.opposite() {
                assert_eq!(g.dir, cur);
            } else {
                assert_eq!(g.dir, d);
            }
        }
    }
}

#[test]
fn eating_grows_and_moves_food() {
    let mut g = fresh();
    g.pos_feed = Coord(5, 2);
    assert!(g.advance());
    assert_eq!(g.body.len(), 4);
    assert_eq!(g.body[0], Coord(5, 2));
    assert_eq!(g.score(), 1);
    assert!(!g.body.contains(&g.pos_feed));
    assert!(g.is_inner_field(&g.pos_feed));
}

#[test]
fn step_takes_first_free_candidate() {
    let mut g = fresh();
    g.pos_feed = Coord(5, 2);
    let cands = vec![Coord(4, 2), Coord(0, 3), Coord(7, 7), Coord(8, 8)];
    assert!(g.step(&cands));
    assert_eq!(g.body, vec![Coord(5, 2), Coord(4, 2), Coord(3, 2), Coord(2, 2)]);
    assert_eq!(g.pos_feed, Coord(7, 7));
}

#[test]
fn step_scans_when_no_candidate_is_free() {
    let mut g = fresh();
    g.body = vec![Coord(2, 1), Coord(1, 1), Coord(1, 2)];
    g.pos_feed = Coord(3, 1);
    let cands = vec![Coord(1, 1)];
    assert!(g.step(&cands));
    assert_eq!(g.body.len(), 4);
    assert_eq!(g.pos_feed, Coord(4, 1));
}

#[test]
fn wall_ends_the_game() {
    let mut g = fresh();
    g.set_direction(Direction::Up);
    assert!(g.advance());
    assert_eq!(g.body[0], Coord(4, 1));
    let before = g.body.clone();
    assert!(!g.advance());
    assert_eq!(g.body, before);
}

#[test]
fn self_collision_ends_the_game() {
    let mut g = fresh();
    g.body = vec![
        Coord(5, 5),
        Coord(6, 5),
        Coord(6, 6),
        Coord(5, 6),
        Coord(4, 6),
        Coord(4, 5),
    ];
    g.dir = Direction::Down;
    assert!(!g.advance());
    assert_eq!(g.body[0], Coord(5, 6));
}

#[test]
fn following_the_tail_is_safe() {
    let mut g = fresh();
    g.body = vec![Coord(5, 5), Coord(6, 5), Coord(6, 6), Coord(5, 6)];
    g.dir = Direction::Down;
    assert!(g.advance());
    assert_eq!(g.body, vec![Coord(5, 6), Coord(5, 5), Coord(6, 5), Coord(6, 6)]);
}

#[test]
fn length_grows_only_on_food() {
    let mut g = fresh();
    let mut len = g.body.len();
    for _ in 0..5 {
        let ate = g.body[0].adjacent(&g.dir) == g.pos_feed;
        assert!(g.advance());
        assert_eq!(g.body.len(), if ate { len + 1 } else { len });
        assert_eq!(g.score(), g.body.len() - 3);
        len = g.body.len();
    }
}

#[test]
fn full_field_keeps_food_in_place() {
    let mut g = fresh();
    g.field_size = Size(4, 5);
    g.body = vec![Coord(1, 3), Coord(1, 2), Coord(2, 2), Coord(2, 1), Coord(1, 1)];
    g.pos_feed = Coord(2, 3);
    g.dir = Direction::Right;
    assert!(g.advance());
    assert_eq!(g.body.len(), 6);
    assert_eq!(first_free_cell(g.field_size, &g.body), None);
    assert_eq!(g.pos_feed, Coord(2, 3));
}

#[test]
fn occupies_and_collides() {
    let body = vec![Coord(4, 2), Coord(3, 2), Coord(2, 2)];
    assert!(occupies(&body, Coord(4, 2)));
    assert!(occupies(&body, Coord(2, 2)));
    assert!(!occupies(&body, Coord(5, 2)));
    assert!(!collides(&body, Coord(4, 2)));
    assert!(collides(&body, Coord(3, 2)));
    assert!(!collides(&Vec::new(), Coord(3, 2)));
}

#[test]
fn first_free_cell_in_row_major_order() {
    let body = vec![Coord(1, 1), Coord(2, 1), Coord(3, 1)];
    assert_eq!(first_free_cell(Size(20, 20), &body), Some(Coord(4, 1)));
    assert_eq!(first_free_cell(Size(5, 4), &vec![Coord(1, 1), Coord(2, 1), Coord(3, 1)]), Some(Coord(1, 2)));
    assert_eq!(first_free_cell(Size(3, 3), &vec![Coord(1, 1)]), None);
}

#[test]
fn pick_food_order_of_choice() {
    let body = vec![Coord(1, 1), Coord(2, 1)];
    let size = Size(6, 6);
    assert_eq!(pick_food(size, &body, &vec![Coord(2, 1), Coord(3, 3)], Coord(1, 1)), Coord(3, 3));
    assert_eq!(pick_food(size, &body, &vec![Coord(5, 5), Coord(2, 1)], Coord(1, 1)), Coord(3, 1));
    assert_eq!(pick_food(size, &body, &Vec::new(), Coord(1, 1)), Coord(3, 1));
    assert_eq!(pick_food(Size(3, 3), &vec![Coord(1, 1)], &Vec::new(), Coord(1, 1)), Coord(1, 1));
    assert!(FOOD_DRAWS > 0);
}

#[test]
fn keys_map_to_events() {
    assert_eq!(key_event('h'), Some(SnakeGameEvent::ChangeDir(Direction::Left)));
    assert_eq!(key_event('j'), Some(SnakeGameEvent::ChangeDir(Direction::Down)));
    assert_eq!(key_event('k'), Some(SnakeGameEvent::ChangeDir(Direction::Up)));
    assert_eq!(key_event('l'), Some(SnakeGameEvent::ChangeDir(Direction::Right)));
    assert_eq!(key_event('q'), Some(SnakeGameEvent::Quit));
    assert_eq!(key_event('x'), None);
}

#[test]
fn events_drive_the_game() {
    let mut g = fresh();
    assert_eq!(on_event(&mut g, SnakeGameEvent::ChangeDir(Direction::Left)), Reaction::Wait);
    assert_eq!(g.dir, Direction::Right);
    assert_eq!(on_event(&mut g, SnakeGameEvent::ChangeDir(Direction::Up)), Reaction::Wait);
    assert_eq!(g.dir, Direction::Up);
    assert_eq!(on_event(&mut g, SnakeGameEvent::Tick), Reaction::Redraw);
    assert_eq!(g.body[0], Coord(4, 1));
    assert_eq!(on_event(&mut g, SnakeGameEvent::Tick), Reaction::Stop);
    let mut h = fresh();
    assert_eq!(on_event(&mut h, SnakeGameEvent::Quit), Reaction::Stop);
    assert_eq!(h.body, vec![Coord(4, 2), Coord(3, 2), Coord(2, 2)]);
}

#[test]
fn frame_of_initial_state() {
    let g = fresh();
    let rows = g.frame();
    assert_eq!(rows.len(), 20);
    assert!(rows.iter().all(|r| r.len() == 20));
    let text: Vec<String> = rows.iter().map(|r| r.iter().collect()).collect();
    assert_eq!(text[0], format!("+{}+", "-".repeat(18)));
    assert_eq!(text[19], format!("+{}+", "-".repeat(18)));
    assert_eq!(text[1], format!("|{}|", " ".repeat(18)));
    assert_eq!(text[2], format!("| xx>{}|", " ".repeat(14)));
    assert_eq!(rows[10][10], '@');
    assert_eq!(head_glyph(Direction::Up), '^');
    assert_eq!(head_glyph(Direction::Down), 'v');
    assert_eq!(head_glyph(Direction::Left), '<');
    assert_eq!(g.glyph(Coord(4, 2)), '>');
}
