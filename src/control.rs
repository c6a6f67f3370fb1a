use vstd::prelude::*;

use crate::game::{food_relocated, ticked, SnakeGameLogic};
use crate::geometry::{spec_opposite, Direction};

verus! {

/// What the event loop receives: a turn asked for by the player, a tick of
/// the timer, or a request to quit.
#[derive(Clone, Copy, Debug, PartialEq, Eq, Structural)]
pub enum SnakeGameEvent {
    ChangeDir(Direction),
    Tick,
    Quit,
}

/// What the event loop does after handling an event.
#[derive(Clone, Copy, Debug, PartialEq, Eq, Structural)]
pub enum Reaction {
    /// Wait for the next event; nothing on screen changed.
    Wait,
    /// Draw the field again, then wait for the next event.
    Redraw,
    /// The game is over: stop taking events and restore the terminal.
    Stop,
}

/// The event a key stands for: `h`, `j`, `k`, `l` turn the snake left,
/// down, up and right, `q` quits; other keys mean nothing.
pub open spec fn spec_key_event(c: char) -> Option<SnakeGameEvent> {
    if c == 'h' {
        Some(SnakeGameEvent::ChangeDir(Direction::Left))
    } else if c == 'j' {
        Some(SnakeGameEvent::ChangeDir(Direction::Down))
    } else if c == 'k' {
        Some(SnakeGameEvent::ChangeDir(Direction::Up))
    } else if c == 'l' {
        Some(SnakeGameEvent::ChangeDir(Direction::Right))
    } else if c == 'q' {
        Some(SnakeGameEvent::Quit)
    } else {
        None
    }
}

pub fn key_event(c: char) -> (r: Option<SnakeGameEvent>)
    ensures
        r == spec_key_event(c),
{
    match c {
        'h' => Some(SnakeGameEvent::ChangeDir(Direction::Left)),
        'j' => Some(SnakeGameEvent::ChangeDir(Direction::Down)),
        'k' => Some(SnakeGameEvent::ChangeDir(Direction::Up)),
        'l' => Some(SnakeGameEvent::ChangeDir(Direction::Right)),
        'q' => Some(SnakeGameEvent::Quit),
        _ => None,
    }
}

/// Applies one event to the game and says what the loop does next: a turn
/// changes the direction at once, a tick moves the snake and ends the game
/// when it dies, a quit ends the game.
pub fn on_event(logic: &mut SnakeGameLogic, event: SnakeGameEvent) -> (r: Reaction)
    requires
        old(logic).wf(),
    ensures
        final(logic).wf(),
        match event {
            SnakeGameEvent::ChangeDir(d) => {
                &&& r == Reaction::Wait
                &&& final(logic).dir == (if d == spec_opposite(old(logic).dir) {
                    old(logic).dir
                } else {
                    d
                })
                &&& final(logic).field_size == old(logic).field_size
                &&& final(logic).body@ == old(logic).body@
                &&& final(logic).pos_feed == old(logic).pos_feed
            },
            SnakeGameEvent::Tick => {
                &&& r != Reaction::Wait
                &&& ticked(*old(logic), *final(logic), r == Reaction::Redraw)
                &&& food_relocated(*old(logic), *final(logic))
            },
            SnakeGameEvent::Quit => {
                &&& r == Reaction::Stop
                &&& *final(logic) == *old(logic)
            },
        },
{
    match event {
        SnakeGameEvent::ChangeDir(d) => {
            logic.set_direction(d);
            Reaction::Wait
        },
        SnakeGameEvent::Tick => {
            if logic.advance() {
                Reaction::Redraw
            } else {
                Reaction::Stop
            }
        },
        SnakeGameEvent::Quit => Reaction::Stop,
    }
}

} // verus!
