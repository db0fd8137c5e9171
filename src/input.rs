use vstd::prelude::*;

verus! {

/// A keyboard key, as far as the board tells keys apart.
#[derive(Clone, Copy, Debug, PartialEq, Eq, Structural)]
pub enum Key {
    W,
    S,
    Up,
    Down,
    /// Any key that moves nothing.
    Other,
}

/// One of the two paddles.
#[derive(Clone, Copy, Debug, PartialEq, Eq, Structural)]
pub enum Paddle {
    Player1,
    Player2,
}

/// A direction of vertical travel.
#[derive(Clone, Copy, Debug, PartialEq, Eq, Structural)]
pub enum Direction {
    Up,
    Down,
}

/// A request to move one paddle one step.
#[derive(Clone, Copy, Debug, PartialEq, Eq, Structural)]
pub struct Command {
    pub paddle: Paddle,
    pub direction: Direction,
}

/// The command that a key stands for: W and S drive the first paddle, the up
/// and down arrows the second.
pub open spec fn key_command(key: Key) -> Option<Command> {
    match key {
        Key::W => Some(Command { paddle: Paddle::Player1, direction: Direction::Up }),
        Key::S => Some(Command { paddle: Paddle::Player1, direction: Direction::Down }),
        Key::Up => Some(Command { paddle: Paddle::Player2, direction: Direction::Up }),
        Key::Down => Some(Command { paddle: Paddle::Player2, direction: Direction::Down }),
        Key::Other => None,
    }
}

/// Maps a key to the command it stands for, if any.
pub fn command_for(key: Key) -> (r: Option<Command>)
    ensures
        r == key_command(key),
{
    match key {
        Key::W => Some(Command { paddle: Paddle::Player1, direction: Direction::Up }),
        Key::S => Some(Command { paddle: Paddle::Player1, direction: Direction::Down }),
        Key::Up => Some(Command { paddle: Paddle::Player2, direction: Direction::Up }),
        Key::Down => Some(Command { paddle: Paddle::Player2, direction: Direction::Down }),
        Key::Other => None,
    }
}

} // verus!
