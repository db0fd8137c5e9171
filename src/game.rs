use vstd::prelude::*;
use crate::entity::{down_y, step, move_down, move_up, up_y, Entity};
use crate::geometry::{Extent, Point, PADDLE_MARGIN, SUBPIXELS, WINDOW_HEIGHT, WINDOW_WIDTH};
use crate::input::{command_for, key_command, Command, Direction, Key, Paddle};

verus! {

/// A colour, each channel in thousandths of full intensity.
#[derive(Clone, Copy, Debug, PartialEq, Eq, Structural)]
pub struct Color {
    pub red: u16,
    pub green: u16,
    pub blue: u16,
}

/// The colour that each frame is cleared to.
pub open spec fn background() -> Color {
    Color { red: 392, green: 584, blue: 929 }
}

/// Names the three objects of the board.
#[derive(Clone, Copy, Debug, PartialEq, Eq, Structural)]
pub enum EntityId {
    Player1,
    Player2,
    Ball,
}

/// A request to draw one object's image at a position.
#[derive(Clone, Copy, Debug, PartialEq, Eq, Structural)]
pub struct DrawCall {
    pub entity: EntityId,
    pub position: Point,
}

/// What one frame shows: the colour it is cleared to, then the images drawn
/// over it, in order.
#[derive(Debug, PartialEq, Eq)]
pub struct Frame {
    pub clear: Color,
    pub draws: Vec<DrawCall>,
}

/// The board: two paddles and a ball.
#[derive(Clone, Copy, Debug, PartialEq, Eq, Structural)]
pub struct GameState {
    pub player1: Entity,
    pub player2: Entity,
    pub ball: Entity,
}

/// Where the first paddle starts: a margin from the left edge, centred
/// vertically.
pub open spec fn player1_start(e: Extent) -> Point {
    Point { x: (PADDLE_MARGIN * SUBPIXELS) as i64, y: (WINDOW_HEIGHT - e.height) as i64 }
}

/// Where the second paddle starts: its right side a margin from the right
/// edge, centred vertically.
pub open spec fn player2_start(e: Extent) -> Point {
    Point {
        x: ((WINDOW_WIDTH - e.width - PADDLE_MARGIN) * SUBPIXELS) as i64,
        y: (WINDOW_HEIGHT - e.height) as i64,
    }
}

/// Where the ball starts: centred in the window.
pub open spec fn ball_start(e: Extent) -> Point {
    Point { x: (WINDOW_WIDTH - e.width) as i64, y: (WINDOW_HEIGHT - e.height) as i64 }
}

/// The entity after one step in a direction.
pub open spec fn moved(e: Entity, d: Direction) -> Entity {
    let y = match d {
        Direction::Up => up_y(e.position.y as int),
        Direction::Down => down_y(e.position.y as int, e.extent.width as int),
    };
    Entity { position: Point { y: y as i64, ..e.position }, ..e }
}

/// The board after one command.
pub open spec fn apply_command(g: GameState, c: Command) -> GameState {
    match c.paddle {
        Paddle::Player1 => GameState { player1: moved(g.player1, c.direction), ..g },
        Paddle::Player2 => GameState { player2: moved(g.player2, c.direction), ..g },
    }
}

/// The board after one key: a key that stands for no command changes nothing.
pub open spec fn apply_key(g: GameState, key: Key) -> GameState {
    match key_command(key) {
        Some(c) => apply_command(g, c),
        None => g,
    }
}

/// The board after the keys, taken in order.
pub open spec fn apply_keys(g: GameState, keys: Seq<Key>) -> GameState
    decreases keys.len(),
{
    if keys.len() == 0 {
        g
    } else {
        apply_key(apply_keys(g, keys.drop_last()), keys.last())
    }
}

/// The images of a frame: first paddle, second paddle, then ball, each at its
/// position.
pub open spec fn draw_calls(g: GameState) -> Seq<DrawCall> {
    seq![
        DrawCall { entity: EntityId::Player1, position: g.player1.position },
        DrawCall { entity: EntityId::Player2, position: g.player2.position },
        DrawCall { entity: EntityId::Ball, position: g.ball.position },
    ]
}

/// The frame that shows the board.
pub open spec fn frame_of(g: GameState) -> (Color, Seq<DrawCall>) {
    (background(), draw_calls(g))
}

/// Holding W and the up arrow in one tick, in either order, moves each paddle
/// up by exactly one step where neither is at or above the top, and changes
/// nothing else.
pub proof fn lemma_both_paddles_up(g: GameState)
    requires
        g.player1.position.y > 0,
        g.player2.position.y > 0,
    ensures
        ({
            let h = apply_keys(g, seq![Key::W, Key::Up]);
            &&& h.player1.position.y == g.player1.position.y - step()
            &&& h.player2.position.y == g.player2.position.y - step()
            &&& h.player1.position.x == g.player1.position.x
            &&& h.player2.position.x == g.player2.position.x
            &&& h.ball == g.ball
        }),
        apply_keys(g, seq![Key::Up, Key::W]) == apply_keys(g, seq![Key::W, Key::Up]),
{
    assert(apply_keys(g, Seq::<Key>::empty()) == g);
    let ks = seq![Key::W, Key::Up];
    assert(ks.drop_last() == seq![Key::W]);
    assert(seq![Key::W].drop_last() == Seq::<Key>::empty());
    assert(apply_keys(g, seq![Key::W]) == apply_key(g, Key::W));
    assert(apply_keys(g, ks) == apply_key(apply_key(g, Key::W), Key::Up));
    let ks2 = seq![Key::Up, Key::W];
    assert(ks2.drop_last() == seq![Key::Up]);
    assert(seq![Key::Up].drop_last() == Seq::<Key>::empty());
    assert(apply_keys(g, seq![Key::Up]) == apply_key(g, Key::Up));
    assert(apply_keys(g, ks2) == apply_key(apply_key(g, Key::Up), Key::W));
}

/// Keys that stand for no command leave the board as it was.
pub proof fn lemma_unmapped_keys_change_nothing(g: GameState, keys: Seq<Key>)
    requires
        forall|i: int| 0 <= i < keys.len() ==> key_command(#[trigger] keys[i]) is None,
    ensures
        apply_keys(g, keys) == g,
    decreases keys.len(),
{
    if keys.len() > 0 {
        assert(key_command(keys[keys.len() - 1]) is None);
        let rest = keys.drop_last();
        assert forall|i: int| 0 <= i < rest.len() implies key_command(#[trigger] rest[i]) is None by {
            assert(rest[i] == keys[i]);
        }
        lemma_unmapped_keys_change_nothing(g, rest);
    }
}

/// Two boards whose objects stand at the same positions show the same frame:
/// the same clear colour, then the same images at the same places in the same
/// order.
pub proof fn lemma_frame_depends_on_positions(a: GameState, b: GameState)
    requires
        a.player1.position == b.player1.position,
        a.player2.position == b.player2.position,
        a.ball.position == b.ball.position,
    ensures
        frame_of(a) == frame_of(b),
{
}

impl GameState {
    /// Places the two paddles and the ball, given the sizes of their images.
    pub fn new(player1: Extent, player2: Extent, ball: Extent) -> (r: GameState)
        ensures
            r.player1 == (Entity { extent: player1, position: player1_start(player1) }),
            r.player2 == (Entity { extent: player2, position: player2_start(player2) }),
            r.ball == (Entity { extent: ball, position: ball_start(ball) }),
    {
        let p1 = Point::new(
            PADDLE_MARGIN * SUBPIXELS,
            WINDOW_HEIGHT - player1.height as i64,
        );
        let p2 = Point::new(
            (WINDOW_WIDTH - player2.width as i64 - PADDLE_MARGIN) * SUBPIXELS,
            WINDOW_HEIGHT - player2.height as i64,
        );
        let b = Point::new(
            WINDOW_WIDTH - ball.width as i64,
            WINDOW_HEIGHT - ball.height as i64,
        );
        GameState {
            player1: Entity::new(player1, p1),
            player2: Entity::new(player2, p2),
            ball: Entity::new(ball, b),
        }
    }

    /// Carries out one command.
    pub fn apply(&mut self, command: Command)
        ensures
            *final(self) == apply_command(*old(self), command),
    {
        let paddle = match command.paddle {
            Paddle::Player1 => &mut self.player1,
            Paddle::Player2 => &mut self.player2,
        };
        match command.direction {
            Direction::Up => move_up(paddle),
            Direction::Down => move_down(paddle),
        }
    }

    /// Runs one tick: carries out the command of each key held down, in the
    /// order given.
    pub fn update(&mut self, keys: &Vec<Key>)
        ensures
            *final(self) == apply_keys(*old(self), keys@),
    {
        let mut i: usize = 0;
        while i < keys.len()
            invariant
                i <= keys.len(),
                *self == apply_keys(*old(self), keys@.take(i as int)),
            decreases keys.len() - i,
        {
            assert(keys@.take(i + 1).drop_last() == keys@.take(i as int));
            if let Some(c) = command_for(keys[i]) {
                self.apply(c);
            }
            i = i + 1;
        }
        assert(keys@.take(keys.len() as int) == keys@);
    }

    /// The frame that shows the board.
    pub fn draw(&self) -> (r: Frame)
        ensures
            (r.clear, r.draws@) == frame_of(*self),
    {
        let draws = vec![
            DrawCall { entity: EntityId::Player1, position: self.player1.position },
            DrawCall { entity: EntityId::Player2, position: self.player2.position },
            DrawCall { entity: EntityId::Ball, position: self.ball.position },
        ];
        Frame { clear: Color { red: 392, green: 584, blue: 929 }, draws }
    }
}

} // verus!
