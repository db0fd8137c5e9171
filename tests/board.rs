use pingpong::{
    command_for, Color, Command, Direction, DrawCall, EntityId, Extent, GameState, Key, Paddle,
    Point,
};

fn board() -> GameState {
    GameState::new(Extent::new(16, 64), Extent::new(16, 64), Extent::new(22, 22))
}

#[test]
fn initial_positions() {
    let g = GameState::new(Extent::new(20, 100), Extent::new(24, 90), Extent::new(22, 21));
    // Half pixels: (16, 190), (600, 195), (309, 229.5).
    assert_eq!(g.player1.position, Point::new(32, 380));
    assert_eq!(g.player2.position, Point::new(1200, 390));
    assert_eq!(g.ball.position, Point::new(618, 459));
    assert_eq!(g.player1.extent, Extent::new(20, 100));
    assert_eq!(g.player2.extent, Extent::new(24, 90));
    assert_eq!(g.ball.extent, Extent::new(22, 21));
}

#[test]
fn initial_positions_with_empty_images() {
    let g = GameState::new(Extent::new(0, 0), Extent::new(0, 0), Extent::new(0, 0));
    assert_eq!(g.player1.position, Point::new(32, 480));
    assert_eq!(g.player2.position, Point::new(1248, 480));
    assert_eq!(g.ball.position, Point::new(640, 480));
}

#[test]
fn keys_map_to_commands() {
    let up1 = Command { paddle: Paddle::Player1, direction: Direction::Up };
    let down1 = Command { paddle: Paddle::Player1, direction: Direction::Down };
    let up2 = Command { paddle: Paddle::Player2, direction: Direction::Up };
    let down2 = Command { paddle: Paddle::Player2, direction: Direction::Down };
    assert_eq!(command_for(Key::W), Some(up1));
    assert_eq!(command_for(Key::S), Some(down1));
    assert_eq!(command_for(Key::Up), Some(up2));
    assert_eq!(command_for(Key::Down), Some(down2));
    assert_eq!(command_for(Key::Other), None);
}

#[test]
fn w_and_up_together_move_both_paddles_up() {
    let mut g = board();
    let before = g;
    g.update(&vec![Key::W, Key::Up]);
    assert_eq!(g.player1.position.y, before.player1.position.y - 16);
    assert_eq!(g.player2.position.y, before.player2.position.y - 16);
    assert_eq!(g.player1.position.x, before.player1.position.x);
    assert_eq!(g.player2.position.x, before.player2.position.x);
    assert_eq!(g.ball, before.ball);
    let mut h = before;
    h.update(&vec![Key::Up, Key::W]);
    assert_eq!(h, g);
}

#[test]
fn s_and_down_move_paddles_down() {
    let mut g = board();
    let before = g;
    g.update(&vec![Key::S, Key::Down]);
    assert_eq!(g.player1.position.y, before.player1.position.y + 16);
    assert_eq!(g.player2.position.y, before.player2.position.y + 16);
    assert_eq!(g.ball, before.ball);
}

#[test]
fn opposite_keys_cancel_away_from_edges() {
    let mut g = board();
    let before = g;
    g.update(&vec![Key::W, Key::S, Key::Down, Key::Up]);
    assert_eq!(g, before);
}

#[test]
fn unmapped_key_changes_nothing() {
    let mut g = board();
    let before = g;
    g.update(&vec![Key::Other]);
    assert_eq!(g, before);
    g.update(&vec![Key::Other, Key::Other, Key::Other]);
    assert_eq!(g, before);
}

#[test]
fn no_keys_changes_nothing() {
    let mut g = board();
    let before = g;
    g.update(&vec![]);
    assert_eq!(g, before);
}

#[test]
fn apply_moves_one_paddle() {
    let mut g = board();
    let before = g;
    g.apply(Command { paddle: Paddle::Player2, direction: Direction::Up });
    assert_eq!(g.player1, before.player1);
    assert_eq!(g.player2.position.y, before.player2.position.y - 16);
    assert_eq!(g.ball, before.ball);
}

#[test]
fn held_key_reaches_the_top_and_stays() {
    let mut g = board();
    for _ in 0..60 {
        g.update(&vec![Key::W]);
    }
    assert_eq!(g.player1.position.y, 0);
}

#[test]
fn draw_lists_objects_in_order() {
    let g = board();
    let f = g.draw();
    assert_eq!(f.clear, Color { red: 392, green: 584, blue: 929 });
    assert_eq!(
        f.draws,
        vec![
            DrawCall { entity: EntityId::Player1, position: g.player1.position },
            DrawCall { entity: EntityId::Player2, position: g.player2.position },
            DrawCall { entity: EntityId::Ball, position: g.ball.position },
        ]
    );
}

#[test]
fn repeated_draws_are_identical() {
    let g = board();
    let first = g.draw();
    let second = g.draw();
    assert_eq!(first, second);
    let mut h = g;
    h.update(&vec![Key::Other]);
    assert_eq!(h.draw(), first);
}
