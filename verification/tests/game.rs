use snake_game::game::{Action, GameState, Spawn, FRUIT_CAPACITY, TICK_FRAMES};
use snake_game::grid::Position;
use snake_game::input::Tri;
use snake_game::snake::Snake;
use snake_game::sprite::{Sprite, SpriteKind};

fn sprite(kind: SpriteKind, x: i32, y: i32, hflip: bool, vflip: bool) -> Sprite {
    Sprite { kind, pos: Position { x, y }, hflip, vflip }
}

/// Runs frames with the pad at rest until the game asks for a random number.
fn run_to_respawn(game: &mut GameState) -> u32 {
    let mut frames: u32 = 0;
    loop {
        frames += 1;
        if game.frame(Tri::Zero, Tri::Zero) == Action::Roll {
            return frames;
        }
        assert!(frames < 1000);
    }
}

/// A small generator of random numbers with four words of state, so that
/// runs can be replayed.
fn next_random(state: &mut [u32; 4]) -> i32 {
    let result = state[0].wrapping_add(state[3]).rotate_left(7).wrapping_mul(9);
    let t = state[1].wrapping_shr(9);
    state[2] ^= state[0];
    state[3] ^= state[1];
    state[1] ^= state[2];
    state[0] ^= state[3];
    state[2] ^= t;
    state[3] = state[3].rotate_left(11);
    result as i32
}

#[test]
fn new_game_shows_the_snake_and_no_fruit() {
    let game = GameState::new();
    assert_eq!(game.fruit_amount(), 0);
    assert_eq!(game.wait(), 0);
    assert_eq!(game.spawn(), Spawn::Idle);
    assert_eq!(game.action(), Action::Render);
    for i in 0..FRUIT_CAPACITY {
        assert_eq!(game.fruit(i), Some(sprite(SpriteKind::Apple, 0, 0, false, false)));
    }
    assert_eq!(game.fruit(FRUIT_CAPACITY), None);
    let shown = game.visible();
    assert_eq!(
        shown,
        vec![
            sprite(SpriteKind::SnakeHeadVertical, 112, 64, false, false),
            sprite(SpriteKind::SnakeBodyStraightVertical, 112, 80, false, false),
            sprite(SpriteKind::SnakeBodyEndVertical, 112, 96, false, false),
        ]
    );
}

#[test]
fn fruit_store_has_eight_slots_and_the_counter_runs_to_fifteen() {
    assert_eq!(FRUIT_CAPACITY, 8);
    assert_eq!(TICK_FRAMES, 15);
}

#[test]
fn zero_input_for_fifteen_frames_moves_the_snake_up_by_one_pitch() {
    let snake = Snake::upright(Position { x: 112, y: 72 }, 3).unwrap();
    let mut game = GameState::around(snake);
    for frame in 1..=14 {
        assert_eq!(game.frame(Tri::Zero, Tri::Zero), Action::Render);
        assert_eq!(game.wait(), frame);
        assert_eq!(game.snake().head().pos, Position { x: 112, y: 72 });
    }
    game.frame(Tri::Zero, Tri::Zero);
    assert_eq!(game.wait(), 0);
    let snake = game.snake();
    assert_eq!(snake.head().pos, Position { x: 112, y: 56 });
    assert_eq!(snake.segment(0).unwrap().pos, Position { x: 112, y: 72 });
    assert_eq!(snake.segment(1).unwrap().pos, Position { x: 112, y: 88 });
    assert_eq!(snake.segment(2).unwrap().pos, Position { x: 112, y: 104 });
    for i in 0..3 {
        assert_eq!(snake.shape(i), Some(snake_game::sprite::BodySprites::StraightVertical));
    }
    assert_eq!(snake.segment(0).unwrap().kind, SpriteKind::SnakeBodyStraightVertical);
    assert_eq!(snake.segment(1).unwrap().kind, SpriteKind::SnakeBodyStraightVertical);
    assert_eq!(snake.segment(2).unwrap().kind, SpriteKind::SnakeBodyEndVertical);
    assert_eq!(snake.snake_length(), 3);
}

#[test]
fn head_with_two_segments_moves_up_by_one_pitch_in_fifteen_frames() {
    let snake = Snake::upright(Position { x: 112, y: 72 }, 2).unwrap();
    let mut game = GameState::around(snake);
    for _ in 0..15 {
        game.frame(Tri::Zero, Tri::Zero);
    }
    let snake = game.snake();
    assert_eq!(snake.head().pos, Position { x: 112, y: 56 });
    assert_eq!(snake.segment(0).unwrap().pos, Position { x: 112, y: 72 });
    assert_eq!(snake.segment(1).unwrap().pos, Position { x: 112, y: 88 });
    assert_eq!(snake.shape(0), Some(snake_game::sprite::BodySprites::StraightVertical));
    assert_eq!(snake.shape(1), Some(snake_game::sprite::BodySprites::StraightVertical));
    assert_eq!(snake.segment(0).unwrap().kind, SpriteKind::SnakeBodyStraightVertical);
    assert_eq!(snake.segment(1).unwrap().kind, SpriteKind::SnakeBodyEndVertical);
}

#[test]
fn starting_snake_moves_up_one_pitch_on_its_first_tick() {
    let mut game = GameState::new();
    for _ in 0..14 {
        game.frame(Tri::Zero, Tri::Zero);
    }
    assert_eq!(game.snake().head().pos, Position { x: 112, y: 64 });
    game.frame(Tri::Zero, Tri::Zero);
    assert_eq!(game.snake().head().pos, Position { x: 112, y: 48 });
    assert_eq!(game.snake().segment(0).unwrap().pos, Position { x: 112, y: 64 });
    assert_eq!(game.snake().segment(1).unwrap().pos, Position { x: 112, y: 80 });
}

#[test]
fn input_counts_only_on_the_frame_of_the_tick() {
    let mut game = GameState::new();
    for _ in 0..14 {
        game.frame(Tri::Positive, Tri::Positive);
        assert!(!game.snake().horizontal());
    }
    game.frame(Tri::Zero, Tri::Zero);
    assert!(!game.snake().horizontal());
    assert_eq!(game.snake().head().pos, Position { x: 112, y: 48 });
}

#[test]
fn tick_with_no_fruit_shown_asks_for_a_count() {
    let mut game = GameState::new();
    assert_eq!(run_to_respawn(&mut game), 15);
    assert_eq!(game.spawn(), Spawn::Count);
    assert_eq!(game.action(), Action::Roll);
    assert_eq!(game.wait(), 0);
}

#[test]
fn count_of_zero_ends_the_respawn_until_the_next_tick() {
    let mut game = GameState::new();
    run_to_respawn(&mut game);
    assert_eq!(game.feed(16), Action::Render);
    assert_eq!(game.spawn(), Spawn::Idle);
    assert_eq!(game.fruit_amount(), 0);
    assert_eq!(game.visible().len(), 3);
    assert_eq!(run_to_respawn(&mut game), 15);
    assert_eq!(game.spawn(), Spawn::Count);
}

#[test]
fn negative_random_numbers_are_reduced_by_euclidean_remainder() {
    let mut game = GameState::new();
    run_to_respawn(&mut game);
    assert_eq!(game.feed(-3), Action::Roll);
    assert_eq!(game.spawn(), Spawn::Kind { count: 5, slot: 0 });
    assert_eq!(game.feed(-1), Action::Roll);
    assert_eq!(game.fruit(0).unwrap().kind, SpriteKind::Lemon);
    assert_eq!(game.spawn(), Spawn::Column { count: 5, slot: 0 });
    assert_eq!(game.feed(-1), Action::Roll);
    assert_eq!(game.spawn(), Spawn::Row { count: 5, slot: 0, x: 208 });
    assert_eq!(game.feed(i32::MIN), Action::Roll);
    // The Euclidean remainder of i32::MIN on division by 9 is 7.
    assert_eq!(game.fruit(0).unwrap().pos, Position { x: 208, y: 112 });
    assert_eq!(game.spawn(), Spawn::Kind { count: 5, slot: 1 });
}

#[test]
fn every_fruit_kind_can_be_drawn() {
    let kinds = [
        SpriteKind::Apple,
        SpriteKind::Banana,
        SpriteKind::Cherry,
        SpriteKind::Kiwi,
        SpriteKind::Orange,
        SpriteKind::Lemon,
    ];
    for (index, kind) in kinds.iter().enumerate() {
        assert_eq!(SpriteKind::fruit(index as i32), *kind);
        let mut game = GameState::new();
        run_to_respawn(&mut game);
        game.feed(1);
        game.feed(index as i32 + 600);
        assert_eq!(game.fruit(0).unwrap().kind, *kind);
    }
}

#[test]
fn cell_under_the_snake_is_refused_and_drawn_again() {
    let mut game = GameState::new();
    run_to_respawn(&mut game);
    // After the first tick the head stands at (112, 48), the body at (112, 64) and (112, 80).
    assert_eq!(game.feed(2), Action::Roll);
    assert_eq!(game.feed(2), Action::Roll);
    assert_eq!(game.fruit(0).unwrap().kind, SpriteKind::Cherry);

    assert_eq!(game.feed(7), Action::Roll);
    assert_eq!(game.spawn(), Spawn::Row { count: 2, slot: 0, x: 112 });
    assert_eq!(game.feed(3), Action::Roll);
    assert_eq!(game.spawn(), Spawn::Column { count: 2, slot: 0 });
    assert_eq!(game.fruit(0).unwrap().pos, Position { x: 0, y: 0 });

    assert_eq!(game.feed(7), Action::Roll);
    assert_eq!(game.feed(4), Action::Roll);
    assert_eq!(game.spawn(), Spawn::Column { count: 2, slot: 0 });

    assert_eq!(game.feed(7), Action::Roll);
    assert_eq!(game.feed(5), Action::Roll);
    assert_eq!(game.spawn(), Spawn::Column { count: 2, slot: 0 });

    assert_eq!(game.feed(7), Action::Roll);
    assert_eq!(game.feed(6), Action::Roll);
    assert_eq!(game.fruit(0).unwrap(), sprite(SpriteKind::Cherry, 112, 96, false, false));
    assert_eq!(game.spawn(), Spawn::Kind { count: 2, slot: 1 });
    assert_eq!(game.fruit_amount(), 0);

    assert_eq!(game.feed(4), Action::Roll);
    assert_eq!(game.feed(13), Action::Roll);
    assert_eq!(game.feed(8), Action::Render);
    assert_eq!(game.fruit(1).unwrap(), sprite(SpriteKind::Orange, 208, 128, false, false));
    assert_eq!(game.spawn(), Spawn::Idle);
    assert_eq!(game.fruit_amount(), 2);

    assert_eq!(
        game.visible(),
        vec![
            sprite(SpriteKind::SnakeHeadVertical, 112, 48, false, false),
            sprite(SpriteKind::SnakeBodyStraightVertical, 112, 64, false, false),
            sprite(SpriteKind::SnakeBodyEndVertical, 112, 80, true, false),
            sprite(SpriteKind::Cherry, 112, 96, false, false),
            sprite(SpriteKind::Orange, 208, 128, false, false),
        ]
    );
}

#[test]
fn respawn_places_up_to_seven_fruits_off_the_snake() {
    let mut rng: [u32; 4] = [1014776995, 476057059, 3301633994, 706340607];
    let mut respawns_with_fruit = 0;
    for round in 0..200 {
        let head = Position { x: 16 * (round % 15), y: 0 };
        let snake = Snake::upright(head, 9).unwrap();
        let mut game = GameState::around(snake);
        assert_eq!(game.fruit_amount(), 0);
        run_to_respawn(&mut game);
        let mut rolls = 0;
        while game.action() == Action::Roll {
            game.feed(next_random(&mut rng));
            rolls += 1;
            assert!(rolls < 100000);
        }
        let amount = game.fruit_amount();
        assert!(amount < 8);
        if amount > 0 {
            respawns_with_fruit += 1;
        }
        let snake = game.snake();
        for i in 0..amount {
            let fruit = game.fruit(i).unwrap();
            assert!(fruit.pos.x % 16 == 0 && 0 <= fruit.pos.x && fruit.pos.x < 14 * 16);
            assert!(fruit.pos.y % 16 == 0 && 0 <= fruit.pos.y && fruit.pos.y < 9 * 16);
            assert_ne!(fruit.pos, snake.head().pos);
            for k in 0..snake.snake_length() {
                assert_ne!(fruit.pos, snake.segment(k).unwrap().pos);
            }
            assert!(!snake.occupies(fruit.pos));
            assert!(matches!(
                fruit.kind,
                SpriteKind::Apple
                    | SpriteKind::Banana
                    | SpriteKind::Cherry
                    | SpriteKind::Kiwi
                    | SpriteKind::Orange
                    | SpriteKind::Lemon
            ));
        }
        assert_eq!(game.visible().len(), 1 + 9 + amount);
    }
    assert!(respawns_with_fruit > 100);
}

#[test]
fn random_number_outside_a_respawn_is_discarded() {
    let mut game = GameState::new();
    for _ in 0..5 {
        game.frame(Tri::Zero, Tri::Zero);
    }
    let shown = game.visible();
    assert_eq!(game.feed(12345), Action::Render);
    assert_eq!(game.wait(), 5);
    assert_eq!(game.spawn(), Spawn::Idle);
    assert_eq!(game.fruit_amount(), 0);
    assert_eq!(game.visible(), shown);
}

#[test]
fn frame_during_a_respawn_changes_nothing() {
    let mut game = GameState::new();
    run_to_respawn(&mut game);
    game.feed(3);
    let head = game.snake().head();
    assert_eq!(game.frame(Tri::Positive, Tri::Positive), Action::Roll);
    assert_eq!(game.wait(), 0);
    assert_eq!(game.spawn(), Spawn::Kind { count: 3, slot: 0 });
    assert_eq!(game.snake().head(), head);
}

#[test]
fn fruit_once_shown_stays_and_no_respawn_follows() {
    let mut game = GameState::new();
    run_to_respawn(&mut game);
    game.feed(1);
    game.feed(0);
    game.feed(0);
    assert_eq!(game.feed(0), Action::Render);
    assert_eq!(game.fruit_amount(), 1);
    assert_eq!(game.fruit(0).unwrap(), sprite(SpriteKind::Apple, 0, 0, false, false));
    for _ in 0..100 {
        assert_eq!(game.frame(Tri::Zero, Tri::Zero), Action::Render);
        assert_eq!(game.fruit_amount(), 1);
        assert_eq!(game.fruit(0).unwrap().pos, Position { x: 0, y: 0 });
    }
}

#[test]
fn frames_show_head_then_body_then_fruit() {
    let mut game = GameState::new();
    run_to_respawn(&mut game);
    game.feed(2);
    game.feed(1);
    game.feed(1);
    game.feed(1);
    game.feed(3);
    game.feed(2);
    assert_eq!(game.feed(2), Action::Render);
    let shown = game.visible();
    assert_eq!(shown.len(), 1 + 2 + 2);
    assert_eq!(shown[0], game.snake().head());
    assert_eq!(shown[1], game.snake().segment(0).unwrap());
    assert_eq!(shown[2], game.snake().segment(1).unwrap());
    assert_eq!(shown[3], sprite(SpriteKind::Banana, 16, 16, false, false));
    assert_eq!(shown[4], sprite(SpriteKind::Kiwi, 32, 32, false, false));
}

#[test]
fn snake_length_is_the_same_after_many_frames_and_rolls() {
    let mut rng: [u32; 4] = [1, 2, 3, 4];
    let mut game = GameState::new();
    let pad = [Tri::Negative, Tri::Zero, Tri::Positive, Tri::Zero, Tri::Zero];
    for frame in 0..5000 {
        let x = pad[(next_random(&mut rng).rem_euclid(5)) as usize];
        let y = pad[(next_random(&mut rng).rem_euclid(5)) as usize];
        let mut action = game.frame(x, y);
        while action == Action::Roll {
            action = game.feed(next_random(&mut rng));
        }
        assert_eq!(game.snake().snake_length(), 2);
        assert_eq!(game.visible().len(), 1 + 2 + game.fruit_amount());
        assert_eq!(game.wait(), (frame + 1) % 15);
        let _ = next_random(&mut rng);
    }
}
