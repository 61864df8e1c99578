use rust_tac_toe::{
    winning_line, GameEngine, GameEvent, GameStatus, InvalidGameMoveError, Player, Position,
    WINNING_COMBINATIONS,
};

fn play_all(engine: &mut GameEngine, moves: &[u8]) {
    for &m in moves {
        let pos = Position::new(m).unwrap();
        let _ = engine.play_move(pos);
    }
}

#[test]
fn lib_test_position_new() {
    assert!(Position::new(0).is_some());
    assert!(Position::new(8).is_some());
    assert!(Position::new(9).is_none());
    assert!(Position::new(255).is_none());
}

#[test]
fn engine_test_position_new() {
    assert!(Position::new(0).is_some());
    assert!(Position::new(8).is_some());
    assert!(Position::new(9).is_none());
    assert!(Position::new(255).is_none());
}

#[test]
fn position_keeps_its_index() {
    for i in 0..9u8 {
        assert_eq!(Position::new(i).unwrap().to_index(), i as usize);
    }
    for i in 9..=255u8 {
        assert!(Position::new(i).is_none());
    }
}

#[test]
fn lib_test_update_next_player() {
    assert_eq!(Player::O.next(), Player::X);
    assert_eq!(Player::X.next(), Player::O);
}

#[test]
fn engine_test_update_next_player() {
    let mut engine = GameEngine::new();
    assert_eq!(engine.current_player, Player::X);
    engine.update_next_player();
    assert_eq!(engine.current_player, Player::O);
    engine.update_next_player();
    assert_eq!(engine.current_player, Player::X);
}

#[test]
fn lib_test_play_move() {
    let mut engine = GameEngine::new();
    let pos = Position::new(0).unwrap();
    let _ = engine.play_move(pos);
    assert_eq!(engine.board[0], Some(Player::X));
    assert_eq!(engine.current_player, Player::O);
}

#[test]
fn engine_test_play_move() {
    let mut engine = GameEngine::new();
    let pos = Position::new(0).unwrap();
    let _ = engine.handle_event(GameEvent::PlayMove(pos));
    assert_eq!(engine.board[0], Some(Player::X));
    assert_eq!(engine.current_player, Player::O);
}

#[test]
fn lib_test_winner_detection() {
    let mut engine = GameEngine::new();
    let moves = [0, 3, 1, 4, 2]; // X wins
    for &m in &moves {
        let pos = Position::new(m).unwrap();
        let _ = engine.play_move(pos);
    }
    assert_eq!(
        engine.status,
        GameStatus::Win {
            player: Player::X,
            line: [0, 1, 2]
        }
    );
}

#[test]
fn engine_test_winner_detection() {
    let mut engine = GameEngine::new();
    let moves = [0, 3, 1, 4, 2]; // X wins
    for &m in &moves {
        let pos = Position::new(m).unwrap();
        let _ = engine.handle_event(GameEvent::PlayMove(pos));
    }
    assert_eq!(engine.winner(), Some(Player::X));
}

#[test]
fn test_draw_detection() {
    let mut engine = GameEngine::new();
    let moves = [0, 1, 2, 4, 3, 5, 7, 6, 8]; // Draw
    for &m in &moves {
        let pos = Position::new(m).unwrap();
        let _ = engine.play_move(pos);
    }
    assert_eq!(engine.status, GameStatus::Draw);
}

#[test]
fn test_winner_detection_full_board() {
    let mut engine: GameEngine = GameEngine::new();
    let moves = [0, 1, 2, 4, 3, 5, 7, 8, 6]; // X wins and fills the board
    for &m in &moves {
        let pos = Position::new(m).unwrap();
        let _ = engine.play_move(pos);
    }
    assert_eq!(
        engine.status,
        GameStatus::Win {
            player: Player::X,
            line: [0, 3, 6]
        }
    );
}

#[test]
fn lib_test_reset() {
    let mut engine = GameEngine::new();
    let pos = Position::new(0).unwrap();
    let _ = engine.play_move(pos);
    engine.reset();
    assert_eq!(engine.board, [None; 9]);
    assert_eq!(engine.current_player, Player::X);
    assert_eq!(engine.status, GameStatus::Ongoing);
}

#[test]
fn engine_test_reset() {
    let mut engine = GameEngine::new();
    let pos = Position::new(0).unwrap();
    let _ = engine.handle_event(GameEvent::PlayMove(pos));
    let _ = engine.handle_event(GameEvent::Reset);
    assert_eq!(engine.board, [None; 9]);
    assert_eq!(engine.current_player, Player::X);
    assert_eq!(engine.winner(), None);
}

#[test]
fn winning_line_detects_horizontal_and_diagonal() {
    let mut b = [None; 9];
    b[0] = Some(Player::X);
    b[1] = Some(Player::X);
    b[2] = Some(Player::X);
    assert_eq!(winning_line(&b), Some([0, 1, 2]));

    let mut b2 = [None; 9];
    b2[0] = Some(Player::O);
    b2[4] = Some(Player::O);
    b2[8] = Some(Player::O);
    assert_eq!(winning_line(&b2), Some([0, 4, 8]));
}

#[test]
fn winning_line_none_when_no_winner() {
    let b: [Option<Player>; 9] = [None; 9];
    assert_eq!(winning_line(&b), None);
}

#[test]
fn new_game_is_empty_with_x_to_move() {
    let engine = GameEngine::new();
    assert_eq!(engine.board, [None; 9]);
    assert_eq!(engine.current_player, Player::X);
    assert_eq!(engine.status, GameStatus::Ongoing);
    assert_eq!(engine.winner(), None);
}

#[test]
fn reset_game_accepts_every_move() {
    for first in 0..9u8 {
        let mut engine = GameEngine::new();
        play_all(&mut engine, &[first, (first + 1) % 9]);
        engine.reset();
        for p in 0..9u8 {
            assert_eq!(engine.validate_move(Position::new(p).unwrap()), Ok(()));
            assert!(engine.is_playable(p as usize));
        }
    }
}

#[test]
fn won_game_refuses_every_move_and_stays() {
    let mut engine = GameEngine::new();
    play_all(&mut engine, &[0, 3, 1, 4, 2]);
    let board = engine.board;
    let status = engine.status;
    let player = engine.current_player;
    for p in 0..9u8 {
        let pos = Position::new(p).unwrap();
        assert_eq!(
            engine.validate_move(pos),
            Err(InvalidGameMoveError::GameAlreadyWon)
        );
        assert_eq!(
            engine.play_move(pos),
            Err(InvalidGameMoveError::GameAlreadyWon)
        );
        assert_eq!(
            engine.handle_event(GameEvent::PlayMove(pos)),
            Err(InvalidGameMoveError::GameAlreadyWon)
        );
        assert!(!engine.is_playable(p as usize));
        assert_eq!(engine.board, board);
        assert_eq!(engine.status, status);
        assert_eq!(engine.current_player, player);
    }
}

#[test]
fn drawn_game_refuses_every_move_and_stays() {
    let mut engine = GameEngine::new();
    play_all(&mut engine, &[0, 1, 2, 4, 3, 5, 7, 6, 8]);
    assert_eq!(engine.status, GameStatus::Draw);
    let board = engine.board;
    let player = engine.current_player;
    for p in 0..9u8 {
        let pos = Position::new(p).unwrap();
        assert_eq!(
            engine.play_move(pos),
            Err(InvalidGameMoveError::GameAlreadyWon)
        );
        assert_eq!(engine.board, board);
        assert_eq!(engine.status, GameStatus::Draw);
        assert_eq!(engine.current_player, player);
    }
}

#[test]
fn taken_cell_is_refused_and_keeps_its_mark() {
    let mut engine = GameEngine::new();
    let pos = Position::new(0).unwrap();
    assert_eq!(engine.play_move(pos), Ok(()));
    assert_eq!(
        engine.validate_move(pos),
        Err(InvalidGameMoveError::SpaceOccupied)
    );
    assert_eq!(
        engine.play_move(pos),
        Err(InvalidGameMoveError::SpaceOccupied)
    );
    assert_eq!(engine.board[0], Some(Player::X));
    assert_eq!(engine.current_player, Player::O);
    assert_eq!(engine.status, GameStatus::Ongoing);
    assert!(!engine.is_playable(0));
    assert!(engine.is_playable(1));
    assert!(!engine.is_playable(9));
}

#[test]
fn taken_cell_after_the_end_is_refused_as_already_won() {
    let mut engine = GameEngine::new();
    play_all(&mut engine, &[0, 3, 1, 4, 2]);
    assert_eq!(
        engine.play_move(Position::new(0).unwrap()),
        Err(InvalidGameMoveError::GameAlreadyWon)
    );
    assert_eq!(engine.board[0], Some(Player::X));
}

#[test]
fn turn_passes_unless_the_move_ends_the_game() {
    let mut engine = GameEngine::new();
    assert_eq!(engine.current_player, Player::X);
    play_all(&mut engine, &[0]);
    assert_eq!(engine.current_player, Player::O);
    play_all(&mut engine, &[3]);
    assert_eq!(engine.current_player, Player::X);
    play_all(&mut engine, &[1, 4]);
    assert_eq!(engine.current_player, Player::X);
    play_all(&mut engine, &[2]);
    assert_eq!(
        engine.status,
        GameStatus::Win {
            player: Player::X,
            line: [0, 1, 2]
        }
    );
    assert_eq!(engine.current_player, Player::X);
}

#[test]
fn turn_stays_with_o_when_o_wins() {
    let mut engine = GameEngine::new();
    play_all(&mut engine, &[0, 2, 1, 4, 8, 6]);
    assert_eq!(
        engine.status,
        GameStatus::Win {
            player: Player::O,
            line: [2, 4, 6]
        }
    );
    assert_eq!(engine.current_player, Player::O);
    assert_eq!(engine.winner(), Some(Player::O));
}

#[test]
fn turn_stays_with_the_last_mover_in_a_draw() {
    let mut engine = GameEngine::new();
    play_all(&mut engine, &[0, 1, 2, 4, 3, 5, 7, 6, 8]);
    assert_eq!(engine.status, GameStatus::Draw);
    assert_eq!(engine.current_player, Player::X);
    assert_eq!(engine.board.iter().filter(|c| **c == Some(Player::X)).count(), 5);
    assert_eq!(engine.board.iter().filter(|c| **c == Some(Player::O)).count(), 4);
}

#[test]
fn reset_twice_is_reset_once() {
    let mut once = GameEngine::new();
    play_all(&mut once, &[4, 0, 8]);
    let mut twice = once;
    once.reset();
    twice.reset();
    twice.reset();
    assert_eq!(once.board, twice.board);
    assert_eq!(once.current_player, twice.current_player);
    assert_eq!(once.status, twice.status);
    assert_eq!(twice.board, [None; 9]);
    assert_eq!(twice.current_player, Player::X);
    assert_eq!(twice.status, GameStatus::Ongoing);
}

#[test]
fn reset_reopens_a_finished_game() {
    let mut engine = GameEngine::new();
    play_all(&mut engine, &[0, 3, 1, 4, 2]);
    assert_eq!(engine.handle_event(GameEvent::Reset), Ok(()));
    assert_eq!(engine.status, GameStatus::Ongoing);
    assert_eq!(engine.validate_event(GameEvent::Reset), Ok(()));
    assert_eq!(engine.play_move(Position::new(0).unwrap()), Ok(()));
}

#[test]
fn every_line_wins_for_either_player() {
    for line in WINNING_COMBINATIONS {
        for player in [Player::X, Player::O] {
            let mut engine = GameEngine::new();
            for cell in line {
                engine.board[cell] = Some(player);
            }
            assert_eq!(winning_line(&engine.board), Some(line));
            assert_eq!(engine.calculate_status(), GameStatus::Win { player, line });
            engine.update_winner();
            assert_eq!(engine.status, GameStatus::Win { player, line });
            assert_eq!(engine.winner(), Some(player));
            for cell in 0..9 {
                assert_eq!(engine.status.highlights(cell), line.contains(&cell));
            }
        }
    }
}

#[test]
fn first_line_in_order_is_reported() {
    let mut board = [None; 9];
    for cell in [0, 3, 6, 4, 8] {
        board[cell] = Some(Player::O);
    }
    assert_eq!(winning_line(&board), Some([0, 3, 6]));
    board[1] = Some(Player::O);
    board[2] = Some(Player::O);
    assert_eq!(winning_line(&board), Some([0, 1, 2]));
}

#[test]
fn mixed_line_does_not_win() {
    let mut engine = GameEngine::new();
    engine.board[0] = Some(Player::X);
    engine.board[1] = Some(Player::O);
    engine.board[2] = Some(Player::X);
    assert_eq!(winning_line(&engine.board), None);
    assert_eq!(engine.calculate_status(), GameStatus::Ongoing);
    assert!(!engine.status.highlights(0));
    assert!(!GameStatus::Draw.highlights(0));
    assert!(GameStatus::Draw.is_over());
    assert!(!GameStatus::Ongoing.is_over());
}

#[test]
fn validate_event_does_not_change_the_game() {
    let mut engine = GameEngine::new();
    play_all(&mut engine, &[4]);
    let before = engine;
    let pos = Position::new(4).unwrap();
    assert_eq!(
        engine.validate_event(GameEvent::PlayMove(pos)),
        Err(InvalidGameMoveError::SpaceOccupied)
    );
    assert_eq!(
        engine.validate_event(GameEvent::PlayMove(Position::new(5).unwrap())),
        Ok(())
    );
    assert_eq!(engine.board, before.board);
    assert_eq!(engine.current_player, before.current_player);
    assert_eq!(engine.status, before.status);
}

#[test]
fn reason_names() {
    assert_eq!(InvalidGameMoveError::GameAlreadyWon.name(), "GameAlreadyWon");
    assert_eq!(InvalidGameMoveError::SpaceOccupied.name(), "SpaceOccupied");
}
