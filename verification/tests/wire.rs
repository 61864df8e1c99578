use rust_tac_toe::console::headline;
use rust_tac_toe::{GameEngine, GameStatus, Player, Position, WasmGameEngine};
use serde_json::Value;

fn text(s: &str) -> Value {
    Value::String(s.to_string())
}

fn object(entries: Vec<(&str, Value)>) -> Value {
    let mut map = serde_json::Map::new();
    for (key, value) in entries {
        map.insert(key.to_string(), value);
    }
    Value::Object(map)
}

fn same_game(a: &GameEngine, b: &GameEngine) -> bool {
    a.board == b.board && a.current_player == b.current_player && a.status == b.status
}

#[test]
fn test_serialize_game_status() {
    let mut engine = GameEngine::new();
    engine.status = GameStatus::Win {
        player: Player::O,
        line: [0, 1, 2],
    };
    let win: Value = serde_json::from_str(&engine.to_json()).unwrap();
    let expected = object(vec![
        ("board", Value::Array(vec![Value::Null; 9])),
        ("currentPlayer", text("X")),
        (
            "status",
            object(vec![
                ("type", text("Win")),
                (
                    "value",
                    object(vec![
                        ("player", text("O")),
                        (
                            "line",
                            Value::Array(vec![Value::from(0), Value::from(1), Value::from(2)]),
                        ),
                    ]),
                ),
            ]),
        ),
    ]);

    assert_eq!(win, expected,);
}

#[test]
fn new_game_as_json() {
    assert_eq!(
        GameEngine::new().to_json(),
        "{\"board\":[null,null,null,null,null,null,null,null,null],\"currentPlayer\":\"X\",\"status\":{\"type\":\"Ongoing\"}}"
    );
    assert_eq!(WasmGameEngine::new().get_state(), GameEngine::new().to_json());
}

#[test]
fn game_in_play_as_json() {
    let mut game = WasmGameEngine::new();
    for position in [4u8, 0, 8] {
        game.play_move(position).unwrap();
    }
    assert_eq!(
        game.get_state(),
        "{\"board\":[\"O\",null,null,null,\"X\",null,null,null,\"X\"],\"currentPlayer\":\"O\",\"status\":{\"type\":\"Ongoing\"}}"
    );
}

#[test]
fn won_game_as_json() {
    let mut engine = GameEngine::new();
    for m in [0u8, 3, 1, 4, 2] {
        engine.play_move(Position::new(m).unwrap()).unwrap();
    }
    assert_eq!(
        engine.to_json(),
        "{\"board\":[\"X\",\"X\",\"X\",\"O\",\"O\",null,null,null,null],\"currentPlayer\":\"X\",\"status\":{\"type\":\"Win\",\"value\":{\"player\":\"X\",\"line\":[0,1,2]}}}"
    );
}

#[test]
fn drawn_game_as_json() {
    let mut engine = GameEngine::new();
    for m in [0u8, 1, 2, 4, 3, 5, 7, 6, 8] {
        engine.play_move(Position::new(m).unwrap()).unwrap();
    }
    assert_eq!(
        engine.to_json(),
        "{\"board\":[\"X\",\"O\",\"X\",\"X\",\"O\",\"O\",\"O\",\"X\",\"X\"],\"currentPlayer\":\"X\",\"status\":{\"type\":\"Draw\"}}"
    );
    let value: Value = serde_json::from_str(&engine.to_json()).unwrap();
    assert_eq!(value["status"], object(vec![("type", text("Draw"))]));
    assert_eq!(value["currentPlayer"], text("X"));
    assert_eq!(value["board"][1], text("O"));
}

#[test]
fn json_is_what_a_json_reader_expects() {
    let mut engine = GameEngine::new();
    let moves = [4u8, 0, 8, 2, 1, 7, 6, 3, 5];
    for m in moves {
        let value: Value = serde_json::from_str(&engine.to_json()).unwrap();
        let cells: Vec<Value> = engine
            .board
            .iter()
            .map(|c| match c {
                Some(p) => text(p.name()),
                None => Value::Null,
            })
            .collect();
        assert_eq!(value["board"], Value::Array(cells));
        assert_eq!(value["currentPlayer"], text(engine.current_player.name()));
        assert_eq!(value["status"]["type"], text("Ongoing"));
        assert_eq!(value.as_object().unwrap().len(), 3);
        engine.play_move(Position::new(m).unwrap()).unwrap();
    }
    assert_eq!(engine.status, GameStatus::Draw);
}

#[test]
fn written_game_is_read_back_and_written_alike() {
    let games: [&[u8]; 6] = [
        &[],
        &[4],
        &[4, 0, 8],
        &[0, 3, 1, 4, 2],
        &[0, 2, 1, 4, 8, 6],
        &[0, 1, 2, 4, 3, 5, 7, 6, 8],
    ];
    for moves in games {
        let mut engine = GameEngine::new();
        for &m in moves {
            engine.play_move(Position::new(m).unwrap()).unwrap();
        }
        let written = engine.to_json();
        let read = GameEngine::from_json(&written).unwrap();
        assert!(same_game(&read, &engine));
        assert_eq!(read.to_json(), written);
    }
}

#[test]
fn any_engine_is_read_back_even_one_that_no_game_reaches() {
    let mut engine = GameEngine::new();
    engine.board[3] = Some(Player::O);
    engine.current_player = Player::O;
    engine.status = GameStatus::Win {
        player: Player::X,
        line: [10, 907, usize::MAX],
    };
    let written = engine.to_json();
    assert!(written.ends_with(&format!(
        "\"status\":{{\"type\":\"Win\",\"value\":{{\"player\":\"X\",\"line\":[10,907,{}]}}}}}}",
        usize::MAX
    )));
    let read = GameEngine::from_json(&written).unwrap();
    assert!(same_game(&read, &engine));
    assert_eq!(read.to_json(), written);
}

#[test]
fn only_the_written_form_is_read() {
    let good = GameEngine::new().to_json();
    assert!(GameEngine::from_json(&good).is_some());
    let won = "{\"board\":[null,null,null,null,null,null,null,null,null],\"currentPlayer\":\"X\",\"status\":{\"type\":\"Win\",\"value\":{\"player\":\"O\",\"line\":[0,1,2]}}}";
    assert!(GameEngine::from_json(won).is_some());
    let bad = [
        String::new(),
        "{}".to_string(),
        "null".to_string(),
        format!("{} ", good),
        format!(" {}", good),
        format!("{}}}", good),
        good[..good.len() - 1].to_string(),
        good.replace("null", "\"\""),
        good.replace("\"X\"", "\"x\""),
        good.replace("\"X\"", "\"None\""),
        good.replace("Ongoing", "ongoing"),
        good.replace("Ongoing", "WinX"),
        good.replace(",\"currentPlayer\"", ", \"currentPlayer\""),
        good.replacen("null,", "", 1),
        good.replacen("null,", "null,null,", 1),
        "{\"currentPlayer\":\"X\",\"board\":[null,null,null,null,null,null,null,null,null],\"status\":{\"type\":\"Ongoing\"}}".to_string(),
        "{\"board\":[null,null,null,null,null,null,null,null,null],\"currentPlayer\":\"X\",\"status\":\"Ongoing\"}".to_string(),
        won.replace("[0,1,2]", "[0,1]"),
        won.replace("[0,1,2]", "[0,1,2,3]"),
        won.replace("[0,1,2]", "[00,1,2]"),
        won.replace("[0,1,2]", "[0,01,2]"),
        won.replace("[0,1,2]", "[,1,2]"),
        won.replace("[0,1,2]", "[0,1,-2]"),
        won.replace("[0,1,2]", "[0,1,+2]"),
        won.replace("[0,1,2]", "[0,1,2.0]"),
        won.replace("[0,1,2]", "[0, 1, 2]"),
        won.replace("[0,1,2]", "[0,1,340282366920938463463374607431768211456]"),
        won.replace("\"player\":\"O\",\"line\":[0,1,2]", "\"line\":[0,1,2],\"player\":\"O\""),
        won.replace("\"O\"", "null"),
    ];
    for text in bad.iter() {
        assert!(GameEngine::from_json(text).is_none(), "{}", text);
    }
}

#[test]
fn headlines() {
    let mut engine = GameEngine::new();
    assert_eq!(headline(&engine), "Current player: X");
    engine.play_move(Position::new(0).unwrap()).unwrap();
    assert_eq!(headline(&engine), "Current player: O");
    for m in [3u8, 1, 4, 2] {
        engine.play_move(Position::new(m).unwrap()).unwrap();
    }
    assert_eq!(headline(&engine), "Game over! Winner: X");
    engine.reset();
    for m in [0u8, 1, 2, 4, 3, 5, 7, 6, 8] {
        engine.play_move(Position::new(m).unwrap()).unwrap();
    }
    assert_eq!(headline(&engine), "Game over! It's a draw!");
    assert_eq!(Player::X.name(), "X");
    assert_eq!(Player::O.name(), "O");
}
