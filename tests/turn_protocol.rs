use vindinium::board::Tile;
use vindinium::decode::{DecodeCause, PathStep};
use vindinium::json::{parse_admissible_text, JsonValue};
use vindinium::protocol::{
    classify_response, next_phase, start_arena_msg, start_msg, start_training_msg, step_msg, Mode, Outcome,
    Phase, Settings, TransportError,
};
use vindinium::state::Dir;

const STATE: &str = r#"{
  "game": {
    "id": "s2xh3aig",
    "turn": 4,
    "maxTurns": 1200,
    "heroes": [
      {"id": 1, "name": "vjousse", "userId": "j07ws669", "elo": 1200,
       "pos": {"x": 5, "y": 6}, "life": 60, "gold": 0, "mineCount": 0,
       "spawnPos": {"x": 5, "y": 6}, "crashed": true},
      {"id": 2, "name": "random", "pos": {"x": 6, "y": 6}, "life": 100,
       "gold": 0, "mineCount": 0, "spawnPos": {"x": 6, "y": 6}, "crashed": false}
    ],
    "board": {"size": 2, "tiles": "@1$-##@2"},
    "finished": false
  },
  "hero": {"id": 2, "name": "random", "pos": {"x": 6, "y": 6}, "life": 100,
           "gold": 0, "mineCount": 0, "spawnPos": {"x": 6, "y": 6}, "crashed": false},
  "token": "lte0",
  "viewUrl": "http://localhost:9000/s2xh3aig",
  "playUrl": "http://localhost:9000/api/s2xh3aig/lte0/play"
}"#;

fn settings(mode: Mode) -> Settings {
    Settings { key: "secret".to_string(), url: "http://vindinium.org".to_string(), mode }
}

fn member<'a>(body: &'a [(String, JsonValue)], key: &str) -> Option<&'a JsonValue> {
    body.iter().find(|(k, _)| k == key).map(|(_, v)| v)
}

fn keys(body: &[(String, JsonValue)]) -> Vec<&str> {
    body.iter().map(|(k, _)| k.as_str()).collect()
}

#[test]
fn sentinel_is_game_finished_timeout() {
    let r = classify_response(200, "Vindinium - The game is finished");
    assert!(matches!(r, Outcome::GameFinishedTimeout));
}

#[test]
fn near_sentinel_is_decode_failure() {
    let r = classify_response(200, "Vindinium - The game is finished.");
    match r {
        Outcome::DecodeFailure(e) => assert!(matches!(e.cause, DecodeCause::Syntax(_))),
        other => panic!("unexpected outcome {:?}", other),
    }
}

#[test]
fn failed_status_is_transport_failure() {
    let r = classify_response(500, STATE);
    assert!(matches!(r, Outcome::TransportFailure(TransportError::Status(500))));
}

#[test]
fn state_document_decodes() {
    let s = match classify_response(200, STATE) {
        Outcome::Decoded(s) => s,
        other => panic!("unexpected outcome {:?}", other),
    };
    assert_eq!(s.game.id, "s2xh3aig");
    assert_eq!(s.game.turn, 4);
    assert_eq!(s.game.max_turns, 1200);
    assert_eq!(s.game.heroes.len(), 2);
    assert_eq!(s.game.heroes[0].user_id, Some("j07ws669".to_string()));
    assert_eq!(s.game.heroes[0].elo, Some(1200));
    assert!(s.game.heroes[0].crashed);
    assert_eq!(s.game.heroes[1].user_id, None);
    assert_eq!(s.game.board.tiles, vec![vec![Tile::Hero(1), Tile::Mine(None)], vec![Tile::Wood, Tile::Hero(2)]]);
    assert!(!s.game.finished);
    assert_eq!(s.hero.id, 2);
    assert_eq!(s.token, "lte0");
    assert_eq!(s.view_url, "http://localhost:9000/s2xh3aig");
    assert_eq!(s.play_url, "http://localhost:9000/api/s2xh3aig/lte0/play");
}

#[test]
fn bad_hero_in_list_names_its_index() {
    let doc = STATE.replace("\"life\": 60,", "");
    match classify_response(200, &doc) {
        Outcome::DecodeFailure(e) => {
            assert!(matches!(e.cause, DecodeCause::Missing));
            assert_eq!(e.path.len(), 4);
            assert!(matches!(&e.path[0], PathStep::Member(k) if k == "game"));
            assert!(matches!(&e.path[1], PathStep::Member(k) if k == "heroes"));
            assert!(matches!(&e.path[2], PathStep::Item(0)));
            assert!(matches!(&e.path[3], PathStep::Member(k) if k == "life"));
        },
        other => panic!("unexpected outcome {:?}", other),
    }
}

#[test]
fn training_start_has_key_and_turns_only() {
    let s = settings(Mode::Training(Some(100), None));
    let (url, body) = start_msg(&s);
    assert_eq!(url, "http://vindinium.org/api/training");
    assert_eq!(keys(&body), vec!["key", "turns"]);
    assert!(matches!(member(&body, "key"), Some(JsonValue::Str(k)) if k == "secret"));
    assert!(matches!(member(&body, "turns"), Some(JsonValue::U64(100))));
    assert!(member(&body, "map").is_none());
}

#[test]
fn training_start_with_map() {
    let s = settings(Mode::Training(None, Some("m1".to_string())));
    let (url, body) = start_training_msg(&s, None, Some("m1".to_string()));
    assert_eq!(url, "http://vindinium.org/api/training");
    assert_eq!(keys(&body), vec!["key", "map"]);
    assert!(matches!(member(&body, "map"), Some(JsonValue::Str(m)) if m == "m1"));
}

#[test]
fn arena_start_has_key_only() {
    let s = settings(Mode::Arena);
    let (url, body) = start_msg(&s);
    assert_eq!(url, "http://vindinium.org/api/arena");
    assert_eq!(keys(&body), vec!["key"]);
    let (url2, body2) = start_arena_msg(&s);
    assert_eq!(url2, url);
    assert_eq!(keys(&body2), vec!["key"]);
}

#[test]
fn start_url_joins_base_and_endpoint() {
    let s = settings(Mode::Arena);
    assert_eq!(s.start_url("training"), "http://vindinium.org/api/training");
}

#[test]
fn move_goes_to_play_url() {
    let state = match classify_response(200, STATE) {
        Outcome::Decoded(s) => s,
        other => panic!("unexpected outcome {:?}", other),
    };
    let (url, body) = step_msg(&settings(Mode::Arena), &state, Dir::North);
    assert_eq!(url, "http://localhost:9000/api/s2xh3aig/lte0/play");
    assert_eq!(keys(&body), vec!["dir", "key"]);
    assert!(matches!(member(&body, "dir"), Some(JsonValue::Str(d)) if d == "North"));
    assert!(matches!(member(&body, "key"), Some(JsonValue::Str(k)) if k == "secret"));
}

#[test]
fn live_state_asks_for_a_move() {
    let phase = next_phase(classify_response(200, STATE));
    assert!(matches!(phase, Phase::Playing(ref s) if s.game.turn == 4));
}

#[test]
fn finished_state_ends_the_match() {
    let doc = STATE.replace("\"finished\": false", "\"finished\": true");
    let phase = next_phase(classify_response(200, &doc));
    assert!(matches!(phase, Phase::Finished(ref s) if s.game.finished));
}

#[test]
fn timeout_aborts_play() {
    let phase = next_phase(classify_response(200, "Vindinium - The game is finished"));
    assert!(matches!(phase, Phase::Aborted(Outcome::GameFinishedTimeout)));
    let phase = next_phase(classify_response(200, "{}"));
    assert!(matches!(phase, Phase::Aborted(Outcome::DecodeFailure(_))));
}

#[test]
fn long_exponent_is_not_parsed() {
    let r = classify_response(200, "{\"game\": 1e100000000000000000000}");
    match r {
        Outcome::DecodeFailure(e) => {
            assert!(e.path.is_empty());
            assert!(matches!(e.cause, DecodeCause::OutOfLimits));
        },
        other => panic!("unexpected outcome {:?}", other),
    }
}

#[test]
fn deep_nesting_is_not_parsed() {
    let doc = format!("{}{}", "[".repeat(100000), "]".repeat(100000));
    let r = classify_response(200, &doc);
    assert!(matches!(r, Outcome::DecodeFailure(ref e) if matches!(e.cause, DecodeCause::OutOfLimits)));
}

#[test]
fn huge_key_is_not_parsed() {
    let doc = format!("{{\"{}\": 1}}", "k".repeat(70000));
    let r = classify_response(200, &doc);
    assert!(matches!(r, Outcome::DecodeFailure(ref e) if matches!(e.cause, DecodeCause::OutOfLimits)));
}

#[test]
fn admissible_texts_within_limits() {
    assert!(parse_admissible_text("{\"a\": [1, 2e123456789, -3E-5]}"));
    assert!(!parse_admissible_text("[1e1234567890]"));
    assert!(parse_admissible_text("\"1e1234567890\""));
    assert!(parse_admissible_text(&format!("{}{}", "[".repeat(64), "]".repeat(64))));
    assert!(!parse_admissible_text(&format!("{}{}", "[".repeat(65), "]".repeat(65))));
    assert!(parse_admissible_text("[\"[[[[[[[[[[[[[[[[[[[[[[[[[[[[[[[[[[[[[[[[[[[[[[[[[[[[[[[[[[[[[[[[[[[[[[[[\"]"));
    assert!(parse_admissible_text("[\"\\\"[\"]"));
    assert!(parse_admissible_text(&format!("\"{}\"", "x".repeat(70000))));
    assert!(parse_admissible_text(&format!("{{\"{}\": 1}}", "k".repeat(65535))));
    assert!(!parse_admissible_text(&format!("{{\"{}\": 1}}", "k".repeat(65536))));
    assert!(!parse_admissible_text(&format!("{{\"{}\": 1, \"{}\" : 2}}", "k".repeat(40000), "j".repeat(30000))));
    assert!(!parse_admissible_text("{\"a\": 1, }"));
    assert!(parse_admissible_text("[1, 2, {\"a\": \",}\"}]"));
}

#[test]
fn nine_digit_exponent_still_decodes_as_number() {
    let doc = STATE.replace("\"turn\": 4", "\"turn\": 4e123456789");
    let r = classify_response(200, &doc);
    match r {
        Outcome::DecodeFailure(e) => {
            assert!(matches!(e.cause, DecodeCause::WrongType));
            assert!(matches!(&e.path[1], PathStep::Member(k) if k == "turn"));
        },
        other => panic!("unexpected outcome {:?}", other),
    }
}

#[test]
fn trailing_comma_in_nested_object_is_decode_failure() {
    let r = classify_response(200, "[{\"k\":{\"a\":1,},1]");
    assert!(matches!(r, Outcome::DecodeFailure(ref e) if matches!(e.cause, DecodeCause::OutOfLimits)));
    let r = classify_response(200, "{\"a\": {\"b\": 1 ,\n }}");
    assert!(matches!(r, Outcome::DecodeFailure(_)));
}

#[test]
fn large_state_document_decodes() {
    let tiles = "  ".repeat(181 * 181);
    let doc = STATE
        .replace("\"size\": 2", "\"size\": 181")
        .replace("\"@1$-##@2\"", &format!("\"{}\"", tiles));
    assert!(doc.len() >= 65536);
    match classify_response(200, &doc) {
        Outcome::Decoded(s) => {
            assert_eq!(s.game.board.size, 181);
            assert_eq!(s.game.board.tiles.len(), 181);
            assert!(s.game.board.tiles.iter().all(|row| row.len() == 181 && row.iter().all(|t| *t == Tile::Free)));
        },
        other => panic!("unexpected outcome {:?}", other),
    }
}

#[test]
fn sentinel_wins_over_status() {
    let r = classify_response(408, "Vindinium - The game is finished");
    assert!(matches!(r, Outcome::GameFinishedTimeout));
}
