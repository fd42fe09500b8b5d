use vindinium::board::{BoardFormatError, Tile};
use vindinium::decode::{DecodeCause, DecodeError, PathStep};
use vindinium::json::JsonValue;
use vindinium::state::{Dir, Hero, Pos};

fn text(s: &str) -> JsonValue {
    JsonValue::Str(s.to_string())
}

fn object(members: Vec<(&str, JsonValue)>) -> JsonValue {
    JsonValue::Object(members.into_iter().map(|(k, v)| (k.to_string(), v)).collect())
}

fn pos(x: i64, y: i64) -> JsonValue {
    object(vec![("x", JsonValue::I64(x)), ("y", JsonValue::I64(y))])
}

fn hero_members() -> Vec<(&'static str, JsonValue)> {
    vec![
        ("id", JsonValue::I64(1)),
        ("name", text("alice")),
        ("pos", pos(3, 4)),
        ("life", JsonValue::I64(100)),
        ("gold", JsonValue::I64(7)),
        ("mineCount", JsonValue::I64(2)),
        ("spawnPos", pos(0, 1)),
        ("crashed", JsonValue::Bool(false)),
    ]
}

fn path_names(e: &DecodeError) -> Vec<String> {
    e.path
        .iter()
        .map(|s| match s {
            PathStep::Member(k) => k.clone(),
            PathStep::Item(i) => format!("#{}", i),
        })
        .collect()
}

#[test]
fn hero_without_optional_members_decodes() {
    let h = Hero::decode(&object(hero_members())).unwrap();
    assert_eq!(h.id, 1);
    assert_eq!(h.name, "alice");
    assert_eq!(h.user_id, None);
    assert_eq!(h.elo, None);
    assert_eq!(h.pos, Pos { x: 3, y: 4 });
    assert_eq!(h.life, 100);
    assert_eq!(h.gold, 7);
    assert_eq!(h.mine_count, 2);
    assert_eq!(h.spawn_pos, Pos { x: 0, y: 1 });
    assert!(!h.crashed);
}

#[test]
fn hero_with_numeric_user_id_has_no_user_id() {
    let mut members = hero_members();
    members.push(("userId", JsonValue::I64(42)));
    members.push(("elo", text("high")));
    let h = Hero::decode(&object(members)).unwrap();
    assert_eq!(h.user_id, None);
    assert_eq!(h.elo, None);
}

#[test]
fn hero_with_optional_members_keeps_them() {
    let mut members = hero_members();
    members.push(("userId", text("u-17")));
    members.push(("elo", JsonValue::I64(1200)));
    let h = Hero::decode(&object(members)).unwrap();
    assert_eq!(h.user_id, Some("u-17".to_string()));
    assert_eq!(h.elo, Some(1200));
}

#[test]
fn hero_missing_life_names_life() {
    let members: Vec<_> = hero_members().into_iter().filter(|(k, _)| *k != "life").collect();
    let e = Hero::decode(&object(members)).unwrap_err();
    assert_eq!(path_names(&e), vec!["life".to_string()]);
    assert!(matches!(e.cause, DecodeCause::Missing));
}

#[test]
fn hero_with_mistyped_gold_names_gold() {
    let mut members: Vec<_> = hero_members().into_iter().filter(|(k, _)| *k != "gold").collect();
    members.push(("gold", text("lots")));
    let e = Hero::decode(&object(members)).unwrap_err();
    assert_eq!(path_names(&e), vec!["gold".to_string()]);
    assert!(matches!(e.cause, DecodeCause::WrongType));
}

#[test]
fn hero_with_bad_position_names_path() {
    let mut members: Vec<_> = hero_members().into_iter().filter(|(k, _)| *k != "pos").collect();
    members.push(("pos", object(vec![("x", JsonValue::I64(1))])));
    let e = Hero::decode(&object(members)).unwrap_err();
    assert_eq!(path_names(&e), vec!["pos".to_string(), "y".to_string()]);
    assert!(matches!(e.cause, DecodeCause::Missing));
}

#[test]
fn position_that_is_not_an_object_is_mistyped() {
    let e = Pos::decode(&JsonValue::I64(3)).unwrap_err();
    assert!(e.path.is_empty());
    assert!(matches!(e.cause, DecodeCause::WrongType));
}

#[test]
fn position_accepts_unsigned_numbers() {
    let p = Pos::decode(&object(vec![("x", JsonValue::U64(5)), ("y", JsonValue::I64(-2))])).unwrap();
    assert_eq!(p, Pos { x: 5, y: -2 });
}

#[test]
fn position_refuses_fractions() {
    let e = Pos::decode(&object(vec![("x", JsonValue::Real), ("y", JsonValue::I64(0))])).unwrap_err();
    assert_eq!(path_names(&e), vec!["x".to_string()]);
    assert!(matches!(e.cause, DecodeCause::WrongType));
}

#[test]
fn board_error_is_wrapped() {
    let j = object(vec![("size", JsonValue::I64(1)), ("tiles", text("%%"))]);
    let e = vindinium::board::Board::decode(&j).unwrap_err();
    assert_eq!(path_names(&e), vec!["tiles".to_string()]);
    assert!(matches!(
        e.cause,
        DecodeCause::Board(BoardFormatError::BadTile { index: 0, first: '%', second: '%' })
    ));
}

#[test]
fn board_decodes_size_then_tiles() {
    let j = object(vec![("size", JsonValue::I64(2)), ("tiles", text("  ##[]@1"))]);
    let b = vindinium::board::Board::decode(&j).unwrap();
    assert_eq!(b.size, 2);
    assert_eq!(b.tiles[1], vec![Tile::Tavern, Tile::Hero(1)]);
}

#[test]
fn board_with_negative_size_is_mistyped() {
    let j = object(vec![("size", JsonValue::I64(-1)), ("tiles", text(""))]);
    let e = vindinium::board::Board::decode(&j).unwrap_err();
    assert_eq!(path_names(&e), vec!["size".to_string()]);
    assert!(matches!(e.cause, DecodeCause::WrongType));
}

#[test]
fn directions_round_trip() {
    for d in [Dir::Stay, Dir::North, Dir::South, Dir::East, Dir::West] {
        assert_eq!(Dir::decode(&JsonValue::Str(d.encode())).unwrap(), d);
    }
}

#[test]
fn directions_have_canonical_names() {
    assert_eq!(Dir::Stay.encode(), "Stay");
    assert_eq!(Dir::North.encode(), "North");
    assert_eq!(Dir::South.encode(), "South");
    assert_eq!(Dir::East.encode(), "East");
    assert_eq!(Dir::West.encode(), "West");
}

#[test]
fn direction_names_are_case_sensitive() {
    let e = Dir::decode(&text("north")).unwrap_err();
    assert!(matches!(e.cause, DecodeCause::Direction(ref t) if t == "north"));
    let e = Dir::decode(&JsonValue::I64(1)).unwrap_err();
    assert!(matches!(e.cause, DecodeCause::WrongType));
}
