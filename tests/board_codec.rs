use vindinium::board::{tile_from_code, Board, BoardFormatError, Tile};

#[test]
fn decodes_two_by_two_board() {
    let b = Board::from_packed(2, "  ##[]@1").unwrap();
    assert_eq!(b.size, 2);
    assert_eq!(b.tiles, vec![vec![Tile::Free, Tile::Wood], vec![Tile::Tavern, Tile::Hero(1)]]);
}

#[test]
fn decodes_unowned_and_owned_mines() {
    let b = Board::from_packed(1, "$-").unwrap();
    assert_eq!(b.tiles, vec![vec![Tile::Mine(None)]]);
    let b = Board::from_packed(1, "$3").unwrap();
    assert_eq!(b.tiles, vec![vec![Tile::Mine(Some(3))]]);
}

#[test]
fn decodes_every_row_full() {
    let b = Board::from_packed(3, "@0$9  ##[]$-@4  ##").unwrap();
    assert_eq!(b.tiles.len(), 3);
    for row in &b.tiles {
        assert_eq!(row.len(), 3);
    }
    assert_eq!(b.tiles[0], vec![Tile::Hero(0), Tile::Mine(Some(9)), Tile::Free]);
    assert_eq!(b.tiles[1], vec![Tile::Wood, Tile::Tavern, Tile::Mine(None)]);
    assert_eq!(b.tiles[2], vec![Tile::Hero(4), Tile::Free, Tile::Wood]);
}

#[test]
fn decodes_empty_board() {
    let b = Board::from_packed(0, "").unwrap();
    assert_eq!(b.size, 0);
    assert!(b.tiles.is_empty());
}

#[test]
fn refuses_wrong_length() {
    assert_eq!(
        Board::from_packed(2, "  ##[]").unwrap_err(),
        BoardFormatError::WrongLength { size: 2, found: 6 }
    );
    assert_eq!(
        Board::from_packed(1, "  ##").unwrap_err(),
        BoardFormatError::WrongLength { size: 1, found: 4 }
    );
}

#[test]
fn refuses_length_before_reading_codes() {
    assert_eq!(
        Board::from_packed(2, "%%%%%").unwrap_err(),
        BoardFormatError::WrongLength { size: 2, found: 5 }
    );
}

#[test]
fn refuses_unknown_pair() {
    assert_eq!(
        Board::from_packed(2, "  ##%%@1").unwrap_err(),
        BoardFormatError::BadTile { index: 2, first: '%', second: '%' }
    );
}

#[test]
fn reports_first_unknown_pair() {
    assert_eq!(
        Board::from_packed(2, "  ab%%@1").unwrap_err(),
        BoardFormatError::BadTile { index: 1, first: 'a', second: 'b' }
    );
}

#[test]
fn refuses_hero_without_digit() {
    assert_eq!(
        Board::from_packed(1, "@x").unwrap_err(),
        BoardFormatError::BadTile { index: 0, first: '@', second: 'x' }
    );
    assert!(Board::from_packed(1, "@-").is_err());
}

#[test]
fn refuses_mine_without_digit() {
    assert_eq!(
        Board::from_packed(1, "$x").unwrap_err(),
        BoardFormatError::BadTile { index: 0, first: '$', second: 'x' }
    );
}

#[test]
fn counts_length_in_characters() {
    assert_eq!(
        Board::from_packed(1, "é#").unwrap_err(),
        BoardFormatError::BadTile { index: 0, first: 'é', second: '#' }
    );
}

#[test]
fn reads_single_codes() {
    assert_eq!(tile_from_code(' ', ' '), Some(Tile::Free));
    assert_eq!(tile_from_code('@', '7'), Some(Tile::Hero(7)));
    assert_eq!(tile_from_code('$', '-'), Some(Tile::Mine(None)));
    assert_eq!(tile_from_code('[', '['), None);
    assert_eq!(tile_from_code('#', ' '), None);
}
