//! The game state that the server sends each turn, and the directions a
//! hero can move in.

use crate::board::{Board, HeroId, Tile};
use vstd::prelude::*;

verus! {

pub type GameId = String;

/// A cell of the grid, by coordinates.
#[derive(Debug, Clone, Copy, PartialEq, Eq, Structural)]
pub struct Pos {
    pub x: isize,
    pub y: isize,
}

/// A player of the match.
#[derive(Debug, Clone)]
pub struct Hero {
    pub id: HeroId,
    pub name: String,
    /// Present for human players only.
    pub user_id: Option<String>,
    pub elo: Option<isize>,
    pub pos: Pos,
    pub life: isize,
    pub gold: isize,
    pub mine_count: isize,
    pub spawn_pos: Pos,
    pub crashed: bool,
}

/// One match.
#[derive(Debug, Clone)]
pub struct Game {
    pub id: GameId,
    pub turn: isize,
    pub max_turns: isize,
    pub heroes: Vec<Hero>,
    pub board: Board,
    pub finished: bool,
}

/// What the server sends after each move: the match, this client's own
/// hero, and where to send the next move.
#[derive(Debug, Clone)]
pub struct State {
    pub game: Game,
    pub hero: Hero,
    pub token: String,
    pub view_url: String,
    pub play_url: String,
}

/// A move.
#[derive(Debug, Clone, Copy, PartialEq, Eq, Structural)]
pub enum Dir {
    Stay,
    North,
    South,
    East,
    West,
}

pub struct HeroView {
    pub id: HeroId,
    pub name: Seq<char>,
    pub user_id: Option<Seq<char>>,
    pub elo: Option<isize>,
    pub pos: Pos,
    pub life: isize,
    pub gold: isize,
    pub mine_count: isize,
    pub spawn_pos: Pos,
    pub crashed: bool,
}

pub struct BoardView {
    pub size: usize,
    pub rows: Seq<Seq<Tile>>,
}

pub struct GameView {
    pub id: Seq<char>,
    pub turn: isize,
    pub max_turns: isize,
    pub heroes: Seq<HeroView>,
    pub board: BoardView,
    pub finished: bool,
}

pub struct StateView {
    pub game: GameView,
    pub hero: HeroView,
    pub token: Seq<char>,
    pub view_url: Seq<char>,
    pub play_url: Seq<char>,
}

/// The text of an optional string.
pub open spec fn opt_text(s: Option<String>) -> Option<Seq<char>> {
    match s {
        Some(t) => Some(t@),
        None => None,
    }
}

impl View for Pos {
    type V = Pos;

    open spec fn view(&self) -> Pos {
        *self
    }
}

impl View for Dir {
    type V = Dir;

    open spec fn view(&self) -> Dir {
        *self
    }
}

/// The views of a list of heroes.
pub open spec fn hero_views(heroes: Seq<Hero>) -> Seq<HeroView> {
    heroes.map_values(|h: Hero| h@)
}

impl View for Hero {
    type V = HeroView;

    open spec fn view(&self) -> HeroView {
        HeroView {
            id: self.id,
            name: self.name@,
            user_id: opt_text(self.user_id),
            elo: self.elo,
            pos: self.pos,
            life: self.life,
            gold: self.gold,
            mine_count: self.mine_count,
            spawn_pos: self.spawn_pos,
            crashed: self.crashed,
        }
    }
}

impl View for Board {
    type V = BoardView;

    open spec fn view(&self) -> BoardView {
        BoardView { size: self.size, rows: self.rows() }
    }
}

impl View for Game {
    type V = GameView;

    open spec fn view(&self) -> GameView {
        GameView {
            id: self.id@,
            turn: self.turn,
            max_turns: self.max_turns,
            heroes: hero_views(self.heroes@),
            board: self.board@,
            finished: self.finished,
        }
    }
}

impl View for State {
    type V = StateView;

    open spec fn view(&self) -> StateView {
        StateView {
            game: self.game@,
            hero: self.hero@,
            token: self.token@,
            view_url: self.view_url@,
            play_url: self.play_url@,
        }
    }
}

/// The canonical name of a direction, as sent to the server.
pub open spec fn dir_name(d: Dir) -> Seq<char> {
    match d {
        Dir::Stay => "Stay"@,
        Dir::North => "North"@,
        Dir::South => "South"@,
        Dir::East => "East"@,
        Dir::West => "West"@,
    }
}

/// The direction whose canonical name is `t`, compared case for case.
pub open spec fn dir_named(t: Seq<char>) -> Option<Dir> {
    if t == "Stay"@ {
        Some(Dir::Stay)
    } else if t == "North"@ {
        Some(Dir::North)
    } else if t == "South"@ {
        Some(Dir::South)
    } else if t == "East"@ {
        Some(Dir::East)
    } else if t == "West"@ {
        Some(Dir::West)
    } else {
        None
    }
}

/// Reading back the canonical name of a direction gives that direction.
pub proof fn lemma_dir_name_round_trip(d: Dir)
    ensures
        dir_named(dir_name(d)) == Some(d),
{
    reveal_strlit("Stay");
    reveal_strlit("North");
    reveal_strlit("South");
    reveal_strlit("East");
    reveal_strlit("West");
    assert("Stay"@.len() == 4 && "East"@.len() == 4 && "West"@.len() == 4);
    assert("North"@.len() == 5 && "South"@.len() == 5);
    assert("Stay"@[0] == 'S' && "East"@[0] == 'E' && "West"@[0] == 'W');
    assert("North"@[0] == 'N' && "South"@[0] == 'S');
}

impl Dir {
    /// The canonical name of this direction.
    pub fn encode(&self) -> (r: String)
        ensures
            r@ == dir_name(*self),
    {
        match self {
            Dir::Stay => String::from_str("Stay"),
            Dir::North => String::from_str("North"),
            Dir::South => String::from_str("South"),
            Dir::East => String::from_str("East"),
            Dir::West => String::from_str("West"),
        }
    }
}

} // verus!
