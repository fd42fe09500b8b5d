//! The state decoder: builds the typed game state from a JSON document.
//! Required members that are missing or of the wrong type make the decode
//! fail with an error that names the path to them; the optional members of
//! a hero (`userId`, `elo`) are read as "no value" when missing or mistyped.

use crate::board::{decode_packed, Board, BoardFormatError};
use crate::json::{member, JsonValue};
use crate::state::{
    dir_name, dir_named, hero_views, lemma_dir_name_round_trip, opt_text, BoardView, Dir, Game, GameView, Hero, HeroView, Pos, State,
    StateView,
};
use vstd::prelude::*;

verus! {

/// One step on the way from the document's root to a value.
#[derive(Debug, Clone)]
pub enum PathStep {
    Member(String),
    Item(usize),
}

/// What was wrong with the value at the end of the path.
#[derive(Debug, Clone)]
pub enum DecodeCause {
    /// A required member is not there.
    Missing,
    /// The value is not of the kind the decoder expects there.
    WrongType,
    /// The packed board string was refused.
    Board(BoardFormatError),
    /// The text is not the name of a direction.
    Direction(String),
    /// The text is not JSON; the message says where it went wrong.
    Syntax(String),
    /// The text is too large, too deeply nested, or has too long an
    /// exponent to be handed to the JSON parser.
    OutOfLimits,
}

/// A decoding failure, with the path to the value at fault.
#[derive(Debug, Clone)]
pub struct DecodeError {
    pub path: Vec<PathStep>,
    pub cause: DecodeCause,
}

pub enum PathStepView {
    Member(Seq<char>),
    Item(usize),
}

pub enum CauseView {
    Missing,
    WrongType,
    Board(BoardFormatError),
    Direction(Seq<char>),
    Syntax(Seq<char>),
    OutOfLimits,
}

pub struct DecodeErrorView {
    pub path: Seq<PathStepView>,
    pub cause: CauseView,
}

impl View for PathStep {
    type V = PathStepView;

    open spec fn view(&self) -> PathStepView {
        match self {
            PathStep::Member(k) => PathStepView::Member(k@),
            PathStep::Item(i) => PathStepView::Item(*i),
        }
    }
}

impl View for DecodeCause {
    type V = CauseView;

    open spec fn view(&self) -> CauseView {
        match self {
            DecodeCause::Missing => CauseView::Missing,
            DecodeCause::WrongType => CauseView::WrongType,
            DecodeCause::Board(e) => CauseView::Board(*e),
            DecodeCause::Direction(t) => CauseView::Direction(t@),
            DecodeCause::Syntax(m) => CauseView::Syntax(m@),
            DecodeCause::OutOfLimits => CauseView::OutOfLimits,
        }
    }
}

impl View for DecodeError {
    type V = DecodeErrorView;

    open spec fn view(&self) -> DecodeErrorView {
        DecodeErrorView { path: self.path@.map_values(|s: PathStep| s@), cause: self.cause@ }
    }
}

/// A failure of the value itself.
pub open spec fn at_root(cause: CauseView) -> DecodeErrorView {
    DecodeErrorView { path: Seq::empty(), cause }
}

/// A failure of the member `key`.
pub open spec fn at_member(key: Seq<char>, cause: CauseView) -> DecodeErrorView {
    DecodeErrorView { path: seq![PathStepView::Member(key)], cause }
}

/// A failure found inside the value that `step` leads to.
pub open spec fn under(step: PathStepView, e: DecodeErrorView) -> DecodeErrorView {
    DecodeErrorView { path: seq![step] + e.path, cause: e.cause }
}

/// A decoding result carried into the member `key`.
pub open spec fn in_member<A>(key: Seq<char>, r: Result<A, DecodeErrorView>) -> Result<A, DecodeErrorView> {
    match r {
        Ok(a) => Ok(a),
        Err(e) => Err(under(PathStepView::Member(key), e)),
    }
}

/// An executable result agrees with a result of the model.
pub open spec fn agrees<T: View>(r: Result<T, DecodeError>, m: Result<T::V, DecodeErrorView>) -> bool {
    match r {
        Ok(v) => m == Ok::<T::V, DecodeErrorView>(v@),
        Err(e) => m == Err::<T::V, DecodeErrorView>(e@),
    }
}

/// A whole JSON number.
pub open spec fn int_value(j: JsonValue) -> Option<int> {
    match j {
        JsonValue::I64(n) => Some(n as int),
        JsonValue::U64(n) => Some(n as int),
        _ => None,
    }
}

pub open spec fn isize_value(j: JsonValue) -> Option<isize> {
    match int_value(j) {
        Some(n) => if isize::MIN <= n <= isize::MAX { Some(n as isize) } else { None },
        None => None,
    }
}

pub open spec fn usize_value(j: JsonValue) -> Option<usize> {
    match int_value(j) {
        Some(n) => if 0 <= n <= usize::MAX { Some(n as usize) } else { None },
        None => None,
    }
}

pub open spec fn text_value(j: JsonValue) -> Option<Seq<char>> {
    match j {
        JsonValue::Str(s) => Some(s@),
        _ => None,
    }
}

pub open spec fn bool_value(j: JsonValue) -> Option<bool> {
    match j {
        JsonValue::Bool(b) => Some(b),
        _ => None,
    }
}

/// A required member read with `read`: missing, or present but not what
/// `read` accepts, is an error at that member.
pub open spec fn required<A>(j: JsonValue, key: Seq<char>, read: Option<A>) -> Result<A, DecodeErrorView> {
    match member(j, key) {
        None => Err(at_member(key, CauseView::Missing)),
        Some(_) => match read {
            Some(a) => Ok(a),
            None => Err(at_member(key, CauseView::WrongType)),
        },
    }
}

pub open spec fn member_isize(j: JsonValue, key: Seq<char>) -> Result<isize, DecodeErrorView> {
    required(j, key, match member(j, key) { Some(v) => isize_value(v), None => None })
}

pub open spec fn member_usize(j: JsonValue, key: Seq<char>) -> Result<usize, DecodeErrorView> {
    required(j, key, match member(j, key) { Some(v) => usize_value(v), None => None })
}

pub open spec fn member_text(j: JsonValue, key: Seq<char>) -> Result<Seq<char>, DecodeErrorView> {
    required(j, key, match member(j, key) { Some(v) => text_value(v), None => None })
}

pub open spec fn member_bool(j: JsonValue, key: Seq<char>) -> Result<bool, DecodeErrorView> {
    required(j, key, match member(j, key) { Some(v) => bool_value(v), None => None })
}

/// An optional member: absent or mistyped both give no value.
pub open spec fn optional_text(j: JsonValue, key: Seq<char>) -> Option<Seq<char>> {
    match member(j, key) {
        Some(v) => text_value(v),
        None => None,
    }
}

pub open spec fn optional_isize(j: JsonValue, key: Seq<char>) -> Option<isize> {
    match member(j, key) {
        Some(v) => isize_value(v),
        None => None,
    }
}

/// What decoding a position gives.
pub open spec fn pos_of(j: JsonValue) -> Result<Pos, DecodeErrorView> {
    let x = member_isize(j, "x"@);
    let y = member_isize(j, "y"@);
    if !(j is Object) {
        Err(at_root(CauseView::WrongType))
    } else if x is Err {
        Err(x->Err_0)
    } else if y is Err {
        Err(y->Err_0)
    } else {
        Ok(Pos { x: x->Ok_0, y: y->Ok_0 })
    }
}

/// A member decoded with a decoder of its own; its errors are reported
/// inside the member.
pub open spec fn nested<A>(j: JsonValue, key: Seq<char>, inner: Result<A, DecodeErrorView>) -> Result<A, DecodeErrorView> {
    match member(j, key) {
        None => Err(at_member(key, CauseView::Missing)),
        Some(_) => in_member(key, inner),
    }
}

/// The member `key` of `j`, or `Null` when there is none; only read where
/// the member is known to be there.
pub open spec fn member_or_null(j: JsonValue, key: Seq<char>) -> JsonValue {
    match member(j, key) {
        Some(v) => v,
        None => JsonValue::Null,
    }
}

pub open spec fn member_pos(j: JsonValue, key: Seq<char>) -> Result<Pos, DecodeErrorView> {
    nested(j, key, pos_of(member_or_null(j, key)))
}

/// What decoding a hero gives.
pub open spec fn hero_of(j: JsonValue) -> Result<HeroView, DecodeErrorView> {
    let id = member_isize(j, "id"@);
    let name = member_text(j, "name"@);
    let pos = member_pos(j, "pos"@);
    let life = member_isize(j, "life"@);
    let gold = member_isize(j, "gold"@);
    let mine_count = member_isize(j, "mineCount"@);
    let spawn_pos = member_pos(j, "spawnPos"@);
    let crashed = member_bool(j, "crashed"@);
    if !(j is Object) {
        Err(at_root(CauseView::WrongType))
    } else if id is Err {
        Err(id->Err_0)
    } else if name is Err {
        Err(name->Err_0)
    } else if pos is Err {
        Err(pos->Err_0)
    } else if life is Err {
        Err(life->Err_0)
    } else if gold is Err {
        Err(gold->Err_0)
    } else if mine_count is Err {
        Err(mine_count->Err_0)
    } else if spawn_pos is Err {
        Err(spawn_pos->Err_0)
    } else if crashed is Err {
        Err(crashed->Err_0)
    } else {
        Ok(
            HeroView {
                id: id->Ok_0,
                name: name->Ok_0,
                user_id: optional_text(j, "userId"@),
                elo: optional_isize(j, "elo"@),
                pos: pos->Ok_0,
                life: life->Ok_0,
                gold: gold->Ok_0,
                mine_count: mine_count->Ok_0,
                spawn_pos: spawn_pos->Ok_0,
                crashed: crashed->Ok_0,
            },
        )
    }
}

/// The first item at or after `i` that is not a hero.
pub open spec fn first_bad_hero(items: Seq<JsonValue>, i: int) -> Option<int>
    decreases items.len() - i,
{
    if i < 0 || i >= items.len() {
        None
    } else if hero_of(items[i]) is Err {
        Some(i)
    } else {
        first_bad_hero(items, i + 1)
    }
}

/// What decoding a list of heroes gives: the first item that fails decides.
pub open spec fn heroes_in(items: Seq<JsonValue>) -> Result<Seq<HeroView>, DecodeErrorView> {
    match first_bad_hero(items, 0) {
        Some(k) => Err(under(PathStepView::Item(k as usize), hero_of(items[k])->Err_0)),
        None => Ok(Seq::new(items.len(), |k: int| hero_of(items[k])->Ok_0)),
    }
}

pub open spec fn heroes_of(j: JsonValue) -> Result<Seq<HeroView>, DecodeErrorView> {
    match j {
        JsonValue::Array(items) => heroes_in(items@),
        _ => Err(at_root(CauseView::WrongType)),
    }
}

/// What decoding a board gives: its `size`, then its packed `tiles`.
pub open spec fn board_of(j: JsonValue) -> Result<BoardView, DecodeErrorView> {
    let size = member_usize(j, "size"@);
    let tiles = member_text(j, "tiles"@);
    if !(j is Object) {
        Err(at_root(CauseView::WrongType))
    } else if size is Err {
        Err(size->Err_0)
    } else if tiles is Err {
        Err(tiles->Err_0)
    } else {
        match decode_packed(size->Ok_0, tiles->Ok_0) {
            Ok(rows) => Ok(BoardView { size: size->Ok_0, rows }),
            Err(e) => Err(at_member("tiles"@, CauseView::Board(e))),
        }
    }
}

/// What decoding a match gives.
pub open spec fn game_of(j: JsonValue) -> Result<GameView, DecodeErrorView> {
    let id = member_text(j, "id"@);
    let turn = member_isize(j, "turn"@);
    let max_turns = member_isize(j, "maxTurns"@);
    let heroes = nested(j, "heroes"@, heroes_of(member_or_null(j, "heroes"@)));
    let board = nested(j, "board"@, board_of(member_or_null(j, "board"@)));
    let finished = member_bool(j, "finished"@);
    if !(j is Object) {
        Err(at_root(CauseView::WrongType))
    } else if id is Err {
        Err(id->Err_0)
    } else if turn is Err {
        Err(turn->Err_0)
    } else if max_turns is Err {
        Err(max_turns->Err_0)
    } else if heroes is Err {
        Err(heroes->Err_0)
    } else if board is Err {
        Err(board->Err_0)
    } else if finished is Err {
        Err(finished->Err_0)
    } else {
        Ok(
            GameView {
                id: id->Ok_0,
                turn: turn->Ok_0,
                max_turns: max_turns->Ok_0,
                heroes: heroes->Ok_0,
                board: board->Ok_0,
                finished: finished->Ok_0,
            },
        )
    }
}

/// What decoding a whole state document gives.
pub open spec fn state_of(j: JsonValue) -> Result<StateView, DecodeErrorView> {
    let game = nested(j, "game"@, game_of(member_or_null(j, "game"@)));
    let hero = nested(j, "hero"@, hero_of(member_or_null(j, "hero"@)));
    let token = member_text(j, "token"@);
    let view_url = member_text(j, "viewUrl"@);
    let play_url = member_text(j, "playUrl"@);
    if !(j is Object) {
        Err(at_root(CauseView::WrongType))
    } else if game is Err {
        Err(game->Err_0)
    } else if hero is Err {
        Err(hero->Err_0)
    } else if token is Err {
        Err(token->Err_0)
    } else if view_url is Err {
        Err(view_url->Err_0)
    } else if play_url is Err {
        Err(play_url->Err_0)
    } else {
        Ok(
            StateView {
                game: game->Ok_0,
                hero: hero->Ok_0,
                token: token->Ok_0,
                view_url: view_url->Ok_0,
                play_url: play_url->Ok_0,
            },
        )
    }
}

/// What decoding a direction gives: one of the canonical names, exactly.
pub open spec fn dir_of(j: JsonValue) -> Result<Dir, DecodeErrorView> {
    match j {
        JsonValue::Str(s) => match dir_named(s@) {
            Some(d) => Ok(d),
            None => Err(at_root(CauseView::Direction(s@))),
        },
        _ => Err(at_root(CauseView::WrongType)),
    }
}

/// Decoding the canonical name of a direction gives that direction back.
pub proof fn lemma_dir_round_trip(d: Dir, name: String)
    requires
        name@ == dir_name(d),
    ensures
        dir_of(JsonValue::Str(name)) == Ok::<Dir, DecodeErrorView>(d),
{
    lemma_dir_name_round_trip(d);
}

/// The optional members of a hero never make its decoding fail: an object
/// whose required members are all well formed decodes, and a `userId` or
/// `elo` that is missing or of the wrong type gives no value.
pub proof fn lemma_hero_optional_members(j: JsonValue)
    requires
        j is Object,
        member_isize(j, "id"@) is Ok,
        member_text(j, "name"@) is Ok,
        member_pos(j, "pos"@) is Ok,
        member_isize(j, "life"@) is Ok,
        member_isize(j, "gold"@) is Ok,
        member_isize(j, "mineCount"@) is Ok,
        member_pos(j, "spawnPos"@) is Ok,
        member_bool(j, "crashed"@) is Ok,
    ensures
        hero_of(j) is Ok,
        (match member(j, "userId"@) {
            None => true,
            Some(v) => !(v is Str),
        }) ==> hero_of(j)->Ok_0.user_id is None,
        (match member(j, "elo"@) {
            None => true,
            Some(v) => int_value(v) is None,
        }) ==> hero_of(j)->Ok_0.elo is None,
{
}

/// A hero without `life` is refused; when the members read before it are
/// well formed, the error is that `life` is missing.
pub proof fn lemma_hero_requires_life(j: JsonValue)
    requires
        member(j, "life"@) is None,
    ensures
        hero_of(j) is Err,
        j is Object && member_isize(j, "id"@) is Ok && member_text(j, "name"@) is Ok && member_pos(j, "pos"@) is Ok
            ==> hero_of(j) == Err::<HeroView, DecodeErrorView>(at_member("life"@, CauseView::Missing)),
{
}

impl DecodeError {
    /// An error of the value itself.
    pub fn here(cause: DecodeCause) -> (e: DecodeError)
        ensures
            e@ == at_root(cause@),
    {
        let e = DecodeError { path: Vec::new(), cause };
        assert(e@.path =~= Seq::<PathStepView>::empty());
        e
    }

    /// An error of the member `key`.
    pub fn at(key: &str, cause: DecodeCause) -> (e: DecodeError)
        ensures
            e@ == at_member(key@, cause@),
    {
        let mut path: Vec<PathStep> = Vec::new();
        path.push(PathStep::Member(String::from_str(key)));
        let e = DecodeError { path, cause };
        assert(e@.path =~= seq![PathStepView::Member(key@)]);
        e
    }

    /// This error, seen from one step further out.
    pub fn within(self, step: PathStep) -> (e: DecodeError)
        ensures
            e@ == under(step@, self@),
    {
        let ghost old_path = self@.path;
        let mut path = self.path;
        path.insert(0, step);
        let e = DecodeError { path, cause: self.cause };
        assert(e@.path =~= seq![step@] + old_path);
        e
    }
}

fn member_step(key: &str) -> (s: PathStep)
    ensures
        s@ == PathStepView::Member(key@),
{
    PathStep::Member(String::from_str(key))
}

fn isize_of(j: &JsonValue) -> (r: Option<isize>)
    ensures
        r == isize_value(*j),
{
    match j {
        JsonValue::I64(n) => {
            if isize::MIN as i64 <= *n && *n <= isize::MAX as i64 {
                Some(*n as isize)
            } else {
                None
            }
        },
        JsonValue::U64(n) => {
            if *n <= isize::MAX as u64 {
                Some(*n as isize)
            } else {
                None
            }
        },
        _ => None,
    }
}

fn usize_of(j: &JsonValue) -> (r: Option<usize>)
    ensures
        r == usize_value(*j),
{
    match j {
        JsonValue::I64(n) => {
            if 0 <= *n && (*n as u64) <= usize::MAX as u64 {
                Some(*n as usize)
            } else {
                None
            }
        },
        JsonValue::U64(n) => {
            if *n <= usize::MAX as u64 {
                Some(*n as usize)
            } else {
                None
            }
        },
        _ => None,
    }
}

fn text_of(j: &JsonValue) -> (r: Option<String>)
    ensures
        opt_text(r) == text_value(*j),
{
    match j {
        JsonValue::Str(s) => Some(s.clone()),
        _ => None,
    }
}

fn bool_of(j: &JsonValue) -> (r: Option<bool>)
    ensures
        r == bool_value(*j),
{
    match j {
        JsonValue::Bool(b) => Some(*b),
        _ => None,
    }
}

fn read_isize(j: &JsonValue, key: &str) -> (r: Result<isize, DecodeError>)
    ensures
        agrees(r, member_isize(*j, key@)),
{
    match j.get(key) {
        None => Err(DecodeError::at(key, DecodeCause::Missing)),
        Some(v) => match isize_of(v) {
            Some(n) => Ok(n),
            None => Err(DecodeError::at(key, DecodeCause::WrongType)),
        },
    }
}

fn read_usize(j: &JsonValue, key: &str) -> (r: Result<usize, DecodeError>)
    ensures
        agrees(r, member_usize(*j, key@)),
{
    match j.get(key) {
        None => Err(DecodeError::at(key, DecodeCause::Missing)),
        Some(v) => match usize_of(v) {
            Some(n) => Ok(n),
            None => Err(DecodeError::at(key, DecodeCause::WrongType)),
        },
    }
}

fn read_text(j: &JsonValue, key: &str) -> (r: Result<String, DecodeError>)
    ensures
        agrees(r, member_text(*j, key@)),
{
    match j.get(key) {
        None => Err(DecodeError::at(key, DecodeCause::Missing)),
        Some(v) => match text_of(v) {
            Some(s) => Ok(s),
            None => Err(DecodeError::at(key, DecodeCause::WrongType)),
        },
    }
}

fn read_bool(j: &JsonValue, key: &str) -> (r: Result<bool, DecodeError>)
    ensures
        agrees(r, member_bool(*j, key@)),
{
    match j.get(key) {
        None => Err(DecodeError::at(key, DecodeCause::Missing)),
        Some(v) => match bool_of(v) {
            Some(b) => Ok(b),
            None => Err(DecodeError::at(key, DecodeCause::WrongType)),
        },
    }
}

fn read_opt_text(j: &JsonValue, key: &str) -> (r: Option<String>)
    ensures
        opt_text(r) == optional_text(*j, key@),
{
    match j.get(key) {
        None => None,
        Some(v) => text_of(v),
    }
}

fn read_opt_isize(j: &JsonValue, key: &str) -> (r: Option<isize>)
    ensures
        r == optional_isize(*j, key@),
{
    match j.get(key) {
        None => None,
        Some(v) => isize_of(v),
    }
}

fn read_pos(j: &JsonValue, key: &str) -> (r: Result<Pos, DecodeError>)
    ensures
        agrees(r, member_pos(*j, key@)),
{
    match j.get(key) {
        None => Err(DecodeError::at(key, DecodeCause::Missing)),
        Some(v) => match Pos::decode(v) {
            Ok(p) => Ok(p),
            Err(e) => Err(e.within(member_step(key))),
        },
    }
}

impl Pos {
    /// Decodes a position: an object with whole numbers `x` and `y`.
    pub fn decode(j: &JsonValue) -> (r: Result<Pos, DecodeError>)
        ensures
            agrees(r, pos_of(*j)),
    {
        if !j.is_object() {
            return Err(DecodeError::here(DecodeCause::WrongType));
        }
        let x = match read_isize(j, "x") {
            Ok(v) => v,
            Err(e) => return Err(e),
        };
        let y = match read_isize(j, "y") {
            Ok(v) => v,
            Err(e) => return Err(e),
        };
        Ok(Pos { x, y })
    }
}

impl Hero {
    /// Decodes a hero. `userId` and `elo` are optional: missing or of the
    /// wrong type, they give no value; every other member is required.
    pub fn decode(j: &JsonValue) -> (r: Result<Hero, DecodeError>)
        ensures
            agrees(r, hero_of(*j)),
    {
        if !j.is_object() {
            return Err(DecodeError::here(DecodeCause::WrongType));
        }
        let id = match read_isize(j, "id") {
            Ok(v) => v,
            Err(e) => return Err(e),
        };
        let name = match read_text(j, "name") {
            Ok(v) => v,
            Err(e) => return Err(e),
        };
        let user_id = read_opt_text(j, "userId");
        let elo = read_opt_isize(j, "elo");
        let pos = match read_pos(j, "pos") {
            Ok(v) => v,
            Err(e) => return Err(e),
        };
        let life = match read_isize(j, "life") {
            Ok(v) => v,
            Err(e) => return Err(e),
        };
        let gold = match read_isize(j, "gold") {
            Ok(v) => v,
            Err(e) => return Err(e),
        };
        let mine_count = match read_isize(j, "mineCount") {
            Ok(v) => v,
            Err(e) => return Err(e),
        };
        let spawn_pos = match read_pos(j, "spawnPos") {
            Ok(v) => v,
            Err(e) => return Err(e),
        };
        let crashed = match read_bool(j, "crashed") {
            Ok(v) => v,
            Err(e) => return Err(e),
        };
        Ok(Hero { id, name, user_id, elo, pos, life, gold, mine_count, spawn_pos, crashed })
    }
}

/// Decodes a list of heroes, in the order given.
fn decode_heroes(j: &JsonValue) -> (r: Result<Vec<Hero>, DecodeError>)
    ensures
        match r {
            Ok(v) => heroes_of(*j) == Ok::<Seq<HeroView>, DecodeErrorView>(hero_views(v@)),
            Err(e) => heroes_of(*j) == Err::<Seq<HeroView>, DecodeErrorView>(e@),
        },
{
    match j {
        JsonValue::Array(items) => {
            let mut heroes: Vec<Hero> = Vec::new();
            let mut i: usize = 0;
            while i < items.len()
                invariant
                    i <= items@.len(),
                    heroes@.len() == i,
                    heroes_of(*j) == heroes_in(items@),
                    first_bad_hero(items@, 0) == first_bad_hero(items@, i as int),
                    forall|k: int|
                        0 <= k < i ==> hero_of(items@[k]) == Ok::<HeroView, DecodeErrorView>(
                            (#[trigger] heroes@[k])@,
                        ),
                decreases items@.len() - i,
            {
                match Hero::decode(&items[i]) {
                    Ok(h) => heroes.push(h),
                    Err(e) => return Err(e.within(PathStep::Item(i))),
                }
                i = i + 1;
            }
            assert(hero_views(heroes@) =~= Seq::new(items@.len(), |k: int| hero_of(items@[k])->Ok_0));
            Ok(heroes)
        },
        _ => Err(DecodeError::here(DecodeCause::WrongType)),
    }
}

impl Board {
    /// Decodes a board: an object with its `size` and its packed `tiles`,
    /// which the board codec reads.
    pub fn decode(j: &JsonValue) -> (r: Result<Board, DecodeError>)
        ensures
            agrees(r, board_of(*j)),
            r matches Ok(b) ==> b.well_formed(),
    {
        if !j.is_object() {
            return Err(DecodeError::here(DecodeCause::WrongType));
        }
        let size = match read_usize(j, "size") {
            Ok(v) => v,
            Err(e) => return Err(e),
        };
        let tiles = match read_text(j, "tiles") {
            Ok(v) => v,
            Err(e) => return Err(e),
        };
        match Board::from_packed(size, tiles.as_str()) {
            Ok(b) => Ok(b),
            Err(e) => Err(DecodeError::at("tiles", DecodeCause::Board(e))),
        }
    }
}

impl Game {
    /// Decodes a match.
    pub fn decode(j: &JsonValue) -> (r: Result<Game, DecodeError>)
        ensures
            agrees(r, game_of(*j)),
            r matches Ok(g) ==> g.board.well_formed(),
    {
        if !j.is_object() {
            return Err(DecodeError::here(DecodeCause::WrongType));
        }
        let id = match read_text(j, "id") {
            Ok(v) => v,
            Err(e) => return Err(e),
        };
        let turn = match read_isize(j, "turn") {
            Ok(v) => v,
            Err(e) => return Err(e),
        };
        let max_turns = match read_isize(j, "maxTurns") {
            Ok(v) => v,
            Err(e) => return Err(e),
        };
        let heroes = match j.get("heroes") {
            None => return Err(DecodeError::at("heroes", DecodeCause::Missing)),
            Some(v) => match decode_heroes(v) {
                Ok(h) => h,
                Err(e) => return Err(e.within(member_step("heroes"))),
            },
        };
        let board = match j.get("board") {
            None => return Err(DecodeError::at("board", DecodeCause::Missing)),
            Some(v) => match Board::decode(v) {
                Ok(b) => b,
                Err(e) => return Err(e.within(member_step("board"))),
            },
        };
        let finished = match read_bool(j, "finished") {
            Ok(v) => v,
            Err(e) => return Err(e),
        };
        Ok(Game { id, turn, max_turns, heroes, board, finished })
    }
}

impl State {
    /// Decodes the state document that the server sends after each move.
    pub fn decode(j: &JsonValue) -> (r: Result<State, DecodeError>)
        ensures
            agrees(r, state_of(*j)),
            r matches Ok(s) ==> s.game.board.well_formed(),
    {
        if !j.is_object() {
            return Err(DecodeError::here(DecodeCause::WrongType));
        }
        let game = match j.get("game") {
            None => return Err(DecodeError::at("game", DecodeCause::Missing)),
            Some(v) => match Game::decode(v) {
                Ok(g) => g,
                Err(e) => return Err(e.within(member_step("game"))),
            },
        };
        let hero = match j.get("hero") {
            None => return Err(DecodeError::at("hero", DecodeCause::Missing)),
            Some(v) => match Hero::decode(v) {
                Ok(h) => h,
                Err(e) => return Err(e.within(member_step("hero"))),
            },
        };
        let token = match read_text(j, "token") {
            Ok(v) => v,
            Err(e) => return Err(e),
        };
        let view_url = match read_text(j, "viewUrl") {
            Ok(v) => v,
            Err(e) => return Err(e),
        };
        let play_url = match read_text(j, "playUrl") {
            Ok(v) => v,
            Err(e) => return Err(e),
        };
        Ok(State { game, hero, token, view_url, play_url })
    }
}

impl Dir {
    /// Decodes a direction from its canonical name, case for case.
    pub fn decode(j: &JsonValue) -> (r: Result<Dir, DecodeError>)
        ensures
            agrees(r, dir_of(*j)),
    {
        match j {
            JsonValue::Str(s) => {
                if *s == String::from_str("Stay") {
                    Ok(Dir::Stay)
                } else if *s == String::from_str("North") {
                    Ok(Dir::North)
                } else if *s == String::from_str("South") {
                    Ok(Dir::South)
                } else if *s == String::from_str("East") {
                    Ok(Dir::East)
                } else if *s == String::from_str("West") {
                    Ok(Dir::West)
                } else {
                    Err(DecodeError::here(DecodeCause::Direction(s.clone())))
                }
            },
            _ => Err(DecodeError::here(DecodeCause::WrongType)),
        }
    }
}

} // verus!
