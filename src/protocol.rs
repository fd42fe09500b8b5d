//! The turn protocol: the bodies of the requests that start a match and
//! send a move, and how a response is classified.

use crate::decode::{agrees, at_root, state_of, CauseView, DecodeCause, DecodeError};
use crate::json::{
    json_of_text, lemma_lookup_absent, lemma_lookup_first, lookup_from, parse_admissible,
    parse_admissible_text, parse_json, JsonValue,
};
use crate::state::{dir_name, opt_text, Dir, State};
use vstd::prelude::*;
use vstd::string::StringSliceAdditionalSpecFns;

verus! {

pub type Key = String;

/// A JSON object as a request body: its members in order of their keys.
pub type JsonObject = Vec<(String, JsonValue)>;

/// How to play: training against bots, with an optional number of turns
/// and an optional map, or in the arena.
#[derive(Debug, Clone)]
pub enum Mode {
    Training(Option<u64>, Option<String>),
    Arena,
}

/// What a run is given before it starts.
#[derive(Debug, Clone)]
pub struct Settings {
    pub key: Key,
    pub url: String,
    pub mode: Mode,
}

/// Why a request got no usable answer.
#[derive(Debug, Clone)]
pub enum TransportError {
    /// The address could not be parsed.
    BadUrl(String),
    /// The server answered with another status than success.
    Status(u16),
    /// The exchange itself failed.
    Io(String),
}

/// How one exchange with the server ended.
#[derive(Debug, Clone)]
pub enum Outcome {
    /// A new state.
    Decoded(State),
    /// The server ended the match because this client did not move in time.
    GameFinishedTimeout,
    TransportFailure(TransportError),
    DecodeFailure(DecodeError),
}

/// Where the turn loop stands after an exchange.
#[derive(Debug, Clone)]
pub enum Phase {
    /// A state came back and the match goes on: the next move is due.
    Playing(State),
    /// A state came back that says the match is over: no move is sent.
    Finished(State),
    /// The exchange gave no state; the loop stops with this outcome.
    Aborted(Outcome),
}

/// The keys of a body, in order.
pub open spec fn keys(o: Seq<(String, JsonValue)>) -> Seq<Seq<char>> {
    o.map_values(|e: (String, JsonValue)| e.0@)
}

/// The text under `key` in a body, when it is a string.
pub open spec fn text_member(o: Seq<(String, JsonValue)>, key: Seq<char>) -> Option<Seq<char>> {
    match lookup_from(o, key, 0) {
        Some(JsonValue::Str(s)) => Some(s@),
        _ => None,
    }
}

/// The address of a start endpoint.
pub open spec fn start_address(base: Seq<char>, endpoint: Seq<char>) -> Seq<char> {
    base + "/api/"@ + endpoint
}

/// The request that starts a training match: `key` always, then `map` and
/// `turns` when they are given, and no other member.
pub open spec fn is_training_request(
    settings: Settings,
    turns: Option<u64>,
    map: Option<Seq<char>>,
    r: (String, JsonObject),
) -> bool {
    &&& r.0@ == start_address(settings.url@, "training"@)
    &&& keys(r.1@) == seq!["key"@] + (if map is Some { seq!["map"@] } else { Seq::empty() }) + (
    if turns is Some {
        seq!["turns"@]
    } else {
        Seq::empty()
    })
    &&& text_member(r.1@, "key"@) == Some(settings.key@)
    &&& text_member(r.1@, "map"@) == map
    &&& turns matches Some(t) ==> lookup_from(r.1@, "turns"@, 0) == Some(JsonValue::U64(t))
}

/// The request that starts an arena match: `key` alone.
pub open spec fn is_arena_request(settings: Settings, r: (String, JsonObject)) -> bool {
    &&& r.0@ == start_address(settings.url@, "arena"@)
    &&& keys(r.1@) == seq!["key"@]
    &&& text_member(r.1@, "key"@) == Some(settings.key@)
}

/// The text the server sends, instead of a state, when it ended the match
/// because the client was too slow.
pub open spec fn finished_sentinel() -> Seq<char> {
    "Vindinium - The game is finished"@
}

proof fn lemma_keys_differ()
    ensures
        "key"@ != "map"@,
        "key"@ != "turns"@,
        "map"@ != "turns"@,
        "dir"@ != "key"@,
{
    reveal_strlit("key");
    reveal_strlit("map");
    reveal_strlit("turns");
    reveal_strlit("dir");
    assert("key"@[0] == 'k' && "map"@[0] == 'm' && "turns"@[0] == 't' && "dir"@[0] == 'd');
}

impl Settings {
    /// The address of the start endpoint `v` under the base address.
    pub fn start_url(&self, v: &str) -> (r: String)
        ensures
            r@ == start_address(self.url@, v@),
    {
        let mut url = self.url.clone();
        url.append("/api/");
        url.append(v);
        url
    }
}

/// The move request: sent to the state's own play address, never to a
/// fixed one, with the key and the direction's canonical name.
pub fn step_msg(settings: &Settings, state: &State, dir: Dir) -> (r: (String, JsonObject))
    ensures
        r.0@ == state.play_url@,
        keys(r.1@) == seq!["dir"@, "key"@],
        text_member(r.1@, "dir"@) == Some(dir_name(dir)),
        text_member(r.1@, "key"@) == Some(settings.key@),
{
    let mut obj: JsonObject = Vec::new();
    obj.push((String::from_str("dir"), JsonValue::Str(dir.encode())));
    obj.push((String::from_str("key"), JsonValue::Str(settings.key.clone())));
    proof {
        lemma_keys_differ();
    }
    assert(keys(obj@) =~= seq!["dir"@, "key"@]);
    proof {
        lemma_lookup_first(obj@, "dir"@, 0, 0);
        lemma_lookup_first(obj@, "key"@, 0, 1);
    }
    (state.play_url.clone(), obj)
}

/// The request that starts a match in the settings' mode.
pub fn start_msg(settings: &Settings) -> (r: (String, JsonObject))
    ensures
        match settings.mode {
            Mode::Training(turns, map) => is_training_request(*settings, turns, opt_text(map), r),
            Mode::Arena => is_arena_request(*settings, r),
        },
{
    match &settings.mode {
        Mode::Training(turns, map) => {
            let map_copy = match map {
                Some(m) => Some(m.clone()),
                None => None,
            };
            start_training_msg(settings, *turns, map_copy)
        },
        Mode::Arena => start_arena_msg(settings),
    }
}

/// The request that starts a training match.
pub fn start_training_msg(settings: &Settings, opt_turns: Option<u64>, opt_map: Option<String>) -> (r: (
    String,
    JsonObject,
))
    ensures
        is_training_request(*settings, opt_turns, opt_text(opt_map), r),
{
    let ghost map = opt_text(opt_map);
    let mut obj: JsonObject = Vec::new();
    obj.push((String::from_str("key"), JsonValue::Str(settings.key.clone())));
    match opt_map {
        Some(m) => {
            obj.push((String::from_str("map"), JsonValue::Str(m)));
        },
        None => {},
    }
    match opt_turns {
        Some(t) => {
            obj.push((String::from_str("turns"), JsonValue::U64(t)));
        },
        None => {},
    }
    proof {
        lemma_keys_differ();
    }
    let ghost expected = seq!["key"@] + (if map is Some { seq!["map"@] } else { Seq::empty() }) + (
    if opt_turns is Some {
        seq!["turns"@]
    } else {
        Seq::empty()
    });
    assert(keys(obj@) =~= expected);
    proof {
        lemma_lookup_first(obj@, "key"@, 0, 0);
        if map is Some {
            lemma_lookup_first(obj@, "map"@, 0, 1);
        } else {
            lemma_lookup_absent(obj@, "map"@, 0);
        }
        if opt_turns is Some {
            lemma_lookup_first(obj@, "turns"@, 0, obj@.len() - 1);
        }
    }
    (settings.start_url("training"), obj)
}

/// The request that starts an arena match.
pub fn start_arena_msg(settings: &Settings) -> (r: (String, JsonObject))
    ensures
        is_arena_request(*settings, r),
{
    let mut obj: JsonObject = Vec::new();
    obj.push((String::from_str("key"), JsonValue::Str(settings.key.clone())));
    assert(keys(obj@) =~= seq!["key"@]);
    proof {
        lemma_lookup_first(obj@, "key"@, 0, 0);
    }
    (settings.start_url("arena"), obj)
}

/// The turn loop's decision after an exchange: a new state either ends the
/// match, when it says so, or asks for the next move; any other outcome
/// ends play.
pub fn next_phase(outcome: Outcome) -> (r: Phase)
    ensures
        match outcome {
            Outcome::Decoded(s) => if s.game.finished {
                r == Phase::Finished(s)
            } else {
                r == Phase::Playing(s)
            },
            _ => r == Phase::Aborted(outcome),
        },
{
    match outcome {
        Outcome::Decoded(s) => {
            if s.game.finished {
                Phase::Finished(s)
            } else {
                Phase::Playing(s)
            }
        },
        _ => Phase::Aborted(outcome),
    }
}

/// Classifies the server's answer to a request. The finished-match text is
/// recognised first, whatever the status and before any attempt to read
/// JSON. Otherwise a status other than success is a transport failure; a
/// text that the JSON parser must not be handed (see `parse_admissible`) is
/// a decode failure; anything else must be a state document.
pub fn classify_response(status: u16, body: &str) -> (r: Outcome)
    ensures
        body@ == finished_sentinel() ==> r is GameFinishedTimeout,
        body@ != finished_sentinel() && status != 200 ==> (r matches Outcome::TransportFailure(
            TransportError::Status(s),
        ) && s == status),
        body@ != finished_sentinel() && status == 200 && !parse_admissible(body.spec_bytes()) ==> (r matches Outcome::DecodeFailure(e) && e@.path.len() == 0 && e@.cause is OutOfLimits),
        body@ != finished_sentinel() && status == 200 && parse_admissible(body.spec_bytes()) ==> match json_of_text(body@) {
            None => (r matches Outcome::DecodeFailure(e) && e@.path.len() == 0 && e@.cause is Syntax),
            Some(j) => match r {
                Outcome::Decoded(s) => agrees(Ok::<State, DecodeError>(s), state_of(j)),
                Outcome::DecodeFailure(e) => agrees(Err::<State, DecodeError>(e), state_of(j)),
                _ => false,
            },
        },
{
    if String::from_str(body) == String::from_str("Vindinium - The game is finished") {
        return Outcome::GameFinishedTimeout;
    }
    if status != 200 {
        return Outcome::TransportFailure(TransportError::Status(status));
    }
    if !parse_admissible_text(body) {
        return Outcome::DecodeFailure(DecodeError::here(DecodeCause::OutOfLimits));
    }
    match parse_json(body) {
        Err(message) => Outcome::DecodeFailure(DecodeError::here(DecodeCause::Syntax(message))),
        Ok(j) => match State::decode(&j) {
            Ok(s) => Outcome::Decoded(s),
            Err(e) => Outcome::DecodeFailure(e),
        },
    }
}

} // verus!
