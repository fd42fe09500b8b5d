//! The JSON documents that the server sends, as plain values, and the
//! lookups that the decoder makes in them.

use rustc_serialize::json::Json;
use vstd::prelude::*;
use vstd::string::StringSliceAdditionalSpecFns;

verus! {

/// A JSON value. Numbers are kept as the parser found them: a whole number
/// as `U64` when it has no minus sign and as `I64` when it has one, anything
/// with a fraction or an exponent as `Real`, whose value this library never
/// reads. An object's members come in the order of their keys, each key
/// once; a lookup takes the first member with the key it asks for.
#[derive(Debug)]
pub enum JsonValue {
    Null,
    Bool(bool),
    I64(i64),
    U64(u64),
    Real,
    Str(String),
    Array(Vec<JsonValue>),
    Object(Vec<(String, JsonValue)>),
}

/// The value under `key` among `entries`, looking from index `i` on; the
/// first entry with that key wins.
pub open spec fn lookup_from(entries: Seq<(String, JsonValue)>, key: Seq<char>, i: int) -> Option<JsonValue>
    decreases entries.len() - i,
{
    if i < 0 || i >= entries.len() {
        None
    } else if entries[i].0@ == key {
        Some(entries[i].1)
    } else {
        lookup_from(entries, key, i + 1)
    }
}

/// The value found from `s` on is the first one at or after `s` with the key.
pub proof fn lemma_lookup_first(entries: Seq<(String, JsonValue)>, key: Seq<char>, s: int, i: int)
    requires
        0 <= s <= i < entries.len(),
        entries[i].0@ == key,
        forall|m: int| s <= m < i ==> (#[trigger] entries[m]).0@ != key,
    ensures
        lookup_from(entries, key, s) == Some(entries[i].1),
    decreases i - s,
{
    if s < i {
        lemma_lookup_first(entries, key, s + 1, i);
    }
}

/// Nothing is found from `s` on when no entry from there has the key.
pub proof fn lemma_lookup_absent(entries: Seq<(String, JsonValue)>, key: Seq<char>, s: int)
    requires
        0 <= s,
        forall|m: int| s <= m < entries.len() ==> (#[trigger] entries[m]).0@ != key,
    ensures
        lookup_from(entries, key, s) is None,
    decreases entries.len() - s,
{
    if s < entries.len() {
        lemma_lookup_absent(entries, key, s + 1);
    }
}

/// Every object in the value, at any depth, has each key at most once.
pub open spec fn keys_distinct(j: JsonValue) -> bool
    decreases j,
{
    match j {
        JsonValue::Array(items) => forall|i: int|
            0 <= i < items@.len() ==> #[trigger] keys_distinct(items@[i]),
        JsonValue::Object(entries) => {
            &&& forall|a: int, b: int|
                0 <= a < b < entries@.len() ==> (#[trigger] entries@[a]).0@ != (#[trigger] entries@[b]).0@
            &&& forall|i: int| 0 <= i < entries@.len() ==> #[trigger] keys_distinct(entries@[i].1)
        },
        _ => true,
    }
}

/// The member `key` of an object; nothing for any other kind of value.
pub open spec fn member(j: JsonValue, key: Seq<char>) -> Option<JsonValue> {
    match j {
        JsonValue::Object(entries) => lookup_from(entries@, key, 0),
        _ => None,
    }
}

impl JsonValue {
    /// Whether this value is an object.
    pub fn is_object(&self) -> (r: bool)
        ensures
            r == (*self is Object),
    {
        match self {
            JsonValue::Object(_) => true,
            _ => false,
        }
    }

    /// The member `key` of this value, when it is an object that has one.
    pub fn get(&self, key: &str) -> (r: Option<&JsonValue>)
        ensures
            match r {
                Some(v) => member(*self, key@) == Some(*v),
                None => member(*self, key@) is None,
            },
    {
        match self {
            JsonValue::Object(entries) => {
                let wanted = String::from_str(key);
                let mut i: usize = 0;
                while i < entries.len()
                    invariant
                        i <= entries@.len(),
                        wanted@ == key@,
                        member(*self, key@) == lookup_from(entries@, key@, 0),
                        lookup_from(entries@, key@, 0) == lookup_from(entries@, key@, i as int),
                    decreases entries@.len() - i,
                {
                    if entries[i].0 == wanted {
                        assert(lookup_from(entries@, key@, i as int) == Some(entries@[i as int].1));
                        return Some(&entries[i].1);
                    }
                    i = i + 1;
                }
                None
            },
            _ => None,
        }
    }
}

/// The deepest nesting of arrays and objects that the parser is handed.
pub const MAX_DEPTH: usize = 64;

/// The most digits an exponent may have before the parser is not handed the text.
pub const MAX_EXPONENT_DIGITS: usize = 9;

/// The bytes that all object keys together must stay under.
pub const MAX_KEY_BYTES: usize = 65536;

/// The size, in bytes, from which a text is not handed to the parser.
pub const MAX_TEXT_BYTES: u64 = 4294967296;

/// Where a left-to-right scan of a text's bytes stands. Bytes of multi-byte
/// characters are never ASCII, so a scan by bytes sees the same structure
/// as one by characters.
pub struct Scan {
    /// Arrays and objects open.
    pub depth: int,
    pub in_string: bool,
    /// Just after a backslash inside a string.
    pub escaped: bool,
    /// Bytes of the string being read, escapes counted as written.
    pub string_bytes: int,
    /// Digits of the exponent being read so far; `-1` outside an exponent.
    pub exponent_digits: int,
    /// The bytes of the string just closed, while only white space follows
    /// it; `-1` otherwise. A `:` next makes it a key.
    pub pending_key: int,
    /// Bytes of all keys so far.
    pub key_bytes: int,
    /// The last byte outside strings, white space aside, was a comma.
    pub after_comma: bool,
    /// A comma was followed, white space aside, by `}`.
    pub trailing_comma: bool,
}

/// The white space that the parser skips between tokens.
pub open spec fn is_json_space(b: u8) -> bool {
    b == 32 || b == 10 || b == 9 || b == 13
}

/// The scan after a byte inside a string.
pub open spec fn scan_string_byte(st: Scan, b: u8) -> Scan {
    if st.escaped {
        Scan { escaped: false, string_bytes: st.string_bytes + 1, ..st }
    } else if b == 92 {
        Scan { escaped: true, string_bytes: st.string_bytes + 1, ..st }
    } else if b == 34 {
        Scan { in_string: false, pending_key: st.string_bytes, ..st }
    } else {
        Scan { string_bytes: st.string_bytes + 1, ..st }
    }
}

/// The scan after a byte outside strings that is not white space: first
/// what it says of the key, comma and pending string before it, then what
/// it opens, closes or adds to an exponent.
pub open spec fn scan_token_byte(st: Scan, b: u8) -> Scan {
    let st = Scan {
        key_bytes: if b == 58 && st.pending_key >= 0 { st.key_bytes + st.pending_key } else { st.key_bytes },
        trailing_comma: st.trailing_comma || (b == 125 && st.after_comma),
        after_comma: b == 44,
        pending_key: -1,
        ..st
    };
    if b == 34 {
        Scan { in_string: true, string_bytes: 0, exponent_digits: -1, ..st }
    } else if b == 91 || b == 123 {
        Scan { depth: st.depth + 1, exponent_digits: -1, ..st }
    } else if b == 93 || b == 125 {
        Scan { depth: if st.depth > 0 { st.depth - 1 } else { 0 }, exponent_digits: -1, ..st }
    } else if b == 101 || b == 69 {
        Scan { exponent_digits: 0, ..st }
    } else if (b == 43 || b == 45) && st.exponent_digits == 0 {
        st
    } else if 48 <= b <= 57 && st.exponent_digits >= 0 {
        Scan { exponent_digits: st.exponent_digits + 1, ..st }
    } else {
        Scan { exponent_digits: -1, ..st }
    }
}

/// The scan after one more byte.
pub open spec fn scan_step(st: Scan, b: u8) -> Scan {
    if st.in_string {
        scan_string_byte(st, b)
    } else if is_json_space(b) {
        Scan { exponent_digits: -1, ..st }
    } else {
        scan_token_byte(st, b)
    }
}

/// The scan after the first `i` bytes.
pub open spec fn scan_prefix(bytes: Seq<u8>, i: int) -> Scan
    decreases i,
{
    if i <= 0 {
        Scan {
            depth: 0,
            in_string: false,
            escaped: false,
            string_bytes: 0,
            exponent_digits: -1,
            pending_key: -1,
            key_bytes: 0,
            after_comma: false,
            trailing_comma: false,
        }
    } else {
        scan_step(scan_prefix(bytes, i - 1), bytes[i - 1])
    }
}

pub open spec fn within_limits(st: Scan) -> bool {
    &&& st.depth <= MAX_DEPTH
    &&& st.exponent_digits <= MAX_EXPONENT_DIGITS
    &&& st.key_bytes < MAX_KEY_BYTES
    &&& !st.trailing_comma
}

/// Whether a text (as UTF-8 bytes) may be handed to rustc_serialize's
/// parser. Each limit keeps out a panic of the parser:
/// - all keys together under `MAX_KEY_BYTES`, so that the keys open along
///   any path fit its 16-bit offsets (a key never decodes longer than it is
///   written);
/// - nesting never deeper than `MAX_DEPTH`, since it recurses once per level;
/// - no exponent longer than `MAX_EXPONENT_DIGITS` digits, which it sums in
///   a `usize` unchecked;
/// - no comma followed, white space aside, by `}`, on which it pops its
///   path twice and later finds an index where it expects a key;
/// - under `MAX_TEXT_BYTES` bytes, so that no array reaches 2^32 items,
///   which would overflow its `u32` index.
pub open spec fn parse_admissible(bytes: Seq<u8>) -> bool {
    &&& bytes.len() < MAX_TEXT_BYTES
    &&& forall|i: int| 0 <= i <= bytes.len() ==> within_limits(#[trigger] scan_prefix(bytes, i))
}

/// Tests whether a text may be handed to the JSON parser.
pub fn parse_admissible_text(text: &str) -> (r: bool)
    ensures
        r == parse_admissible(text.spec_bytes()),
{
    let bytes = text.as_bytes();
    let ghost bs = text.spec_bytes();
    if bytes.len() as u64 >= MAX_TEXT_BYTES {
        return false;
    }
    let mut depth: usize = 0;
    let mut in_string: bool = false;
    let mut escaped: bool = false;
    let mut string_bytes: usize = 0;
    let mut exponent_digits: i64 = -1;
    let mut pending_key: i64 = -1;
    let mut key_bytes: u64 = 0;
    let mut after_comma: bool = false;
    let mut trailing_comma: bool = false;
    let mut i: usize = 0;
    while i < bytes.len()
        invariant
            bytes@ == bs,
            bs == text.spec_bytes(),
            bs.len() < MAX_TEXT_BYTES,
            i <= bs.len(),
            string_bytes <= i,
            pending_key <= i,
            key_bytes < MAX_KEY_BYTES,
            scan_prefix(bs, i as int) == (Scan {
                depth: depth as int,
                in_string,
                escaped,
                string_bytes: string_bytes as int,
                exponent_digits: exponent_digits as int,
                pending_key: pending_key as int,
                key_bytes: key_bytes as int,
                after_comma,
                trailing_comma,
            }),
            forall|k: int| 0 <= k <= i ==> within_limits(#[trigger] scan_prefix(bs, k)),
        decreases bs.len() - i,
    {
        let b = bytes[i];
        if in_string {
            if escaped {
                escaped = false;
                string_bytes = string_bytes + 1;
            } else if b == 92 {
                escaped = true;
                string_bytes = string_bytes + 1;
            } else if b == 34 {
                in_string = false;
                pending_key = string_bytes as i64;
            } else {
                string_bytes = string_bytes + 1;
            }
        } else if b == 32 || b == 10 || b == 9 || b == 13 {
            exponent_digits = -1;
        } else {
            if b == 58 && pending_key >= 0 {
                key_bytes = key_bytes + pending_key as u64;
            }
            if b == 125 && after_comma {
                trailing_comma = true;
            }
            after_comma = b == 44;
            pending_key = -1;
            if b == 34 {
                in_string = true;
                string_bytes = 0;
                exponent_digits = -1;
            } else if b == 91 || b == 123 {
                depth = depth + 1;
                exponent_digits = -1;
            } else if b == 93 || b == 125 {
                if depth > 0 {
                    depth = depth - 1;
                }
                exponent_digits = -1;
            } else if b == 101 || b == 69 {
                exponent_digits = 0;
            } else if (b == 43 || b == 45) && exponent_digits == 0 {
            } else if 48 <= b && b <= 57 && exponent_digits >= 0 {
                exponent_digits = exponent_digits + 1;
            } else {
                exponent_digits = -1;
            }
        }
        i = i + 1;
        assert(scan_prefix(bs, i as int) == scan_step(scan_prefix(bs, i - 1), bs[i - 1]));
        if depth > MAX_DEPTH || exponent_digits > MAX_EXPONENT_DIGITS as i64 || key_bytes >= MAX_KEY_BYTES as u64
            || trailing_comma {
            assert(!within_limits(scan_prefix(bs, i as int)));
            return false;
        }
    }
    true
}

/// rustc_serialize's JSON value, which the parser hands back.
#[verifier::external_type_specification]
#[verifier::external_body]
pub struct ExJson(Json);

/// The JSON value that a whole text holds, as rustc_serialize's parser reads
/// it; nothing when the text is not exactly one JSON value.
pub uninterp spec fn json_of_text(text: Seq<char>) -> Option<JsonValue>;

/// Relies on rustc_serialize::json::Json::from_str: parses the whole text as
/// one JSON value, or fails with a message that says where the text went wrong.
/// It panics on some texts that `parse_admissible` leaves out: exponents
/// whose digits overflow a `usize`, keys past its 16-bit offsets, nesting
/// deep enough to exhaust the stack, a comma before `}` (after which it pops
/// its path twice and reaches `panic!("invalid state")`), and arrays past
/// its `u32` index.
#[verifier::external_body]
pub(crate) fn parse_json(text: &str) -> (r: Result<JsonValue, String>)
    requires
        parse_admissible(text.spec_bytes()),
    ensures
        match r {
            Ok(v) => json_of_text(text@) == Some(v) && keys_distinct(v),
            Err(_) => json_of_text(text@) is None,
        },
{
    match Json::from_str(text) {
        Ok(j) => Ok(from_parsed(j)),
        Err(e) => Err(e.to_string()),
    }
}

/// Moves a value that rustc_serialize's parser built into a `JsonValue`,
/// variant for variant, for `parse_json`.
#[verifier::external_body]
fn from_parsed(j: Json) -> JsonValue {
    match j {
        Json::Null => JsonValue::Null,
        Json::Boolean(b) => JsonValue::Bool(b),
        Json::I64(n) => JsonValue::I64(n),
        Json::U64(n) => JsonValue::U64(n),
        Json::F64(_) => JsonValue::Real,
        Json::String(s) => JsonValue::Str(s),
        Json::Array(items) => JsonValue::Array(items.into_iter().map(from_parsed).collect()),
        Json::Object(m) => JsonValue::Object(m.into_iter().map(|(k, v)| (k, from_parsed(v))).collect()),
    }
}

} // verus!
