//! The packed board codec: a square grid of tiles sent as one string of
//! two-character codes, row-major, with no separators.

use vstd::prelude::*;

verus! {

/// Identifies a hero on the board; always a single decimal digit when it
/// comes out of the packed board string.
pub type HeroId = isize;

/// One cell of the grid.
#[derive(Debug, Clone, Copy, PartialEq, Eq, Structural)]
pub enum Tile {
    Free,
    Wood,
    Tavern,
    Hero(HeroId),
    Mine(Option<HeroId>),
}

/// Why a packed board string was refused.
#[derive(Debug, Clone, Copy, PartialEq, Eq, Structural)]
pub enum BoardFormatError {
    /// The string does not hold exactly `size * size` two-character codes.
    WrongLength { size: usize, found: usize },
    /// The code of tile number `index` (row-major) is not in the code table.
    BadTile { index: usize, first: char, second: char },
}

/// A square grid of `size` rows of `size` tiles.
#[derive(Debug, Clone)]
pub struct Board {
    pub size: usize,
    pub tiles: Vec<Vec<Tile>>,
}

/// The value of a decimal digit.
pub open spec fn digit_value(c: char) -> Option<HeroId> {
    if '0' <= c && c <= '9' {
        Some((c as u32 - '0' as u32) as HeroId)
    } else {
        None
    }
}

/// The tile that a two-character code stands for, if any.
pub open spec fn tile_code(a: char, b: char) -> Option<Tile> {
    if a == ' ' && b == ' ' {
        Some(Tile::Free)
    } else if a == '#' && b == '#' {
        Some(Tile::Wood)
    } else if a == '[' && b == ']' {
        Some(Tile::Tavern)
    } else if a == '@' && digit_value(b) is Some {
        Some(Tile::Hero(digit_value(b).unwrap()))
    } else if a == '$' && b == '-' {
        Some(Tile::Mine(None))
    } else if a == '$' && digit_value(b) is Some {
        Some(Tile::Mine(Some(digit_value(b).unwrap())))
    } else {
        None
    }
}

/// The code of tile number `k` in a packed string.
pub open spec fn code_at(s: Seq<char>, k: int) -> Option<Tile> {
    tile_code(s[2 * k], s[2 * k + 1])
}

/// The first tile number at or after `k`, below `n`, whose code is unknown.
pub open spec fn first_bad_code(s: Seq<char>, k: int, n: int) -> Option<int>
    decreases n - k,
{
    if k >= n {
        None
    } else if code_at(s, k) is None {
        Some(k)
    } else {
        first_bad_code(s, k + 1, n)
    }
}

/// Whether `s` has the length of a packed board of the given size.
pub open spec fn packed_len_ok(size: nat, s: Seq<char>) -> bool {
    s.len() == size * size * 2
}

/// The grid that a packed string of the right length stands for, when
/// every code in it is known.
pub open spec fn grid_of(size: nat, s: Seq<char>) -> Seq<Seq<Tile>> {
    Seq::new(size, |i: int| Seq::new(size, |j: int| code_at(s, i * size + j).unwrap()))
}

/// What decoding `s` as a board of side `size` gives.
pub open spec fn decode_packed(size: usize, s: Seq<char>) -> Result<Seq<Seq<Tile>>, BoardFormatError> {
    if !packed_len_ok(size as nat, s) {
        Err(BoardFormatError::WrongLength { size, found: s.len() as usize })
    } else {
        match first_bad_code(s, 0, size * size) {
            Some(k) => Err(
                BoardFormatError::BadTile { index: k as usize, first: s[2 * k], second: s[2 * k + 1] },
            ),
            None => Ok(grid_of(size as nat, s)),
        }
    }
}

impl Board {
    /// The rows of the grid, as sequences.
    pub open spec fn rows(&self) -> Seq<Seq<Tile>> {
        self.tiles@.map_values(|row: Vec<Tile>| row@)
    }

    /// The grid holds `size` rows of `size` tiles.
    pub open spec fn well_formed(&self) -> bool {
        &&& self.tiles@.len() == self.size
        &&& forall|i: int| 0 <= i < self.size ==> (#[trigger] self.tiles@[i])@.len() == self.size
    }
}

/// When no code below `n` is unknown, every code below `n` is known.
pub proof fn lemma_no_bad_code(s: Seq<char>, k: int, n: int)
    requires
        first_bad_code(s, k, n) is None,
    ensures
        forall|m: int| k <= m < n ==> (#[trigger] code_at(s, m)) is Some,
    decreases n - k,
{
    if k < n {
        lemma_no_bad_code(s, k + 1, n);
    }
}

/// When every code from `k` below `n` is known, none is reported unknown.
proof fn lemma_all_codes_known(s: Seq<char>, k: int, n: int)
    requires
        forall|m: int| k <= m < n ==> (#[trigger] code_at(s, m)) is Some,
    ensures
        first_bad_code(s, k, n) is None,
    decreases n - k,
{
    if k < n {
        lemma_all_codes_known(s, k + 1, n);
    }
}

/// An unknown code at `m`, at or after `k`, is found from `k` on.
proof fn lemma_bad_code_found(s: Seq<char>, k: int, n: int, m: int)
    requires
        k <= m < n,
        code_at(s, m) is None,
    ensures
        first_bad_code(s, k, n) is Some,
    decreases m - k,
{
    if k < m && code_at(s, k) is Some {
        lemma_bad_code_found(s, k + 1, n, m);
    }
}

/// A string of the right length made only of known codes decodes to a
/// grid of `size` rows of `size` tiles; a string of any other length is
/// refused for its length.
pub proof fn lemma_packed_shape(size: usize, s: Seq<char>)
    ensures
        packed_len_ok(size as nat, s) && (forall|k: int| 0 <= k < size * size ==> (#[trigger] code_at(s, k)) is Some)
            ==> (decode_packed(size, s) matches Ok(rows) && rows.len() == size && forall|i: int|
            0 <= i < size ==> (#[trigger] rows[i]).len() == size),
        !packed_len_ok(size as nat, s) ==> decode_packed(size, s) is Err && decode_packed(size, s)->Err_0 is WrongLength,
{
    if packed_len_ok(size as nat, s) && (forall|k: int| 0 <= k < size * size ==> (#[trigger] code_at(s, k)) is Some) {
        lemma_all_codes_known(s, 0, size * size);
    }
}

/// A packed string with an unknown code anywhere is refused: it never
/// gives a grid.
pub proof fn lemma_unknown_code_refused(size: usize, s: Seq<char>, k: int)
    requires
        0 <= k < size * size,
        code_at(s, k) is None,
    ensures
        decode_packed(size, s) is Err,
{
    if packed_len_ok(size as nat, s) {
        lemma_bad_code_found(s, 0, size * size, k);
    }
}

/// A hero or mine marker followed by anything but a digit (or `-`, for a
/// mine) is an unknown code, so a packed string holding one is refused.
pub proof fn lemma_bad_marker_refused(size: usize, s: Seq<char>, k: int)
    requires
        0 <= k < size * size,
        (s[2 * k] == '@' && digit_value(s[2 * k + 1]) is None) || (s[2 * k] == '$' && s[2 * k + 1] != '-'
            && digit_value(s[2 * k + 1]) is None),
    ensures
        code_at(s, k) is None,
        decode_packed(size, s) is Err,
{
    lemma_unknown_code_refused(size, s, k);
}

/// Reads a decimal digit.
fn digit(c: char) -> (r: Option<HeroId>)
    ensures
        r == digit_value(c),
{
    if '0' <= c && c <= '9' {
        Some((c as u32 - '0' as u32) as HeroId)
    } else {
        None
    }
}

/// Reads one two-character tile code.
pub fn tile_from_code(a: char, b: char) -> (r: Option<Tile>)
    ensures
        r == tile_code(a, b),
{
    if a == ' ' && b == ' ' {
        Some(Tile::Free)
    } else if a == '#' && b == '#' {
        Some(Tile::Wood)
    } else if a == '[' && b == ']' {
        Some(Tile::Tavern)
    } else if a == '@' {
        match digit(b) {
            Some(d) => Some(Tile::Hero(d)),
            None => None,
        }
    } else if a == '$' && b == '-' {
        Some(Tile::Mine(None))
    } else if a == '$' {
        match digit(b) {
            Some(d) => Some(Tile::Mine(Some(d))),
            None => None,
        }
    } else {
        None
    }
}

impl Board {
    /// Decodes a packed board string of side `size`: `size * size` codes of
    /// two characters each, row-major. The length is checked before any code
    /// is read; then the first unknown code, if any, is reported.
    pub fn from_packed(size: usize, packed: &str) -> (r: Result<Board, BoardFormatError>)
        ensures
            match r {
                Ok(b) => {
                    &&& decode_packed(size, packed@) == Ok::<Seq<Seq<Tile>>, BoardFormatError>(b.rows())
                    &&& b.size == size
                    &&& b.well_formed()
                },
                Err(e) => decode_packed(size, packed@) == Err::<Seq<Seq<Tile>>, BoardFormatError>(e),
            },
    {
        let ghost s = packed@;
        let found = packed.unicode_len();
        let expected = match size.checked_mul(size) {
            Some(n) => n.checked_mul(2),
            None => None,
        };
        let n: usize = match expected {
            Some(len) if len == found => size * size,
            _ => {
                proof {
                    if size * size * 2 <= usize::MAX {
                        assert(size * size <= usize::MAX) by (nonlinear_arith)
                            requires size * size * 2 <= usize::MAX;
                    }
                }
                return Err(BoardFormatError::WrongLength { size, found });
            },
        };
        let mut k: usize = 0;
        while k < n
            invariant
                k <= n,
                n == size * size,
                s.len() == 2 * n,
                found == 2 * n,
                s == packed@,
                first_bad_code(s, 0, n as int) == first_bad_code(s, k as int, n as int),
            decreases n - k,
        {
            let a = packed.get_char(2 * k);
            let b = packed.get_char(2 * k + 1);
            if tile_from_code(a, b).is_none() {
                return Err(BoardFormatError::BadTile { index: k, first: a, second: b });
            }
            k = k + 1;
        }
        proof {
            lemma_no_bad_code(s, 0, n as int);
        }
        let mut tiles: Vec<Vec<Tile>> = Vec::new();
        let mut i: usize = 0;
        while i < size
            invariant
                i <= size,
                n == size * size,
                s.len() == 2 * n,
                found == 2 * n,
                s == packed@,
                forall|m: int| 0 <= m < n ==> (#[trigger] code_at(s, m)) is Some,
                tiles@.len() == i,
                forall|r: int| 0 <= r < i ==> (#[trigger] tiles@[r])@ == grid_of(size as nat, s)[r],
            decreases size - i,
        {
            let mut row: Vec<Tile> = Vec::new();
            let mut j: usize = 0;
            while j < size
                invariant
                    i < size,
                    j <= size,
                    n == size * size,
                    s.len() == 2 * n,
                    found == 2 * n,
                    s == packed@,
                    forall|m: int| 0 <= m < n ==> (#[trigger] code_at(s, m)) is Some,
                    row@.len() == j,
                    forall|c: int| 0 <= c < j ==> #[trigger] row@[c] == code_at(s, i * size + c).unwrap(),
                decreases size - j,
            {
                proof {
                    assert(i * size + j < size * size) by (nonlinear_arith)
                        requires i < size, j < size;
                }
                let k = i * size + j;
                let a = packed.get_char(2 * k);
                let b = packed.get_char(2 * k + 1);
                proof {
                    assert(code_at(s, k as int) is Some);
                }
                match tile_from_code(a, b) {
                    Some(t) => row.push(t),
                    None => {},
                }
                j = j + 1;
            }
            assert(row@ =~= grid_of(size as nat, s)[i as int]);
            tiles.push(row);
            i = i + 1;
        }
        let board = Board { size, tiles };
        assert(board.rows() =~= grid_of(size as nat, s));
        Ok(board)
    }
}

} // verus!
