//! Tile types and the two-character tile notation.
//!
//! A tile is written as `<digit><suit>`: `m` for characters, `p` for dots,
//! `s` for bamboo, `z` for honors. Under `m`/`p`/`s` any digit 0-9 is a
//! rank, with 0 standing for the red-five variant; under `z` only 1-7 are
//! valid, via the fixed honor table (1-4 the winds East/South/West/North,
//! 5-7 the dragons White/Green/Red).

use vstd::prelude::*;

use crate::Direction;

verus! {

/// The colors a dragon tile can have.
#[derive(Debug, PartialEq, Eq, Structural, Clone, Copy)]
pub enum DragonColor {
    White,
    Green,
    Red,
}

/// An honor tile: one of the four winds or one of the three dragons.
#[derive(Debug, PartialEq, Eq, Structural, Clone, Copy)]
pub enum HonorTile {
    /// A wind tile, one per direction.
    Wind(Direction),
    /// A dragon tile, one per color.
    Dragon(DragonColor),
}

/// A number tile. There are three suits of number tiles: characters
/// (manzu), dots (pinzu), and bamboo (souzu). The rank is 1-9, except that
/// rank 0 stands for the red-five variant of the suit.
#[derive(Debug, PartialEq, Eq, Structural, Clone, Copy)]
pub enum NumberTile {
    /// A character (manzu) tile, written in kanji.
    Character(u8),
    /// A dot (pinzu) tile, showing a number of dots.
    Dot(u8),
    /// A bamboo (souzu) tile, showing a number of bamboo sticks.
    Bamboo(u8),
}

/// A Riichi Mahjong tile: either a number tile or an honor tile.
#[derive(Debug, PartialEq, Eq, Structural, Clone, Copy)]
pub enum MahjongTile {
    Honor(HonorTile),
    Number(NumberTile),
}

/// The ways a two-character tile string can be rejected.
#[derive(Debug, PartialEq, Eq, Structural, Clone, Copy)]
pub enum TileError {
    /// The input is not exactly two characters long.
    WrongLength,
    /// The first character is not a decimal digit.
    NotANumber,
    /// The suit is `z` but the digit is 0, 8, or 9.
    InvalidHonorNumber,
    /// The suit character is outside `m`, `p`, `s`, `z`.
    InvalidSuit,
}

/// The rank stored in a number tile (0 stands for the red five).
pub open spec fn number_tile_rank(t: NumberTile) -> u8 {
    match t {
        NumberTile::Character(n) => n,
        NumberTile::Dot(n) => n,
        NumberTile::Bamboo(n) => n,
    }
}

/// The suit character of a number tile.
pub open spec fn number_tile_suit(t: NumberTile) -> char {
    match t {
        NumberTile::Character(_) => 'm',
        NumberTile::Dot(_) => 'p',
        NumberTile::Bamboo(_) => 's',
    }
}

/// The ordinal of an honor tile under the fixed honor table: winds East
/// through North are 1-4, dragons White/Green/Red are 5-7.
pub open spec fn honor_tile_ordinal(t: HonorTile) -> u8 {
    match t {
        HonorTile::Wind(Direction::East) => 1,
        HonorTile::Wind(Direction::South) => 2,
        HonorTile::Wind(Direction::West) => 3,
        HonorTile::Wind(Direction::North) => 4,
        HonorTile::Dragon(DragonColor::White) => 5,
        HonorTile::Dragon(DragonColor::Green) => 6,
        HonorTile::Dragon(DragonColor::Red) => 7,
    }
}

/// The digit of a tile in the two-character notation: the stored rank for
/// number tiles, the computed ordinal for honor tiles.
pub open spec fn tile_number(t: MahjongTile) -> u8 {
    match t {
        MahjongTile::Honor(h) => honor_tile_ordinal(h),
        MahjongTile::Number(n) => number_tile_rank(n),
    }
}

/// The suit character of a tile; honor tiles all use `z`.
pub open spec fn tile_suit(t: MahjongTile) -> char {
    match t {
        MahjongTile::Honor(_) => 'z',
        MahjongTile::Number(n) => number_tile_suit(n),
    }
}

/// A number tile is well formed when its stored rank is a single digit;
/// honor tiles carry no rank and are always well formed.
pub open spec fn tile_wf(t: MahjongTile) -> bool {
    match t {
        MahjongTile::Honor(_) => true,
        MahjongTile::Number(n) => number_tile_rank(n) <= 9,
    }
}

/// The character for a single decimal digit.
pub open spec fn digit_char(n: u8) -> char {
    (n + 48) as char
}

/// Whether a character is a decimal digit.
pub open spec fn is_digit(c: char) -> bool {
    '0' <= c && c <= '9'
}

/// The value of a decimal digit character.
pub open spec fn digit_val(c: char) -> u8 {
    (c as int - 48) as u8
}

/// The honor tile with the given ordinal 1-7; meaningless outside that range.
pub open spec fn honor_of_ordinal(n: u8) -> HonorTile {
    if n == 1 {
        HonorTile::Wind(Direction::East)
    } else if n == 2 {
        HonorTile::Wind(Direction::South)
    } else if n == 3 {
        HonorTile::Wind(Direction::West)
    } else if n == 4 {
        HonorTile::Wind(Direction::North)
    } else if n == 5 {
        HonorTile::Dragon(DragonColor::White)
    } else if n == 6 {
        HonorTile::Dragon(DragonColor::Green)
    } else {
        HonorTile::Dragon(DragonColor::Red)
    }
}

/// What `build` returns on each input: the whole decoding grammar as a
/// function of the character sequence.
pub open spec fn spec_build(s: Seq<char>) -> Result<MahjongTile, TileError> {
    if s.len() != 2 {
        Err(TileError::WrongLength)
    } else if !is_digit(s[0]) {
        Err(TileError::NotANumber)
    } else {
        let n = digit_val(s[0]);
        if s[1] == 'z' {
            if 1 <= n && n <= 7 {
                Ok(MahjongTile::Honor(honor_of_ordinal(n)))
            } else {
                Err(TileError::InvalidHonorNumber)
            }
        } else if s[1] == 'm' {
            Ok(MahjongTile::Number(NumberTile::Character(n)))
        } else if s[1] == 'p' {
            Ok(MahjongTile::Number(NumberTile::Dot(n)))
        } else if s[1] == 's' {
            Ok(MahjongTile::Number(NumberTile::Bamboo(n)))
        } else {
            Err(TileError::InvalidSuit)
        }
    }
}

/// The canonical two-character spelling of a tile.
pub open spec fn spec_encode(t: MahjongTile) -> Seq<char> {
    seq![digit_char(tile_number(t)), tile_suit(t)]
}

/// A Riichi Mahjong tile, which has a digit and a suit character in the
/// standard notation.
pub trait Tile {
    /// The digit of the tile as a mathematical value.
    spec fn spec_number(&self) -> u8;

    /// The suit character of the tile as a mathematical value.
    spec fn spec_suit(&self) -> char;

    /// The digit of the tile: the rank for number tiles (0 for a red
    /// five), the honor-table ordinal for honor tiles.
    fn number(&self) -> (n: u8)
        ensures
            n == self.spec_number(),
    ;

    /// The suit character of the tile: `m`, `p`, or `s` for number tiles,
    /// `z` for honor tiles.
    fn suit(&self) -> (c: char)
        ensures
            c == self.spec_suit(),
    ;
}

impl Tile for NumberTile {
    open spec fn spec_number(&self) -> u8 {
        number_tile_rank(*self)
    }

    open spec fn spec_suit(&self) -> char {
        number_tile_suit(*self)
    }

    fn number(&self) -> (n: u8)
        ensures
            n == number_tile_rank(*self),
    {
        match *self {
            NumberTile::Character(num) => num,
            NumberTile::Dot(num) => num,
            NumberTile::Bamboo(num) => num,
        }
    }

    fn suit(&self) -> (c: char)
        ensures
            c == number_tile_suit(*self),
    {
        match *self {
            NumberTile::Character(_) => 'm',
            NumberTile::Dot(_) => 'p',
            NumberTile::Bamboo(_) => 's',
        }
    }
}

impl Tile for HonorTile {
    open spec fn spec_number(&self) -> u8 {
        honor_tile_ordinal(*self)
    }

    open spec fn spec_suit(&self) -> char {
        'z'
    }

    fn number(&self) -> (n: u8)
        ensures
            n == honor_tile_ordinal(*self),
    {
        match *self {
            HonorTile::Wind(Direction::East) => 1,
            HonorTile::Wind(Direction::South) => 2,
            HonorTile::Wind(Direction::West) => 3,
            HonorTile::Wind(Direction::North) => 4,
            HonorTile::Dragon(DragonColor::White) => 5,
            HonorTile::Dragon(DragonColor::Green) => 6,
            HonorTile::Dragon(DragonColor::Red) => 7,
        }
    }

    fn suit(&self) -> (c: char)
        ensures
            c == 'z',
    {
        'z'
    }
}

impl Tile for MahjongTile {
    open spec fn spec_number(&self) -> u8 {
        tile_number(*self)
    }

    open spec fn spec_suit(&self) -> char {
        tile_suit(*self)
    }

    fn number(&self) -> (n: u8)
        ensures
            n == tile_number(*self),
    {
        match self {
            MahjongTile::Honor(t) => t.number(),
            MahjongTile::Number(t) => t.number(),
        }
    }

    fn suit(&self) -> (c: char)
        ensures
            c == tile_suit(*self),
    {
        match self {
            MahjongTile::Honor(t) => t.suit(),
            MahjongTile::Number(t) => t.suit(),
        }
    }
}

/// Decodes a two-character tile string such as `1z` or `3p` into the
/// corresponding tile, or reports which part of the grammar the input
/// breaks.
pub fn build(tile_string: &str) -> (r: Result<MahjongTile, TileError>)
    ensures
        r == spec_build(tile_string@),
{
    let len = tile_string.unicode_len();
    if len != 2 {
        return Err(TileError::WrongLength);
    }
    let first = tile_string.get_char(0);
    if !(first >= '0' && first <= '9') {
        return Err(TileError::NotANumber);
    }
    let n: u8 = (first as u32 - '0' as u32) as u8;
    let suit = tile_string.get_char(1);
    if suit == 'z' {
        if 1 <= n && n <= 7 {
            Ok(MahjongTile::Honor(honor_from_ordinal(n)))
        } else {
            Err(TileError::InvalidHonorNumber)
        }
    } else if suit == 'm' {
        Ok(MahjongTile::Number(NumberTile::Character(n)))
    } else if suit == 'p' {
        Ok(MahjongTile::Number(NumberTile::Dot(n)))
    } else if suit == 's' {
        Ok(MahjongTile::Number(NumberTile::Bamboo(n)))
    } else {
        Err(TileError::InvalidSuit)
    }
}

impl TileError {
    /// A human-readable sentence naming the reason an input was rejected.
    pub fn message(&self) -> (m: &'static str)
        ensures
            m@ == error_text(*self),
    {
        match *self {
            TileError::WrongLength => "Invalid number of characters",
            TileError::NotANumber => "First character is not a number",
            TileError::InvalidHonorNumber => "Invalid number for tile",
            TileError::InvalidSuit => "Invalid suit",
        }
    }
}

/// The sentence that `TileError::message` returns for each error.
pub open spec fn error_text(e: TileError) -> Seq<char> {
    match e {
        TileError::WrongLength => "Invalid number of characters"@,
        TileError::NotANumber => "First character is not a number"@,
        TileError::InvalidHonorNumber => "Invalid number for tile"@,
        TileError::InvalidSuit => "Invalid suit"@,
    }
}

/// The one-character string for a single decimal digit.
fn digit_str(n: u8) -> (d: &'static str)
    requires
        n <= 9,
    ensures
        d@ =~= seq![digit_char(n)],
{
    proof {
        reveal_strlit("0");
        reveal_strlit("1");
        reveal_strlit("2");
        reveal_strlit("3");
        reveal_strlit("4");
        reveal_strlit("5");
        reveal_strlit("6");
        reveal_strlit("7");
        reveal_strlit("8");
        reveal_strlit("9");
    }
    if n == 0 {
        "0"
    } else if n == 1 {
        "1"
    } else if n == 2 {
        "2"
    } else if n == 3 {
        "3"
    } else if n == 4 {
        "4"
    } else if n == 5 {
        "5"
    } else if n == 6 {
        "6"
    } else if n == 7 {
        "7"
    } else if n == 8 {
        "8"
    } else {
        "9"
    }
}

impl NumberTile {
    /// The tile of the same suit with the given rank.
    pub fn with_rank(&self, r: u8) -> (t: NumberTile)
        ensures
            number_tile_rank(t) == r,
            number_tile_suit(t) == number_tile_suit(*self),
    {
        match *self {
            NumberTile::Character(_) => NumberTile::Character(r),
            NumberTile::Dot(_) => NumberTile::Dot(r),
            NumberTile::Bamboo(_) => NumberTile::Bamboo(r),
        }
    }

    /// The canonical two-character spelling of a number tile, its rank
    /// digit followed by its suit character.
    pub fn encode(&self) -> (s: String)
        requires
            number_tile_rank(*self) <= 9,
        ensures
            s@ == seq![digit_char(number_tile_rank(*self)), number_tile_suit(*self)],
    {
        proof {
            reveal_strlit("m");
            reveal_strlit("p");
            reveal_strlit("s");
        }
        let d = digit_str(self.number());
        let su: &'static str = match *self {
            NumberTile::Character(_) => "m",
            NumberTile::Dot(_) => "p",
            NumberTile::Bamboo(_) => "s",
        };
        let s = String::from_str(d).concat(su);
        proof {
            assert(s@ =~= seq![digit_char(number_tile_rank(*self)), number_tile_suit(*self)]);
        }
        s
    }
}

impl HonorTile {
    /// The canonical two-character spelling of an honor tile, its
    /// honor-table ordinal followed by `z`.
    pub fn encode(&self) -> (s: String)
        ensures
            s@ == seq![digit_char(honor_tile_ordinal(*self)), 'z'],
    {
        proof {
            reveal_strlit("z");
        }
        let d = digit_str(self.number());
        let s = String::from_str(d).concat("z");
        proof {
            assert(s@ =~= seq![digit_char(honor_tile_ordinal(*self)), 'z']);
        }
        s
    }
}

impl MahjongTile {
    /// Whether the tile is an honor tile.
    pub fn is_honor(&self) -> (b: bool)
        ensures
            b == (*self is Honor),
    {
        match *self {
            MahjongTile::Honor(_) => true,
            MahjongTile::Number(_) => false,
        }
    }

    /// The canonical two-character spelling of the tile.
    pub fn encode(&self) -> (s: String)
        requires
            tile_wf(*self),
        ensures
            s@ == spec_encode(*self),
    {
        match self {
            MahjongTile::Honor(t) => t.encode(),
            MahjongTile::Number(t) => t.encode(),
        }
    }
}

/// Decoding inverts encoding: every well-formed tile is accepted back
/// unchanged from its canonical spelling.
pub proof fn lemma_build_encode(t: MahjongTile)
    requires
        tile_wf(t),
    ensures
        spec_build(spec_encode(t)) == Ok::<MahjongTile, TileError>(t),
{
    let s = spec_encode(t);
    assert(s.len() == 2);
    assert(tile_number(t) <= 9);
    assert(is_digit(s[0]));
    assert(digit_val(s[0]) == tile_number(t));
}

/// Encoding inverts decoding: every string the decoder accepts is the
/// canonical spelling of the tile it decodes to, so the grammar admits no
/// non-canonical spellings.
pub proof fn lemma_encode_build(s: Seq<char>)
    requires
        spec_build(s) is Ok,
    ensures
        tile_wf(spec_build(s)->Ok_0),
        spec_encode(spec_build(s)->Ok_0) == s,
{
    let t = spec_build(s)->Ok_0;
    assert(s.len() == 2);
    assert(is_digit(s[0]));
    assert(digit_char(digit_val(s[0])) == s[0]);
    assert(spec_encode(t) =~= s);
}

/// The honor tile with the given honor-table ordinal.
pub fn honor_from_ordinal(n: u8) -> (t: HonorTile)
    requires
        1 <= n <= 7,
    ensures
        t == honor_of_ordinal(n),
        honor_tile_ordinal(t) == n,
{
    if n == 1 {
        HonorTile::Wind(Direction::East)
    } else if n == 2 {
        HonorTile::Wind(Direction::South)
    } else if n == 3 {
        HonorTile::Wind(Direction::West)
    } else if n == 4 {
        HonorTile::Wind(Direction::North)
    } else if n == 5 {
        HonorTile::Dragon(DragonColor::White)
    } else if n == 6 {
        HonorTile::Dragon(DragonColor::Green)
    } else {
        HonorTile::Dragon(DragonColor::Red)
    }
}

} // verus!

