//! Types that record a game of Riichi Mahjong: seats relative to the
//! viewpoint, melds, round actions, and the chronological transcript of
//! rounds and games.

use vstd::prelude::*;

use crate::tile::{
    spec_encode, tile_number, tile_suit, tile_wf, MahjongTile, NumberTile, Tile,
};
use crate::Direction;

verus! {

/// A seat relative to the hero, the player the game is viewed from.
/// The seats form a cyclic order Hero, Right, Across, Left.
#[derive(Debug, PartialEq, Eq, Structural, Clone, Copy)]
pub enum PlayerLocation {
    Hero,
    Right,
    Across,
    Left,
}

/// The position of a seat in the clockwise cycle starting at the hero.
pub open spec fn seat_index(p: PlayerLocation) -> int {
    match p {
        PlayerLocation::Hero => 0,
        PlayerLocation::Right => 1,
        PlayerLocation::Across => 2,
        PlayerLocation::Left => 3,
    }
}

/// The seat at the given position of the cycle; positions are taken
/// modulo four, so only 0-3 are meaningful.
pub open spec fn seat_of_index(i: int) -> PlayerLocation {
    if i == 0 {
        PlayerLocation::Hero
    } else if i == 1 {
        PlayerLocation::Right
    } else if i == 2 {
        PlayerLocation::Across
    } else {
        PlayerLocation::Left
    }
}

/// Seat composition: the seat reached by walking `b` steps around the
/// cycle starting from `a`. This is addition modulo four under the seat
/// embedding, so the hero is the identity.
pub open spec fn spec_combine(a: PlayerLocation, b: PlayerLocation) -> PlayerLocation {
    seat_of_index((seat_index(a) + seat_index(b)) % 4)
}

impl PlayerLocation {
    /// The position of this seat in the cycle, 0-3 clockwise from the hero.
    pub fn index(&self) -> (n: u8)
        ensures
            n == seat_index(*self),
    {
        match *self {
            PlayerLocation::Hero => 0,
            PlayerLocation::Right => 1,
            PlayerLocation::Across => 2,
            PlayerLocation::Left => 3,
        }
    }

    /// The seat that `location` names when viewed from this seat: the
    /// composition of the two offsets around the table.
    pub fn move_relative(&self, location: &PlayerLocation) -> (r: PlayerLocation)
        ensures
            r == spec_combine(*self, *location),
    {
        let k: u8 = (self.index() + location.index()) % 4;
        if k == 0 {
            PlayerLocation::Hero
        } else if k == 1 {
            PlayerLocation::Right
        } else if k == 2 {
            PlayerLocation::Across
        } else {
            PlayerLocation::Left
        }
    }
}

/// The hero is a two-sided identity for seat composition.
pub proof fn lemma_combine_identity(a: PlayerLocation)
    ensures
        spec_combine(a, PlayerLocation::Hero) == a,
        spec_combine(PlayerLocation::Hero, a) == a,
{
}

/// Seat composition is commutative.
pub proof fn lemma_combine_commutative(a: PlayerLocation, b: PlayerLocation)
    ensures
        spec_combine(a, b) == spec_combine(b, a),
{
}

/// Seat composition is associative.
pub proof fn lemma_combine_associative(a: PlayerLocation, b: PlayerLocation, c: PlayerLocation)
    ensures
        spec_combine(spec_combine(a, b), c) == spec_combine(a, spec_combine(b, c)),
{
}

/// The ways a meld can be structurally invalid.
#[derive(Debug, PartialEq, Eq, Structural, Clone, Copy)]
pub enum MeldError {
    /// The three chii tiles are not three consecutive ranks of one number
    /// suit.
    NotASequence,
    /// The consumed chii tile is not one of the three tiles of the meld.
    ConsumedTileMissing,
    /// The seat the tile was taken from is not a legal source for the
    /// acting seat.
    InvalidSource,
}

/// Which seats a chii may legally consume a discard from. Rulesets vary,
/// so the adjacency rule is a parameter of validation rather than fixed.
#[derive(Debug, PartialEq, Eq, Structural, Clone, Copy)]
pub enum ChiiSourceRule {
    /// Only the seat immediately counter-clockwise of the acting seat,
    /// the usual rule.
    LeftOnly,
    /// Any seat other than the acting seat itself.
    AnyOther,
}

/// The rank a tile plays as in a sequence: the red five (stored rank 0)
/// plays as a five.
pub open spec fn effective_rank(t: MahjongTile) -> u8 {
    if tile_number(t) == 0 {
        5
    } else {
        tile_number(t)
    }
}

/// Whether the three ranks can be arranged as a consecutive run.
pub open spec fn ranks_consecutive(a: u8, b: u8, c: u8) -> bool {
    ||| (a + 1 == b && b + 1 == c)
    ||| (a + 1 == c && c + 1 == b)
    ||| (b + 1 == a && a + 1 == c)
    ||| (b + 1 == c && c + 1 == a)
    ||| (c + 1 == a && a + 1 == b)
    ||| (c + 1 == b && b + 1 == a)
}

/// Whether three tiles form a chii body: three well-formed number tiles
/// of one suit whose effective ranks are consecutive.
pub open spec fn chii_sequence_valid(tiles: [MahjongTile; 3]) -> bool {
    &&& tiles[0] is Number
    &&& tiles[1] is Number
    &&& tiles[2] is Number
    &&& tile_wf(tiles[0])
    &&& tile_wf(tiles[1])
    &&& tile_wf(tiles[2])
    &&& tile_suit(tiles[0]) == tile_suit(tiles[1])
    &&& tile_suit(tiles[1]) == tile_suit(tiles[2])
    &&& ranks_consecutive(
        effective_rank(tiles[0]),
        effective_rank(tiles[1]),
        effective_rank(tiles[2]),
    )
}

/// Whether the source seat is legal for an open meld taken by `subject`
/// under the given adjacency rule.
pub open spec fn chii_source_ok(
    source: PlayerLocation,
    subject: PlayerLocation,
    rule: ChiiSourceRule,
) -> bool {
    match rule {
        ChiiSourceRule::LeftOnly => source == spec_combine(subject, PlayerLocation::Left),
        ChiiSourceRule::AnyOther => source != subject,
    }
}

/// A meld formed by a chii: the three tiles of the sequence, the consumed
/// tile, and the seat it was taken from.
#[derive(Debug, PartialEq, Eq, Clone)]
pub struct ChiiMeld {
    pub tiles: [MahjongTile; 3],
    pub chii_tile: MahjongTile,
    pub source: PlayerLocation,
}

/// What `ChiiMeld::new` returns on each input: the meld when the tiles
/// form a sequence that contains the consumed tile and the source seat is
/// legal, otherwise the first violated condition.
pub open spec fn spec_chii_new(
    tiles: [MahjongTile; 3],
    chii_tile: MahjongTile,
    source: PlayerLocation,
    subject: PlayerLocation,
    rule: ChiiSourceRule,
) -> Result<ChiiMeld, MeldError> {
    if !chii_sequence_valid(tiles) {
        Err(MeldError::NotASequence)
    } else if chii_tile != tiles[0] && chii_tile != tiles[1] && chii_tile != tiles[2] {
        Err(MeldError::ConsumedTileMissing)
    } else if !chii_source_ok(source, subject, rule) {
        Err(MeldError::InvalidSource)
    } else {
        Ok(ChiiMeld { tiles, chii_tile, source })
    }
}

impl ChiiMeld {
    /// Validates and builds a chii taken by `subject`: the three tiles
    /// must be consecutive well-formed number tiles of one suit (a red
    /// five plays as a five), the consumed tile must be one of them, and
    /// the source seat must be legal under `rule`.
    pub fn new(
        tiles: [MahjongTile; 3],
        chii_tile: MahjongTile,
        source: PlayerLocation,
        subject: PlayerLocation,
        rule: ChiiSourceRule,
    ) -> (r: Result<ChiiMeld, MeldError>)
        ensures
            r == spec_chii_new(tiles, chii_tile, source, subject, rule),
    {
        let t0 = tiles[0];
        let t1 = tiles[1];
        let t2 = tiles[2];
        let shape_ok = !t0.is_honor() && !t1.is_honor() && !t2.is_honor() && t0.number() <= 9
            && t1.number() <= 9 && t2.number() <= 9 && t0.suit() == t1.suit() && t1.suit()
            == t2.suit();
        if !shape_ok {
            return Err(MeldError::NotASequence);
        }
        let a: u8 = if t0.number() == 0 {
            5
        } else {
            t0.number()
        };
        let b: u8 = if t1.number() == 0 {
            5
        } else {
            t1.number()
        };
        let c: u8 = if t2.number() == 0 {
            5
        } else {
            t2.number()
        };
        let run = (a + 1 == b && b + 1 == c) || (a + 1 == c && c + 1 == b) || (b + 1 == a && a + 1
            == c) || (b + 1 == c && c + 1 == a) || (c + 1 == a && a + 1 == b) || (c + 1 == b && b
            + 1 == a);
        if !run {
            return Err(MeldError::NotASequence);
        }
        if !(chii_tile == t0 || chii_tile == t1 || chii_tile == t2) {
            return Err(MeldError::ConsumedTileMissing);
        }
        let source_ok = match rule {
            ChiiSourceRule::LeftOnly => source
                == subject.move_relative(&PlayerLocation::Left),
            ChiiSourceRule::AnyOther => source != subject,
        };
        if !source_ok {
            return Err(MeldError::InvalidSource);
        }
        Ok(ChiiMeld { tiles, chii_tile, source })
    }
}

/// A pon meld: the repeated tile and the seat the third tile was taken
/// from.
#[derive(Debug, PartialEq, Eq, Clone)]
pub struct PonMeld {
    pub tile: MahjongTile,
    pub source: PlayerLocation,
}

/// Whether a source seat is legal for an open meld taken by `subject`:
/// the tile must come from a seat other than the acting seat itself.
pub open spec fn open_source_valid(source: PlayerLocation, subject: PlayerLocation) -> bool {
    source != subject
}

impl PonMeld {
    /// Validates and builds a pon taken by `subject`: the tile must come
    /// from a seat other than the acting seat itself.
    pub fn new(tile: MahjongTile, source: PlayerLocation, subject: PlayerLocation) -> (r: Result<
        PonMeld,
        MeldError,
    >)
        ensures
            open_source_valid(source, subject) ==> r == Ok::<PonMeld, MeldError>(
                PonMeld { tile, source },
            ),
            !open_source_valid(source, subject) ==> r == Err::<PonMeld, MeldError>(
                MeldError::InvalidSource,
            ),
    {
        if source == subject {
            Err(MeldError::InvalidSource)
        } else {
            Ok(PonMeld { tile, source })
        }
    }
}

/// An open kan meld: the repeated tile and the seat the fourth tile was
/// taken from.
#[derive(Debug, PartialEq, Eq, Clone)]
pub struct OpenKanMeld {
    pub tile: MahjongTile,
    pub source: PlayerLocation,
}

impl OpenKanMeld {
    /// Validates and builds an open kan taken by `subject`: the tile must
    /// come from a seat other than the acting seat itself.
    pub fn new(tile: MahjongTile, source: PlayerLocation, subject: PlayerLocation) -> (r: Result<
        OpenKanMeld,
        MeldError,
    >)
        ensures
            open_source_valid(source, subject) ==> r == Ok::<OpenKanMeld, MeldError>(
                OpenKanMeld { tile, source },
            ),
            !open_source_valid(source, subject) ==> r == Err::<OpenKanMeld, MeldError>(
                MeldError::InvalidSource,
            ),
    {
        if source == subject {
            Err(MeldError::InvalidSource)
        } else {
            Ok(OpenKanMeld { tile, source })
        }
    }
}

/// An added open kan meld: the repeated tile and the seat the original
/// pon tile was taken from.
#[derive(Debug, PartialEq, Eq, Clone)]
pub struct AddedOpenKanMeld {
    pub tile: MahjongTile,
    pub source: PlayerLocation,
}

impl AddedOpenKanMeld {
    /// Validates and builds an added open kan for `subject`: the original
    /// pon tile must have come from a seat other than the acting seat.
    pub fn new(tile: MahjongTile, source: PlayerLocation, subject: PlayerLocation) -> (r: Result<
        AddedOpenKanMeld,
        MeldError,
    >)
        ensures
            open_source_valid(source, subject) ==> r == Ok::<AddedOpenKanMeld, MeldError>(
                AddedOpenKanMeld { tile, source },
            ),
            !open_source_valid(source, subject) ==> r == Err::<AddedOpenKanMeld, MeldError>(
                MeldError::InvalidSource,
            ),
    {
        if source == subject {
            Err(MeldError::InvalidSource)
        } else {
            Ok(AddedOpenKanMeld { tile, source })
        }
    }
}

/// A closed kan meld: the tile repeated in the quadruplet. It is entirely
/// self-formed, so it carries no source seat.
#[derive(Debug, PartialEq, Eq, Clone)]
pub struct ClosedKanMeld {
    pub tile: MahjongTile,
}

/// The middle of the closed-kan notation: the two face-up tiles. A kan of
/// fives shows its red five first; every other kan shows its tile twice.
pub open spec fn closed_kan_middle(t: MahjongTile) -> Seq<char> {
    if t is Number && (tile_number(t) == 5 || tile_number(t) == 0) {
        seq!['0', tile_suit(t), '5', tile_suit(t)]
    } else {
        spec_encode(t) + spec_encode(t)
    }
}

/// The notation of a closed kan: the two outer tiles are face down,
/// written `--`, around the two face-up middle tiles.
pub open spec fn closed_kan_text(t: MahjongTile) -> Seq<char> {
    seq!['-', '-'] + closed_kan_middle(t) + seq!['-', '-']
}

impl ClosedKanMeld {
    /// The notation of this closed kan: outer tiles face down (`--`),
    /// the two middle tiles face up; a kan of fives shows its red five.
    pub fn encode(&self) -> (s: String)
        requires
            tile_wf(self.tile),
        ensures
            s@ == closed_kan_text(self.tile),
    {
        proof {
            reveal_strlit("--");
        }
        let middle: String = match self.tile {
            MahjongTile::Number(nt) => {
                if nt.number() == 5 || nt.number() == 0 {
                    let red = MahjongTile::Number(nt.with_rank(0));
                    let plain = MahjongTile::Number(nt.with_rank(5));
                    red.encode().concat(plain.encode().as_str())
                } else {
                    self.tile.encode().concat(self.tile.encode().as_str())
                }
            },
            MahjongTile::Honor(_) => self.tile.encode().concat(self.tile.encode().as_str()),
        };
        proof {
            assert(middle@ =~= closed_kan_middle(self.tile));
        }
        let s = String::from_str("--").concat(middle.as_str()).concat("--");
        proof {
            assert(s@ =~= closed_kan_text(self.tile));
        }
        s
    }
}

/// A completed meld: a sequence, triplet, or quadruplet, open or closed.
#[derive(Debug, PartialEq, Eq, Clone)]
pub enum Meld {
    Chii(ChiiMeld),
    Pon(PonMeld),
    OpenKan(OpenKanMeld),
    AddedOpenKan(AddedOpenKanMeld),
    ClosedKan(ClosedKanMeld),
}

/// A Mahjong hand: the concealed tiles together with the melds shown to
/// all players. Duplicate tiles are legal, and the melds keep the order
/// they were formed in.
#[derive(Debug, PartialEq, Eq, Clone)]
pub struct Hand {
    pub hand: Vec<MahjongTile>,
    pub melds: Vec<Meld>,
}

/// One action of a Riichi Mahjong round.
#[derive(Debug, PartialEq, Eq, Clone)]
pub enum RoundAction {
    /// A player draws a tile; `None` records a draw whose tile the
    /// transcript does not reveal to the viewpoint, which is itself
    /// meaningful content, not missing data.
    Draw(Option<MahjongTile>),
    /// A player discards a tile.
    Discard(MahjongTile),
    /// A player takes a discarded tile and completes a sequence.
    Chii(ChiiMeld),
    /// A player takes a discarded tile and completes a triplet.
    Pon(PonMeld),
    /// A player completes a quadruplet entirely from hand.
    ClosedKan(ClosedKanMeld),
    /// A player takes a discarded tile and completes a quadruplet.
    OpenKan(OpenKanMeld),
    /// A player adds a drawn tile to an existing pon triplet.
    AddedOpenKan(AddedOpenKanMeld),
    /// A player places a bet indicating their hand is in tenpai.
    Richii,
    /// A player completes a hand by drawing the winning tile.
    Tsumo(Hand),
    /// A player completes a hand off another player's discard.
    Ron(Hand),
    /// The round ends in an exhaustive draw; each seat that revealed a
    /// ready hand appears once, seats that did not are absent.
    Exhaustive(Vec<(PlayerLocation, Hand)>),
}

/// Whether an action consumes another seat's discard and therefore names
/// a target seat; purely self-directed actions carry none.
pub open spec fn action_needs_target(a: RoundAction) -> bool {
    match a {
        RoundAction::Chii(_) => true,
        RoundAction::Pon(_) => true,
        RoundAction::OpenKan(_) => true,
        RoundAction::AddedOpenKan(_) => true,
        RoundAction::Ron(_) => true,
        RoundAction::Draw(_) => false,
        RoundAction::Discard(_) => false,
        RoundAction::ClosedKan(_) => false,
        RoundAction::Richii => false,
        RoundAction::Tsumo(_) => false,
        RoundAction::Exhaustive(_) => false,
    }
}

/// Whether each seat appears at most once among the revealed hands of an
/// exhaustive draw.
pub open spec fn exhaustive_seats_unique(entries: Seq<(PlayerLocation, Hand)>) -> bool {
    forall|i: int, j: int|
        0 <= i < j < entries.len() ==> (#[trigger] entries[i]).0 != (#[trigger] entries[j]).0
}

/// Whether an action's own payload is well formed: an exhaustive draw
/// lists each revealing seat once; every other action is unconstrained
/// here.
pub open spec fn action_payload_wf(a: RoundAction) -> bool {
    match a {
        RoundAction::Exhaustive(entries) => exhaustive_seats_unique(entries@),
        _ => true,
    }
}

/// The ways a round event can be put together wrongly.
#[derive(Debug, PartialEq, Eq, Structural, Clone, Copy)]
pub enum EventError {
    /// The action consumes another seat's discard but names no target.
    MissingTarget,
    /// The action is purely self-directed but names a target.
    UnexpectedTarget,
    /// An exhaustive draw lists some seat's revealed hand twice.
    DuplicateSeat,
}

/// One event of a round: who acted, what they did, and, for actions that
/// consume another seat's discard, whom they took it from.
#[derive(Debug, PartialEq, Eq, Clone)]
pub struct RoundEvent {
    pub subject: PlayerLocation,
    pub action: RoundAction,
    pub target: Option<PlayerLocation>,
}

/// A well-formed event carries a target exactly when its action consumes
/// another seat's discard, and its action's own payload is well formed.
pub open spec fn event_wf(e: RoundEvent) -> bool {
    &&& action_needs_target(e.action) <==> e.target is Some
    &&& action_payload_wf(e.action)
}

/// What `RoundEvent::new` returns on each input: the event when target
/// presence matches the action and the payload is well formed, otherwise
/// the first violated condition.
pub open spec fn spec_event_new(
    subject: PlayerLocation,
    action: RoundAction,
    target: Option<PlayerLocation>,
) -> Result<RoundEvent, EventError> {
    if action_needs_target(action) && target is None {
        Err(EventError::MissingTarget)
    } else if !action_needs_target(action) && target is Some {
        Err(EventError::UnexpectedTarget)
    } else if !action_payload_wf(action) {
        Err(EventError::DuplicateSeat)
    } else {
        Ok(RoundEvent { subject, action, target })
    }
}

/// Whether each seat appears at most once among the given revealed
/// hands.
fn seats_unique(entries: &Vec<(PlayerLocation, Hand)>) -> (b: bool)
    ensures
        b == exhaustive_seats_unique(entries@),
{
    let n = entries.len();
    let mut i: usize = 0;
    while i < n
        invariant
            n == entries@.len(),
            i <= n,
            forall|p: int, q: int|
                0 <= p < q < entries@.len() && p < i ==> (#[trigger] entries@[p]).0 != (
                #[trigger] entries@[q]).0,
        decreases n - i,
    {
        let mut j: usize = i + 1;
        while j < n
            invariant
                n == entries@.len(),
                i < j <= n,
                forall|q: int|
                    i < q < j ==> (#[trigger] entries@[q]).0 != entries@[i as int].0,
            decreases n - j,
        {
            if entries[i].0 == entries[j].0 {
                return false;
            }
            j += 1;
        }
        i += 1;
    }
    true
}

impl RoundEvent {
    /// Validates and builds an event: actions that consume another seat's
    /// discard require a target, purely self-directed actions must not
    /// carry one. The returned event is always well formed.
    pub fn new(
        subject: PlayerLocation,
        action: RoundAction,
        target: Option<PlayerLocation>,
    ) -> (r: Result<RoundEvent, EventError>)
        ensures
            r == spec_event_new(subject, action, target),
            r matches Ok(e) ==> event_wf(e),
    {
        let needs = match &action {
            RoundAction::Chii(_) => true,
            RoundAction::Pon(_) => true,
            RoundAction::OpenKan(_) => true,
            RoundAction::AddedOpenKan(_) => true,
            RoundAction::Ron(_) => true,
            RoundAction::Draw(_) => false,
            RoundAction::Discard(_) => false,
            RoundAction::ClosedKan(_) => false,
            RoundAction::Richii => false,
            RoundAction::Tsumo(_) => false,
            RoundAction::Exhaustive(_) => false,
        };
        let has_target = target.is_some();
        if needs && !has_target {
            return Err(EventError::MissingTarget);
        }
        if !needs && has_target {
            return Err(EventError::UnexpectedTarget);
        }
        let payload_ok = match &action {
            RoundAction::Exhaustive(entries) => seats_unique(entries),
            _ => true,
        };
        if !payload_ok {
            return Err(EventError::DuplicateSeat);
        }
        Ok(RoundEvent { subject, action, target })
    }
}

/// Which of the four rounds within the wind cycle it is.
#[derive(Debug, PartialEq, Eq, Structural, Clone, Copy)]
pub enum RoundNumber {
    One,
    Two,
    Three,
    Four,
}

/// The number of players, which changes the game rules: three-player or
/// four-player Mahjong.
#[derive(Debug, PartialEq, Eq, Structural, Clone, Copy)]
pub enum NumPlayers {
    Three,
    Four,
}

/// The length of the game: an east game lasts at least one cycle, a south
/// game at least two.
#[derive(Debug, PartialEq, Eq, Structural, Clone, Copy)]
pub enum Length {
    East,
    South,
}

/// A time span in seconds.
#[derive(Debug, PartialEq, Eq, Structural, PartialOrd, Ord, Clone, Copy)]
pub struct Seconds(pub u32);

/// The number of red fives in the tile set; each red five is a dora.
#[derive(Debug, PartialEq, Eq, Structural, Clone, Copy)]
pub enum RedFive {
    Zero,
    Three,
    Four,
}

/// A point in time, counted in seconds from the Unix epoch in the local
/// clock's reckoning.
#[derive(Debug, PartialEq, Eq, Structural, PartialOrd, Ord, Clone, Copy)]
pub struct Timestamp(pub i64);

/// The metadata of a round: winds, repeats, the hero's seat and starting
/// hand, the dora indicators, and the result once known.
#[derive(Debug, PartialEq, Eq, Clone)]
pub struct RoundConfig {
    /// The direction of the round wind.
    pub round_wind: Direction,
    /// The number of the round within the cycle.
    pub round_number: RoundNumber,
    /// How many repeats of this wind and number have been played.
    pub round_repeat: u8,
    /// The seat of the hero.
    pub hero_location: Direction,
    /// The hero's hand as the round began.
    pub initial_hero_hand_state: Hand,
    /// The result of the round as player and point pairs sorted from most
    /// to least points; absent until the round concludes.
    pub result: Option<[(PlayerLocation, u32); 4]>,
    /// The dora indicator tiles of the round.
    pub dora: Vec<MahjongTile>,
    /// The ura dora indicator tiles of the round.
    pub ura_dora: Vec<MahjongTile>,
}

/// One round of a game: its metadata and its events in chronological
/// order. Events are only ever appended; nothing reorders or removes one.
#[derive(Debug, PartialEq, Eq, Clone)]
pub struct Round {
    pub round_config: RoundConfig,
    /// The events of the round in chronological order.
    pub game_events: Vec<RoundEvent>,
}

impl Round {
    /// A round with the given metadata and no events yet.
    pub fn new(round_config: RoundConfig) -> (r: Round)
        ensures
            r.round_config == round_config,
            r.game_events@ == Seq::<RoundEvent>::empty(),
    {
        Round { round_config, game_events: Vec::new() }
    }

    /// Appends one event at the end of the round's chronology. The
    /// metadata and every earlier event are unchanged, so the sequence
    /// always lists events in append order.
    pub fn append_event(&mut self, event: RoundEvent)
        ensures
            final(self).round_config == old(self).round_config,
            final(self).game_events@ == old(self).game_events@.push(event),
    {
        self.game_events.push(event);
    }
}

/// The metadata of a game of Riichi Mahjong.
#[derive(Debug, PartialEq, Eq, Clone)]
pub struct GameConfig {
    /// The number of players. Defaults to `NumPlayers::Four`.
    pub num_players: NumPlayers,
    /// The minimum number of cycles of rounds: east games last one cycle,
    /// south games two. Defaults to `Some(Length::East)`.
    pub length: Option<Length>,
    /// The seconds allowed for a play once the delay time is spent; tiles
    /// are auto-discarded when it runs out, and it is reset each round.
    /// Defaults to `Some(Seconds(20))`.
    pub main_thinking_time: Option<Seconds>,
    /// The seconds allowed before the main thinking time starts to tick,
    /// reset at each action. Defaults to `Some(Seconds(5))`.
    pub delay_thinking_time: Option<Seconds>,
    /// The number of red fives in the tile set. Defaults to
    /// `Some(RedFive::Three)`.
    pub red_five: Option<RedFive>,
    /// The name of the hero, the player whose perspective is recorded.
    /// Defaults to `"player1"`.
    pub hero: String,
    /// The name of the player to the right of the hero. Defaults to
    /// `"player2"`.
    pub right: String,
    /// The name of the player across from the hero. Defaults to
    /// `"player3"`.
    pub across: String,
    /// The name of the player to the left of the hero. Defaults to
    /// `"player4"`.
    pub left: String,
    /// The event the game took place during. Defaults to `None`.
    pub event: Option<String>,
    /// The location the game took place at. Defaults to `None`.
    pub site: Option<String>,
    /// The date the game took place. Defaults to `None`.
    pub date: Option<Timestamp>,
    /// The result of the game as player and point pairs sorted from most
    /// to least points. Defaults to `None`.
    pub result: Option<[(PlayerLocation, u32); 4]>,
}

impl Default for GameConfig {
    /// The default table: four players, an east game, twenty seconds of
    /// main and five of delay thinking time, three red fives, seats named
    /// player1 through player4, and no optional metadata.
    fn default() -> (c: GameConfig)
        ensures
            c.num_players == NumPlayers::Four,
            c.length == Some(Length::East),
            c.main_thinking_time == Some(Seconds(20)),
            c.delay_thinking_time == Some(Seconds(5)),
            c.red_five == Some(RedFive::Three),
            c.hero@ == "player1"@,
            c.right@ == "player2"@,
            c.across@ == "player3"@,
            c.left@ == "player4"@,
            c.event is None,
            c.site is None,
            c.date is None,
            c.result is None,
    {
        GameConfig {
            num_players: NumPlayers::Four,
            length: Some(Length::East),
            main_thinking_time: Some(Seconds(20)),
            delay_thinking_time: Some(Seconds(5)),
            red_five: Some(RedFive::Three),
            hero: String::from_str("player1"),
            right: String::from_str("player2"),
            across: String::from_str("player3"),
            left: String::from_str("player4"),
            event: None,
            site: None,
            date: None,
            result: None,
        }
    }
}

/// A game of Riichi Mahjong: its metadata and the rounds played, in
/// order. Rounds are only ever appended, and a round is never mutated
/// once appended.
#[derive(Debug, PartialEq, Eq, Clone)]
pub struct Game {
    pub game_config: GameConfig,
    pub rounds: Vec<Round>,
}

impl Game {
    /// A game with the given metadata and no rounds yet.
    pub fn new(game_config: GameConfig) -> (g: Game)
        ensures
            g.game_config == game_config,
            g.rounds@ == Seq::<Round>::empty(),
    {
        Game { game_config, rounds: Vec::new() }
    }

    /// Appends one completed round. The metadata and every earlier round
    /// are unchanged, so the sequence always lists rounds in the order
    /// they were played.
    pub fn append_round(&mut self, round: Round)
        ensures
            final(self).game_config == old(self).game_config,
            final(self).rounds@ == old(self).rounds@.push(round),
    {
        self.rounds.push(round);
    }
}

/// Appending never disturbs a transcript: after a push the earlier
/// entries stand unchanged at their indices and the new entry stands
/// last, so repeated appends list entries exactly in append order.
pub proof fn lemma_append_preserves_order(s: Seq<RoundEvent>, e: RoundEvent)
    ensures
        s.push(e).len() == s.len() + 1,
        s.push(e)[s.len() as int] == e,
        forall|i: int| 0 <= i < s.len() ==> s.push(e)[i] == s[i],
{
}

} // verus!

