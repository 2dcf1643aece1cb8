//! Types for recording a completed game of Riichi Mahjong as a structured
//! transcript: the tiles, the melds and hands formed, and the chronological
//! sequence of actions each seat performed.

use vstd::prelude::*;

pub mod game;
pub mod tile;

pub use game::{
    AddedOpenKanMeld, ChiiMeld, ChiiSourceRule, ClosedKanMeld, EventError, Game, GameConfig, Hand,
    Length, Meld, MeldError, NumPlayers, OpenKanMeld, PlayerLocation, PonMeld, RedFive, Round,
    RoundAction, RoundConfig, RoundEvent, RoundNumber, Seconds, Timestamp,
};
pub use tile::{DragonColor, HonorTile, MahjongTile, NumberTile, Tile, TileError};

verus! {

/// The four directions of a Riichi Mahjong table. They categorize both wind
/// tiles and the seats of players and rounds.
#[derive(Debug, PartialEq, Eq, Structural, Clone, Copy)]
pub enum Direction {
    East,
    South,
    West,
    North,
}

} // verus!
