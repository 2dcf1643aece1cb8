use mahjong::game::PlayerLocation::{self, Across, Hero, Left, Right};
use mahjong::game::{
    ChiiMeld, ChiiSourceRule, ClosedKanMeld, EventError, Game, GameConfig, Hand, Length, MeldError,
    NumPlayers, PonMeld, RedFive, Round, RoundAction, RoundConfig, RoundEvent, RoundNumber,
    Seconds,
};
use mahjong::game::{AddedOpenKanMeld, OpenKanMeld};
use mahjong::tile::MahjongTile::{Honor, Number};
use mahjong::tile::NumberTile::{Bamboo, Character, Dot};
use mahjong::tile::{DragonColor, HonorTile, MahjongTile};
use mahjong::Direction;

#[test]
fn game_config() {
    let game_config: GameConfig = Default::default();
    assert_eq!(game_config.num_players, NumPlayers::Four);
    assert_eq!(game_config.length, Some(Length::East));
    assert_eq!(game_config.main_thinking_time, Some(Seconds(20)));
    assert_eq!(game_config.delay_thinking_time, Some(Seconds(5)));
    assert_eq!(game_config.red_five, Some(RedFive::Three));
    assert_eq!(game_config.hero, "player1");
    assert_eq!(game_config.right, "player2");
    assert_eq!(game_config.across, "player3");
    assert_eq!(game_config.left, "player4");
    assert!(game_config.event.is_none());
    assert!(game_config.site.is_none());
    assert!(game_config.date.is_none());
}

#[test]
fn closed_kan_meld() {
    let character_5 = Number(Character(5));
    let character_5_closed_kan_meld = ClosedKanMeld { tile: character_5 };
    assert_eq!(character_5_closed_kan_meld.encode(), "--0m5m--")
}

#[test]
fn closed_kan_meld_notation() {
    let red_5 = ClosedKanMeld { tile: Number(Dot(0)) };
    assert_eq!(red_5.encode(), "--0p5p--");
    let bamboo_3 = ClosedKanMeld { tile: Number(Bamboo(3)) };
    assert_eq!(bamboo_3.encode(), "--3s3s--");
    let west = ClosedKanMeld { tile: Honor(HonorTile::Wind(Direction::West)) };
    assert_eq!(west.encode(), "--3z3z--");
}

#[test]
fn move_relative_from_hero() {
    let player = Hero;
    assert_eq!(player.move_relative(&Hero), Hero);
    assert_eq!(player.move_relative(&Left), Left);
    assert_eq!(player.move_relative(&Right), Right);
    assert_eq!(player.move_relative(&Across), Across);
}

#[test]
fn move_relative_from_left() {
    let player = Left;
    assert_eq!(player.move_relative(&Hero), Left);
    assert_eq!(player.move_relative(&Left), Across);
    assert_eq!(player.move_relative(&Right), Hero);
    assert_eq!(player.move_relative(&Across), Right);
}

#[test]
fn move_relative_from_right() {
    let player = Right;
    assert_eq!(player.move_relative(&Hero), Right);
    assert_eq!(player.move_relative(&Left), Hero);
    assert_eq!(player.move_relative(&Right), Across);
    assert_eq!(player.move_relative(&Across), Left);
}

#[test]
fn move_relative_from_across() {
    let player = Across;
    assert_eq!(player.move_relative(&Hero), Across);
    assert_eq!(player.move_relative(&Left), Right);
    assert_eq!(player.move_relative(&Right), Left);
    assert_eq!(player.move_relative(&Across), Hero);
}

#[test]
fn combine_group_laws_concrete() {
    let seats = [Hero, Right, Across, Left];
    for a in seats {
        assert_eq!(a.move_relative(&Hero), a);
        assert_eq!(Hero.move_relative(&a), a);
        for b in seats {
            assert_eq!(a.move_relative(&b), b.move_relative(&a));
            for c in seats {
                assert_eq!(
                    a.move_relative(&b).move_relative(&c),
                    a.move_relative(&b.move_relative(&c))
                );
            }
        }
    }
}

#[test]
fn chii_accepts_sequence() {
    let tiles = [Number(Character(3)), Number(Character(4)), Number(Character(5))];
    let meld = ChiiMeld::new(
        tiles,
        Number(Character(4)),
        Left,
        Hero,
        ChiiSourceRule::LeftOnly,
    )
    .expect("a consecutive chii from the left seat is valid");
    assert_eq!(meld.tiles, tiles);
    assert_eq!(meld.chii_tile, Number(Character(4)));
    assert_eq!(meld.source, Left);
}

#[test]
fn chii_accepts_red_five() {
    let tiles = [Number(Dot(0)), Number(Dot(4)), Number(Dot(6))];
    let meld = ChiiMeld::new(tiles, Number(Dot(0)), Left, Hero, ChiiSourceRule::LeftOnly);
    assert!(meld.is_ok(), "the red five plays as a five in a sequence");
}

#[test]
fn chii_rejects_non_consecutive() {
    let tiles = [Number(Character(3)), Number(Character(4)), Number(Character(6))];
    let meld = ChiiMeld::new(
        tiles,
        Number(Character(4)),
        Left,
        Hero,
        ChiiSourceRule::LeftOnly,
    );
    assert_eq!(meld, Err(MeldError::NotASequence));
}

#[test]
fn chii_rejects_mixed_suit_and_honors() {
    let mixed = [Number(Character(3)), Number(Dot(4)), Number(Character(5))];
    assert_eq!(
        ChiiMeld::new(mixed, Number(Dot(4)), Left, Hero, ChiiSourceRule::LeftOnly),
        Err(MeldError::NotASequence)
    );
    let honors = [
        Honor(HonorTile::Wind(Direction::East)),
        Honor(HonorTile::Wind(Direction::South)),
        Honor(HonorTile::Wind(Direction::West)),
    ];
    assert_eq!(
        ChiiMeld::new(
            honors,
            Honor(HonorTile::Wind(Direction::East)),
            Left,
            Hero,
            ChiiSourceRule::LeftOnly
        ),
        Err(MeldError::NotASequence)
    );
}

#[test]
fn chii_rejects_absent_consumed_tile() {
    let tiles = [Number(Character(3)), Number(Character(4)), Number(Character(5))];
    assert_eq!(
        ChiiMeld::new(
            tiles,
            Number(Character(6)),
            Left,
            Hero,
            ChiiSourceRule::LeftOnly
        ),
        Err(MeldError::ConsumedTileMissing)
    );
}

#[test]
fn chii_source_rules() {
    let tiles = [Number(Character(3)), Number(Character(4)), Number(Character(5))];
    let chii_tile = Number(Character(4));
    assert_eq!(
        ChiiMeld::new(tiles, chii_tile, Right, Hero, ChiiSourceRule::LeftOnly),
        Err(MeldError::InvalidSource)
    );
    assert!(ChiiMeld::new(tiles, chii_tile, Right, Hero, ChiiSourceRule::AnyOther).is_ok());
    assert_eq!(
        ChiiMeld::new(tiles, chii_tile, Hero, Hero, ChiiSourceRule::AnyOther),
        Err(MeldError::InvalidSource)
    );
    let left_of_across = Across.move_relative(&Left);
    assert!(
        ChiiMeld::new(tiles, chii_tile, left_of_across, Across, ChiiSourceRule::LeftOnly).is_ok()
    );
}

#[test]
fn pon_rejects_self_source() {
    let tile = Number(Character(7));
    assert_eq!(
        PonMeld::new(tile, Hero, Hero),
        Err(MeldError::InvalidSource)
    );
    let meld = PonMeld::new(tile, Across, Hero).expect("a pon from another seat is valid");
    assert_eq!(meld.tile, tile);
    assert_eq!(meld.source, Across);
}

#[test]
fn open_kan_sources() {
    let tile = Number(Bamboo(2));
    assert_eq!(
        OpenKanMeld::new(tile, Left, Left),
        Err(MeldError::InvalidSource)
    );
    let meld = OpenKanMeld::new(tile, Left, Hero).expect("an open kan from another seat is valid");
    assert_eq!(meld.tile, tile);
    assert_eq!(meld.source, Left);
}

#[test]
fn added_open_kan_sources() {
    let tile = Honor(HonorTile::Dragon(DragonColor::Green));
    assert_eq!(
        AddedOpenKanMeld::new(tile, Right, Right),
        Err(MeldError::InvalidSource)
    );
    let meld = AddedOpenKanMeld::new(tile, Right, Across)
        .expect("an added open kan sourced from another seat is valid");
    assert_eq!(meld.tile, tile);
    assert_eq!(meld.source, Right);
}

fn empty_hand() -> Hand {
    Hand { hand: vec![], melds: vec![] }
}

#[test]
fn event_target_pairing() {
    let pon = PonMeld::new(Number(Character(1)), Right, Hero).unwrap();
    assert_eq!(
        RoundEvent::new(Hero, RoundAction::Pon(pon.clone()), None),
        Err(EventError::MissingTarget)
    );
    let event = RoundEvent::new(Hero, RoundAction::Pon(pon), Some(Right))
        .expect("a pon naming its target is well formed");
    assert_eq!(event.subject, Hero);
    assert_eq!(event.target, Some(Right));

    assert_eq!(
        RoundEvent::new(Hero, RoundAction::Richii, Some(Left)),
        Err(EventError::UnexpectedTarget)
    );
    assert!(RoundEvent::new(Hero, RoundAction::Richii, None).is_ok());
    assert!(RoundEvent::new(Left, RoundAction::Draw(None), None).is_ok());
    assert_eq!(
        RoundEvent::new(Left, RoundAction::Draw(None), Some(Hero)),
        Err(EventError::UnexpectedTarget)
    );
    assert_eq!(
        RoundEvent::new(Hero, RoundAction::Ron(empty_hand()), None),
        Err(EventError::MissingTarget)
    );
    assert!(RoundEvent::new(Hero, RoundAction::Tsumo(empty_hand()), None).is_ok());
}

#[test]
fn exhaustive_reveals_each_seat_once() {
    let revealed = vec![(Hero, empty_hand()), (Across, empty_hand())];
    let event = RoundEvent::new(Hero, RoundAction::Exhaustive(revealed), None)
        .expect("distinct revealing seats are well formed");
    assert_eq!(event.target, None);

    let duplicated = vec![(Hero, empty_hand()), (Hero, empty_hand())];
    assert_eq!(
        RoundEvent::new(Hero, RoundAction::Exhaustive(duplicated), None),
        Err(EventError::DuplicateSeat)
    );

    let targeted = vec![(Left, empty_hand())];
    assert_eq!(
        RoundEvent::new(Hero, RoundAction::Exhaustive(targeted), Some(Left)),
        Err(EventError::UnexpectedTarget)
    );

    assert!(RoundEvent::new(Hero, RoundAction::Exhaustive(vec![]), None).is_ok());
}

fn sample_round_config() -> RoundConfig {
    RoundConfig {
        round_wind: Direction::East,
        round_number: RoundNumber::One,
        round_repeat: 0,
        hero_location: Direction::East,
        initial_hero_hand_state: empty_hand(),
        result: None,
        dora: vec![Number(Character(9))],
        ura_dora: vec![],
    }
}

fn sample_events() -> Vec<RoundEvent> {
    let draw = RoundEvent::new(Hero, RoundAction::Draw(Some(Number(Dot(2)))), None).unwrap();
    let discard = RoundEvent::new(Hero, RoundAction::Discard(Number(Dot(2))), None).unwrap();
    let ron = RoundEvent::new(Right, RoundAction::Ron(empty_hand()), Some(Hero)).unwrap();
    vec![draw, discard, ron]
}

#[test]
fn append_events_keep_order() {
    let events = sample_events();
    let mut round = Round::new(sample_round_config());
    assert!(round.game_events.is_empty());
    for event in events.clone() {
        round.append_event(event);
    }
    assert_eq!(round.game_events, events);
    assert_eq!(round.round_config, sample_round_config());

    let extra = RoundEvent::new(Left, RoundAction::Richii, None).unwrap();
    round.append_event(extra.clone());
    assert_eq!(round.game_events.len(), 4);
    assert_eq!(round.game_events[..3], events[..]);
    assert_eq!(round.game_events[3], extra);
}

#[test]
fn append_rounds_keep_order() {
    let mut game = Game::new(Default::default());
    assert!(game.rounds.is_empty());

    let mut first = Round::new(sample_round_config());
    for event in sample_events() {
        first.append_event(event);
    }
    let mut second_config = sample_round_config();
    second_config.round_number = RoundNumber::Two;
    let second = Round::new(second_config);

    game.append_round(first.clone());
    game.append_round(second.clone());
    assert_eq!(game.rounds, vec![first, second]);
    assert_eq!(game.game_config, GameConfig::default());
}

#[test]
fn seat_indices() {
    let seats: [(PlayerLocation, u8); 4] = [(Hero, 0), (Right, 1), (Across, 2), (Left, 3)];
    for (seat, expected) in seats {
        assert_eq!(seat.index(), expected);
    }
}

#[test]
fn timestamps_order() {
    let earlier = mahjong::game::Timestamp(1_000);
    let later = mahjong::game::Timestamp(2_000);
    assert!(earlier < later);
    assert_eq!(earlier, mahjong::game::Timestamp(1_000));
}

#[test]
fn tiles_as_mahjong_tile_values() {
    let red_five: MahjongTile = Number(Dot(0));
    assert!(!red_five.is_honor());
    let wind: MahjongTile = Honor(HonorTile::Wind(Direction::North));
    assert!(wind.is_honor());
}
