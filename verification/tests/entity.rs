use lycan::data::{Player, Position, Stats};
use lycan::entity::{CurrentStats, Direction, Entity, EntityType, PlayerData};
use lycan::geometry::{Point, Scalar, Vector};
use lycan::id::{Id, MapKind, PlayerKind, Sequence, WeakId};
use lycan::text::decimal_string;

fn scalar(value: f32) -> Scalar {
    Scalar::from_bits(value.to_bits())
}

fn number(scalar: Scalar) -> f32 {
    f32::from_bits(scalar.to_bits())
}

fn stats() -> Stats {
    Stats {
        level: 9,
        strength: 8,
        dexterity: 7,
        constitution: 6,
        intelligence: 5,
        precision: 4,
        wisdom: 3,
    }
}

fn record() -> Player {
    Player {
        id: Id::forge(42),
        name: "Aldric".to_string(),
        skin: 17,
        current_pv: 63,
        position: Position { x: scalar(2.5), y: scalar(-7.25), map: Id::forge(4) },
        experience: 1200,
        gold: 35,
        guild: "Wardens".to_string(),
        stats: stats(),
    }
}

#[test]
fn scalar_keeps_its_bits() {
    assert_eq!(Scalar::from_bits(0x4120_0000).to_bits(), 0x4120_0000);
    assert_eq!(number(Scalar::from_bits(lycan::geometry::TEN_BITS)), 10.0);
    assert_eq!(number(Scalar::from_bits(lycan::geometry::FIVE_BITS)), 5.0);
    assert_eq!(number(Scalar::from_bits(lycan::geometry::ONE_BITS)), 1.0);
    assert_eq!(number(Scalar::from_bits(lycan::geometry::ZERO_BITS)), 0.0);
    assert_eq!(Vector::zero(), Vector::new(scalar(0.0), scalar(0.0)));
    assert_eq!(Point::new(scalar(1.0), scalar(2.0)).y, scalar(2.0));
}

#[test]
fn identifiers_compare_by_number() {
    let a: Id<PlayerKind> = Id::forge(5);
    let b: Id<PlayerKind> = Id::forge(5);
    let c: Id<PlayerKind> = Id::forge(6);
    assert!(a == b);
    assert!(a != c);
    assert_eq!(a.as_u64(), 5);
    let map: Id<MapKind> = Id::forge(u64::MAX);
    assert_eq!(map.as_u64(), u64::MAX);
    let weak: WeakId<PlayerKind> = WeakId::of(a);
    assert!(weak == WeakId::new(5));
    assert!(weak != WeakId::new(6));
    assert_eq!(weak.as_u64(), 5);
}

#[test]
fn sequence_counts_up_from_its_start() {
    let mut sequence = Sequence::new();
    assert_eq!(sequence.next(), 0);
    assert_eq!(sequence.next(), 1);
    assert_eq!(sequence.next(), 2);
    let mut later = Sequence::starting_at(40);
    let id: Id<PlayerKind> = later.next_id();
    assert_eq!(id.as_u64(), 40);
    assert_eq!(later.next(), 41);
}

#[test]
fn sequence_starts_over_after_the_largest_number() {
    let mut sequence = Sequence::starting_at(u64::MAX);
    assert_eq!(sequence.next(), u64::MAX);
    assert_eq!(sequence.next(), 0);
    assert_eq!(sequence.next(), 1);
}

#[test]
fn decimal_numerals() {
    assert_eq!(decimal_string(0), "0");
    assert_eq!(decimal_string(7), "7");
    assert_eq!(decimal_string(10), "10");
    assert_eq!(decimal_string(1234567890), "1234567890");
    assert_eq!(decimal_string(u64::MAX), "18446744073709551615");
}

#[test]
fn new_entity_is_at_rest_with_the_next_identifier() {
    let mut ids = Sequence::starting_at(11);
    let entity = Entity::new(
        EntityType::Invoked(Some(3)),
        Point::new(scalar(4.0), scalar(-1.5)),
        Direction::West,
        21,
        stats(),
        77,
        &mut ids,
    );
    assert_eq!(entity.get_id().as_u64(), 11);
    assert_eq!(ids.next(), 12);
    assert_eq!(number(entity.get_position().x), 4.0);
    assert_eq!(number(entity.get_position().y), -1.5);
    assert_eq!(entity.get_orientation(), Direction::West);
    assert_eq!(entity.get_skin(), 21);
    assert_eq!(entity.get_pv(), 77);
    assert_eq!(entity.get_base_stats(), stats());
    assert!(!entity.is_walking());
    assert!(matches!(entity.get_type(), EntityType::Invoked(Some(3))));
    assert!(entity.get_map_position().is_none());
}

#[test]
fn a_spawned_actor_moves_at_half_a_players_speed() {
    let mut ids = Sequence::new();
    let actor = Entity::new(
        EntityType::Invoked(None),
        Point::new(scalar(0.0), scalar(0.0)),
        Direction::North,
        0,
        stats(),
        1,
        &mut ids,
    );
    assert_eq!(number(actor.get_stats().speed), 5.0);
    let character = Entity::from(record(), &mut ids);
    assert_eq!(number(character.get_stats().speed), 10.0);
    assert_eq!(character.get_stats(), CurrentStats { speed: scalar(10.0) });
}

#[test]
fn default_stats_have_no_speed() {
    let stats: CurrentStats = Default::default();
    assert_eq!(number(stats.speed), 0.0);
}

#[test]
fn recomputing_changes_nothing_that_is_up_to_date() {
    let mut ids = Sequence::new();
    let mut entity = Entity::from(record(), &mut ids);
    entity.walk(Some(Direction::South));
    entity.recompute_current_stats();
    assert_eq!(number(entity.get_stats().speed), 10.0);
    assert_eq!(entity.get_orientation(), Direction::South);
    assert!(entity.is_walking());
    assert_eq!(entity.get_pv(), 63);
    assert_eq!(entity.get_skin(), 17);
}

#[test]
fn walk_sets_direction_and_stop_keeps_it() {
    let mut ids = Sequence::new();
    let mut skins = Sequence::new();
    let mut entity = Entity::fake_ai(&mut ids, &mut skins);
    assert_eq!(entity.get_orientation(), Direction::South);
    assert!(!entity.is_walking());
    entity.walk(Some(Direction::North));
    assert!(entity.is_walking());
    assert_eq!(entity.get_orientation(), Direction::North);
    entity.walk(None);
    assert!(!entity.is_walking());
    assert_eq!(entity.get_orientation(), Direction::North);
    entity.walk(Some(Direction::East));
    entity.walk(Some(Direction::West));
    assert!(entity.is_walking());
    assert_eq!(entity.get_orientation(), Direction::West);
}

#[test]
fn fake_players_have_their_names() {
    let mut ids = Sequence::new();
    let mut skins = Sequence::new();
    let names = ["Vaelden", "Cendrais", "Nemikolh", "Player3", "Player4"];
    for (number, expected) in names.iter().enumerate() {
        let entity = Entity::fake_player(Id::forge(number as u64), &mut ids, &mut skins);
        match entity.get_type() {
            EntityType::Player(data) => {
                assert_eq!(data.get_name(), expected);
                assert_eq!(data.get_id().as_u64(), number as u64);
                assert_eq!(data.get_map().as_u64(), 1);
            }
            EntityType::Invoked(_) => panic!("a stand-in player is a player"),
        }
        assert_eq!(entity.get_skin(), number as u64);
        assert_eq!(entity.get_id().as_u64(), number as u64);
    }
    let last = Entity::fake_player(Id::forge(u64::MAX), &mut ids, &mut skins);
    match last.get_type() {
        EntityType::Player(data) => assert_eq!(data.get_name(), "Player18446744073709551615"),
        EntityType::Invoked(_) => panic!("a stand-in player is a player"),
    }
}

#[test]
fn fake_player_has_the_stand_in_record() {
    let mut ids = Sequence::starting_at(100);
    let mut skins = Sequence::starting_at(8);
    let entity = Entity::fake_player(Id::forge(1), &mut ids, &mut skins);
    assert_eq!(entity.get_id().as_u64(), 100);
    assert_eq!(entity.get_skin(), 8);
    assert_eq!(entity.get_pv(), 100);
    assert_eq!(number(entity.get_position().x), 0.0);
    assert_eq!(number(entity.get_position().y), 0.0);
    assert_eq!(entity.get_orientation(), Direction::East);
    assert_eq!(entity.get_map_position().map(|map| map.as_u64()), Some(1));
    let base = entity.get_base_stats();
    assert_eq!(
        (
            base.level,
            base.strength,
            base.dexterity,
            base.constitution,
            base.intelligence,
            base.precision,
            base.wisdom
        ),
        (1, 2, 3, 4, 5, 6, 7)
    );
    assert_eq!(ids.next(), 101);
    assert_eq!(skins.next(), 9);
}

#[test]
fn fake_ai_stands_at_one_one_facing_south() {
    let mut ids = Sequence::starting_at(3);
    let mut skins = Sequence::starting_at(5);
    let entity = Entity::fake_ai(&mut ids, &mut skins);
    assert_eq!(entity.get_id().as_u64(), 3);
    assert_eq!(entity.get_skin(), 5);
    assert_eq!(entity.get_pv(), 100);
    assert_eq!(number(entity.get_position().x), 1.0);
    assert_eq!(number(entity.get_position().y), 1.0);
    assert_eq!(entity.get_orientation(), Direction::South);
    assert!(matches!(entity.get_type(), EntityType::Invoked(None)));
    assert_eq!(number(entity.get_stats().speed), 5.0);
    assert_eq!(entity.get_base_stats().wisdom, 7);
    let second = Entity::fake_ai(&mut ids, &mut skins);
    assert_eq!(second.get_id().as_u64(), 4);
    assert_eq!(second.get_skin(), 6);
}

#[test]
fn entity_state_reports_identifier_place_and_direction() {
    let mut ids = Sequence::starting_at(9);
    let mut entity = Entity::from(record(), &mut ids);
    entity.walk(Some(Direction::North));
    let state = entity.to_entity_state();
    assert_eq!(state.get_id().as_u64(), 9);
    assert_eq!(number(state.get_position().x), 2.5);
    assert_eq!(number(state.get_position().y), -7.25);
    assert_eq!(state.get_orientation(), Direction::North);
}

#[test]
fn map_position_is_the_players_map() {
    let mut ids = Sequence::new();
    let entity = Entity::from(record(), &mut ids);
    assert_eq!(entity.get_map_position().map(|map| map.as_u64()), Some(4));
}

#[test]
fn player_data_hands_out_what_it_was_made_of() {
    let data = PlayerData::new("Mira".to_string(), Id::forge(12), Id::forge(3));
    assert_eq!(data.get_name(), "Mira");
    assert_eq!(data.get_id().as_u64(), 12);
    assert_eq!(data.get_map().as_u64(), 3);
    let copy = data.clone();
    assert_eq!(copy.get_name(), "Mira");
    assert_eq!(copy.get_id().as_u64(), 12);
    assert_eq!(copy.get_map().as_u64(), 3);
}

#[test]
fn player_comes_to_life_facing_east() {
    let mut ids = Sequence::starting_at(70);
    let entity = Entity::from(record(), &mut ids);
    assert_eq!(entity.get_id().as_u64(), 70);
    assert_eq!(entity.get_orientation(), Direction::East);
    assert_eq!(entity.get_skin(), 17);
    assert_eq!(entity.get_pv(), 63);
    assert_eq!(number(entity.get_position().x), 2.5);
    assert_eq!(number(entity.get_position().y), -7.25);
    assert_eq!(entity.get_base_stats(), stats());
    assert!(!entity.is_walking());
    match entity.get_type() {
        EntityType::Player(data) => {
            assert_eq!(data.get_name(), "Aldric");
            assert_eq!(data.get_id().as_u64(), 42);
            assert_eq!(data.get_map().as_u64(), 4);
        }
        EntityType::Invoked(_) => panic!("a player's record makes a player"),
    }
}

#[test]
fn round_trip_keeps_the_record() {
    let mut ids = Sequence::new();
    let saved = Entity::from(record(), &mut ids).into().expect("a player is saved");
    assert_eq!(saved.id.as_u64(), 42);
    assert_eq!(saved.name, "Aldric");
    assert_eq!(saved.skin, 17);
    assert_eq!(saved.position.map.as_u64(), 4);
    assert_eq!(saved.stats, stats());
    assert_eq!(number(saved.position.x), 2.5);
    assert_eq!(number(saved.position.y), -7.25);
    assert_eq!(saved.current_pv, 63);
}

#[test]
fn saving_blanks_experience_gold_and_guild() {
    let mut ids = Sequence::new();
    let saved = Entity::from(record(), &mut ids).into().expect("a player is saved");
    assert_eq!(saved.experience, 0);
    assert_eq!(saved.gold, 0);
    assert_eq!(saved.guild, "");
}

#[test]
fn a_spawned_actor_is_not_saved() {
    let mut ids = Sequence::new();
    let mut skins = Sequence::new();
    assert!(Entity::fake_ai(&mut ids, &mut skins).into().is_none());
    let with_parent = Entity::new(
        EntityType::Invoked(Some(1)),
        Point::new(scalar(0.0), scalar(0.0)),
        Direction::North,
        0,
        stats(),
        10,
        &mut ids,
    );
    assert!(with_parent.into().is_none());
}

#[test]
fn dump_of_a_player() {
    let mut ids = Sequence::starting_at(70);
    let entity = Entity::from(record(), &mut ids);
    assert_eq!(
        entity.dump("  ", "[2.5, -7.25] [0, 0] East"),
        "  Entity 70\n  Player 42 Aldric attached to map 4\n  [2.5, -7.25] [0, 0] East\n  PV: 63\n"
    );
}

#[test]
fn dump_of_a_spawned_actor() {
    let mut ids = Sequence::starting_at(5);
    let mut skins = Sequence::new();
    let orphan = Entity::fake_ai(&mut ids, &mut skins);
    assert_eq!(orphan.dump("", "here"), "Entity 5\nInvoked entity\nhere\nPV: 100\n");
    let child = Entity::new(
        EntityType::Invoked(Some(5)),
        Point::new(scalar(0.0), scalar(0.0)),
        Direction::North,
        0,
        stats(),
        8,
        &mut ids,
    );
    assert_eq!(
        child.dump("> ", ""),
        "> Entity 6\n> Invoked entity attached to 5\n> \n> PV: 8\n"
    );
}

#[test]
fn speed_is_zero_at_rest() {
    let mut ids = Sequence::new();
    let mut skins = Sequence::new();
    let entity = Entity::fake_ai(&mut ids, &mut skins);
    assert_eq!(entity.get_speed(), Vector::zero());
    assert_eq!(number(entity.get_speed().x), 0.0);
    assert_eq!(number(entity.get_speed().y), 0.0);
}
