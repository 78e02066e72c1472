//! Entities: the state of one simulated actor, a player's character or an
//! actor that the server spawned.

use vstd::prelude::*;
use vstd::string::StringExecFns;

pub mod laws;
pub mod store;
pub mod wrapper;

pub use self::store::EntityStore;
pub use self::wrapper::{IterMutWrapper, Wrapper, WrapperIter};

use crate::data::{Player, PlayerView, Position, PositionView, Stats};
use crate::geometry::{Point, Scalar, Vector, FIVE_BITS, ONE_BITS, TEN_BITS, ZERO_BITS};
use crate::id::{successor, EntityKind, Id, MapKind, PlayerKind, Sequence};
use crate::messages::{EntityState, EntityStateView};
use crate::text::{decimal, decimal_string};

verus! {

/// Bit pattern of the speed that a player's character moves at.
pub const DEFAULT_SPEED: u32 = TEN_BITS;

/// Bit pattern of the speed that a spawned actor moves at.
pub const DEFAULT_AI_SPEED: u32 = FIVE_BITS;

/// The four ways an entity can face.
#[derive(Clone, Copy, Debug, PartialEq, Eq, Structural)]
pub enum Direction {
    North,
    South,
    East,
    West,
}

/// What an entity carries because it is a player's character.
#[derive(Debug)]
pub struct PlayerData {
    name: String,
    id: Id<PlayerKind>,
    map: Id<MapKind>,
}

/// What a [`PlayerData`] holds, as plain values.
#[verifier::ext_equal]
pub struct PlayerDataView {
    pub name: Seq<char>,
    pub id: u64,
    pub map: u64,
}

impl View for PlayerData {
    type V = PlayerDataView;

    closed spec fn view(&self) -> PlayerDataView {
        PlayerDataView { name: self.name@, id: self.id@, map: self.map@ }
    }
}

impl Clone for PlayerData {
    fn clone(&self) -> (copy: Self)
        ensures
            copy@ == self@,
    {
        PlayerData { name: self.name.clone(), id: self.id, map: self.map }
    }
}

impl PlayerData {
    /// The data of the character called `name`, of the player `id`, on the
    /// map `map`.
    pub fn new(name: String, id: Id<PlayerKind>, map: Id<MapKind>) -> (data: Self)
        ensures
            data@ == (PlayerDataView { name: name@, id: id@, map: map@ }),
    {
        PlayerData { name, id, map }
    }

    /// The player whose character this is.
    pub fn get_id(&self) -> (id: Id<PlayerKind>)
        ensures
            id@ == self@.id,
    {
        self.id
    }

    /// The character's name.
    pub fn get_name(&self) -> (name: &String)
        ensures
            name@ == self@.name,
    {
        &self.name
    }

    /// The map that the character is on.
    pub fn get_map(&self) -> (map: Id<MapKind>)
        ensures
            map@ == self@.map,
    {
        self.map
    }
}

/// The two kinds of entity.
#[derive(Debug)]
pub enum EntityType {
    /// A player's character.
    Player(PlayerData),
    /// An actor that the server spawned, with the number of the entity that
    /// spawned it, if any. The number is only remembered: nothing checks
    /// that such an entity is still alive.
    Invoked(Option<u64>),
}

/// What an [`EntityType`] holds, as plain values.
#[verifier::ext_equal]
pub enum EntityTypeView {
    Player(PlayerDataView),
    Invoked(Option<u64>),
}

impl View for EntityType {
    type V = EntityTypeView;

    open spec fn view(&self) -> EntityTypeView {
        match *self {
            EntityType::Player(data) => EntityTypeView::Player(data@),
            EntityType::Invoked(parent) => EntityTypeView::Invoked(parent),
        }
    }
}

/// The attributes that are derived from an entity's kind and raw attributes.
#[derive(Clone, Copy, Debug, PartialEq, Eq, Structural)]
pub struct CurrentStats {
    pub speed: Scalar,
}

impl Default for CurrentStats {
    fn default() -> (stats: Self)
        ensures
            stats == (CurrentStats { speed: Scalar { bits: ZERO_BITS } }),
    {
        CurrentStats { speed: Scalar { bits: ZERO_BITS } }
    }
}

/// The derived attributes of an entity of the given kind.
pub open spec fn stats_for(e_type: EntityTypeView) -> CurrentStats {
    match e_type {
        EntityTypeView::Player(_) => CurrentStats { speed: Scalar { bits: DEFAULT_SPEED } },
        EntityTypeView::Invoked(_) => CurrentStats { speed: Scalar { bits: DEFAULT_AI_SPEED } },
    }
}

/// One simulated actor.
#[derive(Debug)]
pub struct Entity {
    id: Id<EntityKind>,
    e_type: EntityType,
    position: Point,
    speed: Vector,
    orientation: Direction,
    skin: u64,
    pv: u64,
    base_stats: Stats,
    stats: CurrentStats,
    walking: bool,
    attacking: u64,
}

/// What an [`Entity`] holds, as plain values.
#[verifier::ext_equal]
pub struct EntityView {
    pub id: u64,
    pub e_type: EntityTypeView,
    pub position: Point,
    pub speed: Vector,
    pub orientation: Direction,
    pub skin: u64,
    pub pv: u64,
    pub base_stats: Stats,
    pub stats: CurrentStats,
    pub walking: bool,
    pub attacking: u64,
}

impl EntityView {
    /// Whether the derived attributes are those that the kind calls for.
    pub open spec fn consistent(self) -> bool {
        self.stats == stats_for(self.e_type)
    }
}

impl View for Entity {
    type V = EntityView;

    closed spec fn view(&self) -> EntityView {
        EntityView {
            id: self.id@,
            e_type: self.e_type@,
            position: self.position,
            speed: self.speed,
            orientation: self.orientation,
            skin: self.skin,
            pv: self.pv,
            base_stats: self.base_stats,
            stats: self.stats,
            walking: self.walking,
            attacking: self.attacking,
        }
    }
}

/// The entity that [`Entity::new`] makes of its arguments.
pub open spec fn fresh_entity(
    id: u64,
    e_type: EntityTypeView,
    position: Point,
    orientation: Direction,
    skin: u64,
    base_stats: Stats,
    pv: u64,
) -> EntityView {
    EntityView {
        id,
        e_type,
        position,
        speed: Vector { x: Scalar { bits: ZERO_BITS }, y: Scalar { bits: ZERO_BITS } },
        orientation,
        skin,
        pv,
        base_stats,
        stats: stats_for(e_type),
        walking: false,
        attacking: 0,
    }
}

/// The live entity that a persisted player becomes, under the identifier
/// `id`: it stands where the record says, faces east, and carries the
/// record's name, player, map, skin, health and raw attributes.
pub open spec fn entity_of_player(player: PlayerView, id: u64) -> EntityView {
    fresh_entity(
        id,
        EntityTypeView::Player(
            PlayerDataView { name: player.name, id: player.id, map: player.position.map },
        ),
        Point { x: player.position.x, y: player.position.y },
        Direction::East,
        player.skin,
        player.stats,
        player.current_pv,
    )
}

/// The record that is saved of a live entity: none of a spawned actor; of a
/// player's character its current place and health, with experience, gold and
/// guild blank.
pub open spec fn player_of_entity(entity: EntityView) -> Option<PlayerView> {
    match entity.e_type {
        EntityTypeView::Player(data) => Some(
            PlayerView {
                id: data.id,
                name: data.name,
                skin: entity.skin,
                current_pv: entity.pv,
                position: PositionView {
                    x: entity.position.x,
                    y: entity.position.y,
                    map: data.map,
                },
                experience: 0,
                gold: 0,
                guild: Seq::empty(),
                stats: entity.base_stats,
            },
        ),
        EntityTypeView::Invoked(_) => None,
    }
}

/// The raw attributes of the stand-in entities.
pub open spec fn fake_stats() -> Stats {
    Stats {
        level: 1,
        strength: 2,
        dexterity: 3,
        constitution: 4,
        intelligence: 5,
        precision: 6,
        wisdom: 7,
    }
}

/// The name of the stand-in character of the player `id`.
pub open spec fn fake_player_name(id: u64) -> Seq<char> {
    if id == 0 {
        "Vaelden"@
    } else if id == 1 {
        "Cendrais"@
    } else if id == 2 {
        "Nemikolh"@
    } else {
        "Player"@ + decimal(id as nat)
    }
}

/// The record of the stand-in character of the player `id`, with the skin
/// `skin`.
pub open spec fn fake_player_record(id: u64, skin: u64) -> PlayerView {
    PlayerView {
        id,
        name: fake_player_name(id),
        skin,
        current_pv: 100,
        position: PositionView {
            x: Scalar { bits: ZERO_BITS },
            y: Scalar { bits: ZERO_BITS },
            map: 1,
        },
        experience: 0,
        gold: 0,
        guild: Seq::empty(),
        stats: fake_stats(),
    }
}

/// The line of an entity's account that tells its kind.
pub open spec fn kind_line(e_type: EntityTypeView) -> Seq<char> {
    match e_type {
        EntityTypeView::Player(data) => "Player "@ + decimal(data.id as nat) + " "@ + data.name
            + " attached to map "@ + decimal(data.map as nat),
        EntityTypeView::Invoked(Some(parent)) => "Invoked entity attached to "@ + decimal(
            parent as nat,
        ),
        EntityTypeView::Invoked(None) => "Invoked entity"@,
    }
}

/// The account of an entity in four lines, each after `indent`: its
/// identifier, its kind, the line `motion`, and its health.
pub open spec fn dump_text(entity: EntityView, indent: Seq<char>, motion: Seq<char>) -> Seq<char> {
    indent + "Entity "@ + decimal(entity.id as nat) + "\n"@ + indent + kind_line(entity.e_type)
        + "\n"@ + indent + motion + "\n"@ + indent + "PV: "@ + decimal(entity.pv as nat) + "\n"@
}

impl Entity {
    /// Makes an entity at rest, with the next identifier of `ids`.
    pub fn new(
        e_type: EntityType,
        position: Point,
        orientation: Direction,
        skin: u64,
        base_stats: Stats,
        pv: u64,
        ids: &mut Sequence,
    ) -> (entity: Entity)
        ensures
            entity@ == fresh_entity(
                old(ids)@,
                e_type@,
                position,
                orientation,
                skin,
                base_stats,
                pv,
            ),
            final(ids)@ == successor(old(ids)@),
    {
        let mut e = Entity {
            id: ids.next_id(),
            e_type,
            position,
            speed: Vector::zero(),
            orientation,
            base_stats,
            stats: Default::default(),
            skin,
            pv,
            walking: false,
            attacking: 0,
        };
        e.recompute_current_stats();
        e
    }

    /// The entity's identifier.
    pub fn get_id(&self) -> (id: Id<EntityKind>)
        ensures
            id@ == self@.id,
    {
        self.id
    }

    /// Where the entity is.
    pub fn get_position(&self) -> (position: Point)
        ensures
            position == self@.position,
    {
        self.position
    }

    /// How fast the entity moves, and which way.
    pub fn get_speed(&self) -> (speed: Vector)
        ensures
            speed == self@.speed,
    {
        self.speed
    }

    /// The entity's skin.
    pub fn get_skin(&self) -> (skin: u64)
        ensures
            skin == self@.skin,
    {
        self.skin
    }

    /// The entity's health.
    pub fn get_pv(&self) -> (pv: u64)
        ensures
            pv == self@.pv,
    {
        self.pv
    }

    /// Which way the entity faces.
    pub fn get_orientation(&self) -> (orientation: Direction)
        ensures
            orientation == self@.orientation,
    {
        self.orientation
    }

    /// The entity's kind.
    pub fn get_type(&self) -> (e_type: &EntityType)
        ensures
            e_type@ == self@.e_type,
    {
        &self.e_type
    }

    /// The entity's derived attributes.
    pub fn get_stats(&self) -> (stats: CurrentStats)
        ensures
            stats == self@.stats,
    {
        self.stats
    }

    /// The entity's raw attributes.
    pub fn get_base_stats(&self) -> (stats: Stats)
        ensures
            stats == self@.base_stats,
    {
        self.base_stats
    }

    /// Whether the entity is walking.
    pub fn is_walking(&self) -> (walking: bool)
        ensures
            walking == self@.walking,
    {
        self.walking
    }

    /// Derives the attributes anew from the entity's kind; the rest of the
    /// entity stays as it is.
    pub fn recompute_current_stats(&mut self)
        ensures
            final(self)@ == (EntityView { stats: stats_for(old(self)@.e_type), ..old(self)@ }),
            final(self)@.consistent(),
    {
        let speed = match self.e_type {
            EntityType::Player(_) => DEFAULT_SPEED,
            EntityType::Invoked(_) => DEFAULT_AI_SPEED,
        };
        self.stats.speed = Scalar::from_bits(speed);
    }

    /// Starts the entity walking towards `orientation`, or stops it where
    /// none is given; a stop leaves it facing the way it did.
    pub fn walk(&mut self, orientation: Option<Direction>)
        ensures
            final(self)@ == (match orientation {
                Some(o) => EntityView { walking: true, orientation: o, ..old(self)@ },
                None => EntityView { walking: false, ..old(self)@ },
            }),
    {
        match orientation {
            Some(o) => {
                self.walking = true;
                self.orientation = o;
            },
            None => {
                self.walking = false;
            },
        }
    }

    /// The report on the entity for clients.
    pub fn to_entity_state(&self) -> (state: EntityState)
        ensures
            state@ == (EntityStateView {
                entity: self@.id,
                position: self@.position,
                orientation: self@.orientation,
            }),
    {
        EntityState::new(self.id, self.position, self.orientation)
    }

    /// A stand-in character for the player `id`: level-one attributes, full
    /// health, at the origin of map 1, with the next skin of `skins` and the
    /// next identifier of `ids`. The first three players have names of their
    /// own; the others are called `Player` followed by their number.
    pub fn fake_player(id: Id<PlayerKind>, ids: &mut Sequence, skins: &mut Sequence) -> (entity:
        Entity)
        ensures
            entity@ == entity_of_player(fake_player_record(id@, old(skins)@), old(ids)@),
            final(ids)@ == successor(old(ids)@),
            final(skins)@ == successor(old(skins)@),
    {
        let stats = Stats {
            level: 1,
            strength: 2,
            dexterity: 3,
            constitution: 4,
            intelligence: 5,
            precision: 6,
            wisdom: 7,
        };
        let position = Position {
            x: Scalar::from_bits(ZERO_BITS),
            y: Scalar::from_bits(ZERO_BITS),
            map: Id::forge(1),
        };
        let number = id.as_u64();
        let name = if number == 0 {
            String::from_str("Vaelden")
        } else if number == 1 {
            String::from_str("Cendrais")
        } else if number == 2 {
            String::from_str("Nemikolh")
        } else {
            String::from_str("Player").concat(decimal_string(number).as_str())
        };
        let skin = skins.next();
        let player = Player {
            id,
            name,
            skin,
            current_pv: 100,
            position,
            experience: 0,
            gold: 0,
            guild: String::new(),
            stats,
        };
        assert(player@ =~= fake_player_record(id@, old(skins)@));
        Entity::from(player, ids)
    }

    /// A stand-in spawned actor: level-one attributes, full health, at the
    /// place (1, 1), facing south, without a parent, with the next skin of
    /// `skins` and the next identifier of `ids`.
    pub fn fake_ai(ids: &mut Sequence, skins: &mut Sequence) -> (entity: Entity)
        ensures
            entity@ == fresh_entity(
                old(ids)@,
                EntityTypeView::Invoked(None),
                Point { x: Scalar { bits: ONE_BITS }, y: Scalar { bits: ONE_BITS } },
                Direction::South,
                old(skins)@,
                fake_stats(),
                100,
            ),
            final(ids)@ == successor(old(ids)@),
            final(skins)@ == successor(old(skins)@),
    {
        let stats = Stats {
            level: 1,
            strength: 2,
            dexterity: 3,
            constitution: 4,
            intelligence: 5,
            precision: 6,
            wisdom: 7,
        };
        let skin = skins.next();
        Entity::new(
            EntityType::Invoked(None),
            Point::new(Scalar::from_bits(ONE_BITS), Scalar::from_bits(ONE_BITS)),
            Direction::South,
            skin,
            stats,
            100,
            ids,
        )
    }

    /// Brings a persisted player to life, with the next identifier of `ids`.
    pub fn from(player: Player, ids: &mut Sequence) -> (entity: Entity)
        ensures
            entity@ == entity_of_player(player@, old(ids)@),
            final(ids)@ == successor(old(ids)@),
    {
        let mut entity = Entity::new(
            EntityType::Player(
                PlayerData { name: player.name, id: player.id, map: player.position.map },
            ),
            Point::new(player.position.x, player.position.y),
            Direction::East,
            player.skin,
            player.stats,
            player.current_pv,
            ids,
        );
        entity.recompute_current_stats();
        entity
    }

    /// Turns the entity back into the record to save: none for a spawned
    /// actor, which is simply let go.
    pub fn into(self) -> (saved: Option<Player>)
        ensures
            match player_of_entity(self@) {
                Some(record) => saved matches Some(player) && player@ == record,
                None => saved is None,
            },
    {
        let player_data = match self.e_type {
            EntityType::Player(player) => player,
            _ => return None,
        };
        let position = Position {
            x: self.position.x,
            y: self.position.y,
            map: player_data.map,
        };
        let player = Player {
            id: player_data.id,
            name: player_data.name,
            skin: self.skin,
            current_pv: self.pv,
            position,
            experience: 0,
            gold: 0,
            guild: String::new(),
            stats: self.base_stats,
        };
        assert(player@ =~= player_of_entity(self@)->0);
        Some(player)
    }

    /// A human-readable account of the entity, four lines that each begin
    /// with `indent`. The third line is `motion`: it tells place, speed and
    /// direction, and the caller words it, since the library holds
    /// coordinates only as bit patterns.
    pub fn dump(&self, indent: &str, motion: &str) -> (text: String)
        ensures
            text@ == dump_text(self@, indent@, motion@),
    {
        let kind = match self.e_type {
            EntityType::Player(ref player) => String::from_str("Player ").concat(
                decimal_string(player.id.as_u64()).as_str(),
            ).concat(" ").concat(player.name.as_str()).concat(" attached to map ").concat(
                decimal_string(player.map.as_u64()).as_str(),
            ),
            EntityType::Invoked(ref parent) => match *parent {
                Some(parent) => String::from_str("Invoked entity attached to ").concat(
                    decimal_string(parent).as_str(),
                ),
                None => String::from_str("Invoked entity"),
            },
        };
        String::from_str(indent).concat("Entity ").concat(
            decimal_string(self.id.as_u64()).as_str(),
        ).concat("\n").concat(indent).concat(kind.as_str()).concat("\n").concat(indent).concat(
            motion,
        ).concat("\n").concat(indent).concat("PV: ").concat(
            decimal_string(self.pv).as_str(),
        ).concat("\n")
    }

    /// The map that a player's character is on; none for a spawned actor.
    pub fn get_map_position(&self) -> (map: Option<Id<MapKind>>)
        ensures
            match self@.e_type {
                EntityTypeView::Player(data) => map matches Some(m) && m@ == data.map,
                EntityTypeView::Invoked(_) => map is None,
            },
    {
        match self.e_type {
            EntityType::Player(ref player) => Some(player.map),
            _ => None,
        }
    }
}

} // verus!
