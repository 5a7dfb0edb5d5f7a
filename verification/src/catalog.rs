use vstd::prelude::*;

verus! {

/// The broad class of a simulated object.
#[derive(Clone, Copy, PartialEq, Eq, Structural, Debug)]
pub enum EntityKind {
    Boat,
    Weapon,
    Collectible,
}

/// The narrower class, which decides firing rules and launch deviation.
#[derive(Clone, Copy, PartialEq, Eq, Structural, Debug)]
pub enum EntitySubKind {
    Hull,
    Shell,
    Sam,
    Rocket,
    Torpedo,
    Depositor,
    Pickup,
}

/// The closed catalog of entity types, with static per-type data given by
/// the functions below.
#[derive(Clone, Copy, PartialEq, Eq, Structural, Debug)]
pub enum EntityType {
    Gunboat,
    Destroyer,
    Shell,
    Sam,
    Rocket,
    Torpedo,
    Depositor,
    Coin,
}

/// A weapon slot of a boat: what it launches, an optional turret mount,
/// and whether it launches vertically.
#[derive(Clone, Copy, Debug)]
pub struct Armament {
    pub entity_type: EntityType,
    pub turret: Option<usize>,
    pub vertical: bool,
}

/// A rotatable mount with azimuth limits around a center angle.
#[derive(Clone, Copy, Debug)]
pub struct Turret {
    pub default_angle: u16,
    pub azimuth_center: u16,
    pub azimuth_half: u16,
}

pub open spec fn kind_of(t: EntityType) -> EntityKind {
    match t {
        EntityType::Gunboat => EntityKind::Boat,
        EntityType::Destroyer => EntityKind::Boat,
        EntityType::Coin => EntityKind::Collectible,
        _ => EntityKind::Weapon,
    }
}

pub open spec fn sub_kind_of(t: EntityType) -> EntitySubKind {
    match t {
        EntityType::Gunboat => EntitySubKind::Hull,
        EntityType::Destroyer => EntitySubKind::Hull,
        EntityType::Shell => EntitySubKind::Shell,
        EntityType::Sam => EntitySubKind::Sam,
        EntityType::Rocket => EntitySubKind::Rocket,
        EntityType::Torpedo => EntitySubKind::Torpedo,
        EntityType::Depositor => EntitySubKind::Depositor,
        EntityType::Coin => EntitySubKind::Pickup,
    }
}

/// Collision radius in world units.
pub open spec fn radius_of(t: EntityType) -> int {
    match t {
        EntityType::Gunboat => 50,
        EntityType::Destroyer => 60,
        EntityType::Shell => 1,
        EntityType::Sam => 2,
        EntityType::Rocket => 2,
        EntityType::Torpedo => 2,
        EntityType::Depositor => 1,
        EntityType::Coin => 10,
    }
}

/// Rated speed in world units per tick.
pub open spec fn speed_of(t: EntityType) -> int {
    match t {
        EntityType::Gunboat => 30,
        EntityType::Destroyer => 35,
        EntityType::Shell => 1000,
        EntityType::Sam => 900,
        EntityType::Rocket => 800,
        EntityType::Torpedo => 500,
        EntityType::Depositor => 0,
        EntityType::Coin => 0,
    }
}

/// Maximum sensor range in world units.
pub open spec fn sensor_range_of(t: EntityType) -> int {
    match t {
        EntityType::Gunboat => 1500,
        EntityType::Destroyer => 2000,
        _ => 0,
    }
}

/// Reload time, in ticks, of the armament that launches this type.
pub open spec fn reload_of(t: EntityType) -> int {
    match t {
        EntityType::Shell => 10,
        EntityType::Sam => 50,
        EntityType::Rocket => 30,
        EntityType::Torpedo => 40,
        EntityType::Depositor => 20,
        _ => 0,
    }
}

/// Boat progression level; zero for non-boats.
pub open spec fn level_of(t: EntityType) -> int {
    match t {
        EntityType::Gunboat => 1,
        EntityType::Destroyer => 2,
        _ => 0,
    }
}

pub open spec fn armaments_of(t: EntityType) -> Seq<Armament> {
    match t {
        EntityType::Gunboat => seq![
            Armament { entity_type: EntityType::Shell, turret: Some(0usize), vertical: false },
            Armament { entity_type: EntityType::Torpedo, turret: None, vertical: false },
            Armament { entity_type: EntityType::Rocket, turret: None, vertical: false },
            Armament { entity_type: EntityType::Sam, turret: None, vertical: true },
            Armament { entity_type: EntityType::Depositor, turret: None, vertical: false },
        ],
        EntityType::Destroyer => seq![
            Armament { entity_type: EntityType::Shell, turret: Some(0usize), vertical: false },
            Armament { entity_type: EntityType::Shell, turret: Some(1usize), vertical: false },
            Armament { entity_type: EntityType::Torpedo, turret: None, vertical: false },
        ],
        _ => Seq::empty(),
    }
}

pub open spec fn turrets_of(t: EntityType) -> Seq<Turret> {
    match t {
        EntityType::Gunboat => seq![
            Turret { default_angle: 0u16, azimuth_center: 0u16, azimuth_half: 8192u16 },
        ],
        EntityType::Destroyer => seq![
            Turret { default_angle: 0u16, azimuth_center: 0u16, azimuth_half: 8192u16 },
            Turret { default_angle: 32768u16, azimuth_center: 32768u16, azimuth_half: 8192u16 },
        ],
        _ => Seq::empty(),
    }
}

/// Whether `from` lists `to` as a direct upgrade.
pub open spec fn upgrade_path(from: EntityType, to: EntityType) -> bool {
    match (from, to) {
        (EntityType::Gunboat, EntityType::Destroyer) => true,
        _ => false,
    }
}

/// Whether bot players may use this type; the advanced hull is reserved
/// for human players.
pub open spec fn bots_allowed(t: EntityType) -> bool {
    match t {
        EntityType::Destroyer => false,
        _ => true,
    }
}

/// Score a player must hold to sit at the given level.
pub open spec fn level_to_score_spec(level: int) -> int {
    if level <= 1 {
        0
    } else {
        20 * (level - 1) * (level - 1)
    }
}

/// A player may spawn as t when t is a level-one boat open to their class.
pub open spec fn spawnable_by(t: EntityType, bot: bool) -> bool {
    kind_of(t) == EntityKind::Boat && level_of(t) == 1 && (!bot || bots_allowed(t))
}

/// A boat of type `from`, held by a player with the given score and class,
/// may change in place to type `to`.
pub open spec fn upgradable_to(from: EntityType, to: EntityType, score: u32, bot: bool) -> bool {
    upgrade_path(from, to) && score >= level_to_score_spec(level_of(to)) && (!bot || bots_allowed(
        to,
    ))
}

/// Every armament launches a type with a positive reload time, so a
/// successful shot never leaves its reload timer untouched at zero.
pub proof fn lemma_armament_reload_positive(t: EntityType, i: int)
    requires
        0 <= i < armaments_of(t).len(),
    ensures
        reload_of(armaments_of(t)[i].entity_type) > 0,
{
}

impl EntityType {
    pub fn kind(self) -> (r: EntityKind)
        ensures
            r == kind_of(self),
    {
        match self {
            EntityType::Gunboat => EntityKind::Boat,
            EntityType::Destroyer => EntityKind::Boat,
            EntityType::Coin => EntityKind::Collectible,
            _ => EntityKind::Weapon,
        }
    }

    pub fn sub_kind(self) -> (r: EntitySubKind)
        ensures
            r == sub_kind_of(self),
    {
        match self {
            EntityType::Gunboat => EntitySubKind::Hull,
            EntityType::Destroyer => EntitySubKind::Hull,
            EntityType::Shell => EntitySubKind::Shell,
            EntityType::Sam => EntitySubKind::Sam,
            EntityType::Rocket => EntitySubKind::Rocket,
            EntityType::Torpedo => EntitySubKind::Torpedo,
            EntityType::Depositor => EntitySubKind::Depositor,
            EntityType::Coin => EntitySubKind::Pickup,
        }
    }

    pub fn radius(self) -> (r: i64)
        ensures
            r == radius_of(self),
            1 <= r <= 100,
    {
        match self {
            EntityType::Gunboat => 50,
            EntityType::Destroyer => 60,
            EntityType::Shell => 1,
            EntityType::Sam => 2,
            EntityType::Rocket => 2,
            EntityType::Torpedo => 2,
            EntityType::Depositor => 1,
            EntityType::Coin => 10,
        }
    }

    pub fn speed(self) -> (r: i64)
        ensures
            r == speed_of(self),
            0 <= r <= 1000,
    {
        match self {
            EntityType::Gunboat => 30,
            EntityType::Destroyer => 35,
            EntityType::Shell => 1000,
            EntityType::Sam => 900,
            EntityType::Rocket => 800,
            EntityType::Torpedo => 500,
            EntityType::Depositor => 0,
            EntityType::Coin => 0,
        }
    }

    pub fn sensor_range(self) -> (r: i64)
        ensures
            r == sensor_range_of(self),
            0 <= r <= 2000,
    {
        match self {
            EntityType::Gunboat => 1500,
            EntityType::Destroyer => 2000,
            _ => 0,
        }
    }

    pub fn reload(self) -> (r: u32)
        ensures
            r == reload_of(self),
    {
        match self {
            EntityType::Shell => 10,
            EntityType::Sam => 50,
            EntityType::Rocket => 30,
            EntityType::Torpedo => 40,
            EntityType::Depositor => 20,
            _ => 0,
        }
    }

    pub fn level(self) -> (r: u8)
        ensures
            r == level_of(self),
    {
        match self {
            EntityType::Gunboat => 1,
            EntityType::Destroyer => 2,
            _ => 0,
        }
    }

    pub fn armament_count(self) -> (r: usize)
        ensures
            r == armaments_of(self).len(),
    {
        match self {
            EntityType::Gunboat => 5,
            EntityType::Destroyer => 3,
            _ => 0,
        }
    }

    pub fn armament(self, index: usize) -> (r: Armament)
        requires
            index < armaments_of(self).len(),
        ensures
            r == armaments_of(self)[index as int],
    {
        match self {
            EntityType::Gunboat => {
                if index == 0 {
                    Armament { entity_type: EntityType::Shell, turret: Some(0), vertical: false }
                } else if index == 1 {
                    Armament { entity_type: EntityType::Torpedo, turret: None, vertical: false }
                } else if index == 2 {
                    Armament { entity_type: EntityType::Rocket, turret: None, vertical: false }
                } else if index == 3 {
                    Armament { entity_type: EntityType::Sam, turret: None, vertical: true }
                } else {
                    Armament { entity_type: EntityType::Depositor, turret: None, vertical: false }
                }
            },
            EntityType::Destroyer => {
                if index == 0 {
                    Armament { entity_type: EntityType::Shell, turret: Some(0), vertical: false }
                } else if index == 1 {
                    Armament { entity_type: EntityType::Shell, turret: Some(1), vertical: false }
                } else {
                    Armament { entity_type: EntityType::Torpedo, turret: None, vertical: false }
                }
            },
            _ => {
                proof {
                    assert(false);
                }
                Armament { entity_type: EntityType::Shell, turret: None, vertical: false }
            },
        }
    }

    pub fn turret_count(self) -> (r: usize)
        ensures
            r == turrets_of(self).len(),
    {
        match self {
            EntityType::Gunboat => 1,
            EntityType::Destroyer => 2,
            _ => 0,
        }
    }

    pub fn turret(self, index: usize) -> (r: Turret)
        requires
            index < turrets_of(self).len(),
        ensures
            r == turrets_of(self)[index as int],
    {
        match self {
            EntityType::Gunboat => Turret {
                default_angle: 0,
                azimuth_center: 0,
                azimuth_half: 8192,
            },
            EntityType::Destroyer => {
                if index == 0 {
                    Turret { default_angle: 0, azimuth_center: 0, azimuth_half: 8192 }
                } else {
                    Turret { default_angle: 32768, azimuth_center: 32768, azimuth_half: 8192 }
                }
            },
            _ => {
                proof {
                    assert(false);
                }
                Turret { default_angle: 0, azimuth_center: 0, azimuth_half: 0 }
            },
        }
    }

    /// Spawn eligibility for a player of the given class.
    pub fn can_spawn_as(self, bot: bool) -> (r: bool)
        ensures
            r == spawnable_by(self, bot),
    {
        let is_boat = matches!(self, EntityType::Gunboat | EntityType::Destroyer);
        let lvl = self.level();
        is_boat && lvl == 1
    }

    /// Whether bot players may use this type.
    pub fn bots(self) -> (r: bool)
        ensures
            r == bots_allowed(self),
    {
        match self {
            EntityType::Destroyer => false,
            _ => true,
        }
    }

    /// Upgrade eligibility toward `target` for the given score and class.
    pub fn can_upgrade_to(self, target: EntityType, score: u32, bot: bool) -> (r: bool)
        ensures
            r == upgradable_to(self, target, score, bot),
    {
        let on_path = match (self, target) {
            (EntityType::Gunboat, EntityType::Destroyer) => true,
            _ => false,
        };
        on_path && score >= level_to_score(target.level()) && (!bot || target.bots())
    }
}

/// Score a player must hold to sit at the given level.
pub fn level_to_score(level: u8) -> (r: u32)
    ensures
        r == level_to_score_spec(level as int),
{
    if level <= 1 {
        0
    } else {
        let d: u32 = (level - 1) as u32;
        proof {
            assert(d * d <= 254 * 254) by (nonlinear_arith)
                requires
                    0 <= d <= 254,
            ;
            assert(20 * (d as int * d as int) == 20 * (level as int - 1) * (level as int - 1))
                by (nonlinear_arith)
                requires
                    d == level as int - 1,
            ;
        }
        20 * (d * d)
    }
}

} // verus!
