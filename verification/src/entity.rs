use vstd::prelude::*;
use crate::angle::angle_add;
use crate::angle::wrap_add;
use crate::catalog::Armament;
use crate::catalog::EntityType;
use crate::catalog::armaments_of;
use crate::catalog::reload_of;
use crate::catalog::turrets_of;
use crate::vector::Vec2i;

verus! {

/// Where an entity sits and which way it points.
#[derive(Clone, Copy, PartialEq, Eq, Structural, Debug)]
pub struct Transform {
    pub position: Vec2i,
    pub direction: u16,
}

/// What the physics step steers the entity toward.
#[derive(Clone, Copy, PartialEq, Eq, Structural, Debug)]
pub struct Guidance {
    pub velocity_target: i64,
    pub direction_target: u16,
}

/// Type-specific mutable state: one reload timer per armament, one current
/// angle per turret, plus toggles the owner controls.
#[derive(Debug)]
pub struct Extension {
    pub reloads: Vec<u32>,
    pub turrets: Vec<u16>,
    pub active: bool,
    pub altitude_target: i8,
    pub spawn_protection: bool,
}

/// A live simulated object. The owner fields carry the identity and team
/// of the player that controls or launched it, if any.
#[derive(Debug)]
pub struct Entity {
    pub entity_type: EntityType,
    pub transform: Transform,
    pub guidance: Guidance,
    pub altitude: i8,
    pub owner_player: Option<u32>,
    pub owner_team: Option<u32>,
    pub extension: Extension,
}

/// Every armament's turret index points at a turret of the same type.
pub proof fn lemma_armament_turrets_in_range(t: EntityType, i: int)
    requires
        0 <= i < armaments_of(t).len(),
    ensures
        armaments_of(t)[i].turret matches Some(ti) ==> ti < turrets_of(t).len(),
{
}

impl Entity {
    /// The extension sequences match the type's armament and turret layout.
    pub open spec fn wf(self) -> bool {
        &&& self.extension.reloads@.len() == armaments_of(self.entity_type).len()
        &&& self.extension.turrets@.len() == turrets_of(self.entity_type).len()
    }

    /// A freshly constructed entity of the given type at the origin, fully
    /// reloaded, turrets at their default angles, spawn protection on.
    pub fn new(entity_type: EntityType, owner_player: Option<u32>, owner_team: Option<u32>) -> (r:
        Entity)
        ensures
            r.wf(),
            r.entity_type == entity_type,
            r.owner_player == owner_player,
            r.owner_team == owner_team,
            r.transform == (Transform { position: Vec2i { x: 0, y: 0 }, direction: 0u16 }),
            r.guidance == (Guidance { velocity_target: 0i64, direction_target: 0u16 }),
            r.altitude == 0,
            forall|j: int|
                0 <= j < r.extension.reloads@.len() ==> r.extension.reloads@[j] == 0,
            forall|j: int|
                0 <= j < r.extension.turrets@.len() ==> r.extension.turrets@[j] == turrets_of(
                    entity_type,
                )[j].default_angle,
            r.extension.active == true,
            r.extension.altitude_target == 0,
            r.extension.spawn_protection == true,
    {
        let n = entity_type.armament_count();
        let mut reloads: Vec<u32> = Vec::new();
        let mut i: usize = 0;
        while i < n
            invariant
                i <= n,
                reloads@.len() == i,
                forall|j: int| 0 <= j < i ==> reloads@[j] == 0,
            decreases n - i,
        {
            reloads.push(0);
            i = i + 1;
        }
        let m = entity_type.turret_count();
        let mut turrets: Vec<u16> = Vec::new();
        let mut k: usize = 0;
        while k < m
            invariant
                k <= m,
                m == turrets_of(entity_type).len(),
                turrets@.len() == k,
                forall|j: int|
                    0 <= j < k ==> turrets@[j] == turrets_of(entity_type)[j].default_angle,
            decreases m - k,
        {
            let t = entity_type.turret(k);
            turrets.push(t.default_angle);
            k = k + 1;
        }
        Entity {
            entity_type,
            transform: Transform { position: Vec2i { x: 0, y: 0 }, direction: 0 },
            guidance: Guidance { velocity_target: 0, direction_target: 0 },
            altitude: 0,
            owner_player,
            owner_team,
            extension: Extension {
                reloads,
                turrets,
                active: true,
                altitude_target: 0,
                spawn_protection: true,
            },
        }
    }

    /// Starts the reload timer of the armament that just fired.
    pub fn consume_armament(&mut self, index: usize)
        requires
            old(self).wf(),
            index < armaments_of(old(self).entity_type).len(),
        ensures
            final(self).wf(),
            final(self).extension.reloads@ == old(self).extension.reloads@.update(
                index as int,
                reload_of(armaments_of(old(self).entity_type)[index as int].entity_type) as u32,
            ),
            *final(self) == (Entity {
                extension: Extension {
                    reloads: final(self).extension.reloads,
                    ..old(self).extension
                },
                ..*old(self)
            }),
    {
        let arm = self.entity_type.armament(index);
        let ticks = arm.entity_type.reload();
        self.extension.reloads.set(index, ticks);
    }

    /// Turns firing protection off; the first offensive action forfeits it.
    pub fn clear_spawn_protection(&mut self)
        ensures
            *final(self) == (Entity {
                extension: Extension {
                    spawn_protection: false,
                    ..old(self).extension
                },
                ..*old(self)
            }),
            final(self).wf() == old(self).wf(),
    {
        self.extension.spawn_protection = false;
    }

    /// Mutates the entity in place to a new type. The slot, transform,
    /// guidance, altitude and ownership stay; the reload and turret state
    /// is reshaped for the new type's layout.
    pub fn change_entity_type(&mut self, new_type: EntityType)
        ensures
            final(self).wf(),
            final(self).entity_type == new_type,
            final(self).transform == old(self).transform,
            final(self).guidance == old(self).guidance,
            final(self).altitude == old(self).altitude,
            final(self).owner_player == old(self).owner_player,
            final(self).owner_team == old(self).owner_team,
            forall|j: int|
                0 <= j < final(self).extension.reloads@.len() ==> final(self).extension.reloads@[j]
                    == 0,
            forall|j: int|
                0 <= j < final(self).extension.turrets@.len() ==> final(self).extension.turrets@[j]
                    == turrets_of(new_type)[j].default_angle,
            final(self).extension.active == old(self).extension.active,
            final(self).extension.altitude_target == old(self).extension.altitude_target,
            final(self).extension.spawn_protection == old(self).extension.spawn_protection,
    {
        let fresh = Entity::new(new_type, None, None);
        let mut extension = fresh.extension;
        extension.active = self.extension.active;
        extension.altitude_target = self.extension.altitude_target;
        extension.spawn_protection = self.extension.spawn_protection;
        self.entity_type = new_type;
        self.extension = extension;
    }

    /// The position and direction an armament launches with: the platform's
    /// position, turned by the mounting turret's current angle if mounted.
    pub fn armament_transform(&self, index: usize) -> (r: Transform)
        requires
            self.wf(),
            index < armaments_of(self.entity_type).len(),
        ensures
            r.position == self.transform.position,
            armaments_of(self.entity_type)[index as int].turret matches Some(ti) ==> r.direction
                == wrap_add(
                self.transform.direction as int,
                self.extension.turrets@[ti as int] as int,
            ),
            armaments_of(self.entity_type)[index as int].turret is None ==> r.direction
                == self.transform.direction,
    {
        let arm: Armament = self.entity_type.armament(index);
        proof {
            lemma_armament_turrets_in_range(self.entity_type, index as int);
        }
        let direction: u16 = match arm.turret {
            Some(ti) => angle_add(self.transform.direction, self.extension.turrets[ti] as i64),
            None => self.transform.direction,
        };
        Transform { position: self.transform.position, direction }
    }
}

} // verus!
