use vstd::prelude::*;
use rayon::iter::IndexedParallelIterator;
use rayon::iter::IntoParallelRefIterator;
use rayon::iter::ParallelIterator;
use crate::catalog::EntityKind;
use crate::catalog::EntityType;
use crate::catalog::kind_of;
use crate::catalog::radius_of;
use crate::entity::Entity;
use crate::entity::Transform;
use crate::vector::COORD_BOUND;
use crate::vector::Vec2i;
use crate::vector::lemma_square_bound;
use crate::vector::lemma_abs_le_of_square;

verus! {

/// The largest simulation radius the library accepts, keeping every
/// squared distance well inside i64.
pub const MAX_WORLD_RADIUS: i64 = 1_000_000;

/// How far from a recent death a player is kept from respawning.
pub const EXCLUSION_RADIUS: i64 = 1250;

/// One localized terrain modification: a point and a radius.
#[derive(Clone, Copy, PartialEq, Eq, Structural, Debug)]
pub struct TerrainMod {
    pub position: Vec2i,
    pub radius: i64,
}

/// The terrain surface, seen here only through its mutation interface:
/// the modifications applied so far, in order.
#[derive(Debug)]
pub struct Terrain {
    pub mods: Vec<TerrainMod>,
}

impl Terrain {
    /// Records a localized height/material modification.
    pub fn modify(&mut self, position: Vec2i, radius: i64)
        ensures
            final(self).mods@ == old(self).mods@.push(TerrainMod { position, radius }),
    {
        self.mods.push(TerrainMod { position, radius });
    }
}

/// The shared world: a circular play area, an indexed entity store whose
/// slots are reused after removal, and the terrain surface.
pub struct World {
    pub radius: i64,
    pub time: u64,
    pub entities: Vec<Option<Entity>>,
    pub terrain: Terrain,
}

/// A live boat owned by the right team or inviter, outside the issuing
/// player's death-exclusion zone, qualifies as a spawn anchor.
pub open spec fn anchor_pred(
    e: Entity,
    team: Option<u32>,
    inviter: Option<u32>,
    excl: Option<Vec2i>,
) -> bool {
    &&& kind_of(e.entity_type) == EntityKind::Boat
    &&& ((team is Some && e.owner_team == team) || (inviter is Some && e.owner_player == inviter))
    &&& (excl matches Some(c) ==> e.transform.position.dist2(c) >= EXCLUSION_RADIUS
        * EXCLUSION_RADIUS)
}

/// Whether this entity qualifies as a spawn anchor for the given team,
/// inviter and exclusion zone.
pub fn is_spawn_anchor(
    e: &Entity,
    team: Option<u32>,
    inviter: Option<u32>,
    excl: Option<Vec2i>,
) -> (r: bool)
    requires
        e.transform.position.in_bounds(COORD_BOUND as int),
        excl matches Some(c) ==> c.in_bounds(COORD_BOUND as int),
    ensures
        r == anchor_pred(*e, team, inviter, excl),
{
    let is_boat = matches!(e.entity_type.kind(), EntityKind::Boat);
    let affiliated = (team.is_some() && e.owner_team == team) || (inviter.is_some()
        && e.owner_player == inviter);
    let outside_exclusion = match excl {
        Some(c) => e.transform.position.distance_squared(c) >= EXCLUSION_RADIUS
            * EXCLUSION_RADIUS,
        None => true,
    };
    is_boat && affiliated && outside_exclusion
}

/// Relies on rayon's find_any over a parallel scan of the slots: it returns
/// some slot satisfying the predicate, and None exactly when no slot does.
/// Which qualifying slot comes back is unspecified under parallel search.
#[verifier::external_body]
pub(crate) fn find_anchor(
    entities: &Vec<Option<Entity>>,
    team: Option<u32>,
    inviter: Option<u32>,
    excl: Option<Vec2i>,
) -> (r: Option<usize>)
    requires
        forall|i: int|
            #![trigger entities@[i]]
            0 <= i < entities@.len() && entities@[i] is Some
                ==> entities@[i]->0.transform.position.in_bounds(COORD_BOUND as int),
        excl matches Some(c) ==> c.in_bounds(COORD_BOUND as int),
    ensures
        r matches Some(j) ==> j < entities@.len() && (entities@[j as int] matches Some(e)
            && anchor_pred(e, team, inviter, excl)),
        r is None ==> forall|i: int|
            #![trigger entities@[i]]
            0 <= i < entities@.len() ==> !(entities@[i] matches Some(e) && anchor_pred(
                e,
                team,
                inviter,
                excl,
            )),
{
    entities.par_iter().enumerate().find_any(
        |(_, slot): &(usize, &Option<Entity>)|
            match slot {
                Some(e) => is_spawn_anchor(e, team, inviter, excl),
                None => false,
            },
    ).map(|(i, _)| i)
}

impl World {
    /// Slot i holds a live entity.
    pub open spec fn live(self, i: int) -> bool {
        0 <= i < self.entities@.len() && self.entities@[i] is Some
    }

    pub open spec fn entity_at(self, i: int) -> Entity {
        self.entities@[i]->0
    }

    /// The world is well formed: a bounded radius, and every live entity
    /// well formed with its position inside twice the radius.
    pub open spec fn wf(self) -> bool {
        &&& 1 <= self.radius <= MAX_WORLD_RADIUS
        &&& forall|i: int|
            #![trigger self.entities@[i]]
            self.live(i) ==> self.entity_at(i).wf() && self.entity_at(
                i,
            ).transform.position.in_bounds(2 * self.radius)
    }

    /// The radius, clock and terrain of w2 are those of w1.
    pub open spec fn same_frame(self, w2: World) -> bool {
        &&& self.radius == w2.radius
        &&& self.time == w2.time
        &&& self.terrain.mods@ == w2.terrain.mods@
    }

    /// A position is free for an entity of collision radius rad and the
    /// given kind: inside the play area, outside the exclusion zone, and
    /// not colliding with any live entity of the same kind (a launched
    /// weapon may overlap the boat that carries it).
    pub open spec fn spot_free(self, p: Vec2i, rad: int, kind: EntityKind, excl: Option<
        Vec2i,
    >) -> bool {
        &&& p.len2() <= self.radius * self.radius
        &&& (excl matches Some(c) ==> p.dist2(c) >= EXCLUSION_RADIUS * EXCLUSION_RADIUS)
        &&& forall|i: int|
            #![trigger self.entities@[i]]
            self.live(i) && kind_of(self.entity_at(i).entity_type) == kind ==> p.dist2(
                self.entity_at(i).transform.position,
            ) >= (rad + radius_of(self.entity_at(i).entity_type)) * (rad + radius_of(
                self.entity_at(i).entity_type,
            ))
    }

    /// Decides spot_free by a read-only scan of the store.
    pub fn can_place_at(&self, p: Vec2i, rad: i64, kind: EntityKind, excl: Option<Vec2i>) -> (r:
        bool)
        requires
            self.wf(),
            p.in_bounds(COORD_BOUND as int),
            0 <= rad <= 100,
            excl matches Some(c) ==> c.in_bounds(COORD_BOUND as int),
        ensures
            r == self.spot_free(p, rad as int, kind, excl),
    {
        proof {
            lemma_square_bound(self.radius as int, MAX_WORLD_RADIUS as int);
        }
        if p.length_squared() > self.radius * self.radius {
            return false;
        }
        if let Some(c) = excl {
            if p.distance_squared(c) < EXCLUSION_RADIUS * EXCLUSION_RADIUS {
                return false;
            }
        }
        let n = self.entities.len();
        let mut i: usize = 0;
        while i < n
            invariant
                self.wf(),
                p.in_bounds(COORD_BOUND as int),
                0 <= rad <= 100,
                n == self.entities@.len(),
                i <= n,
                forall|k: int|
                    #![trigger self.entities@[k]]
                    0 <= k < i && self.live(k) && kind_of(self.entity_at(k).entity_type) == kind
                        ==> p.dist2(self.entity_at(k).transform.position) >= (rad + radius_of(
                        self.entity_at(k).entity_type,
                    )) * (rad + radius_of(self.entity_at(k).entity_type)),
            decreases n - i,
        {
            match &self.entities[i] {
                Some(e) => {
                    if e.entity_type.kind() == kind {
                        let sum: i64 = rad + e.entity_type.radius();
                        proof {
                            lemma_square_bound(sum as int, 200);
                        }
                        if p.distance_squared(e.transform.position) < sum * sum {
                            return false;
                        }
                    }
                },
                None => {},
            }
            i = i + 1;
        }
        true
    }

    /// Stores a live entity in the first free slot, or a new slot.
    fn store_entity(&mut self, e: Entity) -> (j: usize)
        ensures
            j < final(self).entities@.len(),
            (j < old(self).entities@.len() && old(self).entities@[j as int] is None
                && final(self).entities@ == old(self).entities@.update(j as int, Some(e)))
                || (j == old(self).entities@.len()
                && final(self).entities@ == old(self).entities@.push(Some(e))),
            old(self).same_frame(*final(self)),
            final(self).radius == old(self).radius,
    {
        let n = self.entities.len();
        let mut j: usize = 0;
        while j < n
            invariant
                n == self.entities@.len(),
                j <= n,
                self.entities@ == old(self).entities@,
                self.radius == old(self).radius,
                self.time == old(self).time,
                self.terrain.mods@ == old(self).terrain.mods@,
            decreases n - j,
        {
            let free = matches!(&self.entities[j], None);
            if free {
                self.entities.set(j, Some(e));
                return j;
            }
            j = j + 1;
        }
        self.entities.push(Some(e));
        n
    }

    /// Checks one candidate spot; if it is free, the entity is stored
    /// there, else the entity is handed back untouched.
    fn try_place_at(&mut self, entity: Entity, p: Vec2i, excl: Option<Vec2i>) -> (r: Result<
        usize,
        Entity,
    >)
        requires
            old(self).wf(),
            entity.wf(),
            p.in_bounds(COORD_BOUND as int),
            excl matches Some(c) ==> c.in_bounds(COORD_BOUND as int),
        ensures
            final(self).wf(),
            old(self).same_frame(*final(self)),
            final(self).radius == old(self).radius,
            r matches Err(back) ==> back == entity && *final(self) == *old(self) && !old(
                self,
            ).spot_free(p, radius_of(entity.entity_type), kind_of(entity.entity_type), excl),
            r matches Ok(j) ==> {
                &&& old(self).spot_free(
                    p,
                    radius_of(entity.entity_type),
                    kind_of(entity.entity_type),
                    excl,
                )
                &&& final(self).live(j as int)
                &&& final(self).entity_at(j as int) == (Entity {
                    transform: Transform { position: p, ..entity.transform },
                    ..entity
                })
                &&& ((j < old(self).entities@.len() && old(self).entities@[j as int] is None
                    && final(self).entities@ == old(self).entities@.update(
                    j as int,
                    Some(final(self).entity_at(j as int)),
                )) || (j == old(self).entities@.len()
                    && final(self).entities@ == old(self).entities@.push(
                    Some(final(self).entity_at(j as int)),
                )))
            },
    {
        let rad = entity.entity_type.radius();
        let kind = entity.entity_type.kind();
        if self.can_place_at(p, rad, kind, excl) {
            proof {
                lemma_square_bound(p.y as int, COORD_BOUND as int);
                lemma_square_bound(p.x as int, COORD_BOUND as int);
                assert(p.x as int * p.x as int <= self.radius as int * self.radius as int);
                assert(p.y as int * p.y as int <= self.radius as int * self.radius as int);
                lemma_abs_le_of_square(p.x as int, self.radius as int);
                lemma_abs_le_of_square(p.y as int, self.radius as int);
            }
            let mut e = entity;
            e.transform.position = p;
            let j = self.store_entity(e);
            Ok(j)
        } else {
            Err(entity)
        }
    }

    /// Tries the entity's own position first, then nearby spots within
    /// search_radius, skipping spots inside the exclusion zone. On success
    /// the entity is inserted, possibly repositioned; on failure the world
    /// is left unchanged and the entity is dropped.
    pub fn place_entity(&mut self, entity: Entity, search_radius: i64, excl: Option<Vec2i>) -> (r:
        Option<usize>)
        requires
            old(self).wf(),
            entity.wf(),
            entity.transform.position.in_bounds(2 * old(self).radius),
            0 <= search_radius <= old(self).radius,
            excl matches Some(c) ==> c.in_bounds(COORD_BOUND as int),
        ensures
            final(self).wf(),
            old(self).same_frame(*final(self)),
            r is None ==> *final(self) == *old(self),
            r matches Some(j) ==> {
                &&& final(self).live(j as int)
                &&& final(self).entity_at(j as int) == (Entity {
                    transform: Transform {
                        position: final(self).entity_at(j as int).transform.position,
                        ..entity.transform
                    },
                    ..entity
                })
                &&& old(self).spot_free(
                    final(self).entity_at(j as int).transform.position,
                    radius_of(entity.entity_type),
                    kind_of(entity.entity_type),
                    excl,
                )
                &&& -(search_radius as int) <= final(self).entity_at(
                    j as int,
                ).transform.position.x - entity.transform.position.x <= search_radius as int
                &&& -(search_radius as int) <= final(self).entity_at(
                    j as int,
                ).transform.position.y - entity.transform.position.y <= search_radius as int
                &&& ((j < old(self).entities@.len() && old(self).entities@[j as int] is None
                    && final(self).entities@ == old(self).entities@.update(
                    j as int,
                    Some(final(self).entity_at(j as int)),
                )) || (j == old(self).entities@.len()
                    && final(self).entities@ == old(self).entities@.push(
                    Some(final(self).entity_at(j as int)),
                )))
            },
            old(self).spot_free(
                entity.transform.position,
                radius_of(entity.entity_type),
                kind_of(entity.entity_type),
                excl,
            ) ==> r is Some && (r matches Some(j) ==> final(self).entity_at(
                j as int,
            ).transform.position == entity.transform.position),
    {
        let base = entity.transform.position;
        let d1: i64 = search_radius / 2;
        let d2: i64 = search_radius;
        proof {
            lemma_square_bound(d1 as int, search_radius as int);
            lemma_square_bound(d2 as int, search_radius as int);
        }
        let entity = match self.try_place_at(entity, base, excl) {
            Ok(j) => {
                return Some(j);
            },
            Err(e) => e,
        };
        let entity = match self.try_place_at(entity, Vec2i { x: base.x + d1, y: base.y }, excl) {
            Ok(j) => {
                return Some(j);
            },
            Err(e) => e,
        };
        let entity = match self.try_place_at(entity, Vec2i { x: base.x - d1, y: base.y }, excl) {
            Ok(j) => {
                return Some(j);
            },
            Err(e) => e,
        };
        let entity = match self.try_place_at(entity, Vec2i { x: base.x, y: base.y + d1 }, excl) {
            Ok(j) => {
                return Some(j);
            },
            Err(e) => e,
        };
        let entity = match self.try_place_at(entity, Vec2i { x: base.x, y: base.y - d1 }, excl) {
            Ok(j) => {
                return Some(j);
            },
            Err(e) => e,
        };
        let entity = match self.try_place_at(entity, Vec2i { x: base.x + d2, y: base.y }, excl) {
            Ok(j) => {
                return Some(j);
            },
            Err(e) => e,
        };
        let entity = match self.try_place_at(entity, Vec2i { x: base.x - d2, y: base.y }, excl) {
            Ok(j) => {
                return Some(j);
            },
            Err(e) => e,
        };
        let entity = match self.try_place_at(entity, Vec2i { x: base.x, y: base.y + d2 }, excl) {
            Ok(j) => {
                return Some(j);
            },
            Err(e) => e,
        };
        match self.try_place_at(entity, Vec2i { x: base.x, y: base.y - d2 }, excl) {
            Ok(j) => Some(j),
            Err(_) => None,
        }
    }

    /// The public placement primitive: attempts to place a fully
    /// constructed entity at its transform or nearby, and reports success.
    pub fn spawn_here_or_nearby(&mut self, entity: Entity, search_radius: i64, excl: Option<
        Vec2i,
    >) -> (r: bool)
        requires
            old(self).wf(),
            entity.wf(),
            entity.transform.position.in_bounds(2 * old(self).radius),
            0 <= search_radius <= old(self).radius,
            excl matches Some(c) ==> c.in_bounds(COORD_BOUND as int),
        ensures
            final(self).wf(),
            old(self).same_frame(*final(self)),
            !r ==> *final(self) == *old(self),
            r ==> exists|j: int|
                #![trigger final(self).entity_at(j)]
                final(self).live(j) && final(self).entity_at(j).entity_type == entity.entity_type
                    && final(self).entity_at(j).owner_player == entity.owner_player,
            old(self).spot_free(
                entity.transform.position,
                radius_of(entity.entity_type),
                kind_of(entity.entity_type),
                excl,
            ) ==> r,
    {
        let placed = self.place_entity(entity, search_radius, excl);
        placed.is_some()
    }
}

} // verus!
