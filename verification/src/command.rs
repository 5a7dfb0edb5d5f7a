use vstd::prelude::*;
use rand::Rng;
use crate::catalog::EntityKind;
use crate::catalog::EntityType;
use crate::catalog::kind_of;
use crate::catalog::level_of;
use crate::catalog::level_to_score;
use crate::catalog::level_to_score_spec;
use crate::catalog::radius_of;
use crate::entity::Entity;
use crate::error::Error;
use crate::player::HintState;
use crate::player::Player;
use crate::player::Status;
use crate::sanitize::RawScalar;
use crate::sanitize::RawVec2;
use crate::sanitize::clamped;
use crate::sanitize::sanitize_scalar;
use crate::sanitize::sanitize_vec2;
use crate::vector::COORD_BOUND;
use crate::vector::Vec2i;
use crate::vector::lemma_square_bound;
use crate::world::World;
use crate::world::find_anchor;
use crate::world::anchor_pred;
use crate::catalog::spawnable_by;
use crate::catalog::upgradable_to;
use crate::player::Flags;
use crate::angle::angle_add;
use crate::angle::angle_of;
use crate::angle::angle_of_spec;
use crate::angle::azimuth_diff;
use crate::angle::within_azimuth;
use crate::angle::wrap_add;
use crate::catalog::EntitySubKind;
use crate::catalog::armaments_of;
use crate::catalog::reload_of;
use crate::catalog::speed_of;
use crate::catalog::sub_kind_of;
use crate::catalog::turrets_of;
use crate::entity::Extension;
use crate::entity::Guidance;
use crate::entity::Transform;
use crate::entity::lemma_armament_turrets_in_range;
use crate::vector::clamp_len_x;
use crate::vector::clamp_len_y;
use crate::world::TerrainMod;
use crate::catalog::sensor_range_of;

verus! {

/// The fixed value of one currency pickup.
pub const COIN_VALUE: u32 = 10;

/// What a payment withdraws: twice the pickup's value, modeling the
/// fifty percent transfer efficiency.
pub const WITHDRAWAL: u32 = COIN_VALUE * 2;

/// The player record is consistent with the world: while alive it points
/// at a live boat it owns, with any aim target near the play area; a
/// death record lies in bounds and in the past.
pub open spec fn player_ok(w: World, p: Player) -> bool {
    &&& (p.status matches Status::Alive { entity_index, aim_target } ==> {
        &&& w.live(entity_index as int)
        &&& kind_of(w.entity_at(entity_index as int).entity_type) == EntityKind::Boat
        &&& w.entity_at(entity_index as int).owner_player == Some(p.player_id)
        &&& (aim_target matches Some(a) ==> a.in_bounds(2 * w.radius + 2000))
    })
    &&& (p.status matches Status::Dead { position, time, .. } ==> position.in_bounds(
        COORD_BOUND as int,
    ) && time <= w.time)
}

/// Commands never touch who the player is.
pub open spec fn same_identity(a: Player, b: Player) -> bool {
    &&& a.player_id == b.player_id
    &&& a.team_id == b.team_id
    &&& a.invitation == b.invitation
    &&& a.bot == b.bot
}

/// A point from the outside, with each coordinate clamped into the valid
/// world extent of twice the radius.
pub open spec fn sanitized_point(v: RawVec2, radius: i64) -> Vec2i {
    Vec2i {
        x: clamped(v.x->0 as int, -2 * radius, 2 * radius) as i64,
        y: clamped(v.y->0 as int, -2 * radius, 2 * radius) as i64,
    }
}

/// Mutable access to one slot of the store.
fn slot_mut(entities: &mut Vec<Option<Entity>>, i: usize) -> (r: &mut Option<Entity>)
    requires
        i < old(entities)@.len(),
    ensures
        *r == old(entities)@[i as int],
        final(entities)@ == old(entities)@.update(i as int, *final(r)),
{
    &mut entities[i]
}

/// An aspect-ratio preference to store on the player record.
#[derive(Clone, Copy, PartialEq, Eq, Structural, Debug)]
pub struct Hint {
    pub aspect: RawScalar,
}

impl Hint {
    /// Validates that the aspect is finite, clamps it into [500, 2000]
    /// thousandths, and stores it; the world is untouched.
    pub fn apply(&self, world: &mut World, player: &mut Player) -> (r: Result<(), Error>)
        ensures
            *final(world) == *old(world),
            same_identity(*final(player), *old(player)),
            r is Ok <==> self.aspect is Finite,
            r matches Err(e) ==> e == Error::NotFinite && *final(player) == *old(player),
            r is Ok ==> *final(player) == (Player {
                hint: HintState { aspect: clamped(self.aspect->0 as int, 500, 2000) as i64 },
                ..*old(player)
            }),
    {
        match sanitize_scalar(self.aspect, 500, 2000) {
            Ok(a) => {
                player.hint = HintState { aspect: a };
                Ok(())
            },
            Err(e) => Err(e),
        }
    }
}

/// The first reason a payment must be refused, if any: a non-finite
/// target, a player who is not alive, a target beyond the boat's outer
/// collision radius of twice its inner one, or a score that cannot cover
/// the withdrawal above the score its current level stands for.
pub open spec fn pay_check(w: World, p: Player, position: RawVec2) -> Option<Error> {
    if position.x is NonFinite || position.y is NonFinite {
        Some(Error::NotFinite)
    } else if !(p.status is Alive) {
        Some(Error::NotAlive)
    } else {
        let pos = sanitized_point(position, w.radius);
        let e = w.entity_at(p.alive_index());
        if pos.dist2(e.transform.position) > 4 * radius_of(e.entity_type) * radius_of(
            e.entity_type,
        ) {
            Some(Error::TooFar)
        } else if (p.score as int) < level_to_score_spec(level_of(e.entity_type))
            + WITHDRAWAL as int {
            Some(Error::InsufficientFunds)
        } else {
            None
        }
    }
}

/// A request to drop currency at a position for others to collect.
#[derive(Clone, Copy, PartialEq, Eq, Structural, Debug)]
pub struct Pay {
    pub position: RawVec2,
}

impl Pay {
    /// Spawns a currency pickup at the sanitized target; the withdrawal is
    /// deducted only when the pickup actually found space, so a failed
    /// placement never charges the player, and a success charges exactly
    /// the fixed withdrawal.
    pub fn apply(&self, world: &mut World, player: &mut Player) -> (r: Result<(), Error>)
        requires
            old(world).wf(),
            player_ok(*old(world), *old(player)),
        ensures
            final(world).wf(),
            player_ok(*final(world), *final(player)),
            old(world).same_frame(*final(world)),
            same_identity(*final(player), *old(player)),
            r matches Err(e) ==> Some(e) == pay_check(*old(world), *old(player), self.position)
                && *final(world) == *old(world) && *final(player) == *old(player),
            r is Ok <==> pay_check(*old(world), *old(player), self.position) is None,
            r is Ok ==> final(player).status == old(player).status && ({
                let sp = sanitized_point(self.position, old(world).radius);
                ||| (*final(world) == *old(world) && *final(player) == *old(player))
                ||| (*final(player) == (Player {
                    score: (old(player).score - WITHDRAWAL) as u32,
                    ..*old(player)
                }) && (exists|j: int|
                    #![trigger final(world).entity_at(j)]
                    {
                        &&& final(world).live(j)
                        &&& final(world).entity_at(j).entity_type == EntityType::Coin
                        &&& final(world).entity_at(j).owner_player == Some(old(player).player_id)
                        &&& -1 <= final(world).entity_at(j).transform.position.x - sp.x <= 1
                        &&& -1 <= final(world).entity_at(j).transform.position.y - sp.y <= 1
                        &&& ((j < old(world).entities@.len() && old(world).entities@[j] is None
                            && final(world).entities@ == old(world).entities@.update(
                            j,
                            Some(final(world).entity_at(j)),
                        )) || (j == old(world).entities@.len()
                            && final(world).entities@ == old(world).entities@.push(
                            Some(final(world).entity_at(j)),
                        )))
                    }))
            }),
            r is Ok && old(world).spot_free(
                sanitized_point(self.position, old(world).radius),
                radius_of(EntityType::Coin),
                EntityKind::Collectible,
                None,
            ) ==> final(player).score == old(player).score - WITHDRAWAL && (exists|j: int|
                #![trigger final(world).entity_at(j)]
                final(world).live(j) && final(world).entity_at(j).entity_type == EntityType::Coin
                    && final(world).entity_at(j).transform.position == sanitized_point(
                    self.position,
                    old(world).radius,
                )),
            r is Ok ==> forall|k: int|
                #![trigger old(world).entities@[k]]
                old(world).live(k) ==> final(world).live(k) && final(world).entity_at(k) == old(
                    world,
                ).entity_at(k),
    {
        let wr = world.radius;
        let pos = match sanitize_vec2(self.position, -2 * wr, 2 * wr) {
            Ok(p) => p,
            Err(e) => {
                return Err(e);
            },
        };
        let entity_index = match player.status {
            Status::Alive { entity_index, .. } => entity_index,
            _ => {
                return Err(Error::NotAlive);
            },
        };
        let (boat_pos, boat_rad, boat_level) = match &world.entities[entity_index] {
            Some(e) => (e.transform.position, e.entity_type.radius(), e.entity_type.level()),
            None => {
                proof {
                    assert(false);
                }
                return Err(Error::NotAlive);
            },
        };
        let outer: i64 = 2 * boat_rad;
        proof {
            lemma_square_bound(outer as int, 200);
            assert(outer as int * outer as int == 4 * (boat_rad as int) * (boat_rad as int))
                by (nonlinear_arith)
                requires
                    outer == 2 * (boat_rad as int),
            ;
        }
        if pos.distance_squared(boat_pos) > outer * outer {
            return Err(Error::TooFar);
        }
        if player.score < level_to_score(boat_level) + WITHDRAWAL {
            return Err(Error::InsufficientFunds);
        }
        let mut payment = Entity::new(EntityType::Coin, Some(player.player_id), player.team_id);
        payment.transform.position = pos;
        match world.place_entity(payment, 1, None) {
            Some(_) => {
                player.score = player.score - WITHDRAWAL;
            },
            None => {},
        }
        Ok(())
    }
}

/// The reason an upgrade must be refused, if any: not alive, or the
/// target is not a valid upgrade for the current type, score and class.
pub open spec fn upgrade_check(w: World, p: Player, target: EntityType) -> Option<Error> {
    if !(p.status is Alive) {
        Some(Error::NotAlive)
    } else if !upgradable_to(w.entity_at(p.alive_index()).entity_type, target, p.score, p.bot) {
        Some(Error::IneligibleUpgrade)
    } else {
        None
    }
}

/// A request to change the controlled boat to a better type.
#[derive(Clone, Copy, PartialEq, Eq, Structural, Debug)]
pub struct Upgrade {
    pub entity_type: EntityType,
}

impl Upgrade {
    /// Mutates the controlled entity in place to the target type: the slot
    /// index is preserved, the extension is reshaped for the new layout,
    /// and the upgraded-this-tick flag is raised.
    pub fn apply(&self, world: &mut World, player: &mut Player) -> (r: Result<(), Error>)
        requires
            old(world).wf(),
            player_ok(*old(world), *old(player)),
        ensures
            final(world).wf(),
            player_ok(*final(world), *final(player)),
            old(world).same_frame(*final(world)),
            same_identity(*final(player), *old(player)),
            r matches Err(e) ==> Some(e) == upgrade_check(*old(world), *old(player), self.entity_type)
                && *final(world) == *old(world) && *final(player) == *old(player),
            r is Ok <==> upgrade_check(*old(world), *old(player), self.entity_type) is None,
            r is Ok ==> {
                let i = old(player).alive_index();
                &&& final(player).status == old(player).status
                &&& *final(player) == (Player {
                    flags: Flags { upgraded: true },
                    ..*old(player)
                })
                &&& final(world).entities@ == old(world).entities@.update(
                    i,
                    Some(final(world).entity_at(i)),
                )
                &&& final(world).entity_at(i).entity_type == self.entity_type
                &&& final(world).entity_at(i).transform == old(world).entity_at(i).transform
                &&& final(world).entity_at(i).guidance == old(world).entity_at(i).guidance
                &&& final(world).entity_at(i).altitude == old(world).entity_at(i).altitude
                &&& final(world).entity_at(i).owner_player == old(world).entity_at(i).owner_player
                &&& final(world).entity_at(i).owner_team == old(world).entity_at(i).owner_team
                &&& forall|k: int|
                    0 <= k < final(world).entity_at(i).extension.reloads@.len()
                        ==> final(world).entity_at(i).extension.reloads@[k] == 0u32
            },
    {
        let entity_index = match player.status {
            Status::Alive { entity_index, .. } => entity_index,
            _ => {
                return Err(Error::NotAlive);
            },
        };
        let cur = match &world.entities[entity_index] {
            Some(e) => e.entity_type,
            None => {
                proof {
                    assert(false);
                }
                return Err(Error::NotAlive);
            },
        };
        if !cur.can_upgrade_to(self.entity_type, player.score, player.bot) {
            return Err(Error::IneligibleUpgrade);
        }
        player.flags.upgraded = true;
        let slot = slot_mut(&mut world.entities, entity_index);
        match slot {
            Some(e) => {
                e.change_entity_type(self.entity_type);
            },
            None => {
                proof {
                    assert(false);
                }
            },
        }
        Ok(())
    }
}

/// The reason a spawn must be refused before placement, if any: already
/// alive, or a type the player's class may not spawn as.
pub open spec fn spawn_check(p: Player, t: EntityType) -> Option<Error> {
    if p.status is Alive {
        Some(Error::AlreadyAlive)
    } else if !spawnable_by(t, p.bot) {
        Some(Error::IneligibleType)
    } else {
        None
    }
}

/// The spawn-camping exclusion zone: the last death's position, when that
/// death was inflicted by another player within the last ten seconds and
/// a boat is being spawned.
pub open spec fn spawn_exclusion(w: World, p: Player, t: EntityType) -> Option<Vec2i> {
    match p.status {
        Status::Dead { by_player, position, time } => {
            if by_player && w.time - time < 10 && kind_of(t) == EntityKind::Boat {
                Some(position)
            } else {
                None
            }
        },
        _ => None,
    }
}

/// The player whose boat an invitation points at, if any.
pub open spec fn spawn_inviter(p: Player) -> Option<u32> {
    match p.invitation {
        Some(inv) => Some(inv.player_id),
        None => None,
    }
}

/// A request to enter the world as a fresh boat.
#[derive(Clone, Copy, PartialEq, Eq, Structural, Debug)]
pub struct Spawn {
    pub entity_type: EntityType,
}

impl Spawn {
    /// Picks a spawn anchor (an allied or inviting boat when one
    /// qualifies, else the world center), places a fresh boat near it, and
    /// only on successful placement transitions the player to alive,
    /// pointing at the live entity just stored.
    pub fn apply(&self, world: &mut World, player: &mut Player) -> (r: Result<(), Error>)
        requires
            old(world).wf(),
            player_ok(*old(world), *old(player)),
        ensures
            final(world).wf(),
            player_ok(*final(world), *final(player)),
            old(world).same_frame(*final(world)),
            same_identity(*final(player), *old(player)),
            r matches Err(e) ==> (e != Error::NoSpace ==> Some(e) == spawn_check(
                *old(player),
                self.entity_type,
            ) && *final(world) == *old(world) && *final(player) == *old(player)),
            spawn_check(*old(player), self.entity_type) matches Some(e) ==> r == Result::<
                (),
                Error,
            >::Err(e),
            r == Result::<(), Error>::Err(Error::NoSpace) ==> spawn_check(
                *old(player),
                self.entity_type,
            ) is None && *final(world) == *old(world) && *final(player) == *old(player),
            r is Ok ==> spawn_check(*old(player), self.entity_type) is None && {
                let j = final(player).status->entity_index as int;
                &&& final(player).status is Alive
                &&& final(player).status->aim_target is None
                &&& *final(player) == (Player { status: final(player).status, ..*old(player) })
                &&& final(world).live(j)
                &&& final(world).entity_at(j).entity_type == self.entity_type
                &&& final(world).entity_at(j).owner_player == Some(old(player).player_id)
                &&& final(world).entity_at(j).owner_team == old(player).team_id
                &&& old(world).spot_free(
                    final(world).entity_at(j).transform.position,
                    radius_of(self.entity_type),
                    kind_of(self.entity_type),
                    spawn_exclusion(*old(world), *old(player), self.entity_type),
                )
            },
            r is Ok && (old(player).team_id is Some || old(player).invitation is Some) ==> ({
                let j = final(player).status->entity_index as int;
                let p = final(world).entity_at(j).transform.position;
                let team = old(player).team_id;
                let inviter = spawn_inviter(*old(player));
                let excl = spawn_exclusion(*old(world), *old(player), self.entity_type);
                ||| (exists|k: int|
                    #![trigger old(world).entities@[k]]
                    {
                        &&& old(world).live(k)
                        &&& anchor_pred(old(world).entity_at(k), team, inviter, excl)
                        &&& -(radius_of(old(world).entity_at(k).entity_type) + 100) <= p.x - old(
                            world,
                        ).entity_at(k).transform.position.x <= radius_of(
                            old(world).entity_at(k).entity_type,
                        ) + 100
                        &&& -(radius_of(old(world).entity_at(k).entity_type) + 100) <= p.y - old(
                            world,
                        ).entity_at(k).transform.position.y <= radius_of(
                            old(world).entity_at(k).entity_type,
                        ) + 100
                    })
                ||| (forall|k: int|
                    #![trigger old(world).entities@[k]]
                    !(old(world).live(k) && anchor_pred(
                        old(world).entity_at(k),
                        team,
                        inviter,
                        excl,
                    )))
            }),
            spawn_check(*old(player), self.entity_type) is None && old(player).team_id is None
                && old(player).invitation is None && old(world).spot_free(
                Vec2i { x: 0, y: 0 },
                radius_of(self.entity_type),
                kind_of(self.entity_type),
                spawn_exclusion(*old(world), *old(player), self.entity_type),
            ) ==> r is Ok,
    {
        if matches!(player.status, Status::Alive { .. }) {
            return Err(Error::AlreadyAlive);
        }
        if !self.entity_type.can_spawn_as(player.bot) {
            return Err(Error::IneligibleType);
        }
        let exclusion: Option<Vec2i> = match player.status {
            Status::Dead { by_player, position, time } => {
                if by_player && world.time - time < 10 && matches!(
                    self.entity_type.kind(),
                    EntityKind::Boat,
                ) {
                    Some(position)
                } else {
                    None
                }
            },
            _ => None,
        };
        let mut spawn_position = Vec2i { x: 0, y: 0 };
        let mut spawn_radius = world.radius;
        let ghost mut anchor_idx: int = 0;
        let ghost mut anchored = false;
        if player.team_id.is_some() || player.invitation.is_some() {
            let inviter: Option<u32> = match player.invitation {
                Some(inv) => Some(inv.player_id),
                None => None,
            };
            match find_anchor(&world.entities, player.team_id, inviter, exclusion) {
                Some(aj) => {
                    proof {
                        anchor_idx = aj as int;
                        anchored = true;
                    }
                    match &world.entities[aj] {
                        Some(team_boat) => {
                            spawn_position = team_boat.transform.position;
                            spawn_radius = team_boat.entity_type.radius() + 100;
                            if spawn_radius > world.radius {
                                spawn_radius = world.radius;
                            }
                        },
                        None => {
                            proof {
                                assert(false);
                            }
                        },
                    }
                },
                None => {},
            }
        }
        let mut boat = Entity::new(self.entity_type, Some(player.player_id), player.team_id);
        boat.transform.position = spawn_position;
        match world.place_entity(boat, spawn_radius, exclusion) {
            Some(j) => {
                proof {
                    if anchored {
                        assert(old(world).live(anchor_idx));
                        assert(world.entity_at(j as int).transform.position.x - spawn_position.x
                            <= spawn_radius);
                    }
                }
                player.status = Status::Alive { entity_index: j, aim_target: None };
                Ok(())
            },
            None => Err(Error::NoSpace),
        }
    }
}

/// Relies on rand's thread_rng and gen: one uniformly random u16 per
/// call; nothing can be promised about which value comes back.
#[verifier::external_body]
fn random_angle_units() -> (r: u16) {
    rand::thread_rng().gen::<u16>()
}

/// Terrain a depositor reaches around its firing point.
pub const DEPOSITOR_RADIUS: i64 = 60;

/// Launch inaccuracy in thousandths of the drawn random angle: rockets
/// deviate most, shells least.
pub open spec fn deviation_milli(sk: EntitySubKind) -> int {
    match sk {
        EntitySubKind::Rocket => 50,
        EntitySubKind::Shell => 10,
        _ => 30,
    }
}

/// The first reason a shot must be refused, if any: not alive, fired in
/// the tick of an upgrade, an armament index out of bounds, an armament
/// still reloading, a sub-kind that cannot fire submerged, a mounting
/// turret outside its azimuth limits, or, for a depositor, a non-finite
/// or too distant target.
pub open spec fn fire_check(
    w: World,
    p: Player,
    armament_index: u32,
    position_target: RawVec2,
) -> Option<Error> {
    if !(p.status is Alive) {
        Some(Error::NotAlive)
    } else if p.flags.upgraded {
        Some(Error::JustUpgraded)
    } else {
        let e = w.entity_at(p.alive_index());
        let arms = armaments_of(e.entity_type);
        if armament_index as int >= arms.len() {
            Some(Error::OutOfBoundsIndex)
        } else {
            let arm = arms[armament_index as int];
            let sk = sub_kind_of(arm.entity_type);
            if e.extension.reloads@[armament_index as int] != 0 {
                Some(Error::NotReloaded)
            } else if e.altitude < 0 && (sk == EntitySubKind::Shell || sk == EntitySubKind::Sam) {
                Some(Error::Submerged)
            } else if (arm.turret matches Some(ti) && !turret_aligned(e, ti as int)) {
                Some(Error::OutsideAzimuth)
            } else if sk == EntitySubKind::Depositor {
                if position_target.x is NonFinite || position_target.y is NonFinite {
                    Some(Error::NotFinite)
                } else if sanitized_point(position_target, w.radius).dist2(e.transform.position)
                    > 4 * DEPOSITOR_RADIUS * DEPOSITOR_RADIUS {
                    Some(Error::TooFar)
                } else {
                    None
                }
            } else {
                None
            }
        }
    }
}

/// The firing checks read none of the fields a control update touches:
/// two states that agree on the clock-free frame, the flags, the alive
/// index and the controlled entity's type, altitude, transform, reloads
/// and turrets decide a shot the same way.
pub proof fn lemma_fire_check_stable(
    w1: World,
    w2: World,
    p1: Player,
    p2: Player,
    armament_index: u32,
    position_target: RawVec2,
)
    requires
        p1.status is Alive,
        p2.status is Alive,
        p2.status->entity_index == p1.status->entity_index,
        p2.flags == p1.flags,
        w2.radius == w1.radius,
        w2.entity_at(p1.alive_index()).entity_type == w1.entity_at(p1.alive_index()).entity_type,
        w2.entity_at(p1.alive_index()).altitude == w1.entity_at(p1.alive_index()).altitude,
        w2.entity_at(p1.alive_index()).transform == w1.entity_at(p1.alive_index()).transform,
        w2.entity_at(p1.alive_index()).extension.reloads@ == w1.entity_at(
            p1.alive_index(),
        ).extension.reloads@,
        w2.entity_at(p1.alive_index()).extension.turrets@ == w1.entity_at(
            p1.alive_index(),
        ).extension.turrets@,
    ensures
        fire_check(w2, p2, armament_index, position_target) == fire_check(
            w1,
            p1,
            armament_index,
            position_target,
        ),
{
}

/// The turret's current angle lies within its azimuth limits.
pub open spec fn turret_aligned(e: Entity, ti: int) -> bool {
    let t = turrets_of(e.entity_type)[ti];
    -(t.azimuth_half as int) <= azimuth_diff(
        e.extension.turrets@[ti] as int,
        t.azimuth_center as int,
    ) <= t.azimuth_half as int
}

/// The direction an armament is aimed along: toward the stored aim target
/// when there is one, else straight along the platform's heading.
pub open spec fn fire_direction(w: World, p: Player) -> int {
    let e = w.entity_at(p.alive_index());
    match p.status->aim_target {
        Some(aim) => angle_of_spec(
            Vec2i {
                x: (aim.x - e.transform.position.x) as i64,
                y: (aim.y - e.transform.position.y) as i64,
            },
        ),
        None => e.transform.direction as int,
    }
}

/// The direction the launched entity itself points before deviation: the
/// aim direction for a vertical launch, else the mount's direction.
pub open spec fn launch_base_direction(w: World, p: Player, index: int) -> int {
    let e = w.entity_at(p.alive_index());
    let arm = armaments_of(e.entity_type)[index];
    if arm.vertical {
        fire_direction(w, p)
    } else {
        match arm.turret {
            Some(ti) => wrap_add(e.transform.direction as int, e.extension.turrets@[ti as int] as int),
            None => e.transform.direction as int,
        }
    }
}

/// Where a depositor shot lands: the sanitized target pulled to within
/// the depositor radius of the firing point.
pub open spec fn depositor_target(w: World, p: Player, position_target: RawVec2) -> Vec2i {
    let e = w.entity_at(p.alive_index());
    let s = sanitized_point(position_target, w.radius);
    let delta = Vec2i {
        x: (s.x - e.transform.position.x) as i64,
        y: (s.y - e.transform.position.y) as i64,
    };
    Vec2i {
        x: (e.transform.position.x + clamp_len_x(delta, DEPOSITOR_RADIUS as int)) as i64,
        y: (e.transform.position.y + clamp_len_y(delta, DEPOSITOR_RADIUS as int)) as i64,
    }
}

/// A request to fire one armament at an optional position target.
#[derive(Clone, Copy, PartialEq, Eq, Structural, Debug)]
pub struct Fire {
    pub armament_index: u32,
    pub position_target: RawVec2,
}

impl Fire {
    /// Validates the whole firing chain, then either modifies terrain (a
    /// depositor) or launches a new entity inheriting the platform's
    /// altitude, aimed with a small random deviation. Only on success is
    /// the reload timer started and spawn protection forfeited; the
    /// player record itself is never touched.
    pub fn apply(&self, world: &mut World, player: &mut Player) -> (r: Result<(), Error>)
        requires
            old(world).wf(),
            player_ok(*old(world), *old(player)),
        ensures
            final(world).wf(),
            player_ok(*final(world), *final(player)),
            *final(player) == *old(player),
            final(world).radius == old(world).radius,
            final(world).time == old(world).time,
            r matches Err(e) ==> (e != Error::NoSpace ==> Some(e) == fire_check(
                *old(world),
                *old(player),
                self.armament_index,
                self.position_target,
            ) && *final(world) == *old(world)),
            fire_check(*old(world), *old(player), self.armament_index, self.position_target)
                matches Some(e) ==> r == Result::<(), Error>::Err(e),
            r == Result::<(), Error>::Err(Error::NoSpace) ==> *final(world) == *old(world),
            fire_check(*old(world), *old(player), self.armament_index, self.position_target)
                is None ==> ({
                let i = old(player).alive_index();
                let arm = armaments_of(old(world).entity_at(i).entity_type)[self.armament_index as int];
                let launch_free = old(world).spot_free(
                    old(world).entity_at(i).transform.position,
                    radius_of(arm.entity_type),
                    kind_of(arm.entity_type),
                    None,
                );
                &&& (sub_kind_of(arm.entity_type) == EntitySubKind::Depositor ==> r is Ok)
                &&& (sub_kind_of(arm.entity_type) != EntitySubKind::Depositor && launch_free
                    ==> r is Ok)
                &&& (r == Result::<(), Error>::Err(Error::NoSpace) ==> !launch_free)
            }),
            r is Ok ==> fire_check(
                *old(world),
                *old(player),
                self.armament_index,
                self.position_target,
            ) is None && ({
                let i = old(player).alive_index();
                let boat = old(world).entity_at(i);
                let arm = armaments_of(boat.entity_type)[self.armament_index as int];
                let sk = sub_kind_of(arm.entity_type);
                &&& final(world).live(i)
                &&& final(world).entity_at(i).extension.reloads@ == boat.extension.reloads@.update(
                    self.armament_index as int,
                    reload_of(arm.entity_type) as u32,
                )
                &&& final(world).entity_at(i).extension.spawn_protection == false
                &&& final(world).entity_at(i).extension.turrets@ == boat.extension.turrets@
                &&& final(world).entity_at(i).extension.active == boat.extension.active
                &&& final(world).entity_at(i).extension.altitude_target
                    == boat.extension.altitude_target
                &&& final(world).entity_at(i).entity_type == boat.entity_type
                &&& final(world).entity_at(i).transform == boat.transform
                &&& final(world).entity_at(i).guidance == boat.guidance
                &&& final(world).entity_at(i).altitude == boat.altitude
                &&& final(world).entity_at(i).owner_player == boat.owner_player
                &&& final(world).entity_at(i).owner_team == boat.owner_team
                &&& (forall|k: int|
                    #![trigger old(world).entities@[k]]
                    old(world).live(k) && k != i ==> final(world).live(k) && final(world).entity_at(
                        k,
                    ) == old(world).entity_at(k))
                &&& (sk == EntitySubKind::Depositor ==> final(world).terrain.mods@ == old(
                    world,
                ).terrain.mods@.push(
                    TerrainMod {
                        position: depositor_target(*old(world), *old(player), self.position_target),
                        radius: DEPOSITOR_RADIUS,
                    },
                ) && final(world).entities@ == old(world).entities@.update(
                    i,
                    Some(final(world).entity_at(i)),
                ))
                &&& (sk != EntitySubKind::Depositor ==> final(world).terrain.mods@ == old(
                    world,
                ).terrain.mods@ && (exists|j: int|
                    #![trigger final(world).entity_at(j)]
                    {
                        &&& final(world).live(j)
                        &&& j != i
                        &&& final(world).entity_at(j).entity_type == arm.entity_type
                        &&& final(world).entity_at(j).owner_player == Some(old(player).player_id)
                        &&& final(world).entity_at(j).altitude == boat.altitude
                        &&& final(world).entity_at(j).transform.position == boat.transform.position
                        &&& final(world).entity_at(j).guidance.velocity_target == speed_of(
                            arm.entity_type,
                        )
                        &&& final(world).entity_at(j).guidance.direction_target == fire_direction(
                            *old(world),
                            *old(player),
                        )
                        &&& (exists|d: int|
                            -33 * deviation_milli(sk) <= d <= 33 * deviation_milli(sk)
                                && final(world).entity_at(j).transform.direction == wrap_add(
                                launch_base_direction(
                                    *old(world),
                                    *old(player),
                                    self.armament_index as int,
                                ),
                                d,
                            ))
                        &&& ((j < old(world).entities@.len() && old(world).entities@[j] is None
                            && final(world).entities@ == old(world).entities@.update(
                            j,
                            Some(final(world).entity_at(j)),
                        ).update(i, Some(final(world).entity_at(i))))
                            || (j == old(world).entities@.len()
                            && final(world).entities@ == old(world).entities@.push(
                            Some(final(world).entity_at(j)),
                        ).update(i, Some(final(world).entity_at(i)))))
                    }))
            }),
    {
        let ghost mut new_idx: int = 0;
        let ghost mut dev_used: int = 0;
        let (entity_index, aim_target) = match player.status {
            Status::Alive { entity_index, aim_target } => (entity_index, aim_target),
            _ => {
                return Err(Error::NotAlive);
            },
        };
        if player.flags.upgraded {
            return Err(Error::JustUpgraded);
        }
        let (etype, epos, edir, ealt) = match &world.entities[entity_index] {
            Some(e) => (e.entity_type, e.transform.position, e.transform.direction, e.altitude),
            None => {
                proof {
                    assert(false);
                }
                return Err(Error::NotAlive);
            },
        };
        let index = self.armament_index as usize;
        if index >= etype.armament_count() {
            return Err(Error::OutOfBoundsIndex);
        }
        let arm = etype.armament(index);
        let reload_now = match &world.entities[entity_index] {
            Some(e) => e.extension.reloads[index],
            None => {
                proof {
                    assert(false);
                }
                0
            },
        };
        if reload_now != 0 {
            return Err(Error::NotReloaded);
        }
        let sk = arm.entity_type.sub_kind();
        if ealt < 0 && (matches!(sk, EntitySubKind::Shell) || matches!(sk, EntitySubKind::Sam)) {
            return Err(Error::Submerged);
        }
        proof {
            lemma_armament_turrets_in_range(etype, index as int);
        }
        match arm.turret {
            Some(ti) => {
                let tangle = match &world.entities[entity_index] {
                    Some(e) => e.extension.turrets[ti],
                    None => {
                        proof {
                            assert(false);
                        }
                        0
                    },
                };
                let tdata = etype.turret(ti);
                if !within_azimuth(tangle, tdata.azimuth_center, tdata.azimuth_half) {
                    return Err(Error::OutsideAzimuth);
                }
            },
            None => {},
        }
        let mount = match &world.entities[entity_index] {
            Some(e) => e.armament_transform(index),
            None => {
                proof {
                    assert(false);
                }
                Transform { position: epos, direction: edir }
            },
        };
        if matches!(sk, EntitySubKind::Depositor) {
            let wr = world.radius;
            let target = match sanitize_vec2(self.position_target, -2 * wr, 2 * wr) {
                Ok(p) => p,
                Err(e) => {
                    return Err(e);
                },
            };
            if target.distance_squared(epos) > 4 * DEPOSITOR_RADIUS * DEPOSITOR_RADIUS {
                return Err(Error::TooFar);
            }
            let delta = Vec2i { x: target.x - epos.x, y: target.y - epos.y };
            let cl = delta.clamp_length_max(DEPOSITOR_RADIUS);
            let pos = Vec2i { x: epos.x + cl.x, y: epos.y + cl.y };
            world.terrain.modify(pos, DEPOSITOR_RADIUS);
        } else {
            let mut armament_entity = Entity::new(
                arm.entity_type,
                Some(player.player_id),
                player.team_id,
            );
            let aim_angle: u16 = match aim_target {
                Some(aim) => angle_of(Vec2i { x: aim.x - epos.x, y: aim.y - epos.y }),
                None => edir,
            };
            armament_entity.transform = Transform {
                position: mount.position,
                direction: if arm.vertical {
                    aim_angle
                } else {
                    mount.direction
                },
            };
            armament_entity.altitude = ealt;
            armament_entity.guidance = Guidance {
                velocity_target: arm.entity_type.speed(),
                direction_target: aim_angle,
            };
            let raw = random_angle_units();
            let milli: i64 = match sk {
                EntitySubKind::Rocket => 50,
                EntitySubKind::Shell => 10,
                _ => 30,
            };
            let centered: i64 = raw as i64 - 32768;
            proof {
                let ca = if centered >= 0 {
                    centered as int
                } else {
                    -(centered as int)
                };
                crate::vector::lemma_mul_bound(ca, milli as int, 32768, 50);
                assert(0 <= ca * (milli as int) / 1000 <= 33 * (milli as int))
                    by (nonlinear_arith)
                    requires
                        0 <= ca <= 32768,
                        1 <= milli as int <= 50,
                ;
            }
            let dev: i64 = if centered >= 0 {
                centered * milli / 1000
            } else {
                -((-centered) * milli / 1000)
            };
            proof {
                dev_used = dev as int;
            }
            armament_entity.transform.direction = angle_add(
                armament_entity.transform.direction,
                dev,
            );
            match world.place_entity(armament_entity, 0, None) {
                Some(pj) => {
                    proof {
                        new_idx = pj as int;
                    }
                },
                None => {
                    return Err(Error::NoSpace);
                },
            }
        }
        let slot = slot_mut(&mut world.entities, entity_index);
        match slot {
            Some(e) => {
                e.consume_armament(index);
                e.clear_spawn_protection();
            },
            None => {
                proof {
                    assert(false);
                }
            },
        }
        proof {
            if !(sk is Depositor) {
                assert(new_idx != entity_index as int);
                assert(world.live(new_idx));
                assert(-33 * deviation_milli(sk) <= dev_used <= 33 * deviation_milli(sk) && world
                    .entity_at(new_idx).transform.direction == wrap_add(
                    launch_base_direction(*old(world), *old(player), self.armament_index as int),
                    dev_used,
                ));
            }
        }
        Ok(())
    }
}

/// The valid world extent for sanitized points: twice the radius each way.
fn world_extent(world: &World) -> (r: (i64, i64))
    requires
        world.wf(),
    ensures
        r.0 as int == -2 * world.radius,
        r.1 as int == 2 * world.radius,
        -2_000_000 <= r.0 <= r.1 <= 2_000_000,
{
    (-2 * world.radius, 2 * world.radius)
}

/// The reason a control update must be refused before any mutation, if
/// any: not alive, or an aim point with a non-finite coordinate.
pub open spec fn control_check(p: Player, aim_target: Option<RawVec2>) -> Option<Error> {
    if !(p.status is Alive) {
        Some(Error::NotAlive)
    } else if (aim_target matches Some(v) && (v.x is NonFinite || v.y is NonFinite)) {
        Some(Error::NotFinite)
    } else {
        None
    }
}

/// A point pulled to within the boat's sensor range of its position,
/// along the same direction.
pub open spec fn aim_spec(epos: Vec2i, etype: EntityType, s: Vec2i) -> Vec2i {
    let delta = Vec2i { x: (s.x - epos.x) as i64, y: (s.y - epos.y) as i64 };
    let rng = sensor_range_of(etype);
    Vec2i {
        x: (epos.x + clamp_len_x(delta, rng)) as i64,
        y: (epos.y + clamp_len_y(delta, rng)) as i64,
    }
}

/// The aim point actually stored: the raw point sanitized into the world
/// extent, then pulled to within the boat's sensor range of its position,
/// along the same direction.
pub open spec fn stored_aim(w: World, p: Player, raw: RawVec2) -> Vec2i {
    aim_spec(
        w.entity_at(p.alive_index()).transform.position,
        w.entity_at(p.alive_index()).entity_type,
        sanitized_point(raw, w.radius),
    )
}

/// Clamps a sanitized aim point to the boat's sensor range.
fn aim_from(epos: Vec2i, etype: EntityType, s: Vec2i) -> (r: Vec2i)
    requires
        epos.in_bounds(2 * crate::world::MAX_WORLD_RADIUS),
        s.in_bounds(2 * crate::world::MAX_WORLD_RADIUS),
    ensures
        r == aim_spec(epos, etype, s),
        -2000 <= r.x - epos.x <= 2000,
        -2000 <= r.y - epos.y <= 2000,
        r.dist2(epos) <= sensor_range_of(etype) * sensor_range_of(etype),
{
    let delta = Vec2i { x: s.x - epos.x, y: s.y - epos.y };
    let rng = etype.sensor_range();
    let cl = delta.clamp_length_max(rng);
    let r = Vec2i { x: epos.x + cl.x, y: epos.y + cl.y };
    proof {
        assert(r.dist2(epos) == cl.len2()) by (nonlinear_arith)
            requires
                r.x == epos.x + cl.x,
                r.y == epos.y + cl.y,
        ;
    }
    r
}

/// A guidance, aim and toggle update, optionally carrying embedded fire,
/// pay and hint sub-commands applied in that fixed order.
#[derive(Clone, Copy, PartialEq, Eq, Structural, Debug)]
pub struct Control {
    pub guidance: Option<Guidance>,
    pub aim_target: Option<RawVec2>,
    pub active: bool,
    pub altitude_target: Option<i8>,
    pub fire: Option<Fire>,
    pub pay: Option<Pay>,
    pub hint: Option<Hint>,
}

/// The movement, aim, toggle and altitude part of a control update,
/// before any embedded sub-command runs.
#[verifier::rlimit(100)]
fn control_update(c: &Control, world: &mut World, player: &mut Player) -> (r: Result<(), Error>)
    requires
        old(world).wf(),
        1 <= old(world).radius <= 1_000_000,
        player_ok(*old(world), *old(player)),
    ensures
        final(world).wf(),
        player_ok(*final(world), *final(player)),
        same_identity(*final(player), *old(player)),
        final(world).radius == old(world).radius,
        final(world).time == old(world).time,
        control_check(*old(player), c.aim_target) matches Some(e) ==> r == Result::<
            (),
            Error,
        >::Err(e) && *final(world) == *old(world) && *final(player) == *old(player),
        r is Ok <==> control_check(*old(player), c.aim_target) is None,
        r is Ok ==> ({
            let i = old(player).alive_index();
            &&& final(player).status is Alive
            &&& final(player).status->entity_index == old(player).status->entity_index
            &&& final(player).status->aim_target == (match c.aim_target {
                Some(raw) => Some(stored_aim(*old(world), *old(player), raw)),
                None => None::<Vec2i>,
            })
            &&& final(world).live(i)
            &&& final(world).entity_at(i).guidance == (match c.guidance {
                Some(g) => g,
                None => old(world).entity_at(i).guidance,
            })
            &&& final(world).entity_at(i).extension.active == c.active
            &&& final(world).entity_at(i).extension.altitude_target == (match c.altitude_target {
                Some(a) => a,
                None => old(world).entity_at(i).extension.altitude_target,
            })
        }),
        r is Ok ==> final(world).terrain.mods@ == old(world).terrain.mods@ && final(player).hint
            == old(player).hint && final(player).score == old(player).score && final(player).flags
            == old(player).flags && final(world).entities@.len() == old(world).entities@.len(),
        r is Ok ==> ({
            let i = old(player).alive_index();
            &&& final(world).entities@ == old(world).entities@.update(
                i,
                Some(final(world).entity_at(i)),
            )
            &&& final(world).entity_at(i) == (Entity {
                guidance: (match c.guidance {
                    Some(g) => g,
                    None => old(world).entity_at(i).guidance,
                }),
                extension: (Extension {
                    active: c.active,
                    altitude_target: (match c.altitude_target {
                        Some(a) => a,
                        None => old(world).entity_at(i).extension.altitude_target,
                    }),
                    ..old(world).entity_at(i).extension
                }),
                ..old(world).entity_at(i)
            })
            &&& *final(player) == (Player { status: final(player).status, ..*old(player) })
        }),
        r is Ok ==> (c.aim_target matches Some(raw) ==> (final(player).status->aim_target matches
            Some(a) && a.dist2(
            old(world).entity_at(old(player).alive_index()).transform.position,
        ) <= sensor_range_of(old(world).entity_at(old(player).alive_index()).entity_type)
            * sensor_range_of(old(world).entity_at(old(player).alive_index()).entity_type))),
{
    let entity_index = match player.status {
        Status::Alive { entity_index, .. } => entity_index,
        _ => {
            return Err(Error::NotAlive);
        },
    };
    let (lo, hi) = world_extent(world);
    let sanitized: Option<Vec2i> = match c.aim_target {
        Some(raw) => {
            match sanitize_vec2(raw, lo, hi) {
                Ok(v) => Some(v),
                Err(e) => {
                    return Err(e);
                },
            }
        },
        None => None,
    };
    let (epos, etype) = match &world.entities[entity_index] {
        Some(e) => (e.transform.position, e.entity_type),
        None => {
            proof {
                assert(false);
            }
            return Err(Error::NotAlive);
        },
    };
    let stored: Option<Vec2i> = match sanitized {
        Some(s) => Some(aim_from(epos, etype, s)),
        None => None,
    };
    let slot = slot_mut(&mut world.entities, entity_index);
    match slot {
        Some(e) => {
            if let Some(g) = c.guidance {
                e.guidance = g;
            }
            e.extension.active = c.active;
            if let Some(at) = c.altitude_target {
                e.extension.altitude_target = at;
            }
        },
        None => {
            proof {
                assert(false);
            }
        },
    }
    player.status = Status::Alive { entity_index, aim_target: stored };
    Ok(())
}

/// The whole control update; the public method on Control delegates
/// here unchanged.
#[verifier::rlimit(100)]
fn control_apply(c: &Control, world: &mut World, player: &mut Player) -> (r: Result<(), Error>)
    requires
        old(world).wf(),
        player_ok(*old(world), *old(player)),
    ensures
        final(world).wf(),
        player_ok(*final(world), *final(player)),
        same_identity(*final(player), *old(player)),
        final(world).radius == old(world).radius,
        final(world).time == old(world).time,
        control_check(*old(player), c.aim_target) matches Some(e) ==> r == Result::<
            (),
            Error,
        >::Err(e) && *final(world) == *old(world) && *final(player) == *old(player),
        r is Ok ==> control_check(*old(player), c.aim_target) is None,
        control_check(*old(player), c.aim_target) is None ==> ({
        let i = old(player).alive_index();
        &&& final(player).status is Alive
        &&& final(player).status->entity_index == old(player).status->entity_index
        &&& final(player).status->aim_target == (match c.aim_target {
            Some(raw) => Some(stored_aim(*old(world), *old(player), raw)),
            None => None::<Vec2i>,
        })
        &&& final(world).live(i)
        &&& final(world).entity_at(i).guidance == (match c.guidance {
            Some(g) => g,
            None => old(world).entity_at(i).guidance,
        })
        &&& final(world).entity_at(i).extension.active == c.active
        &&& final(world).entity_at(i).extension.altitude_target == (match c.altitude_target {
            Some(a) => a,
            None => old(world).entity_at(i).extension.altitude_target,
        })
    }),
        control_check(*old(player), c.aim_target) is None && c.fire is None && c.pay is None
            && c.hint is None ==> r is Ok,
        r is Ok && c.fire is None && c.pay is None && c.hint is None ==> ({
            let i = old(player).alive_index();
            &&& final(world).entities@ == old(world).entities@.update(
                i,
                Some(final(world).entity_at(i)),
            )
            &&& final(world).entity_at(i) == (Entity {
                guidance: (match c.guidance {
                    Some(g) => g,
                    None => old(world).entity_at(i).guidance,
                }),
                extension: (Extension {
                    active: c.active,
                    altitude_target: (match c.altitude_target {
                        Some(a) => a,
                        None => old(world).entity_at(i).extension.altitude_target,
                    }),
                    ..old(world).entity_at(i).extension
                }),
                ..old(world).entity_at(i)
            })
            &&& *final(player) == (Player { status: final(player).status, ..*old(player) })
        }),
        control_check(*old(player), c.aim_target) is None ==> (c.fire matches Some(f) ==> ({
            let fc = fire_check(*old(world), *old(player), f.armament_index, f.position_target);
            &&& (fc matches Some(e) ==> r == Result::<(), Error>::Err(e))
            &&& (r is Ok ==> fc is None)
        })),
        r is Ok ==> (c.hint matches Some(h) ==> h.aspect is Finite && final(player).hint.aspect
            == clamped(h.aspect->0 as int, 500, 2000) as i64),
        r is Ok ==> (c.pay matches Some(pp) ==> !(pp.position.x is NonFinite) && !(pp.position.y
            is NonFinite)),
        control_check(*old(player), c.aim_target) is None && c.fire is None ==> (c.pay matches
            Some(pp) ==> ((pp.position.x is NonFinite || pp.position.y is NonFinite) ==> r
            == Result::<(), Error>::Err(Error::NotFinite))),
        control_check(*old(player), c.aim_target) is None && c.fire is None && c.pay is None ==> (
            c.hint matches Some(h) ==> (h.aspect is NonFinite ==> r == Result::<(), Error>::Err(
            Error::NotFinite))),
        r is Ok ==> (c.aim_target matches Some(raw) ==> (final(player).status->aim_target matches
            Some(a) && a.dist2(
            old(world).entity_at(old(player).alive_index()).transform.position,
        ) <= sensor_range_of(old(world).entity_at(old(player).alive_index()).entity_type)
            * sensor_range_of(old(world).entity_at(old(player).alive_index()).entity_type))),
{
    match control_update(c, world, player) {
        Ok(()) => {},
        Err(e) => {
            return Err(e);
        },
    }
    proof {
        match c.fire {
            Some(f) => {
                lemma_fire_check_stable(
                    *old(world),
                    *world,
                    *old(player),
                    *player,
                    f.armament_index,
                    f.position_target,
                );
            },
            None => {},
        }
    }
    if let Some(f) = &c.fire {
        match f.apply(world, player) {
            Ok(()) => {},
            Err(e) => {
                return Err(e);
            },
        }
    }
    if let Some(pay) = &c.pay {
        match pay.apply(world, player) {
            Ok(()) => {},
            Err(e) => {
                return Err(e);
            },
        }
    }
    if let Some(h) = &c.hint {
        match h.apply(world, player) {
            Ok(()) => {},
            Err(e) => {
                return Err(e);
            },
        }
    }
    Ok(())
}

impl Control {
    /// Updates the controlled entity's guidance target in place (partial
    /// update: absent fields leave it untouched), stores the sanitized and
    /// range-clamped aim point or clears it, sets the active toggle and
    /// altitude target, then forwards any embedded fire, pay and hint
    /// sub-commands in that order, stopping at the first failure.
    pub fn apply(&self, world: &mut World, player: &mut Player) -> (r: Result<(), Error>)
        requires
            old(world).wf(),
            player_ok(*old(world), *old(player)),
        ensures
            final(world).wf(),
            player_ok(*final(world), *final(player)),
            same_identity(*final(player), *old(player)),
            final(world).radius == old(world).radius,
            final(world).time == old(world).time,
            control_check(*old(player), self.aim_target) matches Some(e) ==> r == Result::<
                (),
                Error,
            >::Err(e) && *final(world) == *old(world) && *final(player) == *old(player),
            r is Ok ==> control_check(*old(player), self.aim_target) is None,
            control_check(*old(player), self.aim_target) is None ==> ({
                let i = old(player).alive_index();
                &&& final(player).status is Alive
                &&& final(player).status->entity_index == old(player).status->entity_index
                &&& final(player).status->aim_target == (match self.aim_target {
                    Some(raw) => Some(stored_aim(*old(world), *old(player), raw)),
                    None => None::<Vec2i>,
                })
                &&& final(world).live(i)
                &&& final(world).entity_at(i).guidance == (match self.guidance {
                    Some(g) => g,
                    None => old(world).entity_at(i).guidance,
                })
                &&& final(world).entity_at(i).extension.active == self.active
                &&& final(world).entity_at(i).extension.altitude_target == (match self
                    .altitude_target {
                    Some(a) => a,
                    None => old(world).entity_at(i).extension.altitude_target,
                })
            }),
            control_check(*old(player), self.aim_target) is None && self.fire is None && self.pay is None
                && self.hint is None ==> r is Ok,
            r is Ok && self.fire is None && self.pay is None && self.hint is None ==> ({
                let i = old(player).alive_index();
                &&& final(world).entities@ == old(world).entities@.update(
                    i,
                    Some(final(world).entity_at(i)),
                )
                &&& final(world).entity_at(i) == (Entity {
                    guidance: (match self.guidance {
                        Some(g) => g,
                        None => old(world).entity_at(i).guidance,
                    }),
                    extension: (Extension {
                        active: self.active,
                        altitude_target: (match self.altitude_target {
                            Some(a) => a,
                            None => old(world).entity_at(i).extension.altitude_target,
                        }),
                        ..old(world).entity_at(i).extension
                    }),
                    ..old(world).entity_at(i)
                })
                &&& *final(player) == (Player { status: final(player).status, ..*old(player) })
            }),
            control_check(*old(player), self.aim_target) is None ==> (self.fire matches Some(f) ==> ({
                let fc = fire_check(*old(world), *old(player), f.armament_index, f.position_target);
                &&& (fc matches Some(e) ==> r == Result::<(), Error>::Err(e))
                &&& (r is Ok ==> fc is None)
            })),
            r is Ok ==> (self.hint matches Some(h) ==> h.aspect is Finite && final(player).hint.aspect
                == clamped(h.aspect->0 as int, 500, 2000) as i64),
            r is Ok ==> (self.pay matches Some(pp) ==> !(pp.position.x is NonFinite) && !(pp.position.y
                is NonFinite)),
            control_check(*old(player), self.aim_target) is None && self.fire is None ==> (self.pay matches
                Some(pp) ==> ((pp.position.x is NonFinite || pp.position.y is NonFinite) ==> r
                == Result::<(), Error>::Err(Error::NotFinite))),
            control_check(*old(player), self.aim_target) is None && self.fire is None && self.pay is None ==> (
                self.hint matches Some(h) ==> (h.aspect is NonFinite ==> r == Result::<(), Error>::Err(
                Error::NotFinite))),
            r is Ok ==> (self.aim_target matches Some(raw) ==> (final(player).status->aim_target matches
                Some(a) && a.dist2(
                old(world).entity_at(old(player).alive_index()).transform.position,
            ) <= sensor_range_of(old(world).entity_at(old(player).alive_index()).entity_type)
                * sensor_range_of(old(world).entity_at(old(player).alive_index()).entity_type))),
    {
        control_apply(self, world, player)
    }
}

/// One decoded inbound command: a closed set of variants, each mapping
/// one to one onto a handler above.
#[derive(Clone, Copy, PartialEq, Eq, Structural, Debug)]
pub enum Command {
    Spawn(Spawn),
    Control(Control),
    Fire(Fire),
    Pay(Pay),
    Hint(Hint),
    Upgrade(Upgrade),
}

impl Command {
    /// Applies one command to the world and the issuing player. Every
    /// variant keeps the world well formed and the player consistent with
    /// it, never touches who the player is, and, except for a control
    /// whose embedded sub-commands had already taken effect, leaves all
    /// state exactly as before when it fails.
    pub fn apply(&self, world: &mut World, player: &mut Player) -> (r: Result<(), Error>)
        requires
            old(world).wf(),
            player_ok(*old(world), *old(player)),
        ensures
            final(world).wf(),
            player_ok(*final(world), *final(player)),
            same_identity(*final(player), *old(player)),
            final(world).radius == old(world).radius,
            final(world).time == old(world).time,
            r is Err && !(self is Control) ==> *final(world) == *old(world) && *final(player)
                == *old(player),
            self matches Command::Spawn(c) ==> ({
                &&& (spawn_check(*old(player), c.entity_type) matches Some(e) ==> r == Result::<
                    (),
                    Error,
                >::Err(e))
                &&& (r is Ok ==> spawn_check(*old(player), c.entity_type) is None
                    && final(player).status is Alive)
                &&& (r == Result::<(), Error>::Err(Error::NoSpace) ==> spawn_check(
                    *old(player),
                    c.entity_type,
                ) is None)
            }),
            self matches Command::Control(c) ==> ({
                &&& (control_check(*old(player), c.aim_target) matches Some(e) ==> r == Result::<
                    (),
                    Error,
                >::Err(e))
                &&& (r is Ok ==> control_check(*old(player), c.aim_target) is None)
            }),
            self matches Command::Fire(c) ==> ({
                let fc = fire_check(
                    *old(world),
                    *old(player),
                    c.armament_index,
                    c.position_target,
                );
                &&& (fc matches Some(e) ==> r == Result::<(), Error>::Err(e))
                &&& (r is Ok ==> fc is None)
            }),
            self matches Command::Pay(c) ==> ({
                &&& (r is Ok <==> pay_check(*old(world), *old(player), c.position) is None)
                &&& (r matches Err(e) ==> Some(e) == pay_check(*old(world), *old(player), c.position))
            }),
            self matches Command::Hint(c) ==> ({
                &&& (r is Ok <==> c.aspect is Finite)
                &&& (r is Ok ==> final(player).hint.aspect == clamped(
                    c.aspect->0 as int,
                    500,
                    2000,
                ) as i64)
            }),
            self matches Command::Upgrade(c) ==> ({
                &&& (r is Ok <==> upgrade_check(*old(world), *old(player), c.entity_type) is None)
                &&& (r matches Err(e) ==> Some(e) == upgrade_check(
                    *old(world),
                    *old(player),
                    c.entity_type,
                ))
            }),
    {
        match self {
            Command::Spawn(c) => c.apply(world, player),
            Command::Control(c) => c.apply(world, player),
            Command::Fire(c) => c.apply(world, player),
            Command::Pay(c) => c.apply(world, player),
            Command::Hint(c) => c.apply(world, player),
            Command::Upgrade(c) => c.apply(world, player),
        }
    }
}

} // verus!
