use naval_core::catalog::EntityType;
use naval_core::command::Command;
use naval_core::command::Control;
use naval_core::command::Fire;
use naval_core::command::Hint;
use naval_core::command::Pay;
use naval_core::command::Spawn;
use naval_core::command::Upgrade;
use naval_core::error::Error;
use naval_core::player::Flags;
use naval_core::player::HintState;
use naval_core::player::Player;
use naval_core::player::Status;
use naval_core::sanitize::RawScalar;
use naval_core::sanitize::RawVec2;
use naval_core::vector::Vec2i;
use naval_core::world::Terrain;
use naval_core::world::World;

fn make_world(radius: i64) -> World {
    World { radius, time: 0, entities: Vec::new(), terrain: Terrain { mods: Vec::new() } }
}

fn make_player(id: u32) -> Player {
    Player {
        player_id: id,
        team_id: None,
        invitation: None,
        score: 100,
        bot: false,
        hint: HintState { aspect: 1000 },
        flags: Flags { upgraded: false },
        status: Status::Spawning,
    }
}

fn finite(x: i64, y: i64) -> RawVec2 {
    RawVec2 { x: RawScalar::Finite(x), y: RawScalar::Finite(y) }
}

fn live_count(world: &World) -> usize {
    world.entities.iter().filter(|s| s.is_some()).count()
}

fn alive_index(player: &Player) -> usize {
    match player.status {
        Status::Alive { entity_index, .. } => entity_index,
        _ => panic!("player is not alive"),
    }
}

fn spawn_boat(world: &mut World, player: &mut Player) -> usize {
    Spawn { entity_type: EntityType::Gunboat }.apply(world, player).unwrap();
    alive_index(player)
}

#[test]
fn spawn_stores_a_live_boat_at_the_recorded_index() {
    let mut world = make_world(10000);
    let mut player = make_player(1);
    let idx = spawn_boat(&mut world, &mut player);
    let boat = world.entities[idx].as_ref().unwrap();
    assert_eq!(boat.entity_type, EntityType::Gunboat);
    assert_eq!(boat.owner_player, Some(1));
    assert_eq!(live_count(&world), 1);
}

#[test]
fn spawn_twice_without_a_death_is_rejected() {
    let mut world = make_world(10000);
    let mut player = make_player(1);
    spawn_boat(&mut world, &mut player);
    let before = live_count(&world);
    let r = Spawn { entity_type: EntityType::Gunboat }.apply(&mut world, &mut player);
    assert_eq!(r, Err(Error::AlreadyAlive));
    assert_eq!(live_count(&world), before);
}

#[test]
fn spawn_rejects_a_type_that_is_not_spawnable() {
    let mut world = make_world(10000);
    let mut player = make_player(1);
    assert_eq!(
        Spawn { entity_type: EntityType::Coin }.apply(&mut world, &mut player),
        Err(Error::IneligibleType)
    );
    assert_eq!(
        Spawn { entity_type: EntityType::Destroyer }.apply(&mut world, &mut player),
        Err(Error::IneligibleType)
    );
}

#[test]
fn spawn_without_allies_starts_at_the_world_center() {
    let mut world = make_world(10000);
    let mut player = make_player(1);
    let idx = spawn_boat(&mut world, &mut player);
    let pos = world.entities[idx].as_ref().unwrap().transform.position;
    assert_eq!(pos, Vec2i { x: 0, y: 0 });
}

#[test]
fn spawn_with_a_team_anchors_near_the_allied_boat() {
    let mut world = make_world(10000);
    let mut ally = make_player(1);
    ally.team_id = Some(5);
    let aidx = spawn_boat(&mut world, &mut ally);
    world.entities[aidx].as_mut().unwrap().transform.position = Vec2i { x: 500, y: 0 };

    let mut joiner = make_player(2);
    joiner.team_id = Some(5);
    Spawn { entity_type: EntityType::Gunboat }.apply(&mut world, &mut joiner).unwrap();
    let jidx = alive_index(&joiner);
    let pos = world.entities[jidx].as_ref().unwrap().transform.position;
    assert!((pos.x - 500).abs() <= 150 && pos.y.abs() <= 150);
}

#[test]
fn spawn_fails_when_no_space_is_free() {
    let mut world = make_world(10);
    let mut first = make_player(1);
    spawn_boat(&mut world, &mut first);
    let mut second = make_player(2);
    let r = Spawn { entity_type: EntityType::Gunboat }.apply(&mut world, &mut second);
    assert_eq!(r, Err(Error::NoSpace));
    assert!(matches!(second.status, Status::Spawning));
}

#[test]
fn fire_with_an_index_out_of_bounds_changes_nothing() {
    let mut world = make_world(10000);
    let mut player = make_player(1);
    let idx = spawn_boat(&mut world, &mut player);
    let before = live_count(&world);
    let r = Fire { armament_index: 5, position_target: finite(0, 0) }.apply(
        &mut world,
        &mut player,
    );
    assert_eq!(r, Err(Error::OutOfBoundsIndex));
    assert_eq!(live_count(&world), before);
    let boat = world.entities[idx].as_ref().unwrap();
    assert!(boat.extension.reloads.iter().all(|&t| t == 0));
}

#[test]
fn fire_launches_a_torpedo_and_starts_the_reload() {
    let mut world = make_world(10000);
    let mut player = make_player(1);
    let idx = spawn_boat(&mut world, &mut player);
    let r = Fire { armament_index: 1, position_target: finite(0, 0) }.apply(
        &mut world,
        &mut player,
    );
    assert_eq!(r, Ok(()));
    assert_eq!(live_count(&world), 2);
    let boat = world.entities[idx].as_ref().unwrap();
    assert_eq!(boat.extension.reloads[1], 40);
    assert!(!boat.extension.spawn_protection);
    let torpedo = world
        .entities
        .iter()
        .flatten()
        .find(|e| e.entity_type == EntityType::Torpedo)
        .unwrap();
    assert_eq!(torpedo.guidance.velocity_target, 500);
    assert_eq!(torpedo.guidance.direction_target, 0);
    assert_eq!(torpedo.owner_player, Some(1));
}

#[test]
fn fire_is_refused_until_the_armament_reloads() {
    let mut world = make_world(10000);
    let mut player = make_player(1);
    spawn_boat(&mut world, &mut player);
    Fire { armament_index: 1, position_target: finite(0, 0) }.apply(&mut world, &mut player)
        .unwrap();
    let before = live_count(&world);
    let r = Fire { armament_index: 1, position_target: finite(0, 0) }.apply(
        &mut world,
        &mut player,
    );
    assert_eq!(r, Err(Error::NotReloaded));
    assert_eq!(live_count(&world), before);
}

#[test]
fn fire_while_not_alive_is_refused() {
    let mut world = make_world(10000);
    let mut player = make_player(1);
    let r = Fire { armament_index: 0, position_target: finite(0, 0) }.apply(
        &mut world,
        &mut player,
    );
    assert_eq!(r, Err(Error::NotAlive));
}

#[test]
fn submerged_platform_cannot_fire_shells_but_can_fire_rockets() {
    let mut world = make_world(10000);
    let mut player = make_player(1);
    let idx = spawn_boat(&mut world, &mut player);
    world.entities[idx].as_mut().unwrap().altitude = -1;
    let r = Fire { armament_index: 0, position_target: finite(0, 0) }.apply(
        &mut world,
        &mut player,
    );
    assert_eq!(r, Err(Error::Submerged));
    let r = Fire { armament_index: 2, position_target: finite(0, 0) }.apply(
        &mut world,
        &mut player,
    );
    assert_eq!(r, Ok(()));
}

#[test]
fn turret_outside_its_azimuth_cannot_fire() {
    let mut world = make_world(10000);
    let mut player = make_player(1);
    let idx = spawn_boat(&mut world, &mut player);
    world.entities[idx].as_mut().unwrap().extension.turrets[0] = 16384;
    let r = Fire { armament_index: 0, position_target: finite(0, 0) }.apply(
        &mut world,
        &mut player,
    );
    assert_eq!(r, Err(Error::OutsideAzimuth));
}

#[test]
fn depositor_modifies_terrain_at_the_clamped_point() {
    let mut world = make_world(10000);
    let mut player = make_player(1);
    spawn_boat(&mut world, &mut player);
    let r = Fire { armament_index: 4, position_target: finite(100, 0) }.apply(
        &mut world,
        &mut player,
    );
    assert_eq!(r, Ok(()));
    assert_eq!(world.terrain.mods.len(), 1);
    assert_eq!(world.terrain.mods[0].position, Vec2i { x: 60, y: 0 });
    assert_eq!(world.terrain.mods[0].radius, 60);
}

#[test]
fn depositor_rejects_targets_beyond_twice_its_radius() {
    let mut world = make_world(10000);
    let mut player = make_player(1);
    spawn_boat(&mut world, &mut player);
    let r = Fire { armament_index: 4, position_target: finite(300, 0) }.apply(
        &mut world,
        &mut player,
    );
    assert_eq!(r, Err(Error::TooFar));
    assert_eq!(world.terrain.mods.len(), 0);
    let r = Fire { armament_index: 4, position_target: RawVec2 {
        x: RawScalar::NonFinite,
        y: RawScalar::Finite(0),
    } }.apply(&mut world, &mut player);
    assert_eq!(r, Err(Error::NotFinite));
}

#[test]
fn pay_below_the_funds_floor_is_rejected_and_score_kept() {
    let mut world = make_world(10000);
    let mut player = make_player(1);
    spawn_boat(&mut world, &mut player);
    player.score = 19;
    let r = Pay { position: finite(80, 0) }.apply(&mut world, &mut player);
    assert_eq!(r, Err(Error::InsufficientFunds));
    assert_eq!(player.score, 19);
}

#[test]
fn pay_deducts_exactly_the_withdrawal_when_the_pickup_places() {
    let mut world = make_world(10000);
    let mut player = make_player(1);
    spawn_boat(&mut world, &mut player);
    let r = Pay { position: finite(80, 0) }.apply(&mut world, &mut player);
    assert_eq!(r, Ok(()));
    assert_eq!(player.score, 80);
    let coin = world
        .entities
        .iter()
        .flatten()
        .find(|e| e.entity_type == EntityType::Coin)
        .unwrap();
    assert_eq!(coin.owner_player, Some(1));
}

#[test]
fn pay_never_charges_when_the_pickup_finds_no_space() {
    let mut world = make_world(10000);
    let mut player = make_player(1);
    let idx = spawn_boat(&mut world, &mut player);
    world.entities[idx].as_mut().unwrap().transform.position = Vec2i { x: 10000, y: 0 };
    let r = Pay { position: finite(10080, 0) }.apply(&mut world, &mut player);
    assert_eq!(r, Ok(()));
    assert_eq!(player.score, 100);
    assert_eq!(live_count(&world), 1);
}

#[test]
fn pay_rejects_targets_beyond_the_outer_radius() {
    let mut world = make_world(10000);
    let mut player = make_player(1);
    spawn_boat(&mut world, &mut player);
    let r = Pay { position: finite(101, 0) }.apply(&mut world, &mut player);
    assert_eq!(r, Err(Error::TooFar));
    assert_eq!(player.score, 100);
}

#[test]
fn hint_clamps_the_aspect_and_rejects_non_finite() {
    let mut world = make_world(10000);
    let mut player = make_player(1);
    let r = Hint { aspect: RawScalar::Finite(3000) }.apply(&mut world, &mut player);
    assert_eq!(r, Ok(()));
    assert_eq!(player.hint.aspect, 2000);
    let r = Hint { aspect: RawScalar::NonFinite }.apply(&mut world, &mut player);
    assert_eq!(r, Err(Error::NotFinite));
    assert_eq!(player.hint.aspect, 2000);
}

#[test]
fn upgrade_keeps_the_entity_index_and_reshapes_the_boat() {
    let mut world = make_world(10000);
    let mut player = make_player(1);
    let idx = spawn_boat(&mut world, &mut player);
    let r = Upgrade { entity_type: EntityType::Destroyer }.apply(&mut world, &mut player);
    assert_eq!(r, Ok(()));
    assert_eq!(alive_index(&player), idx);
    let boat = world.entities[idx].as_ref().unwrap();
    assert_eq!(boat.entity_type, EntityType::Destroyer);
    assert_eq!(boat.extension.reloads.len(), 3);
    assert_eq!(boat.extension.turrets.len(), 2);
    assert!(player.flags.upgraded);
}

#[test]
fn upgrade_is_refused_without_funds_or_path() {
    let mut world = make_world(10000);
    let mut player = make_player(1);
    spawn_boat(&mut world, &mut player);
    player.score = 19;
    let r = Upgrade { entity_type: EntityType::Destroyer }.apply(&mut world, &mut player);
    assert_eq!(r, Err(Error::IneligibleUpgrade));
    player.score = 100;
    let r = Upgrade { entity_type: EntityType::Coin }.apply(&mut world, &mut player);
    assert_eq!(r, Err(Error::IneligibleUpgrade));
}

#[test]
fn fire_in_the_tick_of_an_upgrade_is_refused() {
    let mut world = make_world(10000);
    let mut player = make_player(1);
    spawn_boat(&mut world, &mut player);
    Upgrade { entity_type: EntityType::Destroyer }.apply(&mut world, &mut player).unwrap();
    let r = Fire { armament_index: 0, position_target: finite(0, 0) }.apply(
        &mut world,
        &mut player,
    );
    assert_eq!(r, Err(Error::JustUpgraded));
}

#[test]
fn control_clamps_a_distant_aim_to_the_sensor_range() {
    let mut world = make_world(10000);
    let mut player = make_player(1);
    spawn_boat(&mut world, &mut player);
    let cmd = Control {
        guidance: None,
        aim_target: Some(finite(2000, 0)),
        active: true,
        altitude_target: None,
        fire: None,
        pay: None,
        hint: None,
    };
    assert_eq!(cmd.apply(&mut world, &mut player), Ok(()));
    match player.status {
        Status::Alive { aim_target, .. } => {
            assert_eq!(aim_target, Some(Vec2i { x: 1500, y: 0 }));
        },
        _ => panic!("player is not alive"),
    }
}

#[test]
fn control_clears_the_aim_and_forwards_an_embedded_hint() {
    let mut world = make_world(10000);
    let mut player = make_player(1);
    let idx = spawn_boat(&mut world, &mut player);
    let cmd = Control {
        guidance: None,
        aim_target: None,
        active: false,
        altitude_target: Some(-3),
        fire: None,
        pay: None,
        hint: Some(Hint { aspect: RawScalar::Finite(700) }),
    };
    assert_eq!(cmd.apply(&mut world, &mut player), Ok(()));
    match player.status {
        Status::Alive { aim_target, .. } => assert_eq!(aim_target, None),
        _ => panic!("player is not alive"),
    }
    let boat = world.entities[idx].as_ref().unwrap();
    assert!(!boat.extension.active);
    assert_eq!(boat.extension.altitude_target, -3);
    assert_eq!(player.hint.aspect, 700);
}

#[test]
fn control_rejects_a_non_finite_aim_before_any_mutation() {
    let mut world = make_world(10000);
    let mut player = make_player(1);
    let idx = spawn_boat(&mut world, &mut player);
    let before = world.entities[idx].as_ref().unwrap().guidance;
    let cmd = Control {
        guidance: Some(naval_core::entity::Guidance { velocity_target: 9, direction_target: 9 }),
        aim_target: Some(RawVec2 { x: RawScalar::NonFinite, y: RawScalar::Finite(0) }),
        active: true,
        altitude_target: None,
        fire: None,
        pay: None,
        hint: None,
    };
    assert_eq!(cmd.apply(&mut world, &mut player), Err(Error::NotFinite));
    assert_eq!(world.entities[idx].as_ref().unwrap().guidance, before);
}

#[test]
fn control_stops_at_the_first_failing_sub_command() {
    let mut world = make_world(10000);
    let mut player = make_player(1);
    spawn_boat(&mut world, &mut player);
    let cmd = Control {
        guidance: None,
        aim_target: None,
        active: true,
        altitude_target: None,
        fire: Some(Fire { armament_index: 9, position_target: finite(0, 0) }),
        pay: None,
        hint: Some(Hint { aspect: RawScalar::Finite(700) }),
    };
    assert_eq!(cmd.apply(&mut world, &mut player), Err(Error::OutOfBoundsIndex));
    assert_eq!(player.hint.aspect, 1000);
}

#[test]
fn dispatch_reaches_every_variant() {
    let mut world = make_world(10000);
    let mut player = make_player(1);
    let r = Command::Spawn(Spawn { entity_type: EntityType::Gunboat }).apply(
        &mut world,
        &mut player,
    );
    assert_eq!(r, Ok(()));
    let r = Command::Hint(Hint { aspect: RawScalar::Finite(600) }).apply(&mut world, &mut player);
    assert_eq!(r, Ok(()));
    let r = Command::Pay(Pay { position: finite(80, 0) }).apply(&mut world, &mut player);
    assert_eq!(r, Ok(()));
    let r = Command::Upgrade(Upgrade { entity_type: EntityType::Destroyer }).apply(
        &mut world,
        &mut player,
    );
    assert_eq!(r, Ok(()));
    player.flags = Flags { upgraded: false };
    let r = Command::Fire(Fire { armament_index: 0, position_target: finite(0, 0) }).apply(
        &mut world,
        &mut player,
    );
    assert_eq!(r, Ok(()));
    let control = Control {
        guidance: None,
        aim_target: None,
        active: true,
        altitude_target: None,
        fire: None,
        pay: None,
        hint: None,
    };
    let r = Command::Control(control).apply(&mut world, &mut player);
    assert_eq!(r, Ok(()));
}

#[test]
fn spawn_respects_a_recent_death_by_another_player() {
    let mut world = make_world(10000);
    world.time = 5;
    let mut ally = make_player(1);
    ally.team_id = Some(5);
    let aidx = spawn_boat(&mut world, &mut ally);
    world.entities[aidx].as_mut().unwrap().transform.position = Vec2i { x: 500, y: 0 };

    let mut victim = make_player(2);
    victim.team_id = Some(5);
    victim.status = Status::Dead { by_player: true, position: Vec2i { x: 500, y: 0 }, time: 3 };
    Spawn { entity_type: EntityType::Gunboat }.apply(&mut world, &mut victim).unwrap();
    let vidx = alive_index(&victim);
    let pos = world.entities[vidx].as_ref().unwrap().transform.position;
    let dx = (pos.x - 500) as i64;
    let dy = pos.y as i64;
    assert!(dx * dx + dy * dy >= 1250 * 1250);
}

#[test]
fn placement_primitive_inserts_or_leaves_the_world_alone() {
    let mut world = make_world(10000);
    let boat = naval_core::entity::Entity::new(EntityType::Gunboat, Some(7), None);
    assert!(world.spawn_here_or_nearby(boat, 0, None));
    assert_eq!(live_count(&world), 1);
    let crowded = naval_core::entity::Entity::new(EntityType::Gunboat, Some(8), None);
    assert!(!world.spawn_here_or_nearby(crowded, 0, None));
    assert_eq!(live_count(&world), 1);
}

#[test]
fn bots_cannot_take_the_hull_reserved_for_humans() {
    let mut world = make_world(10000);
    let mut bot = make_player(3);
    bot.bot = true;
    spawn_boat(&mut world, &mut bot);
    let r = Upgrade { entity_type: EntityType::Destroyer }.apply(&mut world, &mut bot);
    assert_eq!(r, Err(Error::IneligibleUpgrade));
}
