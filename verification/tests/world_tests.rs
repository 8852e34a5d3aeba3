use donnies_tacos::config::{get_trader_random_velocity, PROJECTILE_SPEED, TRADER_MAX_VELOCITY};
use donnies_tacos::game::{handle_collisions, CHAIN_BULLET_COUNT, TRADER_REST_TIME_MS,
    TRADER_STATUS_TIME_MS};
use donnies_tacos::game_states::{check_game_over, check_game_pause, GameState, GameStats};
use donnies_tacos::geom::Vec2i;
use donnies_tacos::movement::{handle_random_movement, move_entities, y_sort, EdgeBehavior,
    MovingEntity, RandomMovement};
use donnies_tacos::physics::{check_collisions, BodyEntity, Collider, CollisionEvent, PhysicsBody};
use donnies_tacos::shooting::{charge_player_tacos, handle_timed_shooting, player_shooting,
    spawn_projectiles, BulletPattern, PlayerShootingLogic, Projectile, ProjectileEntity, Rumor,
    SpawnProjectile, TimedShooter, UniformPattern};
use donnies_tacos::timer::{Timer, TimerMode};
use donnies_tacos::traders::{tick_trader_timers, Trader, TraderEntity, TraderRestTimer,
    TraderStatus, TraderStatusTimer};

fn once(ms: u64) -> Timer {
    Timer::from_millis(ms, TimerMode::Once)
}

fn trader_at(id: u64, x: i64, y: i64) -> TraderEntity {
    TraderEntity {
        id,
        trader: Trader { status: TraderStatus::Neutral },
        status_timer: None,
        rest_timer: None,
        position: Vec2i { x, y },
    }
}

fn taco_at(id: u64, x: i64, y: i64, owner: Option<u64>) -> ProjectileEntity {
    ProjectileEntity { id, rumor: Rumor::Taco, projectile: Projectile { owner }, position: Vec2i { x, y } }
}

#[test]
fn once_timer_reports_its_finishing_tick_once() {
    let mut t = once(1000);
    assert!(!t.tick(400));
    assert!(!t.tick(400));
    assert!(t.tick(400));
    assert!(!t.tick(400));
    assert_eq!(t.remaining_ms(), 0);
}

#[test]
fn repeating_timer_wraps() {
    let mut t = Timer::from_millis(1000, TimerMode::Repeating);
    assert!(!t.tick(700));
    assert!(t.tick(700));
    assert_eq!(t.elapsed_ms, 400);
}

#[test]
fn status_timer_reverts_trader_to_neutral() {
    let mut traders = vec![
        TraderEntity {
            trader: Trader { status: TraderStatus::Bullish },
            status_timer: Some(TraderStatusTimer(once(5000))),
            rest_timer: Some(TraderRestTimer(once(500))),
            ..trader_at(7, 0, 0)
        },
    ];
    let changes = tick_trader_timers(&mut traders, 400);
    assert!(changes.is_empty());
    assert!(traders[0].rest_timer.is_some());
    assert!(traders[0].status_timer.is_some());
    assert_eq!(traders[0].trader.status, TraderStatus::Bullish);

    let changes = tick_trader_timers(&mut traders, 4600);
    assert!(traders[0].rest_timer.is_none());
    assert_eq!(changes.len(), 1);
    assert_eq!(changes[0].entity, 7);
    assert_eq!(changes[0].prev, TraderStatus::Bullish);
    assert_eq!(changes[0].new, TraderStatus::Neutral);
    assert_eq!(traders[0].trader.status, TraderStatus::Neutral);
    assert!(traders[0].status_timer.is_none());
}

#[test]
fn overlapping_circles_collide_and_separate() {
    let body = |id, x: i64, trigger: bool| BodyEntity {
        id,
        body: PhysicsBody::default(),
        collider: Collider { radius: 25_000, offset: Vec2i { x: 0, y: 0 } },
        position: Vec2i { x, y: 0 },
        is_trigger: trigger,
    };
    let mut bodies = vec![body(1, 0, false), body(2, 30_000, false)];
    let events = check_collisions(&mut bodies);
    assert_eq!(events.len(), 1);
    assert_eq!(events[0], CollisionEvent { entity1: 1, entity2: 2 });
    assert_eq!(bodies[0].position, Vec2i { x: -10_000, y: 0 });
    assert_eq!(bodies[1].position, Vec2i { x: 40_000, y: 0 });
}

#[test]
fn trigger_collisions_report_without_displacing() {
    let body = |id, x: i64, trigger: bool| BodyEntity {
        id,
        body: PhysicsBody::default(),
        collider: Collider { radius: 25_000, offset: Vec2i { x: 0, y: 0 } },
        position: Vec2i { x, y: 0 },
        is_trigger: trigger,
    };
    let mut bodies = vec![body(1, 0, true), body(2, 30_000, false)];
    let events = check_collisions(&mut bodies);
    assert_eq!(events.len(), 1);
    assert_eq!(bodies[0].position, Vec2i { x: 0, y: 0 });
    assert_eq!(bodies[1].position, Vec2i { x: 30_000, y: 0 });
}

#[test]
fn distant_circles_do_not_collide() {
    let body = |id, x: i64| BodyEntity {
        id,
        body: PhysicsBody::default(),
        collider: Collider { radius: 25_000, offset: Vec2i { x: 0, y: 0 } },
        position: Vec2i { x, y: 0 },
        is_trigger: false,
    };
    let mut bodies = vec![body(1, 0), body(2, 60_000)];
    assert!(check_collisions(&mut bodies).is_empty());
}

#[test]
fn collider_offsets_shift_the_circles() {
    let mut bodies = vec![
        BodyEntity {
            id: 1,
            body: PhysicsBody::default(),
            collider: Collider { radius: 25_000, offset: Vec2i { x: 0, y: 14_000 } },
            position: Vec2i { x: 0, y: 0 },
            is_trigger: true,
        },
        BodyEntity {
            id: 2,
            body: PhysicsBody::default(),
            collider: Collider { radius: 25_000, offset: Vec2i { x: 0, y: 14_000 } },
            position: Vec2i { x: 0, y: 49_000 },
            is_trigger: true,
        },
    ];
    let events = check_collisions(&mut bodies);
    assert_eq!(events.len(), 1);
}

#[test]
fn taco_flips_neutral_trader_and_fans_chain_shots() {
    let mut traders = vec![trader_at(7, 10_000, 0)];
    let mut projectiles = vec![taco_at(100, 0, 0, None)];
    let events = vec![CollisionEvent { entity1: 100, entity2: 7 }];
    let (changes, spawns) = handle_collisions(&events, &mut traders, &mut projectiles);

    assert_eq!(changes.len(), 1);
    assert_eq!(changes[0].entity, 7);
    assert_eq!(changes[0].prev, TraderStatus::Neutral);
    assert_eq!(changes[0].new, TraderStatus::Bullish);

    assert_eq!(traders[0].trader.status, TraderStatus::Bullish);
    let st = traders[0].status_timer.expect("status timer armed");
    assert_eq!(st.0.duration_ms, TRADER_STATUS_TIME_MS);
    let rt = traders[0].rest_timer.expect("rest timer armed");
    assert_eq!(rt.0.duration_ms, TRADER_REST_TIME_MS);

    assert!(projectiles.is_empty());

    assert_eq!(spawns.len(), CHAIN_BULLET_COUNT as usize);
    for sp in &spawns {
        assert_eq!(sp.projectile_type, Rumor::Taco);
        assert_eq!(sp.position, Vec2i { x: 0, y: 0 });
        assert_eq!(sp.owner, Some(7));
    }
    assert_eq!(spawns[0].direction, Vec2i { x: 7000, y: 0 });
    assert_eq!(spawns[1].direction, Vec2i { x: -3500, y: 6048 });
    assert_eq!(spawns[2].direction, Vec2i { x: -3500, y: -6048 });
}

#[test]
fn aligned_trader_shrugs_the_rumor_off() {
    let mut traders = vec![
        TraderEntity { trader: Trader { status: TraderStatus::Bullish }, ..trader_at(7, 10_000, 0) },
    ];
    let mut projectiles = vec![taco_at(100, 0, 0, None)];
    let events = vec![CollisionEvent { entity1: 100, entity2: 7 }];
    let (changes, spawns) = handle_collisions(&events, &mut traders, &mut projectiles);
    assert!(changes.is_empty());
    assert!(spawns.is_empty());
    assert_eq!(projectiles.len(), 1);
    assert!(traders[0].status_timer.is_none());
}

#[test]
fn resting_trader_is_immune() {
    let mut traders = vec![
        TraderEntity { rest_timer: Some(TraderRestTimer(once(500))), ..trader_at(7, 10_000, 0) },
    ];
    let mut projectiles = vec![taco_at(100, 0, 0, None)];
    let events = vec![CollisionEvent { entity1: 7, entity2: 100 }];
    let (changes, spawns) = handle_collisions(&events, &mut traders, &mut projectiles);
    assert!(changes.is_empty());
    assert!(spawns.is_empty());
    assert_eq!(traders[0].trader.status, TraderStatus::Neutral);
}

#[test]
fn own_chain_shot_cannot_retrigger_its_trader() {
    let mut traders = vec![trader_at(7, 10_000, 0)];
    let mut projectiles = vec![taco_at(100, 0, 0, Some(7))];
    let events = vec![CollisionEvent { entity1: 100, entity2: 7 }];
    let (changes, spawns) = handle_collisions(&events, &mut traders, &mut projectiles);
    assert!(changes.is_empty());
    assert!(spawns.is_empty());
}

#[test]
fn second_hit_in_one_pass_sees_the_flip() {
    let mut traders = vec![trader_at(7, 10_000, 0)];
    let mut projectiles = vec![taco_at(100, 0, 0, None), taco_at(101, 20_000, 0, None)];
    let events = vec![
        CollisionEvent { entity1: 100, entity2: 7 },
        CollisionEvent { entity1: 101, entity2: 7 },
    ];
    let (changes, spawns) = handle_collisions(&events, &mut traders, &mut projectiles);
    assert_eq!(changes.len(), 1);
    assert_eq!(spawns.len(), CHAIN_BULLET_COUNT as usize);
    assert_eq!(projectiles.len(), 1);
    assert_eq!(projectiles[0].id, 101);
}

#[test]
fn movement_applies_velocity_and_flips_sprites() {
    let mut entities = vec![
        MovingEntity {
            id: 1,
            body: PhysicsBody { velocity: Vec2i { x: -2000, y: 500 } },
            position: Vec2i { x: 0, y: 0 },
            z: 0,
            edge: None,
            sprite_flip_x: Some(false),
            random_movement: None,
        },
    ];
    let gone = move_entities(&mut entities);
    assert!(gone.is_empty());
    assert_eq!(entities[0].position, Vec2i { x: -2000, y: 500 });
    assert_eq!(entities[0].sprite_flip_x, Some(true));
}

#[test]
fn wraparound_folds_back_into_the_arena() {
    let mut entities = vec![
        MovingEntity {
            id: 1,
            body: PhysicsBody { velocity: Vec2i { x: 2000, y: 0 } },
            position: Vec2i { x: 599_000, y: 0 },
            z: 0,
            edge: Some(EdgeBehavior::Wraparound),
            sprite_flip_x: None,
            random_movement: None,
        },
    ];
    move_entities(&mut entities);
    assert_eq!(entities[0].position, Vec2i { x: -599_000, y: 0 });
}

#[test]
fn destroy_edge_despawns_offscreen_entities() {
    let mut entities = vec![
        MovingEntity {
            id: 9,
            body: PhysicsBody { velocity: Vec2i { x: 7000, y: 0 } },
            position: Vec2i { x: 598_000, y: 0 },
            z: 0,
            edge: Some(EdgeBehavior::Destroy),
            sprite_flip_x: None,
            random_movement: None,
        },
    ];
    let gone = move_entities(&mut entities);
    assert_eq!(gone, vec![9]);
    assert!(entities.is_empty());
}

#[test]
fn y_sort_puts_depth_at_the_feet() {
    let mut entities = vec![
        MovingEntity {
            id: 1,
            body: PhysicsBody::default(),
            position: Vec2i { x: 0, y: 42_000 },
            z: 0,
            edge: None,
            sprite_flip_x: Some(false),
            random_movement: None,
        },
    ];
    y_sort(&mut entities);
    assert_eq!(entities[0].z, -42_000);
}

#[test]
fn walker_pauses_when_its_timer_ends() {
    let mut entities = vec![
        MovingEntity {
            id: 1,
            body: PhysicsBody { velocity: Vec2i { x: 1500, y: 0 } },
            position: Vec2i { x: 0, y: 0 },
            z: 0,
            edge: None,
            sprite_flip_x: None,
            random_movement: Some(RandomMovement::Moving(once(5000))),
        },
    ];
    handle_random_movement(&mut entities, 5000);
    assert_eq!(entities[0].body.velocity, Vec2i { x: 0, y: 0 });
    assert!(matches!(entities[0].random_movement, Some(RandomMovement::Idle(_))));

    handle_random_movement(&mut entities, 1000);
    assert!(matches!(entities[0].random_movement, Some(RandomMovement::Moving(_))));
    let v = entities[0].body.velocity;
    assert!(v.x.abs() <= TRADER_MAX_VELOCITY && v.y.abs() <= TRADER_MAX_VELOCITY);
}

#[test]
fn random_trader_velocity_stays_in_walking_range() {
    for _ in 0..50 {
        let v = get_trader_random_velocity();
        assert!(v.x.abs() <= TRADER_MAX_VELOCITY);
        assert!(v.y.abs() <= TRADER_MAX_VELOCITY);
    }
}

#[test]
fn fresh_wanderers_start_inside_their_phase() {
    for _ in 0..50 {
        match RandomMovement::default() {
            RandomMovement::Idle(t) => assert!(t.duration_ms < 1000),
            RandomMovement::Moving(t) => assert!(t.duration_ms < 5000),
        }
    }
}

#[test]
fn tacos_recharge_up_to_the_cap() {
    let mut logic = PlayerShootingLogic { tacos_left: 1, ..PlayerShootingLogic::default() };
    charge_player_tacos(&mut logic, 1000);
    assert_eq!(logic.tacos_left, 2);
    charge_player_tacos(&mut logic, 1000);
    assert_eq!(logic.tacos_left, 3);
    let before = logic;
    charge_player_tacos(&mut logic, 1000);
    assert_eq!(logic, before);
}

#[test]
fn player_fires_a_taco_toward_the_aim_point() {
    let mut logic = PlayerShootingLogic::default();
    let shot = player_shooting(
        &mut logic,
        Vec2i { x: 0, y: 0 },
        Vec2i { x: 30_000, y: 40_000 },
        true,
    )
    .expect("a taco flies");
    assert_eq!(shot.projectile_type, Rumor::Taco);
    assert_eq!(shot.position, Vec2i { x: 0, y: 0 });
    assert_eq!(shot.direction, Vec2i { x: 4200, y: 5600 });
    assert_eq!(shot.owner, None);
    assert_eq!(logic.tacos_left, 2);
}

#[test]
fn no_taco_no_shot() {
    let mut logic = PlayerShootingLogic { tacos_left: 0, ..PlayerShootingLogic::default() };
    let shot = player_shooting(
        &mut logic,
        Vec2i { x: 0, y: 0 },
        Vec2i { x: 30_000, y: 40_000 },
        true,
    );
    assert!(shot.is_none());
    assert_eq!(logic.tacos_left, 0);
}

#[test]
fn timed_shooter_fires_at_the_only_trader() {
    let mut shooters = vec![
        donnies_tacos::shooting::ShooterEntity {
            id: 3,
            shooter: TimedShooter::default(),
            position: Vec2i { x: 0, y: 0 },
        },
    ];
    let traders = vec![Vec2i { x: 30_000, y: 40_000 }];
    let spawns = handle_timed_shooting(&mut shooters, &traders, 2000);
    assert_eq!(spawns.len(), 1);
    assert_eq!(spawns[0].projectile_type, Rumor::Tariff);
    assert_eq!(spawns[0].owner, Some(3));
    assert_eq!(spawns[0].direction, Vec2i { x: 4200, y: 5600 });

    let quiet = handle_timed_shooting(&mut shooters, &traders, 1000);
    assert!(quiet.is_empty());
}

#[test]
fn timed_shooter_with_no_target_fires_downward() {
    let mut shooters = vec![
        donnies_tacos::shooting::ShooterEntity {
            id: 3,
            shooter: TimedShooter::default(),
            position: Vec2i { x: 0, y: 0 },
        },
    ];
    let spawns = handle_timed_shooting(&mut shooters, &Vec::new(), 2000);
    assert_eq!(spawns.len(), 1);
    assert_eq!(spawns[0].direction, Vec2i { x: 0, y: -PROJECTILE_SPEED });
}

#[test]
fn spawned_projectiles_get_fresh_identities_and_are_counted() {
    let events = vec![
        SpawnProjectile {
            projectile_type: Rumor::Taco,
            position: Vec2i { x: 1, y: 2 },
            direction: Vec2i { x: 7000, y: 0 },
            owner: None,
        },
        SpawnProjectile {
            projectile_type: Rumor::Tariff,
            position: Vec2i { x: 3, y: 4 },
            direction: Vec2i { x: 0, y: 7000 },
            owner: Some(11),
        },
    ];
    let mut stats = GameStats::default();
    let projs = spawn_projectiles(&events, 500, &mut stats);
    assert_eq!(projs.len(), 2);
    assert_eq!(projs[0].id, 500);
    assert_eq!(projs[1].id, 501);
    assert_eq!(projs[1].rumor, Rumor::Tariff);
    assert_eq!(projs[1].projectile.owner, Some(11));
    assert_eq!(stats.total_projectiles_launched, 2);
}

#[test]
fn uniform_pattern_quarters_the_circle() {
    let dirs = UniformPattern { bullet_count: 4 }.direction_iter(Vec2i { x: 1000, y: 0 });
    assert_eq!(dirs.len(), 4);
    assert_eq!(dirs[0], Vec2i { x: 1000, y: 0 });
    assert_eq!(dirs[1], Vec2i { x: 0, y: 1000 });
    assert_eq!(dirs[2], Vec2i { x: -1000, y: 0 });
    assert_eq!(dirs[3], Vec2i { x: 0, y: -1000 });
}

#[test]
fn round_clock_runs_out_into_game_over() {
    let mut stats = GameStats::default();
    assert!(check_game_over(&mut stats, 59_999).is_none());
    assert_eq!(check_game_over(&mut stats, 1), Some(GameState::GameOver));
    assert!(check_game_over(&mut stats, 1000).is_none());
}

#[test]
fn escape_toggles_pause_only_in_play() {
    assert_eq!(check_game_pause(GameState::Playing, true), Some(GameState::Paused));
    assert_eq!(check_game_pause(GameState::Paused, true), Some(GameState::Playing));
    assert_eq!(check_game_pause(GameState::Menu, true), None);
    assert_eq!(check_game_pause(GameState::Playing, false), None);
}
