use vstd::prelude::*;

verus! {

use crate::config::{MAX_TACOS, TACO_CHARGE_TIME_MS, PROJECTILE_SPEED};
use crate::dialogue::{random_tariff, OverheadTextRequest, TARIFF_VALUES, TARIFF_TARGETS};
use crate::game_states::GameStats;
use crate::geom::{Vec2i, vec_ok, spec_aim, aim_velocity, spec_rotate_milli, rotate_milli,
    COORD_LIMIT};
use crate::rng::random_u64_below;
use crate::timer::{Timer, TimerMode, MAX_TIMER_MS};
use vstd::arithmetic::div_mod::lemma_multiply_divide_lt;

/// The two kinds of rumor projectile: tariffs scare traders bearish, tacos
/// cheer them bullish.
#[derive(Clone, Copy, PartialEq, Eq, Structural, Debug)]
pub enum Rumor {
    Tariff,
    Taco,
}

/// Ask the spawner for one new projectile.
#[derive(Clone, Copy, PartialEq, Eq, Structural, Debug)]
pub struct SpawnProjectile {
    pub projectile_type: Rumor,
    pub position: Vec2i,
    pub direction: Vec2i,
    pub owner: Option<u64>,
}

/// Fires one rumor of a fixed kind every time its timer wraps.
#[derive(Clone, Copy, PartialEq, Eq, Structural, Debug)]
pub struct TimedShooter {
    pub shooting_timer: Timer,
    pub shot_type: Rumor,
}

impl Default for TimedShooter {
    fn default() -> (r: TimedShooter)
        ensures
            r == (TimedShooter {
                shooting_timer: Timer {
                    duration_ms: 2000,
                    elapsed_ms: 0,
                    mode: TimerMode::Repeating,
                },
                shot_type: Rumor::Tariff,
            }),
    {
        TimedShooter {
            shooting_timer: Timer { duration_ms: 2000, elapsed_ms: 0, mode: TimerMode::Repeating },
            shot_type: Rumor::Tariff,
        }
    }
}

/// Marks a live projectile and remembers who launched it, so a chain
/// reaction cannot re-trigger its own source.
#[derive(Clone, Copy, PartialEq, Eq, Structural, Debug)]
pub struct Projectile {
    pub owner: Option<u64>,
}

/// A rumor was just launched; the host hooks sound and sprite flips on it.
#[derive(Clone, Copy, PartialEq, Eq, Structural, Debug)]
pub struct RumorJustShot;

/// The player's taco supply: a recharge timer and how many are left.
#[derive(Clone, Copy, PartialEq, Eq, Structural, Debug)]
pub struct PlayerShootingLogic {
    pub timer: Timer,
    pub tacos_left: u32,
    pub max_tacos: u32,
}

impl Default for PlayerShootingLogic {
    fn default() -> (r: PlayerShootingLogic)
        ensures
            r == (PlayerShootingLogic {
                timer: Timer {
                    duration_ms: TACO_CHARGE_TIME_MS,
                    elapsed_ms: 0,
                    mode: TimerMode::Repeating,
                },
                tacos_left: MAX_TACOS,
                max_tacos: MAX_TACOS,
            }),
    {
        PlayerShootingLogic {
            timer: Timer {
                duration_ms: TACO_CHARGE_TIME_MS,
                elapsed_ms: 0,
                mode: TimerMode::Repeating,
            },
            tacos_left: MAX_TACOS,
            max_tacos: MAX_TACOS,
        }
    }
}

/// The angle, in whole degrees, of the `i`th shot of a uniform fan of
/// `count` shots.
pub open spec fn spec_fan_deg(i: int, count: int) -> int
    recommends
        0 < count,
        0 <= i < count,
{
    i * 360 / count
}

/// The `i`th direction of a uniform fan around the reference direction.
pub open spec fn spec_fan_direction(reference: Vec2i, i: int, count: int) -> Vec2i {
    spec_rotate_milli(reference, spec_fan_deg(i, count))
}

/// A family of shot patterns: each turns a reference direction into the
/// directions of one volley.
pub trait BulletPattern {
    fn direction_iter(self, reference_dir: Vec2i) -> Vec<Vec2i>;
}

/// The pattern that spreads its shots evenly around the full circle,
/// starting at the reference direction.
#[derive(Clone, Copy, PartialEq, Eq, Structural, Debug)]
pub struct UniformPattern {
    pub bullet_count: u32,
}

impl UniformPattern {
    /// The volley's directions: the reference rotated by each fan angle.
    pub fn directions(&self, reference_dir: Vec2i) -> (r: Vec<Vec2i>)
        requires
            vec_ok(reference_dir),
        ensures
            r@.len() == self.bullet_count,
            forall|i: int|
                0 <= i < r@.len() ==> r@[i] == spec_fan_direction(
                    reference_dir,
                    i,
                    self.bullet_count as int,
                ),
            forall|i: int|
                0 <= i < r@.len() ==> -2 * COORD_LIMIT <= (#[trigger] r@[i]).x <= 2 * COORD_LIMIT
                    && -2 * COORD_LIMIT <= r@[i].y <= 2 * COORD_LIMIT,
    {
        let count = self.bullet_count;
        let mut r: Vec<Vec2i> = Vec::new();
        let mut i: u32 = 0;
        while i < count
            invariant
                i <= count,
                vec_ok(reference_dir),
                r@.len() == i,
                forall|k: int|
                    0 <= k < i ==> r@[k] == spec_fan_direction(reference_dir, k, count as int),
                forall|k: int|
                    0 <= k < i ==> -2 * COORD_LIMIT <= (#[trigger] r@[k]).x <= 2 * COORD_LIMIT
                        && -2 * COORD_LIMIT <= r@[k].y <= 2 * COORD_LIMIT,
            decreases count - i,
        {
            let deg: u64 = (i as u64) * 360 / (count as u64);
            proof {
                lemma_multiply_divide_lt((i as int) * 360, count as int, 360);
                assert((i as int) * 360 < (count as int) * 360) by (nonlinear_arith)
                    requires
                        0 <= (i as int) < (count as int),
                ;
            }
            let d = rotate_milli(reference_dir, deg);
            r.push(d);
            i = i + 1;
        }
        r
    }
}

impl BulletPattern for UniformPattern {
    /// The trait promises nothing of its volley, so this impl guards the
    /// kernel's coordinate bound itself and yields no shots outside it; the
    /// specified volley lives on the inherent `directions`.
    fn direction_iter(self, reference_dir: Vec2i) -> Vec<Vec2i> {
        if reference_dir.x >= -COORD_LIMIT && reference_dir.x <= COORD_LIMIT && reference_dir.y
            >= -COORD_LIMIT && reference_dir.y <= COORD_LIMIT {
            self.directions(reference_dir)
        } else {
            Vec::new()
        }
    }
}

/// Recharge the player's tacos: below the cap, every wrap of the charge
/// timer restores one.
pub fn charge_player_tacos(logic: &mut PlayerShootingLogic, delta_ms: u64)
    requires
        old(logic).timer.wf(),
        old(logic).timer.duration_ms <= MAX_TIMER_MS,
        delta_ms <= MAX_TIMER_MS,
    ensures
        old(logic).tacos_left >= old(logic).max_tacos ==> *final(logic) == *old(logic),
        old(logic).tacos_left < old(logic).max_tacos ==> *final(logic) == (PlayerShootingLogic {
            timer: old(logic).timer.spec_tick(delta_ms as int),
            tacos_left: if old(logic).timer.spec_just_finished(delta_ms as int) {
                (old(logic).tacos_left + 1) as u32
            } else {
                old(logic).tacos_left
            },
            ..*old(logic)
        }),
        final(logic).timer.wf(),
{
    if logic.tacos_left >= logic.max_tacos {
        return ;
    }
    if logic.timer.tick(delta_ms) {
        logic.tacos_left = logic.tacos_left + 1;
    }
}

/// One frame of the player's aimed shot.  With a taco in stock and the fire
/// input down, a taco launches from the player toward the aim point at
/// projectile speed and one taco is spent.
pub fn player_shooting(
    shoot_logic: &mut PlayerShootingLogic,
    player_pos: Vec2i,
    target_pos: Vec2i,
    fire_input: bool,
) -> (shot: Option<SpawnProjectile>)
    requires
        vec_ok(player_pos),
        vec_ok(target_pos),
    ensures
        !(old(shoot_logic).tacos_left > 0 && fire_input) ==> *final(shoot_logic) == *old(
            shoot_logic,
        ) && shot is None,
        old(shoot_logic).tacos_left > 0 && fire_input ==> *final(shoot_logic) == (
        PlayerShootingLogic {
            tacos_left: (old(shoot_logic).tacos_left - 1) as u32,
            ..*old(shoot_logic)
        }) && shot == Some(
            SpawnProjectile {
                projectile_type: Rumor::Taco,
                position: player_pos,
                direction: spec_aim(player_pos, target_pos, PROJECTILE_SPEED as int),
                owner: None::<u64>,
            },
        ),
{
    if shoot_logic.tacos_left == 0 {
        return None;
    }
    if fire_input {
        let direction = aim_velocity(player_pos, target_pos, PROJECTILE_SPEED);
        shoot_logic.tacos_left = shoot_logic.tacos_left - 1;
        Some(
            SpawnProjectile {
                projectile_type: Rumor::Taco,
                position: player_pos,
                direction,
                owner: None,
            },
        )
    } else {
        None
    }
}

/// One automatic shooter, as the timed-shot rule sees it.
#[derive(Clone, Copy, PartialEq, Eq, Structural, Debug)]
pub struct ShooterEntity {
    pub id: u64,
    pub shooter: TimedShooter,
    pub position: Vec2i,
}

pub open spec fn shooter_wf(e: ShooterEntity) -> bool {
    &&& e.shooter.shooting_timer.wf()
    &&& e.shooter.shooting_timer.duration_ms <= MAX_TIMER_MS
    &&& vec_ok(e.position)
}

/// What one fired shot must look like: the shooter's own rumor, launched
/// from its position under its name, aimed at one of the traders — or
/// straight down when there is no trader to aim at.
pub open spec fn spec_shot_ok(e: ShooterEntity, traders: Seq<Vec2i>, sp: SpawnProjectile) -> bool {
    &&& sp.projectile_type == e.shooter.shot_type
    &&& sp.position == e.position
    &&& sp.owner == Some(e.id)
    &&& if traders.len() == 0 {
        sp.direction == (Vec2i { x: 0, y: (-PROJECTILE_SPEED) as i64 })
    } else {
        exists|k: int|
            0 <= k < traders.len() && sp.direction == spec_aim(
                e.position,
                traders[k],
                PROJECTILE_SPEED as int,
            )
    }
}

/// The launched volley matches the shooters whose timers wrapped, one shot
/// each, in shooter order.
pub open spec fn spec_shots_match(
    shooters: Seq<ShooterEntity>,
    traders: Seq<Vec2i>,
    delta: int,
    spawns: Seq<SpawnProjectile>,
) -> bool
    decreases shooters.len(),
{
    if shooters.len() == 0 {
        spawns.len() == 0
    } else {
        let e = shooters.last();
        if e.shooter.shooting_timer.spec_just_finished(delta) {
            spawns.len() > 0 && spec_shot_ok(e, traders, spawns.last()) && spec_shots_match(
                shooters.drop_last(),
                traders,
                delta,
                spawns.drop_last(),
            )
        } else {
            spec_shots_match(shooters.drop_last(), traders, delta, spawns)
        }
    }
}

/// Drive the automatic shooters by one tick.  Each one whose timer wraps
/// launches its rumor at a randomly chosen trader.
pub fn handle_timed_shooting(
    shooters: &mut Vec<ShooterEntity>,
    trader_positions: &Vec<Vec2i>,
    delta_ms: u64,
) -> (spawns: Vec<SpawnProjectile>)
    requires
        delta_ms <= MAX_TIMER_MS,
        forall|i: int| 0 <= i < old(shooters)@.len() ==> shooter_wf(#[trigger] old(shooters)@[i]),
        forall|i: int|
            0 <= i < trader_positions@.len() ==> vec_ok(#[trigger] trader_positions@[i]),
    ensures
        final(shooters)@.len() == old(shooters)@.len(),
        forall|i: int|
            0 <= i < old(shooters)@.len() ==> final(shooters)@[i] == (ShooterEntity {
                shooter: TimedShooter {
                    shooting_timer: old(shooters)@[i].shooter.shooting_timer.spec_tick(
                        delta_ms as int,
                    ),
                    ..(#[trigger] old(shooters)@[i]).shooter
                },
                ..old(shooters)@[i]
            }),
        forall|i: int| 0 <= i < final(shooters)@.len() ==> shooter_wf(#[trigger] final(shooters)@[i]),
        spec_shots_match(old(shooters)@, trader_positions@, delta_ms as int, spawns@),
{
    let ghost orig = shooters@;
    let mut spawns: Vec<SpawnProjectile> = Vec::new();
    let mut i: usize = 0;
    while i < shooters.len()
        invariant
            delta_ms <= MAX_TIMER_MS,
            i <= orig.len(),
            shooters@.len() == orig.len(),
            forall|k: int| 0 <= k < orig.len() ==> shooter_wf(#[trigger] orig[k]),
            forall|k: int|
                0 <= k < trader_positions@.len() ==> vec_ok(#[trigger] trader_positions@[k]),
            forall|k: int|
                0 <= k < i ==> shooters@[k] == (ShooterEntity {
                    shooter: TimedShooter {
                        shooting_timer: orig[k].shooter.shooting_timer.spec_tick(delta_ms as int),
                        ..(#[trigger] orig[k]).shooter
                    },
                    ..orig[k]
                }),
            forall|k: int| 0 <= k < i ==> shooter_wf(#[trigger] shooters@[k]),
            forall|k: int| i <= k < orig.len() ==> shooters@[k] == #[trigger] orig[k],
            spec_shots_match(orig.take(i as int), trader_positions@, delta_ms as int, spawns@),
        decreases orig.len() - i,
    {
        let mut e = shooters[i];
        proof {
            assert(shooters@[i as int] == orig[i as int]);
            assert(shooter_wf(orig[i as int]));
        }
        let fired = e.shooter.shooting_timer.tick(delta_ms);
        shooters.set(i, e);
        proof {
            assert(orig.take(i + 1).drop_last() =~= orig.take(i as int));
            assert(orig.take(i + 1).last() == orig[i as int]);
        }
        if fired {
            let ghost spawns_pre = spawns@;
            let direction: Vec2i = if trader_positions.len() > 0 {
                let k = random_u64_below(trader_positions.len() as u64) as usize;
                let d = aim_velocity(e.position, trader_positions[k], PROJECTILE_SPEED);
                proof {
                    assert(d == spec_aim(
                        orig[i as int].position,
                        trader_positions@[k as int],
                        PROJECTILE_SPEED as int,
                    ));
                }
                d
            } else {
                Vec2i { x: 0, y: -PROJECTILE_SPEED }
            };
            let sp = SpawnProjectile {
                projectile_type: e.shooter.shot_type,
                position: e.position,
                direction,
                owner: Some(e.id),
            };
            spawns.push(sp);
            proof {
                assert(spec_shot_ok(orig[i as int], trader_positions@, sp));
                assert(spawns@.drop_last() =~= spawns_pre);
                assert(spawns@.last() == sp);
                assert(spec_shots_match(
                    orig.take(i + 1),
                    trader_positions@,
                    delta_ms as int,
                    spawns@,
                ));
            }
        }
        i = i + 1;
    }
    proof {
        assert(orig.take(orig.len() as int) =~= orig);
    }
    spawns
}

/// React to a rumor Donnie just launched: he announces a fresh made-up
/// tariff over his head.  (The sprite swap and the voice line are the
/// host's business.)
pub fn on_donnie_shot(donnie_entity: u64) -> (req: OverheadTextRequest)
    ensures
        req.attached_to == donnie_entity,
        req.duration_ms == Some(1500u64),
        req.text matches Some(t) && exists|i: int, j: int|
            0 <= i < TARIFF_VALUES@.len() && 0 <= j < TARIFF_TARGETS@.len() && t@
                == TARIFF_VALUES@[i]@ + "% TARIFFS\nON "@ + TARIFF_TARGETS@[j]@,
{
    OverheadTextRequest {
        attached_to: donnie_entity,
        text: Some(random_tariff()),
        duration_ms: Some(1500),
    }
}

/// One live projectile entity, as the collision rules see it.
#[derive(Clone, Copy, PartialEq, Eq, Structural, Debug)]
pub struct ProjectileEntity {
    pub id: u64,
    pub rumor: Rumor,
    pub projectile: Projectile,
    pub position: Vec2i,
}

/// Turn this tick's spawn requests into live projectiles, with fresh
/// consecutive identities, and count them in the round's statistics.
pub fn spawn_projectiles(events: &Vec<SpawnProjectile>, next_id: u64, stats: &mut GameStats) -> (r:
    Vec<ProjectileEntity>)
    requires
        next_id + events@.len() <= u64::MAX,
        old(stats).total_projectiles_launched + events@.len() <= u32::MAX,
    ensures
        r@.len() == events@.len(),
        forall|i: int|
            0 <= i < events@.len() ==> r@[i] == (ProjectileEntity {
                id: (next_id + i) as u64,
                rumor: (#[trigger] events@[i]).projectile_type,
                projectile: Projectile { owner: events@[i].owner },
                position: events@[i].position,
            }),
        final(stats).total_projectiles_launched == old(stats).total_projectiles_launched
            + events@.len(),
        final(stats).time_remaining == old(stats).time_remaining,
{
    let mut r: Vec<ProjectileEntity> = Vec::new();
    let mut i: usize = 0;
    while i < events.len()
        invariant
            i <= events@.len(),
            next_id + events@.len() <= u64::MAX,
            r@.len() == i,
            forall|k: int|
                0 <= k < i ==> r@[k] == (ProjectileEntity {
                    id: (next_id + k) as u64,
                    rumor: (#[trigger] events@[k]).projectile_type,
                    projectile: Projectile { owner: events@[k].owner },
                    position: events@[k].position,
                }),
        decreases events@.len() - i,
    {
        let ev = events[i];
        r.push(
            ProjectileEntity {
                id: next_id + i as u64,
                rumor: ev.projectile_type,
                projectile: Projectile { owner: ev.owner },
                position: ev.position,
            },
        );
        i = i + 1;
    }
    stats.total_projectiles_launched = stats.total_projectiles_launched + events.len() as u32;
    r
}

} // verus!
