use vstd::prelude::*;

verus! {

use crate::config::PROJECTILE_SPEED;
use crate::geom::{Vec2i, vec_ok, spec_aim, aim_velocity, spec_scale_milli, scale_milli,
    COORD_LIMIT};
use crate::shooting::{Rumor, SpawnProjectile, ProjectileEntity, UniformPattern,
    spec_fan_direction};
use crate::physics::CollisionEvent;
use crate::timer::{Timer, TimerMode};
use crate::traders::{Trader, TraderStatus, TraderStatusTimer, TraderRestTimer, TraderChange,
    TraderEntity};

/// How long a flipped trader keeps its new sentiment before the status timer
/// reverts it to neutral.
pub const TRADER_STATUS_TIME_MS: u64 = 5_000;

/// The rest window armed on a hit, during which the trader ignores further
/// projectiles.
pub const TRADER_REST_TIME_MS: u64 = 500;

/// How many chain-reaction projectiles one hit fans out.
pub const CHAIN_BULLET_COUNT: u32 = 3;

/// The running state of one collision-response pass: the traders with their
/// sentiments so far, which of them were hit (their timers are armed only
/// once the pass ends, as the host's command queue would), the projectiles
/// marked for despawning, and the accumulated change records and chain-shot
/// requests.
pub struct CollisionFold {
    pub traders: Seq<TraderEntity>,
    pub hit: Seq<bool>,
    pub despawned: Seq<u64>,
    pub changes: Seq<TraderChange>,
    pub spawns: Seq<SpawnProjectile>,
}

/// The index of the first trader with this identity, if any, from `i` on.
pub open spec fn spec_find_trader_from(s: Seq<TraderEntity>, id: u64, i: int) -> Option<int>
    decreases s.len() - i,
{
    if i < 0 || i >= s.len() {
        None
    } else if s[i].id == id {
        Some(i)
    } else {
        spec_find_trader_from(s, id, i + 1)
    }
}

pub open spec fn spec_find_trader(s: Seq<TraderEntity>, id: u64) -> Option<int> {
    spec_find_trader_from(s, id, 0)
}

/// The index of the first projectile with this identity, if any, from `i` on.
pub open spec fn spec_find_proj_from(s: Seq<ProjectileEntity>, id: u64, i: int) -> Option<int>
    decreases s.len() - i,
{
    if i < 0 || i >= s.len() {
        None
    } else if s[i].id == id {
        Some(i)
    } else {
        spec_find_proj_from(s, id, i + 1)
    }
}

pub open spec fn spec_find_proj(s: Seq<ProjectileEntity>, id: u64) -> Option<int> {
    spec_find_proj_from(s, id, 0)
}

/// The sentiment one rumor kind induces.
pub open spec fn spec_rumor_status(r: Rumor) -> TraderStatus {
    match r {
        Rumor::Tariff => TraderStatus::Bearish,
        Rumor::Taco => TraderStatus::Bullish,
    }
}

/// The chain-reaction volley of one hit: the rumor's own kind fanned out
/// from the impact point, away from the hit direction, owned by the trader
/// that was hit.
pub open spec fn spec_chain_spawns(proj: ProjectileEntity, owner_id: u64, hit_dir: Vec2i) -> Seq<
    SpawnProjectile,
> {
    Seq::new(
        CHAIN_BULLET_COUNT as nat,
        |i: int|
            SpawnProjectile {
                projectile_type: proj.rumor,
                position: proj.position,
                direction: spec_scale_milli(
                    spec_fan_direction(hit_dir, i, CHAIN_BULLET_COUNT as int),
                    PROJECTILE_SPEED as int,
                ),
                owner: Some(owner_id),
            },
    )
}

/// One rumor-versus-trader encounter.  The rumor bounces off its own
/// launcher, off a trader already holding the induced sentiment, and off a
/// resting trader; otherwise it flips the trader's sentiment, records the
/// change, marks the trader hit, despawns itself and fans out a chain
/// volley.
pub open spec fn spec_rumor_vs_trader(
    st: CollisionFold,
    projs: Seq<ProjectileEntity>,
    pi: int,
    ti: int,
) -> CollisionFold
    recommends
        0 <= pi < projs.len(),
        0 <= ti < st.traders.len(),
{
    let proj = projs[pi];
    let tr = st.traders[ti];
    if proj.projectile.owner == Some(tr.id) || (proj.rumor == Rumor::Taco && tr.trader.status
        == TraderStatus::Bullish) || (proj.rumor == Rumor::Tariff && tr.trader.status
        == TraderStatus::Bearish) || tr.rest_timer is Some {
        st
    } else {
        let new_status = spec_rumor_status(proj.rumor);
        let hit_dir = spec_aim(proj.position, tr.position, 1000);
        CollisionFold {
            traders: st.traders.update(
                ti,
                TraderEntity { trader: Trader { status: new_status }, ..tr },
            ),
            hit: st.hit.update(ti, true),
            despawned: st.despawned.push(proj.id),
            changes: st.changes.push(
                TraderChange { entity: tr.id, prev: tr.trader.status, new: new_status },
            ),
            spawns: st.spawns + spec_chain_spawns(proj, tr.id, hit_dir),
        }
    }
}

/// One collision event of the pass: it matters only when one side is a live
/// projectile and the other a trader.
pub open spec fn spec_collision_step(
    st: CollisionFold,
    projs: Seq<ProjectileEntity>,
    ev: CollisionEvent,
) -> CollisionFold {
    let p1 = spec_find_proj(projs, ev.entity1);
    let t2 = spec_find_trader(st.traders, ev.entity2);
    let t1 = spec_find_trader(st.traders, ev.entity1);
    let p2 = spec_find_proj(projs, ev.entity2);
    if p1 is Some && t2 is Some {
        spec_rumor_vs_trader(st, projs, p1->0, t2->0)
    } else if t1 is Some && p2 is Some {
        spec_rumor_vs_trader(st, projs, p2->0, t1->0)
    } else {
        st
    }
}

/// The fresh state a pass starts from.
pub open spec fn spec_collision_init(traders: Seq<TraderEntity>) -> CollisionFold {
    CollisionFold {
        traders,
        hit: Seq::new(traders.len(), |i: int| false),
        despawned: Seq::empty(),
        changes: Seq::empty(),
        spawns: Seq::empty(),
    }
}

/// The whole pass folded over the events in order.
pub open spec fn spec_collision_fold(
    events: Seq<CollisionEvent>,
    init: CollisionFold,
    projs: Seq<ProjectileEntity>,
) -> CollisionFold
    decreases events.len(),
{
    if events.len() == 0 {
        init
    } else {
        spec_collision_step(spec_collision_fold(events.drop_last(), init, projs), projs,
            events.last())
    }
}

/// The timers a hit arms, once the pass is over.
pub open spec fn spec_armed_status_timer() -> TraderStatusTimer {
    TraderStatusTimer(
        Timer { duration_ms: TRADER_STATUS_TIME_MS, elapsed_ms: 0, mode: TimerMode::Once },
    )
}

pub open spec fn spec_armed_rest_timer() -> TraderRestTimer {
    TraderRestTimer(
        Timer { duration_ms: TRADER_REST_TIME_MS, elapsed_ms: 0, mode: TimerMode::Once },
    )
}

/// Every hit trader gets a fresh status timer and a fresh rest timer.
pub open spec fn spec_arm_timers(traders: Seq<TraderEntity>, hit: Seq<bool>) -> Seq<TraderEntity> {
    Seq::new(
        traders.len(),
        |i: int|
            if 0 <= i < hit.len() && hit[i] {
                TraderEntity {
                    status_timer: Some(spec_armed_status_timer()),
                    rest_timer: Some(spec_armed_rest_timer()),
                    ..traders[i]
                }
            } else {
                traders[i]
            },
    )
}

/// The projectiles that outlive the pass, in order: those not marked for
/// despawning.
pub open spec fn spec_surviving(projs: Seq<ProjectileEntity>, gone: Seq<u64>) -> Seq<
    ProjectileEntity,
>
    decreases projs.len(),
{
    if projs.len() == 0 {
        Seq::empty()
    } else {
        let pre = spec_surviving(projs.drop_last(), gone);
        if gone.contains(projs.last().id) {
            pre
        } else {
            pre.push(projs.last())
        }
    }
}

fn find_trader(traders: &Vec<TraderEntity>, id: u64) -> (r: Option<usize>)
    ensures
        match r {
            Some(i) => spec_find_trader(traders@, id) == Some(i as int) && i < traders@.len(),
            None => spec_find_trader(traders@, id) is None,
        },
{
    let mut i: usize = 0;
    while i < traders.len()
        invariant
            i <= traders@.len(),
            spec_find_trader(traders@, id) == spec_find_trader_from(traders@, id, i as int),
        decreases traders@.len() - i,
    {
        if traders[i].id == id {
            return Some(i);
        }
        i = i + 1;
    }
    None
}

fn find_proj(projs: &Vec<ProjectileEntity>, id: u64) -> (r: Option<usize>)
    ensures
        match r {
            Some(i) => spec_find_proj(projs@, id) == Some(i as int) && i < projs@.len(),
            None => spec_find_proj(projs@, id) is None,
        },
{
    let mut i: usize = 0;
    while i < projs.len()
        invariant
            i <= projs@.len(),
            spec_find_proj(projs@, id) == spec_find_proj_from(projs@, id, i as int),
        decreases projs@.len() - i,
    {
        if projs[i].id == id {
            return Some(i);
        }
        i = i + 1;
    }
    None
}

/// One encounter, executed: mirrors `spec_rumor_vs_trader` over the five
/// running pieces of the pass state.
fn check_rumor_vs_trader(
    traders: &mut Vec<TraderEntity>,
    hit: &mut Vec<bool>,
    despawned: &mut Vec<u64>,
    changes: &mut Vec<TraderChange>,
    spawns: &mut Vec<SpawnProjectile>,
    projs: &Vec<ProjectileEntity>,
    pi: usize,
    ti: usize,
) -> (flipped: bool)
    requires
        pi < projs@.len(),
        ti < old(traders)@.len(),
        ti < old(hit)@.len(),
        vec_ok(projs@[pi as int].position),
        vec_ok(old(traders)@[ti as int].position),
    ensures
        ({
            let st = CollisionFold {
                traders: old(traders)@,
                hit: old(hit)@,
                despawned: old(despawned)@,
                changes: old(changes)@,
                spawns: old(spawns)@,
            };
            let st2 = spec_rumor_vs_trader(st, projs@, pi as int, ti as int);
            final(traders)@ == st2.traders && final(hit)@ == st2.hit && final(despawned)@
                == st2.despawned && final(changes)@ == st2.changes && final(spawns)@ == st2.spawns
        }),
{
    let proj = projs[pi];
    let tr = traders[ti];
    let own_shot = match proj.projectile.owner {
        Some(o) => o == tr.id,
        None => false,
    };
    let already = (matches!(proj.rumor, Rumor::Taco) && matches!(
        tr.trader.status,
        TraderStatus::Bullish,
    )) || (matches!(proj.rumor, Rumor::Tariff) && matches!(tr.trader.status, TraderStatus::Bearish));
    if own_shot || already || tr.rest_timer.is_some() {
        return false;
    }
    let new_status = match proj.rumor {
        Rumor::Tariff => TraderStatus::Bearish,
        Rumor::Taco => TraderStatus::Bullish,
    };
    changes.push(TraderChange { entity: tr.id, prev: tr.trader.status, new: new_status });
    let mut tr2 = tr;
    tr2.trader.status = new_status;
    traders.set(ti, tr2);
    hit.set(ti, true);
    despawned.push(proj.id);

    let hit_dir = aim_velocity(proj.position, tr.position, 1000);
    let pattern = UniformPattern { bullet_count: CHAIN_BULLET_COUNT };
    let dirs = pattern.directions(hit_dir);
    let ghost spawns_pre = spawns@;
    proof {
        let full = spec_chain_spawns(
            projs@[pi as int],
            old(traders)@[ti as int].id,
            spec_aim(projs@[pi as int].position, old(traders)@[ti as int].position, 1000),
        );
        assert(spawns@ =~= spawns_pre + full.take(0));
    }
    let mut j: usize = 0;
    while j < dirs.len()
        invariant
            j <= dirs@.len(),
            dirs@.len() == CHAIN_BULLET_COUNT,
            forall|k: int|
                0 <= k < dirs@.len() ==> #[trigger] dirs@[k] == spec_fan_direction(
                    spec_aim(projs@[pi as int].position, old(traders)@[ti as int].position, 1000),
                    k,
                    CHAIN_BULLET_COUNT as int,
                ),
            forall|k: int|
                0 <= k < dirs@.len() ==> -2 * COORD_LIMIT <= (#[trigger] dirs@[k]).x <= 2
                    * COORD_LIMIT && -2 * COORD_LIMIT <= dirs@[k].y <= 2 * COORD_LIMIT,
            pi < projs@.len(),
            ti < old(traders)@.len(),
            proj == projs@[pi as int],
            tr == old(traders)@[ti as int],
            spawns@ == spawns_pre + spec_chain_spawns(
                projs@[pi as int],
                old(traders)@[ti as int].id,
                spec_aim(projs@[pi as int].position, old(traders)@[ti as int].position, 1000),
            ).take(j as int),
        decreases dirs@.len() - j,
    {
        let d = scale_milli(dirs[j], PROJECTILE_SPEED);
        spawns.push(
            SpawnProjectile {
                projectile_type: proj.rumor,
                position: proj.position,
                direction: d,
                owner: Some(tr.id),
            },
        );
        proof {
            let hd = spec_aim(
                projs@[pi as int].position,
                old(traders)@[ti as int].position,
                1000,
            );
            let full = spec_chain_spawns(projs@[pi as int], old(traders)@[ti as int].id, hd);
            assert(full[j as int] == SpawnProjectile {
                projectile_type: projs@[pi as int].rumor,
                position: projs@[pi as int].position,
                direction: spec_scale_milli(
                    spec_fan_direction(hd, j as int, CHAIN_BULLET_COUNT as int),
                    PROJECTILE_SPEED as int,
                ),
                owner: Some(old(traders)@[ti as int].id),
            });
            assert(d == spec_scale_milli(dirs@[j as int], PROJECTILE_SPEED as int));
            assert(dirs@[j as int] == spec_fan_direction(hd, j as int, CHAIN_BULLET_COUNT as int));
            assert(SpawnProjectile {
                projectile_type: proj.rumor,
                position: proj.position,
                direction: d,
                owner: Some(tr.id),
            } == full[j as int]);
            assert(spawns@ == (spawns_pre + full.take(j as int)).push(full[j as int]));
            assert((spawns_pre + full.take(j as int)).push(full[j as int]) =~= spawns_pre
                + full.take(j + 1));
            assert(spawns@ =~= spawns_pre + full.take(j + 1));
        }
        j = j + 1;
    }
    proof {
        let full = spec_chain_spawns(
            projs@[pi as int],
            old(traders)@[ti as int].id,
            spec_aim(projs@[pi as int].position, old(traders)@[ti as int].position, 1000),
        );
        assert(full.take(CHAIN_BULLET_COUNT as int) =~= full);
        assert(spawns@ =~= spawns_pre + full);
    }
    true
}

/// The heart of the game: consume this tick's collision events.  Each
/// rumor-versus-trader overlap that gets through the guards flips the
/// trader's sentiment, reports the change, despawns the rumor and fans out a
/// chain volley owned by the hit trader; when the pass is over every hit
/// trader has a status timer and a rest timer armed, and the despawned
/// projectiles are gone.
pub fn handle_collisions(
    collisions: &Vec<CollisionEvent>,
    traders: &mut Vec<TraderEntity>,
    projectiles: &mut Vec<ProjectileEntity>,
) -> (out: (Vec<TraderChange>, Vec<SpawnProjectile>))
    requires
        forall|i: int| 0 <= i < old(traders)@.len() ==> vec_ok((#[trigger] old(traders)@[i]).position),
        forall|i: int|
            0 <= i < old(projectiles)@.len() ==> vec_ok(
                (#[trigger] old(projectiles)@[i]).position,
            ),
    ensures
        ({
            let f = spec_collision_fold(
                collisions@,
                spec_collision_init(old(traders)@),
                old(projectiles)@,
            );
            final(traders)@ == spec_arm_timers(f.traders, f.hit) && final(projectiles)@
                == spec_surviving(old(projectiles)@, f.despawned) && out.0@ == f.changes && out.1@
                == f.spawns
        }),
{
    let ghost evs = collisions@;
    let ghost traders0 = traders@;
    let ghost projs0 = projectiles@;
    let n = traders.len();
    let mut hit: Vec<bool> = Vec::new();
    let mut k: usize = 0;
    while k < n
        invariant
            k <= n,
            hit@ =~= Seq::new(k as nat, |i: int| false),
        decreases n - k,
    {
        hit.push(false);
        proof {
            assert(hit@ =~= Seq::new((k + 1) as nat, |i: int| false));
        }
        k = k + 1;
    }
    let mut changes: Vec<TraderChange> = Vec::new();
    let mut spawns: Vec<SpawnProjectile> = Vec::new();
    let mut despawned: Vec<u64> = Vec::new();
    proof {
        assert(hit@ =~= spec_collision_init(traders0).hit);
    }
    let mut i: usize = 0;
    while i < collisions.len()
        invariant
            i <= evs.len(),
            collisions@ == evs,
            projectiles@ == projs0,
            forall|k2: int| 0 <= k2 < traders0.len() ==> vec_ok((#[trigger] traders0[k2]).position),
            forall|k2: int| 0 <= k2 < projs0.len() ==> vec_ok((#[trigger] projs0[k2]).position),
            ({
                let f = spec_collision_fold(evs.take(i as int), spec_collision_init(traders0),
                    projs0);
                traders@ == f.traders && hit@ == f.hit && despawned@ == f.despawned && changes@
                    == f.changes && spawns@ == f.spawns
            }),
            traders@.len() == traders0.len(),
            hit@.len() == traders0.len(),
            forall|k2: int|
                0 <= k2 < traders0.len() ==> (#[trigger] traders@[k2]).id == traders0[k2].id
                    && traders@[k2].position == traders0[k2].position && traders@[k2].rest_timer
                    == traders0[k2].rest_timer,
        decreases evs.len() - i,
    {
        let ev = collisions[i];
        let p1 = find_proj(projectiles, ev.entity1);
        let t2 = find_trader(traders, ev.entity2);
        let t1 = find_trader(traders, ev.entity1);
        let p2 = find_proj(projectiles, ev.entity2);
        if let (Some(pi), Some(ti)) = (p1, t2) {
            check_rumor_vs_trader(
                traders,
                &mut hit,
                &mut despawned,
                &mut changes,
                &mut spawns,
                projectiles,
                pi,
                ti,
            );
        } else if let (Some(ti), Some(pi)) = (t1, p2) {
            check_rumor_vs_trader(
                traders,
                &mut hit,
                &mut despawned,
                &mut changes,
                &mut spawns,
                projectiles,
                pi,
                ti,
            );
        }
        proof {
            assert(evs.take(i + 1).drop_last() =~= evs.take(i as int));
            assert(evs.take(i + 1).last() == evs[i as int]);
        }
        i = i + 1;
    }
    proof {
        assert(evs.take(evs.len() as int) =~= evs);
    }

    let ghost f = spec_collision_fold(evs, spec_collision_init(traders0), projs0);
    let mut k2: usize = 0;
    let ghost traders_mid = traders@;
    while k2 < traders.len()
        invariant
            k2 <= traders@.len(),
            traders@.len() == traders_mid.len() == hit@.len(),
            forall|m: int| k2 <= m < traders_mid.len() ==> traders@[m] == #[trigger] traders_mid[m],
            forall|m: int|
                0 <= m < k2 ==> traders@[m] == (if hit@[m] {
                    TraderEntity {
                        status_timer: Some(spec_armed_status_timer()),
                        rest_timer: Some(spec_armed_rest_timer()),
                        ..(#[trigger] traders_mid[m])
                    }
                } else {
                    traders_mid[m]
                }),
        decreases traders@.len() - k2,
    {
        if hit[k2] {
            let mut t = traders[k2];
            t.status_timer = Some(
                TraderStatusTimer(Timer::from_millis(TRADER_STATUS_TIME_MS, TimerMode::Once)),
            );
            t.rest_timer = Some(
                TraderRestTimer(Timer::from_millis(TRADER_REST_TIME_MS, TimerMode::Once)),
            );
            traders.set(k2, t);
        }
        k2 = k2 + 1;
    }
    proof {
        assert(traders@ =~= spec_arm_timers(traders_mid, hit@));
    }

    let mut kept: Vec<ProjectileEntity> = Vec::new();
    let mut pk: usize = 0;
    while pk < projectiles.len()
        invariant
            pk <= projs0.len(),
            projectiles@ == projs0,
            kept@ == spec_surviving(projs0.take(pk as int), despawned@),
        decreases projs0.len() - pk,
    {
        let p = projectiles[pk];
        let mut found = false;
        let mut di: usize = 0;
        while di < despawned.len()
            invariant
                di <= despawned@.len(),
                p == projs0[pk as int],
                pk < projs0.len(),
                found == exists|m: int| 0 <= m < di && despawned@[m] == p.id,
            decreases despawned@.len() - di,
        {
            if despawned[di] == p.id {
                found = true;
            }
            di = di + 1;
        }
        proof {
            assert(found == despawned@.contains(p.id));
            assert(projs0.take(pk + 1).drop_last() =~= projs0.take(pk as int));
            assert(projs0.take(pk + 1).last() == projs0[pk as int]);
        }
        if !found {
            kept.push(p);
        }
        pk = pk + 1;
    }
    proof {
        assert(projs0.take(projs0.len() as int) =~= projs0);
    }
    *projectiles = kept;
    (changes, spawns)
}

} // verus!
