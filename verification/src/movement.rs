use vstd::prelude::*;

verus! {

use crate::config::{WIDTH, HEIGHT, MOVEMENT_TIME_MS, IDLE_TIME_MS, get_trader_random_velocity,
    trader_velocity_ok};
use crate::geom::Vec2i;
use crate::physics::PhysicsBody;
use crate::rng::random_u64_below;
use crate::timer::{Timer, TimerMode, MAX_TIMER_MS};

/// What happens to an entity that walks off the arena.
#[derive(Clone, Copy, PartialEq, Eq, Structural, Debug)]
pub enum EdgeBehavior {
    Wraparound,
    Destroy,
}

/// The wander cycle: walk for a while, stand still for a while.
#[derive(Clone, Copy, PartialEq, Eq, Structural, Debug)]
pub enum RandomMovement {
    Moving(Timer),
    Idle(Timer),
}

impl Default for RandomMovement {
    /// A fresh wanderer starts at a uniformly random point of the cycle:
    /// idle with the odds the cycle spends idling, with a random portion of
    /// the phase already decided by the timer's duration.
    fn default() -> (r: RandomMovement)
        ensures
            r matches RandomMovement::Idle(t) ==> t.duration_ms < IDLE_TIME_MS && t.elapsed_ms == 0
                && t.mode == TimerMode::Once,
            r matches RandomMovement::Moving(t) ==> t.duration_ms < MOVEMENT_TIME_MS
                && t.elapsed_ms == 0 && t.mode == TimerMode::Once,
    {
        let coin = random_u64_below(MOVEMENT_TIME_MS);
        if coin < IDLE_TIME_MS {
            RandomMovement::Idle(
                Timer::from_millis(random_u64_below(IDLE_TIME_MS), TimerMode::Once),
            )
        } else {
            RandomMovement::Moving(
                Timer::from_millis(random_u64_below(MOVEMENT_TIME_MS), TimerMode::Once),
            )
        }
    }
}

/// One moving entity as the movement rules see it: its velocity, position,
/// depth, edge rule, sprite facing and wander state.  An entity with no
/// sprite carries `None` for the facing; one that never wanders carries
/// `None` for the wander state.
#[derive(Clone, Copy, PartialEq, Eq, Structural, Debug)]
pub struct MovingEntity {
    pub id: u64,
    pub body: PhysicsBody,
    pub position: Vec2i,
    pub z: i64,
    pub edge: Option<EdgeBehavior>,
    pub sprite_flip_x: Option<bool>,
    pub random_movement: Option<RandomMovement>,
}

/// Positions entering the movement rules stay within this bound.
pub const MOVE_POS_LIMIT: i64 = 5_000_000;

/// Velocities stay within this bound, in milli-units per tick.
pub const MOVE_VEL_LIMIT: i64 = 100_000;

pub open spec fn moving_wf(e: MovingEntity) -> bool {
    &&& -MOVE_POS_LIMIT <= e.position.x <= MOVE_POS_LIMIT
    &&& -MOVE_POS_LIMIT <= e.position.y <= MOVE_POS_LIMIT
    &&& -MOVE_VEL_LIMIT <= e.body.velocity.x <= MOVE_VEL_LIMIT
    &&& -MOVE_VEL_LIMIT <= e.body.velocity.y <= MOVE_VEL_LIMIT
}

/// One coordinate pulled back into `-limit ..= limit` by a single wrap of the
/// arena's width, the way the arena folds entities that walk off one side.
pub open spec fn spec_wrap_coord(v: int, limit: int) -> int {
    let v1 = if v > limit {
        v - 2 * limit
    } else {
        v
    };
    if v1 < -limit {
        v1 + 2 * limit
    } else {
        v1
    }
}

/// Where one entity stands after its velocity is applied, before any edge
/// rule.
pub open spec fn spec_moved_position(e: MovingEntity) -> Vec2i {
    Vec2i {
        x: (e.position.x + e.body.velocity.x) as i64,
        y: (e.position.y + e.body.velocity.y) as i64,
    }
}

/// Whether the moved position lies outside the arena.
pub open spec fn spec_out_of_arena(p: Vec2i) -> bool {
    p.x > WIDTH || p.x < -WIDTH || p.y > HEIGHT || p.y < -HEIGHT
}

/// One entity after a movement tick: position advanced, sprite facing set
/// from the velocity's sign, and a wraparound entity folded back into the
/// arena.
pub open spec fn spec_move_entity(e: MovingEntity) -> MovingEntity {
    let p = spec_moved_position(e);
    let p2 = if e.edge == Some(EdgeBehavior::Wraparound) {
        Vec2i {
            x: spec_wrap_coord(p.x as int, WIDTH as int) as i64,
            y: spec_wrap_coord(p.y as int, HEIGHT as int) as i64,
        }
    } else {
        p
    };
    let flip = match e.sprite_flip_x {
        Some(_) => Some(e.body.velocity.x < 0),
        None => None,
    };
    MovingEntity { position: p2, sprite_flip_x: flip, ..e }
}

/// Whether a movement tick destroys the entity: it walks off the arena and
/// its edge rule says to despawn it.
pub open spec fn spec_move_destroys(e: MovingEntity) -> bool {
    e.edge == Some(EdgeBehavior::Destroy) && spec_out_of_arena(spec_moved_position(e))
}

/// The entities surviving a movement tick and the identities of the
/// destroyed ones, in entity order.
pub open spec fn spec_move_pass(s: Seq<MovingEntity>) -> (Seq<MovingEntity>, Seq<u64>)
    decreases s.len(),
{
    if s.len() == 0 {
        (Seq::empty(), Seq::empty())
    } else {
        let (kept, gone) = spec_move_pass(s.drop_last());
        let e = s.last();
        if spec_move_destroys(e) {
            (kept, gone.push(e.id))
        } else {
            (kept.push(spec_move_entity(e)), gone)
        }
    }
}

/// Apply every entity's velocity for one tick.  Sprites face the way they
/// move, wraparound entities fold back into the arena, and entities with the
/// destroy edge rule that left the arena are dropped, their identities
/// returned so the host can despawn them.
pub fn move_entities(entities: &mut Vec<MovingEntity>) -> (despawned: Vec<u64>)
    requires
        forall|i: int| 0 <= i < old(entities)@.len() ==> moving_wf(#[trigger] old(entities)@[i]),
    ensures
        (final(entities)@, despawned@) == spec_move_pass(old(entities)@),
{
    let ghost orig = entities@;
    let mut kept: Vec<MovingEntity> = Vec::new();
    let mut gone: Vec<u64> = Vec::new();
    let mut i: usize = 0;
    while i < entities.len()
        invariant
            i <= orig.len(),
            entities@ == orig,
            forall|k: int| 0 <= k < orig.len() ==> moving_wf(#[trigger] orig[k]),
            (kept@, gone@) == spec_move_pass(orig.take(i as int)),
        decreases orig.len() - i,
    {
        let e = entities[i];
        proof {
            assert(orig[i as int] == e);
            assert(moving_wf(orig[i as int]));
        }
        let px: i64 = e.position.x + e.body.velocity.x;
        let py: i64 = e.position.y + e.body.velocity.y;
        let destroys = match e.edge {
            Some(EdgeBehavior::Destroy) => px > WIDTH || px < -WIDTH || py > HEIGHT || py
                < -HEIGHT,
            _ => false,
        };
        if destroys {
            gone.push(e.id);
        } else {
            let mut m = e;
            let (fx, fy) = match e.edge {
                Some(EdgeBehavior::Wraparound) => {
                    let mut wx = px;
                    let mut wy = py;
                    if wx > WIDTH {
                        wx = wx - 2 * WIDTH;
                    }
                    if wx < -WIDTH {
                        wx = wx + 2 * WIDTH;
                    }
                    if wy > HEIGHT {
                        wy = wy - 2 * HEIGHT;
                    }
                    if wy < -HEIGHT {
                        wy = wy + 2 * HEIGHT;
                    }
                    (wx, wy)
                },
                _ => (px, py),
            };
            m.position = Vec2i { x: fx, y: fy };
            m.sprite_flip_x = match e.sprite_flip_x {
                Some(_) => Some(e.body.velocity.x < 0),
                None => None,
            };
            kept.push(m);
            proof {
                assert(m == spec_move_entity(e));
            }
        }
        proof {
            assert(orig.take(i + 1).drop_last() =~= orig.take(i as int));
            assert(orig.take(i + 1).last() == orig[i as int]);
        }
        i = i + 1;
    }
    proof {
        assert(orig.take(orig.len() as int) =~= orig);
    }
    *entities = kept;
    gone
}

/// Put every sprite at the depth of its feet, so lower entities draw in
/// front: depth is the negated height up the screen.
pub fn y_sort(entities: &mut Vec<MovingEntity>)
    requires
        forall|i: int|
            0 <= i < old(entities)@.len() ==> -MOVE_POS_LIMIT <= (#[trigger] old(
                entities,
            )@[i]).position.y <= MOVE_POS_LIMIT,
    ensures
        final(entities)@.len() == old(entities)@.len(),
        forall|i: int|
            0 <= i < old(entities)@.len() ==> final(entities)@[i] == (if old(
                entities,
            )@[i].sprite_flip_x is Some {
                MovingEntity { z: (-old(entities)@[i].position.y) as i64, ..(#[trigger] old(entities)@[i]) }
            } else {
                old(entities)@[i]
            }),
{
    let ghost orig = entities@;
    let mut i: usize = 0;
    while i < entities.len()
        invariant
            i <= orig.len(),
            entities@.len() == orig.len(),
            forall|k: int|
                0 <= k < orig.len() ==> -MOVE_POS_LIMIT <= (#[trigger] orig[k]).position.y
                    <= MOVE_POS_LIMIT,
            forall|k: int|
                0 <= k < i ==> entities@[k] == (if orig[k].sprite_flip_x is Some {
                    MovingEntity { z: (-orig[k].position.y) as i64, ..(#[trigger] orig[k]) }
                } else {
                    orig[k]
                }),
            forall|k: int| i <= k < orig.len() ==> entities@[k] == #[trigger] orig[k],
        decreases orig.len() - i,
    {
        let mut e = entities[i];
        proof {
            assert(entities@[i as int] == orig[i as int]);
        }
        if e.sprite_flip_x.is_some() {
            e.z = -e.position.y;
            entities.set(i, e);
        }
        i = i + 1;
    }
}

/// The timers the wander cycle arms when it switches phase.
pub open spec fn spec_idle_timer() -> Timer {
    Timer { duration_ms: IDLE_TIME_MS, elapsed_ms: 0, mode: TimerMode::Once }
}

pub open spec fn spec_moving_timer() -> Timer {
    Timer { duration_ms: MOVEMENT_TIME_MS, elapsed_ms: 0, mode: TimerMode::Once }
}

/// How one wander tick relates an entity to its successor.  A walker whose
/// timer ran out stops and idles; an idler whose timer ran out starts walking
/// with some fresh random trader velocity.
pub open spec fn spec_wander_rel(o: MovingEntity, n: MovingEntity, delta: int) -> bool {
    match o.random_movement {
        None => n == o,
        Some(RandomMovement::Moving(t)) => if t.spec_just_finished(delta) {
            n == (MovingEntity {
                random_movement: Some(RandomMovement::Idle(spec_idle_timer())),
                body: PhysicsBody { velocity: Vec2i { x: 0, y: 0 } },
                ..o
            })
        } else {
            n == (MovingEntity {
                random_movement: Some(RandomMovement::Moving(t.spec_tick(delta))),
                ..o
            })
        },
        Some(RandomMovement::Idle(t)) => if t.spec_just_finished(delta) {
            exists|v: Vec2i|
                trader_velocity_ok(v) && n == (MovingEntity {
                    random_movement: Some(RandomMovement::Moving(spec_moving_timer())),
                    body: PhysicsBody { velocity: v },
                    ..o
                })
        } else {
            n == (MovingEntity {
                random_movement: Some(RandomMovement::Idle(t.spec_tick(delta))),
                ..o
            })
        },
    }
}

pub open spec fn wander_wf(e: MovingEntity) -> bool {
    match e.random_movement {
        Some(RandomMovement::Moving(t)) => t.wf() && t.duration_ms <= MAX_TIMER_MS,
        Some(RandomMovement::Idle(t)) => t.wf() && t.duration_ms <= MAX_TIMER_MS,
        None => true,
    }
}

/// Drive every wandering entity's walk/idle cycle by one tick.
pub fn handle_random_movement(entities: &mut Vec<MovingEntity>, delta_ms: u64)
    requires
        delta_ms <= MAX_TIMER_MS,
        forall|i: int| 0 <= i < old(entities)@.len() ==> wander_wf(#[trigger] old(entities)@[i]),
    ensures
        final(entities)@.len() == old(entities)@.len(),
        forall|i: int|
            0 <= i < old(entities)@.len() ==> spec_wander_rel(
                #[trigger] old(entities)@[i],
                final(entities)@[i],
                delta_ms as int,
            ),
        forall|i: int|
            0 <= i < final(entities)@.len() ==> wander_wf(#[trigger] final(entities)@[i]),
{
    let ghost orig = entities@;
    let mut i: usize = 0;
    while i < entities.len()
        invariant
            delta_ms <= MAX_TIMER_MS,
            i <= orig.len(),
            entities@.len() == orig.len(),
            forall|k: int| 0 <= k < orig.len() ==> wander_wf(#[trigger] orig[k]),
            forall|k: int|
                0 <= k < i ==> spec_wander_rel(#[trigger] orig[k], entities@[k], delta_ms as int),
            forall|k: int| 0 <= k < i ==> wander_wf(#[trigger] entities@[k]),
            forall|k: int| i <= k < orig.len() ==> entities@[k] == #[trigger] orig[k],
        decreases orig.len() - i,
    {
        let mut e = entities[i];
        proof {
            assert(orig[i as int] == e);
            assert(wander_wf(orig[i as int]));
        }
        match e.random_movement {
            Some(RandomMovement::Moving(mut t)) => {
                if t.tick(delta_ms) {
                    e.random_movement = Some(
                        RandomMovement::Idle(Timer::from_millis(IDLE_TIME_MS, TimerMode::Once)),
                    );
                    e.body.velocity = Vec2i { x: 0, y: 0 };
                } else {
                    e.random_movement = Some(RandomMovement::Moving(t));
                }
                entities.set(i, e);
            },
            Some(RandomMovement::Idle(mut t)) => {
                if t.tick(delta_ms) {
                    e.random_movement = Some(
                        RandomMovement::Moving(
                            Timer::from_millis(MOVEMENT_TIME_MS, TimerMode::Once),
                        ),
                    );
                    e.body.velocity = get_trader_random_velocity();
                } else {
                    e.random_movement = Some(RandomMovement::Idle(t));
                }
                entities.set(i, e);
            },
            None => {},
        }
        proof {
            assert(spec_wander_rel(orig[i as int], entities@[i as int], delta_ms as int));
        }
        i = i + 1;
    }
}

} // verus!
