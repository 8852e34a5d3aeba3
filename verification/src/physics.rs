use vstd::prelude::*;

verus! {

use crate::geom::{
    Vec2i,
    tdiv,
    spec_sqrt,
    isqrt,
    div_trunc,
    lemma_tdiv_bound,
    lemma_abs_le_sqrt,
    lemma_sqrt_bracket,
};
use vstd::arithmetic::mul::lemma_mul_inequality;

/// A circular hit area, offset from the entity's position.
#[derive(Clone, Copy, PartialEq, Eq, Structural, Debug)]
pub struct Collider {
    pub radius: i64,
    pub offset: Vec2i,
}

/// Marks a collider that reports collisions but is never displaced by them.
#[derive(Clone, Copy, PartialEq, Eq, Structural, Debug)]
pub struct AreaTrigger;

/// Carries a velocity applied once per tick.
#[derive(Clone, Copy, PartialEq, Eq, Structural, Debug)]
pub struct PhysicsBody {
    pub velocity: Vec2i,
}

impl Default for PhysicsBody {
    fn default() -> (r: PhysicsBody)
        ensures
            r == (PhysicsBody { velocity: Vec2i { x: 0, y: 0 } }),
    {
        PhysicsBody { velocity: Vec2i { x: 0, y: 0 } }
    }
}

/// Two colliders overlapped this tick.
#[derive(Clone, Copy, PartialEq, Eq, Structural, Debug)]
pub struct CollisionEvent {
    pub entity1: u64,
    pub entity2: u64,
}

/// One collidable entity as the pairwise collision check sees it.
#[derive(Clone, Copy, PartialEq, Eq, Structural, Debug)]
pub struct BodyEntity {
    pub id: u64,
    pub body: PhysicsBody,
    pub collider: Collider,
    pub position: Vec2i,
    pub is_trigger: bool,
}

/// Positions entering a collision pass stay within this bound.
pub const POS_LIMIT: i64 = 2_000_000;

/// Collider radii and offsets stay within this bound; it is also how far one
/// collision can push an entity.
pub const RADIUS_LIMIT: i64 = 100_000;

pub open spec fn body_wf(e: BodyEntity) -> bool {
    &&& -POS_LIMIT <= e.position.x <= POS_LIMIT
    &&& -POS_LIMIT <= e.position.y <= POS_LIMIT
    &&& -RADIUS_LIMIT <= e.collider.offset.x <= RADIUS_LIMIT
    &&& -RADIUS_LIMIT <= e.collider.offset.y <= RADIUS_LIMIT
    &&& 0 <= e.collider.radius <= RADIUS_LIMIT
}

pub open spec fn center_x(e: BodyEntity) -> int {
    e.position.x + e.collider.offset.x
}

pub open spec fn center_y(e: BodyEntity) -> int {
    e.position.y + e.collider.offset.y
}

/// The circles of the two colliders strictly overlap.
pub open spec fn touching(a: BodyEntity, b: BodyEntity) -> bool {
    let dx = center_x(a) - center_x(b);
    let dy = center_y(a) - center_y(b);
    let radii = a.collider.radius + b.collider.radius;
    dx * dx + dy * dy < radii * radii
}

pub open spec fn opt_event_seq(ev: Option<CollisionEvent>) -> Seq<CollisionEvent> {
    match ev {
        Some(e) => seq![e],
        None => Seq::empty(),
    }
}

/// One pair of the collision pass: if the circles overlap an event is
/// reported, and two non-trigger bodies at distinct centers are pushed apart
/// by half the penetration each, along the axis between their centers.
pub open spec fn spec_pair_step(s: Seq<BodyEntity>, i: int, j: int) -> (Seq<BodyEntity>, Option<
    CollisionEvent,
>)
    recommends
        0 <= i < j < s.len(),
{
    let a = s[i];
    let b = s[j];
    let dx = center_x(a) - center_x(b);
    let dy = center_y(a) - center_y(b);
    let d2 = dx * dx + dy * dy;
    let radii = a.collider.radius + b.collider.radius;
    if d2 < radii * radii {
        let ev = Some(CollisionEvent { entity1: a.id, entity2: b.id });
        if a.is_trigger || b.is_trigger || d2 == 0 {
            (s, ev)
        } else {
            let len = spec_sqrt(d2);
            let hx = tdiv(tdiv((radii - len) * dx, len), 2);
            let hy = tdiv(tdiv((radii - len) * dy, len), 2);
            let a2 = BodyEntity {
                position: Vec2i {
                    x: (a.position.x + hx) as i64,
                    y: (a.position.y + hy) as i64,
                },
                ..a
            };
            let b2 = BodyEntity {
                position: Vec2i {
                    x: (b.position.x - hx) as i64,
                    y: (b.position.y - hy) as i64,
                },
                ..b
            };
            (s.update(i, a2).update(j, b2), ev)
        }
    } else {
        (s, None)
    }
}

/// The pairs `(i, i+1) .. (i, j-1)` of the pass, in order.
pub open spec fn spec_row(s: Seq<BodyEntity>, i: int, j: int) -> (Seq<BodyEntity>, Seq<
    CollisionEvent,
>)
    decreases j - i,
{
    if j <= i + 1 {
        (s, Seq::empty())
    } else {
        let prev = spec_row(s, i, j - 1);
        let step = spec_pair_step(prev.0, i, j - 1);
        (step.0, prev.1 + opt_event_seq(step.1))
    }
}

/// The rows `0 .. i` of the pass, in order.
pub open spec fn spec_pass(s: Seq<BodyEntity>, i: int) -> (Seq<BodyEntity>, Seq<CollisionEvent>)
    decreases i,
{
    if i <= 0 {
        (s, Seq::empty())
    } else {
        let prev = spec_pass(s, i - 1);
        let row = spec_row(prev.0, i - 1, prev.0.len() as int);
        (row.0, prev.1 + row.1)
    }
}

/// The whole collision pass over every unordered pair, in the order the
/// nested loops visit them.
pub open spec fn spec_check_collisions(s: Seq<BodyEntity>) -> (Seq<BodyEntity>, Seq<
    CollisionEvent,
>) {
    spec_pass(s, s.len() as int)
}

/// How many processed pairs of the pass have touched entity `k` when the
/// loops stand at row `i`, column `j`, over `n` entities.
pub open spec fn move_count(k: int, i: int, j: int, n: int) -> int {
    if k < i {
        n - 1
    } else if k == i {
        j - 1
    } else if k < j {
        i + 1
    } else {
        i
    }
}

/// One pair of the pass, executed: mirrors `spec_pair_step` and bounds how
/// far either entity moved.
fn collide_pair(bodies: &mut Vec<BodyEntity>, i: usize, j: usize) -> (ev: Option<CollisionEvent>)
    requires
        i < j < old(bodies)@.len(),
        -200_000_000 <= old(bodies)@[i as int].position.x <= 200_000_000,
        -200_000_000 <= old(bodies)@[i as int].position.y <= 200_000_000,
        -200_000_000 <= old(bodies)@[j as int].position.x <= 200_000_000,
        -200_000_000 <= old(bodies)@[j as int].position.y <= 200_000_000,
        -RADIUS_LIMIT <= old(bodies)@[i as int].collider.offset.x <= RADIUS_LIMIT,
        -RADIUS_LIMIT <= old(bodies)@[i as int].collider.offset.y <= RADIUS_LIMIT,
        -RADIUS_LIMIT <= old(bodies)@[j as int].collider.offset.x <= RADIUS_LIMIT,
        -RADIUS_LIMIT <= old(bodies)@[j as int].collider.offset.y <= RADIUS_LIMIT,
        0 <= old(bodies)@[i as int].collider.radius <= RADIUS_LIMIT,
        0 <= old(bodies)@[j as int].collider.radius <= RADIUS_LIMIT,
    ensures
        (final(bodies)@, ev) == spec_pair_step(old(bodies)@, i as int, j as int),
        final(bodies)@.len() == old(bodies)@.len(),
        forall|k: int|
            0 <= k < old(bodies)@.len() && k != i && k != j ==> final(bodies)@[k] == old(
                bodies,
            )@[k],
        final(bodies)@[i as int] == (BodyEntity {
            position: final(bodies)@[i as int].position,
            ..old(bodies)@[i as int]
        }),
        final(bodies)@[j as int] == (BodyEntity {
            position: final(bodies)@[j as int].position,
            ..old(bodies)@[j as int]
        }),
        -RADIUS_LIMIT <= final(bodies)@[i as int].position.x - old(bodies)@[i as int].position.x
            <= RADIUS_LIMIT,
        -RADIUS_LIMIT <= final(bodies)@[i as int].position.y - old(bodies)@[i as int].position.y
            <= RADIUS_LIMIT,
        -RADIUS_LIMIT <= final(bodies)@[j as int].position.x - old(bodies)@[j as int].position.x
            <= RADIUS_LIMIT,
        -RADIUS_LIMIT <= final(bodies)@[j as int].position.y - old(bodies)@[j as int].position.y
            <= RADIUS_LIMIT,
{
    let a = bodies[i];
    let b = bodies[j];
    let dx: i64 = (a.position.x + a.collider.offset.x) - (b.position.x + b.collider.offset.x);
    let dy: i64 = (a.position.y + a.collider.offset.y) - (b.position.y + b.collider.offset.y);
    proof {
        assert(0 <= dx * dx <= 165_000_000_000_000_000 && 0 <= dy * dy
            <= 165_000_000_000_000_000) by (nonlinear_arith)
            requires
                -400_200_000 <= dx <= 400_200_000,
                -400_200_000 <= dy <= 400_200_000,
        ;
    }
    let d2: i64 = dx * dx + dy * dy;
    let radii: i64 = a.collider.radius + b.collider.radius;
    proof {
        assert(0 <= radii * radii <= 40_000_000_000) by (nonlinear_arith)
            requires
                0 <= radii <= 200_000,
        ;
    }
    if d2 < radii * radii {
        let ev = Some(CollisionEvent { entity1: a.id, entity2: b.id });
        if a.is_trigger || b.is_trigger || d2 == 0 {
            return ev;
        }
        let len: u64 = isqrt(d2 as u64);
        proof {
            lemma_sqrt_bracket(d2 as int);
            lemma_abs_le_sqrt(dx as int, d2 as int);
            lemma_abs_le_sqrt(dy as int, d2 as int);
            assert(len >= 1) by {
                if spec_sqrt(d2 as int) == 0 {
                    assert((0 + 1) * (0 + 1) > d2 as int);
                }
            }
            // The sought penetration is positive: the circles overlap, so the
            // root of the squared distance lies below the radius sum.
            assert(len < radii) by {
                if len >= radii {
                    lemma_mul_inequality(radii as int, len as int, len as int);
                    lemma_mul_inequality(radii as int, len as int, radii as int);
                }
            }
            assert(-((len as int) * (radii - len) as int) <= (radii - len) * dx <= (len as int) * (
            radii - len) as int) by (nonlinear_arith)
                requires
                    -(len as int) <= dx as int <= len as int,
                    0 < (radii - len) as int,
            ;
            assert(-((len as int) * (radii - len) as int) <= (radii - len) * dy <= (len as int) * (
            radii - len) as int) by (nonlinear_arith)
                requires
                    -(len as int) <= dy as int <= len as int,
                    0 < (radii - len) as int,
            ;
            assert((radii - len) * dx <= 165_000_000_000_000_000 && (radii - len) * dx
                >= -165_000_000_000_000_000 && (radii - len) * dy <= 165_000_000_000_000_000 && (
            radii - len) * dy >= -165_000_000_000_000_000) by (nonlinear_arith)
                requires
                    0 < (radii - len) as int <= 200_000,
                    -400_200_000 <= dx <= 400_200_000,
                    -400_200_000 <= dy <= 400_200_000,
            ;
        }
        let px: i64 = div_trunc((radii - len as i64) * dx, len as i64);
        let py: i64 = div_trunc((radii - len as i64) * dy, len as i64);
        proof {
            lemma_tdiv_bound(((radii - len) * dx) as int, len as int, (radii - len) as int);
            lemma_tdiv_bound(((radii - len) * dy) as int, len as int, (radii - len) as int);
            lemma_tdiv_bound(px as int, 2, RADIUS_LIMIT as int);
            lemma_tdiv_bound(py as int, 2, RADIUS_LIMIT as int);
        }
        let hx: i64 = div_trunc(px, 2);
        let hy: i64 = div_trunc(py, 2);
        let mut a2 = a;
        a2.position = Vec2i { x: a.position.x + hx, y: a.position.y + hy };
        let mut b2 = b;
        b2.position = Vec2i { x: b.position.x - hx, y: b.position.y - hy };
        bodies.set(i, a2);
        bodies.set(j, b2);
        ev
    } else {
        None
    }
}

/// The pairwise collision pass.  Every unordered pair of entities whose
/// collider circles overlap yields one event; pairs of non-trigger bodies are
/// also pushed apart, and later pairs see the pushed positions, exactly as
/// `spec_check_collisions` folds them.
pub fn check_collisions(bodies: &mut Vec<BodyEntity>) -> (events: Vec<CollisionEvent>)
    requires
        old(bodies)@.len() <= 1000,
        forall|k: int| 0 <= k < old(bodies)@.len() ==> body_wf(#[trigger] old(bodies)@[k]),
    ensures
        (final(bodies)@, events@) == spec_check_collisions(old(bodies)@),
{
    let ghost orig = bodies@;
    let n = bodies.len();
    let mut events: Vec<CollisionEvent> = Vec::new();
    let mut i: usize = 0;
    while i < n
        invariant
            n == orig.len() <= 1000,
            i <= n,
            bodies@.len() == n,
            forall|k: int| 0 <= k < n ==> body_wf(#[trigger] orig[k]),
            forall|k: int|
                0 <= k < n ==> #[trigger] bodies@[k] == (BodyEntity {
                    position: bodies@[k].position,
                    ..orig[k]
                }),
            ({
                let p = spec_pass(orig, i as int);
                bodies@ == p.0 && events@ == p.1
            }),
            forall|k: int|
                0 <= k < n ==> (-(POS_LIMIT + move_count(k, i as int, i + 1, n as int)
                    * RADIUS_LIMIT) <= #[trigger] bodies@[k].position.x <= POS_LIMIT + move_count(
                    k,
                    i as int,
                    i + 1,
                    n as int,
                ) * RADIUS_LIMIT && -(POS_LIMIT + move_count(k, i as int, i + 1, n as int)
                    * RADIUS_LIMIT) <= bodies@[k].position.y <= POS_LIMIT + move_count(
                    k,
                    i as int,
                    i + 1,
                    n as int,
                ) * RADIUS_LIMIT),
        decreases n - i,
    {
        let ghost row_start = bodies@;
        let ghost evs_start = events@;
        let mut j: usize = i + 1;
        while j < n
            invariant
                n == orig.len() <= 1000,
                i < n,
                i + 1 <= j <= n,
                bodies@.len() == n,
                forall|k: int| 0 <= k < n ==> body_wf(#[trigger] orig[k]),
                forall|k: int|
                    0 <= k < n ==> #[trigger] bodies@[k] == (BodyEntity {
                        position: bodies@[k].position,
                        ..orig[k]
                    }),
                ({
                    let r = spec_row(row_start, i as int, j as int);
                    bodies@ == r.0 && events@ == evs_start + r.1
                }),
                ({
                    let p = spec_pass(orig, i as int);
                    row_start == p.0 && evs_start == p.1
                }),
                forall|k: int|
                    0 <= k < n ==> (-(POS_LIMIT + move_count(k, i as int, j as int, n as int)
                        * RADIUS_LIMIT) <= #[trigger] bodies@[k].position.x <= POS_LIMIT
                        + move_count(k, i as int, j as int, n as int) * RADIUS_LIMIT && -(POS_LIMIT
                        + move_count(k, i as int, j as int, n as int) * RADIUS_LIMIT)
                        <= bodies@[k].position.y <= POS_LIMIT + move_count(
                        k,
                        i as int,
                        j as int,
                        n as int,
                    ) * RADIUS_LIMIT),
            decreases n - j,
        {
            proof {
                assert(move_count(i as int, i as int, j as int, n as int) <= n - 1);
                assert(move_count(j as int, i as int, j as int, n as int) <= n - 1);
                assert((n - 1) * RADIUS_LIMIT <= 999 * 100_000) by (nonlinear_arith)
                    requires
                        n <= 1000,
                        RADIUS_LIMIT == 100_000,
                ;
                assert(-200_000_000 <= bodies@[i as int].position.x <= 200_000_000);
            }
            let ev = collide_pair(bodies, i, j);
            if let Some(e) = ev {
                events.push(e);
            }
            proof {
                let r_prev = spec_row(row_start, i as int, j as int);
                let r_next = spec_row(row_start, i as int, j + 1);
                assert(r_next.0 == spec_pair_step(r_prev.0, i as int, j as int).0);
                assert(r_next.1 == r_prev.1 + opt_event_seq(
                    spec_pair_step(r_prev.0, i as int, j as int).1,
                ));
                assert(events@ =~= evs_start + r_next.1);
            }
            j = j + 1;
        }
        proof {
            let p = spec_pass(orig, i as int);
            let p_next = spec_pass(orig, i + 1);
            assert(p_next.0 == spec_row(p.0, i as int, p.0.len() as int).0);
            assert(p.0.len() == n);
            assert(events@ =~= p_next.1);
        }
        i = i + 1;
    }
    proof {
        if n == 0 {
            assert(spec_pass(orig, 0).0 == orig);
        }
    }
    events
}

} // verus!
