use vstd::prelude::*;

verus! {

use crate::config::TEXT_CHANCE_MILLI;
use crate::dialogue::{random_string, OverheadTextRequest, BULLISH, BEARISH};
use crate::geom::Vec2i;
use crate::rng::random_u64_below;
use crate::timer::{Timer, MAX_TIMER_MS};

/// Market sentiment of one trader.
#[derive(Clone, Copy, PartialEq, Eq, Structural, Debug)]
pub enum TraderStatus {
    Neutral,
    Bullish,
    Bearish,
}

impl Default for TraderStatus {
    fn default() -> (r: TraderStatus)
        ensures
            r == TraderStatus::Neutral,
    {
        TraderStatus::Neutral
    }
}

/// A trader wandering the arena; its sentiment feeds the stock price.
#[derive(Clone, Copy, PartialEq, Eq, Structural, Debug)]
pub struct Trader {
    pub status: TraderStatus,
}

impl Default for Trader {
    fn default() -> (r: Trader)
        ensures
            r == (Trader { status: TraderStatus::Neutral }),
    {
        Trader { status: TraderStatus::Neutral }
    }
}

/// Reverts the trader to neutral sentiment when it runs out.
#[derive(Clone, Copy, PartialEq, Eq, Structural, Debug)]
pub struct TraderStatusTimer(pub Timer);

/// Rest window in which a trader cannot collide with projectiles; it keeps
/// chain reactions from flooding the game with projectiles.
#[derive(Clone, Copy, PartialEq, Eq, Structural, Debug)]
pub struct TraderRestTimer(pub Timer);

/// Record of one sentiment change, for the host's sprite and audio hooks.
#[derive(Clone, Copy, PartialEq, Eq, Structural, Debug)]
pub struct TraderChange {
    pub entity: u64,
    pub prev: TraderStatus,
    pub new: TraderStatus,
}

/// One trader entity as the per-tick rules see it: its identity, sentiment,
/// optional timers and position.
#[derive(Clone, Copy, PartialEq, Eq, Structural, Debug)]
pub struct TraderEntity {
    pub id: u64,
    pub trader: Trader,
    pub status_timer: Option<TraderStatusTimer>,
    pub rest_timer: Option<TraderRestTimer>,
    pub position: Vec2i,
}

pub open spec fn trader_timers_wf(t: TraderEntity) -> bool {
    &&& match t.status_timer {
        Some(st) => st.0.wf() && st.0.duration_ms <= MAX_TIMER_MS,
        None => true,
    }
    &&& match t.rest_timer {
        Some(rt) => rt.0.wf() && rt.0.duration_ms <= MAX_TIMER_MS,
        None => true,
    }
}

/// One trader after its timers have ticked by `delta` milliseconds: a status
/// timer that finishes reverts the sentiment to neutral and is removed, and a
/// rest timer that finishes is removed.
pub open spec fn spec_tick_trader(t: TraderEntity, delta: int) -> TraderEntity {
    let t1 = match t.status_timer {
        Some(st) => if st.0.spec_just_finished(delta) {
            TraderEntity {
                trader: Trader { status: TraderStatus::Neutral },
                status_timer: None,
                ..t
            }
        } else {
            TraderEntity { status_timer: Some(TraderStatusTimer(st.0.spec_tick(delta))), ..t }
        },
        None => t,
    };
    match t1.rest_timer {
        Some(rt) => if rt.0.spec_just_finished(delta) {
            TraderEntity { rest_timer: None, ..t1 }
        } else {
            TraderEntity { rest_timer: Some(TraderRestTimer(rt.0.spec_tick(delta))), ..t1 }
        },
        None => t1,
    }
}

/// The change record a tick emits for one trader, if any.
pub open spec fn spec_trader_change(t: TraderEntity, delta: int) -> Option<TraderChange> {
    match t.status_timer {
        Some(st) => if st.0.spec_just_finished(delta) {
            Some(TraderChange { entity: t.id, prev: t.trader.status, new: TraderStatus::Neutral })
        } else {
            None
        },
        None => None,
    }
}

/// All change records a tick emits, in trader order.
pub open spec fn spec_trader_changes(s: Seq<TraderEntity>, delta: int) -> Seq<TraderChange>
    decreases s.len(),
{
    if s.len() == 0 {
        Seq::empty()
    } else {
        let pre = spec_trader_changes(s.drop_last(), delta);
        match spec_trader_change(s.last(), delta) {
            Some(c) => pre.push(c),
            None => pre,
        }
    }
}

/// React to one trader's sentiment change: a trader that turned bullish or
/// bearish shouts a random line of the matching table over its head, half
/// the time; a trader back to neutral stays quiet.  (The matching sprite
/// swap is the host's business.)
pub fn update_trader_status(trader: &Trader, entity: u64) -> (req: Option<OverheadTextRequest>)
    ensures
        trader.status == TraderStatus::Neutral ==> req is None,
        req matches Some(r) ==> ({
            &&& r.attached_to == entity
            &&& r.duration_ms == Some(1200u64)
            &&& trader.status != TraderStatus::Neutral
            &&& (trader.status == TraderStatus::Bullish ==> (r.text matches Some(t) && exists|
                i: int,
            |
                0 <= i < BULLISH@.len() && t@ == BULLISH@[i]@))
            &&& (trader.status == TraderStatus::Bearish ==> (r.text matches Some(t) && exists|
                i: int,
            |
                0 <= i < BEARISH@.len() && t@ == BEARISH@[i]@))
        }),
{
    match trader.status {
        TraderStatus::Neutral => None,
        TraderStatus::Bullish => {
            if random_u64_below(1000) < TEXT_CHANCE_MILLI {
                let line = random_string(&BULLISH);
                Some(
                    OverheadTextRequest {
                        attached_to: entity,
                        text: Some(line.to_owned()),
                        duration_ms: Some(1200),
                    },
                )
            } else {
                None
            }
        },
        TraderStatus::Bearish => {
            if random_u64_below(1000) < TEXT_CHANCE_MILLI {
                let line = random_string(&BEARISH);
                Some(
                    OverheadTextRequest {
                        attached_to: entity,
                        text: Some(line.to_owned()),
                        duration_ms: Some(1200),
                    },
                )
            } else {
                None
            }
        },
    }
}

/// Advance every trader's timers by one tick of `delta_ms` milliseconds.
/// A finished status timer reverts the trader to neutral and reports the
/// change; a finished rest timer simply goes away.
pub fn tick_trader_timers(traders: &mut Vec<TraderEntity>, delta_ms: u64) -> (changes: Vec<
    TraderChange,
>)
    requires
        delta_ms <= MAX_TIMER_MS,
        forall|i: int| 0 <= i < old(traders)@.len() ==> trader_timers_wf(#[trigger] old(traders)@[i]),
    ensures
        final(traders)@.len() == old(traders)@.len(),
        forall|i: int|
            0 <= i < old(traders)@.len() ==> final(traders)@[i] == spec_tick_trader(
                #[trigger] old(traders)@[i],
                delta_ms as int,
            ),
        forall|i: int| 0 <= i < final(traders)@.len() ==> trader_timers_wf(#[trigger] final(traders)@[i]),
        changes@ == spec_trader_changes(old(traders)@, delta_ms as int),
{
    let ghost orig = traders@;
    let mut changes: Vec<TraderChange> = Vec::new();
    let mut i: usize = 0;
    while i < traders.len()
        invariant
            delta_ms <= MAX_TIMER_MS,
            i <= traders@.len(),
            traders@.len() == orig.len(),
            forall|k: int| 0 <= k < orig.len() ==> trader_timers_wf(#[trigger] orig[k]),
            forall|k: int|
                0 <= k < i ==> traders@[k] == spec_tick_trader(#[trigger] orig[k], delta_ms as int),
            forall|k: int| i <= k < orig.len() ==> traders@[k] == #[trigger] orig[k],
            forall|k: int| 0 <= k < i ==> trader_timers_wf(#[trigger] traders@[k]),
            changes@ == spec_trader_changes(orig.take(i as int), delta_ms as int),
        decreases traders@.len() - i,
    {
        let mut e = traders[i];
        proof {
            assert(traders@[i as int] == orig[i as int]);
            assert(trader_timers_wf(orig[i as int]));
        }
        if let Some(mut st) = e.status_timer {
            let fin = st.0.tick(delta_ms);
            if fin {
                changes.push(
                    TraderChange {
                        entity: e.id,
                        prev: e.trader.status,
                        new: TraderStatus::Neutral,
                    },
                );
                e.trader.status = TraderStatus::Neutral;
                e.status_timer = None;
            } else {
                e.status_timer = Some(st);
            }
        }
        if let Some(mut rt) = e.rest_timer {
            let fin = rt.0.tick(delta_ms);
            if fin {
                e.rest_timer = None;
            } else {
                e.rest_timer = Some(rt);
            }
        }
        traders.set(i, e);
        proof {
            assert(orig.take(i + 1).drop_last() =~= orig.take(i as int));
            assert(orig.take(i + 1).last() == orig[i as int]);
        }
        i = i + 1;
    }
    proof {
        assert(orig.take(orig.len() as int) =~= orig);
    }
    changes
}

} // verus!
