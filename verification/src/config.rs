use vstd::prelude::*;

verus! {

use crate::geom::{Vec2i, spec_sin_milli, spec_cos_milli, sin_milli, cos_milli, tdiv, div_trunc,
    lemma_tdiv_bound};
use crate::rng::random_u64_below;

/// Half-width of the arena, in milli-units (the playfield spans
/// `-WIDTH ..= WIDTH` on the x axis).
pub const WIDTH: i64 = 600_000;

/// Half-height of the arena, in milli-units.
pub const HEIGHT: i64 = 350_000;

/// Length of one round, in milliseconds.
pub const ROUND_TIME_MS: u64 = 60_000;

/// Contribution of one bearish trader to the stock price.
pub const STONKS_PER_BEARISH: u32 = 3;

/// Contribution of one neutral trader to the stock price.
pub const STONKS_PER_NEUTRAL: u32 = 5;

/// Contribution of one bullish trader to the stock price.
pub const STONKS_PER_BULLISH: u32 = 7;

/// How many samples the price history keeps (one per tick).
pub const STONKS_DATA_POINTS: u32 = 300;

/// How many shares one buy action purchases.
pub const STONKS_PER_BUY_ACTION: u32 = 300;

/// How many traders wander the arena.
pub const TRADER_COUNT: u32 = 15;

/// Speed of a rumor projectile, in milli-units per tick.
pub const PROJECTILE_SPEED: i64 = 7_000;

/// How long a wandering entity keeps walking before it pauses.
pub const MOVEMENT_TIME_MS: u64 = 5_000;

/// How long a wandering entity idles before it walks again.
pub const IDLE_TIME_MS: u64 = 1_000;

/// The most tacos the player can hold.
pub const MAX_TACOS: u32 = 3;

/// How long one taco takes to recharge.
pub const TACO_CHARGE_TIME_MS: u64 = 1_000;

/// Chance, in per-mille, that a voice line plays when a tariff is launched.
pub const DONNIE_LINE_CHANCE_MILLI: u64 = 500;

/// Chance, in per-mille, that an overhead text shows on a sentiment change.
pub const TEXT_CHANCE_MILLI: u64 = 500;

/// The price when every trader is bearish: the lowest it can go.
pub const PRICE_LOWEST: u32 = STONKS_PER_BEARISH * TRADER_COUNT;

/// The price when every trader is bullish: the highest it can go.
pub const PRICE_HIGHEST: u32 = STONKS_PER_BULLISH * TRADER_COUNT;

/// Top walking speed of a trader, in milli-units per tick.
pub const TRADER_MAX_VELOCITY: i64 = 2_000;

/// Holds of every velocity `get_trader_random_velocity` can hand out: it
/// points along some whole-degree direction and its magnitude lies between
/// half and full walking speed.
pub open spec fn trader_velocity_ok(v: Vec2i) -> bool {
    exists|deg: int, speed: int|
        0 <= deg < 360 && 1_000 <= speed < 2_000 && v == spec_velocity_from(deg, speed)
}

/// The velocity of magnitude `speed` (milli-units per tick) pointing `deg`
/// whole degrees counterclockwise from the positive x axis.
pub open spec fn spec_velocity_from(deg: int, speed: int) -> Vec2i {
    Vec2i {
        x: tdiv(spec_cos_milli(deg) * speed, 1000) as i64,
        y: tdiv(spec_sin_milli(deg) * speed, 1000) as i64,
    }
}

/// A fresh random walking velocity for a trader: a uniform random whole-degree
/// direction at between half and full walking speed.
pub fn get_trader_random_velocity() -> (v: Vec2i)
    ensures
        trader_velocity_ok(v),
        -TRADER_MAX_VELOCITY <= v.x <= TRADER_MAX_VELOCITY,
        -TRADER_MAX_VELOCITY <= v.y <= TRADER_MAX_VELOCITY,
{
    let deg = random_u64_below(360);
    let speed = 1_000 + random_u64_below(1_000);
    let c = cos_milli(deg);
    let s = sin_milli(deg);
    proof {
        assert(-2_000_000 <= c * speed <= 2_000_000 && -2_000_000 <= s * speed <= 2_000_000)
            by (nonlinear_arith)
            requires
                -1000 <= c <= 1000,
                -1000 <= s <= 1000,
                1000 <= speed < 2000,
        ;
    }
    let xs: i64 = c * (speed as i64);
    let ys: i64 = s * (speed as i64);
    let vx: i64 = div_trunc(xs, 1000);
    let vy: i64 = div_trunc(ys, 1000);
    let v = Vec2i { x: vx, y: vy };
    proof {
        lemma_tdiv_bound(xs as int, 1000, TRADER_MAX_VELOCITY as int);
        lemma_tdiv_bound(ys as int, 1000, TRADER_MAX_VELOCITY as int);
        assert(v == spec_velocity_from(deg as int, speed as int));
        assert(trader_velocity_ok(v));
    }
    v
}

} // verus!
