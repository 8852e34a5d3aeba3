use vstd::prelude::*;

verus! {

use std::collections::VecDeque;
use crate::config::{STONKS_PER_BEARISH, STONKS_PER_NEUTRAL, STONKS_PER_BULLISH,
    STONKS_DATA_POINTS};
use crate::traders::TraderStatus;
use crate::stonks::{spec_price, spec_count_status};

/// An earlier, simpler cut of the trading rules: shares are bought one by one
/// while the buy key is held and the whole position is sold on the sell key.
/// The current game uses the phased rules in the trading module instead, but
/// this variant is kept alongside them.
#[derive(Debug)]
pub struct StonksTrading {
    pub price_current: u32,
    pub owned: u32,
    pub spent: u32,
    pub returns_total: i64,
    pub price_history: VecDeque<u32>,
}

impl Default for StonksTrading {
    fn default() -> (r: StonksTrading)
        ensures
            r.price_current == 0,
            r.owned == 0,
            r.spent == 0,
            r.returns_total == 0,
            r.price_history@ == Seq::<u32>::empty(),
    {
        StonksTrading {
            price_current: 0,
            owned: 0,
            spent: 0,
            returns_total: 0,
            price_history: VecDeque::new(),
        }
    }
}

impl StonksTrading {
    /// The average price paid per owned share; zero with no open position.
    pub fn avg_buy_price(&self) -> (r: u32)
        ensures
            self.owned != 0 ==> r == self.spent / self.owned,
            self.owned == 0 ==> r == 0,
    {
        if self.owned != 0 {
            self.spent / self.owned
        } else {
            0
        }
    }
}

/// Marker for the debug readout of this trading state.
#[derive(Clone, Copy, PartialEq, Eq, Structural, Debug)]
pub struct StonksUiText;

/// Recompute the stock price from the traders' sentiments and record it in
/// the history window; this variant fires no notifications.
pub fn update_stonks_price(stonks: &mut StonksTrading, statuses: &Vec<TraderStatus>)
    requires
        statuses@.len() <= 100_000_000,
    ensures
        final(stonks).price_current == spec_price(statuses@),
        final(stonks).price_history@ == if old(stonks).price_history@.len() > STONKS_DATA_POINTS {
            old(stonks).price_history@.drop_first().push(final(stonks).price_current)
        } else {
            old(stonks).price_history@.push(final(stonks).price_current)
        },
        final(stonks).owned == old(stonks).owned,
        final(stonks).spent == old(stonks).spent,
        final(stonks).returns_total == old(stonks).returns_total,
{
    let ghost sts = statuses@;
    let mut neutral: u32 = 0;
    let mut bearish: u32 = 0;
    let mut bullish: u32 = 0;
    let mut i: usize = 0;
    while i < statuses.len()
        invariant
            i <= sts.len(),
            statuses@ == sts,
            sts.len() <= 100_000_000,
            neutral == spec_count_status(sts.take(i as int), TraderStatus::Neutral),
            bearish == spec_count_status(sts.take(i as int), TraderStatus::Bearish),
            bullish == spec_count_status(sts.take(i as int), TraderStatus::Bullish),
            neutral + bearish + bullish == i,
        decreases sts.len() - i,
    {
        proof {
            assert(sts.take(i + 1).drop_last() =~= sts.take(i as int));
            assert(sts.take(i + 1).last() == sts[i as int]);
        }
        match statuses[i] {
            TraderStatus::Neutral => neutral = neutral + 1,
            TraderStatus::Bearish => bearish = bearish + 1,
            TraderStatus::Bullish => bullish = bullish + 1,
        }
        i = i + 1;
    }
    proof {
        assert(sts.take(sts.len() as int) =~= sts);
    }
    stonks.price_current = STONKS_PER_NEUTRAL * neutral + STONKS_PER_BEARISH * bearish
        + STONKS_PER_BULLISH * bullish;

    if stonks.price_history.len() > STONKS_DATA_POINTS as usize {
        stonks.price_history.pop_front();
    }
    stonks.price_history.push_back(stonks.price_current);
}

/// One frame of manual trading: holding the buy key buys one share at the
/// current price, and a fresh press of the sell key liquidates the position.
/// A buy and a sell in the same frame buy first and then sell everything.
pub fn player_investing(stonks: &mut StonksTrading, buy_pressed: bool, sell_just_pressed: bool)
    requires
        buy_pressed ==> old(stonks).owned + 1 <= u32::MAX && old(stonks).spent + old(stonks).price_current <= u32::MAX,
        sell_just_pressed ==> (old(stonks).owned + if buy_pressed {
            1int
        } else {
            0int
        }) * old(stonks).price_current <= u32::MAX && i64::MIN <= old(stonks).returns_total + ((old(stonks).owned + if buy_pressed {
            1int
        } else {
            0int
        }) * old(stonks).price_current - (old(stonks).spent + if buy_pressed {
            old(stonks).price_current as int
        } else {
            0int
        })) <= i64::MAX,
    ensures
        final(stonks).price_current == old(stonks).price_current,
        final(stonks).price_history@ == old(stonks).price_history@,
        ({
            let owned1 = old(stonks).owned + if buy_pressed {
                1int
            } else {
                0int
            };
            let spent1 = old(stonks).spent + if buy_pressed {
                old(stonks).price_current as int
            } else {
                0int
            };
            if sell_just_pressed {
                final(stonks).owned == 0 && final(stonks).spent == 0 && final(stonks).returns_total == old(stonks).returns_total + (owned1 * old(stonks).price_current
                    - spent1)
            } else {
                final(stonks).owned == owned1 && final(stonks).spent == spent1 && final(stonks).returns_total == old(stonks).returns_total
            }
        }),
{
    if buy_pressed {
        stonks.owned = stonks.owned + 1;
        stonks.spent = stonks.spent + stonks.price_current;
    }
    if sell_just_pressed {
        let profit: i64 = (stonks.owned as i64) * (stonks.price_current as i64) - (
        stonks.spent as i64);
        stonks.returns_total = stonks.returns_total + profit;
        stonks.owned = 0;
        stonks.spent = 0;
    }
}

} // verus!
