use vstd::prelude::*;

verus! {

use std::collections::VecDeque;
use vstd::string::StringExecFns;
use crate::config::{
    STONKS_PER_BEARISH,
    STONKS_PER_NEUTRAL,
    STONKS_PER_BULLISH,
    STONKS_DATA_POINTS,
    STONKS_PER_BUY_ACTION,
    PRICE_LOWEST,
    PRICE_HIGHEST,
};
use crate::traders::TraderStatus;
use crate::ui::{TextEffectRequest, spec_format_money, format_money};

/// What the next confirmed trade action will do.
#[derive(Clone, Copy, PartialEq, Eq, Structural, Debug)]
pub enum TradePhase {
    Buy,
    Dump,
}

impl Default for TradePhase {
    fn default() -> (r: TradePhase)
        ensures
            r == TradePhase::Buy,
    {
        TradePhase::Buy
    }
}

/// The player's position in the market: the live price, the open position,
/// the realised profit and the recent price history.
#[derive(Debug)]
pub struct StonksTrading {
    pub price_current: u32,
    pub owned: u32,
    pub spent: u32,
    pub returns_total: i64,
    pub price_history: VecDeque<u32>,
    pub phase: TradePhase,
}

impl Default for StonksTrading {
    fn default() -> (r: StonksTrading)
        ensures
            r.price_current == 0,
            r.owned == 0,
            r.spent == 0,
            r.returns_total == 0,
            r.price_history@ == Seq::<u32>::empty(),
            r.phase == TradePhase::Buy,
    {
        StonksTrading {
            price_current: 0,
            owned: 0,
            spent: 0,
            returns_total: 0,
            price_history: VecDeque::new(),
            phase: TradePhase::Buy,
        }
    }
}

impl StonksTrading {
    /// The average price paid per share of the open position, when one is
    /// open.
    pub fn avg_buy_price(&self) -> (r: Option<u32>)
        ensures
            self.owned != 0 ==> r == Some(self.spent / self.owned),
            self.owned == 0 ==> r is None,
    {
        if self.owned != 0 {
            Some(self.spent / self.owned)
        } else {
            None
        }
    }
}

/// Marker for the debug readout of the trading state.
#[derive(Clone, Copy, PartialEq, Eq, Structural, Debug)]
pub struct StonksUiText;

/// Fired when the price first crosses into the high or low band, so the host
/// can play a jingle.
#[derive(Clone, Copy, PartialEq, Eq, Structural, Debug)]
#[allow(non_camel_case_types)]
pub enum StonksPriceNotification {
    HIGH,
    LOW,
}

/// How many traders in `s` hold the sentiment `st`.
pub open spec fn spec_count_status(s: Seq<TraderStatus>, st: TraderStatus) -> int
    decreases s.len(),
{
    if s.len() == 0 {
        0
    } else {
        spec_count_status(s.drop_last(), st) + if s.last() == st {
            1int
        } else {
            0int
        }
    }
}

/// The stock price the aggregate sentiment dictates.
pub open spec fn spec_price(s: Seq<TraderStatus>) -> int {
    STONKS_PER_NEUTRAL * spec_count_status(s, TraderStatus::Neutral) + STONKS_PER_BEARISH
        * spec_count_status(s, TraderStatus::Bearish) + STONKS_PER_BULLISH * spec_count_status(
        s,
        TraderStatus::Bullish,
    )
}

pub proof fn lemma_count_status_bound(s: Seq<TraderStatus>, st: TraderStatus)
    ensures
        0 <= spec_count_status(s, st) <= s.len(),
    decreases s.len(),
{
    if s.len() > 0 {
        lemma_count_status_bound(s.drop_last(), st);
    }
}

/// Every trader counts toward exactly one of the three sentiments.
pub proof fn lemma_counts_partition(s: Seq<TraderStatus>)
    ensures
        spec_count_status(s, TraderStatus::Neutral) + spec_count_status(s, TraderStatus::Bearish)
            + spec_count_status(s, TraderStatus::Bullish) == s.len(),
    decreases s.len(),
{
    if s.len() > 0 {
        lemma_counts_partition(s.drop_last());
    }
}

/// The price therefore stays between the all-bearish and all-bullish values.
pub proof fn lemma_price_bounds(s: Seq<TraderStatus>)
    ensures
        STONKS_PER_BEARISH * s.len() <= spec_price(s) <= STONKS_PER_BULLISH * s.len(),
{
    lemma_count_status_bound(s, TraderStatus::Neutral);
    lemma_count_status_bound(s, TraderStatus::Bearish);
    lemma_count_status_bound(s, TraderStatus::Bullish);
    lemma_counts_partition(s);
}

/// Fraction, in per-mille, of the price span that sets the notification
/// thresholds.
pub const NOTIF_THRESHOLD_MILLI: u64 = 700;

/// The low and high notification thresholds: 30% and 70% of the way up the
/// possible price span.
pub fn notif_thresholds() -> (r: (u32, u32))
    ensures
        r.0 == PRICE_LOWEST + (PRICE_HIGHEST - PRICE_LOWEST) * (1000 - NOTIF_THRESHOLD_MILLI)
            / 1000,
        r.1 == PRICE_LOWEST + (PRICE_HIGHEST - PRICE_LOWEST) * NOTIF_THRESHOLD_MILLI / 1000,
{
    let diff: u64 = (PRICE_HIGHEST - PRICE_LOWEST) as u64;
    let low: u32 = PRICE_LOWEST + (diff * (1000 - NOTIF_THRESHOLD_MILLI) / 1000) as u32;
    let high: u32 = PRICE_LOWEST + (diff * NOTIF_THRESHOLD_MILLI / 1000) as u32;
    (low, high)
}

/// The price history after one sample: the oldest sample falls off once the
/// window is full.
pub open spec fn spec_history_after(h: Seq<u32>, price: u32) -> Seq<u32> {
    if h.len() > STONKS_DATA_POINTS {
        h.drop_first().push(price)
    } else {
        h.push(price)
    }
}

/// The notification, if any, that a move from `prev` to `price` fires.
pub open spec fn spec_price_notification(prev: u32, price: u32) -> Option<
    StonksPriceNotification,
> {
    let low = PRICE_LOWEST + (PRICE_HIGHEST - PRICE_LOWEST) * (1000 - NOTIF_THRESHOLD_MILLI)
        / 1000;
    let high = PRICE_LOWEST + (PRICE_HIGHEST - PRICE_LOWEST) * NOTIF_THRESHOLD_MILLI / 1000;
    if price <= low && prev > low {
        Some(StonksPriceNotification::LOW)
    } else if price >= high && prev < high {
        Some(StonksPriceNotification::HIGH)
    } else {
        None
    }
}

/// Recompute the stock price from the traders' sentiments, record it in the
/// history window, and report whether it just crossed into the high or low
/// band (measured against the previous sample, zero when there was none).
pub fn update_stonks_price(stonks: &mut StonksTrading, statuses: &Vec<TraderStatus>) -> (notif:
    Option<StonksPriceNotification>)
    requires
        statuses@.len() <= 100_000_000,
    ensures
        final(stonks).price_current == spec_price(statuses@),
        final(stonks).price_history@ == spec_history_after(
            old(stonks).price_history@,
            final(stonks).price_current,
        ),
        final(stonks).owned == old(stonks).owned,
        final(stonks).spent == old(stonks).spent,
        final(stonks).returns_total == old(stonks).returns_total,
        final(stonks).phase == old(stonks).phase,
        notif == spec_price_notification(
            if old(stonks).price_history@.len() > 0 {
                old(stonks).price_history@.last()
            } else {
                0u32
            },
            final(stonks).price_current,
        ),
{
    let ghost sts = statuses@;
    let mut neutral: u32 = 0;
    let mut bearish: u32 = 0;
    let mut bullish: u32 = 0;
    let mut i: usize = 0;
    while i < statuses.len()
        invariant
            i <= sts.len(),
            statuses@ == sts,
            sts.len() <= 100_000_000,
            neutral == spec_count_status(sts.take(i as int), TraderStatus::Neutral),
            bearish == spec_count_status(sts.take(i as int), TraderStatus::Bearish),
            bullish == spec_count_status(sts.take(i as int), TraderStatus::Bullish),
            neutral + bearish + bullish == i,
        decreases sts.len() - i,
    {
        proof {
            assert(sts.take(i + 1).drop_last() =~= sts.take(i as int));
            assert(sts.take(i + 1).last() == sts[i as int]);
        }
        match statuses[i] {
            TraderStatus::Neutral => neutral = neutral + 1,
            TraderStatus::Bearish => bearish = bearish + 1,
            TraderStatus::Bullish => bullish = bullish + 1,
        }
        i = i + 1;
    }
    proof {
        assert(sts.take(sts.len() as int) =~= sts);
    }
    let price_current: u32 = STONKS_PER_NEUTRAL * neutral + STONKS_PER_BEARISH * bearish
        + STONKS_PER_BULLISH * bullish;
    stonks.price_current = price_current;

    let hist_len = stonks.price_history.len();
    let price_prev: u32 = if hist_len > 0 {
        stonks.price_history[hist_len - 1]
    } else {
        0
    };
    if hist_len > STONKS_DATA_POINTS as usize {
        stonks.price_history.pop_front();
    }
    stonks.price_history.push_back(price_current);

    let (low, high) = notif_thresholds();
    if price_current <= low && price_prev > low {
        Some(StonksPriceNotification::LOW)
    } else if price_current >= high && price_prev < high {
        Some(StonksPriceNotification::HIGH)
    } else {
        None
    }
}

/// One press of the trade key.  In the buy phase it opens a position of
/// `STONKS_PER_BUY_ACTION` shares at the current price; in the dump phase it
/// sells everything, books the profit, and hands back the text to float over
/// the chart.
pub fn player_investing(stonks: &mut StonksTrading, invest_input: bool) -> (effect: Option<
    TextEffectRequest,
>)
    requires
        invest_input && old(stonks).phase == TradePhase::Buy ==> old(stonks).owned
            + STONKS_PER_BUY_ACTION <= u32::MAX && old(stonks).spent + old(stonks).price_current * STONKS_PER_BUY_ACTION <= u32::MAX,
        invest_input && old(stonks).phase == TradePhase::Dump ==> old(stonks).owned * old(stonks).price_current <= u32::MAX && i64::MIN < old(stonks).returns_total + (old(stonks).owned
            * old(stonks).price_current - old(stonks).spent) <= i64::MAX,
    ensures
        final(stonks).price_current == old(stonks).price_current,
        final(stonks).price_history@ == old(stonks).price_history@,
        !invest_input ==> final(stonks).owned == old(stonks).owned && final(stonks).spent == old(stonks).spent && final(stonks).returns_total == old(stonks).returns_total && final(stonks).phase
            == old(stonks).phase && effect is None,
        invest_input && old(stonks).phase == TradePhase::Buy ==> ({
            &&& final(stonks).owned == old(stonks).owned + STONKS_PER_BUY_ACTION
            &&& final(stonks).spent == old(stonks).spent + old(stonks).price_current
                * STONKS_PER_BUY_ACTION
            &&& final(stonks).returns_total == old(stonks).returns_total
            &&& final(stonks).phase == TradePhase::Dump
            &&& effect matches Some(e) && e.text@ == "BOUGHT"@ && e.duration_ms == 1000
        }),
        invest_input && old(stonks).phase == TradePhase::Dump ==> ({
            &&& final(stonks).owned == 0
            &&& final(stonks).spent == 0
            &&& final(stonks).returns_total == old(stonks).returns_total + (old(stonks).owned
                * old(stonks).price_current - old(stonks).spent)
            &&& final(stonks).phase == TradePhase::Buy
            &&& effect matches Some(e) && e.text@ == spec_format_money(
                old(stonks).owned * old(stonks).price_current - old(stonks).spent,
            ) && e.duration_ms == 1000
        }),
{
    if !invest_input {
        return None;
    }
    match stonks.phase {
        TradePhase::Buy => {
            stonks.owned = stonks.owned + STONKS_PER_BUY_ACTION;
            stonks.spent = stonks.spent + stonks.price_current * STONKS_PER_BUY_ACTION;
            stonks.phase = TradePhase::Dump;
            Some(TextEffectRequest { text: String::from_str("BOUGHT"), duration_ms: 1000 })
        },
        TradePhase::Dump => {
            let profit: i64 = (stonks.owned as i64) * (stonks.price_current as i64) - (
            stonks.spent as i64);
            stonks.returns_total = stonks.returns_total + profit;
            stonks.owned = 0;
            stonks.spent = 0;
            stonks.phase = TradePhase::Buy;
            Some(TextEffectRequest { text: format_money(profit), duration_ms: 1000 })
        },
    }
}

} // verus!
