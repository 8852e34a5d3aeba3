use vstd::prelude::*;

verus! {

use vstd::string::StringExecFns;
use vstd::string::StrSliceExecFns;
use crate::timer::{Timer, TimerMode, MAX_TIMER_MS};
use crate::stonks::{StonksTrading, TradePhase};
use crate::game_states::GameStats;

/// Marker for the money readout in the in-game header.
#[derive(Clone, Copy, PartialEq, Eq, Structural, Debug)]
pub struct ProfitText;

/// Marker for the round countdown in the in-game header.
#[derive(Clone, Copy, PartialEq, Eq, Structural, Debug)]
pub struct TimeText;

/// Marker for the buy/sell phase indicator next to the price chart.
#[derive(Clone, Copy, PartialEq, Eq, Structural, Debug)]
pub struct StonkPhaseText;

/// A short-lived floating text; it despawns when its timer runs out.
#[derive(Clone, Copy, PartialEq, Eq, Structural, Debug)]
pub struct TextEffect {
    pub timer: Timer,
}

impl Default for TextEffect {
    fn default() -> (r: TextEffect)
        ensures
            r == (TextEffect {
                timer: Timer { duration_ms: 500, elapsed_ms: 0, mode: TimerMode::Once },
            }),
    {
        TextEffect { timer: Timer { duration_ms: 500, elapsed_ms: 0, mode: TimerMode::Once } }
    }
}

/// Ask the host to float a piece of text over the chart for a while.
pub struct TextEffectRequest {
    pub text: String,
    pub duration_ms: u64,
}

/// One live text effect, as the ticking rule sees it.
#[derive(Clone, Copy, PartialEq, Eq, Structural, Debug)]
pub struct TextEffectEntity {
    pub id: u64,
    pub effect: TextEffect,
}

pub open spec fn text_effect_wf(e: TextEffectEntity) -> bool {
    e.effect.timer.wf() && e.effect.timer.duration_ms <= MAX_TIMER_MS
}

/// The surviving effects (with their timers advanced) and the identities of
/// the effects that expired this tick, in entity order.
pub open spec fn spec_tick_effects(s: Seq<TextEffectEntity>, delta: int) -> (Seq<TextEffectEntity>,
    Seq<u64>)
    decreases s.len(),
{
    if s.len() == 0 {
        (Seq::empty(), Seq::empty())
    } else {
        let (kept, gone) = spec_tick_effects(s.drop_last(), delta);
        let e = s.last();
        if e.effect.timer.spec_just_finished(delta) {
            (kept, gone.push(e.id))
        } else {
            (
                kept.push(
                    TextEffectEntity { effect: TextEffect { timer: e.effect.timer.spec_tick(delta) }, ..e },
                ),
                gone,
            )
        }
    }
}

/// Advance every floating text's timer; effects whose timer just ran out are
/// dropped and their identities returned so the host can despawn them.
pub fn tick_text_effects(effects: &mut Vec<TextEffectEntity>, delta_ms: u64) -> (despawned: Vec<
    u64,
>)
    requires
        delta_ms <= MAX_TIMER_MS,
        forall|i: int|
            0 <= i < old(effects)@.len() ==> text_effect_wf(#[trigger] old(effects)@[i]),
    ensures
        (final(effects)@, despawned@) == spec_tick_effects(old(effects)@, delta_ms as int),
        forall|i: int|
            0 <= i < final(effects)@.len() ==> text_effect_wf(#[trigger] final(effects)@[i]),
{
    let ghost orig = effects@;
    let mut kept: Vec<TextEffectEntity> = Vec::new();
    let mut gone: Vec<u64> = Vec::new();
    let mut i: usize = 0;
    while i < effects.len()
        invariant
            delta_ms <= MAX_TIMER_MS,
            i <= orig.len(),
            effects@ == orig,
            forall|k: int| 0 <= k < orig.len() ==> text_effect_wf(#[trigger] orig[k]),
            (kept@, gone@) == spec_tick_effects(orig.take(i as int), delta_ms as int),
            forall|k: int| 0 <= k < kept@.len() ==> text_effect_wf(#[trigger] kept@[k]),
        decreases orig.len() - i,
    {
        let mut e = effects[i];
        proof {
            assert(orig[i as int] == e);
            assert(text_effect_wf(orig[i as int]));
        }
        let fin = e.effect.timer.tick(delta_ms);
        if fin {
            gone.push(e.id);
        } else {
            kept.push(e);
        }
        proof {
            assert(orig.take(i + 1).drop_last() =~= orig.take(i as int));
            assert(orig.take(i + 1).last() == orig[i as int]);
        }
        i = i + 1;
    }
    proof {
        assert(orig.take(orig.len() as int) =~= orig);
    }
    *effects = kept;
    gone
}

/// The character for one decimal digit.
pub open spec fn spec_digit_char(d: int) -> char {
    if d == 0 {
        '0'
    } else if d == 1 {
        '1'
    } else if d == 2 {
        '2'
    } else if d == 3 {
        '3'
    } else if d == 4 {
        '4'
    } else if d == 5 {
        '5'
    } else if d == 6 {
        '6'
    } else if d == 7 {
        '7'
    } else if d == 8 {
        '8'
    } else {
        '9'
    }
}

/// The usual decimal rendering of a nonnegative number, most significant
/// digit first, no leading zeros (a lone zero for zero).
pub open spec fn spec_digits(n: nat) -> Seq<char>
    decreases n,
{
    if n < 10 {
        seq![spec_digit_char(n as int)]
    } else {
        spec_digits(n / 10).push(spec_digit_char((n % 10) as int))
    }
}

fn digit_str(d: u64) -> (r: &'static str)
    requires
        d < 10,
    ensures
        r@ == seq![spec_digit_char(d as int)],
{
    proof {
        reveal_strlit("0");
        reveal_strlit("1");
        reveal_strlit("2");
        reveal_strlit("3");
        reveal_strlit("4");
        reveal_strlit("5");
        reveal_strlit("6");
        reveal_strlit("7");
        reveal_strlit("8");
        reveal_strlit("9");
    }
    let r: &'static str = if d == 0 {
        "0"
    } else if d == 1 {
        "1"
    } else if d == 2 {
        "2"
    } else if d == 3 {
        "3"
    } else if d == 4 {
        "4"
    } else if d == 5 {
        "5"
    } else if d == 6 {
        "6"
    } else if d == 7 {
        "7"
    } else if d == 8 {
        "8"
    } else {
        "9"
    };
    proof {
        assert(r@ =~= seq![spec_digit_char(d as int)]);
    }
    r
}

/// Render a number in decimal.
pub fn u64_to_string(n: u64) -> (r: String)
    ensures
        r@ == spec_digits(n as nat),
    decreases n,
{
    if n < 10 {
        let mut s = String::new();
        s.append(digit_str(n));
        proof {
            assert(s@ =~= spec_digits(n as nat));
        }
        s
    } else {
        let mut s = u64_to_string(n / 10);
        s.append(digit_str(n % 10));
        proof {
            assert(s@ =~= spec_digits(n as nat));
        }
        s
    }
}

/// Money formatted for the header and the trade pop-ups: an explicit sign,
/// a dollar mark, then the amount.
pub open spec fn spec_format_money(m: int) -> Seq<char> {
    if m < 0 {
        seq!['-', '$'] + spec_digits((-m) as nat)
    } else {
        seq!['+', '$'] + spec_digits(m as nat)
    }
}

pub fn format_money(money: i64) -> (r: String)
    requires
        money > i64::MIN,
    ensures
        r@ == spec_format_money(money as int),
{
    proof {
        reveal_strlit("-$");
        reveal_strlit("+$");
    }
    if money < 0 {
        let mut s = String::from_str("-$");
        let d = u64_to_string((-money) as u64);
        s.append(d.as_str());
        proof {
            assert(s@ =~= spec_format_money(money as int));
        }
        s
    } else {
        let mut s = String::from_str("+$");
        let d = u64_to_string(money as u64);
        s.append(d.as_str());
        proof {
            assert(s@ =~= spec_format_money(money as int));
        }
        s
    }
}

/// Digits regrouped in threes from the right, the groups joined with dots.
pub open spec fn spec_grouped(digits: Seq<char>) -> Seq<char>
    decreases digits.len(),
{
    if digits.len() <= 3 {
        digits
    } else {
        spec_grouped(digits.take(digits.len() - 3)) + seq!['.'] + digits.skip(
            digits.len() - 3,
        )
    }
}

fn group_digits(s: &str) -> (r: String)
    ensures
        r@ == spec_grouped(s@),
    decreases s@.len(),
{
    let n = s.unicode_len();
    if n <= 3 {
        String::from_str(s)
    } else {
        let head = s.substring_char(0, n - 3);
        let tail = s.substring_char(n - 3, n);
        let mut r = group_digits(head);
        r.append(".");
        r.append(tail);
        proof {
            reveal_strlit(".");
            assert("."@ =~= seq!['.']);
            assert(r@ =~= spec_grouped(s@));
        }
        r
    }
}

/// A signed number rendered with its digits grouped in threes, dot-separated:
/// the end-of-round tally format.
pub open spec fn spec_separated_number(n: int) -> Seq<char> {
    if n < 0 {
        seq!['-'] + spec_grouped(spec_digits((-n) as nat))
    } else {
        spec_grouped(spec_digits(n as nat))
    }
}

pub fn separated_number(n: i64) -> (r: String)
    requires
        n > i64::MIN,
    ensures
        r@ == spec_separated_number(n as int),
{
    if n < 0 {
        let d = u64_to_string((-n) as u64);
        let g = group_digits(d.as_str());
        proof {
            reveal_strlit("-");
        }
        let mut s = String::from_str("-");
        s.append(g.as_str());
        proof {
            assert(s@ =~= spec_separated_number(n as int));
        }
        s
    } else {
        let d = u64_to_string(n as u64);
        group_digits(d.as_str())
    }
}

/// The phase label shown next to the chart: what pressing the trade key will
/// do next.
pub fn ui_update_stonks_phase(stonks: &StonksTrading) -> (r: String)
    ensures
        stonks.phase == TradePhase::Buy ==> r@ == "Buy"@,
        stonks.phase == TradePhase::Dump ==> r@ == "Sell"@,
{
    match stonks.phase {
        TradePhase::Buy => String::from_str("Buy"),
        TradePhase::Dump => String::from_str("Sell"),
    }
}

/// The header readouts: seconds left in the round and the running profit.
pub fn ui_update_game_stats(stats: &GameStats, stonks: &StonksTrading) -> (r: (String, String))
    requires
        stats.time_remaining.wf(),
        stonks.returns_total > i64::MIN,
    ensures
        r.0@ == spec_digits(((stats.time_remaining.duration_ms - stats.time_remaining.elapsed_ms)
            / 1000) as nat),
        r.1@ == spec_format_money(stonks.returns_total as int),
{
    let secs = stats.time_remaining.remaining_ms() / 1000;
    (u64_to_string(secs), format_money(stonks.returns_total))
}

} // verus!
