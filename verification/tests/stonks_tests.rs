use donnies_tacos::investing;
use donnies_tacos::stonks::{notif_thresholds, player_investing, update_stonks_price,
    StonksPriceNotification, StonksTrading, TradePhase};
use donnies_tacos::traders::TraderStatus;
use donnies_tacos::ui::{format_money, separated_number, ui_update_game_stats,
    ui_update_stonks_phase, u64_to_string};
use donnies_tacos::game_states::GameStats;

fn statuses(neutral: usize, bearish: usize, bullish: usize) -> Vec<TraderStatus> {
    let mut v = Vec::new();
    for _ in 0..neutral {
        v.push(TraderStatus::Neutral);
    }
    for _ in 0..bearish {
        v.push(TraderStatus::Bearish);
    }
    for _ in 0..bullish {
        v.push(TraderStatus::Bullish);
    }
    v
}

#[test]
fn price_of_all_neutral_traders() {
    let mut s = StonksTrading::default();
    let n = update_stonks_price(&mut s, &statuses(15, 0, 0));
    assert_eq!(s.price_current, 75);
    assert_eq!(s.price_history.len(), 1);
    assert_eq!(s.price_history[0], 75);
    assert!(n.is_none());
}

#[test]
fn price_weights_by_sentiment() {
    let mut s = StonksTrading::default();
    update_stonks_price(&mut s, &statuses(5, 6, 4));
    assert_eq!(s.price_current, 5 * 5 + 3 * 6 + 7 * 4);
}

#[test]
fn thresholds_cut_the_span_at_thirty_and_seventy_percent() {
    assert_eq!(notif_thresholds(), (63, 87));
}

#[test]
fn dropping_price_fires_the_low_notification_once() {
    let mut s = StonksTrading::default();
    update_stonks_price(&mut s, &statuses(15, 0, 0));
    let n = update_stonks_price(&mut s, &statuses(0, 15, 0));
    assert_eq!(n, Some(StonksPriceNotification::LOW));
    let again = update_stonks_price(&mut s, &statuses(0, 15, 0));
    assert!(again.is_none());
}

#[test]
fn rising_price_fires_the_high_notification_once() {
    let mut s = StonksTrading::default();
    update_stonks_price(&mut s, &statuses(15, 0, 0));
    let n = update_stonks_price(&mut s, &statuses(0, 0, 15));
    assert_eq!(n, Some(StonksPriceNotification::HIGH));
    let again = update_stonks_price(&mut s, &statuses(0, 0, 15));
    assert!(again.is_none());
}

#[test]
fn history_window_stays_bounded() {
    let mut s = StonksTrading::default();
    for _ in 0..400 {
        update_stonks_price(&mut s, &statuses(15, 0, 0));
    }
    assert_eq!(s.price_history.len(), 301);
}

#[test]
fn buy_then_dump_books_the_profit() {
    let mut s = StonksTrading::default();
    update_stonks_price(&mut s, &statuses(0, 15, 0));
    assert_eq!(s.price_current, 45);
    let fx = player_investing(&mut s, true).expect("buy effect");
    assert_eq!(fx.text, "BOUGHT");
    assert_eq!(fx.duration_ms, 1000);
    assert_eq!(s.owned, 300);
    assert_eq!(s.spent, 300 * 45);
    assert!(matches!(s.phase, TradePhase::Dump));

    update_stonks_price(&mut s, &statuses(0, 0, 15));
    assert_eq!(s.price_current, 105);
    let fx = player_investing(&mut s, true).expect("dump effect");
    let expected_profit = 300i64 * 105 - 300 * 45;
    assert_eq!(fx.text, format!("+${}", expected_profit));
    assert_eq!(s.returns_total, expected_profit);
    assert_eq!(s.owned, 0);
    assert_eq!(s.spent, 0);
    assert!(matches!(s.phase, TradePhase::Buy));
}

#[test]
fn no_input_no_trade() {
    let mut s = StonksTrading::default();
    update_stonks_price(&mut s, &statuses(15, 0, 0));
    assert!(player_investing(&mut s, false).is_none());
    assert_eq!(s.owned, 0);
    assert!(matches!(s.phase, TradePhase::Buy));
}

#[test]
fn average_buy_price_of_open_position() {
    let mut s = StonksTrading::default();
    assert_eq!(s.avg_buy_price(), None);
    s.owned = 300;
    s.spent = 13_500;
    assert_eq!(s.avg_buy_price(), Some(45));
}

#[test]
fn manual_variant_buys_one_share_per_frame() {
    let mut s = investing::StonksTrading::default();
    s.price_current = 45;
    investing::player_investing(&mut s, true, false);
    investing::player_investing(&mut s, true, false);
    assert_eq!(s.owned, 2);
    assert_eq!(s.spent, 90);
    s.price_current = 105;
    investing::player_investing(&mut s, false, true);
    assert_eq!(s.returns_total, 2 * 105 - 90);
    assert_eq!(s.owned, 0);
    assert_eq!(s.spent, 0);
}

#[test]
fn manual_variant_average_buy_price_defaults_to_zero() {
    let mut s = investing::StonksTrading::default();
    assert_eq!(s.avg_buy_price(), 0);
    s.owned = 4;
    s.spent = 90;
    assert_eq!(s.avg_buy_price(), 22);
}

#[test]
fn manual_variant_tracks_price() {
    let mut s = investing::StonksTrading::default();
    let mut sts = Vec::new();
    for _ in 0..15 {
        sts.push(TraderStatus::Bullish);
    }
    investing::update_stonks_price(&mut s, &sts);
    assert_eq!(s.price_current, 105);
    assert_eq!(s.price_history.len(), 1);
}

#[test]
fn money_formatting() {
    assert_eq!(format_money(0), "+$0");
    assert_eq!(format_money(42), "+$42");
    assert_eq!(format_money(-5), "-$5");
    assert_eq!(format_money(1_234_567), "+$1234567");
}

#[test]
fn separated_number_groups_digits_with_dots() {
    assert_eq!(separated_number(0), "0");
    assert_eq!(separated_number(123), "123");
    assert_eq!(separated_number(1000), "1.000");
    assert_eq!(separated_number(1_234_567), "1.234.567");
    assert_eq!(separated_number(-1_234_567), "-1.234.567");
}

#[test]
fn plain_decimal_rendering() {
    assert_eq!(u64_to_string(0), "0");
    assert_eq!(u64_to_string(907), "907");
    assert_eq!(u64_to_string(18_446_744_073_709_551_615), "18446744073709551615");
}

#[test]
fn phase_label_matches_phase() {
    let mut s = StonksTrading::default();
    assert_eq!(ui_update_stonks_phase(&s), "Buy");
    s.phase = TradePhase::Dump;
    assert_eq!(ui_update_stonks_phase(&s), "Sell");
}

#[test]
fn header_readouts() {
    let stats = GameStats::default();
    let mut s = StonksTrading::default();
    s.returns_total = -2500;
    let (time, profit) = ui_update_game_stats(&stats, &s);
    assert_eq!(time, "60");
    assert_eq!(profit, "-$2500");
}
