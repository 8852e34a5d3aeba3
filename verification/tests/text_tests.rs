use donnies_tacos::dialogue::{process_text_requests, random_string, random_tariff, update_texts,
    OverheadText, OverheadTextEntity, OverheadTextRequest, BEARISH, BULLISH, ENDING_SARCASM,
    TARIFF_TARGETS, TARIFF_VALUES};
use donnies_tacos::shooting::on_donnie_shot;
use donnies_tacos::timer::{Timer, TimerMode};
use donnies_tacos::traders::{update_trader_status, Trader, TraderStatus};
use donnies_tacos::ui::{tick_text_effects, TextEffect, TextEffectEntity};

fn label(parent: u64) -> OverheadTextEntity {
    OverheadTextEntity {
        parent,
        overhead: OverheadText::default(),
        text: String::new(),
        visible: false,
    }
}

#[test]
fn requests_reach_only_their_target() {
    let mut texts = vec![label(1), label(2)];
    let requests = vec![
        OverheadTextRequest {
            attached_to: 2,
            text: Some("O NO".to_string()),
            duration_ms: Some(1200),
        },
    ];
    process_text_requests(&requests, &mut texts);
    assert!(!texts[0].visible);
    assert!(texts[1].visible);
    assert_eq!(texts[1].text, "O NO");
    assert_eq!(texts[1].overhead.display_timer.duration_ms, 1200);
    assert_eq!(texts[1].overhead.display_timer.elapsed_ms, 0);
}

#[test]
fn request_without_text_keeps_the_old_line() {
    let mut texts = vec![
        OverheadTextEntity { text: "TARIFFS!".to_string(), ..label(5) },
    ];
    let requests = vec![
        OverheadTextRequest { attached_to: 5, text: None, duration_ms: None },
    ];
    process_text_requests(&requests, &mut texts);
    assert!(texts[0].visible);
    assert_eq!(texts[0].text, "TARIFFS!");
    assert_eq!(texts[0].overhead.display_timer.duration_ms, 1000);
}

#[test]
fn later_requests_win() {
    let mut texts = vec![label(1)];
    let requests = vec![
        OverheadTextRequest {
            attached_to: 1,
            text: Some("YAY".to_string()),
            duration_ms: Some(500),
        },
        OverheadTextRequest {
            attached_to: 1,
            text: Some("WTF".to_string()),
            duration_ms: Some(900),
        },
    ];
    process_text_requests(&requests, &mut texts);
    assert_eq!(texts[0].text, "WTF");
    assert_eq!(texts[0].overhead.display_timer.duration_ms, 900);
}

#[test]
fn labels_hide_when_their_time_is_up() {
    let mut texts = vec![
        OverheadTextEntity {
            overhead: OverheadText {
                display_timer: Timer::from_millis(1200, TimerMode::Once),
            },
            visible: true,
            ..label(1)
        },
    ];
    update_texts(&mut texts, 1000);
    assert!(texts[0].visible);
    update_texts(&mut texts, 200);
    assert!(!texts[0].visible);
    update_texts(&mut texts, 200);
    assert!(!texts[0].visible);
}

#[test]
fn text_effects_despawn_on_expiry() {
    let fresh = |id| TextEffectEntity { id, effect: TextEffect::default() };
    let mut effects = vec![fresh(1), fresh(2)];
    let gone = tick_text_effects(&mut effects, 300);
    assert!(gone.is_empty());
    assert_eq!(effects.len(), 2);
    let gone = tick_text_effects(&mut effects, 200);
    assert_eq!(gone, vec![1, 2]);
    assert!(effects.is_empty());
}

#[test]
fn random_lines_come_from_their_tables() {
    for _ in 0..30 {
        assert!(BULLISH.contains(&random_string(&BULLISH)));
        assert!(BEARISH.contains(&random_string(&BEARISH)));
        assert!(ENDING_SARCASM.contains(&random_string(&ENDING_SARCASM)));
    }
}

#[test]
fn neutral_traders_stay_quiet() {
    let neutral = Trader { status: TraderStatus::Neutral };
    for _ in 0..30 {
        assert!(update_trader_status(&neutral, 4).is_none());
    }
}

#[test]
fn flipped_traders_shout_lines_of_their_table() {
    let bullish = Trader { status: TraderStatus::Bullish };
    let bearish = Trader { status: TraderStatus::Bearish };
    let mut bullish_spoke = false;
    let mut bearish_spoke = false;
    for _ in 0..200 {
        if let Some(req) = update_trader_status(&bullish, 4) {
            bullish_spoke = true;
            assert_eq!(req.attached_to, 4);
            assert_eq!(req.duration_ms, Some(1200));
            assert!(BULLISH.contains(&req.text.expect("a line").as_str()));
        }
        if let Some(req) = update_trader_status(&bearish, 9) {
            bearish_spoke = true;
            assert_eq!(req.attached_to, 9);
            assert!(BEARISH.contains(&req.text.expect("a line").as_str()));
        }
    }
    assert!(bullish_spoke && bearish_spoke);
}

#[test]
fn donnie_announces_his_tariffs() {
    let req = on_donnie_shot(77);
    assert_eq!(req.attached_to, 77);
    assert_eq!(req.duration_ms, Some(1500));
    let t = req.text.expect("an announcement");
    assert!(t.contains("% TARIFFS\nON "));
}

#[test]
fn tariff_announcements_have_the_fixed_shape() {
    for _ in 0..30 {
        let t = random_tariff();
        let mid = "% TARIFFS\nON ";
        let cut = t.find(mid).expect("announcement shape");
        let value = &t[..cut];
        let target = &t[cut + mid.len()..];
        assert!(TARIFF_VALUES.contains(&value));
        assert!(TARIFF_TARGETS.contains(&target));
    }
}
