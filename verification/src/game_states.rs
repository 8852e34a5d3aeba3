use vstd::prelude::*;

verus! {

use crate::config::ROUND_TIME_MS;
use crate::timer::{Timer, TimerMode, MAX_TIMER_MS};

/// The top-level screens and modes of the game.
#[derive(Clone, Copy, PartialEq, Eq, Structural, Debug, Hash)]
pub enum GameState {
    Menu,
    PlaySetup,
    Playing,
    Paused,
    GameOver,
    Tutorial,
    Options,
}

impl Default for GameState {
    fn default() -> (r: GameState)
        ensures
            r == GameState::Menu,
    {
        GameState::Menu
    }
}

/// Round-wide bookkeeping: the running projectile count and the round clock.
#[derive(Clone, Copy, PartialEq, Eq, Structural, Debug)]
pub struct GameStats {
    pub total_projectiles_launched: u32,
    pub time_remaining: Timer,
}

impl Default for GameStats {
    fn default() -> (r: GameStats)
        ensures
            r == (GameStats {
                total_projectiles_launched: 0,
                time_remaining: Timer {
                    duration_ms: ROUND_TIME_MS,
                    elapsed_ms: 0,
                    mode: TimerMode::Once,
                },
            }),
    {
        GameStats {
            total_projectiles_launched: 0,
            time_remaining: Timer {
                duration_ms: ROUND_TIME_MS,
                elapsed_ms: 0,
                mode: TimerMode::Once,
            },
        }
    }
}

/// Tick the round clock; the round ends the moment it runs out.
pub fn check_game_over(stats: &mut GameStats, delta_ms: u64) -> (next: Option<GameState>)
    requires
        old(stats).time_remaining.wf(),
        old(stats).time_remaining.duration_ms <= MAX_TIMER_MS,
        delta_ms <= MAX_TIMER_MS,
    ensures
        final(stats).time_remaining == old(stats).time_remaining.spec_tick(delta_ms as int),
        final(stats).total_projectiles_launched == old(stats).total_projectiles_launched,
        next == if old(stats).time_remaining.spec_just_finished(delta_ms as int) {
            Some(GameState::GameOver)
        } else {
            None::<GameState>
        },
{
    if stats.time_remaining.tick(delta_ms) {
        Some(GameState::GameOver)
    } else {
        None
    }
}

/// The pause key toggles between playing and paused; it does nothing on any
/// other screen.
pub fn check_game_pause(current: GameState, escape_just_pressed: bool) -> (next: Option<GameState>)
    ensures
        next == if !escape_just_pressed {
            None::<GameState>
        } else if current == GameState::Paused {
            Some(GameState::Playing)
        } else if current == GameState::Playing {
            Some(GameState::Paused)
        } else {
            None::<GameState>
        },
{
    if !escape_just_pressed {
        return None;
    }
    if current == GameState::Paused {
        Some(GameState::Playing)
    } else if current == GameState::Playing {
        Some(GameState::Paused)
    } else {
        None
    }
}

} // verus!
