use vstd::prelude::*;
use crate::accumulator::{AccumulatorState, TickInput, TitleConfig, accumulate, derived_time,
    spec_accumulate, spec_derived_time};
use crate::codec::IgtTime;
use crate::play_state::{PlayState, spec_classify_bank, classify_bank};
use crate::watcher::Watchers;

verus! {

/// The external timer's lifecycle state, queried fresh each tick; the core
/// keeps no copy of it.
#[derive(Clone, Copy, PartialEq, Eq, Structural, Debug)]
pub enum TimerPhase {
    NotRunning,
    Running,
    Paused,
}

/// The configuration surface the core exposes: only the auto-start toggle.
#[derive(Clone, Copy, PartialEq, Eq, Structural, Debug)]
pub struct Settings {
    pub start: bool,
}

impl Default for Settings {
    fn default() -> (r: Settings)
        ensures
            r.start,
    {
        Settings { start: true }
    }
}

/// The lifecycle commands one tick asks the external timer to perform, in
/// the fixed order the driver evaluated them.
#[derive(Clone, Copy, PartialEq, Eq, Structural, Debug)]
pub struct TickDecision {
    /// The freshly derived game time, when one could be computed.
    pub set_game_time: Option<IgtTime>,
    /// Whether game time should be treated as loading-paused this tick.
    pub is_loading: Option<bool>,
    pub reset: bool,
    pub split: bool,
    pub start: bool,
    /// Emitted together with `start` so the first tick of a fresh run
    /// cannot inherit a stale game-time value.
    pub pause_game_time: bool,
}

/// The start predicate. No start condition is wired up for this title: a
/// run is started by hand.
pub open spec fn spec_start(watchers: Watchers, settings: Settings) -> bool {
    false
}

pub fn start(watchers: &Watchers, settings: &Settings) -> (r: bool)
    ensures
        r == spec_start(*watchers, *settings),
{
    false
}

/// The split predicate. No split condition is wired up for this title.
pub open spec fn spec_split(watchers: Watchers, settings: Settings) -> bool {
    false
}

pub fn split(watchers: &Watchers, settings: &Settings) -> (r: bool)
    ensures
        r == spec_split(*watchers, *settings),
{
    false
}

/// The reset predicate. No reset condition is wired up for this title.
pub open spec fn spec_reset(watchers: Watchers, settings: Settings) -> bool {
    false
}

pub fn reset(watchers: &Watchers, settings: &Settings) -> (r: bool)
    ensures
        r == spec_reset(*watchers, *settings),
{
    false
}

/// Game time is driven purely by `set_game_time`, so real time is reported
/// as always loading: the external timer then never advances game time on
/// its own.
pub open spec fn spec_is_loading(watchers: Watchers, settings: Settings) -> Option<bool> {
    Some(true)
}

pub fn is_loading(watchers: &Watchers, settings: &Settings) -> (r: Option<bool>)
    ensures
        r == spec_is_loading(*watchers, *settings),
{
    Some(true)
}

/// The accumulation inputs one tick draws from a warmed-up sample bank:
/// the classified play state and the pairs of the consumed fields.
pub open spec fn spec_tick_input(cfg: TitleConfig, bank: Watchers) -> TickInput
    recommends
        bank.spec_warmed_up(),
{
    TickInput {
        state: spec_classify_bank(bank, cfg.use_dead_bit),
        level_timer: bank.level_timer.pair->Some_0,
        encoded_timer: bank.level_timer2.pair->Some_0,
        frame_counter: bank.frame_counter.pair->Some_0,
    }
}

/// One game-time step: classify the current sample, fold it into the
/// accumulator, and derive the canonical duration. Before every watcher
/// has seen a first value nothing can be classified or diffed, so the
/// accumulator is left untouched and no duration is produced.
pub fn game_time(cfg: &TitleConfig, watchers: &Watchers, settings: &Settings, info: &mut AccumulatorState) -> (r: Option<IgtTime>)
    ensures
        watchers.spec_warmed_up() ==> {
            &&& *final(info) == spec_accumulate(*cfg, *old(info), spec_tick_input(*cfg, *watchers))
            &&& r == Some(spec_derived_time(*cfg, *final(info)))
        },
        !watchers.spec_warmed_up() ==> {
            &&& *final(info) == *old(info)
            &&& r is None
        },
{
    let Some(level_timer) = watchers.level_timer.pair else { return None };
    let Some(encoded_timer) = watchers.level_timer2.pair else { return None };
    let Some(frame_counter) = watchers.frame_counter.pair else { return None };
    if watchers.gamestate_flags.pair.is_none() {
        return None;
    }
    if watchers.powerups_bitfield.pair.is_none() {
        return None;
    }
    if watchers.can_control_p1.pair.is_none() {
        return None;
    }
    let state: PlayState = classify_bank(watchers, cfg.use_dead_bit);
    let t = TickInput { state, level_timer, encoded_timer, frame_counter };
    accumulate(cfg, t, info);
    Some(derived_time(cfg, info))
}

/// One whole tick, in the fixed order the external timer's own state
/// machine expects.
///
/// While the timer runs or is paused: report loading, derive and emit the
/// game time, then evaluate reset, and only if reset did not fire evaluate
/// split. While the timer is not running: zero every accumulator counter,
/// then evaluate the start predicate, and on a start immediately ask for
/// game time to be paused, so a fresh run can never inherit a stale or
/// nonzero game-time value from before its first tick.
pub fn tick(cfg: &TitleConfig, phase: TimerPhase, watchers: &Watchers, settings: &Settings, acc: &mut AccumulatorState) -> (d: TickDecision)
    ensures
        (phase is Running || phase is Paused) ==> {
            &&& d.is_loading == spec_is_loading(*watchers, *settings)
            &&& (watchers.spec_warmed_up() ==> {
                &&& *final(acc) == spec_accumulate(*cfg, *old(acc), spec_tick_input(*cfg, *watchers))
                &&& d.set_game_time == Some(spec_derived_time(*cfg, *final(acc)))
            })
            &&& (!watchers.spec_warmed_up() ==> *final(acc) == *old(acc) && d.set_game_time is None)
            &&& d.reset == spec_reset(*watchers, *settings)
            &&& d.split == (!d.reset && spec_split(*watchers, *settings))
            &&& !d.start && !d.pause_game_time
        },
        phase is NotRunning ==> {
            &&& *final(acc) == (AccumulatorState { active_frames: 0, active_millis: 0, paused_frames: 0 })
            &&& d.set_game_time is None
            &&& d.is_loading is None
            &&& !d.reset && !d.split
            &&& d.start == spec_start(*watchers, *settings)
            &&& d.pause_game_time == d.start
        },
{
    let mut d = TickDecision {
        set_game_time: None,
        is_loading: None,
        reset: false,
        split: false,
        start: false,
        pause_game_time: false,
    };
    match phase {
        TimerPhase::Running | TimerPhase::Paused => {
            d.is_loading = is_loading(watchers, settings);
            d.set_game_time = game_time(cfg, watchers, settings, acc);
            d.reset = reset(watchers, settings);
            if !d.reset {
                d.split = split(watchers, settings);
            }
        },
        TimerPhase::NotRunning => {
            *acc = AccumulatorState::default();
            d.start = start(watchers, settings);
            d.pause_game_time = d.start;
        },
    }
    d
}

} // verus!
