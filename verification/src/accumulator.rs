use vstd::prelude::*;
use crate::codec::{IgtTime, spec_encoded_delta_millis, spec_timer_frames, encoded_delta_millis,
    lemma_encoded_delta_bounds};
use crate::play_state::PlayState;
use crate::watcher::Pair;

verus! {

/// Which accumulation strategy a title uses.
#[derive(Clone, Copy, PartialEq, Eq, Structural, Debug)]
pub enum Strategy {
    /// Integrate the raw frame counter's per-tick difference.
    RawFrameDelta,
    /// Decode the engine's own packed timer register and diff it.
    EncodedTimer,
}

/// Per-title table: the accumulation strategy, the classification and
/// paused-time policies, and the empirically tuned trust thresholds.
#[derive(Clone, Copy, PartialEq, Eq, Structural, Debug)]
pub struct TitleConfig {
    pub strategy: Strategy,
    /// Whether the dead bit in the powerup bitfield overrides an active flag.
    pub use_dead_bit: bool,
    /// Whether paused-in-level frame time counts toward the displayed time.
    pub count_paused_in_igt: bool,
    /// The level timer must exceed this before frame deltas are trusted.
    pub level_timer_guard: u32,
    /// The encoded register must be at least this before a decode is trusted.
    pub encoded_floor: u32,
}

impl Default for TitleConfig {
    /// The encoded-timer title this core was first built for: no dead-bit
    /// override, paused time counts, and the empirically tuned thresholds.
    fn default() -> (r: TitleConfig)
        ensures
            r.strategy == Strategy::EncodedTimer,
            !r.use_dead_bit,
            r.count_paused_in_igt,
            r.level_timer_guard == 2,
            r.encoded_floor == 1,
    {
        TitleConfig {
            strategy: Strategy::EncodedTimer,
            use_dead_bit: false,
            count_paused_in_igt: true,
            level_timer_guard: 2,
            encoded_floor: 1,
        }
    }
}

/// The counters owned by the accumulator for the lifetime of one run.
#[derive(Clone, Copy, PartialEq, Eq, Structural, Debug)]
pub struct AccumulatorState {
    /// Frames counted while actively playing (raw frame-delta strategy).
    pub active_frames: u64,
    /// Milliseconds accumulated from decoded register differences
    /// (encoded-timer strategy). Kept as a running total, never recomputed
    /// from a frame count: the subsecond alphabet is non-linear.
    pub active_millis: u64,
    /// Frames counted while paused in a level.
    pub paused_frames: u64,
}

impl Default for AccumulatorState {
    /// A fresh run starts with every counter at zero.
    fn default() -> (r: AccumulatorState)
        ensures
            r == (AccumulatorState { active_frames: 0, active_millis: 0, paused_frames: 0 }),
    {
        AccumulatorState { active_frames: 0, active_millis: 0, paused_frames: 0 }
    }
}

/// Addition that tops out at the counter's maximum instead of wrapping:
/// a counter never decreases, whatever is added.
pub open spec fn spec_sat_add(a: u64, d: int) -> u64 {
    if a + d <= u64::MAX {
        (a + d) as u64
    } else {
        u64::MAX
    }
}

pub fn sat_add(a: u64, d: u64) -> (r: u64)
    ensures
        r == spec_sat_add(a, d as int),
{
    if a <= u64::MAX - d {
        a + d
    } else {
        u64::MAX
    }
}

/// The usable per-tick difference of a plain counter: a drop of the value
/// (a torn or rolled-back read) yields zero, never a negative amount and
/// never a wrapped one.
pub open spec fn spec_frame_delta(p: Pair) -> int {
    if p.current >= p.previous {
        p.current - p.previous
    } else {
        0
    }
}

pub fn frame_delta(p: Pair) -> (r: u32)
    ensures
        r == spec_frame_delta(p),
{
    if p.current >= p.previous {
        p.current - p.previous
    } else {
        0
    }
}

/// Everything one accumulation step looks at: the classified play state and
/// the watcher pairs of the fields the strategies consume.
#[derive(Clone, Copy, PartialEq, Eq, Structural, Debug)]
pub struct TickInput {
    pub state: PlayState,
    pub level_timer: Pair,
    pub encoded_timer: Pair,
    pub frame_counter: Pair,
}

/// One accumulation step.
///
/// Actively in a level, the configured strategy applies: the raw frame
/// delta is added to `active_frames` once the level timer exceeds its
/// guard, or the encoded register is decoded and diffed into
/// `active_millis` once it changed and sits at or above its floor. Paused
/// in a level, the raw frame delta goes to `paused_frames` under the same
/// guard (the encoded register does not run while paused). In every other
/// state nothing accumulates.
pub open spec fn spec_accumulate(cfg: TitleConfig, acc: AccumulatorState, t: TickInput) -> AccumulatorState {
    match t.state {
        PlayState::ActiveInLevel => match cfg.strategy {
            Strategy::RawFrameDelta => {
                if t.level_timer.current > cfg.level_timer_guard {
                    AccumulatorState {
                        active_frames: spec_sat_add(acc.active_frames, spec_frame_delta(t.frame_counter)),
                        active_millis: acc.active_millis,
                        paused_frames: acc.paused_frames,
                    }
                } else {
                    acc
                }
            },
            Strategy::EncodedTimer => {
                if t.encoded_timer.spec_changed() && t.encoded_timer.current >= cfg.encoded_floor {
                    AccumulatorState {
                        active_frames: acc.active_frames,
                        active_millis: spec_sat_add(
                            acc.active_millis,
                            spec_encoded_delta_millis(t.encoded_timer.previous, t.encoded_timer.current),
                        ),
                        paused_frames: acc.paused_frames,
                    }
                } else {
                    acc
                }
            },
        },
        PlayState::PausedInLevel => {
            if t.level_timer.current > cfg.level_timer_guard {
                AccumulatorState {
                    active_frames: acc.active_frames,
                    active_millis: acc.active_millis,
                    paused_frames: spec_sat_add(acc.paused_frames, spec_frame_delta(t.frame_counter)),
                }
            } else {
                acc
            }
        },
        _ => acc,
    }
}

pub fn accumulate(cfg: &TitleConfig, t: TickInput, acc: &mut AccumulatorState)
    ensures
        *final(acc) == spec_accumulate(*cfg, *old(acc), t),
{
    match t.state {
        PlayState::ActiveInLevel => match cfg.strategy {
            Strategy::RawFrameDelta => {
                if t.level_timer.current > cfg.level_timer_guard {
                    let d: u32 = frame_delta(t.frame_counter);
                    acc.active_frames = sat_add(acc.active_frames, d as u64);
                }
            },
            Strategy::EncodedTimer => {
                if t.encoded_timer.changed() && t.encoded_timer.current >= cfg.encoded_floor {
                    let d: u32 = encoded_delta_millis(t.encoded_timer.previous, t.encoded_timer.current);
                    acc.active_millis = sat_add(acc.active_millis, d as u64);
                }
            },
        },
        PlayState::PausedInLevel => {
            if t.level_timer.current > cfg.level_timer_guard {
                let d: u32 = frame_delta(t.frame_counter);
                acc.paused_frames = sat_add(acc.paused_frames, d as u64);
            }
        },
        _ => {},
    }
}

/// The duration the accumulator's counters stand for: the decoded
/// milliseconds, plus the active frames, plus — when the title's policy
/// counts paused time toward the displayed value — the paused frames.
pub open spec fn spec_derived_time(cfg: TitleConfig, acc: AccumulatorState) -> IgtTime {
    IgtTime {
        millis: acc.active_millis,
        frames: spec_sat_add(
            acc.active_frames,
            if cfg.count_paused_in_igt {
                acc.paused_frames as int
            } else {
                0
            },
        ),
    }
}

pub fn derived_time(cfg: &TitleConfig, acc: &AccumulatorState) -> (r: IgtTime)
    ensures
        r == spec_derived_time(*cfg, *acc),
{
    let paused_part: u64 = if cfg.count_paused_in_igt {
        acc.paused_frames
    } else {
        0
    };
    IgtTime { millis: acc.active_millis, frames: sat_add(acc.active_frames, paused_part) }
}

/// A counter-wise larger accumulator derives a duration at least as long.
pub proof fn lemma_derived_time_monotonic(cfg: TitleConfig, a: AccumulatorState, b: AccumulatorState)
    requires
        a.active_frames <= b.active_frames,
        a.active_millis <= b.active_millis,
        a.paused_frames <= b.paused_frames,
    ensures
        spec_derived_time(cfg, a).spec_units() <= spec_derived_time(cfg, b).spec_units(),
{
}

/// No counter ever decreases across an accumulation step, whatever the
/// inputs, so the derived duration is non-decreasing tick over tick.
pub proof fn lemma_accumulate_monotonic(cfg: TitleConfig, acc: AccumulatorState, t: TickInput)
    ensures
        spec_accumulate(cfg, acc, t).active_frames >= acc.active_frames,
        spec_accumulate(cfg, acc, t).active_millis >= acc.active_millis,
        spec_accumulate(cfg, acc, t).paused_frames >= acc.paused_frames,
        spec_derived_time(cfg, spec_accumulate(cfg, acc, t)).spec_units() >= spec_derived_time(cfg, acc).spec_units(),
{
    lemma_encoded_delta_bounds(t.encoded_timer.previous, t.encoded_timer.current);
    lemma_derived_time_monotonic(cfg, acc, spec_accumulate(cfg, acc, t));
}

/// A tick on which no involved watcher changed accumulates nothing: the
/// accumulator, and so the duration derived from it, is unchanged.
pub proof fn lemma_noop_tick(cfg: TitleConfig, acc: AccumulatorState, t: TickInput)
    requires
        !t.encoded_timer.spec_changed(),
        !t.frame_counter.spec_changed(),
    ensures
        spec_accumulate(cfg, acc, t) == acc,
        spec_derived_time(cfg, spec_accumulate(cfg, acc, t)) == spec_derived_time(cfg, acc),
{
}

/// A negative raw frame-counter delta (a torn or rolled-back read)
/// contributes zero to both frame counters, never a negative adjustment.
pub proof fn lemma_negative_frame_delta(cfg: TitleConfig, acc: AccumulatorState, t: TickInput)
    requires
        t.frame_counter.current < t.frame_counter.previous,
    ensures
        spec_frame_delta(t.frame_counter) == 0,
        spec_accumulate(cfg, acc, t).active_frames == acc.active_frames,
        spec_accumulate(cfg, acc, t).paused_frames == acc.paused_frames,
{
}

/// A non-increasing decoded register total (a spurious reset or torn read)
/// contributes zero milliseconds, never a subtraction.
pub proof fn lemma_encoded_rollback_discarded(cfg: TitleConfig, acc: AccumulatorState, t: TickInput)
    requires
        spec_timer_frames(t.encoded_timer.current) <= spec_timer_frames(t.encoded_timer.previous),
    ensures
        spec_encoded_delta_millis(t.encoded_timer.previous, t.encoded_timer.current) == 0,
        spec_accumulate(cfg, acc, t).active_millis == acc.active_millis,
{
}

/// The accumulator after a whole sequence of ticks, first tick first.
pub open spec fn spec_run(cfg: TitleConfig, acc: AccumulatorState, inputs: Seq<TickInput>) -> AccumulatorState
    decreases inputs.len(),
{
    if inputs.len() == 0 {
        acc
    } else {
        spec_accumulate(cfg, spec_run(cfg, acc, inputs.drop_last()), inputs.last())
    }
}

/// Along any run — in particular any sequence of same-or-increasing raw
/// frame counters observed while actively in a level — every counter, and
/// so the derived active-time duration, is non-decreasing tick over tick.
pub proof fn lemma_run_monotonic(cfg: TitleConfig, acc: AccumulatorState, inputs: Seq<TickInput>, i: int, j: int)
    requires
        0 <= i <= j <= inputs.len(),
    ensures
        spec_run(cfg, acc, inputs.take(i)).active_frames <= spec_run(cfg, acc, inputs.take(j)).active_frames,
        spec_run(cfg, acc, inputs.take(i)).active_millis <= spec_run(cfg, acc, inputs.take(j)).active_millis,
        spec_run(cfg, acc, inputs.take(i)).paused_frames <= spec_run(cfg, acc, inputs.take(j)).paused_frames,
        spec_derived_time(cfg, spec_run(cfg, acc, inputs.take(i))).spec_units()
            <= spec_derived_time(cfg, spec_run(cfg, acc, inputs.take(j))).spec_units(),
    decreases j - i,
{
    if i < j {
        lemma_run_monotonic(cfg, acc, inputs, i, j - 1);
        let prefix = inputs.take(j);
        assert(prefix.drop_last() =~= inputs.take(j - 1));
        lemma_accumulate_monotonic(cfg, spec_run(cfg, acc, inputs.take(j - 1)), prefix.last());
        lemma_derived_time_monotonic(cfg, spec_run(cfg, acc, inputs.take(i)), spec_run(cfg, acc, inputs.take(j)));
    }
}

} // verus!
