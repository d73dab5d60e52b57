//! Derives a monotonically non-decreasing in-game time value, and the
//! run-lifecycle decisions around it, from noisy frame-quantized readings of
//! a running game's memory. The raw reads, and the timer the decisions are
//! forwarded to, live outside this crate; everything here works on plain
//! values: a sample bank of per-field watchers, a play-state classifier, a
//! frame/timer accumulator with a per-title strategy, a codec for the
//! engine's packed timer register with its six-entry subsecond alphabet, and
//! the per-tick driver that orders it all.

pub mod accumulator;
pub mod codec;
pub mod driver;
pub mod play_state;
pub mod watcher;

use vstd::prelude::*;

verus! {

/// Memory offsets of every raw field the tick loop observes, fixed per title.
pub struct Offsets {
    pub level_timer: u32,
    pub timer2: u32,
    pub frame_counter: u32,
    pub gamestate_flags: u32,
    pub p1_region: u32,
    pub p2_region: u32,
    pub powerup_offset: u8,
    pub can_control_p1: u32,
}

impl Offsets {
    pub fn new() -> (r: Self)
        ensures
            r.level_timer == 0x1CC182u32,
            r.timer2 == 0x1E530Fu32,
            r.frame_counter == 0x1CC1E0u32,
            r.gamestate_flags == 0x3AD81Bu32,
            r.p1_region == 0x1E7728u32,
            r.p2_region == 0x1E772Cu32,
            r.powerup_offset == 0x10u8,
            r.can_control_p1 == 0x1CC1A7u32,
    {
        Self {
            level_timer: 0x1CC182,
            timer2: 0x1E530F,
            frame_counter: 0x1CC1E0,
            gamestate_flags: 0x3AD81B,
            p1_region: 0x1E7728,
            p2_region: 0x1E772C,
            powerup_offset: 0x10,
            can_control_p1: 0x1CC1A7,
        }
    }
}

} // verus!
