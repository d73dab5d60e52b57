use vstd::prelude::*;

verus! {

/// The two most recent observed values of one raw field: the prior tick's
/// value and the current tick's value.
#[derive(Clone, Copy, PartialEq, Eq, Structural, Debug)]
pub struct Pair {
    pub previous: u32,
    pub current: u32,
}

impl Pair {
    /// Whether the field's value differs from the prior tick's.
    pub open spec fn spec_changed(self) -> bool {
        self.previous != self.current
    }

    pub fn changed(&self) -> (r: bool)
        ensures
            r == self.spec_changed(),
    {
        self.previous != self.current
    }
}

/// Tracks one raw field across ticks. `pair` is `None` until the first
/// observed value arrives: before that the field is not warmed up and no
/// delta can be formed.
#[derive(Clone, Copy, Debug)]
pub struct Watcher {
    pub pair: Option<Pair>,
}

impl Watcher {
    /// What one update step does: the prior current value becomes `previous`
    /// (on the very first update the new value stands in for both, so no
    /// spurious change is reported), and `current` becomes the new value.
    pub open spec fn spec_updated(self, value: u32) -> Watcher {
        match self.pair {
            None => Watcher { pair: Some(Pair { previous: value, current: value }) },
            Some(p) => Watcher { pair: Some(Pair { previous: p.current, current: value }) },
        }
    }

    pub fn new() -> (r: Watcher)
        ensures
            r.pair is None,
    {
        Watcher { pair: None }
    }

    /// Advance this watcher by one tick with the freshly observed value.
    pub fn update(&mut self, value: u32)
        ensures
            *final(self) == old(self).spec_updated(value),
    {
        match self.pair {
            None => {
                self.pair = Some(Pair { previous: value, current: value });
            },
            Some(p) => {
                self.pair = Some(Pair { previous: p.current, current: value });
            },
        }
    }
}

/// One tick's worth of raw observations, as plain values. The caller reads
/// each field from the target once per tick; a failed read substitutes zero
/// so that a transient failure never stalls the loop. `powerups` is `None`
/// when the player region pointer was not yet valid, in which case that
/// watcher keeps its prior state.
#[derive(Clone, Copy, Debug)]
pub struct RawSample {
    pub level_timer: u32,
    pub timer2: u32,
    pub frame_counter: u32,
    pub gamestate_flags: u8,
    pub can_control_p1: u8,
    pub powerups: Option<u16>,
}

/// The sample bank: one watcher per observed raw field.
#[derive(Clone, Copy, Debug)]
pub struct Watchers {
    pub level_timer: Watcher,
    pub level_timer2: Watcher,
    pub frame_counter: Watcher,
    pub gamestate_flags: Watcher,
    pub powerups_bitfield: Watcher,
    pub can_control_p1: Watcher,
}

/// The encoded timer register occupies the low 24 bits of the word it is
/// read from; the high byte is unrelated engine state and is masked away.
pub open spec fn spec_masked_timer(raw: u32) -> u32 {
    raw & 0xFFFFFF
}

pub fn mask_timer_register(raw: u32) -> (r: u32)
    ensures
        r == spec_masked_timer(raw),
{
    raw & 0xFFFFFF
}

impl Watchers {
    pub open spec fn spec_advanced(self, s: RawSample) -> Watchers {
        Watchers {
            level_timer: self.level_timer.spec_updated(s.level_timer),
            level_timer2: self.level_timer2.spec_updated(spec_masked_timer(s.timer2)),
            frame_counter: self.frame_counter.spec_updated(s.frame_counter),
            gamestate_flags: self.gamestate_flags.spec_updated(s.gamestate_flags as u32),
            powerups_bitfield: match s.powerups {
                Some(p) => self.powerups_bitfield.spec_updated(p as u32),
                None => self.powerups_bitfield,
            },
            can_control_p1: self.can_control_p1.spec_updated(s.can_control_p1 as u32),
        }
    }

    /// Whether every watcher holds a pair, i.e. the bank has seen at least
    /// one tick for every field.
    pub open spec fn spec_warmed_up(self) -> bool {
        &&& self.level_timer.pair is Some
        &&& self.level_timer2.pair is Some
        &&& self.frame_counter.pair is Some
        &&& self.gamestate_flags.pair is Some
        &&& self.powerups_bitfield.pair is Some
        &&& self.can_control_p1.pair is Some
    }

    pub fn new() -> (r: Watchers)
        ensures
            r.level_timer.pair is None,
            r.level_timer2.pair is None,
            r.frame_counter.pair is None,
            r.gamestate_flags.pair is None,
            r.powerups_bitfield.pair is None,
            r.can_control_p1.pair is None,
    {
        Watchers {
            level_timer: Watcher::new(),
            level_timer2: Watcher::new(),
            frame_counter: Watcher::new(),
            gamestate_flags: Watcher::new(),
            powerups_bitfield: Watcher::new(),
            can_control_p1: Watcher::new(),
        }
    }

    /// Advance every watcher by one tick from the raw observations. The
    /// encoded timer register is masked to its low 24 bits first; the
    /// powerups watcher only advances when a value for it was observed.
    pub fn advance(&mut self, s: RawSample)
        ensures
            *final(self) == old(self).spec_advanced(s),
    {
        self.level_timer.update(s.level_timer);
        let masked: u32 = mask_timer_register(s.timer2);
        self.level_timer2.update(masked);
        self.frame_counter.update(s.frame_counter);
        self.gamestate_flags.update(s.gamestate_flags as u32);
        match s.powerups {
            Some(p) => {
                self.powerups_bitfield.update(p as u32);
            },
            None => {},
        }
        self.can_control_p1.update(s.can_control_p1 as u32);
    }
}

/// Lowest address at which the player region pointer is considered valid;
/// below it the pointer has not been initialised by the engine yet.
pub const REGION_BASE_FLOOR: u32 = 0x8000000;

/// Where to read the powerup/status bitfield from, given the player region
/// pointer read this tick: only a pointer above the floor is trusted, and an
/// offset that would wrap past the address space is rejected.
pub open spec fn spec_powerup_address(region_base: u32, offset: u8) -> Option<u32> {
    if region_base > REGION_BASE_FLOOR && region_base + offset <= u32::MAX {
        Some((region_base + offset) as u32)
    } else {
        None
    }
}

pub fn powerup_address(region_base: u32, offset: u8) -> (r: Option<u32>)
    ensures
        r == spec_powerup_address(region_base, offset),
{
    if region_base > REGION_BASE_FLOOR && region_base <= u32::MAX - (offset as u32) {
        Some(region_base + (offset as u32))
    } else {
        None
    }
}

} // verus!
