use vstd::prelude::*;
use crate::watcher::Watchers;

verus! {

/// Gamestate flag value meaning the player is actively in a level.
pub const FLAG_ACTIVE_IN_LEVEL: u32 = 16;

/// Gamestate flag value meaning the game is paused inside a level.
pub const FLAG_PAUSED_IN_LEVEL: u32 = 17;

/// Bit inside the powerup/status bitfield that signals the player is dead
/// or otherwise inactive, overriding an otherwise active classification.
pub const POWERUP_DEAD: u32 = 0x4000;

/// The semantic play state derived from one tick's raw flag values.
#[derive(Clone, Copy, PartialEq, Eq, Structural, Debug)]
pub enum PlayState {
    /// The sample bank is not warmed up yet: no classification possible.
    Unknown,
    /// Actively playing inside a level: elapsed time is eligible to count.
    ActiveInLevel,
    /// Paused inside a level: time may count separately, per title policy.
    PausedInLevel,
    /// The dead/inactive status bit overrides an active flag.
    DeadOrInactive,
    /// Any flag value outside the known table: accumulation is suspended.
    OutOfLevel,
}

/// Classification from the current tick's flag value and powerup bitfield.
/// `use_dead_bit` selects the per-title policy of consulting the dead bit.
pub open spec fn spec_classify(flags: u32, powerups: u32, use_dead_bit: bool) -> PlayState {
    if flags == FLAG_ACTIVE_IN_LEVEL {
        if use_dead_bit && powerups & POWERUP_DEAD != 0 {
            PlayState::DeadOrInactive
        } else {
            PlayState::ActiveInLevel
        }
    } else if flags == FLAG_PAUSED_IN_LEVEL {
        PlayState::PausedInLevel
    } else {
        PlayState::OutOfLevel
    }
}

pub fn classify(flags: u32, powerups: u32, use_dead_bit: bool) -> (r: PlayState)
    ensures
        r == spec_classify(flags, powerups, use_dead_bit),
{
    if flags == FLAG_ACTIVE_IN_LEVEL {
        if use_dead_bit && powerups & POWERUP_DEAD != 0 {
            PlayState::DeadOrInactive
        } else {
            PlayState::ActiveInLevel
        }
    } else if flags == FLAG_PAUSED_IN_LEVEL {
        PlayState::PausedInLevel
    } else {
        PlayState::OutOfLevel
    }
}

/// Classification of a whole sample bank: `Unknown` until both flag fields
/// have seen a first value, the flag-table classification afterwards.
pub open spec fn spec_classify_bank(bank: Watchers, use_dead_bit: bool) -> PlayState {
    match (bank.gamestate_flags.pair, bank.powerups_bitfield.pair) {
        (Some(f), Some(p)) => spec_classify(f.current, p.current, use_dead_bit),
        _ => PlayState::Unknown,
    }
}

pub fn classify_bank(bank: &Watchers, use_dead_bit: bool) -> (r: PlayState)
    ensures
        r == spec_classify_bank(*bank, use_dead_bit),
{
    match (bank.gamestate_flags.pair, bank.powerups_bitfield.pair) {
        (Some(f), Some(p)) => classify(f.current, p.current, use_dead_bit),
        _ => PlayState::Unknown,
    }
}

} // verus!
