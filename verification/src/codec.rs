use vstd::prelude::*;

verus! {

// ---------------------------------------------------------------------------
// Encoded timer register
//
// The engine displays its clock from a packed 24-bit register: one byte of
// minutes, one byte of seconds, and one byte counting frames within the
// second (0..59). The frame byte is not a centisecond value: the HUD shows
// its tens-of-milliseconds digit through a fixed six-entry alphabet, one
// entry per frame, cycling every six frames (a whole decisecond).
// ---------------------------------------------------------------------------

pub open spec fn spec_timer_minutes(reg: u32) -> u32 {
    (reg >> 16) & 0xFF
}

pub open spec fn spec_timer_seconds(reg: u32) -> u32 {
    (reg >> 8) & 0xFF
}

pub open spec fn spec_timer_subsec(reg: u32) -> u32 {
    reg & 0xFF
}

/// The register's value as a total frame count at 60 frames per second:
/// each minute is 3600 frames, each second 60, and the low byte is frames.
pub open spec fn spec_timer_frames(reg: u32) -> int {
    spec_timer_minutes(reg) * 3600 + spec_timer_seconds(reg) * 60 + spec_timer_subsec(reg)
}

/// Every byte field is below 256, so the frame total is below 933876.
pub proof fn lemma_timer_frames_bounds(reg: u32)
    ensures
        0 <= spec_timer_frames(reg),
        spec_timer_frames(reg) <= 255 * 3600 + 255 * 60 + 255,
{
    assert((reg >> 16) & 0xFF <= 255) by (bit_vector);
    assert((reg >> 8) & 0xFF <= 255) by (bit_vector);
    assert(reg & 0xFF <= 255) by (bit_vector);
}

/// Extract the three sub-fields of the packed register.
pub fn decode_timer(reg: u32) -> (r: (u32, u32, u32))
    ensures
        r.0 == spec_timer_minutes(reg),
        r.1 == spec_timer_seconds(reg),
        r.2 == spec_timer_subsec(reg),
        r.0 <= 255 && r.1 <= 255 && r.2 <= 255,
{
    proof {
        assert((reg >> 16) & 0xFF <= 255) by (bit_vector);
        assert((reg >> 8) & 0xFF <= 255) by (bit_vector);
        assert(reg & 0xFF <= 255) by (bit_vector);
    }
    ((reg >> 16) & 0xFF, (reg >> 8) & 0xFF, reg & 0xFF)
}

/// The register's value as a total frame count.
pub fn timer_frames(reg: u32) -> (r: u32)
    ensures
        r == spec_timer_frames(reg),
        r <= 933555,
{
    let (mins, secs, frames) = decode_timer(reg);
    mins * 3600 + secs * 60 + frames
}

// ---------------------------------------------------------------------------
// Subsecond alphabet
// ---------------------------------------------------------------------------

/// The tens-of-milliseconds digit the HUD renders for a given raw frame
/// value: the six-entry alphabet {0, 2, 4, 5, 7, 9}, indexed by the frame
/// value modulo six.
pub open spec fn spec_centis_digit(v: u32) -> int {
    let i = v % 6;
    if i == 0 {
        0
    } else if i == 1 {
        2
    } else if i == 2 {
        4
    } else if i == 3 {
        5
    } else if i == 4 {
        7
    } else {
        9
    }
}

/// The position of a rendered digit within the alphabet. Digits outside the
/// alphabet never arise from `spec_centis_digit`; they map to position zero.
pub open spec fn spec_alphabet_index(d: int) -> int {
    if d == 0 {
        0
    } else if d == 2 {
        1
    } else if d == 4 {
        2
    } else if d == 5 {
        3
    } else if d == 7 {
        4
    } else if d == 9 {
        5
    } else {
        0
    }
}

/// Looking a raw value's digit back up in the alphabet recovers exactly the
/// raw value modulo six: the table lookup is total and deterministic, and
/// distinct positions render distinct digits.
pub proof fn lemma_alphabet_round_trip(v: u32)
    ensures
        spec_alphabet_index(spec_centis_digit(v)) == v % 6,
{
}

pub fn centis_digit(v: u32) -> (r: u32)
    ensures
        r == spec_centis_digit(v),
        r <= 9,
{
    let i = v % 6;
    if i == 0 {
        0
    } else if i == 1 {
        2
    } else if i == 2 {
        4
    } else if i == 3 {
        5
    } else if i == 4 {
        7
    } else {
        9
    }
}

// ---------------------------------------------------------------------------
// Decode-and-diff
// ---------------------------------------------------------------------------

/// The change of the displayed tens-of-milliseconds digit between two raw
/// subsecond values, in centiseconds: a negative difference means the digit
/// cycled past nine back around, so a whole decisecond (ten centiseconds)
/// is added back.
pub open spec fn spec_centis_diff(prev_sub: u32, cur_sub: u32) -> int {
    let d = spec_centis_digit(cur_sub) - spec_centis_digit(prev_sub);
    if d < 0 {
        d + 10
    } else {
        d
    }
}

pub proof fn lemma_centis_diff_bounds(prev_sub: u32, cur_sub: u32)
    ensures
        0 <= spec_centis_diff(prev_sub, cur_sub) <= 9,
{
}

/// Milliseconds contributed by one change of the encoded register: zero
/// unless the decoded frame total strictly increased (a zero or negative
/// difference is a spurious reset or torn read and is discarded, never
/// subtracted); otherwise ten milliseconds per centisecond of displayed
/// digit movement, plus one hundred per whole decisecond (six frames) of
/// the frame difference.
pub open spec fn spec_encoded_delta_millis(prev_reg: u32, cur_reg: u32) -> int {
    let prev_f = spec_timer_frames(prev_reg);
    let cur_f = spec_timer_frames(cur_reg);
    if cur_f > prev_f {
        let diff = cur_f - prev_f;
        let deciseconds = if diff >= 6 {
            diff / 6
        } else {
            0
        };
        10 * spec_centis_diff(spec_timer_subsec(prev_reg), spec_timer_subsec(cur_reg))
            + 100 * deciseconds
    } else {
        0
    }
}

/// The per-tick contribution is never negative and is bounded by the
/// register's own range.
pub proof fn lemma_encoded_delta_bounds(prev_reg: u32, cur_reg: u32)
    ensures
        0 <= spec_encoded_delta_millis(prev_reg, cur_reg),
        spec_encoded_delta_millis(prev_reg, cur_reg) <= 90 + 100 * (933555int / 6),
{
    lemma_timer_frames_bounds(prev_reg);
    lemma_timer_frames_bounds(cur_reg);
    lemma_centis_diff_bounds(spec_timer_subsec(prev_reg), spec_timer_subsec(cur_reg));
}

pub fn encoded_delta_millis(prev_reg: u32, cur_reg: u32) -> (r: u32)
    ensures
        r == spec_encoded_delta_millis(prev_reg, cur_reg),
        r <= 15559290,
{
    let prev_f = timer_frames(prev_reg);
    let cur_f = timer_frames(cur_reg);
    if cur_f > prev_f {
        let diff: u32 = cur_f - prev_f;
        let deciseconds: u32 = if diff >= 6 {
            diff / 6
        } else {
            0
        };
        let prev_digit = centis_digit(prev_reg & 0xFF);
        let cur_digit = centis_digit(cur_reg & 0xFF);
        let centis: u32 = if cur_digit >= prev_digit {
            cur_digit - prev_digit
        } else {
            cur_digit + 10 - prev_digit
        };
        10 * centis + 100 * deciseconds
    } else {
        0
    }
}

// ---------------------------------------------------------------------------
// Canonical duration
// ---------------------------------------------------------------------------

/// The canonical elapsed-time value the core derives each tick. It keeps
/// its two exact components apart rather than rounding them into one unit:
/// milliseconds accumulated from decoded register differences, and frames
/// at 60 per second from raw counter differences. One frame is 50/3 ms, so
/// the common exact unit is 1/3000 of a second.
#[derive(Clone, Copy, PartialEq, Eq, Structural, Debug)]
pub struct IgtTime {
    pub millis: u64,
    pub frames: u64,
}

impl IgtTime {
    /// The duration in exact units of 1/3000 second: a millisecond is three
    /// units and a frame is fifty.
    pub open spec fn spec_units(self) -> int {
        3 * self.millis + 50 * self.frames
    }

    pub fn zero() -> (r: IgtTime)
        ensures
            r.millis == 0 && r.frames == 0,
            r.spec_units() == 0,
    {
        IgtTime { millis: 0, frames: 0 }
    }

    /// The duration in its exact units, computed without loss.
    pub fn units(&self) -> (r: u128)
        ensures
            r == self.spec_units(),
    {
        3 * (self.millis as u128) + 50 * (self.frames as u128)
    }

    /// The duration in whole milliseconds, rounded down; saturates at the
    /// representable maximum.
    pub fn total_millis(&self) -> (r: u64)
        ensures
            r == if self.millis + (self.frames * 1000) / 60 <= u64::MAX {
                self.millis + (self.frames * 1000) / 60
            } else {
                u64::MAX as int
            },
    {
        let frame_part: u128 = (self.frames as u128) * 1000 / 60;
        let total: u128 = (self.millis as u128) + frame_part;
        if total <= u64::MAX as u128 {
            total as u64
        } else {
            u64::MAX
        }
    }
}

} // verus!
