use vstd::prelude::*;

verus! {

/// Raw sensor readings at or below this value count as a key at rest.
pub const DEADZONE: u16 = 10;

/// Raw travel, past the deadzone, of a fully pressed key. A level is a
/// number of raw units in `0..=FULL_TRAVEL`; the normalized pressure of a key
/// is its level divided by `FULL_TRAVEL`.
pub const FULL_TRAVEL: u16 = 1550;

/// The level that a raw sensor reading stands for: zero inside the deadzone,
/// else the travel past the deadzone, capped at full travel.
pub open spec fn level_of(raw: u16) -> u16 {
    if raw <= DEADZONE {
        0
    } else if raw - DEADZONE >= FULL_TRAVEL {
        FULL_TRAVEL
    } else {
        (raw - DEADZONE) as u16
    }
}

/// Turns a raw 16-bit sensor reading into a level.
pub fn decode_level(raw: u16) -> (r: u16)
    ensures
        r == level_of(raw),
        r <= FULL_TRAVEL,
{
    if raw <= DEADZONE {
        0
    } else if raw - DEADZONE >= FULL_TRAVEL {
        FULL_TRAVEL
    } else {
        raw - DEADZONE
    }
}

/// Every reading inside the deadzone, its bound included, decodes to zero.
pub proof fn deadzone_decodes_to_zero(raw: u16)
    requires
        raw <= DEADZONE,
    ensures
        level_of(raw) == 0,
{
}

/// Past the deadzone, a larger reading never decodes to a smaller level.
pub proof fn decode_is_monotonic(a: u16, b: u16)
    requires
        DEADZONE < a <= b,
    ensures
        level_of(a) <= level_of(b),
{
}

/// Readings at or beyond full travel decode to full travel.
pub proof fn decode_is_clamped(raw: u16)
    requires
        raw >= DEADZONE + FULL_TRAVEL,
    ensures
        level_of(raw) == FULL_TRAVEL,
{
}

} // verus!
