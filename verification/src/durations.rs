use vstd::prelude::*;

verus! {

/// Milliseconds in a second, a minute and an hour.
pub const MS_PER_SECOND: u64 = 1_000;
pub const MS_PER_MINUTE: u64 = 60_000;
pub const MS_PER_HOUR: u64 = 3_600_000;

/// A product that stops at `u64::MAX` instead of overflowing.
pub open spec fn sat_mul(a: u64, b: u64) -> u64 {
    if a * b > u64::MAX { u64::MAX } else { (a * b) as u64 }
}

/// `a * b`, or `u64::MAX` where the product does not fit.
pub fn saturating_mul(a: u64, b: u64) -> (r: u64)
    ensures
        r == sat_mul(a, b),
{
    match a.checked_mul(b) {
        Some(product) => product,
        None => u64::MAX,
    }
}

/// Milliseconds in one unit of the Windows duration menu: 0 seconds, 1 minutes,
/// anything else hours.
pub open spec fn unit_ms(unit: usize) -> u64 {
    if unit == 0 {
        MS_PER_SECOND
    } else if unit == 1 {
        MS_PER_MINUTE
    } else {
        MS_PER_HOUR
    }
}

/// A run duration entered as a count of a unit (0 seconds, 1 minutes, otherwise hours),
/// in milliseconds; the product stops at `u64::MAX`.
pub fn duration_ms(value: u64, unit: usize) -> (r: u64)
    ensures
        r == sat_mul(value, unit_ms(unit)),
{
    let per_unit: u64 = match unit {
        0 => MS_PER_SECOND,
        1 => MS_PER_MINUTE,
        _ => MS_PER_HOUR,
    };
    saturating_mul(value, per_unit)
}

/// How the Windows window shows a duration: whole hours if it is a positive multiple of
/// an hour, else whole minutes if it is a positive multiple of a minute, else whole
/// seconds, at least one.
pub open spec fn spec_split_duration(ms: u64) -> (u64, usize) {
    if ms >= MS_PER_HOUR && ms % MS_PER_HOUR == 0 {
        ((ms / MS_PER_HOUR) as u64, 2)
    } else if ms >= MS_PER_MINUTE && ms % MS_PER_MINUTE == 0 {
        ((ms / MS_PER_MINUTE) as u64, 1)
    } else if ms / MS_PER_SECOND >= 1 {
        ((ms / MS_PER_SECOND) as u64, 0)
    } else {
        (1, 0)
    }
}

/// Splits a duration into the count and unit that the Windows window shows.
pub fn split_duration(milliseconds: u64) -> (r: (u64, usize))
    ensures
        r == spec_split_duration(milliseconds),
{
    if milliseconds >= MS_PER_HOUR && milliseconds % MS_PER_HOUR == 0 {
        (milliseconds / MS_PER_HOUR, 2)
    } else if milliseconds >= MS_PER_MINUTE && milliseconds % MS_PER_MINUTE == 0 {
        (milliseconds / MS_PER_MINUTE, 1)
    } else {
        let seconds = milliseconds / MS_PER_SECOND;
        (if seconds >= 1 { seconds } else { 1 }, 0)
    }
}

/// A whole number of seconds of at least one second, shown by the Windows window and read
/// back, is the duration it was.
pub proof fn lemma_split_duration_round_trip(ms: u64)
    requires
        ms % MS_PER_SECOND == 0,
        ms >= MS_PER_SECOND,
    ensures
        sat_mul(spec_split_duration(ms).0, unit_ms(spec_split_duration(ms).1)) == ms,
{
    let m = ms as int;
    if ms >= MS_PER_HOUR && ms % MS_PER_HOUR == 0 {
        assert((m / 3_600_000) * 3_600_000 == m) by (nonlinear_arith)
            requires
                m % 3_600_000 == 0,
        ;
    } else if ms >= MS_PER_MINUTE && ms % MS_PER_MINUTE == 0 {
        assert((m / 60_000) * 60_000 == m) by (nonlinear_arith)
            requires
                m % 60_000 == 0,
        ;
    } else {
        assert((m / 1000) * 1000 == m && m / 1000 >= 1) by (nonlinear_arith)
            requires
                m % 1000 == 0,
                m >= 1000,
        ;
    }
}

/// Seconds in one unit of the GTK duration menu: 0 seconds, 1 minutes, 2 hours, anything
/// else seconds.
pub open spec fn gtk_unit_seconds(unit: u32) -> u64 {
    if unit == 1 {
        60
    } else if unit == 2 {
        3600
    } else {
        1
    }
}

/// The run duration set by the GTK controls, in milliseconds: 0 when the time limit is
/// off, else the whole part of the entered value times the unit; products stop at
/// `u64::MAX`.
pub open spec fn spec_duration_from_controls(enabled: bool, whole_value: u64, unit: u32) -> u64 {
    if !enabled {
        0
    } else {
        sat_mul(sat_mul(whole_value, gtk_unit_seconds(unit)), 1000)
    }
}

/// The run duration set by the GTK controls. `whole_value` is the whole part of the
/// value in the spin button.
pub fn duration_from_controls(enabled: bool, whole_value: u64, unit: u32) -> (r: u64)
    ensures
        r == spec_duration_from_controls(enabled, whole_value, unit),
{
    if !enabled {
        return 0;
    }
    let seconds_per_unit: u64 = match unit {
        0 => 1,
        1 => 60,
        2 => 60 * 60,
        _ => 1,
    };
    saturating_mul(saturating_mul(whole_value, seconds_per_unit), 1_000)
}

/// How the GTK controls show a duration: none (limit off) for zero, else whole hours if
/// the whole seconds are a multiple of an hour, else whole minutes if they are a multiple
/// of a minute, else the whole seconds, at least one.
pub open spec fn spec_duration_controls(ms: u64) -> Option<(u64, u32)> {
    if ms == 0 {
        None
    } else {
        let total = ms / 1000;
        if total % 3600 == 0 {
            Some(((total / 3600) as u64, 2))
        } else if total % 60 == 0 {
            Some(((total / 60) as u64, 1))
        } else {
            Some((if total >= 1 { total as u64 } else { 1 }, 0))
        }
    }
}

/// The value and unit that the GTK controls show for a duration; `None` turns the time
/// limit off.
pub fn duration_controls(duration_ms: u64) -> (r: Option<(u64, u32)>)
    ensures
        r == spec_duration_controls(duration_ms),
{
    if duration_ms == 0 {
        return None;
    }
    let total_seconds = duration_ms / 1_000;
    if total_seconds % 3_600 == 0 {
        Some((total_seconds / 3_600, 2))
    } else if total_seconds % 60 == 0 {
        Some((total_seconds / 60, 1))
    } else {
        Some((if total_seconds >= 1 { total_seconds } else { 1 }, 0))
    }
}

/// A whole number of seconds of at least one second, shown by the GTK controls and read
/// back, is the duration it was.
pub proof fn lemma_duration_controls_round_trip(ms: u64)
    requires
        ms % 1000 == 0,
        ms >= 1000,
    ensures
        match spec_duration_controls(ms) {
            Some((value, unit)) => spec_duration_from_controls(true, value, unit) == ms,
            None => false,
        },
{
}

} // verus!
