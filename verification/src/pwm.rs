//! Dead-time insertion for the three complementary PWM phase outputs.
use vstd::prelude::*;

verus! {

/// Counter wrap value of the PWM slices that drive the phases.
pub const TOP_VALUE: u16 = 4094 - 1;

/// Ticks between the high-side switch turning off and the low-side switch
/// turning on (about 0.8 us at 125 MHz with divider 1).
pub const DEADTIME_TICKS: u16 = 100;

/// Compare values of one half bridge: `high` for the high-side channel,
/// `low` for the inverted low-side channel.
#[derive(Clone, Copy, Debug, PartialEq, Eq, Structural)]
pub struct PhaseDuty {
    pub high: u16,
    pub low: u16,
}

/// Compare values of the three half bridges.
#[derive(Clone, Copy, Debug, PartialEq, Eq, Structural)]
pub struct ThreePhaseDuty {
    pub a: PhaseDuty,
    pub b: PhaseDuty,
    pub c: PhaseDuty,
}

/// Half of the dead time, taken off one side and added to the other.
pub open spec fn half_deadtime() -> int {
    DEADTIME_TICKS as int / 2
}

/// High-side compare value: the command reduced by half the dead time,
/// not below zero.
pub open spec fn high_side(raw: int) -> int {
    if raw >= half_deadtime() {
        raw - half_deadtime()
    } else {
        0
    }
}

/// Low-side compare value: the command raised by half the dead time,
/// not above the counter's wrap value.
pub open spec fn low_side(raw: int) -> int {
    if raw + half_deadtime() <= TOP_VALUE {
        raw + half_deadtime()
    } else {
        TOP_VALUE as int
    }
}

/// The compare values that dead-time insertion gives for a command.
pub open spec fn phase_duty_of(raw: int) -> PhaseDuty {
    PhaseDuty { high: high_side(raw) as u16, low: low_side(raw) as u16 }
}

/// The compare values of one phase, written out: the command lowered by
/// half the dead time (not below 0) and raised by half the dead time (not
/// above `TOP_VALUE`).
pub open spec fn apply_deadtime_result(raw: u16) -> PhaseDuty {
    PhaseDuty {
        high: if raw >= 50 { (raw - 50) as u16 } else { 0u16 },
        low: if raw as int + 50 <= 4093 { (raw + 50) as u16 } else { 4093u16 },
    }
}

/// Splits one phase's commanded compare value into its high-side and
/// low-side compare values, leaving a dead-time gap between them.
pub fn apply_deadtime(raw: u16) -> (d: PhaseDuty)
    ensures
        d.high == high_side(raw as int),
        d.low == low_side(raw as int),
        d == apply_deadtime_result(raw),
        d.high <= raw,
        d.low <= TOP_VALUE,
        raw <= TOP_VALUE ==> raw <= d.low,
        raw <= TOP_VALUE ==> d.high <= d.low,
        raw <= TOP_VALUE ==> d.low - d.high <= DEADTIME_TICKS,
        half_deadtime() <= raw <= TOP_VALUE - half_deadtime() ==> d.low - d.high
            == DEADTIME_TICKS,
{
    let high = raw.saturating_sub(DEADTIME_TICKS / 2);
    let low = raw.saturating_add(DEADTIME_TICKS / 2).min(TOP_VALUE);
    PhaseDuty { high, low }
}

/// Applies dead-time insertion to the commands of the three phases.
pub fn three_phase_deadtime(raw_a: u16, raw_b: u16, raw_c: u16) -> (d: ThreePhaseDuty)
    ensures
        d.a == phase_duty_of(raw_a as int),
        d.b == phase_duty_of(raw_b as int),
        d.c == phase_duty_of(raw_c as int),
        d.a == apply_deadtime_result(raw_a),
        d.b == apply_deadtime_result(raw_b),
        d.c == apply_deadtime_result(raw_c),
        raw_a <= TOP_VALUE ==> d.a.high <= raw_a <= d.a.low <= TOP_VALUE,
        raw_b <= TOP_VALUE ==> d.b.high <= raw_b <= d.b.low <= TOP_VALUE,
        raw_c <= TOP_VALUE ==> d.c.high <= raw_c <= d.c.low <= TOP_VALUE,
        50 <= raw_a <= TOP_VALUE - 50 ==> d.a.low - d.a.high == DEADTIME_TICKS,
        50 <= raw_b <= TOP_VALUE - 50 ==> d.b.low - d.b.high == DEADTIME_TICKS,
        50 <= raw_c <= TOP_VALUE - 50 ==> d.c.low - d.c.high == DEADTIME_TICKS,
{
    ThreePhaseDuty { a: apply_deadtime(raw_a), b: apply_deadtime(raw_b), c: apply_deadtime(raw_c) }
}

/// What dead-time insertion gives for one command, in plain arithmetic:
/// the high side is the command less 50 ticks (0 below that), the low side
/// the command plus 50 ticks (`TOP_VALUE` above that); within the counter
/// range the high side switches no later than the low side, and away from
/// both ends the gap between them is the full dead time.
pub proof fn lemma_phase_duty_values(raw: u16)
    ensures
        phase_duty_of(raw as int) == apply_deadtime_result(raw),
        raw >= 50 ==> phase_duty_of(raw as int).high + 50 == raw,
        raw < 50 ==> phase_duty_of(raw as int).high == 0,
        raw + 50 <= 4093 ==> phase_duty_of(raw as int).low == raw + 50,
        raw + 50 > 4093 ==> phase_duty_of(raw as int).low == 4093,
        raw <= TOP_VALUE ==> phase_duty_of(raw as int).high <= raw <= phase_duty_of(
            raw as int,
        ).low <= TOP_VALUE,
        50 <= raw <= TOP_VALUE - 50 ==> phase_duty_of(raw as int).low - phase_duty_of(
            raw as int,
        ).high == DEADTIME_TICKS,
{
}

/// A larger command never gives a smaller compare value on either side.
pub proof fn lemma_deadtime_monotonic(raw1: u16, raw2: u16)
    requires
        raw1 <= raw2,
    ensures
        high_side(raw1 as int) <= high_side(raw2 as int),
        low_side(raw1 as int) <= low_side(raw2 as int),
{
}

} // verus!
