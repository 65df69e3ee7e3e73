//! The polling delay between two toggles, and how a button press changes it.
//!
//! While the blinker waits out a delay it reads the button once per poll. A
//! window in which any reading was high shortens the next delay by one step;
//! a delay that would fall below the minimum starts over at the initial one.

use vstd::prelude::*;

verus! {

/// Delay the blinker starts with, and returns to once a press would take it
/// below [`MIN_DELAY`].
pub const INITIAL_DELAY: u32 = 100_000;

/// Amount by which one window with a press shortens the delay.
pub const DELAY_STEP: u32 = 25_000;

/// Shortest delay the blinker runs with.
pub const MIN_DELAY: u32 = 25_000;

/// A delay the blinker can be running with.
pub open spec fn in_range(delay: int) -> bool {
    MIN_DELAY <= delay <= INITIAL_DELAY
}

/// Number of readings taken while waiting out `delay`: one less than the
/// delay, and none for a delay of zero.
pub open spec fn poll_count(delay: int) -> int {
    if delay >= 1 {
        delay - 1
    } else {
        0
    }
}

/// Whether a reading shows the button pressed. A reading that failed
/// (`None`) counts as not pressed.
pub open spec fn reads_high(reading: Option<bool>) -> bool {
    reading == Some(true)
}

/// Whether at least one of the readings shows the button pressed.
pub open spec fn any_high(readings: Seq<Option<bool>>) -> bool {
    exists|i: int| 0 <= i < readings.len() && reads_high(#[trigger] readings[i])
}

/// The delay that follows `delay`: unchanged without a press; with one, a step
/// shorter, or [`INITIAL_DELAY`] where that would fall below [`MIN_DELAY`].
pub open spec fn delay_after(delay: int, pressed: bool) -> int {
    if !pressed {
        delay
    } else if delay - DELAY_STEP < MIN_DELAY {
        INITIAL_DELAY as int
    } else {
        delay - DELAY_STEP
    }
}

/// Tells whether a reading shows the button pressed.
pub fn is_high(reading: Option<bool>) -> (high: bool)
    ensures
        high == reads_high(reading),
{
    reading.unwrap_or(false)
}

/// Applies the outcome of one polling window to the delay. A delay within
/// range stays within range.
///
/// A press needs a delay of at least one step to take the step from.
pub fn next_delay(delay_value: u32, pressed: bool) -> (next: u32)
    requires
        pressed ==> delay_value >= DELAY_STEP,
    ensures
        next == delay_after(delay_value as int, pressed),
        in_range(delay_value as int) ==> in_range(next as int),
{
    let mut delay_value = delay_value;
    if pressed {
        delay_value -= DELAY_STEP;
        if delay_value < MIN_DELAY {
            delay_value = INITIAL_DELAY;
        }
    }
    delay_value
}

/// Waits out one delay over the readings its polls returned, in the order they
/// were taken, and gives the delay to wait out next. A delay within range
/// stays within range.
///
/// There is one reading per poll, and a press needs a delay of at least one
/// step to take the step from.
pub fn loop_delay(delay_value: u32, readings: &[Option<bool>]) -> (next: u32)
    requires
        readings@.len() == poll_count(delay_value as int),
        any_high(readings@) ==> delay_value >= DELAY_STEP,
    ensures
        next == delay_after(delay_value as int, any_high(readings@)),
        in_range(delay_value as int) ==> in_range(next as int),
{
    let mut change_delay = false;
    let mut i: u32 = 1;
    while i < delay_value
        invariant
            1 <= i,
            i == 1 || i <= delay_value,
            readings@.len() == poll_count(delay_value as int),
            change_delay == any_high(readings@.take(i - 1)),
        decreases delay_value - i,
    {
        proof {
            lemma_any_high_push(readings@.take(i - 1), readings@[i - 1]);
            assert(readings@.take(i - 1).push(readings@[i - 1]) =~= readings@.take(i as int));
        }
        if is_high(readings[(i - 1) as usize]) {
            change_delay = true;
        }
        i += 1;
    }
    proof {
        assert(readings@.take(poll_count(delay_value as int)) =~= readings@);
    }
    next_delay(delay_value, change_delay)
}

/// Readings extended by one hold a high one exactly if the earlier ones did or
/// the new one is high.
pub proof fn lemma_any_high_push(readings: Seq<Option<bool>>, reading: Option<bool>)
    ensures
        any_high(readings.push(reading)) == (any_high(readings) || reads_high(reading)),
{
    let longer = readings.push(reading);
    if any_high(readings) {
        let i = choose|i: int| 0 <= i < readings.len() && reads_high(#[trigger] readings[i]);
        assert(reads_high(longer[i]));
    }
    if reads_high(reading) {
        assert(reads_high(longer[readings.len() as int]));
    }
    if any_high(longer) {
        let i = choose|i: int| 0 <= i < longer.len() && reads_high(#[trigger] longer[i]);
        if i < readings.len() {
            assert(reads_high(readings[i]));
        }
    }
}

} // verus!
