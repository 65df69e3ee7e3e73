//! The blinker as a machine that is fed one button reading at a time.
//!
//! The caller reads the button, hands the reading to [`Blinker::step`] and
//! carries out the [`Actions`] it answers with. A polling window lasts one
//! reading less than the current delay; the reading that ends it settles the
//! next delay and toggles the light.

use vstd::prelude::*;
use crate::delay::{
    any_high, delay_after, in_range, is_high, lemma_any_high_push, next_delay, poll_count,
    reads_high, INITIAL_DELAY,
};

verus! {

/// What the caller has to do after a reading was fed to the blinker.
#[derive(Clone, Copy, Debug, PartialEq, Eq)]
pub struct Actions {
    /// The reading showed the button pressed: report it.
    pub bounce: bool,
    /// The reading ended the polling window: report the delay held here, which
    /// is the one that the next window waits out, then toggle the light.
    pub toggle: Option<u32>,
}

/// The state of a blinker as mathematical values.
pub struct BlinkState {
    /// Delay that the current polling window waits out.
    pub delay: int,
    /// Readings still to come in the current window, the next one included.
    pub polls_left: int,
    /// Whether a reading of the current window showed the button pressed.
    pub pressed: bool,
    /// Whether the light is on.
    pub led_on: bool,
}

impl BlinkState {
    /// The state at the start of a polling window that waits out `delay`.
    pub open spec fn window_start(delay: int, led_on: bool) -> BlinkState {
        BlinkState { delay, polls_left: poll_count(delay), pressed: false, led_on }
    }

    /// The state a blinker starts in: the initial delay, the light off.
    pub open spec fn initial() -> BlinkState {
        Self::window_start(INITIAL_DELAY as int, false)
    }

    /// The delay is within range and the window has at least one reading to
    /// come, and no more than a whole window holds.
    pub open spec fn wf(self) -> bool {
        &&& in_range(self.delay)
        &&& 1 <= self.polls_left <= poll_count(self.delay)
    }

    /// Whether the next reading ends the polling window.
    pub open spec fn at_window_end(self) -> bool {
        self.polls_left <= 1
    }

    /// The state after one more reading.
    pub open spec fn after(self, reading: Option<bool>) -> BlinkState {
        let pressed = self.pressed || reads_high(reading);
        if self.at_window_end() {
            Self::window_start(delay_after(self.delay, pressed), !self.led_on)
        } else {
            BlinkState { polls_left: self.polls_left - 1, pressed, ..self }
        }
    }

    /// What the caller has to do after one more reading.
    pub open spec fn actions(self, reading: Option<bool>) -> Actions {
        Actions {
            bounce: reads_high(reading),
            toggle: if self.at_window_end() {
                Some(self.after(reading).delay as u32)
            } else {
                None
            },
        }
    }

    /// The state after a sequence of readings, fed in order.
    pub open spec fn run(self, readings: Seq<Option<bool>>) -> BlinkState
        decreases readings.len(),
    {
        if readings.len() == 0 {
            self
        } else {
            self.run(readings.drop_last()).after(readings.last())
        }
    }
}

/// A blinker: the delay it is waiting out, how far into the polling window it
/// is, whether the button was seen pressed in this window, and the light.
pub struct Blinker {
    delay: u32,
    polls_left: u32,
    pressed: bool,
    led_on: bool,
}

impl View for Blinker {
    type V = BlinkState;

    closed spec fn view(&self) -> BlinkState {
        BlinkState {
            delay: self.delay as int,
            polls_left: self.polls_left as int,
            pressed: self.pressed,
            led_on: self.led_on,
        }
    }
}

impl Blinker {
    /// Holds of every blinker: its state is well formed.
    #[verifier::type_invariant]
    spec fn inv(self) -> bool {
        self@.wf()
    }

    /// A blinker in its initial state. The caller switches the light off.
    pub fn new() -> (blinker: Blinker)
        ensures
            blinker@ == BlinkState::initial(),
    {
        Blinker {
            delay: INITIAL_DELAY,
            polls_left: INITIAL_DELAY - 1,
            pressed: false,
            led_on: false,
        }
    }

    /// Takes in one reading of the button (`None` where reading it failed) and
    /// tells the caller what to do.
    ///
    /// A blinker is well formed whenever it is handed over, before the reading
    /// as after it.
    pub fn step(&mut self, reading: Option<bool>) -> (actions: Actions)
        ensures
            old(self)@.wf(),
            final(self)@.wf(),
            final(self)@ == old(self)@.after(reading),
            actions == old(self)@.actions(reading),
    {
        proof {
            use_type_invariant(&*self);
        }
        let bounce = is_high(reading);
        let pressed = self.pressed || bounce;
        if self.polls_left > 1 {
            *self = Blinker {
                delay: self.delay,
                polls_left: self.polls_left - 1,
                pressed,
                led_on: self.led_on,
            };
            Actions { bounce, toggle: None }
        } else {
            let delay = next_delay(self.delay, pressed);
            *self = Blinker {
                delay,
                polls_left: delay - 1,
                pressed: false,
                led_on: !self.led_on,
            };
            Actions { bounce, toggle: Some(delay) }
        }
    }

    /// The delay that the current polling window waits out.
    pub fn delay(&self) -> (delay: u32)
        ensures
            delay == self@.delay,
            in_range(delay as int),
    {
        proof {
            use_type_invariant(self);
        }
        self.delay
    }

    /// The readings still to come in the current window.
    pub fn polls_left(&self) -> (polls: u32)
        ensures
            polls == self@.polls_left,
            1 <= polls < self@.delay,
    {
        proof {
            use_type_invariant(self);
        }
        self.polls_left
    }

    /// Whether the button was seen pressed in the current window.
    pub fn pressed(&self) -> (pressed: bool)
        ensures
            pressed == self@.pressed,
    {
        self.pressed
    }

    /// Whether the light is on.
    pub fn led_on(&self) -> (led_on: bool)
        ensures
            led_on == self@.led_on,
    {
        self.led_on
    }
}

/// A reading leaves a well-formed state well formed: the delay stays within
/// range and the window keeps at least one reading to come.
pub proof fn lemma_after_wf(state: BlinkState, reading: Option<bool>)
    requires
        state.wf(),
    ensures
        state.after(reading).wf(),
{
}

/// Any sequence of readings leaves a well-formed state well formed.
pub proof fn lemma_run_wf(state: BlinkState, readings: Seq<Option<bool>>)
    requires
        state.wf(),
    ensures
        state.run(readings).wf(),
    decreases readings.len(),
{
    if readings.len() > 0 {
        lemma_run_wf(state, readings.drop_last());
        lemma_after_wf(state.run(readings.drop_last()), readings.last());
    }
}

/// Readings that do not reach the end of the window change neither the delay
/// nor the light: they are counted, and a high one among them is remembered.
pub proof fn lemma_run_inside_window(state: BlinkState, readings: Seq<Option<bool>>)
    requires
        state.wf(),
        readings.len() < state.polls_left,
    ensures
        state.run(readings) == (BlinkState {
            polls_left: state.polls_left - readings.len(),
            pressed: state.pressed || any_high(readings),
            ..state
        }),
    decreases readings.len(),
{
    if readings.len() > 0 {
        lemma_run_inside_window(state, readings.drop_last());
        lemma_any_high_push(readings.drop_last(), readings.last());
        assert(readings.drop_last().push(readings.last()) =~= readings);
    }
}

/// Readings that reach exactly the end of the window start the next one: its
/// delay follows from whether any reading of the window was high, and the
/// light is toggled. The last of them reports that delay.
pub proof fn lemma_run_to_window_end(state: BlinkState, readings: Seq<Option<bool>>)
    requires
        state.wf(),
        readings.len() == state.polls_left,
    ensures
        state.run(readings) == BlinkState::window_start(
            delay_after(state.delay, state.pressed || any_high(readings)),
            !state.led_on,
        ),
        state.run(readings.drop_last()).actions(readings.last()).toggle == Some(
            delay_after(state.delay, state.pressed || any_high(readings)) as u32,
        ),
{
    lemma_run_inside_window(state, readings.drop_last());
    lemma_any_high_push(readings.drop_last(), readings.last());
    assert(readings.drop_last().push(readings.last()) =~= readings);
}

/// A whole polling window, fed to a blinker at the start of one, leaves it at
/// the start of the next with the delay that
/// [`loop_delay`](crate::delay::loop_delay) gives for the same readings.
pub proof fn lemma_run_window(delay: int, led_on: bool, readings: Seq<Option<bool>>)
    requires
        in_range(delay),
        readings.len() == poll_count(delay),
    ensures
        BlinkState::window_start(delay, led_on).run(readings) == BlinkState::window_start(
            delay_after(delay, any_high(readings)),
            !led_on,
        ),
{
    lemma_run_to_window_end(BlinkState::window_start(delay, led_on), readings);
}

} // verus!
