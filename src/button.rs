//! A push-button that reports short-press sequences and long presses.
//!
//! The button is a state machine. Its driver asks it what to wait for
//! ([`Button::next_wait`]), waits for that on the pin, and hands the outcome
//! back ([`Button::update_step`]), which may produce a [`ButtonEvent`]. After
//! a wait that ends with the awaited level, the driver waits the debounce time
//! of the configuration before it reads the pin.
use vstd::prelude::*;

use crate::config::{ButtonConfig, Duration, Mode};

verus! {

/// Where the button is in a press sequence.
#[derive(Clone, Copy, Debug, PartialEq, Eq, Structural)]
pub enum State {
    /// Nothing read yet.
    Unknown,
    /// Held down after a debounced press.
    Pressed,
    /// Just released: more presses of the same sequence may follow.
    Released,
    /// Released, no sequence under way.
    Idle,
    /// Held after a long press was reported, waiting for the release.
    PendingRelease,
}

/// What the button reports.
#[derive(Clone, Copy, Debug, PartialEq, Eq, Structural)]
pub enum ButtonEvent {
    /// A sequence of one or more short presses.
    ShortPress {
        /// How many presses the sequence had.
        count: usize,
    },
    /// The button was held for the long-press time.
    LongPress,
}

/// What the driver does next.
#[derive(Clone, Copy, Debug, PartialEq, Eq, Structural)]
pub enum Wait {
    /// Read the pin at once.
    Read,
    /// Wait until the pin reads `high`, for at most `timeout` when there is
    /// one; then wait the debounce time and read the pin.
    Level {
        /// The level waited for.
        high: bool,
        /// Longest wait, if any.
        timeout: Option<Duration>,
    },
}

/// How a wait ended.
#[derive(Clone, Copy, Debug, PartialEq, Eq, Structural)]
pub enum Outcome {
    /// The timeout ran out first.
    TimedOut,
    /// The pin was read: whether it is low, `None` when the read failed.
    Read {
        /// Result of the read.
        low: Option<bool>,
    },
}

/// A button on pin `P`.
#[derive(Clone, Copy, Debug)]
pub struct Button<P> {
    pin: P,
    state: State,
    count: usize,
    config: ButtonConfig,
}

/// Whether a read of the pin means the button is pressed. A failed read
/// counts as released.
pub open spec fn pressed_spec(mode: Mode, low: Option<bool>) -> bool {
    match low {
        Some(l) => l == (mode == Mode::PullUp),
        None => false,
    }
}

/// The level that a press, or a release, puts on the pin.
pub open spec fn press_level(mode: Mode, press: bool) -> bool {
    (mode == Mode::PullDown) == press
}

/// What to wait for in `state`.
pub open spec fn wait_spec(state: State, config: ButtonConfig) -> Wait {
    match state {
        State::Unknown => Wait::Read,
        State::Pressed => Wait::Level {
            high: press_level(config.mode, false),
            timeout: Some(config.long_press),
        },
        State::Released => Wait::Level {
            high: press_level(config.mode, true),
            timeout: Some(config.double_click),
        },
        State::Idle => Wait::Level { high: press_level(config.mode, true), timeout: None },
        State::PendingRelease => Wait::Level {
            high: press_level(config.mode, false),
            timeout: None,
        },
    }
}

/// One count more, staying at the largest `usize`.
pub open spec fn count_up(count: usize) -> usize {
    if count < usize::MAX {
        (count + 1) as usize
    } else {
        count
    }
}

/// State, count and event after `outcome` in `state` with `count` presses so far.
pub open spec fn step_spec(state: State, count: usize, mode: Mode, outcome: Outcome) -> (
    State,
    usize,
    Option<ButtonEvent>,
) {
    match outcome {
        Outcome::TimedOut => match state {
            State::Pressed => (State::PendingRelease, 0, Some(ButtonEvent::LongPress)),
            State::Released => (State::Idle, 0, Some(ButtonEvent::ShortPress { count })),
            _ => (state, count, None),
        },
        Outcome::Read { low } => {
            let pressed = pressed_spec(mode, low);
            match state {
                State::Unknown => if pressed {
                    (State::Pressed, 1, None)
                } else {
                    (State::Idle, count, None)
                },
                State::Pressed => (
                    if pressed {
                        State::Pressed
                    } else {
                        State::Released
                    },
                    count,
                    None,
                ),
                State::Released => if pressed {
                    (State::Pressed, count_up(count), None)
                } else {
                    (State::Released, count, None)
                },
                State::Idle => if pressed {
                    (State::Pressed, 1, None)
                } else {
                    (State::Idle, count, None)
                },
                State::PendingRelease => (
                    if pressed {
                        State::PendingRelease
                    } else {
                        State::Idle
                    },
                    count,
                    None,
                ),
            }
        },
    }
}

/// A button held down, or just released, has counted at least one press.
pub open spec fn count_invariant(state: State, count: usize) -> bool {
    (state == State::Pressed || state == State::Released) ==> count >= 1
}

/// Every step keeps the press count of a sequence under way at one or more,
/// so a reported short-press sequence has at least one press.
pub proof fn lemma_short_press_counts(state: State, count: usize, mode: Mode, outcome: Outcome)
    requires
        count_invariant(state, count),
    ensures
        count_invariant(
            step_spec(state, count, mode, outcome).0,
            step_spec(state, count, mode, outcome).1,
        ),
        step_spec(state, count, mode, outcome).2 matches Some(ButtonEvent::ShortPress { count: n })
            ==> n >= 1,
{
}

impl<P> Button<P> {
    /// The current state.
    pub closed spec fn state_spec(&self) -> State {
        self.state
    }

    /// Presses in the current sequence.
    pub closed spec fn count_spec(&self) -> usize {
        self.count
    }

    /// The configuration.
    pub closed spec fn config_spec(&self) -> ButtonConfig {
        self.config
    }

    /// The pin.
    pub closed spec fn pin_spec(&self) -> P {
        self.pin
    }

    /// A button on `pin`, nothing read yet.
    pub fn new(pin: P, config: ButtonConfig) -> (r: Self)
        ensures
            count_invariant(r.state_spec(), r.count_spec()),
            r.pin_spec() == pin,
            r.state_spec() == State::Unknown,
            r.count_spec() == 0,
            r.config_spec() == config,
    {
        Self { pin, state: State::Unknown, count: 0, config }
    }

    /// The current state.
    pub fn state(&self) -> (r: State)
        ensures
            r == self.state_spec(),
    {
        self.state
    }

    /// Presses in the current sequence.
    pub fn count(&self) -> (r: usize)
        ensures
            r == self.count_spec(),
    {
        self.count
    }

    /// The configuration.
    pub fn config(&self) -> (r: ButtonConfig)
        ensures
            r == self.config_spec(),
    {
        self.config
    }

    /// The pin, for the driver to read and wait on.
    pub fn pin_mut(&mut self) -> (r: &mut P)
        ensures
            *r == old(self).pin_spec(),
            final(self).pin_spec() == *final(r),
            final(self).state_spec() == old(self).state_spec(),
            final(self).count_spec() == old(self).count_spec(),
            final(self).config_spec() == old(self).config_spec(),
    {
        &mut self.pin
    }

    /// Whether a read of the pin, `low` being whether it reads low (`None`
    /// when the read failed), means that the button is pressed.
    pub fn is_pin_pressed(&self, low: Option<bool>) -> (r: bool)
        ensures
            r == pressed_spec(self.config_spec().mode, low),
    {
        low.unwrap_or(self.config.mode.is_pulldown()) == self.config.mode.is_pullup()
    }

    /// Whether a read of the pin means that the button is released.
    pub fn is_pin_released(&self, low: Option<bool>) -> (r: bool)
        ensures
            r == !pressed_spec(self.config_spec().mode, low),
    {
        !self.is_pin_pressed(low)
    }

    /// What the driver waits for next.
    pub fn next_wait(&self) -> (r: Wait)
        ensures
            r == wait_spec(self.state_spec(), self.config_spec()),
    {
        let press_high = self.config.mode.is_pulldown();
        match self.state {
            State::Unknown => Wait::Read,
            State::Pressed => Wait::Level {
                high: !press_high,
                timeout: Some(self.config.long_press),
            },
            State::Released => Wait::Level {
                high: press_high,
                timeout: Some(self.config.double_click),
            },
            State::Idle => Wait::Level { high: press_high, timeout: None },
            State::PendingRelease => Wait::Level { high: !press_high, timeout: None },
        }
    }

    /// Takes the outcome of the wait that [`Button::next_wait`] asked for,
    /// and returns the event it completes, if any.
    pub fn update_step(&mut self, outcome: Outcome) -> (r: Option<ButtonEvent>)
        ensures
            (final(self).state_spec(), final(self).count_spec(), r) == step_spec(
                old(self).state_spec(),
                old(self).count_spec(),
                old(self).config_spec().mode,
                outcome,
            ),
            final(self).config_spec() == old(self).config_spec(),
            final(self).pin_spec() == old(self).pin_spec(),
    {
        match outcome {
            Outcome::TimedOut => match self.state {
                State::Pressed => {
                    self.count = 0;
                    self.state = State::PendingRelease;
                    Some(ButtonEvent::LongPress)
                },
                State::Released => {
                    let count = self.count;
                    self.count = 0;
                    self.state = State::Idle;
                    Some(ButtonEvent::ShortPress { count })
                },
                _ => None,
            },
            Outcome::Read { low } => {
                let pressed = self.is_pin_pressed(low);
                match self.state {
                    State::Unknown => {
                        if pressed {
                            self.count = 1;
                            self.state = State::Pressed;
                        } else {
                            self.state = State::Idle;
                        }
                    },
                    State::Pressed => {
                        if !pressed {
                            self.state = State::Released;
                        }
                    },
                    State::Released => {
                        if pressed {
                            if self.count < usize::MAX {
                                self.count = self.count + 1;
                            }
                            self.state = State::Pressed;
                        }
                    },
                    State::Idle => {
                        if pressed {
                            self.count = 1;
                            self.state = State::Pressed;
                        }
                    },
                    State::PendingRelease => {
                        if !pressed {
                            self.state = State::Idle;
                        }
                    },
                }
                None
            },
        }
    }
}

} // verus!
