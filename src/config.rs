//! Settings of a [`Button`](crate::button::Button).
use vstd::prelude::*;

verus! {

/// A span of time, in whole milliseconds.
#[derive(Clone, Copy, Debug, PartialEq, Eq, Structural)]
pub struct Duration {
    millis: u64,
}

impl View for Duration {
    type V = u64;

    closed spec fn view(&self) -> u64 {
        self.millis
    }
}

impl Duration {
    /// A span of `millis` milliseconds.
    pub fn from_millis(millis: u64) -> (r: Self)
        ensures
            r@ == millis,
    {
        Duration { millis }
    }

    /// The span in milliseconds.
    pub fn as_millis(&self) -> (r: u64)
        ensures
            r == self@,
    {
        self.millis
    }
}

/// Debounce time of the default configuration, in milliseconds.
pub const DEFAULT_DEBOUNCE_MS: u64 = 10;

/// Double-click window of the default configuration, in milliseconds.
pub const DEFAULT_DOUBLE_CLICK_MS: u64 = 350;

/// Long-press time of the default configuration, in milliseconds.
pub const DEFAULT_LONG_PRESS_MS: u64 = 1000;

/// How the button is wired.
#[derive(Clone, Copy, Debug, PartialEq, Eq, Structural)]
pub enum Mode {
    /// The pin has a pull-up resistor: a pressed button reads low.
    PullUp,
    /// The pin has a pull-down resistor: a pressed button reads high.
    PullDown,
}

impl Mode {
    /// Is the pin pulled up?
    pub fn is_pullup(&self) -> (r: bool)
        ensures
            r == (*self == Mode::PullUp),
    {
        matches!(self, Mode::PullUp)
    }

    /// Is the pin pulled down?
    pub fn is_pulldown(&self) -> (r: bool)
        ensures
            r == (*self == Mode::PullDown),
    {
        !self.is_pullup()
    }
}

impl Default for Mode {
    fn default() -> (r: Self)
        ensures
            r == Mode::PullUp,
    {
        Mode::PullUp
    }
}

/// Timing and wiring of a button.
#[derive(Clone, Copy, Debug, PartialEq, Eq, Structural)]
pub struct ButtonConfig {
    /// How long the level must hold after a change to count.
    pub debounce: Duration,
    /// Longest pause between presses of one sequence.
    pub double_click: Duration,
    /// How long the button is held before a long press is reported.
    pub long_press: Duration,
    /// How the button is wired.
    pub mode: Mode,
}

impl ButtonConfig {
    /// A configuration from its parts.
    pub fn new(debounce: Duration, double_click: Duration, long_press: Duration, mode: Mode) -> (r:
        Self)
        ensures
            r == (ButtonConfig { debounce, double_click, long_press, mode }),
    {
        Self { debounce, double_click, long_press, mode }
    }
}

impl Default for ButtonConfig {
    /// 10 ms debounce, 350 ms double-click window, 1 s long press, pull-up.
    fn default() -> (r: Self)
        ensures
            r.debounce@ == DEFAULT_DEBOUNCE_MS,
            r.double_click@ == DEFAULT_DOUBLE_CLICK_MS,
            r.long_press@ == DEFAULT_LONG_PRESS_MS,
            r.mode == Mode::PullUp,
    {
        Self {
            debounce: Duration::from_millis(DEFAULT_DEBOUNCE_MS),
            double_click: Duration::from_millis(DEFAULT_DOUBLE_CLICK_MS),
            long_press: Duration::from_millis(DEFAULT_LONG_PRESS_MS),
            mode: Mode::PullUp,
        }
    }
}

} // verus!
