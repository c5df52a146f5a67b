use intercom::button::{Button, ButtonEvent, Outcome, Wait};
use intercom::config::{ButtonConfig, Duration, Mode};

fn config() -> ButtonConfig {
    ButtonConfig::new(
        Duration::from_millis(10),
        Duration::from_millis(100),
        Duration::from_millis(200),
        Mode::PullUp,
    )
}

/// A pin that starts high and changes level at the given times (ms), driven
/// by a clock that only moves forward.
struct Timeline {
    changes: Vec<(u64, bool)>,
    now: u64,
}

impl Timeline {
    fn new(changes: &[(u64, bool)]) -> Self {
        Timeline { changes: changes.to_vec(), now: 0 }
    }

    fn level_at(&self, t: u64) -> bool {
        let mut level = true;
        for &(when, high) in &self.changes {
            if when <= t {
                level = high;
            }
        }
        level
    }

    /// First time from now on at which the pin reads `high`.
    fn first_at(&self, high: bool) -> Option<u64> {
        if self.level_at(self.now) == high {
            return Some(self.now);
        }
        self.changes
            .iter()
            .map(|&(t, _)| t)
            .filter(|&t| t > self.now && self.level_at(t) == high)
            .min()
    }

    /// Runs the button until it reports an event, or until it waits for a
    /// level that never comes.
    fn update(&mut self, button: &mut Button<()>) -> Option<ButtonEvent> {
        let debounce = button.config().debounce.as_millis();
        loop {
            let outcome = match button.next_wait() {
                Wait::Read => Outcome::Read { low: Some(!self.level_at(self.now)) },
                Wait::Level { high, timeout } => {
                    let found = self.first_at(high);
                    match (found, timeout) {
                        (Some(t), Some(d)) if t <= self.now + d.as_millis() => {
                            self.now = t + debounce;
                            Outcome::Read { low: Some(!self.level_at(self.now)) }
                        }
                        (_, Some(d)) => {
                            self.now += d.as_millis();
                            Outcome::TimedOut
                        }
                        (Some(t), None) => {
                            self.now = t + debounce;
                            Outcome::Read { low: Some(!self.level_at(self.now)) }
                        }
                        (None, None) => return None,
                    }
                }
            };
            if let Some(event) = button.update_step(outcome) {
                return Some(event);
            }
        }
    }
}

#[test]
fn short_press() {
    let mut pin = Timeline::new(&[(1, false), (51, true)]);
    let mut button = Button::new((), config());
    assert_eq!(pin.update(&mut button), Some(ButtonEvent::ShortPress { count: 1 }));
    assert_eq!(pin.update(&mut button), None);
}

#[test]
fn double_press() {
    let mut pin = Timeline::new(&[(1, false), (51, true), (101, false), (151, true)]);
    let mut button = Button::new((), config());
    assert_eq!(pin.update(&mut button), Some(ButtonEvent::ShortPress { count: 2 }));
    assert_eq!(pin.update(&mut button), None);
}

#[test]
fn events_long_press() {
    let mut pin = Timeline::new(&[(1, false), (251, true)]);
    let mut button = Button::new((), config());
    assert_eq!(pin.update(&mut button), Some(ButtonEvent::LongPress));
    assert_eq!(pin.update(&mut button), None);
}

#[test]
fn two_short_presses() {
    let mut pin = Timeline::new(&[(1, false), (51, true), (301, false), (351, true)]);
    let mut button = Button::new((), config());
    assert_eq!(pin.update(&mut button), Some(ButtonEvent::ShortPress { count: 1 }));
    assert_eq!(pin.update(&mut button), Some(ButtonEvent::ShortPress { count: 1 }));
    assert_eq!(pin.update(&mut button), None);
}

#[test]
fn debounce() {
    let mut pin = Timeline::new(&[(1, false), (1, true), (1, false), (51, true)]);
    let mut button = Button::new((), config());
    assert_eq!(pin.update(&mut button), Some(ButtonEvent::ShortPress { count: 1 }));
    assert_eq!(pin.update(&mut button), None);
}
