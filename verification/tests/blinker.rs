use blinky::blinker::{Actions, Blinker};
use blinky::delay::{loop_delay, INITIAL_DELAY, MIN_DELAY};

/// Feeds one whole polling window and returns what the last reading answered.
fn feed_window(blinker: &mut Blinker, high_at: Option<u32>) -> Actions {
    let polls = blinker.polls_left();
    let mut last = Actions { bounce: false, toggle: None };
    for i in 0..polls {
        let reading = Some(high_at == Some(i));
        last = blinker.step(reading);
        if i + 1 < polls {
            assert_eq!(last.toggle, None);
        }
    }
    last
}

#[test]
fn new_blinker_starts_a_window_with_the_initial_delay() {
    let blinker = Blinker::new();
    assert_eq!(blinker.delay(), 100_000);
    assert_eq!(blinker.polls_left(), 99_999);
    assert!(!blinker.pressed());
    assert!(!blinker.led_on());
}

#[test]
fn step_inside_the_window_counts_the_reading() {
    let mut blinker = Blinker::new();
    let actions = blinker.step(Some(false));
    assert_eq!(actions, Actions { bounce: false, toggle: None });
    assert_eq!(blinker.polls_left(), 99_998);
    assert_eq!(blinker.delay(), 100_000);
    assert!(!blinker.pressed());
    assert!(!blinker.led_on());
}

#[test]
fn step_reports_each_high_reading() {
    let mut blinker = Blinker::new();
    assert_eq!(blinker.step(Some(true)), Actions { bounce: true, toggle: None });
    assert!(blinker.pressed());
    assert_eq!(blinker.step(Some(true)), Actions { bounce: true, toggle: None });
    assert_eq!(blinker.step(Some(false)), Actions { bounce: false, toggle: None });
    assert!(blinker.pressed());
    assert_eq!(blinker.polls_left(), 99_996);
}

#[test]
fn step_counts_a_failed_reading_as_low() {
    let mut blinker = Blinker::new();
    assert_eq!(blinker.step(None), Actions { bounce: false, toggle: None });
    assert!(!blinker.pressed());
    assert_eq!(blinker.polls_left(), 99_998);
}

#[test]
fn quiet_window_toggles_and_keeps_the_delay() {
    let mut blinker = Blinker::new();
    let last = feed_window(&mut blinker, None);
    assert_eq!(last, Actions { bounce: false, toggle: Some(100_000) });
    assert_eq!(blinker.delay(), 100_000);
    assert_eq!(blinker.polls_left(), 99_999);
    assert!(blinker.led_on());
    assert!(!blinker.pressed());
}

#[test]
fn window_with_a_press_shortens_the_delay() {
    let mut blinker = Blinker::new();
    let last = feed_window(&mut blinker, Some(5));
    assert_eq!(last, Actions { bounce: false, toggle: Some(75_000) });
    assert_eq!(blinker.delay(), 75_000);
    assert_eq!(blinker.polls_left(), 74_999);
    assert!(blinker.led_on());
    assert!(!blinker.pressed());
}

#[test]
fn press_on_the_last_reading_of_a_window_counts() {
    let mut blinker = Blinker::new();
    let last = feed_window(&mut blinker, Some(99_998));
    assert_eq!(last, Actions { bounce: true, toggle: Some(75_000) });
    assert_eq!(blinker.delay(), 75_000);
}

#[test]
fn press_is_forgotten_when_its_window_ends() {
    let mut blinker = Blinker::new();
    feed_window(&mut blinker, Some(0));
    assert_eq!(blinker.delay(), 75_000);
    let last = feed_window(&mut blinker, None);
    assert_eq!(last.toggle, Some(75_000));
    assert_eq!(blinker.delay(), 75_000);
}

#[test]
fn four_pressed_windows_return_to_the_initial_delay() {
    let mut blinker = Blinker::new();
    let mut delays = Vec::new();
    let mut lights = Vec::new();
    for _ in 0..4 {
        let last = feed_window(&mut blinker, Some(1));
        delays.push(last.toggle);
        lights.push(blinker.led_on());
    }
    assert_eq!(delays, vec![Some(75_000), Some(50_000), Some(25_000), Some(100_000)]);
    assert_eq!(lights, vec![true, false, true, false]);
    assert_eq!(blinker.delay(), INITIAL_DELAY);
    assert_eq!(blinker.polls_left(), 99_999);
}

#[test]
fn light_toggles_once_per_window() {
    let mut blinker = Blinker::new();
    let mut toggles = 0;
    for _ in 0..(3 * 99_999) {
        if blinker.step(Some(false)).toggle.is_some() {
            toggles += 1;
        }
    }
    assert_eq!(toggles, 3);
    assert!(blinker.led_on());
    assert_eq!(blinker.polls_left(), 99_999);
}

#[test]
fn delay_stays_within_range_under_constant_pressing() {
    let mut blinker = Blinker::new();
    for _ in 0..600_000 {
        let actions = blinker.step(Some(true));
        assert!(actions.bounce);
        if let Some(delay) = actions.toggle {
            assert!(MIN_DELAY <= delay && delay <= INITIAL_DELAY);
            assert_eq!(blinker.delay(), delay);
        }
        assert!(MIN_DELAY <= blinker.delay() && blinker.delay() <= INITIAL_DELAY);
        assert!(1 <= blinker.polls_left() && blinker.polls_left() < blinker.delay());
    }
}

#[test]
fn blinker_agrees_with_loop_delay_on_a_window() {
    let mut blinker = Blinker::new();
    let mut delay = INITIAL_DELAY;
    for round in 0..6u32 {
        let polls = blinker.polls_left() as usize;
        assert_eq!(polls as u32, delay - 1);
        let mut readings = vec![Some(false); polls];
        if round % 3 != 2 {
            readings[polls / 2] = Some(true);
            readings[polls / 3] = None;
        }
        let mut toggle = None;
        for reading in &readings {
            toggle = blinker.step(*reading).toggle;
        }
        delay = loop_delay(delay, &readings);
        assert_eq!(toggle, Some(delay));
        assert_eq!(blinker.delay(), delay);
    }
}
