use rclock::action::{Action, Banner, Screen};
use rclock::alarm::{alarm_time_from, parse_alarm_time, Alarm, AlarmState, InvalidTimeFormat};
use rclock::clock::TimeOfDay;
use rclock::duration::Duration;

fn noon() -> TimeOfDay {
    TimeOfDay::from_hm(12, 0).unwrap()
}

#[test]
fn a_count_of_seconds_is_the_wait() {
    assert_eq!(parse_alarm_time("25"), Ok(Duration::from_secs(25)));
    assert_eq!(parse_alarm_time("0"), Ok(Duration::from_secs(0)));
    assert_eq!(parse_alarm_time("+90"), Ok(Duration::from_secs(90)));
    assert_eq!(alarm_time_from("25", &noon()), Ok(Duration::from_secs(25)));
    assert_eq!(
        alarm_time_from("18446744073709551615", &noon()),
        Ok(Duration::from_secs(u64::MAX))
    );
}

#[test]
fn a_time_of_day_is_the_wait_until_it() {
    assert_eq!(alarm_time_from("12:30", &noon()), Ok(Duration::from_secs(1800)));
    assert_eq!(alarm_time_from("11:30", &noon()), Ok(Duration::from_secs(84_600)));
    let now = TimeOfDay::from_hm(23, 50).unwrap();
    assert_eq!(alarm_time_from("00:10", &now), Ok(Duration::from_secs(1200)));
}

#[test]
fn midnight_asked_at_another_time_is_positive_and_within_a_day() {
    let wait = parse_alarm_time("00:00").unwrap();
    assert!(Duration::from_secs(86_400).ge(&wait));
    let wait = alarm_time_from("00:00", &noon()).unwrap();
    assert_eq!(wait, Duration::from_secs(43_200));
}

#[test]
fn other_texts_are_an_invalid_format() {
    assert_eq!(parse_alarm_time("abc"), Err(InvalidTimeFormat));
    assert_eq!(parse_alarm_time(""), Err(InvalidTimeFormat));
    assert_eq!(parse_alarm_time("-5"), Err(InvalidTimeFormat));
    assert_eq!(parse_alarm_time("1.5"), Err(InvalidTimeFormat));
    assert_eq!(parse_alarm_time("25:00"), Err(InvalidTimeFormat));
    assert_eq!(parse_alarm_time("10:75"), Err(InvalidTimeFormat));
    assert_eq!(parse_alarm_time("18446744073709551616"), Err(InvalidTimeFormat));
    assert_eq!(alarm_time_from("abc", &noon()), Err(InvalidTimeFormat));
    assert_eq!(alarm_time_from("1:2:3", &noon()), Err(InvalidTimeFormat));
}

#[test]
fn invalid_format_has_its_message() {
    assert_eq!(InvalidTimeFormat.message(), "Invalid time format. Use seconds or HH:MM.");
}

#[test]
fn alarm_opens_with_a_clean_screen() {
    let alarm = Alarm::new(Duration::from_secs(10));
    assert_eq!(alarm.state, AlarmState::CountingDown);
    assert_eq!(alarm.target, Duration::from_secs(10));
    assert_eq!(alarm.start(), vec![Action::Clear, Action::RestartClock]);
    assert!(!alarm.is_finished());
}

#[test]
fn countdown_shows_whole_seconds_left() {
    let mut alarm = Alarm::new(Duration::from_secs(3725));
    let actions = alarm.step(&Duration::zero(), false);
    assert_eq!(
        actions,
        vec![Action::Show(Screen::Countdown { secs: 3725 }), Action::Sleep { millis: 500 }]
    );
    let actions = alarm.step(&Duration::from_millis(500), false);
    assert_eq!(
        actions,
        vec![Action::Show(Screen::Countdown { secs: 3724 }), Action::Sleep { millis: 500 }]
    );
    let actions = alarm.step(&Duration::new(3724, 999_999_999).unwrap(), false);
    assert_eq!(
        actions,
        vec![Action::Show(Screen::Countdown { secs: 0 }), Action::Sleep { millis: 500 }]
    );
    assert_eq!(alarm.state, AlarmState::CountingDown);
}

#[test]
fn alarm_goes_off_when_the_time_is_up() {
    let mut alarm = Alarm::new(Duration::from_secs(2));
    alarm.step(&Duration::from_secs(1), false);
    let actions = alarm.step(&Duration::from_secs(2), false);
    assert_eq!(
        actions,
        vec![
            Action::Show(Screen::Banner(Banner::AlarmUp)),
            Action::Beep,
            Action::Sleep { millis: 100 },
        ]
    );
    assert_eq!(alarm.state, AlarmState::Alarming);
    assert!(!alarm.is_finished());
}

#[test]
fn alarm_of_no_seconds_goes_off_at_once() {
    let mut alarm = Alarm::new(Duration::zero());
    let actions = alarm.step(&Duration::zero(), false);
    assert!(actions.contains(&Action::Beep));
    assert_eq!(alarm.state, AlarmState::Alarming);
}

#[test]
fn alarm_that_went_off_waits_for_the_stop() {
    let mut alarm = Alarm::new(Duration::from_secs(1));
    alarm.step(&Duration::from_secs(1), false);
    for _ in 0..5 {
        let actions = alarm.step(&Duration::from_secs(60), false);
        assert_eq!(actions, vec![Action::Sleep { millis: 100 }]);
        assert_eq!(alarm.state, AlarmState::Alarming);
    }
    let actions = alarm.step(&Duration::from_secs(61), true);
    assert_eq!(actions, vec![]);
    assert_eq!(alarm.state, AlarmState::Stopped);
    assert!(alarm.is_finished());
}

#[test]
fn stop_during_countdown_exits_before_the_time_is_up() {
    let mut alarm = Alarm::new(Duration::from_secs(10));
    let mut elapsed_millis: u64 = 0;
    let mut polls: u32 = 0;
    let mut beeps: u32 = 0;
    let mut shown: Vec<Screen> = Vec::new();
    while !alarm.is_finished() {
        let stop = elapsed_millis >= 1200;
        let actions = alarm.step(&Duration::from_millis(elapsed_millis), stop);
        polls += 1;
        for action in actions {
            match action {
                Action::Sleep { millis } => {
                    assert!(millis <= 500);
                    elapsed_millis += millis;
                },
                Action::Beep => beeps += 1,
                Action::Show(screen) => shown.push(screen),
                _ => {},
            }
        }
    }
    assert_eq!(alarm.state, AlarmState::Stopped);
    assert_eq!(beeps, 0);
    assert_eq!(polls, 4);
    assert_eq!(elapsed_millis, 1500);
    assert!(elapsed_millis < 10_000);
    assert!(!shown.contains(&Screen::Banner(Banner::AlarmUp)));
    assert_eq!(
        shown,
        vec![
            Screen::Countdown { secs: 10 },
            Screen::Countdown { secs: 9 },
            Screen::Countdown { secs: 9 },
        ]
    );
}

#[test]
fn stop_wins_over_a_time_that_is_up() {
    let mut alarm = Alarm::new(Duration::from_secs(1));
    let actions = alarm.step(&Duration::from_secs(5), true);
    assert_eq!(actions, vec![]);
    assert_eq!(alarm.state, AlarmState::Stopped);
}

#[test]
fn stopped_alarm_stays_stopped() {
    let mut alarm = Alarm::new(Duration::from_secs(1));
    alarm.step(&Duration::zero(), true);
    for stop in [false, true] {
        let actions = alarm.step(&Duration::from_secs(100), stop);
        assert_eq!(actions, vec![]);
        assert_eq!(alarm.state, AlarmState::Stopped);
    }
}
