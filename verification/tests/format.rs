use rclock::action::{Banner, Notice, Screen};
use rclock::duration::Duration;
use rclock::format::{format_hms, format_hms_millis, format_mins_secs};

#[test]
fn hms_of_zero_is_all_zeros() {
    assert_eq!(format_hms(0), "00:00:00");
}

#[test]
fn hms_pads_each_field_to_two_digits() {
    assert_eq!(format_hms(3661), "01:01:01");
    assert_eq!(format_hms(59), "00:00:59");
    assert_eq!(format_hms(60), "00:01:00");
    assert_eq!(format_hms(3599), "00:59:59");
    assert_eq!(format_hms(3600), "01:00:00");
}

#[test]
fn hms_does_not_wrap_hours_at_a_day() {
    assert_eq!(format_hms(86_400), "24:00:00");
    assert_eq!(format_hms(100 * 3600 + 5), "100:00:05");
    assert_eq!(format_hms(u64::MAX), "5124095576030431:00:15");
}

#[test]
fn hms_fields_add_up_to_the_seconds_formatted() {
    for secs in [0u64, 1, 59, 60, 61, 3599, 3600, 86_399, 86_400, 359_999, 360_000, 987_654_321] {
        let text = format_hms(secs);
        let fields: Vec<&str> = text.split(':').collect();
        assert_eq!(fields.len(), 3);
        assert!(fields[0].len() >= 2);
        assert_eq!(fields[1].len(), 2);
        assert_eq!(fields[2].len(), 2);
        let hours: u64 = fields[0].parse().unwrap();
        let minutes: u64 = fields[1].parse().unwrap();
        let seconds: u64 = fields[2].parse().unwrap();
        assert!(minutes < 60);
        assert!(seconds < 60);
        assert_eq!(hours * 3600 + minutes * 60 + seconds, secs);
    }
}

#[test]
fn formatting_twice_gives_the_same_text() {
    let d = Duration::new(4321, 987_000_000).unwrap();
    let first = format_hms(d.as_secs());
    let second = format_hms(d.as_secs());
    assert_eq!(first, second);
    assert_eq!(first, "01:12:01");
    let with_millis = format_hms_millis(d.as_secs(), d.subsec_millis());
    assert_eq!(with_millis, format_hms_millis(d.as_secs(), d.subsec_millis()));
    assert_eq!(with_millis, "01:12:01.987");
}

#[test]
fn hms_millis_pads_the_milliseconds_to_three_digits() {
    assert_eq!(format_hms_millis(0, 0), "00:00:00.000");
    assert_eq!(format_hms_millis(5, 7), "00:00:05.007");
    assert_eq!(format_hms_millis(75, 42), "00:01:15.042");
    assert_eq!(format_hms_millis(7200, 999), "02:00:00.999");
}

#[test]
fn mins_secs_keeps_minutes_above_an_hour() {
    assert_eq!(format_mins_secs(0), "00:00");
    assert_eq!(format_mins_secs(59), "00:59");
    assert_eq!(format_mins_secs(60), "01:00");
    assert_eq!(format_mins_secs(25 * 60), "25:00");
    assert_eq!(format_mins_secs(90 * 60 + 9), "90:09");
    assert_eq!(format_mins_secs(6000), "100:00");
}

#[test]
fn screens_spell_their_texts() {
    assert_eq!(Screen::Elapsed { secs: 61, millis: 5 }.to_text(), "00:01:01.005");
    assert_eq!(Screen::Countdown { secs: 25 }.to_text(), "00:00:25");
    assert_eq!(Screen::Work { secs: 1500 }.to_text(), "Work: 25:00");
    assert_eq!(Screen::Break { secs: 299 }.to_text(), "Break: 04:59");
    assert_eq!(Screen::Banner(Banner::AlarmUp).to_text(), "ALARM UP!");
    assert_eq!(Screen::Banner(Banner::BreakTime).to_text(), "BREAK TIME!");
    assert_eq!(Screen::Banner(Banner::NextCycle).to_text(), "NEXT CYCLE STARTING!");
    assert_eq!(Screen::Banner(Banner::PomodoroDone).to_text(), "POMODORO DONE!");
}

#[test]
fn notices_spell_their_lines() {
    assert_eq!(Notice::CycleStart { cycle: 1, of: 2 }.to_text(), "Pomodoro Cycle 1/2");
    assert_eq!(Notice::CycleStart { cycle: 10, of: 12 }.to_text(), "Pomodoro Cycle 10/12");
    assert_eq!(Notice::SessionComplete.to_text(), "Pomodoro session complete!");
}
