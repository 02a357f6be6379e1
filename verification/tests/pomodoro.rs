use rclock::action::{Action, Banner, Notice, Screen};
use rclock::duration::Duration;
use rclock::pomodoro::{Phase, PlanError, Pomodoro, PomodoroPlan};

struct Run {
    work_phases: Vec<u64>,
    break_phases: Vec<u64>,
    announcements: Vec<u64>,
    beeps: u32,
    notices: Vec<Notice>,
    clock_millis: u64,
    total_millis: u64,
    end: Phase,
}

fn drive(plan: PomodoroPlan, stop_after_millis: Option<u64>) -> Run {
    let mut session = Pomodoro::new(plan);
    let mut run = Run {
        work_phases: Vec::new(),
        break_phases: Vec::new(),
        announcements: Vec::new(),
        beeps: 0,
        notices: Vec::new(),
        clock_millis: 0,
        total_millis: 0,
        end: Phase::Work,
    };
    let mut actions = session.start();
    let mut seen: Option<(u64, Phase)> = None;
    loop {
        for action in actions {
            match action {
                Action::Sleep { millis } => {
                    assert!(millis <= 500);
                    run.clock_millis += millis;
                    run.total_millis += millis;
                },
                Action::RestartClock => run.clock_millis = 0,
                Action::Beep => run.beeps += 1,
                Action::Print(notice) => run.notices.push(notice),
                _ => {},
            }
        }
        if session.is_finished() {
            break;
        }
        if seen != Some((session.cycle, session.phase)) {
            seen = Some((session.cycle, session.phase));
            match session.phase {
                Phase::Work => run.work_phases.push(session.cycle),
                Phase::Break => run.break_phases.push(session.cycle),
                Phase::Pause => run.announcements.push(session.cycle),
                _ => {},
            }
        }
        let stop = match stop_after_millis {
            Some(limit) => run.total_millis >= limit,
            None => false,
        };
        actions = session.step(&Duration::from_millis(run.clock_millis), stop);
    }
    run.end = session.phase;
    run
}

#[test]
fn plan_takes_minutes_and_defaults_to_one_cycle() {
    let plan = PomodoroPlan::new(25, 5, None).unwrap();
    assert_eq!(plan.work, Duration::from_secs(1500));
    assert_eq!(plan.rest, Duration::from_secs(300));
    assert_eq!(plan.repeats, 1);
    let plan = PomodoroPlan::new(1, 2, Some(4)).unwrap();
    assert_eq!(plan.work, Duration::from_secs(60));
    assert_eq!(plan.rest, Duration::from_secs(120));
    assert_eq!(plan.repeats, 4);
}

#[test]
fn plan_rejects_what_is_not_positive() {
    assert_eq!(PomodoroPlan::new(0, 5, None), Err(PlanError::ZeroWork));
    assert_eq!(PomodoroPlan::new(25, 0, None), Err(PlanError::ZeroBreak));
    assert_eq!(PomodoroPlan::new(25, 5, Some(0)), Err(PlanError::ZeroRepeats));
    assert_eq!(PomodoroPlan::new(0, 0, Some(0)), Err(PlanError::ZeroWork));
    assert_eq!(PomodoroPlan::new(1, 0, Some(0)), Err(PlanError::ZeroBreak));
}

#[test]
fn plan_rejects_phases_too_long_to_count() {
    let most = u64::MAX / 60;
    assert!(PomodoroPlan::new(most, most, Some(u64::MAX)).is_ok());
    assert_eq!(PomodoroPlan::new(most + 1, 5, None), Err(PlanError::TooLong));
    assert_eq!(PomodoroPlan::new(25, u64::MAX, None), Err(PlanError::TooLong));
    assert_eq!(PomodoroPlan::new(u64::MAX, 5, Some(0)), Err(PlanError::ZeroRepeats));
}

#[test]
fn plan_errors_have_their_messages() {
    assert_eq!(PlanError::ZeroWork.message(), "Work duration must be at least one minute.");
    assert_eq!(PlanError::ZeroBreak.message(), "Break duration must be at least one minute.");
    assert_eq!(PlanError::ZeroRepeats.message(), "There must be at least one cycle.");
    assert_eq!(PlanError::TooLong.message(), "A phase cannot last that long.");
}

#[test]
fn session_opens_with_its_first_cycle() {
    let session = Pomodoro::new(PomodoroPlan::new(25, 5, Some(3)).unwrap());
    assert_eq!(session.cycle, 1);
    assert_eq!(session.phase, Phase::Work);
    assert_eq!(
        session.start(),
        vec![
            Action::Clear,
            Action::Print(Notice::CycleStart { cycle: 1, of: 3 }),
            Action::RestartClock,
        ]
    );
}

#[test]
fn two_cycles_have_two_work_phases_two_breaks_and_one_announcement() {
    let run = drive(PomodoroPlan::new(1, 1, Some(2)).unwrap(), None);
    assert_eq!(run.work_phases, vec![1, 2]);
    assert_eq!(run.break_phases, vec![1, 2]);
    assert_eq!(run.announcements, vec![1]);
    assert_eq!(run.beeps, 4);
    assert_eq!(
        run.notices,
        vec![
            Notice::CycleStart { cycle: 1, of: 2 },
            Notice::CycleStart { cycle: 2, of: 2 },
            Notice::SessionComplete,
        ]
    );
    assert_eq!(run.end, Phase::Done);
    assert_eq!(run.total_millis, 4 * 60_000 + 3000);
}

#[test]
fn one_cycle_has_no_announcement() {
    let run = drive(PomodoroPlan::new(2, 1, None).unwrap(), None);
    assert_eq!(run.work_phases, vec![1]);
    assert_eq!(run.break_phases, vec![1]);
    assert_eq!(run.announcements, vec![]);
    assert_eq!(run.beeps, 2);
    assert_eq!(run.end, Phase::Done);
    assert_eq!(run.total_millis, 3 * 60_000);
}

#[test]
fn five_cycles_have_four_announcements() {
    let run = drive(PomodoroPlan::new(1, 1, Some(5)).unwrap(), None);
    assert_eq!(run.work_phases, vec![1, 2, 3, 4, 5]);
    assert_eq!(run.break_phases, vec![1, 2, 3, 4, 5]);
    assert_eq!(run.announcements, vec![1, 2, 3, 4]);
    assert_eq!(run.beeps, 10);
    assert_eq!(run.end, Phase::Done);
}

#[test]
fn stop_during_work_ends_the_session_early() {
    let run = drive(PomodoroPlan::new(1, 1, Some(2)).unwrap(), Some(10_000));
    assert_eq!(run.work_phases, vec![1]);
    assert_eq!(run.break_phases, vec![]);
    assert_eq!(run.announcements, vec![]);
    assert_eq!(run.beeps, 0);
    assert_eq!(run.end, Phase::Stopped);
    assert_eq!(run.total_millis, 10_000);
    assert!(run.total_millis < 60_000);
}

#[test]
fn stop_during_break_ends_the_session_early() {
    let run = drive(PomodoroPlan::new(1, 1, Some(2)).unwrap(), Some(90_000));
    assert_eq!(run.work_phases, vec![1]);
    assert_eq!(run.break_phases, vec![1]);
    assert_eq!(run.announcements, vec![]);
    assert_eq!(run.beeps, 1);
    assert_eq!(run.end, Phase::Stopped);
    assert_eq!(run.total_millis, 90_000);
}

#[test]
fn stop_during_the_announcement_ends_the_session_early() {
    let run = drive(PomodoroPlan::new(1, 1, Some(2)).unwrap(), Some(121_000));
    assert_eq!(run.work_phases, vec![1]);
    assert_eq!(run.break_phases, vec![1]);
    assert_eq!(run.announcements, vec![1]);
    assert_eq!(run.end, Phase::Stopped);
    assert_eq!(run.total_millis, 121_000);
}

#[test]
fn work_phase_shows_minutes_and_seconds_left() {
    let mut session = Pomodoro::new(PomodoroPlan::new(25, 5, None).unwrap());
    let actions = session.step(&Duration::zero(), false);
    assert_eq!(
        actions,
        vec![Action::Show(Screen::Work { secs: 1500 }), Action::Sleep { millis: 500 }]
    );
    let actions = session.step(&Duration::from_millis(61_500), false);
    assert_eq!(
        actions,
        vec![Action::Show(Screen::Work { secs: 1438 }), Action::Sleep { millis: 500 }]
    );
    assert_eq!(Screen::Work { secs: 1438 }.to_text(), "Work: 23:58");
}

#[test]
fn work_hands_over_to_the_break() {
    let mut session = Pomodoro::new(PomodoroPlan::new(1, 2, None).unwrap());
    let actions = session.step(&Duration::from_secs(60), false);
    assert_eq!(
        actions,
        vec![
            Action::Beep,
            Action::Show(Screen::Banner(Banner::BreakTime)),
            Action::RestartClock,
        ]
    );
    assert_eq!((session.cycle, session.phase), (1, Phase::Break));
    let actions = session.step(&Duration::from_secs(1), false);
    assert_eq!(
        actions,
        vec![Action::Show(Screen::Break { secs: 119 }), Action::Sleep { millis: 500 }]
    );
}

#[test]
fn last_break_ends_the_session() {
    let mut session = Pomodoro::new(PomodoroPlan::new(1, 1, None).unwrap());
    session.step(&Duration::from_secs(60), false);
    let actions = session.step(&Duration::from_secs(60), false);
    assert_eq!(
        actions,
        vec![
            Action::Beep,
            Action::Show(Screen::Banner(Banner::PomodoroDone)),
            Action::Print(Notice::SessionComplete),
        ]
    );
    assert_eq!(session.phase, Phase::Done);
    assert!(session.is_finished());
    assert_eq!(session.step(&Duration::from_secs(1000), false), vec![]);
    assert_eq!(session.step(&Duration::from_secs(1000), true), vec![]);
    assert_eq!(session.phase, Phase::Done);
}

#[test]
fn break_before_another_cycle_hands_over_to_the_announcement() {
    let mut session = Pomodoro::new(PomodoroPlan::new(1, 1, Some(2)).unwrap());
    session.step(&Duration::from_secs(60), false);
    let actions = session.step(&Duration::from_secs(60), false);
    assert_eq!(
        actions,
        vec![
            Action::Beep,
            Action::Show(Screen::Banner(Banner::NextCycle)),
            Action::RestartClock,
        ]
    );
    assert_eq!((session.cycle, session.phase), (1, Phase::Pause));
    let actions = session.step(&Duration::from_millis(2999), false);
    assert_eq!(actions, vec![Action::Sleep { millis: 500 }]);
    let actions = session.step(&Duration::from_millis(3000), false);
    assert_eq!(
        actions,
        vec![
            Action::Clear,
            Action::Print(Notice::CycleStart { cycle: 2, of: 2 }),
            Action::RestartClock,
        ]
    );
    assert_eq!((session.cycle, session.phase), (2, Phase::Work));
}

#[test]
fn a_session_placed_past_its_plan_still_ends() {
    let plan = PomodoroPlan::new(1, 1, Some(2)).unwrap();
    let mut session = Pomodoro { plan, cycle: u64::MAX, phase: Phase::Pause };
    assert_eq!(session.step(&Duration::from_secs(3), false), vec![]);
    assert_eq!((session.cycle, session.phase), (u64::MAX, Phase::Done));
}
