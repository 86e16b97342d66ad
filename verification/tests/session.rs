use tick_chart::session::{Session, Step, EXIT_CODE};

const SETUP: [Step; 4] = [
    Step::EnterAlternateScreen,
    Step::EnableRawMode,
    Step::EnableMouseCapture,
    Step::OpenTerminal,
];

const RESTORATION: [Step; 4] = [
    Step::DisableRawMode,
    Step::LeaveAlternateScreen,
    Step::DisableMouseCapture,
    Step::ShowCursor,
];

/// Runs a session in which exactly the steps in `failing` fail, and returns
/// the steps performed and the failure reported.
fn run(failing: &[Step]) -> (Vec<Step>, Option<Step>) {
    let mut session = Session::new();
    let mut performed = Vec::new();
    let mut step = session.pending();
    while step != Step::Finish {
        assert!(performed.len() < 9, "the session does not end");
        performed.push(step);
        let next = session.report(!failing.contains(&step));
        assert_eq!(next, session.pending());
        step = next;
    }
    (performed, session.failure())
}

#[test]
fn exit_code_is_zero() {
    assert_eq!(EXIT_CODE, 0);
}

#[test]
fn session_starts_with_the_alternate_screen() {
    let session = Session::new();
    assert_eq!(session.pending(), Step::EnterAlternateScreen);
    assert_eq!(session.failure(), None);
}

#[test]
fn session_without_failure_runs_every_step_in_order() {
    let (performed, failure) = run(&[]);
    assert_eq!(
        performed,
        vec![
            Step::EnterAlternateScreen,
            Step::EnableRawMode,
            Step::EnableMouseCapture,
            Step::OpenTerminal,
            Step::RunLoop,
            Step::DisableRawMode,
            Step::LeaveAlternateScreen,
            Step::DisableMouseCapture,
            Step::ShowCursor,
        ]
    );
    assert_eq!(failure, None);
}

#[test]
fn failed_setup_is_followed_by_the_whole_restoration() {
    for (done, failed) in SETUP.iter().enumerate() {
        let (performed, failure) = run(&[*failed]);
        let mut expected = SETUP[..=done].to_vec();
        expected.extend_from_slice(&RESTORATION);
        assert_eq!(performed, expected, "{:?} failed", failed);
        assert!(!performed.contains(&Step::RunLoop));
        assert_eq!(failure, Some(*failed));
    }
}

#[test]
fn failed_loop_is_followed_by_the_whole_restoration() {
    let (performed, failure) = run(&[Step::RunLoop]);
    assert_eq!(performed[4], Step::RunLoop);
    assert_eq!(performed[5..], RESTORATION);
    assert_eq!(failure, Some(Step::RunLoop));
}

#[test]
fn failed_restoration_step_does_not_stop_the_others() {
    for failed in RESTORATION {
        let (performed, failure) = run(&[failed]);
        assert_eq!(performed.len(), 9);
        assert_eq!(performed[5..], RESTORATION);
        assert_eq!(failure, Some(failed));
    }
    let (performed, failure) = run(&RESTORATION);
    assert_eq!(performed[5..], RESTORATION);
    assert_eq!(failure, Some(Step::DisableRawMode));
}

#[test]
fn unsupported_terminal_is_restored_before_the_session_finishes() {
    let every_step = [SETUP.as_slice(), &[Step::RunLoop], RESTORATION.as_slice()].concat();
    let (performed, failure) = run(&every_step);
    assert_eq!(
        performed,
        vec![
            Step::EnterAlternateScreen,
            Step::DisableRawMode,
            Step::LeaveAlternateScreen,
            Step::DisableMouseCapture,
            Step::ShowCursor,
        ]
    );
    assert_eq!(failure, Some(Step::EnterAlternateScreen));
}

#[test]
fn first_failure_is_the_one_reported() {
    let (_, failure) = run(&[Step::EnableMouseCapture, Step::LeaveAlternateScreen]);
    assert_eq!(failure, Some(Step::EnableMouseCapture));
    let (_, failure) = run(&[Step::RunLoop, Step::DisableRawMode, Step::ShowCursor]);
    assert_eq!(failure, Some(Step::RunLoop));
    let (_, failure) = run(&[Step::ShowCursor]);
    assert_eq!(failure, Some(Step::ShowCursor));
}

#[test]
fn report_tells_the_next_step() {
    let mut session = Session::new();
    assert_eq!(session.report(true), Step::EnableRawMode);
    assert_eq!(session.report(true), Step::EnableMouseCapture);
    assert_eq!(session.report(false), Step::DisableRawMode);
    assert_eq!(session.failure(), Some(Step::EnableMouseCapture));
    assert_eq!(session.report(false), Step::LeaveAlternateScreen);
    assert_eq!(session.report(true), Step::DisableMouseCapture);
    assert_eq!(session.report(true), Step::ShowCursor);
    assert_eq!(session.report(true), Step::Finish);
    assert_eq!(session.failure(), Some(Step::EnableMouseCapture));
}

#[test]
fn finished_session_stays_finished() {
    let mut session = Session::new();
    for _ in 0..9 {
        session.report(true);
    }
    assert_eq!(session.pending(), Step::Finish);
    assert_eq!(session.report(false), Step::Finish);
    assert_eq!(session.report(true), Step::Finish);
    assert_eq!(session.failure(), None);
}
