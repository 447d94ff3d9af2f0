use mail_session::cause::Cause;
use mail_session::imap;
use mail_session::imap::idle::{Action, Error, IdleHandle, Outcome, Stage, Step};
use mail_session::imap::notes::{Level, Note};
use mail_session::imap::{select_folder, Imap, ImapConfig, Security, Session};
use stop_token::StopSource;

type Account = Imap<u32, u64>;

fn account(session: Option<Session<u32, u64>>) -> Account {
    Imap {
        config: ImapConfig { can_idle: true },
        session,
        interrupt: None,
        skip_next_idle_wait: false,
        max_timeout_duration: 0,
    }
}

fn cause(text: &str) -> Cause {
    Cause { text: text.to_string() }
}

/// Runs up to the first preparation of a wait.
fn up_to_first_wait(imap: &mut Account) -> (Step<u32, u64>, Vec<String>) {
    let step = imap.idle(Some("INBOX".to_string()));
    assert!(matches!(step.action, Action::SetupHandle));
    let step = step.stage.step(imap, Outcome::Done);
    assert!(matches!(&step.action, Action::SelectFolder(Some(folder)) if folder == "INBOX"));
    let step = step.stage.step(imap, Outcome::Done);
    assert!(matches!(step.action, Action::Continue));
    let step = step.stage.step(imap, Outcome::Done);
    assert!(matches!(step.action, Action::StartClock));
    assert!(imap.session.is_none());
    let step = step.stage.step(imap, Outcome::Done);
    assert!(matches!(step.action, Action::EnterIdle(_)));
    let step = step.stage.step(imap, Outcome::Done);
    assert!(matches!(step.action, Action::PrepareWait { secs: 5 }));
    let notes = vec![step.note.as_ref().unwrap().text()];
    (step, notes)
}

/// Prepares a wait and enters it.
fn into_wait(imap: &mut Account, stage: Stage<u32, u64>) -> Step<u32, u64> {
    let step = stage.step(imap, Outcome::Armed(StopSource::new()));
    assert!(imap.interrupt.is_some());
    assert!(matches!(step.action, Action::Continue));
    let step = step.stage.step(imap, Outcome::Done);
    assert!(matches!(step.action, Action::Await));
    step
}

fn result(step: Step<u32, u64>) -> Result<(), Error> {
    assert!(matches!(step.stage, Stage::Finished));
    match step.action {
        Action::Finish(result) => result,
        _ => panic!("not finished"),
    }
}

#[test]
fn server_without_idle_is_refused() {
    let mut imap = account(None);
    imap.config.can_idle = false;
    assert!(!imap.can_idle());
    let error = result(imap.idle(None)).unwrap_err();
    assert!(matches!(error, Error::IdleAbilityMissing));
    assert_eq!(error.describe(), "IMAP server does not have IDLE capability");
}

#[test]
fn setup_and_folder_failures_end_the_run() {
    let mut imap = account(Some(Session::Secure(1)));
    let step = imap.idle(None);
    let failure = imap::Error { cause: cause("down") };
    let error = result(step.stage.step(&mut imap, Outcome::SetupFailed(failure))).unwrap_err();
    assert!(matches!(&error, Error::SetupHandleError(e) if e.cause.text == "down"));
    assert_eq!(error.describe(), "Setup handle error");

    let step = imap.idle(None);
    let step = step.stage.step(&mut imap, Outcome::Done);
    assert!(matches!(step.action, Action::SelectFolder(None)));
    let failure = select_folder::Error { cause: cause("gone") };
    let error = result(step.stage.step(&mut imap, Outcome::SelectFailed(failure))).unwrap_err();
    assert!(matches!(&error, Error::SelectFolderError(e) if e.cause.text == "gone"));
    assert_eq!(error.describe(), "IMAP select folder error");
    assert!(matches!(imap.session, Some(Session::Secure(1))));
    assert_eq!(imap.max_timeout_duration, 0);
}

#[test]
fn folder_errors_convert() {
    let error = Error::from(select_folder::Error { cause: cause("gone") });
    assert!(matches!(error, Error::SelectFolderError(e) if e.cause.text == "gone"));
}

#[test]
fn time_limit_is_set_once() {
    let mut imap = account(None);
    imap.init_idle_timeout();
    assert_eq!(imap.max_timeout_duration, 21 * 60);
    imap.max_timeout_duration = 660;
    imap.init_idle_timeout();
    assert_eq!(imap.max_timeout_duration, 660);
}

#[test]
fn session_keeps_its_kind_when_idling() {
    assert!(matches!(Session::<u32, u64>::Secure(3).idle(), IdleHandle::Secure(3)));
    assert!(matches!(Session::<u32, u64>::Insecure(4).idle(), IdleHandle::Insecure(4)));
    assert_eq!(Session::<u32, u64>::Secure(3).security(), Security::Secure);
    assert_eq!(Session::<u32, u64>::Insecure(3).security(), Security::Insecure);
}

#[test]
fn run_without_connection_ends_well() {
    let mut imap = account(None);
    let mut step = imap.idle(None);
    for _ in 0..4 {
        step = step.stage.step(&mut imap, Outcome::Done);
    }
    assert!(result(step).is_ok());
    assert!(imap.session.is_none());
    assert_eq!(imap.max_timeout_duration, 1260);
}

#[test]
fn server_that_does_not_idle_costs_the_connection() {
    let mut imap = account(Some(Session::Insecure(9)));
    let mut step = imap.idle(None);
    for _ in 0..4 {
        step = step.stage.step(&mut imap, Outcome::Done);
    }
    assert!(matches!(step.action, Action::EnterIdle(IdleHandle::Insecure(9))));
    let error = result(step.stage.step(&mut imap, Outcome::EnterFailed(cause("BAD")))).unwrap_err();
    assert!(matches!(&error, Error::IdleProtocolFailed(c) if c.text == "BAD"));
    assert_eq!(error.describe(), "IMAP IDLE protocol failed to init/complete");
    assert!(imap.session.is_none());
}

#[test]
fn new_data_ends_a_secure_wait() {
    let mut imap = account(Some(Session::Secure(1)));
    let (step, notes) = up_to_first_wait(&mut imap);
    assert_eq!(
        notes[0],
        "Idle wait (Secure) - handle timeout set to 240 * 5s - max_timeout_duration: 1260"
    );
    let step = into_wait(&mut imap, step.stage);
    assert_eq!(step.note.unwrap().text(), "Idle wait - entering wait-on-remote state");
    let step = step.stage.step(&mut imap, Outcome::NewData("EXISTS 5".to_string()));
    assert_eq!(step.note.unwrap().text(), "Idle wait - has NewData, EXISTS 5");
    assert!(matches!(step.action, Action::Terminate { secs: 10 }));
    imap.max_timeout_duration = 660;
    let step = step.stage.step(&mut imap, Outcome::Terminated(Session::Secure(2)));
    assert!(matches!(step.action, Action::Continue));
    assert_eq!(imap.max_timeout_duration, 1260);
    assert!(imap.session.is_none());
    assert!(result(step.stage.step(&mut imap, Outcome::Done)).is_ok());
    assert!(matches!(imap.session, Some(Session::Secure(2))));
}

#[test]
fn insecure_run_waits_once() {
    let mut imap = account(Some(Session::Insecure(1)));
    let (step, notes) = up_to_first_wait(&mut imap);
    assert_eq!(notes[0], "Idle wait (Inecure) - timeout set to 5s s");
    let step = into_wait(&mut imap, step.stage);
    assert_eq!(step.note.unwrap().text(), "Is Idle wait - entering wait-on-remote state");
    let step = step.stage.step(&mut imap, Outcome::Timeout);
    assert_eq!(step.note.unwrap().text(), "Is Idle wait - timeout");
    assert!(matches!(step.action, Action::Terminate { secs: 15 }));
    imap.max_timeout_duration = 660;
    assert!(result(step.stage.step(&mut imap, Outcome::Terminated(Session::Insecure(5)))).is_ok());
    assert!(matches!(imap.session, Some(Session::Insecure(5))));
    assert_eq!(imap.max_timeout_duration, 660);
}

#[test]
fn insecure_waits_end_on_data_interruption_and_error() {
    for (outcome, text) in [
        (Outcome::NewData("x".to_string()), "Is Idle wait - has NewData"),
        (Outcome::ManualInterrupt, "Is Idle wait - interrupted manually"),
        (Outcome::WaitFailed(cause("eof")), "Is Idle wait - error: eof"),
    ] {
        let mut imap = account(Some(Session::Insecure(1)));
        let (step, _) = up_to_first_wait(&mut imap);
        let step = into_wait(&mut imap, step.stage);
        let step = step.stage.step(&mut imap, outcome);
        assert_eq!(step.note.unwrap().text(), text);
        assert!(matches!(step.action, Action::Terminate { secs: 15 }));
    }
}

#[test]
fn secure_waits_end_on_interruption_and_error() {
    for (outcome, text, level) in [
        (Outcome::ManualInterrupt, "Idle wait - interrupted manually", Level::Info),
        (Outcome::WaitFailed(cause("eof")), "Idle wait - error: eof", Level::Warning),
    ] {
        let mut imap = account(Some(Session::Secure(1)));
        let (step, _) = up_to_first_wait(&mut imap);
        let step = into_wait(&mut imap, step.stage);
        let step = step.stage.step(&mut imap, outcome);
        let note = step.note.unwrap();
        assert_eq!(note.text(), text);
        assert_eq!(note.level(), level);
        assert!(matches!(step.action, Action::Terminate { secs: 10 }));
    }
}

#[test]
fn skip_request_prevents_one_wait() {
    for (session, text, secs) in [
        (Session::Secure(1), "Idle wait - was skipped", 10),
        (Session::Insecure(1), "Is Idle wait - was skipped", 15),
    ] {
        let mut imap = account(Some(session));
        imap.skip_next_idle_wait = true;
        let (step, _) = up_to_first_wait(&mut imap);
        let step = step.stage.step(&mut imap, Outcome::Armed(StopSource::new()));
        let step = step.stage.step(&mut imap, Outcome::Done);
        assert!(matches!(step.action, Action::Continue));
        assert!(imap.skip_next_idle_wait);
        let step = step.stage.step(&mut imap, Outcome::Done);
        assert!(!imap.skip_next_idle_wait);
        assert_eq!(step.note.unwrap().text(), text);
        assert!(matches!(step.action, Action::Terminate { secs: s } if s == secs));
    }
}

#[test]
fn secure_waits_are_repeated_240_times() {
    let mut imap = account(Some(Session::Secure(1)));
    let (mut step, _) = up_to_first_wait(&mut imap);
    let mut waits = 0;
    let mut steps = 5;
    loop {
        step = into_wait(&mut imap, step.stage);
        assert_eq!(step.note.is_some(), waits == 0);
        waits += 1;
        step = step.stage.step(&mut imap, Outcome::Timeout);
        assert!(matches!(step.action, Action::ReadClock));
        assert!(step.note.is_none());
        step = step.stage.step(&mut imap, Outcome::Elapsed(waits * 5));
        steps += 4;
        let text = step.note.as_ref().unwrap().text();
        match &step.action {
            Action::PrepareWait { secs } => {
                assert_eq!(*secs, 5);
                assert_eq!(
                    text,
                    format!("Idle wait - timeout, n: {:2}, diff: {:3}, secs: {} ", waits, 5, waits * 5)
                );
            }
            Action::Terminate { secs } => {
                assert_eq!(*secs, 10);
                assert_eq!(
                    text,
                    "Idle wait - timeout, n: 241, diff:   5, secs: 1205, *** end *** reached"
                );
                break;
            }
            _ => panic!("neither repeated nor ended"),
        }
    }
    assert_eq!(waits, 241);
    let step = step.stage.step(&mut imap, Outcome::Terminated(Session::Secure(1)));
    assert!(result(step.stage.step(&mut imap, Outcome::Done)).is_ok());
    steps += 2;
    assert_eq!(steps, 971);
}

#[test]
fn time_limit_ends_secure_waits() {
    for (secs, end) in [(660u64, false), (661, true)] {
        let mut imap = account(Some(Session::Secure(1)));
        imap.max_timeout_duration = 660;
        let (step, notes) = up_to_first_wait(&mut imap);
        assert!(notes[0].ends_with("max_timeout_duration: 660"));
        let step = into_wait(&mut imap, step.stage);
        let step = step.stage.step(&mut imap, Outcome::Timeout);
        let step = step.stage.step(&mut imap, Outcome::Elapsed(secs));
        assert_eq!(matches!(step.action, Action::Terminate { .. }), end);
        assert!(matches!(
            step.note,
            Some(Note::SecureTimeout { n: 1, end: e, .. }) if e == end
        ));
    }
}

fn terminated_with(session: Session<u32, u64>, outcome: Outcome<u32, u64>) -> (Account, Option<String>, Error) {
    let mut imap = account(Some(session));
    let (step, _) = up_to_first_wait(&mut imap);
    let step = into_wait(&mut imap, step.stage);
    let step = step.stage.step(&mut imap, Outcome::ManualInterrupt);
    let step = step.stage.step(&mut imap, outcome);
    let note = step.note.as_ref().map(|n| n.text());
    let step = match step.action {
        Action::Continue => {
            // the note comes before the limit is shortened
            assert_eq!(imap.max_timeout_duration, 1260);
            step.stage.step(&mut imap, Outcome::Done)
        }
        _ => Step { note: None, ..step },
    };
    assert!(step.note.is_none());
    assert!(matches!(step.action, Action::TriggerReconnect));
    let error = result(step.stage.step(&mut imap, Outcome::Done)).unwrap_err();
    (imap, note, error)
}

#[test]
fn failed_termination_reconnects_and_shortens() {
    let (imap, note, error) =
        terminated_with(Session::Secure(1), Outcome::TerminateFailed(cause("gone")));
    assert_eq!(
        note.unwrap(),
        "Idle wait - IdleProtocolFailed: triggering reconnect, err: gone"
    );
    assert!(matches!(error, Error::IdleProtocolFailed(c) if c.text == "gone"));
    assert_eq!(imap.max_timeout_duration, 660);
    assert!(imap.session.is_none());

    let (imap, note, error) =
        terminated_with(Session::Insecure(1), Outcome::TerminateFailed(cause("gone")));
    assert!(note.is_none());
    assert!(matches!(error, Error::IdleProtocolFailed(_)));
    assert_eq!(imap.max_timeout_duration, 1260);
    assert!(imap.session.is_none());
}

#[test]
fn slow_termination_reconnects() {
    let (imap, note, error) =
        terminated_with(Session::Secure(1), Outcome::TerminateTimedOut(cause("late")));
    assert_eq!(
        note.unwrap(),
        "Idle wait - timeout in terminating idle: triggering reconnect"
    );
    assert_eq!(error.describe(), "IMAP IDLE protocol timed out");
    assert!(matches!(error, Error::IdleTimeout(c) if c.text == "late"));
    assert_eq!(imap.max_timeout_duration, 1260);
    assert!(imap.session.is_none());

    let (_, note, error) =
        terminated_with(Session::Insecure(1), Outcome::TerminateTimedOut(cause("late")));
    assert!(note.is_none());
    assert!(matches!(error, Error::IdleTimeout(_)));
}

#[test]
fn failed_run_shortens_the_next_one() {
    let (mut imap, _, _) =
        terminated_with(Session::Secure(1), Outcome::TerminateFailed(cause("gone")));
    imap.session = Some(Session::Secure(2));
    let (_, notes) = up_to_first_wait(&mut imap);
    assert!(notes[0].ends_with("max_timeout_duration: 660"));
}

#[test]
fn clock_may_be_set_back() {
    let mut imap = account(Some(Session::Secure(1)));
    let (step, _) = up_to_first_wait(&mut imap);
    let mut stage = step.stage;
    for (secs, diff) in [(5, 5), (3, u64::MAX - 1), (10, 7)] {
        let step = into_wait(&mut imap, stage);
        let step = step.stage.step(&mut imap, Outcome::Timeout);
        let step = step.stage.step(&mut imap, Outcome::Elapsed(secs));
        assert!(matches!(step.note, Some(Note::SecureTimeout { diff: d, .. }) if d == diff));
        assert!(matches!(step.action, Action::PrepareWait { .. }));
        stage = step.stage;
    }
}

#[test]
fn ended_run_leaves_its_source() {
    let mut imap = account(Some(Session::Insecure(1)));
    let (step, _) = up_to_first_wait(&mut imap);
    let step = into_wait(&mut imap, step.stage);
    let step = step.stage.step(&mut imap, Outcome::NewData("x".to_string()));
    assert!(result(step.stage.step(&mut imap, Outcome::Terminated(Session::Insecure(1)))).is_ok());
    assert!(imap.interrupt.is_some());
    let step = imap.interrupt_idle();
    step.stage.step(&mut imap);
    assert!(!imap.skip_next_idle_wait);
}
