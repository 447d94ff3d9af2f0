use async_std::future::timeout;
use async_std::task::block_on;
use mail_session::cause::Cause;
use mail_session::events::Event;
use mail_session::imap::fake_idle::{FakeAction, FakeOutcome, FakeStage, FakeStep};
use mail_session::imap::notes::Level;
use mail_session::imap::{Imap, ImapConfig};
use std::time::Duration;
use stop_token::StopToken;

type Account = Imap<(), ()>;

fn account() -> Account {
    Imap {
        config: ImapConfig { can_idle: false },
        session: None,
        interrupt: None,
        skip_next_idle_wait: false,
        max_timeout_duration: 0,
    }
}

fn cause(text: &str) -> Cause {
    Cause { text: text.to_string() }
}

/// Runs up to the point where the source is in place.
fn published(imap: &mut Account, folder: Option<&str>) -> (FakeStep, StopToken) {
    let step = imap.fake_idle(folder.map(|f| f.to_string()));
    assert!(step.note.is_none());
    assert!(matches!(step.action, FakeAction::StartClock));
    let step = step.stage.step(imap, FakeOutcome::Done);
    assert_eq!(step.note.unwrap().text(), "IMAP-fake-IDLEing...");
    let token = match step.action {
        FakeAction::StartTicks { token, secs } => {
            assert_eq!(secs, 300);
            token
        }
        _ => panic!("no ticks"),
    };
    assert!(imap.interrupt.is_none());
    let step = step.stage.step(imap, FakeOutcome::Done);
    assert!(imap.interrupt.is_some());
    assert!(matches!(step.action, FakeAction::Continue));
    (step, token)
}

fn ticking(imap: &mut Account, folder: Option<&str>) -> FakeStage {
    let (step, _) = published(imap, folder);
    let step = step.stage.step(imap, FakeOutcome::Done);
    assert!(step.note.is_none());
    assert!(matches!(step.action, FakeAction::NextTick));
    step.stage
}

/// Checks that a run takes its source back, reports the time and ends.
fn ends(imap: &mut Account, step: FakeStep) {
    assert!(matches!(step.action, FakeAction::Continue));
    let step = step.stage.step(imap, FakeOutcome::Done);
    assert!(imap.interrupt.is_none());
    assert!(matches!(step.action, FakeAction::ReadClock));
    let step = step.stage.step(imap, FakeOutcome::Elapsed("12.345".to_string()));
    assert_eq!(step.note.unwrap().text(), "IMAP-fake-IDLE done after 12.345s");
    assert!(matches!(step.action, FakeAction::Finish));
    assert!(matches!(step.stage, FakeStage::Finished));
}

#[test]
fn token_belongs_to_the_source() {
    let mut imap = account();
    let (_, token) = published(&mut imap, None);
    let pending = block_on(timeout(Duration::from_millis(50), token.clone()));
    assert!(pending.is_err());
    imap.interrupt = None;
    let stopped = block_on(timeout(Duration::from_millis(5000), token));
    assert!(stopped.is_ok());
}

#[test]
fn request_prevents_polling() {
    let mut imap = account();
    imap.skip_next_idle_wait = true;
    let (step, _) = published(&mut imap, Some("INBOX"));
    let step = step.stage.step(&mut imap, FakeOutcome::Done);
    assert!(matches!(step.action, FakeAction::Continue));
    assert!(imap.skip_next_idle_wait);
    let step = step.stage.step(&mut imap, FakeOutcome::Done);
    assert!(!imap.skip_next_idle_wait);
    assert_eq!(step.note.as_ref().unwrap().text(), "fake_idle: wait was skipped");
    ends(&mut imap, step);
}

#[test]
fn stop_ends_polling() {
    let mut imap = account();
    let stage = ticking(&mut imap, Some("INBOX"));
    let step = stage.step(&mut imap, FakeOutcome::Stopped);
    assert!(step.note.is_none());
    ends(&mut imap, step);
}

#[test]
fn polling_survives_failures_and_ends_with_messages() {
    let mut imap = account();
    let stage = ticking(&mut imap, Some("INBOX"));

    // no connection: try again at the next tick
    let step = stage.step(&mut imap, FakeOutcome::Tick);
    assert!(matches!(step.action, FakeAction::ConnectConfigured));
    let step = step.stage.step(&mut imap, FakeOutcome::ConnectFailed(cause("no route")));
    let note = step.note.unwrap();
    assert_eq!(note.text(), "fake_idle: could not connect: no route");
    assert_eq!(note.level(), Level::Warning);
    assert!(matches!(step.action, FakeAction::NextTick));

    // a failed fetch: reconnect, and try again at the next tick
    let step = step.stage.step(&mut imap, FakeOutcome::Tick);
    let step = step.stage.step(&mut imap, FakeOutcome::Done);
    assert!(matches!(step.action, FakeAction::Continue));
    let step = step.stage.step(&mut imap, FakeOutcome::Done);
    assert_eq!(step.note.unwrap().text(), "fake_idle: is connected");
    assert!(matches!(&step.action, FakeAction::FetchNewMessages(folder) if folder == "INBOX"));
    let step = step.stage.step(&mut imap, FakeOutcome::FetchFailed(cause("broken")));
    let note = step.note.unwrap();
    assert_eq!(note.text(), "could not fetch from folder: broken");
    assert!(matches!(note.report("t", "f", 1), Event::Error(text) if text == note.text()));
    assert!(matches!(step.action, FakeAction::TriggerReconnect));
    let step = step.stage.step(&mut imap, FakeOutcome::Done);
    assert!(matches!(step.action, FakeAction::NextTick));

    // nothing new, then something
    let mut stage = step.stage;
    for found in [false, true] {
        let step = stage.step(&mut imap, FakeOutcome::Tick);
        let step = step.stage.step(&mut imap, FakeOutcome::Done);
        let step = step.stage.step(&mut imap, FakeOutcome::Done);
        assert!(matches!(&step.action, FakeAction::FetchNewMessages(folder) if folder == "INBOX"));
        let step = step.stage.step(&mut imap, FakeOutcome::Fetched(found));
        assert_eq!(
            step.note.as_ref().unwrap().text(),
            format!("fetch_new_messages returned {:?}", found)
        );
        if found {
            ends(&mut imap, step);
            return;
        }
        assert!(matches!(step.action, FakeAction::NextTick));
        stage = step.stage;
    }
}

#[test]
fn server_that_can_idle_ends_polling() {
    let mut imap = account();
    let stage = ticking(&mut imap, Some("INBOX"));
    imap.config.can_idle = true;
    let step = stage.step(&mut imap, FakeOutcome::Tick);
    let step = step.stage.step(&mut imap, FakeOutcome::Done);
    let step = step.stage.step(&mut imap, FakeOutcome::Done);
    assert!(step.note.is_none());
    ends(&mut imap, step);
}

#[test]
fn nothing_is_fetched_without_a_folder() {
    let mut imap = account();
    let stage = ticking(&mut imap, None);
    let step = stage.step(&mut imap, FakeOutcome::Tick);
    let step = step.stage.step(&mut imap, FakeOutcome::Done);
    let step = step.stage.step(&mut imap, FakeOutcome::Done);
    assert_eq!(step.note.unwrap().text(), "fake_idle: is connected");
    assert!(matches!(step.action, FakeAction::NextTick));
}
