use async_std::future::timeout;
use async_std::task::block_on;
use mail_session::events::Event;
use mail_session::imap::idle::{Action, Outcome, Stage, Wait};
use mail_session::imap::interrupt::{InterruptAction, InterruptStage};
use mail_session::imap::{Imap, ImapConfig, Security};
use std::time::Duration;
use stop_token::{StopSource, StopToken};

type Account = Imap<u32, u64>;

fn account() -> Account {
    Imap {
        config: ImapConfig { can_idle: true },
        session: None,
        interrupt: None,
        skip_next_idle_wait: false,
        max_timeout_duration: 1260,
    }
}

fn is_stopped(token: StopToken) -> bool {
    block_on(timeout(Duration::from_millis(20), token)).is_ok()
}

#[test]
fn wait_that_goes_on_is_ended() {
    let mut imap = account();
    let source = StopSource::new();
    let token = source.stop_token();
    imap.interrupt = Some(source);
    let step = imap.interrupt_idle();
    assert!(imap.interrupt.is_none());
    assert!(!imap.skip_next_idle_wait);
    assert!(step.note.is_none());
    assert!(matches!(step.action, InterruptAction::Sleep { millis: 200 }));
    assert!(!is_stopped(token.clone()));
    let step = step.stage.step(&mut imap);
    let note = step.note.unwrap();
    assert_eq!(note.text(), "low-level: dropping stop-source to interrupt idle");
    assert!(matches!(note.report("t", "f", 1), Event::Info(_)));
    match step.action {
        InterruptAction::Release(source) => drop(source),
        _ => panic!("nothing released"),
    }
    assert!(is_stopped(token));
    assert!(matches!(step.stage, InterruptStage::Finished));
    assert!(!imap.skip_next_idle_wait);
}

#[test]
fn next_wait_is_forbidden_where_none_goes_on() {
    let mut imap = account();
    let step = imap.interrupt_idle();
    assert!(matches!(step.action, InterruptAction::Continue));
    assert!(!imap.skip_next_idle_wait);
    let step = step.stage.step(&mut imap);
    assert!(imap.skip_next_idle_wait);
    assert!(matches!(step.action, InterruptAction::Continue));
    let step = step.stage.step(&mut imap);
    assert!(matches!(step.action, InterruptAction::Finish));
    assert!(matches!(step.stage, InterruptStage::Finished));
}

#[test]
fn wait_that_began_meanwhile_is_ended() {
    let mut imap = account();
    let step = imap.interrupt_idle();
    let step = step.stage.step(&mut imap);
    imap.interrupt = Some(StopSource::new());
    let step = step.stage.step(&mut imap);
    assert!(imap.interrupt.is_none());
    assert!(matches!(step.action, InterruptAction::Sleep { millis: 200 }));
    assert!(matches!(step.stage, InterruptStage::Holding(_)));
    assert!(imap.skip_next_idle_wait);
}

/// Lets a waiting and an interrupting thread take turns as `order` says (the bits,
/// lowest first: 1 is the waiting thread), and tells how it came out: whether the
/// thread waits, and whether its source was dropped.
fn meet(order: u32) -> (bool, bool) {
    let mut imap = account();
    let wait = Wait {
        security: Security::Secure,
        max_timeout_duration: 1260,
        n: 1,
        timeout_last_dur: 0,
    };
    let mut waiter: Option<Stage<u32, u64>> = Some(Stage::Arming(wait));
    let mut token = None;
    let mut waits = false;
    let mut interrupter = Some(imap.interrupt_idle().stage);
    let mut turns = order;
    while waiter.is_some() || interrupter.is_some() {
        let waiter_first = turns & 1 == 1;
        turns >>= 1;
        if waiter.is_some() && (waiter_first || interrupter.is_none()) {
            let stage = waiter.take().unwrap();
            let outcome = match &stage {
                Stage::Arming(_) => {
                    let source = StopSource::new();
                    token = Some(source.stop_token());
                    Outcome::Armed(source)
                }
                _ => Outcome::Done,
            };
            let step = stage.step(&mut imap, outcome);
            match step.action {
                Action::Await => waits = true,
                Action::Terminate { .. } => {}
                _ => waiter = Some(step.stage),
            }
        } else if let Some(stage) = interrupter.take() {
            let step = stage.step(&mut imap);
            match step.action {
                InterruptAction::Release(source) => drop(source),
                InterruptAction::Finish => {}
                _ => interrupter = Some(step.stage),
            }
        }
    }
    (waits, is_stopped(token.unwrap()))
}

#[test]
fn no_order_loses_an_interruption() {
    let mut ways = [false; 2];
    for order in 0..64 {
        let (waits, stopped) = meet(order);
        assert!(!waits || stopped);
        ways[waits as usize] = true;
    }
    assert_eq!(ways, [true, true]);
}
