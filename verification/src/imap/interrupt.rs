//! Interrupting a wait from another thread.

use vstd::prelude::*;
use crate::imap::notes::Note;
use crate::imap::Imap;

verus! {

/// Milliseconds between taking the stop source of a wait and dropping it: the
/// waiting thread might not have entered its wait yet.
pub const GRACE_MILLIS: u64 = 200;

/// Where an interruption stands.
pub enum InterruptStage {
    /// No wait could be ended, and the next one is about to be forbidden.
    RequestingSkip,
    /// Meanwhile a wait may have begun.
    TakingAgain,
    /// A wait is about to be ended.
    Holding(stop_token::StopSource),
    /// The interruption is over.
    Finished,
}

/// What the caller has to do.
pub enum InterruptAction {
    /// Nothing: come back at once.
    Continue,
    /// Sleep for so many milliseconds.
    Sleep { millis: u64 },
    /// Drop the source, and return.
    Release(stop_token::StopSource),
    /// Return.
    Finish,
}

/// What comes next.
pub struct InterruptStep {
    pub stage: InterruptStage,
    /// Goes to the log before the action is taken.
    pub note: Option<Note>,
    pub action: InterruptAction,
}

/// The step after the place of the stop source was looked into.
pub open spec fn after_taking(
    found: Option<stop_token::StopSource>,
    otherwise: InterruptStage,
) -> InterruptStage {
    match found {
        Some(source) => InterruptStage::Holding(source),
        None => otherwise,
    }
}

impl InterruptStage {
    /// What a step leaves behind for other threads.
    pub open spec fn shared_after<S, I>(self, imap: Imap<S, I>) -> Imap<S, I> {
        match self {
            InterruptStage::RequestingSkip => Imap { skip_next_idle_wait: true, ..imap },
            InterruptStage::TakingAgain => Imap { interrupt: None, ..imap },
            _ => imap,
        }
    }

    /// Where a step leads.
    pub open spec fn stage_after<S, I>(self, imap: Imap<S, I>) -> InterruptStage {
        match self {
            InterruptStage::RequestingSkip => InterruptStage::TakingAgain,
            InterruptStage::TakingAgain => after_taking(imap.interrupt, InterruptStage::Finished),
            _ => InterruptStage::Finished,
        }
    }

    /// What a step asks of the caller.
    pub open spec fn action_after<S, I>(self, imap: Imap<S, I>) -> InterruptAction {
        match (self, self.stage_after(imap)) {
            (InterruptStage::Holding(source), _) => InterruptAction::Release(source),
            (_, InterruptStage::Holding(_)) => InterruptAction::Sleep { millis: GRACE_MILLIS },
            (_, InterruptStage::Finished) => InterruptAction::Finish,
            _ => InterruptAction::Continue,
        }
    }

    /// What a step writes to the log.
    pub open spec fn note_after(self) -> Option<Note> {
        match self {
            InterruptStage::Holding(_) => Some(Note::DroppingSource),
            _ => None,
        }
    }

    /// Goes on with an interruption.
    pub fn step<S, I>(self, imap: &mut Imap<S, I>) -> (r: InterruptStep)
        requires
            !(self is Finished),
        ensures
            r.stage == self.stage_after(*old(imap)),
            r.action == self.action_after(*old(imap)),
            r.note == self.note_after(),
            *final(imap) == self.shared_after(*old(imap)),
    {
        match self {
            InterruptStage::RequestingSkip => {
                imap.skip_next_idle_wait = true;
                InterruptStep {
                    stage: InterruptStage::TakingAgain,
                    note: None,
                    action: InterruptAction::Continue,
                }
            },
            InterruptStage::TakingAgain => match imap.interrupt.take() {
                Some(source) => InterruptStep {
                    stage: InterruptStage::Holding(source),
                    note: None,
                    action: InterruptAction::Sleep { millis: GRACE_MILLIS },
                },
                None => InterruptStep {
                    stage: InterruptStage::Finished,
                    note: None,
                    action: InterruptAction::Finish,
                },
            },
            InterruptStage::Holding(source) => InterruptStep {
                stage: InterruptStage::Finished,
                note: Some(Note::DroppingSource),
                action: InterruptAction::Release(source),
            },
            InterruptStage::Finished => InterruptStep {
                stage: InterruptStage::Finished,
                note: None,
                action: InterruptAction::Finish,
            },
        }
    }
}

impl<S, I> Imap<S, I> {
    /// Begins an interruption: takes the stop source of the wait that is going on,
    /// if there is one.
    pub fn interrupt_idle(&mut self) -> (r: InterruptStep)
        ensures
            r.stage == after_taking(old(self).interrupt, InterruptStage::RequestingSkip),
            r.action == (match old(self).interrupt {
                Some(_) => InterruptAction::Sleep { millis: GRACE_MILLIS },
                None => InterruptAction::Continue,
            }),
            r.note is None,
            *final(self) == (Imap { interrupt: None, ..*old(self) }),
    {
        match self.interrupt.take() {
            Some(source) => InterruptStep {
                stage: InterruptStage::Holding(source),
                note: None,
                action: InterruptAction::Sleep { millis: GRACE_MILLIS },
            },
            None => InterruptStep {
                stage: InterruptStage::RequestingSkip,
                note: None,
                action: InterruptAction::Continue,
            },
        }
    }
}

} // verus!
