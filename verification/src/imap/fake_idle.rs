//! Waiting for new messages by polling, for servers that cannot idle, and for the
//! time in which there is no server yet.
//!
//! A run is made of stages, actions and outcomes, as with the IDLE command.

use vstd::prelude::*;
use crate::cause::Cause;
use crate::imap::notes::Note;
use crate::imap::Imap;

verus! {

/// Seconds between two looks for new messages.
pub const POLL_SECS: u64 = 300;

/// The token of a stop source.
pub uninterp spec fn token_of(source: stop_token::StopSource) -> stop_token::StopToken;

/// `stop_token::StopSource::new` makes a new source. Nothing is claimed of it, for
/// a source has nothing to be read.
pub assume_specification[ stop_token::StopSource::new ]() -> (r: stop_token::StopSource);

/// `stop_token::StopSource::stop_token` hands out a token, which notices when the
/// source is dropped. Claimed of it: the token is that of this source, the same at
/// every call.
pub assume_specification[ stop_token::StopSource::stop_token ](
    source: &stop_token::StopSource,
) -> (r: stop_token::StopToken)
    ensures
        r == token_of(*source),
;

/// Where a run stands.
pub enum FakeStage {
    /// The clock is being started.
    StartingClock {
        source: stop_token::StopSource,
        token: stop_token::StopToken,
        watch_folder: Option<String>,
    },
    /// Ticks are being started, and others are about to get a way to stop them.
    Publishing { source: stop_token::StopSource, watch_folder: Option<String> },
    /// Ticks can be stopped by others; was the run interrupted before?
    CheckingSkip { watch_folder: Option<String> },
    /// It was.
    ClearingSkip,
    /// The next tick is awaited.
    Ticking { watch_folder: Option<String> },
    /// A connection is being made.
    Connecting { watch_folder: Option<String> },
    /// There is a connection; can its server idle?
    CheckingIdle { watch_folder: Option<String> },
    /// Messages are being looked for.
    Fetching { watch_folder: Option<String> },
    /// A new connection is being asked for.
    Reconnecting { watch_folder: Option<String> },
    /// The way to stop ticks is about to be withdrawn.
    Withdrawing,
    /// The time is being read.
    ReadingClock,
    /// The run is over.
    Finished,
}

/// What the caller has to do.
pub enum FakeAction {
    /// Nothing: come back at once.
    Continue,
    /// Remember the time.
    StartClock,
    /// Start ticks, so many seconds apart, until the token is stopped.
    StartTicks { token: stop_token::StopToken, secs: u64 },
    /// Wait for the next tick.
    NextTick,
    /// Connect with proper login parameters.
    ConnectConfigured,
    /// Look for new messages in this folder.
    FetchNewMessages(String),
    /// See to it that a new connection is made.
    TriggerReconnect,
    /// Read the time since the clock was started.
    ReadClock,
    /// Return.
    Finish,
}

/// What came of an action.
pub enum FakeOutcome {
    /// It is done.
    Done,
    /// There was a tick.
    Tick,
    /// There are no more ticks.
    Stopped,
    /// There is no connection.
    ConnectFailed(Cause),
    /// Looked for messages, and found some or none.
    Fetched(bool),
    /// Could not look for messages.
    FetchFailed(Cause),
    /// Seconds since the clock was started, with their thousandths, as text.
    Elapsed(String),
}

/// What comes next.
pub struct FakeStep {
    pub stage: FakeStage,
    /// Goes to the log before the action is taken.
    pub note: Option<Note>,
    pub action: FakeAction,
}

impl FakeStage {
    /// The folder to look into, where the stage still knows it.
    pub open spec fn folder(self) -> Option<String> {
        match self {
            FakeStage::StartingClock { watch_folder, .. } => watch_folder,
            FakeStage::Publishing { watch_folder, .. } => watch_folder,
            FakeStage::CheckingSkip { watch_folder } => watch_folder,
            FakeStage::Ticking { watch_folder } => watch_folder,
            FakeStage::Connecting { watch_folder } => watch_folder,
            FakeStage::CheckingIdle { watch_folder } => watch_folder,
            FakeStage::Fetching { watch_folder } => watch_folder,
            FakeStage::Reconnecting { watch_folder } => watch_folder,
            _ => None,
        }
    }

    /// Whether an outcome is one of those that the stage's action can have.
    pub open spec fn answered_by(self, outcome: FakeOutcome) -> bool {
        match self {
            FakeStage::Ticking { .. } => outcome is Tick || outcome is Stopped,
            FakeStage::Connecting { .. } => outcome is Done || outcome is ConnectFailed,
            FakeStage::Fetching { .. } => outcome is Fetched || outcome is FetchFailed,
            FakeStage::ReadingClock => outcome is Elapsed,
            FakeStage::Finished => false,
            _ => outcome is Done,
        }
    }

    /// What a step leaves behind for other threads.
    pub open spec fn shared_after<S, I>(self, imap: Imap<S, I>) -> Imap<S, I> {
        match self {
            FakeStage::Publishing { source, .. } => Imap { interrupt: Some(source), ..imap },
            FakeStage::ClearingSkip => Imap { skip_next_idle_wait: false, ..imap },
            FakeStage::Withdrawing => Imap { interrupt: None, ..imap },
            _ => imap,
        }
    }

    /// Where a step leads.
    pub open spec fn stage_after<S, I>(self, imap: Imap<S, I>, outcome: FakeOutcome) -> FakeStage {
        let watch_folder = self.folder();
        match (self, outcome) {
            (FakeStage::StartingClock { source, .. }, _) => FakeStage::Publishing {
                source,
                watch_folder,
            },
            (FakeStage::Publishing { .. }, _) => FakeStage::CheckingSkip { watch_folder },
            (FakeStage::CheckingSkip { .. }, _) => if imap.skip_next_idle_wait {
                FakeStage::ClearingSkip
            } else {
                FakeStage::Ticking { watch_folder }
            },
            (FakeStage::ClearingSkip, _) => FakeStage::Withdrawing,
            (FakeStage::Ticking { .. }, FakeOutcome::Tick) => FakeStage::Connecting { watch_folder },
            (FakeStage::Ticking { .. }, _) => FakeStage::Withdrawing,
            (FakeStage::Connecting { .. }, FakeOutcome::Done) => FakeStage::CheckingIdle {
                watch_folder,
            },
            (FakeStage::Connecting { .. }, _) => FakeStage::Ticking { watch_folder },
            (FakeStage::CheckingIdle { .. }, _) => if imap.config.can_idle {
                FakeStage::Withdrawing
            } else if watch_folder is Some {
                FakeStage::Fetching { watch_folder }
            } else {
                FakeStage::Ticking { watch_folder }
            },
            (FakeStage::Fetching { .. }, FakeOutcome::Fetched(true)) => FakeStage::Withdrawing,
            (FakeStage::Fetching { .. }, FakeOutcome::FetchFailed(_)) => FakeStage::Reconnecting {
                watch_folder,
            },
            (FakeStage::Fetching { .. }, _) => FakeStage::Ticking { watch_folder },
            (FakeStage::Reconnecting { .. }, _) => FakeStage::Ticking { watch_folder },
            (FakeStage::Withdrawing, _) => FakeStage::ReadingClock,
            _ => FakeStage::Finished,
        }
    }

    /// What a step asks of the caller.
    pub open spec fn action_after<S, I>(self, imap: Imap<S, I>, outcome: FakeOutcome) -> FakeAction {
        match self.stage_after(imap, outcome) {
            FakeStage::Publishing { .. } => FakeAction::StartTicks {
                token: self->token,
                secs: POLL_SECS,
            },
            FakeStage::Ticking { .. } => FakeAction::NextTick,
            FakeStage::Connecting { .. } => FakeAction::ConnectConfigured,
            FakeStage::Fetching { .. } => FakeAction::FetchNewMessages(self.folder()->0),
            FakeStage::Reconnecting { .. } => FakeAction::TriggerReconnect,
            FakeStage::ReadingClock => FakeAction::ReadClock,
            FakeStage::Finished => FakeAction::Finish,
            _ => FakeAction::Continue,
        }
    }

    /// What a step writes to the log.
    pub open spec fn note_after<S, I>(self, imap: Imap<S, I>, outcome: FakeOutcome) -> Option<Note> {
        match (self, outcome) {
            (FakeStage::StartingClock { .. }, _) => Some(Note::FakeIdling),
            (FakeStage::ClearingSkip, _) => Some(Note::FakeSkipped),
            (FakeStage::Connecting { .. }, FakeOutcome::ConnectFailed(cause)) => Some(
                Note::FakeConnectFailed(cause),
            ),
            (FakeStage::CheckingIdle { .. }, _) => if imap.config.can_idle {
                None
            } else {
                Some(Note::FakeConnected)
            },
            (FakeStage::Fetching { .. }, FakeOutcome::Fetched(found)) => Some(Note::Fetched(found)),
            (FakeStage::Fetching { .. }, FakeOutcome::FetchFailed(cause)) => Some(
                Note::FetchFailed(cause),
            ),
            (FakeStage::ReadingClock, FakeOutcome::Elapsed(secs)) => Some(Note::FakeDone(secs)),
            _ => None,
        }
    }

    /// Begins a run that a source can stop.
    pub fn begin(
        source: stop_token::StopSource,
        token: stop_token::StopToken,
        watch_folder: Option<String>,
    ) -> (r: FakeStep)
        ensures
            r == (FakeStep {
                stage: FakeStage::StartingClock { source, token, watch_folder },
                note: None,
                action: FakeAction::StartClock,
            }),
    {
        FakeStep {
            stage: FakeStage::StartingClock { source, token, watch_folder },
            note: None,
            action: FakeAction::StartClock,
        }
    }

    /// Takes a run one step further.
    pub fn step<S, I>(self, imap: &mut Imap<S, I>, outcome: FakeOutcome) -> (r: FakeStep)
        requires
            self.answered_by(outcome),
        ensures
            r.stage == self.stage_after(*old(imap), outcome),
            r.action == self.action_after(*old(imap), outcome),
            r.note == self.note_after(*old(imap), outcome),
            *final(imap) == self.shared_after(*old(imap)),
    {
        match (self, outcome) {
            (FakeStage::StartingClock { source, token, watch_folder }, _) => FakeStep {
                stage: FakeStage::Publishing { source, watch_folder },
                note: Some(Note::FakeIdling),
                action: FakeAction::StartTicks { token, secs: POLL_SECS },
            },
            (FakeStage::Publishing { source, watch_folder }, _) => {
                imap.interrupt = Some(source);
                FakeStep {
                    stage: FakeStage::CheckingSkip { watch_folder },
                    note: None,
                    action: FakeAction::Continue,
                }
            },
            (FakeStage::CheckingSkip { watch_folder }, _) => {
                if imap.skip_next_idle_wait {
                    // interrupt_idle has happened before we provided the source
                    FakeStep {
                        stage: FakeStage::ClearingSkip,
                        note: None,
                        action: FakeAction::Continue,
                    }
                } else {
                    await_tick(watch_folder, None)
                }
            },
            (FakeStage::ClearingSkip, _) => {
                imap.skip_next_idle_wait = false;
                withdraw(Some(Note::FakeSkipped))
            },
            (FakeStage::Ticking { watch_folder }, FakeOutcome::Tick) => FakeStep {
                stage: FakeStage::Connecting { watch_folder },
                note: None,
                action: FakeAction::ConnectConfigured,
            },
            (FakeStage::Ticking { .. }, _) => withdraw(None),
            (FakeStage::Connecting { watch_folder }, FakeOutcome::ConnectFailed(cause)) => {
                await_tick(watch_folder, Some(Note::FakeConnectFailed(cause)))
            },
            (FakeStage::Connecting { watch_folder }, _) => FakeStep {
                stage: FakeStage::CheckingIdle { watch_folder },
                note: None,
                action: FakeAction::Continue,
            },
            (FakeStage::CheckingIdle { watch_folder }, _) => {
                if imap.can_idle() {
                    // we only fake-idled because network was gone during IDLE, probably
                    withdraw(None)
                } else {
                    // we are connected, let's see if fetching messages results in
                    // anything
                    match watch_folder {
                        Some(folder) => {
                            let action = FakeAction::FetchNewMessages(folder.clone());
                            FakeStep {
                                stage: FakeStage::Fetching { watch_folder: Some(folder) },
                                note: Some(Note::FakeConnected),
                                action,
                            }
                        },
                        None => await_tick(None, Some(Note::FakeConnected)),
                    }
                }
            },
            (FakeStage::Fetching { watch_folder }, FakeOutcome::Fetched(found)) => {
                if found {
                    withdraw(Some(Note::Fetched(found)))
                } else {
                    await_tick(watch_folder, Some(Note::Fetched(found)))
                }
            },
            (FakeStage::Fetching { watch_folder }, FakeOutcome::FetchFailed(cause)) => FakeStep {
                stage: FakeStage::Reconnecting { watch_folder },
                note: Some(Note::FetchFailed(cause)),
                action: FakeAction::TriggerReconnect,
            },
            (FakeStage::Reconnecting { watch_folder }, _) => await_tick(watch_folder, None),
            (FakeStage::Withdrawing, _) => {
                imap.interrupt = None;
                FakeStep {
                    stage: FakeStage::ReadingClock,
                    note: None,
                    action: FakeAction::ReadClock,
                }
            },
            (FakeStage::ReadingClock, FakeOutcome::Elapsed(secs)) => FakeStep {
                stage: FakeStage::Finished,
                note: Some(Note::FakeDone(secs)),
                action: FakeAction::Finish,
            },
            _ => FakeStep {
                stage: FakeStage::Finished,
                note: None,
                action: FakeAction::Finish,
            },
        }
    }
}

/// The step into waiting for a tick.
fn await_tick(watch_folder: Option<String>, note: Option<Note>) -> (r: FakeStep)
    ensures
        r == (FakeStep {
            stage: FakeStage::Ticking { watch_folder },
            note,
            action: FakeAction::NextTick,
        }),
{
    FakeStep { stage: FakeStage::Ticking { watch_folder }, note, action: FakeAction::NextTick }
}

/// The step out of polling.
fn withdraw(note: Option<Note>) -> (r: FakeStep)
    ensures
        r == (FakeStep { stage: FakeStage::Withdrawing, note, action: FakeAction::Continue }),
{
    FakeStep { stage: FakeStage::Withdrawing, note, action: FakeAction::Continue }
}

impl<S, I> Imap<S, I> {
    /// Begins a run: waits for new messages in a folder, by polling. This is also
    /// needed if the account is not yet configured - in this case, it waits for a
    /// configuration (and an interruption).
    ///
    /// The run has a stop source of its own. Which one is not said: a source is
    /// made anew at every call.
    pub fn fake_idle(&self, watch_folder: Option<String>) -> (r: FakeStep)
        ensures
            r.stage matches FakeStage::StartingClock { source, token, watch_folder: folder }
                && token == token_of(source) && folder == watch_folder,
            r.note is None,
            r.action is StartClock,
    {
        let source = stop_token::StopSource::new();
        let token = source.stop_token();
        FakeStage::begin(source, token, watch_folder)
    }
}

} // verus!
