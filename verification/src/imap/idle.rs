//! Waiting for new messages with the IMAP IDLE command.
//!
//! A run is a sequence of stages. In each stage the caller has something to do
//! outside (an action) and comes back with what happened (an outcome); `step` then
//! says what comes next. A step touches what threads share once at most, so that
//! other threads may come in between any two steps.

use vstd::prelude::*;
use crate::cause::Cause;
use crate::imap;
use crate::imap::notes::Note;
use crate::imap::select_folder;
use crate::imap::{Imap, Security, Session};

verus! {

/// How often a secure wait is repeated at most: 20 minutes of 5 seconds each.
pub const MAX_LOOP: i32 = 240;

/// Seconds after which a secure wait is given up, as a rule. The count of the
/// loops alone is not reliable.
pub const MAX_IDLE_DUR_LONG: u64 = 21 * 60;

/// Seconds after which a secure wait is given up, once the server or the network
/// was found dead at its end.
pub const MAX_IDLE_DUR_SHORT: u64 = 11 * 60;

/// Seconds that a single wait takes at most.
pub const WAIT_SECS: u64 = 5;

/// Seconds that a secure connection has for ending to idle.
pub const SECURE_DONE_SECS: u64 = 10;

/// Seconds that an insecure connection has for ending to idle.
pub const INSECURE_DONE_SECS: u64 = 15;

/// Why waiting failed.
#[derive(Debug)]
pub enum Error {
    /// IMAP IDLE protocol failed to init/complete
    IdleProtocolFailed(Cause),
    /// IMAP IDLE protocol timed out
    IdleTimeout(Cause),
    /// IMAP server does not have IDLE capability
    IdleAbilityMissing,
    /// IMAP select folder error
    SelectFolderError(select_folder::Error),
    /// Setup handle error
    SetupHandleError(imap::Error),
}

impl From<select_folder::Error> for Error {
    fn from(err: select_folder::Error) -> (r: Error) {
        Error::SelectFolderError(err)
    }
}

impl vstd::std_specs::convert::FromSpecImpl<select_folder::Error> for Error {
    open spec fn obeys_from_spec() -> bool {
        true
    }

    open spec fn from_spec(err: select_folder::Error) -> Error {
        Error::SelectFolderError(err)
    }
}

impl Error {
    /// The words for the error.
    pub open spec fn words(self) -> Seq<char> {
        match self {
            Error::IdleProtocolFailed(_) => "IMAP IDLE protocol failed to init/complete"@,
            Error::IdleTimeout(_) => "IMAP IDLE protocol timed out"@,
            Error::IdleAbilityMissing => "IMAP server does not have IDLE capability"@,
            Error::SelectFolderError(_) => "IMAP select folder error"@,
            Error::SetupHandleError(_) => "Setup handle error"@,
        }
    }

    /// Puts the error into words.
    pub fn describe(&self) -> (r: String)
        ensures
            r@ == self.words(),
    {
        match self {
            Error::IdleProtocolFailed(_) => "IMAP IDLE protocol failed to init/complete".to_owned(),
            Error::IdleTimeout(_) => "IMAP IDLE protocol timed out".to_owned(),
            Error::IdleAbilityMissing => "IMAP server does not have IDLE capability".to_owned(),
            Error::SelectFolderError(_) => "IMAP select folder error".to_owned(),
            Error::SetupHandleError(_) => "Setup handle error".to_owned(),
        }
    }
}

/// A connection on its way into idling.
pub enum IdleHandle<S, I> {
    Secure(S),
    Insecure(I),
}

/// The handle for a connection.
pub open spec fn handle_for<S, I>(session: Session<S, I>) -> IdleHandle<S, I> {
    match session {
        Session::Secure(s) => IdleHandle::Secure(s),
        Session::Insecure(i) => IdleHandle::Insecure(i),
    }
}

impl<S, I> Session<S, I> {
    /// Gives the connection away for idling.
    pub fn idle(self) -> (r: IdleHandle<S, I>)
        ensures
            r == handle_for(self),
    {
        match self {
            Session::Secure(s) => IdleHandle::Secure(s),
            Session::Insecure(i) => IdleHandle::Insecure(i),
        }
    }
}

/// A wait within a run.
#[derive(Debug, Clone, Copy)]
pub struct Wait {
    pub security: Security,
    /// Seconds after which waiting is given up.
    pub max_timeout_duration: u64,
    /// Counts the waits of the run, from 1 on.
    pub n: i32,
    /// Seconds from the start of the run to the last timeout.
    pub timeout_last_dur: u64,
}

/// Where a run stands.
pub enum Stage<S, I> {
    /// The connection is being set up.
    SettingUp { watch_folder: Option<String> },
    /// The folder is being selected.
    SelectingFolder,
    /// The connection is about to be taken.
    TakingSession,
    /// The clock is being started.
    StartingClock { session: Option<Session<S, I>> },
    /// The server is asked to idle.
    EnteringIdle(Wait),
    /// A wait is being prepared.
    Arming(Wait),
    /// The wait can be ended by others; was it interrupted before?
    CheckingSkip(Wait),
    /// It was.
    ClearingSkip(Wait),
    /// The wait goes on.
    Waiting(Wait),
    /// The wait timed out, and the time is being read.
    ReadingClock(Wait),
    /// The server is asked to end idling.
    Terminating(Security),
    /// The connection is about to be given back.
    StoringSession(Session<S, I>),
    /// Idling could not be ended, and the limit of waits is about to be shortened.
    ShorteningLimit(Cause),
    /// A new connection is being asked for.
    Reconnecting(Error),
    /// The run is over.
    Finished,
}

/// What the caller has to do.
pub enum Action<S, I> {
    /// Nothing: come back at once.
    Continue,
    /// Set up the connection, if there is none.
    SetupHandle,
    /// Select this folder, if one is given.
    SelectFolder(Option<String>),
    /// Remember the time.
    StartClock,
    /// Make the connection idle.
    EnterIdle(IdleHandle<S, I>),
    /// Prepare a wait of so many seconds.
    PrepareWait { secs: u64 },
    /// Wait.
    Await,
    /// Read the time since the clock was started.
    ReadClock,
    /// End idling, within so many seconds.
    Terminate { secs: u64 },
    /// See to it that a new connection is made.
    TriggerReconnect,
    /// Return.
    Finish(Result<(), Error>),
}

/// What came of an action.
pub enum Outcome<S, I> {
    /// It is done.
    Done,
    /// The connection could not be set up.
    SetupFailed(imap::Error),
    /// The folder could not be selected.
    SelectFailed(select_folder::Error),
    /// The server does not idle.
    EnterFailed(Cause),
    /// A wait is prepared, which ends when the source is dropped.
    Armed(stop_token::StopSource),
    /// The server sent something.
    NewData(String),
    /// The wait timed out.
    Timeout,
    /// The source was dropped.
    ManualInterrupt,
    /// The wait failed.
    WaitFailed(Cause),
    /// Seconds since the clock was started.
    Elapsed(u64),
    /// Idling has ended, and here is the connection.
    Terminated(Session<S, I>),
    /// Idling could not be ended.
    TerminateFailed(Cause),
    /// Idling could not be ended in time.
    TerminateTimedOut(Cause),
}

/// What comes next.
pub struct Step<S, I> {
    pub stage: Stage<S, I>,
    /// Goes to the log before the action is taken.
    pub note: Option<Note>,
    pub action: Action<S, I>,
}

/// The first wait of a run on a connection.
pub open spec fn first_wait(security: Security, max_timeout_duration: u64) -> Wait {
    Wait { security, max_timeout_duration, n: 1, timeout_last_dur: 0 }
}

/// The wait after one that timed out after `secs` seconds.
pub open spec fn next_wait(wait: Wait, secs: u64) -> Wait {
    Wait { n: (wait.n + 1) as i32, timeout_last_dur: secs, ..wait }
}

/// Whether a wait that timed out after `secs` seconds is the last one.
pub open spec fn is_last(wait: Wait, secs: u64) -> bool {
    wait.n > MAX_LOOP || secs > wait.max_timeout_duration
}

/// Seconds from one reading of the clock to the next. The clock may be set back, and
/// the difference wraps around where it was.
pub open spec fn seconds_between(earlier: u64, later: u64) -> u64 {
    if later >= earlier {
        (later - earlier) as u64
    } else {
        (later - earlier + u64::MAX + 1) as u64
    }
}

/// Seconds that a connection has for ending to idle.
pub open spec fn done_secs(security: Security) -> u64 {
    match security {
        Security::Secure => SECURE_DONE_SECS,
        Security::Insecure => INSECURE_DONE_SECS,
    }
}

impl Wait {
    /// Waits are counted from 1, and there is one more than may be repeated.
    pub open spec fn wf(self) -> bool {
        1 <= self.n <= MAX_LOOP + 1
    }
}

impl<S, I> Stage<S, I> {
    /// The wait that a stage is about.
    pub open spec fn wait(self) -> Option<Wait> {
        match self {
            Stage::EnteringIdle(w) => Some(w),
            Stage::Arming(w) => Some(w),
            Stage::CheckingSkip(w) => Some(w),
            Stage::ClearingSkip(w) => Some(w),
            Stage::Waiting(w) => Some(w),
            Stage::ReadingClock(w) => Some(w),
            _ => None,
        }
    }

    /// The wait of a stage has a proper count, and only secure waits are timed.
    pub open spec fn wf(self) -> bool {
        &&& self.wait() matches Some(w) ==> w.wf()
        &&& self matches Stage::EnteringIdle(w) ==> w.n == 1
        &&& self matches Stage::ReadingClock(w) ==> w.security == Security::Secure
    }

    /// Whether an outcome is one of those that the stage's action can have. A
    /// connection comes back as it was given away.
    pub open spec fn answered_by(self, outcome: Outcome<S, I>) -> bool {
        match self {
            Stage::SettingUp { .. } => outcome is Done || outcome is SetupFailed,
            Stage::SelectingFolder => outcome is Done || outcome is SelectFailed,
            Stage::EnteringIdle(_) => outcome is Done || outcome is EnterFailed,
            Stage::Arming(_) => outcome is Armed,
            Stage::Waiting(_) => outcome is NewData || outcome is Timeout
                || outcome is ManualInterrupt || outcome is WaitFailed,
            Stage::ReadingClock(_) => outcome is Elapsed,
            Stage::Terminating(security) => match outcome {
                Outcome::Terminated(session) => session.kind() == security,
                Outcome::TerminateFailed(_) => true,
                Outcome::TerminateTimedOut(_) => true,
                _ => false,
            },
            Stage::Finished => false,
            _ => outcome is Done,
        }
    }

    /// What a step leaves behind for other threads.
    pub open spec fn shared_after(self, imap: Imap<S, I>, outcome: Outcome<S, I>) -> Imap<S, I> {
        match (self, outcome) {
            (Stage::SelectingFolder, Outcome::Done) => imap.with_idle_timeout(),
            (Stage::TakingSession, _) => Imap { session: None, ..imap },
            (Stage::Arming(_), Outcome::Armed(source)) => Imap { interrupt: Some(source), ..imap },
            (Stage::ClearingSkip(_), _) => Imap { skip_next_idle_wait: false, ..imap },
            (Stage::Terminating(Security::Secure), Outcome::Terminated(_)) => Imap {
                max_timeout_duration: MAX_IDLE_DUR_LONG,
                ..imap
            },
            (Stage::ShorteningLimit(_), _) => Imap {
                max_timeout_duration: MAX_IDLE_DUR_SHORT,
                ..imap
            },
            (Stage::Terminating(Security::Insecure), Outcome::Terminated(session)) => Imap {
                session: Some(session),
                ..imap
            },
            (Stage::StoringSession(session), _) => Imap { session: Some(session), ..imap },
            _ => imap,
        }
    }

    /// Where a step leads.
    pub open spec fn stage_after(self, imap: Imap<S, I>, outcome: Outcome<S, I>) -> Stage<S, I> {
        match (self, outcome) {
            (Stage::SettingUp { .. }, Outcome::Done) => Stage::SelectingFolder,
            (Stage::SelectingFolder, Outcome::Done) => Stage::TakingSession,
            (Stage::TakingSession, _) => Stage::StartingClock { session: imap.session },
            (Stage::StartingClock { session: Some(session) }, _) => Stage::EnteringIdle(
                first_wait(session.kind(), imap.max_timeout_duration),
            ),
            (Stage::EnteringIdle(w), Outcome::Done) => Stage::Arming(w),
            (Stage::Arming(w), _) => Stage::CheckingSkip(w),
            (Stage::CheckingSkip(w), _) => if imap.skip_next_idle_wait {
                Stage::ClearingSkip(w)
            } else {
                Stage::Waiting(w)
            },
            (Stage::ClearingSkip(w), _) => Stage::Terminating(w.security),
            (Stage::Waiting(w), Outcome::Timeout) => match w.security {
                Security::Secure => Stage::ReadingClock(w),
                Security::Insecure => Stage::Terminating(w.security),
            },
            (Stage::Waiting(w), _) => Stage::Terminating(w.security),
            (Stage::ReadingClock(w), Outcome::Elapsed(secs)) => if is_last(w, secs) {
                Stage::Terminating(w.security)
            } else {
                Stage::Arming(next_wait(w, secs))
            },
            (Stage::Terminating(Security::Secure), Outcome::Terminated(session)) =>
                Stage::StoringSession(session),
            (Stage::Terminating(Security::Secure), Outcome::TerminateFailed(cause)) =>
                Stage::ShorteningLimit(cause),
            (Stage::Terminating(Security::Insecure), Outcome::TerminateFailed(cause)) =>
                Stage::Reconnecting(Error::IdleProtocolFailed(cause)),
            (Stage::ShorteningLimit(cause), _) => Stage::Reconnecting(
                Error::IdleProtocolFailed(cause),
            ),
            (Stage::Terminating(_), Outcome::TerminateTimedOut(cause)) => Stage::Reconnecting(
                Error::IdleTimeout(cause),
            ),
            _ => Stage::Finished,
        }
    }

    /// What a step asks of the caller.
    pub open spec fn action_after(self, imap: Imap<S, I>, outcome: Outcome<S, I>) -> Action<S, I> {
        match self.stage_after(imap, outcome) {
            Stage::SettingUp { .. } => Action::SetupHandle,
            Stage::SelectingFolder => Action::SelectFolder(self->watch_folder),
            Stage::StartingClock { .. } => Action::StartClock,
            Stage::EnteringIdle(_) => Action::EnterIdle(handle_for(self->session->0)),
            Stage::Arming(_) => Action::PrepareWait { secs: WAIT_SECS },
            Stage::Waiting(_) => Action::Await,
            Stage::ReadingClock(_) => Action::ReadClock,
            Stage::Terminating(security) => Action::Terminate { secs: done_secs(security) },
            Stage::Reconnecting(_) => Action::TriggerReconnect,
            Stage::Finished => Action::Finish(self.verdict(outcome)),
            _ => Action::Continue,
        }
    }

    /// What a run returns whose last step this is.
    pub open spec fn verdict(self, outcome: Outcome<S, I>) -> Result<(), Error> {
        match (self, outcome) {
            (Stage::Reconnecting(error), _) => Err(error),
            (_, Outcome::SetupFailed(error)) => Err(Error::SetupHandleError(error)),
            (_, Outcome::SelectFailed(error)) => Err(Error::SelectFolderError(error)),
            (_, Outcome::EnterFailed(cause)) => Err(Error::IdleProtocolFailed(cause)),
            _ => Ok(()),
        }
    }

    /// What a step writes to the log.
    pub open spec fn note_after(self, imap: Imap<S, I>, outcome: Outcome<S, I>) -> Option<Note> {
        match (self, outcome) {
            (Stage::EnteringIdle(w), Outcome::Done) => Some(
                match w.security {
                    Security::Secure => Note::SecureReady {
                        loops: MAX_LOOP as u64,
                        wait_secs: WAIT_SECS,
                        max_timeout_duration: w.max_timeout_duration,
                    },
                    Security::Insecure => Note::InsecureReady { wait_secs: WAIT_SECS },
                },
            ),
            (Stage::CheckingSkip(w), _) => if !imap.skip_next_idle_wait && w.n == 1 {
                Some(Note::Entering(w.security))
            } else {
                None
            },
            (Stage::ClearingSkip(w), _) => Some(Note::Skipped(w.security)),
            (Stage::Waiting(w), Outcome::NewData(data)) => Some(Note::NewData(w.security, data)),
            (Stage::Waiting(w), Outcome::Timeout) => match w.security {
                Security::Secure => None,
                Security::Insecure => Some(Note::InsecureTimeout),
            },
            (Stage::Waiting(w), Outcome::ManualInterrupt) => Some(Note::Interrupted(w.security)),
            (Stage::Waiting(w), Outcome::WaitFailed(cause)) => Some(
                Note::WaitFailed(w.security, cause),
            ),
            (Stage::ReadingClock(w), Outcome::Elapsed(secs)) => Some(
                Note::SecureTimeout {
                    n: w.n as u64,
                    diff: seconds_between(w.timeout_last_dur, secs),
                    secs,
                    end: is_last(w, secs),
                },
            ),
            (Stage::Terminating(Security::Secure), Outcome::TerminateTimedOut(_)) => Some(
                Note::TerminationTimeout,
            ),
            (Stage::Terminating(Security::Secure), Outcome::TerminateFailed(cause)) => Some(
                Note::TerminationFailed(cause),
            ),
            _ => None,
        }
    }

    /// A step without a note.
    fn silently(stage: Stage<S, I>, action: Action<S, I>) -> (r: Step<S, I>)
        ensures
            r == (Step { stage, note: None, action }),
    {
        Step { stage, note: None, action }
    }

    /// The step that ends idling, on a note.
    fn terminate(security: Security, note: Note) -> (r: Step<S, I>)
        ensures
            r == (Step {
                stage: Stage::Terminating(security),
                note: Some(note),
                action: Action::<S, I>::Terminate { secs: done_secs(security) },
            }),
    {
        let secs: u64 = match security {
            Security::Secure => SECURE_DONE_SECS,
            Security::Insecure => INSECURE_DONE_SECS,
        };
        Step { stage: Stage::Terminating(security), note: Some(note), action: Action::Terminate { secs } }
    }

    /// Takes a run one step further.
    pub fn step(self, imap: &mut Imap<S, I>, outcome: Outcome<S, I>) -> (r: Step<S, I>)
        requires
            self.wf(),
            self.answered_by(outcome),
        ensures
            r.stage.wf(),
            r.stage == self.stage_after(*old(imap), outcome),
            r.action == self.action_after(*old(imap), outcome),
            r.note == self.note_after(*old(imap), outcome),
            *final(imap) == self.shared_after(*old(imap), outcome),
    {
        match (self, outcome) {
            (Stage::SettingUp { .. }, Outcome::SetupFailed(error)) => Self::silently(
                Stage::Finished,
                Action::Finish(Err(Error::SetupHandleError(error))),
            ),
            (Stage::SettingUp { watch_folder }, _) => Self::silently(
                Stage::SelectingFolder,
                Action::SelectFolder(watch_folder),
            ),
            (Stage::SelectingFolder, Outcome::SelectFailed(error)) => Self::silently(
                Stage::Finished,
                Action::Finish(Err(Error::from(error))),
            ),
            (Stage::SelectingFolder, _) => {
                imap.init_idle_timeout();
                Self::silently(Stage::TakingSession, Action::Continue)
            },
            (Stage::TakingSession, _) => {
                let session = imap.session.take();
                Self::silently(Stage::StartingClock { session }, Action::StartClock)
            },
            (Stage::StartingClock { session: None }, _) => Self::silently(
                Stage::Finished,
                Action::Finish(Ok(())),
            ),
            (Stage::StartingClock { session: Some(session) }, _) => {
                let w = Wait {
                    security: session.security(),
                    max_timeout_duration: imap.max_timeout_duration,
                    n: 1,
                    timeout_last_dur: 0,
                };
                Self::silently(Stage::EnteringIdle(w), Action::EnterIdle(session.idle()))
            },
            (Stage::EnteringIdle(_), Outcome::EnterFailed(cause)) => Self::silently(
                Stage::Finished,
                Action::Finish(Err(Error::IdleProtocolFailed(cause))),
            ),
            (Stage::EnteringIdle(w), _) => {
                let note = match w.security {
                    Security::Secure => Note::SecureReady {
                        loops: MAX_LOOP as u64,
                        wait_secs: WAIT_SECS,
                        max_timeout_duration: w.max_timeout_duration,
                    },
                    Security::Insecure => Note::InsecureReady { wait_secs: WAIT_SECS },
                };
                Step {
                    stage: Stage::Arming(w),
                    note: Some(note),
                    action: Action::PrepareWait { secs: WAIT_SECS },
                }
            },
            (Stage::Arming(w), Outcome::Armed(source)) => {
                imap.interrupt = Some(source);
                Self::silently(Stage::CheckingSkip(w), Action::Continue)
            },
            (Stage::CheckingSkip(w), _) => {
                if imap.skip_next_idle_wait {
                    // interrupt_idle has happened before we provided the source
                    Self::silently(Stage::ClearingSkip(w), Action::Continue)
                } else if w.n == 1 {
                    Step {
                        stage: Stage::Waiting(w),
                        note: Some(Note::Entering(w.security)),
                        action: Action::Await,
                    }
                } else {
                    Self::silently(Stage::Waiting(w), Action::Await)
                }
            },
            (Stage::ClearingSkip(w), _) => {
                imap.skip_next_idle_wait = false;
                Self::terminate(w.security, Note::Skipped(w.security))
            },
            (Stage::Waiting(w), Outcome::NewData(data)) => Self::terminate(
                w.security,
                Note::NewData(w.security, data),
            ),
            (Stage::Waiting(w), Outcome::Timeout) => match w.security {
                Security::Secure => Self::silently(Stage::ReadingClock(w), Action::ReadClock),
                Security::Insecure => Self::terminate(w.security, Note::InsecureTimeout),
            },
            (Stage::Waiting(w), Outcome::WaitFailed(cause)) => Self::terminate(
                w.security,
                Note::WaitFailed(w.security, cause),
            ),
            (Stage::Waiting(w), _) => Self::terminate(w.security, Note::Interrupted(w.security)),
            (Stage::ReadingClock(w), Outcome::Elapsed(secs)) => {
                let end: bool = w.n > MAX_LOOP || secs > w.max_timeout_duration;
                let note = Note::SecureTimeout {
                    n: w.n as u64,
                    diff: secs.wrapping_sub(w.timeout_last_dur),
                    secs,
                    end,
                };
                if end {
                    Self::terminate(w.security, note)
                } else {
                    let mut next: Wait = w;
                    next.n = w.n + 1;
                    next.timeout_last_dur = secs;
                    Step {
                        stage: Stage::Arming(next),
                        note: Some(note),
                        action: Action::PrepareWait { secs: WAIT_SECS },
                    }
                }
            },
            (Stage::Terminating(security), Outcome::Terminated(session)) => match security {
                Security::Secure => {
                    imap.max_timeout_duration = MAX_IDLE_DUR_LONG;
                    Self::silently(Stage::StoringSession(session), Action::Continue)
                },
                Security::Insecure => {
                    imap.session = Some(session);
                    Self::silently(Stage::Finished, Action::Finish(Ok(())))
                },
            },
            // if we cannot terminate IDLE it probably means that we waited long
            // but the network went away/changed
            (Stage::Terminating(security), Outcome::TerminateFailed(cause)) => match security {
                Security::Secure => Step {
                    note: Some(Note::TerminationFailed(cause.clone())),
                    stage: Stage::ShorteningLimit(cause),
                    action: Action::Continue,
                },
                Security::Insecure => Self::silently(
                    Stage::Reconnecting(Error::IdleProtocolFailed(cause)),
                    Action::TriggerReconnect,
                ),
            },
            (Stage::ShorteningLimit(cause), _) => {
                imap.max_timeout_duration = MAX_IDLE_DUR_SHORT;
                Self::silently(
                    Stage::Reconnecting(Error::IdleProtocolFailed(cause)),
                    Action::TriggerReconnect,
                )
            },
            // if we can't properly terminate the idle protocol let's break the
            // connection
            (Stage::Terminating(security), Outcome::TerminateTimedOut(cause)) => {
                let note = match security {
                    Security::Secure => Some(Note::TerminationTimeout),
                    Security::Insecure => None,
                };
                Step {
                    stage: Stage::Reconnecting(Error::IdleTimeout(cause)),
                    note,
                    action: Action::TriggerReconnect,
                }
            },
            (Stage::StoringSession(session), _) => {
                imap.session = Some(session);
                Self::silently(Stage::Finished, Action::Finish(Ok(())))
            },
            (Stage::Reconnecting(error), _) => Self::silently(
                Stage::Finished,
                Action::Finish(Err(error)),
            ),
            _ => Self::silently(Stage::Finished, Action::Finish(Ok(()))),
        }
    }
}

impl<S, I> Imap<S, I> {
    /// The shared state once the time limit of waits is set.
    pub open spec fn with_idle_timeout(self) -> Imap<S, I> {
        if self.max_timeout_duration == 0 {
            Imap { max_timeout_duration: MAX_IDLE_DUR_LONG, ..self }
        } else {
            self
        }
    }

    /// Sets the time limit of waits, unless it was set before.
    pub fn init_idle_timeout(&mut self)
        ensures
            *final(self) == old(self).with_idle_timeout(),
    {
        if self.max_timeout_duration == 0 {
            self.max_timeout_duration = MAX_IDLE_DUR_LONG;
        }
    }

    /// Tells whether the server has the IDLE capability.
    pub fn can_idle(&self) -> (r: bool)
        ensures
            r == self.config.can_idle,
    {
        self.config.can_idle
    }

    /// Begins a run: waits for changes in a folder, with the IDLE command.
    pub fn idle(&self, watch_folder: Option<String>) -> (r: Step<S, I>)
        ensures
            r.stage.wf(),
            r == (if self.config.can_idle {
                Step::<S, I> {
                    stage: Stage::SettingUp { watch_folder },
                    note: None,
                    action: Action::SetupHandle,
                }
            } else {
                Step::<S, I> {
                    stage: Stage::Finished,
                    note: None,
                    action: Action::Finish(Err(Error::IdleAbilityMissing)),
                }
            }),
    {
        if self.can_idle() {
            Stage::silently(Stage::SettingUp { watch_folder }, Action::SetupHandle)
        } else {
            Stage::silently(Stage::Finished, Action::Finish(Err(Error::IdleAbilityMissing)))
        }
    }
}

} // verus!
