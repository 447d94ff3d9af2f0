//! What waiting with the IDLE command is for, stage by stage and over whole runs.

use vstd::prelude::*;
use crate::cause::Cause;
use crate::imap;
use crate::imap::idle::{
    seconds_between, Action, Error, IdleHandle, Outcome, Stage, Wait,
};
use crate::imap::laws::{are_consecutive, Pause};
use crate::imap::notes::Note;
use crate::imap::select_folder;
use crate::imap::{Imap, Security, Session};

verus! {

/// Whether an outcome is taken by a stage, and leads to another stage with an action.
pub open spec fn leads<S, I>(
    from: Stage<S, I>,
    imap: Imap<S, I>,
    outcome: Outcome<S, I>,
    to: Stage<S, I>,
    action: Action<S, I>,
) -> bool {
    &&& from.answered_by(outcome)
    &&& from.stage_after(imap, outcome) == to
    &&& from.action_after(imap, outcome) == action
}

/// Whether an outcome is taken by a stage, and ends idling on a connection: a secure
/// one has 10 seconds for it, an insecure one 15.
pub open spec fn ends_idling<S, I>(
    from: Stage<S, I>,
    imap: Imap<S, I>,
    outcome: Outcome<S, I>,
    security: Security,
) -> bool {
    let secs: u64 = if security == Security::Secure {
        10
    } else {
        15
    };
    leads(from, imap, outcome, Stage::Terminating(security), Action::Terminate { secs })
}

/// New data, an interruption and a failure each end the wait, whichever wait of the run
/// it is, whatever threads share, and on any connection.
pub proof fn news_end_the_wait<S, I>(w: Wait, imap: Imap<S, I>, data: String, cause: Cause)
    ensures
        ends_idling(Stage::Waiting(w), imap, Outcome::NewData(data), w.security),
        ends_idling(Stage::Waiting(w), imap, Outcome::ManualInterrupt, w.security),
        ends_idling(Stage::Waiting(w), imap, Outcome::WaitFailed(cause), w.security),
{
}

/// A timeout ends an insecure wait. After a secure one the clock is read.
pub proof fn timeouts_are_timed<S, I>(w: Wait, imap: Imap<S, I>)
    ensures
        w.security == Security::Insecure ==> ends_idling(
            Stage::Waiting(w),
            imap,
            Outcome::Timeout,
            Security::Insecure,
        ),
        w.security == Security::Secure ==> leads(
            Stage::Waiting(w),
            imap,
            Outcome::Timeout,
            Stage::ReadingClock(w),
            Action::ReadClock,
        ),
{
}

/// A reading above the limit of the wait, or the 241st timeout, ends idling. After any
/// other reading the next wait is prepared, for 5 seconds, with the same connection,
/// the same limit and the next number, and it knows the reading.
pub proof fn readings_decide_on_the_next_wait<S, I>(w: Wait, imap: Imap<S, I>, secs: u64)
    requires
        1 <= w.n <= 241,
    ensures
        secs > w.max_timeout_duration || w.n == 241 ==> ends_idling(
            Stage::ReadingClock(w),
            imap,
            Outcome::Elapsed(secs),
            w.security,
        ),
        secs <= w.max_timeout_duration && w.n <= 240 ==> {
            &&& Stage::<S, I>::ReadingClock(w).answered_by(Outcome::Elapsed(secs))
            &&& Stage::ReadingClock(w).action_after(imap, Outcome::Elapsed(secs))
                == (Action::<S, I>::PrepareWait { secs: 5 })
            &&& Stage::ReadingClock(w).stage_after(imap, Outcome::Elapsed(secs)) matches Stage::Arming(
                next,
            )
            &&& next.security == w.security
            &&& next.max_timeout_duration == w.max_timeout_duration
            &&& next.n == w.n + 1
            &&& next.timeout_last_dur == secs
        },
{
}

/// A wait that is prepared takes place if nobody forbade it, and does not otherwise.
pub proof fn only_forbidden_waits_are_skipped<S, I>(
    w: Wait,
    source: stop_token::StopSource,
    imap: Imap<S, I>,
)
    ensures
        leads(
            Stage::Arming(w),
            imap,
            Outcome::Armed(source),
            Stage::CheckingSkip(w),
            Action::Continue,
        ),
        !imap.skip_next_idle_wait ==> leads(
            Stage::CheckingSkip(w),
            imap,
            Outcome::Done,
            Stage::Waiting(w),
            Action::Await,
        ),
        imap.skip_next_idle_wait ==> leads(
            Stage::CheckingSkip(w),
            imap,
            Outcome::Done,
            Stage::ClearingSkip(w),
            Action::Continue,
        ),
        ends_idling(Stage::ClearingSkip(w), imap, Outcome::Done, w.security),
{
}

/// The folder that a run was given is the one that is selected.
pub proof fn the_given_folder_is_selected<S, I>(
    watch_folder: Option<String>,
    imap: Imap<S, I>,
    later: Imap<S, I>,
)
    ensures
        leads(
            Stage::SettingUp { watch_folder },
            imap,
            Outcome::Done,
            Stage::SelectingFolder,
            Action::SelectFolder(watch_folder),
        ),
        leads(
            Stage::SelectingFolder,
            later,
            Outcome::Done,
            Stage::TakingSession,
            Action::Continue,
        ),
{
}

/// The connection that is found is the one that idles, and its first wait has the limit
/// that is shared at that time.
pub proof fn the_connection_found_idles<S, I>(
    imap: Imap<S, I>,
    later: Imap<S, I>,
    secure: S,
    insecure: I,
)
    ensures
        leads(
            Stage::TakingSession,
            imap,
            Outcome::Done,
            Stage::StartingClock { session: imap.session },
            Action::StartClock,
        ),
        leads(
            Stage::StartingClock { session: None },
            later,
            Outcome::Done,
            Stage::Finished,
            Action::Finish(Ok(())),
        ),
        leads(
            Stage::StartingClock { session: Some(Session::Secure(secure)) },
            later,
            Outcome::Done,
            Stage::EnteringIdle(
                (Wait {
                    security: Security::Secure,
                    max_timeout_duration: later.max_timeout_duration,
                    n: 1,
                    timeout_last_dur: 0,
                }),
            ),
            Action::EnterIdle(IdleHandle::Secure(secure)),
        ),
        leads(
            Stage::StartingClock { session: Some(Session::Insecure(insecure)) },
            later,
            Outcome::Done,
            Stage::EnteringIdle(
                (Wait {
                    security: Security::Insecure,
                    max_timeout_duration: later.max_timeout_duration,
                    n: 1,
                    timeout_last_dur: 0,
                }),
            ),
            Action::EnterIdle(IdleHandle::Insecure(insecure)),
        ),
{
}

/// Once the server idles, the first wait is prepared, for 5 seconds.
pub proof fn idling_begins_with_a_wait<S, I>(w: Wait, imap: Imap<S, I>)
    ensures
        leads(
            Stage::EnteringIdle(w),
            imap,
            Outcome::Done,
            Stage::Arming(w),
            Action::PrepareWait { secs: 5 },
        ),
{
}

/// Whether an outcome is taken by a stage, and ends the run with an error.
pub open spec fn fails<S, I>(
    from: Stage<S, I>,
    imap: Imap<S, I>,
    outcome: Outcome<S, I>,
    error: Error,
) -> bool {
    leads(from, imap, outcome, Stage::Finished, Action::Finish(Err(error)))
}

/// What fails before idling has begun is returned, with its cause, and changes nothing
/// that is shared.
pub proof fn early_failures_are_returned<S, I>(
    watch_folder: Option<String>,
    w: Wait,
    imap: Imap<S, I>,
    setup: imap::Error,
    select: select_folder::Error,
    cause: Cause,
)
    ensures
        fails(
            Stage::SettingUp { watch_folder },
            imap,
            Outcome::SetupFailed(setup),
            Error::SetupHandleError(setup),
        ),
        fails(
            Stage::SelectingFolder,
            imap,
            Outcome::SelectFailed(select),
            Error::SelectFolderError(select),
        ),
        fails(
            Stage::EnteringIdle(w),
            imap,
            Outcome::EnterFailed(cause),
            Error::IdleProtocolFailed(cause),
        ),
        (Stage::SettingUp { watch_folder }).shared_after(imap, Outcome::SetupFailed(setup)) == imap,
        Stage::SelectingFolder.shared_after(imap, Outcome::SelectFailed(select)) == imap,
        Stage::EnteringIdle(w).shared_after(imap, Outcome::EnterFailed(cause)) == imap,
{
}

/// What fails at the end of idling is returned, with its cause, after a new connection
/// was asked for.
pub proof fn late_failures_are_returned<S, I>(
    imap: Imap<S, I>,
    later: Imap<S, I>,
    last: Imap<S, I>,
    security: Security,
    cause: Cause,
    error: Error,
)
    ensures
        leads(
            Stage::Terminating(security),
            imap,
            Outcome::TerminateTimedOut(cause),
            Stage::Reconnecting(Error::IdleTimeout(cause)),
            Action::TriggerReconnect,
        ),
        leads(
            Stage::Terminating(Security::Insecure),
            imap,
            Outcome::TerminateFailed(cause),
            Stage::Reconnecting(Error::IdleProtocolFailed(cause)),
            Action::TriggerReconnect,
        ),
        leads(
            Stage::Terminating(Security::Secure),
            imap,
            Outcome::TerminateFailed(cause),
            Stage::ShorteningLimit(cause),
            Action::Continue,
        ),
        leads(
            Stage::ShorteningLimit(cause),
            later,
            Outcome::Done,
            Stage::Reconnecting(Error::IdleProtocolFailed(cause)),
            Action::TriggerReconnect,
        ),
        fails(Stage::Reconnecting(error), last, Outcome::Done, error),
{
}

/// The connection that comes back from idling is the one that is put in place, and the
/// run ends well. A secure one brings the limit to 21 minutes; an insecure one does not
/// touch it.
pub proof fn the_returned_connection_is_kept<S, I>(
    imap: Imap<S, I>,
    later: Imap<S, I>,
    secure: S,
    insecure: I,
)
    ensures
        leads(
            Stage::Terminating(Security::Insecure),
            imap,
            Outcome::Terminated(Session::Insecure(insecure)),
            Stage::Finished,
            Action::Finish(Ok(())),
        ),
        Stage::Terminating(Security::Insecure).shared_after(
            imap,
            Outcome::Terminated(Session::Insecure(insecure)),
        ) == (Imap { session: Some(Session::Insecure(insecure)), ..imap }),
        leads(
            Stage::Terminating(Security::Secure),
            imap,
            Outcome::Terminated(Session::Secure(secure)),
            Stage::StoringSession(Session::Secure(secure)),
            Action::Continue,
        ),
        Stage::Terminating(Security::Secure).shared_after(
            imap,
            Outcome::Terminated(Session::Secure(secure)),
        ) == (Imap { max_timeout_duration: 1260, ..imap }),
        leads(
            Stage::StoringSession(Session::Secure(secure)),
            later,
            Outcome::Done,
            Stage::Finished,
            Action::Finish(Ok(())),
        ),
        Stage::StoringSession(Session::Secure(secure)).shared_after(later, Outcome::Done) == (
        Imap { session: Some(Session::Secure(secure)), ..later }),
{
}

/// A missing limit becomes 21 minutes, and a limit that is there stays; nothing else
/// changes.
pub proof fn missing_limit_is_filled_in<S, I>(imap: Imap<S, I>)
    ensures
        Stage::SelectingFolder.shared_after(imap, Outcome::Done) == imap.with_idle_timeout(),
        imap.max_timeout_duration == 0 ==> imap.with_idle_timeout() == (Imap {
            max_timeout_duration: 1260,
            ..imap
        }),
        imap.max_timeout_duration != 0 ==> imap.with_idle_timeout() == imap,
{
}

/// A secure run whose connection was found dead brings the limit to 11 minutes; nothing
/// else changes, and an insecure one does not touch the limit.
pub proof fn dead_connection_shortens_the_limit<S, I>(imap: Imap<S, I>, cause: Cause)
    ensures
        Stage::ShorteningLimit(cause).shared_after(imap, Outcome::Done) == (Imap {
            max_timeout_duration: 660,
            ..imap
        }),
        Stage::Terminating(Security::Insecure).shared_after(imap, Outcome::TerminateFailed(cause))
            == imap,
{
}

/// Idling changes what threads share only where it has to: the connection where it is
/// taken or given back, the stop source where a wait is prepared, the request to skip
/// where it is used up, the limit at the beginning and at the end, and what is known of
/// the server nowhere.
pub proof fn idling_touches_little<S, I>(
    stage: Stage<S, I>,
    imap: Imap<S, I>,
    outcome: Outcome<S, I>,
)
    requires
        stage.answered_by(outcome),
    ensures
        stage.shared_after(imap, outcome).config == imap.config,
        stage.shared_after(imap, outcome).session == imap.session || stage is TakingSession
            || stage is StoringSession || outcome is Terminated,
        stage is TakingSession ==> stage.shared_after(imap, outcome).session is None,
        stage.shared_after(imap, outcome).interrupt == imap.interrupt || outcome is Armed,
        outcome matches Outcome::Armed(source) ==> stage.shared_after(imap, outcome).interrupt
            == Some(source),
        stage.shared_after(imap, outcome).skip_next_idle_wait == (imap.skip_next_idle_wait && !(
        stage is ClearingSkip)),
        stage.shared_after(imap, outcome).max_timeout_duration == imap.max_timeout_duration
            || stage is SelectingFolder || stage is ShorteningLimit || outcome is Terminated,
{
}

/// The wait of a stage keeps its connection and its limit from step to step. Its number
/// changes only when the next wait is prepared after a reading of the clock.
pub proof fn all_waits_share_one_limit<S, I>(
    stage: Stage<S, I>,
    imap: Imap<S, I>,
    outcome: Outcome<S, I>,
)
    requires
        stage.wf(),
        stage.answered_by(outcome),
        stage.wait() is Some,
        stage.stage_after(imap, outcome).wait() is Some,
    ensures
        stage.stage_after(imap, outcome).wait()->0.max_timeout_duration
            == stage.wait()->0.max_timeout_duration,
        stage.stage_after(imap, outcome).wait()->0.security == stage.wait()->0.security,
        stage is ReadingClock ==> stage.stage_after(imap, outcome).wait()->0.n == stage.wait()->0.n
            + 1,
        !(stage is ReadingClock) ==> stage.stage_after(imap, outcome).wait() == stage.wait(),
{
}

/// A run can go on from every stage: waits are numbered from 1 to 241, the first of them
/// is the one that idling begins with, only secure ones are timed, and nothing else is
/// asked of a stage.
pub proof fn every_proper_stage_is_taken<S, I>(stage: Stage<S, I>)
    ensures
        stage.wf() <==> match stage {
            Stage::EnteringIdle(w) => w.n == 1,
            Stage::ReadingClock(w) => 1 <= w.n <= 241 && w.security == Security::Secure,
            Stage::Arming(w) => 1 <= w.n <= 241,
            Stage::CheckingSkip(w) => 1 <= w.n <= 241,
            Stage::ClearingSkip(w) => 1 <= w.n <= 241,
            Stage::Waiting(w) => 1 <= w.n <= 241,
            _ => true,
        },
{
}

/// What a wait is about is told by its stage: no stage hides its wait.
pub proof fn stages_show_their_wait<S, I>(w: Wait)
    ensures
        Stage::<S, I>::EnteringIdle(w).wait() == Some(w),
        Stage::<S, I>::Arming(w).wait() == Some(w),
        Stage::<S, I>::CheckingSkip(w).wait() == Some(w),
        Stage::<S, I>::ClearingSkip(w).wait() == Some(w),
        Stage::<S, I>::Waiting(w).wait() == Some(w),
        Stage::<S, I>::ReadingClock(w).wait() == Some(w),
{
}

/// How often the clock was read in some pauses.
pub open spec fn readings<S, I>(pauses: Seq<Pause<S, I>>) -> nat
    decreases pauses.len(),
{
    if pauses.len() == 0 {
        0
    } else {
        readings(pauses.drop_last()) + if pauses.last().outcome is Elapsed {
            1nat
        } else {
            0
        }
    }
}

/// Whether a stage comes before the first wait, or is about a wait with a limit and a
/// number, or comes after the last wait.
spec fn on_course<S, I>(stage: Stage<S, I>, limit: u64, number: nat) -> bool {
    match stage.wait() {
        Some(w) => w.max_timeout_duration == limit && w.n == number,
        None => is_winding_down(stage),
    }
}

/// Over a run, every wait has the limit that was shared when the clock was started, and
/// as its number one more than the readings before it.
proof fn lemma_on_course<S, I>(pauses: Seq<Pause<S, I>>, i: int)
    requires
        are_consecutive(pauses),
        pauses[0].stage is StartingClock,
        1 <= i < pauses.len(),
    ensures
        pauses[i].stage.wf(),
        on_course(
            pauses[i].stage,
            pauses[0].imap.max_timeout_duration,
            1 + readings(pauses.take(i)),
        ),
    decreases i,
{
    let before = pauses[i - 1];
    assert(before.stage.answered_by(before.outcome));
    assert(pauses[i - 1 + 1].stage == before.next());
    assert(pauses.take(i).drop_last() =~= pauses.take(i - 1));
    assert(pauses.take(i).last() == before);
    if i == 1 {
        assert(pauses.take(0) =~= Seq::<Pause<S, I>>::empty());
    } else {
        lemma_on_course(pauses, i - 1);
    }
}

/// No wait is prepared beyond the limit: in a run, a reading above the limit that was
/// shared when the clock was started ends idling; and the first 240 readings at or
/// below it do not.
pub proof fn the_limit_holds_for_the_whole_run<S, I>(pauses: Seq<Pause<S, I>>, i: int)
    requires
        are_consecutive(pauses),
        pauses[0].stage is StartingClock,
        0 < i < pauses.len(),
        pauses[i].stage is ReadingClock,
    ensures
        pauses[i].next() is Arming || pauses[i].next() is Terminating,
        pauses[i].next() is Arming <==> pauses[i].outcome->Elapsed_0
            <= pauses[0].imap.max_timeout_duration && readings(pauses.take(i)) < 240,
{
    lemma_on_course(pauses, i);
    assert(pauses[i].stage.answered_by(pauses[i].outcome));
    readings_decide_on_the_next_wait(
        pauses[i].stage->ReadingClock_0,
        pauses[i].imap,
        pauses[i].outcome->Elapsed_0,
    );
}

/// Every wait but the first follows a timeout of the wait before.
pub proof fn every_new_wait_follows_a_timeout<S, I>(pauses: Seq<Pause<S, I>>, i: int)
    requires
        are_consecutive(pauses),
        0 < i < pauses.len(),
        pauses[i].next() is Arming,
        !(pauses[i].stage is EnteringIdle),
    ensures
        pauses[i].stage is ReadingClock,
        pauses[i - 1].stage is Waiting,
        pauses[i - 1].outcome is Timeout,
{
    assert(pauses[i].stage.answered_by(pauses[i].outcome));
    assert(pauses[i - 1].stage.answered_by(pauses[i - 1].outcome));
    assert(pauses[i - 1 + 1].stage == pauses[i - 1].next());
}

/// Whether a run has done with waiting.
pub open spec fn is_winding_down<S, I>(stage: Stage<S, I>) -> bool {
    stage is Terminating || stage is StoringSession || stage is ShorteningLimit
        || stage is Reconnecting || stage is Finished
}

/// Once a wait has ended in anything but a timeout, its run never waits again, and
/// prepares no other wait.
pub proof fn ended_waiting_stays_ended<S, I>(pauses: Seq<Pause<S, I>>, i: int, j: int)
    requires
        are_consecutive(pauses),
        0 <= i < j < pauses.len(),
        pauses[i].stage is Waiting,
        pauses[i].outcome is NewData || pauses[i].outcome is ManualInterrupt
            || pauses[i].outcome is WaitFailed,
    ensures
        is_winding_down(pauses[j].stage),
    decreases j,
{
    assert(pauses[j - 1].stage.answered_by(pauses[j - 1].outcome));
    assert(pauses[j - 1 + 1].stage == pauses[j - 1].next());
    if j - 1 > i {
        ended_waiting_stays_ended(pauses, i, j - 1);
    }
}

/// Seconds between two readings lead from the one to the other, around the end of the
/// range if need be.
pub proof fn seconds_lead_from_reading_to_reading(earlier: u64, later: u64)
    ensures
        earlier + seconds_between(earlier, later) == later || earlier + seconds_between(
            earlier,
            later,
        ) == later + 0x1_0000_0000_0000_0000,
{
}

/// The end of every wait is noted, with what ended it.
pub proof fn ends_of_waits_are_noted<S, I>(w: Wait, imap: Imap<S, I>, data: String, cause: Cause)
    ensures
        Stage::Waiting(w).note_after(imap, Outcome::NewData(data)) == Some(
            Note::NewData(w.security, data),
        ),
        Stage::Waiting(w).note_after(imap, Outcome::ManualInterrupt) == Some(
            Note::Interrupted(w.security),
        ),
        Stage::Waiting(w).note_after(imap, Outcome::WaitFailed(cause)) == Some(
            Note::WaitFailed(w.security, cause),
        ),
        Stage::Waiting(w).note_after(imap, Outcome::Timeout) == (if w.security
            == Security::Insecure {
            Some(Note::InsecureTimeout)
        } else {
            None
        }),
        Stage::ClearingSkip(w).note_after(imap, Outcome::Done) == Some(Note::Skipped(w.security)),
{
}

/// Every timeout of a secure wait is noted, with the number of the wait, the seconds
/// since the reading before, the reading, and whether another wait follows.
pub proof fn timeouts_are_noted<S, I>(w: Wait, imap: Imap<S, I>, secs: u64)
    requires
        1 <= w.n <= 241,
    ensures
        Stage::ReadingClock(w).note_after(imap, Outcome::Elapsed(secs)) matches Some(
            Note::SecureTimeout { n, diff, secs: shown, end },
        ) && n == w.n && diff == seconds_between(w.timeout_last_dur, secs) && shown == secs && end
            == !(Stage::ReadingClock(w).stage_after(imap, Outcome::Elapsed(secs)) is Arming),
{
}

/// The beginning of idling and of its first wait are noted, and a failure at the end of
/// secure idling.
pub proof fn beginning_and_end_are_noted<S, I>(w: Wait, imap: Imap<S, I>, cause: Cause)
    ensures
        Stage::EnteringIdle(w).note_after(imap, Outcome::Done) == Some(
            if w.security == Security::Secure {
                (Note::SecureReady {
                    loops: 240,
                    wait_secs: 5,
                    max_timeout_duration: w.max_timeout_duration,
                })
            } else {
                (Note::InsecureReady { wait_secs: 5 })
            },
        ),
        Stage::CheckingSkip(w).note_after(imap, Outcome::Done) == (if w.n == 1
            && !imap.skip_next_idle_wait {
            Some(Note::Entering(w.security))
        } else {
            None
        }),
        Stage::Terminating(Security::Secure).note_after(imap, Outcome::TerminateTimedOut(cause))
            == Some(Note::TerminationTimeout),
        Stage::Terminating(Security::Secure).note_after(imap, Outcome::TerminateFailed(cause))
            == Some(Note::TerminationFailed(cause)),
        Stage::Terminating(Security::Insecure).note_after(imap, Outcome::TerminateTimedOut(cause))
            is None,
        Stage::Terminating(Security::Insecure).note_after(imap, Outcome::TerminateFailed(cause))
            is None,
{
}

/// Nothing else is noted.
pub proof fn other_steps_are_silent<S, I>(
    stage: Stage<S, I>,
    imap: Imap<S, I>,
    outcome: Outcome<S, I>,
)
    requires
        stage is SettingUp || stage is SelectingFolder || stage is TakingSession
            || stage is StartingClock || stage is Arming || stage is StoringSession
            || stage is ShorteningLimit || stage is Reconnecting || outcome is Terminated
            || outcome is EnterFailed,
        stage.answered_by(outcome),
    ensures
        stage.note_after(imap, outcome) is None,
{
}

/// The words for an error are those of its kind, whatever its cause.
pub proof fn errors_are_described_by_kind(
    a: Cause,
    b: Cause,
    c: select_folder::Error,
    d: select_folder::Error,
    e: imap::Error,
    f: imap::Error,
)
    ensures
        Error::IdleProtocolFailed(a).words() == Error::IdleProtocolFailed(b).words(),
        Error::IdleTimeout(a).words() == Error::IdleTimeout(b).words(),
        Error::SelectFolderError(c).words() == Error::SelectFolderError(d).words(),
        Error::SetupHandleError(e).words() == Error::SetupHandleError(f).words(),
{
}

} // verus!
