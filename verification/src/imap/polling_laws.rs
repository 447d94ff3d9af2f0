//! What polling and interrupting are for, stage by stage and over several steps.

use vstd::prelude::*;
use crate::cause::Cause;
use crate::imap::fake_idle::{FakeAction, FakeOutcome, FakeStage};
use crate::imap::interrupt::{after_taking, InterruptAction, InterruptStage};
use crate::imap::notes::Note;
use crate::imap::Imap;

verus! {

/// Whether an outcome is taken by a stage of polling, and leads to another stage with an
/// action and a note.
pub open spec fn polls<S, I>(
    from: FakeStage,
    imap: Imap<S, I>,
    outcome: FakeOutcome,
    to: FakeStage,
    action: FakeAction,
    note: Option<Note>,
) -> bool {
    &&& from.answered_by(outcome)
    &&& from.stage_after(imap, outcome) == to
    &&& from.action_after(imap, outcome) == action
    &&& from.note_after(imap, outcome) == note
}

/// Each tick whose connection succeeds is followed by a look into the watched folder,
/// where the server cannot idle, whatever else threads share on the way.
pub proof fn connected_ticks_look_for_messages<S, I>(
    folder: String,
    first: Imap<S, I>,
    second: Imap<S, I>,
    third: Imap<S, I>,
)
    requires
        !third.config.can_idle,
    ensures
        polls(
            FakeStage::Ticking { watch_folder: Some(folder) },
            first,
            FakeOutcome::Tick,
            FakeStage::Connecting { watch_folder: Some(folder) },
            FakeAction::ConnectConfigured,
            None,
        ),
        polls(
            FakeStage::Connecting { watch_folder: Some(folder) },
            second,
            FakeOutcome::Done,
            FakeStage::CheckingIdle { watch_folder: Some(folder) },
            FakeAction::Continue,
            None,
        ),
        polls(
            FakeStage::CheckingIdle { watch_folder: Some(folder) },
            third,
            FakeOutcome::Done,
            FakeStage::Fetching { watch_folder: Some(folder) },
            FakeAction::FetchNewMessages(folder),
            Some(Note::FakeConnected),
        ),
{
}

/// Messages that are found end polling. Where none are found, and where nothing could be
/// looked for, the next tick is awaited, with the same folder; in the latter case after
/// a new connection was asked for.
pub proof fn only_found_messages_end_the_looking<S, I>(
    watch_folder: Option<String>,
    imap: Imap<S, I>,
    later: Imap<S, I>,
    cause: Cause,
)
    ensures
        polls(
            FakeStage::Fetching { watch_folder },
            imap,
            FakeOutcome::Fetched(true),
            FakeStage::Withdrawing,
            FakeAction::Continue,
            Some(Note::Fetched(true)),
        ),
        polls(
            FakeStage::Fetching { watch_folder },
            imap,
            FakeOutcome::Fetched(false),
            FakeStage::Ticking { watch_folder },
            FakeAction::NextTick,
            Some(Note::Fetched(false)),
        ),
        polls(
            FakeStage::Fetching { watch_folder },
            imap,
            FakeOutcome::FetchFailed(cause),
            FakeStage::Reconnecting { watch_folder },
            FakeAction::TriggerReconnect,
            Some(Note::FetchFailed(cause)),
        ),
        polls(
            FakeStage::Reconnecting { watch_folder },
            later,
            FakeOutcome::Done,
            FakeStage::Ticking { watch_folder },
            FakeAction::NextTick,
            None,
        ),
{
}

/// Ticks go through to connecting, with or without a folder. A connection that fails
/// waits for the next tick. A server that can idle ends polling. Without a folder nothing
/// is looked for.
pub proof fn ticks_connect<S, I>(
    watch_folder: Option<String>,
    imap: Imap<S, I>,
    cause: Cause,
)
    ensures
        polls(
            FakeStage::Ticking { watch_folder },
            imap,
            FakeOutcome::Tick,
            FakeStage::Connecting { watch_folder },
            FakeAction::ConnectConfigured,
            None,
        ),
        polls(
            FakeStage::Connecting { watch_folder },
            imap,
            FakeOutcome::ConnectFailed(cause),
            FakeStage::Ticking { watch_folder },
            FakeAction::NextTick,
            Some(Note::FakeConnectFailed(cause)),
        ),
        polls(
            FakeStage::Connecting { watch_folder },
            imap,
            FakeOutcome::Done,
            FakeStage::CheckingIdle { watch_folder },
            FakeAction::Continue,
            None,
        ),
        imap.config.can_idle ==> polls(
            FakeStage::CheckingIdle { watch_folder },
            imap,
            FakeOutcome::Done,
            FakeStage::Withdrawing,
            FakeAction::Continue,
            None,
        ),
        !imap.config.can_idle && watch_folder is None ==> polls(
            FakeStage::CheckingIdle { watch_folder },
            imap,
            FakeOutcome::Done,
            FakeStage::Ticking { watch_folder },
            FakeAction::NextTick,
            Some(Note::FakeConnected),
        ),
{
}

/// Polling begins with ticks, 300 seconds apart, that its own token stops; its source is
/// put where interruptions find it; and it waits for ticks unless a wait was forbidden.
pub proof fn polling_begins<S, I>(
    source: stop_token::StopSource,
    token: stop_token::StopToken,
    watch_folder: Option<String>,
    first: Imap<S, I>,
    second: Imap<S, I>,
    third: Imap<S, I>,
)
    ensures
        polls(
            FakeStage::StartingClock { source, token, watch_folder },
            first,
            FakeOutcome::Done,
            FakeStage::Publishing { source, watch_folder },
            FakeAction::StartTicks { token, secs: 300 },
            Some(Note::FakeIdling),
        ),
        polls(
            FakeStage::Publishing { source, watch_folder },
            second,
            FakeOutcome::Done,
            FakeStage::CheckingSkip { watch_folder },
            FakeAction::Continue,
            None,
        ),
        (FakeStage::Publishing { source, watch_folder }).shared_after(second) == (Imap {
            interrupt: Some(source),
            ..second
        }),
        !third.skip_next_idle_wait ==> polls(
            FakeStage::CheckingSkip { watch_folder },
            third,
            FakeOutcome::Done,
            FakeStage::Ticking { watch_folder },
            FakeAction::NextTick,
            None,
        ),
        third.skip_next_idle_wait ==> polls(
            FakeStage::CheckingSkip { watch_folder },
            third,
            FakeOutcome::Done,
            FakeStage::ClearingSkip,
            FakeAction::Continue,
            None,
        ),
{
}

/// Polling that is stopped, or was forbidden, takes its source back, tells how long it
/// took, and returns.
pub proof fn polling_returns<S, I>(
    watch_folder: Option<String>,
    first: Imap<S, I>,
    second: Imap<S, I>,
    third: Imap<S, I>,
    secs: String,
)
    ensures
        polls(
            FakeStage::Ticking { watch_folder },
            first,
            FakeOutcome::Stopped,
            FakeStage::Withdrawing,
            FakeAction::Continue,
            None,
        ),
        polls(
            FakeStage::ClearingSkip,
            first,
            FakeOutcome::Done,
            FakeStage::Withdrawing,
            FakeAction::Continue,
            Some(Note::FakeSkipped),
        ),
        FakeStage::ClearingSkip.shared_after(first) == (Imap {
            skip_next_idle_wait: false,
            ..first
        }),
        polls(
            FakeStage::Withdrawing,
            second,
            FakeOutcome::Done,
            FakeStage::ReadingClock,
            FakeAction::ReadClock,
            None,
        ),
        FakeStage::Withdrawing.shared_after(second) == (Imap { interrupt: None, ..second }),
        polls(
            FakeStage::ReadingClock,
            third,
            FakeOutcome::Elapsed(secs),
            FakeStage::Finished,
            FakeAction::Finish,
            Some(Note::FakeDone(secs)),
        ),
{
}

/// A stage of polling shows the folder that it was given.
pub proof fn polling_shows_its_folder(
    source: stop_token::StopSource,
    token: stop_token::StopToken,
    watch_folder: Option<String>,
)
    ensures
        (FakeStage::StartingClock { source, token, watch_folder }).folder() == watch_folder,
        (FakeStage::Publishing { source, watch_folder }).folder() == watch_folder,
        (FakeStage::CheckingSkip { watch_folder }).folder() == watch_folder,
        (FakeStage::Ticking { watch_folder }).folder() == watch_folder,
        (FakeStage::Connecting { watch_folder }).folder() == watch_folder,
        (FakeStage::CheckingIdle { watch_folder }).folder() == watch_folder,
        (FakeStage::Fetching { watch_folder }).folder() == watch_folder,
        (FakeStage::Reconnecting { watch_folder }).folder() == watch_folder,
{
}

/// Polling leaves alone what threads share, but for its stop source and the request to
/// skip.
pub proof fn polling_touches_little<S, I>(stage: FakeStage, imap: Imap<S, I>)
    ensures
        stage.shared_after(imap).config == imap.config,
        stage.shared_after(imap).session == imap.session,
        stage.shared_after(imap).max_timeout_duration == imap.max_timeout_duration,
        stage.shared_after(imap).interrupt == imap.interrupt || stage is Publishing
            || stage is Withdrawing,
        stage.shared_after(imap).skip_next_idle_wait == (imap.skip_next_idle_wait && !(
        stage is ClearingSkip)),
{
}

/// Whether a stage of an interruption leads to another one with an action and a note.
pub open spec fn interrupts<S, I>(
    from: InterruptStage,
    imap: Imap<S, I>,
    to: InterruptStage,
    action: InterruptAction,
    note: Option<Note>,
) -> bool {
    &&& from.stage_after(imap) == to
    &&& from.action_after(imap) == action
    &&& from.note_after() == note
}

/// An interruption takes the stop source that it finds, at its first look and at its
/// second. It sleeps for 200 milliseconds, and drops that very source.
pub proof fn found_sources_are_dropped<S, I>(
    source: stop_token::StopSource,
    otherwise: InterruptStage,
    imap: Imap<S, I>,
    later: Imap<S, I>,
)
    requires
        imap.interrupt == Some(source),
    ensures
        after_taking(imap.interrupt, otherwise) == InterruptStage::Holding(source),
        interrupts(
            InterruptStage::TakingAgain,
            imap,
            InterruptStage::Holding(source),
            InterruptAction::Sleep { millis: 200 },
            None,
        ),
        interrupts(
            InterruptStage::Holding(source),
            later,
            InterruptStage::Finished,
            InterruptAction::Release(source),
            Some(Note::DroppingSource),
        ),
{
}

/// An interruption that finds no stop source forbids the next wait, looks once more, and
/// ends if there is none again.
pub proof fn missing_sources_forbid_the_next_wait<S, I>(first: Imap<S, I>, second: Imap<S, I>)
    requires
        second.interrupt is None,
    ensures
        after_taking(None, InterruptStage::RequestingSkip) == InterruptStage::RequestingSkip,
        interrupts(
            InterruptStage::RequestingSkip,
            first,
            InterruptStage::TakingAgain,
            InterruptAction::Continue,
            None,
        ),
        InterruptStage::RequestingSkip.shared_after(first) == (Imap {
            skip_next_idle_wait: true,
            ..first
        }),
        interrupts(
            InterruptStage::TakingAgain,
            second,
            InterruptStage::Finished,
            InterruptAction::Finish,
            None,
        ),
{
}

/// An interruption leaves alone what threads share, but for the stop source that it
/// takes and the request to skip that it makes.
pub proof fn interrupting_touches_little<S, I>(stage: InterruptStage, imap: Imap<S, I>)
    ensures
        stage.shared_after(imap) == (Imap {
            interrupt: if stage is TakingAgain {
                None
            } else {
                imap.interrupt
            },
            skip_next_idle_wait: imap.skip_next_idle_wait || stage is RequestingSkip,
            ..imap
        }),
{
}

} // verus!
