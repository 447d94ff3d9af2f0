//! What holds of every run, with the IDLE command and by polling.

use vstd::prelude::*;
use crate::cause::Cause;
use crate::imap::fake_idle::{FakeOutcome, FakeStage};
use crate::imap::idle::{
    Action, Error, Outcome, Stage, Wait, MAX_IDLE_DUR_LONG, MAX_IDLE_DUR_SHORT, MAX_LOOP, WAIT_SECS,
};
use crate::imap::interrupt::{InterruptAction, InterruptStage};
use crate::imap::{Imap, Security};

verus! {

/// Bounds the steps from the preparation of the `n`th wait to the end of the run.
pub open spec fn steps_from(n: int) -> int {
    4 * (MAX_LOOP + 2 - n) + 3
}

/// Bounds the steps from a stage to the end of the run.
pub open spec fn steps_left<S, I>(stage: Stage<S, I>) -> int {
    match stage {
        Stage::SettingUp { .. } => steps_from(1) + 5,
        Stage::SelectingFolder => steps_from(1) + 4,
        Stage::TakingSession => steps_from(1) + 3,
        Stage::StartingClock { .. } => steps_from(1) + 2,
        Stage::EnteringIdle(_) => steps_from(1) + 1,
        Stage::Arming(w) => steps_from(w.n as int),
        Stage::CheckingSkip(w) => steps_from(w.n as int) - 1,
        Stage::ClearingSkip(w) => steps_from(w.n as int) - 2,
        Stage::Waiting(w) => steps_from(w.n as int) - 2,
        Stage::ReadingClock(w) => steps_from(w.n as int) - 3,
        Stage::Terminating(_) => 3,
        Stage::ShorteningLimit(_) => 2,
        Stage::StoringSession(_) => 1,
        Stage::Reconnecting(_) => 1,
        Stage::Finished => 0,
    }
}

/// Every run with the IDLE command ends: whatever comes of the actions, each step
/// brings the end nearer.
pub proof fn idling_ends<S, I>(stage: Stage<S, I>, imap: Imap<S, I>, outcome: Outcome<S, I>)
    requires
        stage.wf(),
        stage.answered_by(outcome),
    ensures
        0 <= steps_left(stage.stage_after(imap, outcome)) < steps_left(stage),
{
}

/// Every interruption ends, after three steps at most.
pub proof fn interrupting_ends<S, I>(first: Imap<S, I>, second: Imap<S, I>, third: Imap<S, I>)
    ensures
        InterruptStage::RequestingSkip.stage_after(first).stage_after(second) is Finished
            || InterruptStage::RequestingSkip.stage_after(first).stage_after(second).stage_after(
            third,
        ) is Finished,
{
}

/// What an interruption takes, it drops.
pub proof fn what_is_taken_is_dropped<S, I>(source: stop_token::StopSource, imap: Imap<S, I>)
    ensures
        InterruptStage::Holding(source).action_after(imap) == InterruptAction::Release(source),
{
}

/// A secure wait is repeated after a timeout as long as the count and the time allow
/// it, and never otherwise.
pub proof fn secure_waits_are_repeated<S, I>(w: Wait, imap: Imap<S, I>, outcome: Outcome<S, I>)
    requires
        Stage::ReadingClock(w).answered_by(outcome),
    ensures
        Stage::ReadingClock(w).stage_after(imap, outcome) is Arming <==> w.n <= MAX_LOOP
            && outcome->Elapsed_0 <= w.max_timeout_duration,
{
}

/// An insecure wait is never repeated.
pub proof fn insecure_waits_are_not_repeated<S, I>(
    w: Wait,
    imap: Imap<S, I>,
    outcome: Outcome<S, I>,
)
    requires
        w.security == Security::Insecure,
        Stage::Waiting(w).answered_by(outcome),
    ensures
        Stage::Waiting(w).stage_after(imap, outcome) is Terminating,
{
}

/// The waits of a run that only times out make up 20 minutes before the last one.
pub proof fn loops_make_twenty_minutes()
    ensures
        MAX_LOOP * WAIT_SECS == 20 * 60,
{
}

/// A time limit that the library sets.
pub open spec fn is_limit(secs: u64) -> bool {
    secs == MAX_IDLE_DUR_LONG || secs == MAX_IDLE_DUR_SHORT
}

/// Whether the time limit is a known one. It may be missing before a run has begun
/// in earnest.
pub open spec fn limit_known<S, I>(stage: Stage<S, I>, imap: Imap<S, I>) -> bool {
    &&& is_limit(imap.max_timeout_duration) || (imap.max_timeout_duration == 0 && (
    stage is SettingUp || stage is SelectingFolder || stage is Finished))
    &&& stage.wait() matches Some(w) ==> is_limit(w.max_timeout_duration)
}

/// Every wait has a time limit, the long or the short one: a run that begins with a
/// known limit, or none, keeps it known.
pub proof fn every_wait_has_a_limit<S, I>(
    stage: Stage<S, I>,
    imap: Imap<S, I>,
    outcome: Outcome<S, I>,
)
    requires
        stage.answered_by(outcome),
        limit_known(stage, imap),
    ensures
        limit_known(stage.stage_after(imap, outcome), stage.shared_after(imap, outcome)),
{
}

/// A secure run that failed at its end shortens the waits of the next run, and one
/// that ended well makes them long again.
pub proof fn limit_of_the_next_run<S, I>(imap: Imap<S, I>, later: Imap<S, I>, session: S, cause: Cause)
    ensures
        Stage::<S, I>::Terminating(Security::Secure).stage_after(
            imap,
            Outcome::TerminateFailed(cause),
        ) == Stage::<S, I>::ShorteningLimit(cause),
        Stage::<S, I>::ShorteningLimit(cause).shared_after(
            later,
            Outcome::Done,
        ).with_idle_timeout().max_timeout_duration == MAX_IDLE_DUR_SHORT,
        Stage::<S, I>::Terminating(Security::Secure).shared_after(
            imap,
            Outcome::Terminated(crate::imap::Session::Secure(session)),
        ).with_idle_timeout().max_timeout_duration == MAX_IDLE_DUR_LONG,
{
}

/// A point of a run where the caller comes back with an outcome.
pub struct Pause<S, I> {
    pub stage: Stage<S, I>,
    pub imap: Imap<S, I>,
    pub outcome: Outcome<S, I>,
}

impl<S, I> Pause<S, I> {
    /// Where the run goes on.
    pub open spec fn next(self) -> Stage<S, I> {
        self.stage.stage_after(self.imap, self.outcome)
    }

    /// What the run leaves behind.
    pub open spec fn shared(self) -> Imap<S, I> {
        self.stage.shared_after(self.imap, self.outcome)
    }

    /// What the run asks for.
    pub open spec fn action(self) -> Action<S, I> {
        self.stage.action_after(self.imap, self.outcome)
    }
}

/// Pauses that follow one another.
pub open spec fn are_consecutive<S, I>(pauses: Seq<Pause<S, I>>) -> bool {
    &&& pauses.len() > 0
    &&& forall|i: int|
        0 <= i < pauses.len() ==> (#[trigger] pauses[i]).stage.answered_by(pauses[i].outcome)
    &&& forall|i: int|
        0 <= i < pauses.len() - 1 ==> pauses[i + 1].stage == (#[trigger] pauses[i]).next()
}

/// A well-formed stage leads to a well-formed one, and the end comes nearer.
proof fn lemma_progress<S, I>(pauses: Seq<Pause<S, I>>, i: int)
    requires
        are_consecutive(pauses),
        pauses[0].stage.wf(),
        0 <= i < pauses.len(),
    ensures
        pauses[i].stage.wf(),
        i + steps_left(pauses[i].stage) <= steps_left(pauses[0].stage),
    decreases i,
{
    if i > 0 {
        lemma_progress(pauses, i - 1);
        let before = pauses[i - 1];
        assert(before.stage.answered_by(before.outcome));
        assert(pauses[i - 1 + 1].stage == before.next());
        idling_ends(before.stage, before.imap, before.outcome);
    }
}

/// No run with the IDLE command goes on for ever: from any stage on, the caller
/// comes back a bounded number of times, whatever the outcomes and whatever other
/// threads do.
pub proof fn runs_are_bounded<S, I>(pauses: Seq<Pause<S, I>>)
    requires
        are_consecutive(pauses),
        pauses[0].stage.wf(),
    ensures
        pauses.len() <= steps_left(pauses[0].stage),
{
    let last = pauses.last();
    lemma_progress(pauses, pauses.len() - 1);
    assert(last.stage.answered_by(last.outcome));
    idling_ends(last.stage, last.imap, last.outcome);
}

/// The pauses of a run, from the moment in which the connection is taken to the end.
/// Other threads leave the connection alone.
pub open spec fn is_run<S, I>(pauses: Seq<Pause<S, I>>) -> bool {
    &&& are_consecutive(pauses)
    &&& pauses[0].stage is TakingSession
    &&& pauses.last().next() is Finished
    &&& forall|i: int|
        0 <= i < pauses.len() - 1 ==> pauses[i + 1].imap.session == (
        #[trigger] pauses[i]).shared().session
}

/// What a run returns.
pub open spec fn result_of<S, I>(pauses: Seq<Pause<S, I>>) -> Result<(), Error> {
    pauses.last().stage.verdict(pauses.last().outcome)
}

/// Whether a stage has a connection of some kind in its care, or has given it up.
pub open spec fn cares_for<S, I>(stage: Stage<S, I>, security: Security) -> bool {
    match (stage, stage.wait()) {
        (_, Some(w)) => w.security == security,
        (Stage::StartingClock { session: Some(session) }, _) => session.kind() == security,
        (Stage::Terminating(s), _) => s == security,
        (Stage::StoringSession(session), _) => session.kind() == security,
        (Stage::ShorteningLimit(_), _) => true,
        (Stage::Reconnecting(_), _) => true,
        _ => false,
    }
}

/// From the second pause on, a run has the connection in its care.
proof fn lemma_run_cares<S, I>(pauses: Seq<Pause<S, I>>, i: int)
    requires
        is_run(pauses),
        pauses[0].imap.session is Some,
        1 <= i < pauses.len(),
    ensures
        cares_for(pauses[i].stage, pauses[0].imap.session->0.kind()),
        pauses[i].imap.session is None,
    decreases i,
{
    let before = pauses[i - 1];
    assert(before.stage.answered_by(before.outcome));
    assert(pauses[i - 1 + 1].stage == before.next());
    assert(pauses[i - 1 + 1].imap.session == before.shared().session);
    if i > 1 {
        lemma_run_cares(pauses, i - 1);
        // A stage after the last one answers to nothing.
        assert(pauses[i].stage.answered_by(pauses[i].outcome));
    }
}

/// The connection comes back. A run that ends well puts a connection of the same
/// kind in the place of the one it took; one that fails leaves the place empty; and
/// one that found no connection ends well at once.
pub proof fn connection_comes_back<S, I>(pauses: Seq<Pause<S, I>>)
    requires
        is_run(pauses),
    ensures
        match pauses[0].imap.session {
            None => result_of(pauses) is Ok && pauses.last().shared().session is None,
            Some(session) => match result_of(pauses) {
                Ok(()) => pauses.last().shared().session matches Some(s) && s.kind()
                    == session.kind(),
                Err(_) => pauses.last().shared().session is None,
            },
        },
{
    let last = pauses.last();
    assert(last.stage.answered_by(last.outcome));
    if pauses.len() > 1 {
        assert(pauses[1].stage == pauses[0].next());
        assert(pauses[1].imap.session == pauses[0].shared().session);
        if pauses[0].imap.session is Some {
            lemma_run_cares(pauses, pauses.len() - 1);
        } else if pauses.len() > 2 {
            assert(pauses[2].stage == pauses[1].next());
            assert(pauses[2].stage.answered_by(pauses[2].outcome));
        }
    }
}

/// Whether the pauses are those of a run, from the beginning or from the moment in
/// which the connection is taken, to the end.
pub open spec fn is_complete<S, I>(pauses: Seq<Pause<S, I>>) -> bool {
    &&& are_consecutive(pauses)
    &&& pauses[0].stage is SettingUp || pauses[0].stage is TakingSession
    &&& pauses.last().next() is Finished
}

/// Whether a run failed after idling began.
pub open spec fn broke_down<S, I>(pauses: Seq<Pause<S, I>>) -> bool {
    let last = pauses.last().stage;
    result_of(pauses) is Err && !(last is SettingUp || last is SelectingFolder
        || last is EnteringIdle)
}

/// A broken connection is replaced, and no other one is. A run that fails after idling
/// began asks for a new connection exactly once, right before it returns; a run that
/// ends well, or fails before, never does.
pub proof fn failure_asks_for_a_connection<S, I>(pauses: Seq<Pause<S, I>>)
    requires
        is_complete(pauses),
    ensures
        broke_down(pauses) ==> pauses.len() >= 2,
        forall|j: int|
            0 <= j < pauses.len() ==> ((#[trigger] pauses[j]).action() is TriggerReconnect <==> (
            broke_down(pauses) && j == pauses.len() - 2)),
{
    let last = pauses.last();
    assert(last.stage.answered_by(last.outcome));
    if broke_down(pauses) {
        assert(last.stage is Reconnecting);
        let before = pauses[pauses.len() - 2];
        assert(before.stage.answered_by(before.outcome));
        assert(pauses[pauses.len() - 2 + 1].stage == before.next());
        assert(before.action() is TriggerReconnect);
    }
    assert forall|j: int|
        0 <= j < pauses.len() && (#[trigger] pauses[j]).action() is TriggerReconnect implies (
    broke_down(pauses) && j == pauses.len() - 2) by {
        assert(pauses[j].next() is Reconnecting);
        assert(pauses[j + 1].stage == pauses[j].next());
        assert(pauses[j + 1].next() is Finished);
        if j + 1 < pauses.len() - 1 {
            // A stage after the last one answers to nothing.
            assert(pauses[j + 1 + 1].stage == pauses[j + 1].next());
            assert(pauses[j + 2].stage.answered_by(pauses[j + 2].outcome));
        }
    }
}

/// A request to skip the next wait is used up by one wait, which does not take
/// place.
pub proof fn request_prevents_one_wait<S, I>(w: Wait, imap: Imap<S, I>, later: Imap<S, I>)
    requires
        imap.skip_next_idle_wait,
    ensures
        Stage::CheckingSkip(w).stage_after(imap, Outcome::Done) is ClearingSkip,
        Stage::ClearingSkip(w).stage_after(later, Outcome::Done) is Terminating,
        Stage::ClearingSkip(w).shared_after(later, Outcome::Done) == (Imap {
            skip_next_idle_wait: false,
            ..later
        }),
{
}

/// A request to skip the next wait is used up by one attempt at polling, which does
/// not take place.
pub proof fn request_prevents_one_polling<S, I>(
    watch_folder: Option<String>,
    imap: Imap<S, I>,
    later: Imap<S, I>,
)
    requires
        imap.skip_next_idle_wait,
    ensures
        (FakeStage::CheckingSkip { watch_folder }).stage_after(
            imap,
            FakeOutcome::Done,
        ) is ClearingSkip,
        FakeStage::ClearingSkip.stage_after(later, FakeOutcome::Done) is Withdrawing,
        FakeStage::ClearingSkip.shared_after(later) == (Imap {
            skip_next_idle_wait: false,
            ..later
        }),
{
}

/// Whether polling goes on in a stage.
pub open spec fn is_polling(stage: FakeStage) -> bool {
    stage is Ticking || stage is Connecting || stage is CheckingIdle || stage is Fetching
        || stage is Reconnecting
}

/// Polling goes on until it is stopped, or finds messages, or a server that can
/// idle. Nothing else ends it, in particular no failure.
pub proof fn polling_goes_on<S, I>(stage: FakeStage, imap: Imap<S, I>, outcome: FakeOutcome)
    requires
        is_polling(stage),
        stage.answered_by(outcome),
    ensures
        is_polling(stage.stage_after(imap, outcome)) || stage.stage_after(
            imap,
            outcome,
        ) is Withdrawing,
        stage.stage_after(imap, outcome) is Withdrawing <==> {
            ||| stage is Ticking && outcome is Stopped
            ||| stage is CheckingIdle && imap.config.can_idle
            ||| stage is Fetching && outcome == FakeOutcome::Fetched(true)
        },
{
}

/// Polling looks into one and the same folder all the time.
pub proof fn polling_keeps_the_folder<S, I>(
    stage: FakeStage,
    imap: Imap<S, I>,
    outcome: FakeOutcome,
)
    requires
        stage.answered_by(outcome),
        is_polling(stage.stage_after(imap, outcome)),
    ensures
        stage.stage_after(imap, outcome).folder() == stage.folder(),
{
}

/// Polling asks for a new connection each time that messages could not be looked for,
/// and never otherwise.
pub proof fn polling_asks_for_a_connection<S, I>(
    stage: FakeStage,
    imap: Imap<S, I>,
    outcome: FakeOutcome,
)
    requires
        stage.answered_by(outcome),
    ensures
        stage.action_after(imap, outcome) is TriggerReconnect <==> stage is Fetching
            && outcome is FetchFailed,
{
}

/// Polling leaves no stop source behind: the way to its end leads past the place of
/// the source, which is empty then. Idling does not clean up in this way.
pub proof fn polling_cleans_up<S, I>(stage: FakeStage, imap: Imap<S, I>, outcome: FakeOutcome)
    requires
        stage.answered_by(outcome),
    ensures
        stage.stage_after(imap, outcome) is Finished ==> stage is ReadingClock,
        stage.stage_after(imap, outcome) is ReadingClock ==> stage is Withdrawing
            && stage.shared_after(imap).interrupt is None,
{
}

/// Idling leaves its stop source behind: it puts one in place for every wait, and
/// takes none away, not even at its end.
pub proof fn idling_leaves_its_source<S, I>(
    stage: Stage<S, I>,
    imap: Imap<S, I>,
    outcome: Outcome<S, I>,
)
    requires
        stage.answered_by(outcome),
    ensures
        stage.shared_after(imap, outcome).interrupt == (match outcome {
            Outcome::Armed(source) => Some(source),
            _ => imap.interrupt,
        }),
{
}

/// An interruption that found a stop source is spent on it: it forbids no wait, and
/// leaves everything as it is. Where the source is one that idling left behind, no
/// wait is ended either.
pub proof fn interruption_is_spent_on_its_source<S, I>(
    source: stop_token::StopSource,
    imap: Imap<S, I>,
)
    ensures
        InterruptStage::Holding(source).shared_after(imap) == imap,
        InterruptStage::Holding(source).stage_after(imap) is Finished,
{
}

} // verus!
