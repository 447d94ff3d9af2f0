//! How a waiting thread and the threads that interrupt it meet.
//!
//! They share two things: the place where a waiting thread puts the stop source of
//! its wait, and the flag that forbids the next wait. Threads come in between each
//! other at any point. What is proved here holds for every order in which they do.

use vstd::prelude::*;
use crate::imap::fake_idle::{FakeOutcome, FakeStage};
use crate::imap::idle::{Outcome, Stage};
use crate::imap::interrupt::{after_taking, InterruptStage};
use crate::imap::Imap;

verus! {

/// What waiting and interrupting threads share.
pub struct Meeting {
    pub interrupt: Option<stop_token::StopSource>,
    pub skip_next_idle_wait: bool,
}

/// What a waiting thread is about.
pub enum Waiter {
    /// It does not wait.
    Away,
    /// It has put its stop source in place, and looks whether it may wait.
    Published(stop_token::StopSource),
    /// It must not wait.
    Refused,
    /// It waits.
    Waiting(stop_token::StopSource),
}

impl<S, I> Imap<S, I> {
    /// The part that waiting and interrupting threads share.
    pub open spec fn meeting(self) -> Meeting {
        Meeting { interrupt: self.interrupt, skip_next_idle_wait: self.skip_next_idle_wait }
    }
}

/// What a waiting thread may do.
pub open spec fn waiter_step(a: Waiter, m: Meeting, b: Waiter, n: Meeting) -> bool {
    match (a, b) {
        (Waiter::Away, Waiter::Away) => n.skip_next_idle_wait == m.skip_next_idle_wait && (
        n.interrupt == m.interrupt || n.interrupt is None),
        (Waiter::Away, Waiter::Published(source)) => n == (Meeting {
            interrupt: Some(source),
            ..m
        }),
        (Waiter::Published(_), Waiter::Refused) => m.skip_next_idle_wait && n == m,
        (Waiter::Published(source), Waiter::Waiting(other)) => !m.skip_next_idle_wait && n == m
            && source == other,
        (Waiter::Refused, Waiter::Away) => n == (Meeting { skip_next_idle_wait: false, ..m }),
        (Waiter::Waiting(source), Waiter::Waiting(other)) => n == m && source == other,
        (Waiter::Waiting(_), Waiter::Away) => n == m,
        _ => false,
    }
}

/// What an interrupting thread may do.
pub open spec fn interrupter_step(
    a: InterruptStage,
    m: Meeting,
    b: InterruptStage,
    n: Meeting,
) -> bool {
    match a {
        InterruptStage::RequestingSkip => b is TakingAgain && n == (Meeting {
            skip_next_idle_wait: true,
            ..m
        }),
        InterruptStage::TakingAgain => b == after_taking(m.interrupt, InterruptStage::Finished)
            && n == (Meeting { interrupt: None, ..m }),
        InterruptStage::Holding(_) => b is Finished && n == m,
        InterruptStage::Finished => false,
    }
}

/// The waiting thread at a stage of idling. `w` was the waiting thread before, and
/// `outcome` led to the stage.
pub open spec fn idle_waiter<S, I>(
    stage: Stage<S, I>,
    w: Waiter,
    outcome: Outcome<S, I>,
) -> Waiter {
    match stage {
        Stage::CheckingSkip(_) => Waiter::Published(outcome->Armed_0),
        Stage::ClearingSkip(_) => Waiter::Refused,
        Stage::Waiting(_) => Waiter::Waiting(w->Published_0),
        _ => Waiter::Away,
    }
}

/// Whether a stage of idling and a waiting thread go together.
pub open spec fn idle_stands_for<S, I>(stage: Stage<S, I>, w: Waiter) -> bool {
    match stage {
        Stage::CheckingSkip(_) => w is Published,
        Stage::ClearingSkip(_) => w is Refused,
        Stage::Waiting(_) => w is Waiting,
        _ => w is Away,
    }
}

/// The waiting thread at a stage of polling. `w` was the waiting thread before, and
/// `from` the stage before.
pub open spec fn fake_waiter(stage: FakeStage, w: Waiter, from: FakeStage) -> Waiter {
    match stage {
        FakeStage::CheckingSkip { .. } => Waiter::Published(from->Publishing_source),
        FakeStage::ClearingSkip => Waiter::Refused,
        FakeStage::Ticking { .. } => match w {
            Waiter::Published(source) => Waiter::Waiting(source),
            _ => w,
        },
        FakeStage::Connecting { .. } => w,
        FakeStage::CheckingIdle { .. } => w,
        FakeStage::Fetching { .. } => w,
        FakeStage::Reconnecting { .. } => w,
        _ => Waiter::Away,
    }
}

/// Whether a stage of polling and a waiting thread go together.
pub open spec fn fake_stands_for(stage: FakeStage, w: Waiter) -> bool {
    match stage {
        FakeStage::CheckingSkip { .. } => w is Published,
        FakeStage::ClearingSkip => w is Refused,
        FakeStage::Ticking { .. } => w is Waiting,
        FakeStage::Connecting { .. } => w is Waiting,
        FakeStage::CheckingIdle { .. } => w is Waiting,
        FakeStage::Fetching { .. } => w is Waiting,
        FakeStage::Reconnecting { .. } => w is Waiting,
        _ => w is Away,
    }
}

/// Idling does what a waiting thread may do, step by step.
pub proof fn idling_keeps_the_rules<S, I>(
    stage: Stage<S, I>,
    w: Waiter,
    imap: Imap<S, I>,
    outcome: Outcome<S, I>,
)
    requires
        stage.answered_by(outcome),
        idle_stands_for(stage, w),
    ensures
        idle_stands_for(
            stage.stage_after(imap, outcome),
            idle_waiter(stage.stage_after(imap, outcome), w, outcome),
        ),
        waiter_step(
            w,
            imap.meeting(),
            idle_waiter(stage.stage_after(imap, outcome), w, outcome),
            stage.shared_after(imap, outcome).meeting(),
        ),
{
}

/// Polling does what a waiting thread may do, step by step.
pub proof fn polling_keeps_the_rules<S, I>(
    stage: FakeStage,
    w: Waiter,
    imap: Imap<S, I>,
    outcome: FakeOutcome,
)
    requires
        stage.answered_by(outcome),
        fake_stands_for(stage, w),
    ensures
        fake_stands_for(
            stage.stage_after(imap, outcome),
            fake_waiter(stage.stage_after(imap, outcome), w, stage),
        ),
        waiter_step(
            w,
            imap.meeting(),
            fake_waiter(stage.stage_after(imap, outcome), w, stage),
            stage.shared_after(imap).meeting(),
        ),
{
}

/// Interrupting does what an interrupting thread may do, step by step.
pub proof fn interrupting_keeps_the_rules<S, I>(stage: InterruptStage, imap: Imap<S, I>)
    requires
        !(stage is Finished),
    ensures
        interrupter_step(
            stage,
            imap.meeting(),
            stage.stage_after(imap),
            stage.shared_after(imap).meeting(),
        ),
{
}

/// A waiting thread, an interrupting thread and what they share, at some moment.
/// There may be other interrupting threads.
pub struct Moment {
    pub meeting: Meeting,
    pub waiter: Waiter,
    pub interrupter: InterruptStage,
    /// The stop sources that some interrupting thread took, in order to drop them.
    pub doomed: Set<stop_token::StopSource>,
    /// Whether the waiting thread was refused a wait.
    pub turned_away: bool,
}

/// The waiting thread takes a step.
pub open spec fn waiter_moves(a: Moment, b: Moment) -> bool {
    &&& waiter_step(a.waiter, a.meeting, b.waiter, b.meeting)
    &&& b.interrupter == a.interrupter
    &&& b.doomed == a.doomed
    &&& b.turned_away == (a.turned_away || a.waiter is Refused)
}

/// The interrupting thread takes a step.
pub open spec fn interrupter_moves(a: Moment, b: Moment) -> bool {
    &&& interrupter_step(a.interrupter, a.meeting, b.interrupter, b.meeting)
    &&& b.waiter == a.waiter
    &&& b.doomed == (match b.interrupter {
        InterruptStage::Holding(source) => a.doomed.insert(source),
        _ => a.doomed,
    })
    &&& b.turned_away == a.turned_away
}

/// Some other interrupting thread looks for a stop source, and takes it if there is
/// one.
pub open spec fn other_takes(a: Moment, b: Moment) -> bool {
    b == (Moment {
        meeting: Meeting { interrupt: None, ..a.meeting },
        doomed: match a.meeting.interrupt {
            Some(source) => a.doomed.insert(source),
            None => a.doomed,
        },
        ..a
    })
}

/// Some other interrupting thread forbids the next wait.
pub open spec fn other_forbids(a: Moment, b: Moment) -> bool {
    b == (Moment { meeting: Meeting { skip_next_idle_wait: true, ..a.meeting }, ..a })
}

/// Some thread takes a step.
pub open spec fn moves(a: Moment, b: Moment) -> bool {
    ||| waiter_moves(a, b)
    ||| interrupter_moves(a, b)
    ||| other_takes(a, b)
    ||| other_forbids(a, b)
}

/// Moments that follow one another.
pub open spec fn is_history(moments: Seq<Moment>) -> bool {
    &&& moments.len() > 0
    &&& forall|i: int|
        0 <= i < moments.len() - 1 ==> moves(#[trigger] moments[i], moments[i + 1])
}

/// The last moment of a history follows from what was before.
proof fn lemma_shorter_history(moments: Seq<Moment>)
    requires
        is_history(moments),
        moments.len() > 1,
    ensures
        is_history(moments.drop_last()),
        moments.drop_last()[0] == moments[0],
        moves(moments.drop_last().last(), moments.last()),
{
    let before = moments.drop_last();
    assert forall|i: int| 0 <= i < before.len() - 1 implies moves(
        #[trigger] before[i],
        before[i + 1],
    ) by {
        assert(moves(moments[i], moments[i + 1]));
    }
    assert(moves(moments[moments.len() - 2], moments[moments.len() - 2 + 1]));
}

/// Whether the waiting thread's stop source can be found where it belongs, or is
/// about to be dropped.
pub open spec fn can_be_ended(m: Moment) -> bool {
    match m.waiter {
        Waiter::Published(source) => m.meeting.interrupt == Some(source) || m.doomed.contains(
            source,
        ),
        Waiter::Waiting(source) => m.meeting.interrupt == Some(source) || m.doomed.contains(source),
        _ => true,
    }
}

/// Every wait can be ended at any time: as long as it goes on, an interrupting
/// thread finds its stop source, unless one found it before.
pub proof fn every_wait_can_be_ended(moments: Seq<Moment>)
    requires
        is_history(moments),
        moments[0].waiter is Away,
    ensures
        can_be_ended(moments.last()),
    decreases moments.len(),
{
    if moments.len() > 1 {
        lemma_shorter_history(moments);
        every_wait_can_be_ended(moments.drop_last());
    }
}

/// One interruption is enough to end a wait: whoever looks for the stop source while
/// a wait goes on, it is about to be dropped from then on.
pub proof fn one_interruption_ends_a_wait(
    moments: Seq<Moment>,
    source: stop_token::StopSource,
    after: Moment,
)
    requires
        is_history(moments),
        moments[0].waiter is Away,
        moments.last().waiter == Waiter::Waiting(source) || moments.last().waiter
            == Waiter::Published(source),
        other_takes(moments.last(), after),
    ensures
        after.doomed.contains(source),
{
    every_wait_can_be_ended(moments);
}

/// Whether an interruption that found nothing to end is sure to be noticed.
pub open spec fn will_be_noticed(m: Moment) -> bool {
    ||| m.turned_away
    ||| match m.interrupter {
        InterruptStage::RequestingSkip => true,
        InterruptStage::TakingAgain => m.meeting.skip_next_idle_wait,
        _ => m.meeting.skip_next_idle_wait && (m.waiter matches Waiter::Waiting(source)
            ==> m.doomed.contains(source)),
    }
}

/// A single step keeps an interruption from being lost.
proof fn lemma_noticed_step(a: Moment, b: Moment)
    requires
        moves(a, b),
        can_be_ended(a),
        will_be_noticed(a),
    ensures
        will_be_noticed(b),
{
    if waiter_moves(a, b) {
    } else if interrupter_moves(a, b) {
    } else if other_takes(a, b) {
    } else {
        assert(other_forbids(a, b));
    }
}

/// No interruption is lost. One that comes while no wait has begun, and finds no
/// stop source, forbids the next wait. Once it is over, the waiting thread was
/// refused a wait, or will be refused the next one; and if it got to wait before
/// that, its stop source is about to be dropped.
///
/// An interruption that comes while no wait has begun may find a stop source all the
/// same: a run with the IDLE command leaves its source in place when it ends. Such an
/// interruption is spent on that source. It forbids no wait, and the next wait does
/// not notice it.
pub proof fn no_interruption_is_lost(moments: Seq<Moment>)
    requires
        is_history(moments),
        moments[0].waiter is Away,
        moments[0].interrupter is RequestingSkip,
    ensures
        will_be_noticed(moments.last()),
    decreases moments.len(),
{
    if moments.len() > 1 {
        let before = moments.drop_last();
        lemma_shorter_history(moments);
        no_interruption_is_lost(before);
        every_wait_can_be_ended(before);
        lemma_noticed_step(before.last(), moments.last());
    }
}

} // verus!
