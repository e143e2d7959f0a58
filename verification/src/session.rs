//! The session state machine: the per-iteration decisions of the capture
//! loop and the one-shot cancellation watcher.
//!
//! The loop itself performs blocking device and terminal work, so it runs
//! outside the library; every decision it takes — draw another frame, or
//! leave the loop and restore the terminal exactly once — is the step
//! function below, and the proofs at the end show how a whole run behaves.

use vstd::prelude::*;

verus! {

/// Where the session stands: still streaming frames, or finished with the
/// terminal already restored.
#[derive(Clone, Copy, Debug, PartialEq, Eq, Structural)]
pub enum SessionState {
    Running,
    Restored,
}

/// What the loop observes at the top of an iteration: the poll of the
/// cancellation flag, or a fatal frame failure (capture or flush) that ends
/// the session.
#[derive(Clone, Copy, Debug, PartialEq, Eq, Structural)]
pub enum Event {
    Poll { cancelled: bool },
    FrameFailed,
}

/// What the loop must do next.
#[derive(Clone, Copy, Debug, PartialEq, Eq, Structural)]
pub enum Action {
    /// Capture, convert, resize and draw one whole frame.
    DrawFrame,
    /// Leave the loop and restore the terminal.
    Restore,
    /// Nothing: the session is already over.
    Idle,
}

/// One decision of the main loop. While running, an uncancelled poll draws
/// one whole frame; a cancelled poll or a frame failure restores the
/// terminal and ends the session. A finished session never acts again, so
/// the terminal is never restored twice.
pub open spec fn spec_step(s: SessionState, e: Event) -> (SessionState, Action) {
    match s {
        SessionState::Running => match e {
            Event::Poll { cancelled } => if cancelled {
                (SessionState::Restored, Action::Restore)
            } else {
                (SessionState::Running, Action::DrawFrame)
            },
            Event::FrameFailed => (SessionState::Restored, Action::Restore),
        },
        SessionState::Restored => (SessionState::Restored, Action::Idle),
    }
}

/// Take one step of the session.
pub fn step(s: SessionState, e: Event) -> (r: (SessionState, Action))
    ensures
        r == spec_step(s, e),
{
    match s {
        SessionState::Running => match e {
            Event::Poll { cancelled } => if cancelled {
                (SessionState::Restored, Action::Restore)
            } else {
                (SessionState::Running, Action::DrawFrame)
            },
            Event::FrameFailed => (SessionState::Restored, Action::Restore),
        },
        SessionState::Restored => (SessionState::Restored, Action::Idle),
    }
}

/// The state after a whole run of events.
pub open spec fn run_state(s: SessionState, es: Seq<Event>) -> SessionState
    decreases es.len(),
{
    if es.len() == 0 {
        s
    } else {
        run_state(spec_step(s, es[0]).0, es.drop_first())
    }
}

/// The actions a whole run of events takes, in order.
pub open spec fn run_actions(s: SessionState, es: Seq<Event>) -> Seq<Action>
    decreases es.len(),
{
    if es.len() == 0 {
        Seq::empty()
    } else {
        seq![spec_step(s, es[0]).1] + run_actions(spec_step(s, es[0]).0, es.drop_first())
    }
}

/// How many restorations a run of actions performs.
pub open spec fn count_restores(s: Seq<Action>) -> int
    decreases s.len(),
{
    if s.len() == 0 {
        0
    } else {
        (if s[0] is Restore {
            1int
        } else {
            0int
        }) + count_restores(s.drop_first())
    }
}

/// The terminal is restored at most once over any run, and never once the
/// session has already finished.
pub proof fn lemma_restore_at_most_once(s: SessionState, es: Seq<Event>)
    ensures
        count_restores(run_actions(s, es)) <= 1,
        s is Restored ==> count_restores(run_actions(s, es)) == 0,
        run_state(s, es) is Running ==> count_restores(run_actions(s, es)) == 0,
    decreases es.len(),
{
    if es.len() > 0 {
        let (s2, a) = spec_step(s, es[0]);
        lemma_restore_at_most_once(s2, es.drop_first());
        if s2 is Restored {
            lemma_run_keeps_restored(s2, es.drop_first());
        }
        let whole = seq![a] + run_actions(s2, es.drop_first());
        assert(whole.drop_first() =~= run_actions(s2, es.drop_first()));
        assert(whole[0] == a);
    }
}

/// Once cancellation (or a fatal frame failure) is observed, the run ends
/// with the session finished.
pub proof fn lemma_trigger_finishes(s: SessionState, es: Seq<Event>, k: int)
    requires
        0 <= k < es.len(),
        es[k] == (Event::Poll { cancelled: true }) || es[k] is FrameFailed,
    ensures
        run_state(s, es) is Restored,
    decreases es.len(),
{
    let (s2, _) = spec_step(s, es[0]);
    if k == 0 {
        lemma_run_keeps_restored(s2, es.drop_first());
    } else {
        lemma_trigger_finishes(s2, es.drop_first(), k - 1);
    }
}

/// A finished session stays finished.
pub proof fn lemma_run_keeps_restored(s: SessionState, es: Seq<Event>)
    requires
        s is Restored,
    ensures
        run_state(s, es) is Restored,
    decreases es.len(),
{
    if es.len() > 0 {
        lemma_run_keeps_restored(spec_step(s, es[0]).0, es.drop_first());
    }
}

/// Setting the flag mid-loop ends the session after the current iteration,
/// and the terminal restoration runs exactly once over the whole run: the
/// cancelled poll (or the fatal failure) at position `k` finishes the
/// session, a finished session acts no further, and no run restores twice.
pub proof fn lemma_cancellation_restores_once(es: Seq<Event>, k: int)
    requires
        0 <= k < es.len(),
        es[k] == (Event::Poll { cancelled: true }) || es[k] is FrameFailed,
    ensures
        run_state(SessionState::Running, es) is Restored,
        count_restores(run_actions(SessionState::Running, es)) == 1,
{
    lemma_trigger_finishes(SessionState::Running, es, k);
    lemma_restore_at_most_once(SessionState::Running, es);
    lemma_restored_means_one(SessionState::Running, es);
}

/// A run that ends finished restored the terminal exactly once, provided it
/// began running.
proof fn lemma_restored_means_one(s: SessionState, es: Seq<Event>)
    requires
        s is Running,
        run_state(s, es) is Restored,
    ensures
        count_restores(run_actions(s, es)) >= 1,
    decreases es.len(),
{
    if es.len() > 0 {
        let (s2, a) = spec_step(s, es[0]);
        let whole = seq![a] + run_actions(s2, es.drop_first());
        assert(whole.drop_first() =~= run_actions(s2, es.drop_first()));
        assert(whole[0] == a);
        if s2 is Running {
            lemma_restored_means_one(s2, es.drop_first());
        } else {
            lemma_count_nonnegative(run_actions(s2, es.drop_first()));
        }
    }
}

/// A count of restorations is never negative.
proof fn lemma_count_nonnegative(s: Seq<Action>)
    ensures
        count_restores(s) >= 0,
    decreases s.len(),
{
    if s.len() > 0 {
        lemma_count_nonnegative(s.drop_first());
    }
}

/// The one-shot cancellation watcher after its single blocking read: a
/// successful read signals cancellation and sets the flag; a failed read
/// stops the watcher silently, leaving the flag clear. It never re-arms.
#[derive(Clone, Copy, Debug, PartialEq, Eq, Structural)]
pub enum WatcherState {
    Waiting,
    Signaled,
    Stopped,
}

/// Resolve the watcher's single read: the flag is set if and only if the
/// read succeeded.
pub fn watcher_resolve(read_ok: bool) -> (r: (WatcherState, bool))
    ensures
        r.0 is Signaled <==> read_ok,
        r.0 is Stopped <==> !read_ok,
        r.1 == read_ok,
{
    if read_ok {
        (WatcherState::Signaled, true)
    } else {
        (WatcherState::Stopped, false)
    }
}

} // verus!
