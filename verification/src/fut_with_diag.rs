//! The wrapper that times and reports every poll of a task.

use crate::absolute_time::{first_wins, Calibration, ClockReading};
use crate::ctxt_with_diag::{
    innermost, without_innermost, wrapped, CurrentTaskContext, DiagnosticWakeHandle,
};
use crate::identity::{id_after, TaskIdentity, TaskIdentityView};
use crate::log_out::{log_poll, poll_event, PollEvent, PollEventView};
use crate::state::Diagnostics;
use std::borrow::Cow;
use vstd::prelude::*;

verus! {

/// What one poll of a computation gave.
#[derive(Debug, PartialEq, Eq)]
pub enum PollOutcome<R> {
    /// The computation is done, with this result.
    Ready(R),
    /// The computation is not done yet.
    Pending,
}

impl<R> PollOutcome<R> {
    /// Whether the computation is done.
    pub fn is_ready(&self) -> (ready: bool)
        ensures
            ready == (*self is Ready),
    {
        match self {
            PollOutcome::Ready(_) => true,
            PollOutcome::Pending => false,
        }
    }
}

/// How far a wrapped task has come.
#[derive(Clone, Copy, Debug, PartialEq, Eq, Structural)]
pub enum TaskPhase {
    /// Never polled.
    Fresh,
    /// Polled at least once, not done.
    Polled,
    /// Done. A task that is done stays done.
    Completed,
}

/// The phase of a task in `phase` after one more poll, which found it done
/// or not.
pub open spec fn phase_after_poll(phase: TaskPhase, ready: bool) -> TaskPhase {
    if ready || phase == TaskPhase::Completed {
        TaskPhase::Completed
    } else {
        TaskPhase::Polled
    }
}

/// The phase of a task in `phase` after one poll per entry of `polls`, each
/// entry saying whether that poll found the task done.
pub open spec fn phase_after_polls(phase: TaskPhase, polls: Seq<bool>) -> TaskPhase
    decreases polls.len(),
{
    if polls.len() == 0 {
        phase
    } else {
        phase_after_poll(phase_after_polls(phase, polls.drop_last()), polls.last())
    }
}

/// Whether poll number `k` (counting from zero) of a task that starts in
/// `phase` and is polled as `polls` says is reported as its first.
pub open spec fn reported_as_first(phase: TaskPhase, polls: Seq<bool>, k: int) -> bool {
    phase_after_polls(phase, polls.take(k)) == TaskPhase::Fresh
}

/// A poll never leaves a task fresh, a task that is done stays done, and a
/// poll that finds the task done makes it so.
pub proof fn lemma_phase_after_polls(phase: TaskPhase, polls: Seq<bool>)
    ensures
        polls.len() > 0 ==> phase_after_polls(phase, polls) != TaskPhase::Fresh,
        phase == TaskPhase::Completed ==> phase_after_polls(phase, polls) == TaskPhase::Completed,
        polls.len() > 0 && polls.last() ==> phase_after_polls(phase, polls)
            == TaskPhase::Completed,
    decreases polls.len(),
{
    if polls.len() > 0 {
        lemma_phase_after_polls(phase, polls.drop_last());
    }
}

/// Of the polls of a task that starts fresh, the first is reported as the
/// first and no other is, however many there are and whatever they find.
pub proof fn lemma_first_poll_reported_once(polls: Seq<bool>, k: int)
    requires
        0 <= k < polls.len(),
    ensures
        reported_as_first(TaskPhase::Fresh, polls, k) == (k == 0),
{
    lemma_phase_after_polls(TaskPhase::Fresh, polls.take(k));
}

/// The mathematical value of a [`DiagnoseFuture`].
pub struct DiagnoseFutureView<T> {
    pub inner: T,
    pub task: TaskIdentityView,
    pub phase: TaskPhase,
    pub calibration: Calibration,
}

/// The value of a wrapper after one more poll, which found the task done or
/// not: only the phase moves.
pub open spec fn polled<T>(wrapper: DiagnoseFutureView<T>, ready: bool) -> DiagnoseFutureView<T> {
    DiagnoseFutureView { phase: phase_after_poll(wrapper.phase, ready), ..wrapper }
}

/// The value of a wrapper after one poll per entry of `polls`.
pub open spec fn polled_all<T>(wrapper: DiagnoseFutureView<T>, polls: Seq<bool>)
    -> DiagnoseFutureView<T>
    decreases polls.len(),
{
    if polls.len() == 0 {
        wrapper
    } else {
        polled(polled_all(wrapper, polls.drop_last()), polls.last())
    }
}

/// Polling through the wrapper leaves the wrapped computation, the task's
/// identity and its calibration as they were; the phase moves as the polls
/// say.
pub proof fn lemma_polls_keep_computation<T>(wrapper: DiagnoseFutureView<T>, polls: Seq<bool>)
    ensures
        polled_all(wrapper, polls).inner == wrapper.inner,
        polled_all(wrapper, polls).task == wrapper.task,
        polled_all(wrapper, polls).calibration == wrapper.calibration,
        polled_all(wrapper, polls).phase == phase_after_polls(wrapper.phase, polls),
    decreases polls.len(),
{
    if polls.len() > 0 {
        lemma_polls_keep_computation(wrapper, polls.drop_last());
    }
}

/// What the wrapper hands back for one poll that ran from `before` to `after`
/// and in which the wrapped computation gave `outcome`: that outcome, and the
/// event that reports the attempt.
pub open spec fn report<T, R>(
    wrapper: DiagnoseFutureView<T>,
    before: u64,
    after: u64,
    outcome: PollOutcome<R>,
) -> (PollOutcome<R>, PollEventView) {
    (
        outcome,
        poll_event(
            wrapper.task,
            before,
            after,
            wrapper.calibration,
            wrapper.phase == TaskPhase::Fresh,
            outcome is Ready,
        ),
    )
}

/// One poll of the wrapped computation: when it began, when it ended, and
/// what the computation gave.
pub struct PollAttempt<R> {
    pub before: u64,
    pub after: u64,
    pub outcome: PollOutcome<R>,
}

/// Which of the attempts found the computation done.
pub open spec fn readiness<R>(attempts: Seq<PollAttempt<R>>) -> Seq<bool> {
    Seq::new(attempts.len(), |k: int| attempts[k].outcome is Ready)
}

/// What the wrapper hands back over a run of polls, one entry per attempt.
pub open spec fn reports<T, R>(wrapper: DiagnoseFutureView<T>, attempts: Seq<PollAttempt<R>>)
    -> Seq<(PollOutcome<R>, PollEventView)> {
    Seq::new(
        attempts.len(),
        |k: int|
            report(
                polled_all(wrapper, readiness(attempts).take(k)),
                attempts[k].before,
                attempts[k].after,
                attempts[k].outcome,
            ),
    )
}

/// The wrapper is transparent. Over any run of polls it hands back, attempt
/// by attempt, the outcome that the wrapped computation gave, and reports
/// each attempt once: under the task's identity, as completed exactly when
/// the outcome is ready, and as the first poll exactly for the first attempt
/// on a fresh task.
pub proof fn lemma_reports_follow_outcomes<T, R>(
    wrapper: DiagnoseFutureView<T>,
    attempts: Seq<PollAttempt<R>>,
    k: int,
)
    requires
        0 <= k < attempts.len(),
    ensures
        reports(wrapper, attempts).len() == attempts.len(),
        reports(wrapper, attempts)[k].0 == attempts[k].outcome,
        reports(wrapper, attempts)[k].1.task_name == wrapper.task.name,
        reports(wrapper, attempts)[k].1.task_id == wrapper.task.id,
        reports(wrapper, attempts)[k].1.completed == (attempts[k].outcome is Ready),
        wrapper.phase == TaskPhase::Fresh ==> reports(wrapper, attempts)[k].1.is_first_poll == (k
            == 0),
{
    let earlier = readiness(attempts).take(k);
    lemma_polls_keep_computation(wrapper, earlier);
    lemma_phase_after_polls(wrapper.phase, earlier);
}

/// Wraps a computation and adds diagnostics to it.
#[derive(Debug)]
pub struct DiagnoseFuture<T> {
    inner: T,
    task: TaskIdentity,
    phase: TaskPhase,
    calibration: Calibration,
}

impl<T> View for DiagnoseFuture<T> {
    type V = DiagnoseFutureView<T>;

    closed spec fn view(&self) -> DiagnoseFutureView<T> {
        DiagnoseFutureView {
            inner: self.inner,
            task: self.task@,
            phase: self.phase,
            calibration: self.calibration,
        }
    }
}

impl<T> DiagnoseFuture<T> {
    /// Wraps `inner` under an identity that `name` and the process's counter
    /// have made, with the calibration that the process's bridge holds after
    /// being asked to calibrate from `now`.
    pub fn with_name(
        inner: T,
        name: Cow<'static, str>,
        state: &mut Diagnostics,
        now: ClockReading,
    ) -> (wrapper: Self)
        ensures
            wrapper@ == (DiagnoseFutureView {
                inner,
                task: TaskIdentityView { name: name@, id: old(state).ids.next_id() },
                phase: TaskPhase::Fresh,
                calibration: first_wins(old(state).bridge.calibration(), now),
            }),
            final(state).ids.next_id() == id_after(old(state).ids.next_id(), 1),
            final(state).bridge.calibration() == Some(
                first_wins(old(state).bridge.calibration(), now),
            ),
    {
        let calibration = state.bridge.calibrate_once(now);
        let task = state.ids.allocate(name);
        DiagnoseFuture { inner, task, phase: TaskPhase::Fresh, calibration }
    }

    /// Wraps `inner` as [`DiagnoseFuture::with_name`] does, under the name
    /// that `name` converts into.
    pub fn new<N: Into<Cow<'static, str>>>(
        inner: T,
        name: N,
        state: &mut Diagnostics,
        now: ClockReading,
    ) -> (wrapper: Self)
        ensures
            exists|given: Cow<'static, str>|
                call_ensures(N::into, (name,), given) && #[trigger] given@ == wrapper@.task.name,
            wrapper@ == (DiagnoseFutureView {
                inner,
                task: TaskIdentityView { name: wrapper@.task.name, id: old(state).ids.next_id() },
                phase: TaskPhase::Fresh,
                calibration: first_wins(old(state).bridge.calibration(), now),
            }),
            final(state).ids.next_id() == id_after(old(state).ids.next_id(), 1),
            final(state).bridge.calibration() == Some(
                first_wins(old(state).bridge.calibration(), now),
            ),
    {
        let given: Cow<'static, str> = name.into();
        Self::with_name(inner, given, state, now)
    }

    /// The wrapped computation.
    pub fn inner(&self) -> (inner: &T)
        ensures
            *inner == self@.inner,
    {
        &self.inner
    }

    /// Unwraps the computation.
    pub fn into_inner(self) -> (inner: T)
        ensures
            inner == self@.inner,
    {
        self.inner
    }

    /// Takes the wrapper apart: the computation, and the diagnostic state
    /// around a computation that is nothing.
    pub fn split(self) -> (parts: (T, DiagnoseFuture<()>))
        ensures
            parts.0 == self@.inner,
            parts.1@ == (DiagnoseFutureView {
                inner: (),
                task: self@.task,
                phase: self@.phase,
                calibration: self@.calibration,
            }),
    {
        (
            self.inner,
            DiagnoseFuture {
                inner: (),
                task: self.task,
                phase: self.phase,
                calibration: self.calibration,
            },
        )
    }

    /// The identity of the task.
    pub fn identity(&self) -> (task: &TaskIdentity)
        ensures
            task@ == self@.task,
    {
        &self.task
    }

    /// How far the task has come.
    pub fn phase(&self) -> (phase: TaskPhase)
        ensures
            phase == self@.phase,
    {
        self.phase
    }

    /// Whether the next poll is the task's first.
    pub fn is_first_poll(&self) -> (first: bool)
        ensures
            first == (self@.phase == TaskPhase::Fresh),
    {
        match self.phase {
            TaskPhase::Fresh => true,
            _ => false,
        }
    }

    /// The calibration that the task's events are stamped with.
    pub fn calibration(&self) -> (calibration: Calibration)
        ensures
            calibration == self@.calibration,
    {
        self.calibration
    }

    /// The first half of a poll, to run before the wrapped computation is
    /// polled: enters the task in the worker's context and wraps the caller's
    /// wake signal under the task's identity. The computation is then polled
    /// with the handle that is returned.
    pub fn begin_poll<W>(&self, context: &mut CurrentTaskContext, waker: W) -> (handle:
        DiagnosticWakeHandle<W>)
        ensures
            handle@ == wrapped(waker, self@.task),
            final(context)@ == old(context)@.push(self@.task),
            innermost(final(context)@) == Some(self@.task),
    {
        context.push(self.task.clone());
        DiagnosticWakeHandle::wrap(waker, self.task.clone())
    }

    /// The second half of a poll, to run when the wrapped computation has
    /// been polled: leaves the worker's context, builds the event that
    /// reports the attempt, marks the task as polled, and hands the
    /// computation's outcome back as it came.
    pub fn finish_poll<R>(
        &mut self,
        context: &mut CurrentTaskContext,
        before: u64,
        after: u64,
        outcome: PollOutcome<R>,
    ) -> (reported: (PollOutcome<R>, PollEvent))
        ensures
            reported.0 == outcome,
            (reported.0, reported.1@) == report(old(self)@, before, after, outcome),
            final(self)@ == polled(old(self)@, outcome is Ready),
            final(context)@ == without_innermost(old(context)@),
    {
        let _ = context.pop();
        let ready = outcome.is_ready();
        let event = log_poll(
            &self.task,
            before,
            after,
            &self.calibration,
            self.is_first_poll(),
            ready,
        );
        self.phase = if ready {
            TaskPhase::Completed
        } else {
            match self.phase {
                TaskPhase::Completed => TaskPhase::Completed,
                _ => TaskPhase::Polled,
            }
        };
        (outcome, event)
    }
}

impl<T: Clone> Clone for DiagnoseFuture<T> {
    /// The copy stands for the same task in the same phase; its computation is
    /// what the computation's own `clone` gave.
    fn clone(&self) -> (copy: Self)
        ensures
            copy@.task == self@.task,
            copy@.phase == self@.phase,
            copy@.calibration == self@.calibration,
            cloned(self@.inner, copy@.inner),
    {
        DiagnoseFuture {
            inner: self.inner.clone(),
            task: self.task.clone(),
            phase: self.phase,
            calibration: self.calibration,
        }
    }
}

} // verus!
