//! The identity a call stack runs under, and wake handles that carry one.

use crate::identity::{TaskIdentity, TaskIdentityView};
use std::borrow::Cow;
use vstd::prelude::*;

verus! {

/// The identity on top of a stack of identities: the task whose poll is the
/// innermost one under way.
pub open spec fn innermost(stack: Seq<TaskIdentityView>) -> Option<TaskIdentityView> {
    if stack.len() == 0 {
        None
    } else {
        Some(stack.last())
    }
}

/// The stack that is left when the innermost poll of `stack` ends. An empty
/// stack stays empty.
pub open spec fn without_innermost(stack: Seq<TaskIdentityView>) -> Seq<TaskIdentityView> {
    if stack.len() == 0 {
        stack
    } else {
        stack.drop_last()
    }
}

/// The tasks that one worker is polling at the moment, outermost first. Each
/// worker has a context of its own.
#[derive(Debug)]
pub struct CurrentTaskContext {
    stack: Vec<TaskIdentity>,
}

impl View for CurrentTaskContext {
    type V = Seq<TaskIdentityView>;

    closed spec fn view(&self) -> Seq<TaskIdentityView> {
        self.stack@.map_values(|identity: TaskIdentity| identity@)
    }
}

impl CurrentTaskContext {
    /// The context of a worker that polls nothing.
    pub fn new() -> (context: Self)
        ensures
            context@ == Seq::<TaskIdentityView>::empty(),
    {
        CurrentTaskContext { stack: Vec::new() }
    }

    /// Enters the poll of the task `identity`.
    pub fn push(&mut self, identity: TaskIdentity)
        ensures
            final(self)@ == old(self)@.push(identity@),
    {
        self.stack.push(identity);
        assert(self@ =~= old(self)@.push(identity@));
    }

    /// Leaves the innermost poll and returns its task, or `None` where no poll
    /// is under way.
    pub fn pop(&mut self) -> (left: Option<TaskIdentity>)
        ensures
            final(self)@ == without_innermost(old(self)@),
            left is Some == (old(self)@.len() > 0),
            left matches Some(identity) ==> Some(identity@) == innermost(old(self)@),
    {
        let left = self.stack.pop();
        assert(self@ =~= without_innermost(old(self)@));
        left
    }

    /// The task whose poll is the innermost one under way.
    pub fn current(&self) -> (current: Option<TaskIdentity>)
        ensures
            current is Some == (self@.len() > 0),
            current matches Some(identity) ==> Some(identity@) == innermost(self@),
    {
        let depth: usize = self.stack.len();
        if depth == 0 {
            None
        } else {
            Some(self.stack[depth - 1].clone())
        }
    }

    /// How many polls are under way.
    pub fn depth(&self) -> (depth: usize)
        ensures
            depth == self@.len(),
    {
        self.stack.len()
    }
}

/// One change of a context: a poll that begins, or the innermost poll ending.
pub enum ContextStep {
    Enter(TaskIdentityView),
    Leave,
}

/// The stack after one step.
pub open spec fn context_step(stack: Seq<TaskIdentityView>, step: ContextStep) -> Seq<
    TaskIdentityView,
> {
    match step {
        ContextStep::Enter(identity) => stack.push(identity),
        ContextStep::Leave => without_innermost(stack),
    }
}

/// The stack after `steps`, taken in order.
pub open spec fn context_after(stack: Seq<TaskIdentityView>, steps: Seq<ContextStep>) -> Seq<
    TaskIdentityView,
>
    decreases steps.len(),
{
    if steps.len() == 0 {
        stack
    } else {
        context_step(context_after(stack, steps.drop_last()), steps.last())
    }
}

/// The polls that `steps` begin, less those that they end.
pub open spec fn depth_change(steps: Seq<ContextStep>) -> int
    decreases steps.len(),
{
    if steps.len() == 0 {
        0
    } else {
        depth_change(steps.drop_last()) + if steps.last() is Enter {
            1int
        } else {
            -1int
        }
    }
}

/// Every poll that `steps` end is one that they began: no step leaves a poll
/// that was under way before them.
pub open spec fn properly_nested(steps: Seq<ContextStep>) -> bool {
    forall|k: int| 0 <= k <= steps.len() ==> depth_change(#[trigger] steps.take(k)) >= 0
}

/// Steps that are properly nested never touch the stack they started on: they
/// only build on top of it, as high as their depth change says.
pub proof fn lemma_nested_steps_build_on_top(stack: Seq<TaskIdentityView>, steps: Seq<ContextStep>)
    requires
        properly_nested(steps),
    ensures
        context_after(stack, steps) == stack + context_after(Seq::empty(), steps),
        context_after(Seq::empty(), steps).len() == depth_change(steps),
    decreases steps.len(),
{
    let empty = Seq::<TaskIdentityView>::empty();
    if steps.len() == 0 {
        assert(stack + empty =~= stack);
    } else {
        let before = steps.drop_last();
        assert forall|k: int| 0 <= k <= before.len() implies depth_change(
            #[trigger] before.take(k),
        ) >= 0 by {
            assert(before.take(k) =~= steps.take(k));
        }
        lemma_nested_steps_build_on_top(stack, before);
        assert(steps.take(steps.len() as int) =~= steps);
        let top = context_after(empty, before);
        match steps.last() {
            ContextStep::Enter(identity) => {
                assert((stack + top).push(identity) =~= stack + top.push(identity));
            },
            ContextStep::Leave => {
                assert(top.len() > 0);
                assert((stack + top).drop_last() =~= stack + top.drop_last());
            },
        }
    }
}

/// Scoped entry and exit restore the context: after properly nested steps
/// that end every poll they began, the stack is what it was before them.
pub proof fn lemma_context_restored(stack: Seq<TaskIdentityView>, steps: Seq<ContextStep>)
    requires
        properly_nested(steps),
        depth_change(steps) == 0,
    ensures
        context_after(stack, steps) == stack,
{
    lemma_nested_steps_build_on_top(stack, steps);
    assert(stack + context_after(Seq::empty(), steps) =~= stack);
}

/// During the poll of `identity`, whenever the polls nested in it have all
/// ended, the context names `identity`; and when that poll itself ends, the
/// context is what it was before the poll began.
pub proof fn lemma_poll_scope(
    stack: Seq<TaskIdentityView>,
    identity: TaskIdentityView,
    nested: Seq<ContextStep>,
)
    requires
        properly_nested(nested),
        depth_change(nested) == 0,
    ensures
        innermost(context_after(stack.push(identity), nested)) == Some(identity),
        without_innermost(context_after(stack.push(identity), nested)) == stack,
{
    lemma_context_restored(stack.push(identity), nested);
    assert(stack.push(identity).drop_last() =~= stack);
}

/// The mathematical value of a [`DiagnosticWakeHandle`].
pub struct WakeHandleView<W> {
    /// The wake signal that the handle stands in front of.
    pub signal: W,
    /// The task that a wake through the handle is attributed to: the one that
    /// wrapped last.
    pub identity: TaskIdentityView,
    /// The task that wrapped the real signal first.
    pub origin: TaskIdentityView,
}

/// The value of a handle that wraps `signal` for the task `identity`.
pub open spec fn wrapped<W>(signal: W, identity: TaskIdentityView) -> WakeHandleView<W> {
    WakeHandleView { signal, identity, origin: identity }
}

/// The value of a handle after the task `identity` has wrapped it once more:
/// the same real signal, the same first wrapper, a new attribution.
pub open spec fn rewrapped<W>(handle: WakeHandleView<W>, identity: TaskIdentityView)
    -> WakeHandleView<W> {
    WakeHandleView { signal: handle.signal, identity, origin: handle.origin }
}

/// The value of a handle after each task of `identities` has wrapped it once
/// more, in order.
pub open spec fn rewrapped_by_all<W>(handle: WakeHandleView<W>, identities: Seq<TaskIdentityView>)
    -> WakeHandleView<W>
    decreases identities.len(),
{
    if identities.len() == 0 {
        handle
    } else {
        rewrapped(rewrapped_by_all(handle, identities.drop_last()), identities.last())
    }
}

/// A wake signal that carries the identity of the task it resumes.
#[derive(Debug)]
pub struct DiagnosticWakeHandle<W> {
    signal: W,
    identity: TaskIdentity,
    first: Option<TaskIdentity>,
}

/// What one wake through a [`DiagnosticWakeHandle`] amounts to: the tasks to
/// record, and the one real signal to invoke.
#[derive(Debug)]
pub struct WakeDelivery<W> {
    /// The task that is being resumed.
    pub attributed: TaskIdentity,
    /// The task that wrapped the real signal first, where the handle has been
    /// wrapped again since; `None` where `attributed` is that task.
    pub origin: Option<TaskIdentity>,
    /// The real wake signal. The caller invokes it, once.
    pub signal: W,
}

impl<W> View for DiagnosticWakeHandle<W> {
    type V = WakeHandleView<W>;

    closed spec fn view(&self) -> WakeHandleView<W> {
        WakeHandleView {
            signal: self.signal,
            identity: self.identity@,
            origin: match self.first {
                Some(first) => first@,
                None => self.identity@,
            },
        }
    }
}

impl<W> DiagnosticWakeHandle<W> {
    /// Wraps the wake signal `signal` for the task `identity`.
    pub fn wrap(signal: W, identity: TaskIdentity) -> (handle: Self)
        ensures
            handle@ == wrapped(signal, identity@),
    {
        DiagnosticWakeHandle { signal, identity, first: None }
    }

    /// Wraps a handle that is diagnostic already, for the task `identity`. No
    /// chain is built: the result stands in front of the same real signal and
    /// remembers the first wrapper.
    pub fn rewrap(self, identity: TaskIdentity) -> (handle: Self)
        ensures
            handle@ == rewrapped(self@, identity@),
    {
        let first = match self.first {
            Some(first) => first,
            None => self.identity,
        };
        DiagnosticWakeHandle { signal: self.signal, identity, first: Some(first) }
    }

    /// The task that a wake through this handle is attributed to.
    pub fn identity(&self) -> (identity: &TaskIdentity)
        ensures
            identity@ == self@.identity,
    {
        &self.identity
    }

    /// The task that wrapped the real signal first.
    pub fn origin(&self) -> (origin: &TaskIdentity)
        ensures
            origin@ == self@.origin,
    {
        match &self.first {
            Some(first) => first,
            None => &self.identity,
        }
    }

    /// The real wake signal.
    pub fn signal(&self) -> (signal: &W)
        ensures
            *signal == self@.signal,
    {
        &self.signal
    }

    /// Resolves one wake: names the task to record as resumed and hands out
    /// the real signal, which is the one thing left to invoke.
    pub fn wake(self) -> (delivery: WakeDelivery<W>)
        ensures
            delivery.signal == self@.signal,
            delivery.attributed@ == self@.identity,
            match delivery.origin {
                Some(origin) => origin@ == self@.origin,
                None => self@.origin == self@.identity,
            },
    {
        WakeDelivery { attributed: self.identity, origin: self.first, signal: self.signal }
    }
}

impl<W: Clone> Clone for DiagnosticWakeHandle<W> {
    /// The copy carries the same identities; its real signal is what that
    /// signal's own `clone` gave.
    fn clone(&self) -> (copy: Self)
        ensures
            copy@.identity == self@.identity,
            copy@.origin == self@.origin,
            cloned(self@.signal, copy@.signal),
    {
        let first = match &self.first {
            Some(first) => Some(first.clone()),
            None => None,
        };
        DiagnosticWakeHandle { signal: self.signal.clone(), identity: self.identity.clone(), first }
    }
}

/// Wraps `waker` for the task with the given name and number.
pub fn waker_with_diag<W>(waker: W, task_name: Cow<'static, str>, task_id: u64) -> (handle:
    DiagnosticWakeHandle<W>)
    ensures
        handle@ == wrapped(waker, TaskIdentityView { name: task_name@, id: task_id }),
{
    DiagnosticWakeHandle::wrap(waker, TaskIdentity::new(task_name, task_id))
}

/// A handle laid around another handle, as happens where one wrapped task
/// polls another, reaches the real signal once: a wake through the outer
/// handle hands out the inner handle, and a wake through that one hands out
/// the real signal.
pub proof fn lemma_chained_handles_reach_real_signal<W>(
    signal: W,
    inner: DiagnosticWakeHandle<W>,
    first: TaskIdentityView,
    second: TaskIdentityView,
)
    requires
        inner@ == wrapped(signal, first),
    ensures
        wrapped(inner, second).signal == inner,
        wrapped(inner, second).signal@.signal == signal,
        wrapped(inner, second).identity == second,
        wrapped(inner, second).signal@.identity == first,
{
}

/// However often a handle is wrapped again, it stands in front of the real
/// signal it was first made for, so one wake through it invokes that signal
/// and no other. The first wrapper stays on record, and the wake is
/// attributed to the last one.
pub proof fn lemma_rewrapping_keeps_real_signal<W>(
    signal: W,
    first: TaskIdentityView,
    later: Seq<TaskIdentityView>,
)
    ensures
        rewrapped_by_all(wrapped(signal, first), later).signal == signal,
        rewrapped_by_all(wrapped(signal, first), later).origin == first,
        rewrapped_by_all(wrapped(signal, first), later).identity == if later.len() == 0 {
            first
        } else {
            later.last()
        },
    decreases later.len(),
{
    if later.len() > 0 {
        lemma_rewrapping_keeps_real_signal(signal, first, later.drop_last());
    }
}

} // verus!
