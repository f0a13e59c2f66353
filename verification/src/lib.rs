//! Diagnostics for cooperatively scheduled tasks: which task is running, how
//! long its last poll took, and whether it was polled for the first time.
//!
//! The crate holds the decisions of the diagnostic layer as verified functions
//! over plain values. Reading clocks, polling the wrapped computation and
//! invoking wake signals is the caller's part.

use std::borrow::Cow;
use std::future::Future;
use vstd::prelude::*;

pub mod absolute_time;
pub mod ctxt_with_diag;
pub mod fut_with_diag;
pub mod identity;
pub mod log_out;
pub mod state;

pub use crate::fut_with_diag::DiagnoseFuture;

use crate::absolute_time::{first_wins, ClockReading};
use crate::fut_with_diag::{DiagnoseFutureView, TaskPhase};
use crate::identity::{id_after, TaskIdentityView};
use crate::state::Diagnostics;

verus! {

/// Adds [`FutureExt::with_diagnostics`] to every future.
pub trait FutureExt: Future {
    /// Wraps this future under the name that `name` converts into, as
    /// [`DiagnoseFuture::new`] does.
    fn with_diagnostics<N: Into<Cow<'static, str>>>(
        self,
        name: N,
        state: &mut Diagnostics,
        now: ClockReading,
    ) -> (wrapper: DiagnoseFuture<Self>) where Self: Sized
        ensures
            exists|given: Cow<'static, str>|
                call_ensures(N::into, (name,), given) && #[trigger] given@ == wrapper@.task.name,
            wrapper@ == (DiagnoseFutureView {
                inner: self,
                task: TaskIdentityView { name: wrapper@.task.name, id: old(state).ids.next_id() },
                phase: TaskPhase::Fresh,
                calibration: first_wins(old(state).bridge.calibration(), now),
            }),
            final(state).ids.next_id() == id_after(old(state).ids.next_id(), 1),
            final(state).bridge.calibration() == Some(
                first_wins(old(state).bridge.calibration(), now),
            ),
    {
        DiagnoseFuture::new(self, name, state, now)
    }
}

impl<T> FutureExt for T where T: Future {
}

/// The name under which a task runs that was handed to a [`DiagSpawn`].
pub open spec fn spawned_task_name() -> Seq<char> {
    "unnamed"@
}

/// Wraps around an executor `T` and adds diagnostics to the tasks spawned
/// through it.
#[derive(Debug)]
pub struct DiagSpawn<T> {
    inner: T,
}

impl<T> DiagSpawn<T> {
    /// The executor that work is forwarded to.
    pub closed spec fn executor(&self) -> T {
        self.inner
    }

    /// Wraps around `inner`.
    pub fn new(inner: T) -> (spawner: Self)
        ensures
            spawner.executor() == inner,
    {
        DiagSpawn { inner }
    }

    /// The executor that work is forwarded to.
    pub fn inner(&self) -> (inner: &T)
        ensures
            *inner == self.executor(),
    {
        &self.inner
    }

    /// Gives the executor back.
    pub fn into_inner(self) -> (inner: T)
        ensures
            inner == self.executor(),
    {
        self.inner
    }

    /// Prepares a unit of work for the executor: wraps it under a fresh
    /// identity, so that what is forwarded is the unit with diagnostics around
    /// it.
    pub fn wrap_unit<F>(&self, unit: F, state: &mut Diagnostics, now: ClockReading) -> (wrapper:
        DiagnoseFuture<F>)
        ensures
            wrapper@ == (DiagnoseFutureView {
                inner: unit,
                task: TaskIdentityView { name: spawned_task_name(), id: old(state).ids.next_id() },
                phase: TaskPhase::Fresh,
                calibration: first_wins(old(state).bridge.calibration(), now),
            }),
            final(state).ids.next_id() == id_after(old(state).ids.next_id(), 1),
            final(state).bridge.calibration() == Some(
                first_wins(old(state).bridge.calibration(), now),
            ),
    {
        DiagnoseFuture::with_name(unit, Cow::Borrowed("unnamed"), state, now)
    }
}

} // verus!
