//! The record of one poll attempt.

use crate::absolute_time::{AbsoluteTime, Calibration};
use crate::identity::{TaskIdentity, TaskIdentityView};
use std::borrow::Cow;
use vstd::prelude::*;

verus! {

/// The mathematical value of a [`PollEvent`].
pub struct PollEventView {
    pub task_name: Seq<char>,
    pub task_id: u64,
    pub start: AbsoluteTime,
    pub end: AbsoluteTime,
    pub is_first_poll: bool,
    pub completed: bool,
}

/// What is reported of one poll attempt. It is built when the attempt ends and
/// handed to the log sink at once.
#[derive(Debug)]
pub struct PollEvent {
    /// The name of the task that was polled.
    pub task_name: Cow<'static, str>,
    /// The number of the task that was polled.
    pub task_id: u64,
    /// When the attempt began.
    pub start: AbsoluteTime,
    /// When the attempt ended.
    pub end: AbsoluteTime,
    /// Whether this was the first attempt on the task.
    pub is_first_poll: bool,
    /// Whether the task reported that it is done.
    pub completed: bool,
}

impl View for PollEvent {
    type V = PollEventView;

    open spec fn view(&self) -> PollEventView {
        PollEventView {
            task_name: self.task_name@,
            task_id: self.task_id,
            start: self.start,
            end: self.end,
            is_first_poll: self.is_first_poll,
            completed: self.completed,
        }
    }
}

/// The time that `calibration` makes of the monotonic instant `instant`.
pub open spec fn absolute(calibration: Calibration, instant: u64) -> AbsoluteTime {
    AbsoluteTime {
        nanos: (instant + calibration.offset_nanos()) as i128,
        relative_only: calibration.is_relative_only(),
    }
}

/// The event that reports a poll of `task` which ran from the monotonic instant
/// `before` to `after`.
pub open spec fn poll_event(
    task: TaskIdentityView,
    before: u64,
    after: u64,
    calibration: Calibration,
    first_time_poll: bool,
    ready: bool,
) -> PollEventView {
    PollEventView {
        task_name: task.name,
        task_id: task.id,
        start: absolute(calibration, before),
        end: absolute(calibration, after),
        is_first_poll: first_time_poll,
        completed: ready,
    }
}

/// Builds the event that reports one poll attempt. Both instants are
/// converted with the same calibration.
pub fn log_poll(
    task: &TaskIdentity,
    before: u64,
    after: u64,
    calibration: &Calibration,
    first_time_poll: bool,
    ready: bool,
) -> (event: PollEvent)
    ensures
        event@ == poll_event(task@, before, after, *calibration, first_time_poll, ready),
{
    let (task_name, task_id) = task.clone().into_parts();
    PollEvent {
        task_name,
        task_id,
        start: calibration.to_absolute(before),
        end: calibration.to_absolute(after),
        is_first_poll: first_time_poll,
        completed: ready,
    }
}

/// The time a poll took is the difference of the two monotonic instants,
/// whatever the calibration.
pub proof fn lemma_event_keeps_duration(
    task: TaskIdentityView,
    before: u64,
    after: u64,
    calibration: Calibration,
    first_time_poll: bool,
    ready: bool,
)
    ensures
        ({
            let event = poll_event(task, before, after, calibration, first_time_poll, ready);
            event.end.nanos - event.start.nanos == after - before
        }),
{
}

} // verus!
