//! Recurrence data: schedule parameters paired with the goal template that
//! each spawn copies.

use vstd::prelude::*;
use crate::goal::{TaskbasedGoal, TaskbasedGoalView, TimebasedGoal, TimebasedGoalView};

verus! {

/// Schedule parameters of a recurrence.
///
/// `recurrence_id == 0` means "not yet assigned". `end_unix_timestamp == 0`
/// is documented as "indefinite", but the spawner never spawns past the end
/// bound, so 0 behaves as an immediate stop. `latest_spawned_start_time_ms`
/// records the start time of the most recently spawned goal and never
/// decreases.
#[derive(Clone, Copy, Debug)]
pub struct Recurrence {
    pub recurrence_id: u128,
    pub start_unix_timestamp: u128,
    pub end_unix_timestamp: u128,
    pub spawn_interval_ms: u128,
    pub goal_duration_ms: u128,
    pub latest_spawned_start_time_ms: u128,
}

/// A recurrence whose template is a time-based goal.
#[derive(Clone, Debug)]
pub struct TimebasedRecurrence {
    pub timebased_goal: TimebasedGoal,
    pub recurrence: Recurrence,
}

/// Mathematical view of a `TimebasedRecurrence`. `Recurrence` holds only
/// plain integers and stands for itself.
#[verifier::ext_equal]
pub struct TimebasedRecurrenceView {
    pub timebased_goal: TimebasedGoalView,
    pub recurrence: Recurrence,
}

impl View for TimebasedRecurrence {
    type V = TimebasedRecurrenceView;

    open spec fn view(&self) -> TimebasedRecurrenceView {
        TimebasedRecurrenceView { timebased_goal: self.timebased_goal@, recurrence: self.recurrence }
    }
}

/// A recurrence whose template is a task-based goal.
#[derive(Clone, Debug)]
pub struct TaskbasedRecurrence {
    pub taskbased_goal: TaskbasedGoal,
    pub recurrence: Recurrence,
}

/// Mathematical view of a `TaskbasedRecurrence`.
#[verifier::ext_equal]
pub struct TaskbasedRecurrenceView {
    pub taskbased_goal: TaskbasedGoalView,
    pub recurrence: Recurrence,
}

impl View for TaskbasedRecurrence {
    type V = TaskbasedRecurrenceView;

    open spec fn view(&self) -> TaskbasedRecurrenceView {
        TaskbasedRecurrenceView { taskbased_goal: self.taskbased_goal@, recurrence: self.recurrence }
    }
}

/// Views of a sequence of time-based recurrences.
pub open spec fn tb_rec_views(s: Seq<TimebasedRecurrence>) -> Seq<TimebasedRecurrenceView> {
    s.map_values(|r: TimebasedRecurrence| r@)
}

/// Views of a sequence of task-based recurrences.
pub open spec fn task_rec_views(s: Seq<TaskbasedRecurrence>) -> Seq<TaskbasedRecurrenceView> {
    s.map_values(|r: TaskbasedRecurrence| r@)
}

/// Copy a time-based recurrence, preserving its view.
pub(crate) fn clone_timebased_recurrence(r: &TimebasedRecurrence) -> (c: TimebasedRecurrence)
    ensures
        c@ == r@,
{
    TimebasedRecurrence {
        timebased_goal: crate::goal::clone_timebased_goal(&r.timebased_goal),
        recurrence: r.recurrence,
    }
}

/// Copy a task-based recurrence, preserving its view.
pub(crate) fn clone_taskbased_recurrence(r: &TaskbasedRecurrence) -> (c: TaskbasedRecurrence)
    ensures
        c@ == r@,
{
    TaskbasedRecurrence {
        taskbased_goal: crate::goal::clone_taskbased_goal(&r.taskbased_goal),
        recurrence: r.recurrence,
    }
}

} // verus!
