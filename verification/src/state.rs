//! The store's mathematical state: a view struct mirroring the store's
//! collections, the lookup and validation predicates that the contracts
//! speak of, and the well-formedness invariant every operation preserves.

use vstd::prelude::*;
use crate::bounds::within_bounds;
use crate::goal::{
    GoalCompletionStatus, GoalView, TaskbasedCriteriaItemView, TaskbasedGoalView,
    TimebasedCriteriaView, TimebasedGoalView,
};
use crate::recurrence::{Recurrence, TaskbasedRecurrenceView, TimebasedRecurrenceView};

verus! {

/// Mathematical view of the whole store.
#[verifier::ext_equal]
pub struct RepoView {
    pub next_free_id: u128,
    pub timebased_recurrences: Seq<TimebasedRecurrenceView>,
    pub taskbased_recurrences: Seq<TaskbasedRecurrenceView>,
    pub timebased_goals: Seq<TimebasedGoalView>,
    pub taskbased_goals: Seq<TaskbasedGoalView>,
    pub version_number: u128,
}

/// True iff a status passes a filter: an empty filter admits every status.
pub open spec fn status_passes(
    status: GoalCompletionStatus,
    filter: Seq<GoalCompletionStatus>,
) -> bool {
    filter.len() == 0 || filter.contains(status)
}

/// True iff a goal passes an interval-and-status query: the filter admits
/// its status, and the interval is unbounded (`(0, 0)`) or intersects the
/// goal's bound.
pub open spec fn goal_passes(
    g: GoalView,
    start: u128,
    end: u128,
    filter: Seq<GoalCompletionStatus>,
) -> bool {
    &&& ((start == 0 && end == 0) || crate::bounds::bounds_intersect(
        g.start_unix_timestamp,
        g.end_unix_timestamp,
        start,
        end,
    ))
    &&& status_passes(g.completion_status, filter)
}

/// True iff a recurrence passes an interval query against its own bound.
pub open spec fn rec_passes(r: Recurrence, start: u128, end: u128) -> bool {
    ||| (start == 0 && end == 0)
    ||| crate::bounds::bounds_intersect(r.start_unix_timestamp, r.end_unix_timestamp, start, end)
}

/// True iff a goal is an incomplete immediate subgoal of `parent_id`.
pub open spec fn is_incomplete_child(g: GoalView, parent_id: u128) -> bool {
    g.parent_id == parent_id && g.completion_status is Incomplete
}

/// True iff a goal is an immediate subgoal of `parent_id` whose status the
/// filter admits.
pub open spec fn subgoal_passes(
    g: GoalView,
    parent_id: u128,
    filter: Seq<GoalCompletionStatus>,
) -> bool {
    g.parent_id == parent_id && status_passes(g.completion_status, filter)
}

/// True iff a goal is expired at `cur`: still incomplete, with its end
/// strictly before `cur`.
pub open spec fn is_expired(g: GoalView, cur: u128) -> bool {
    g.completion_status is Incomplete && g.end_unix_timestamp < cur
}

/// The headers of a sequence of time-based goals.
pub open spec fn tb_headers(s: Seq<TimebasedGoalView>) -> Seq<GoalView> {
    s.map_values(|t: TimebasedGoalView| t.goal)
}

/// The headers of a sequence of task-based goals.
pub open spec fn task_headers(s: Seq<TaskbasedGoalView>) -> Seq<GoalView> {
    s.map_values(|t: TaskbasedGoalView| t.goal)
}

/// The ids of a sequence of goal headers.
pub open spec fn ids_of(s: Seq<GoalView>) -> Seq<u128> {
    s.map_values(|g: GoalView| g.goal_id)
}

/// The interval-and-status query predicate on time-based goals, as a
/// function value, so that contracts and loop proofs name one and the same
/// predicate.
pub open spec fn tb_pass(
    start: u128,
    end: u128,
    filter: Seq<GoalCompletionStatus>,
) -> spec_fn(TimebasedGoalView) -> bool {
    |t: TimebasedGoalView| goal_passes(t.goal, start, end, filter)
}

/// The interval-and-status query predicate on task-based goals.
pub open spec fn task_pass(
    start: u128,
    end: u128,
    filter: Seq<GoalCompletionStatus>,
) -> spec_fn(TaskbasedGoalView) -> bool {
    |t: TaskbasedGoalView| goal_passes(t.goal, start, end, filter)
}

/// The immediate-subgoal predicate on headers, as a function value.
pub open spec fn child_pass(
    parent_id: u128,
    filter: Seq<GoalCompletionStatus>,
) -> spec_fn(GoalView) -> bool {
    |g: GoalView| subgoal_passes(g, parent_id, filter)
}

/// The expiry predicate on headers, as a function value.
pub open spec fn expired_pass(cur: u128) -> spec_fn(GoalView) -> bool {
    |g: GoalView| is_expired(g, cur)
}

/// The interval query predicate on time-based recurrences.
pub open spec fn tb_rec_pass(start: u128, end: u128) -> spec_fn(TimebasedRecurrenceView) -> bool {
    |r: TimebasedRecurrenceView| rec_passes(r.recurrence, start, end)
}

/// The interval query predicate on task-based recurrences.
pub open spec fn task_rec_pass(start: u128, end: u128) -> spec_fn(
    TaskbasedRecurrenceView,
) -> bool {
    |r: TaskbasedRecurrenceView| rec_passes(r.recurrence, start, end)
}

/// The time-based goals passing an interval-and-status query, in stored
/// order.
pub open spec fn tb_matching(
    s: Seq<TimebasedGoalView>,
    start: u128,
    end: u128,
    filter: Seq<GoalCompletionStatus>,
) -> Seq<TimebasedGoalView> {
    s.filter(tb_pass(start, end, filter))
}

/// The task-based goals passing an interval-and-status query, in stored
/// order.
pub open spec fn task_matching(
    s: Seq<TaskbasedGoalView>,
    start: u128,
    end: u128,
    filter: Seq<GoalCompletionStatus>,
) -> Seq<TaskbasedGoalView> {
    s.filter(task_pass(start, end, filter))
}

/// The headers that are immediate subgoals of `parent_id` with an admitted
/// status, in stored order.
pub open spec fn children_matching(
    hs: Seq<GoalView>,
    parent_id: u128,
    filter: Seq<GoalCompletionStatus>,
) -> Seq<GoalView> {
    hs.filter(child_pass(parent_id, filter))
}

/// The headers expired at `cur`, in stored order.
pub open spec fn expired_matching(hs: Seq<GoalView>, cur: u128) -> Seq<GoalView> {
    hs.filter(expired_pass(cur))
}

/// The time-based recurrences whose own bound passes an interval query.
pub open spec fn tb_recs_matching(
    s: Seq<TimebasedRecurrenceView>,
    start: u128,
    end: u128,
) -> Seq<TimebasedRecurrenceView> {
    s.filter(tb_rec_pass(start, end))
}

/// The task-based recurrences whose own bound passes an interval query.
pub open spec fn task_recs_matching(
    s: Seq<TaskbasedRecurrenceView>,
    start: u128,
    end: u128,
) -> Seq<TaskbasedRecurrenceView> {
    s.filter(task_rec_pass(start, end))
}

impl RepoView {
    /// A time-based goal with this id is stored.
    pub open spec fn tb_has_goal(self, id: u128) -> bool {
        exists|i: int|
            0 <= i < self.timebased_goals.len() && (#[trigger] self.timebased_goals[i]).goal.goal_id
                == id
    }

    /// A task-based goal with this id is stored.
    pub open spec fn task_has_goal(self, id: u128) -> bool {
        exists|i: int|
            0 <= i < self.taskbased_goals.len() && (#[trigger] self.taskbased_goals[i]).goal.goal_id
                == id
    }

    /// A goal with this id is stored, in either collection.
    pub open spec fn goal_exists(self, id: u128) -> bool {
        self.tb_has_goal(id) || self.task_has_goal(id)
    }

    /// Index of the time-based goal with this id (meaningful under
    /// `tb_has_goal` and well-formedness, which makes it unique).
    pub open spec fn tb_goal_index(self, id: u128) -> int {
        choose|i: int|
            0 <= i < self.timebased_goals.len() && (#[trigger] self.timebased_goals[i]).goal.goal_id
                == id
    }

    /// Index of the task-based goal with this id.
    pub open spec fn task_goal_index(self, id: u128) -> int {
        choose|i: int|
            0 <= i < self.taskbased_goals.len() && (#[trigger] self.taskbased_goals[i]).goal.goal_id
                == id
    }

    /// The stored header of the goal with this id (meaningful under
    /// `goal_exists`).
    pub open spec fn goal_header(self, id: u128) -> GoalView {
        if self.tb_has_goal(id) {
            self.timebased_goals[self.tb_goal_index(id)].goal
        } else {
            self.taskbased_goals[self.task_goal_index(id)].goal
        }
    }

    /// The goal with this id has at least one incomplete immediate subgoal.
    pub open spec fn has_incomplete_subgoal(self, id: u128) -> bool {
        ||| exists|i: int|
            0 <= i < self.timebased_goals.len() && is_incomplete_child(
                (#[trigger] self.timebased_goals[i]).goal,
                id,
            )
        ||| exists|i: int|
            0 <= i < self.taskbased_goals.len() && is_incomplete_child(
                (#[trigger] self.taskbased_goals[i]).goal,
                id,
            )
    }

    /// A time-based recurrence with this id is stored.
    pub open spec fn tb_has_rec(self, id: u128) -> bool {
        exists|i: int|
            0 <= i < self.timebased_recurrences.len() && (
            #[trigger] self.timebased_recurrences[i]).recurrence.recurrence_id == id
    }

    /// A task-based recurrence with this id is stored.
    pub open spec fn task_has_rec(self, id: u128) -> bool {
        exists|i: int|
            0 <= i < self.taskbased_recurrences.len() && (
            #[trigger] self.taskbased_recurrences[i]).recurrence.recurrence_id == id
    }

    /// A recurrence with this id is stored, in either collection.
    pub open spec fn rec_exists(self, id: u128) -> bool {
        self.tb_has_rec(id) || self.task_has_rec(id)
    }

    /// Index of the time-based recurrence with this id.
    pub open spec fn tb_rec_index(self, id: u128) -> int {
        choose|i: int|
            0 <= i < self.timebased_recurrences.len() && (
            #[trigger] self.timebased_recurrences[i]).recurrence.recurrence_id == id
    }

    /// Index of the task-based recurrence with this id.
    pub open spec fn task_rec_index(self, id: u128) -> int {
        choose|i: int|
            0 <= i < self.taskbased_recurrences.len() && (
            #[trigger] self.taskbased_recurrences[i]).recurrence.recurrence_id == id
    }

    /// The stored schedule of the recurrence with this id (meaningful under
    /// `rec_exists`).
    pub open spec fn rec_of(self, id: u128) -> Recurrence {
        if self.tb_has_rec(id) {
            self.timebased_recurrences[self.tb_rec_index(id)].recurrence
        } else {
            self.taskbased_recurrences[self.task_rec_index(id)].recurrence
        }
    }

    /// Every stored goal id was assigned by the allocator: positive and no
    /// larger than the last issued id.
    pub open spec fn goal_ids_in_range(self) -> bool {
        &&& forall|i: int|
            0 <= i < self.timebased_goals.len() ==> 1 <= (
            #[trigger] self.timebased_goals[i]).goal.goal_id <= self.next_free_id
        &&& forall|i: int|
            0 <= i < self.taskbased_goals.len() ==> 1 <= (
            #[trigger] self.taskbased_goals[i]).goal.goal_id <= self.next_free_id
    }

    /// No goal id occurs twice, within a collection or across the two.
    pub open spec fn goal_ids_unique(self) -> bool {
        &&& forall|i: int, j: int|
            0 <= i < j < self.timebased_goals.len() ==> (
            #[trigger] self.timebased_goals[i]).goal.goal_id != (
            #[trigger] self.timebased_goals[j]).goal.goal_id
        &&& forall|i: int, j: int|
            0 <= i < j < self.taskbased_goals.len() ==> (
            #[trigger] self.taskbased_goals[i]).goal.goal_id != (
            #[trigger] self.taskbased_goals[j]).goal.goal_id
        &&& forall|i: int, j: int|
            0 <= i < self.timebased_goals.len() && 0 <= j < self.taskbased_goals.len() ==> (
            #[trigger] self.timebased_goals[i]).goal.goal_id != (
            #[trigger] self.taskbased_goals[j]).goal.goal_id
    }

    /// Every stored recurrence id was assigned by the allocator.
    pub open spec fn rec_ids_in_range(self) -> bool {
        &&& forall|i: int|
            0 <= i < self.timebased_recurrences.len() ==> 1 <= (
            #[trigger] self.timebased_recurrences[i]).recurrence.recurrence_id <= self.next_free_id
        &&& forall|i: int|
            0 <= i < self.taskbased_recurrences.len() ==> 1 <= (
            #[trigger] self.taskbased_recurrences[i]).recurrence.recurrence_id <= self.next_free_id
    }

    /// No recurrence id occurs twice, within a collection or across the two.
    pub open spec fn rec_ids_unique(self) -> bool {
        &&& forall|i: int, j: int|
            0 <= i < j < self.timebased_recurrences.len() ==> (
            #[trigger] self.timebased_recurrences[i]).recurrence.recurrence_id != (
            #[trigger] self.timebased_recurrences[j]).recurrence.recurrence_id
        &&& forall|i: int, j: int|
            0 <= i < j < self.taskbased_recurrences.len() ==> (
            #[trigger] self.taskbased_recurrences[i]).recurrence.recurrence_id != (
            #[trigger] self.taskbased_recurrences[j]).recurrence.recurrence_id
        &&& forall|i: int, j: int|
            0 <= i < self.timebased_recurrences.len() && 0 <= j
                < self.taskbased_recurrences.len() ==> (
            #[trigger] self.timebased_recurrences[i]).recurrence.recurrence_id != (
            #[trigger] self.taskbased_recurrences[j]).recurrence.recurrence_id
    }

    /// Well-formedness: ids are allocator-issued and unique. Holds of the
    /// empty store and is preserved by every operation.
    pub open spec fn wf(self) -> bool {
        &&& self.goal_ids_in_range()
        &&& self.goal_ids_unique()
        &&& self.rec_ids_in_range()
        &&& self.rec_ids_unique()
    }

    /// A caller-supplied bound is acceptable with respect to a parent:
    /// either no parent is named, or a goal with that id is stored and the
    /// new start lies within its bound. A missing parent fails the check —
    /// no stored parent bound admits the start — and is reported through
    /// the same code as a violated bound, never a panic.
    pub open spec fn parent_ok(self, parent_id: u128, start: u128, end: u128) -> bool {
        parent_id != 0 ==> (self.goal_exists(parent_id) && within_bounds(
            self.goal_header(parent_id).start_unix_timestamp,
            self.goal_header(parent_id).end_unix_timestamp,
            start,
            end,
        ))
    }

    /// Every incomplete immediate subgoal of `id` would still start within
    /// the new bound `[start, end]`.
    pub open spec fn subgoals_ok(self, id: u128, start: u128, end: u128) -> bool {
        &&& forall|i: int|
            0 <= i < self.timebased_goals.len() && is_incomplete_child(
                (#[trigger] self.timebased_goals[i]).goal,
                id,
            ) ==> within_bounds(
                start,
                end,
                self.timebased_goals[i].goal.start_unix_timestamp,
                self.timebased_goals[i].goal.end_unix_timestamp,
            )
        &&& forall|i: int|
            0 <= i < self.taskbased_goals.len() && is_incomplete_child(
                (#[trigger] self.taskbased_goals[i]).goal,
                id,
            ) ==> within_bounds(
                start,
                end,
                self.taskbased_goals[i].goal.start_unix_timestamp,
                self.taskbased_goals[i].goal.end_unix_timestamp,
            )
    }

    /// The result code of a create-or-edit call with header `g`, aimed at
    /// the time-based collection when `timebased` holds. The checks run in
    /// this order: parent containment (which a missing parent fails), then
    /// (for edits only) existence, subgoal shrink protection, and variant
    /// match.
    pub open spec fn create_edit_outcome(
        self,
        g: GoalView,
        timebased: bool,
    ) -> crate::codes::CreateEditGoalCode {
        if !self.parent_ok(g.parent_id, g.start_unix_timestamp, g.end_unix_timestamp) {
            crate::codes::CreateEditGoalCode::FailureSubgoalOutsideParentTimebound
        } else if g.goal_id != 0 && !self.goal_exists(g.goal_id) {
            crate::codes::CreateEditGoalCode::FailureEditingGoalDoesntExist
        } else if g.goal_id != 0 && !self.subgoals_ok(
            g.goal_id,
            g.start_unix_timestamp,
            g.end_unix_timestamp,
        ) {
            crate::codes::CreateEditGoalCode::FailureNewTimeboundSmallerThanSubgoals
        } else if g.goal_id != 0 && (if timebased {
            !self.tb_has_goal(g.goal_id)
        } else {
            !self.task_has_goal(g.goal_id)
        }) {
            crate::codes::CreateEditGoalCode::FailureEditingGoalOfIncorrectType
        } else {
            crate::codes::CreateEditGoalCode::Success
        }
    }

    /// The header a successful create stores: the supplied header with a
    /// fresh id, no spawning recurrence, and an incomplete status.
    pub open spec fn created_header(self, g: GoalView) -> GoalView {
        GoalView {
            goal_id: (self.next_free_id + 1) as u128,
            recurrence_id: 0,
            completion_status: GoalCompletionStatus::Incomplete,
            ..g
        }
    }

    /// The header a successful edit stores: name, bounds and callback lists
    /// from the supplied header; parent, spawning recurrence, id and status
    /// as stored.
    pub open spec fn edited_header(stored: GoalView, g: GoalView) -> GoalView {
        GoalView {
            goal_name: g.goal_name,
            start_unix_timestamp: g.start_unix_timestamp,
            end_unix_timestamp: g.end_unix_timestamp,
            failure_callback: g.failure_callback,
            success_callback: g.success_callback,
            finally_callback: g.finally_callback,
            ..stored
        }
    }

    /// The state after creating a time-based goal from `g`: the goal is
    /// appended with a fresh id, and the allocator and version advance.
    pub open spec fn with_created_tb_goal(self, g: TimebasedGoalView) -> RepoView {
        RepoView {
            next_free_id: (self.next_free_id + 1) as u128,
            timebased_goals: self.timebased_goals.push(
                TimebasedGoalView { goal: self.created_header(g.goal), criteria: g.criteria },
            ),
            version_number: (self.version_number + 1) as u128,
            ..self
        }
    }

    /// The state after creating a task-based goal from `g`.
    pub open spec fn with_created_task_goal(self, g: TaskbasedGoalView) -> RepoView {
        RepoView {
            next_free_id: (self.next_free_id + 1) as u128,
            taskbased_goals: self.taskbased_goals.push(
                TaskbasedGoalView { goal: self.created_header(g.goal), criteria: g.criteria },
            ),
            version_number: (self.version_number + 1) as u128,
            ..self
        }
    }

    /// The state after editing the time-based goal `g.goal.goal_id` in
    /// place: its header is overwritten as `edited_header` says, its
    /// criteria are replaced, and the version advances.
    pub open spec fn with_edited_tb_goal(self, g: TimebasedGoalView) -> RepoView {
        let i = self.tb_goal_index(g.goal.goal_id);
        let stored = self.timebased_goals[i];
        RepoView {
            timebased_goals: self.timebased_goals.update(
                i,
                TimebasedGoalView {
                    goal: RepoView::edited_header(stored.goal, g.goal),
                    criteria: g.criteria,
                },
            ),
            version_number: (self.version_number + 1) as u128,
            ..self
        }
    }

    /// The state after editing the task-based goal `g.goal.goal_id` in
    /// place.
    pub open spec fn with_edited_task_goal(self, g: TaskbasedGoalView) -> RepoView {
        let i = self.task_goal_index(g.goal.goal_id);
        let stored = self.taskbased_goals[i];
        RepoView {
            taskbased_goals: self.taskbased_goals.update(
                i,
                TaskbasedGoalView {
                    goal: RepoView::edited_header(stored.goal, g.goal),
                    criteria: g.criteria,
                },
            ),
            version_number: (self.version_number + 1) as u128,
            ..self
        }
    }

    /// The state after creating a time-based recurrence from `r`: it is
    /// appended with a fresh id and its spawn progress initialized to its
    /// own start, and the allocator and version advance.
    pub open spec fn with_created_tb_rec(self, r: TimebasedRecurrenceView) -> RepoView {
        RepoView {
            next_free_id: (self.next_free_id + 1) as u128,
            timebased_recurrences: self.timebased_recurrences.push(
                TimebasedRecurrenceView {
                    timebased_goal: r.timebased_goal,
                    recurrence: Recurrence {
                        recurrence_id: (self.next_free_id + 1) as u128,
                        latest_spawned_start_time_ms: r.recurrence.start_unix_timestamp,
                        ..r.recurrence
                    },
                },
            ),
            version_number: (self.version_number + 1) as u128,
            ..self
        }
    }

    /// The state after creating a task-based recurrence from `r`.
    pub open spec fn with_created_task_rec(self, r: TaskbasedRecurrenceView) -> RepoView {
        RepoView {
            next_free_id: (self.next_free_id + 1) as u128,
            taskbased_recurrences: self.taskbased_recurrences.push(
                TaskbasedRecurrenceView {
                    taskbased_goal: r.taskbased_goal,
                    recurrence: Recurrence {
                        recurrence_id: (self.next_free_id + 1) as u128,
                        latest_spawned_start_time_ms: r.recurrence.start_unix_timestamp,
                        ..r.recurrence
                    },
                },
            ),
            version_number: (self.version_number + 1) as u128,
            ..self
        }
    }

    /// The state after editing a recurrence through the time-based entry
    /// point: the stored definition (in whichever collection) is removed,
    /// and the supplied one is appended to the time-based collection with
    /// the stored spawn progress preserved.
    pub open spec fn with_edited_tb_rec(self, r: TimebasedRecurrenceView) -> RepoView {
        let id = r.recurrence.recurrence_id;
        let new_rec = TimebasedRecurrenceView {
            timebased_goal: r.timebased_goal,
            recurrence: Recurrence {
                latest_spawned_start_time_ms: self.rec_of(id).latest_spawned_start_time_ms,
                ..r.recurrence
            },
        };
        if self.tb_has_rec(id) {
            RepoView {
                timebased_recurrences: self.timebased_recurrences.remove(
                    self.tb_rec_index(id),
                ).push(new_rec),
                version_number: (self.version_number + 1) as u128,
                ..self
            }
        } else {
            RepoView {
                timebased_recurrences: self.timebased_recurrences.push(new_rec),
                taskbased_recurrences: self.taskbased_recurrences.remove(self.task_rec_index(id)),
                version_number: (self.version_number + 1) as u128,
                ..self
            }
        }
    }

    /// The state after editing a recurrence through the task-based entry
    /// point: symmetric to `with_edited_tb_rec`.
    pub open spec fn with_edited_task_rec(self, r: TaskbasedRecurrenceView) -> RepoView {
        let id = r.recurrence.recurrence_id;
        let new_rec = TaskbasedRecurrenceView {
            taskbased_goal: r.taskbased_goal,
            recurrence: Recurrence {
                latest_spawned_start_time_ms: self.rec_of(id).latest_spawned_start_time_ms,
                ..r.recurrence
            },
        };
        if self.task_has_rec(id) {
            RepoView {
                taskbased_recurrences: self.taskbased_recurrences.remove(
                    self.task_rec_index(id),
                ).push(new_rec),
                version_number: (self.version_number + 1) as u128,
                ..self
            }
        } else {
            RepoView {
                taskbased_recurrences: self.taskbased_recurrences.push(new_rec),
                timebased_recurrences: self.timebased_recurrences.remove(self.tb_rec_index(id)),
                version_number: (self.version_number + 1) as u128,
                ..self
            }
        }
    }

    /// The state with the recurrence `id` erased from whichever collection
    /// holds it, and nothing else changed.
    pub open spec fn with_removed_rec(self, id: u128) -> RepoView {
        if self.tb_has_rec(id) {
            RepoView {
                timebased_recurrences: self.timebased_recurrences.remove(self.tb_rec_index(id)),
                ..self
            }
        } else {
            RepoView {
                taskbased_recurrences: self.taskbased_recurrences.remove(self.task_rec_index(id)),
                ..self
            }
        }
    }

    /// Erasing one time-based recurrence preserves well-formedness, and its
    /// id is no longer stored anywhere.
    pub proof fn lemma_remove_tb_rec_wf(self, v2: RepoView, i: int)
        requires
            self.wf(),
            0 <= i < self.timebased_recurrences.len(),
            v2.timebased_recurrences == self.timebased_recurrences.remove(i),
            v2.taskbased_recurrences == self.taskbased_recurrences,
            v2.timebased_goals == self.timebased_goals,
            v2.taskbased_goals == self.taskbased_goals,
            v2.next_free_id == self.next_free_id,
        ensures
            v2.wf(),
            !v2.rec_exists(self.timebased_recurrences[i].recurrence.recurrence_id),
    {
        let id = self.timebased_recurrences[i].recurrence.recurrence_id;
        assert forall|k: int| 0 <= k < v2.timebased_recurrences.len() implies (
        #[trigger] v2.timebased_recurrences[k]).recurrence.recurrence_id != id by {
            if k < i {
                assert(v2.timebased_recurrences[k] == self.timebased_recurrences[k]);
            } else {
                assert(v2.timebased_recurrences[k] == self.timebased_recurrences[k + 1]);
            }
        }
        self.lemma_tb_rec_index_unique(id, i);
        self.lemma_rec_not_in_both(id);
        assert(v2.rec_ids_unique()) by {
            assert(forall|k: int|
                0 <= k < i ==> v2.timebased_recurrences[k] == self.timebased_recurrences[k]);
            assert(forall|k: int|
                i <= k < v2.timebased_recurrences.len() ==> v2.timebased_recurrences[k]
                    == self.timebased_recurrences[k + 1]);
        }
    }

    /// Erasing one task-based recurrence preserves well-formedness, and its
    /// id is no longer stored anywhere.
    pub proof fn lemma_remove_task_rec_wf(self, v2: RepoView, i: int)
        requires
            self.wf(),
            0 <= i < self.taskbased_recurrences.len(),
            v2.taskbased_recurrences == self.taskbased_recurrences.remove(i),
            v2.timebased_recurrences == self.timebased_recurrences,
            v2.timebased_goals == self.timebased_goals,
            v2.taskbased_goals == self.taskbased_goals,
            v2.next_free_id == self.next_free_id,
        ensures
            v2.wf(),
            !v2.rec_exists(self.taskbased_recurrences[i].recurrence.recurrence_id),
    {
        let id = self.taskbased_recurrences[i].recurrence.recurrence_id;
        assert forall|k: int| 0 <= k < v2.taskbased_recurrences.len() implies (
        #[trigger] v2.taskbased_recurrences[k]).recurrence.recurrence_id != id by {
            if k < i {
                assert(v2.taskbased_recurrences[k] == self.taskbased_recurrences[k]);
            } else {
                assert(v2.taskbased_recurrences[k] == self.taskbased_recurrences[k + 1]);
            }
        }
        self.lemma_task_rec_index_unique(id, i);
        self.lemma_rec_not_in_both(id);
        assert(v2.rec_ids_unique()) by {
            assert(forall|k: int|
                0 <= k < i ==> v2.taskbased_recurrences[k] == self.taskbased_recurrences[k]);
            assert(forall|k: int|
                i <= k < v2.taskbased_recurrences.len() ==> v2.taskbased_recurrences[k]
                    == self.taskbased_recurrences[k + 1]);
        }
    }

    /// Appending a time-based recurrence whose id is allocator-issued and
    /// not stored anywhere preserves well-formedness.
    pub proof fn lemma_push_tb_rec_wf(self, v2: RepoView, r2: TimebasedRecurrenceView)
        requires
            self.wf(),
            !self.rec_exists(r2.recurrence.recurrence_id),
            1 <= r2.recurrence.recurrence_id <= v2.next_free_id,
            v2.next_free_id >= self.next_free_id,
            v2.timebased_recurrences == self.timebased_recurrences.push(r2),
            v2.taskbased_recurrences == self.taskbased_recurrences,
            v2.timebased_goals == self.timebased_goals,
            v2.taskbased_goals == self.taskbased_goals,
        ensures
            v2.wf(),
    {
        let n = self.timebased_recurrences.len() as int;
        assert(forall|k: int|
            0 <= k < n ==> v2.timebased_recurrences[k] == self.timebased_recurrences[k]);
        assert(v2.timebased_recurrences[n] == r2);
    }

    /// Appending a task-based recurrence whose id is allocator-issued and
    /// not stored anywhere preserves well-formedness.
    pub proof fn lemma_push_task_rec_wf(self, v2: RepoView, r2: TaskbasedRecurrenceView)
        requires
            self.wf(),
            !self.rec_exists(r2.recurrence.recurrence_id),
            1 <= r2.recurrence.recurrence_id <= v2.next_free_id,
            v2.next_free_id >= self.next_free_id,
            v2.taskbased_recurrences == self.taskbased_recurrences.push(r2),
            v2.timebased_recurrences == self.timebased_recurrences,
            v2.timebased_goals == self.timebased_goals,
            v2.taskbased_goals == self.taskbased_goals,
        ensures
            v2.wf(),
    {
        let n = self.taskbased_recurrences.len() as int;
        assert(forall|k: int|
            0 <= k < n ==> v2.taskbased_recurrences[k] == self.taskbased_recurrences[k]);
        assert(v2.taskbased_recurrences[n] == r2);
    }

    /// Replacing one stored time-based recurrence by one carrying the same
    /// id preserves well-formedness.
    pub proof fn lemma_update_tb_rec_wf(self, i: int, r2: TimebasedRecurrenceView)
        requires
            self.wf(),
            0 <= i < self.timebased_recurrences.len(),
            r2.recurrence.recurrence_id == self.timebased_recurrences[i].recurrence.recurrence_id,
        ensures
            (RepoView { timebased_recurrences: self.timebased_recurrences.update(i, r2), ..self }).wf(),
    {
    }

    /// Replacing one stored task-based recurrence by one carrying the same
    /// id preserves well-formedness.
    pub proof fn lemma_update_task_rec_wf(self, i: int, r2: TaskbasedRecurrenceView)
        requires
            self.wf(),
            0 <= i < self.taskbased_recurrences.len(),
            r2.recurrence.recurrence_id == self.taskbased_recurrences[i].recurrence.recurrence_id,
        ensures
            (RepoView { taskbased_recurrences: self.taskbased_recurrences.update(i, r2), ..self }).wf(),
    {
    }

    /// After replacing one stored time-based recurrence by one carrying the
    /// same id, that id still resolves to the new definition.
    pub proof fn lemma_rec_of_after_tb_update(self, v2: RepoView, i: int, r2: TimebasedRecurrenceView)
        requires
            self.wf(),
            0 <= i < self.timebased_recurrences.len(),
            r2.recurrence.recurrence_id == self.timebased_recurrences[i].recurrence.recurrence_id,
            v2.timebased_recurrences == self.timebased_recurrences.update(i, r2),
            v2.taskbased_recurrences == self.taskbased_recurrences,
        ensures
            v2.tb_has_rec(r2.recurrence.recurrence_id),
            v2.rec_of(r2.recurrence.recurrence_id) == r2.recurrence,
    {
        let id = r2.recurrence.recurrence_id;
        assert(v2.timebased_recurrences[i] == r2);
        assert(v2.tb_has_rec(id));
        let j = v2.tb_rec_index(id);
        assert(0 <= j < v2.timebased_recurrences.len()
            && v2.timebased_recurrences[j].recurrence.recurrence_id == id);
        if j != i {
            assert(v2.timebased_recurrences[j] == self.timebased_recurrences[j]);
            self.lemma_tb_rec_index_unique(id, i);
            self.lemma_tb_rec_index_unique(id, j);
        }
    }

    /// After replacing one stored task-based recurrence by one carrying the
    /// same id, that id still resolves to the new definition.
    pub proof fn lemma_rec_of_after_task_update(
        self,
        v2: RepoView,
        i: int,
        r2: TaskbasedRecurrenceView,
    )
        requires
            self.wf(),
            0 <= i < self.taskbased_recurrences.len(),
            r2.recurrence.recurrence_id == self.taskbased_recurrences[i].recurrence.recurrence_id,
            v2.taskbased_recurrences == self.taskbased_recurrences.update(i, r2),
            v2.timebased_recurrences == self.timebased_recurrences,
        ensures
            v2.task_has_rec(r2.recurrence.recurrence_id),
            !v2.tb_has_rec(r2.recurrence.recurrence_id),
            v2.rec_of(r2.recurrence.recurrence_id) == r2.recurrence,
    {
        let id = r2.recurrence.recurrence_id;
        assert(v2.taskbased_recurrences[i] == r2);
        assert(v2.task_has_rec(id));
        self.lemma_task_rec_index_unique(id, i);
        self.lemma_rec_not_in_both(id);
        let j = v2.task_rec_index(id);
        assert(0 <= j < v2.taskbased_recurrences.len()
            && v2.taskbased_recurrences[j].recurrence.recurrence_id == id);
        if j != i {
            assert(v2.taskbased_recurrences[j] == self.taskbased_recurrences[j]);
            self.lemma_task_rec_index_unique(id, j);
        }
    }

    /// Appending a time-based goal carrying the next fresh id, while
    /// advancing the allocator, preserves well-formedness.
    pub proof fn lemma_push_tb_goal_wf(self, v2: RepoView, g2: TimebasedGoalView)
        requires
            self.wf(),
            self.next_free_id < u128::MAX,
            g2.goal.goal_id == self.next_free_id + 1,
            v2.next_free_id == self.next_free_id + 1,
            v2.timebased_goals == self.timebased_goals.push(g2),
            v2.taskbased_goals == self.taskbased_goals,
            v2.timebased_recurrences == self.timebased_recurrences,
            v2.taskbased_recurrences == self.taskbased_recurrences,
        ensures
            v2.wf(),
    {
        let n = self.timebased_goals.len() as int;
        assert(forall|i: int|
            0 <= i < v2.timebased_goals.len() - 1 ==> v2.timebased_goals[i]
                == self.timebased_goals[i]);
        assert(v2.timebased_goals[n] == g2);
    }

    /// Appending a task-based goal carrying the next fresh id, while
    /// advancing the allocator, preserves well-formedness.
    pub proof fn lemma_push_task_goal_wf(self, v2: RepoView, g2: TaskbasedGoalView)
        requires
            self.wf(),
            self.next_free_id < u128::MAX,
            g2.goal.goal_id == self.next_free_id + 1,
            v2.next_free_id == self.next_free_id + 1,
            v2.taskbased_goals == self.taskbased_goals.push(g2),
            v2.timebased_goals == self.timebased_goals,
            v2.timebased_recurrences == self.timebased_recurrences,
            v2.taskbased_recurrences == self.taskbased_recurrences,
        ensures
            v2.wf(),
    {
        let n = self.taskbased_goals.len() as int;
        assert(forall|i: int|
            0 <= i < v2.taskbased_goals.len() - 1 ==> v2.taskbased_goals[i]
                == self.taskbased_goals[i]);
        assert(v2.taskbased_goals[n] == g2);
    }

    /// A goal other than the appended one is still stored, with an
    /// unchanged header, after a time-based goal is appended.
    pub proof fn lemma_goal_lookup_after_tb_push(
        self,
        v2: RepoView,
        g2: TimebasedGoalView,
        id: u128,
    )
        requires
            self.wf(),
            v2.timebased_goals == self.timebased_goals.push(g2),
            v2.taskbased_goals == self.taskbased_goals,
            self.goal_exists(id),
            g2.goal.goal_id != id,
        ensures
            v2.goal_exists(id),
            v2.goal_header(id) == self.goal_header(id),
    {
        let n = self.timebased_goals.len() as int;
        if self.tb_has_goal(id) {
            let i = self.tb_goal_index(id);
            assert(0 <= i < n && self.timebased_goals[i].goal.goal_id == id);
            assert(v2.timebased_goals[i] == self.timebased_goals[i]);
            assert(v2.tb_has_goal(id));
            let j = v2.tb_goal_index(id);
            assert(0 <= j < n + 1 && v2.timebased_goals[j].goal.goal_id == id);
            assert(j != n);
            assert(v2.timebased_goals[j] == self.timebased_goals[j]);
            assert(j == i);
        } else {
            assert(self.task_has_goal(id));
            assert forall|k: int|
                0 <= k < v2.timebased_goals.len() implies (
            #[trigger] v2.timebased_goals[k]).goal.goal_id != id by {
                if k < n {
                    assert(v2.timebased_goals[k] == self.timebased_goals[k]);
                    assert(!self.tb_has_goal(id) ==> self.timebased_goals[k].goal.goal_id != id);
                }
            }
            assert(!v2.tb_has_goal(id));
        }
    }

    /// A goal other than the appended one is still stored, with an
    /// unchanged header, after a task-based goal is appended.
    pub proof fn lemma_goal_lookup_after_task_push(
        self,
        v2: RepoView,
        g2: TaskbasedGoalView,
        id: u128,
    )
        requires
            self.wf(),
            v2.taskbased_goals == self.taskbased_goals.push(g2),
            v2.timebased_goals == self.timebased_goals,
            self.goal_exists(id),
            g2.goal.goal_id != id,
        ensures
            v2.goal_exists(id),
            v2.goal_header(id) == self.goal_header(id),
    {
        let n = self.taskbased_goals.len() as int;
        if self.task_has_goal(id) {
            let i = self.task_goal_index(id);
            assert(0 <= i < n && self.taskbased_goals[i].goal.goal_id == id);
            assert(v2.taskbased_goals[i] == self.taskbased_goals[i]);
            assert(v2.task_has_goal(id));
            if !v2.tb_has_goal(id) {
                let j = v2.task_goal_index(id);
                assert(0 <= j < n + 1 && v2.taskbased_goals[j].goal.goal_id == id);
                assert(j != n);
                assert(v2.taskbased_goals[j] == self.taskbased_goals[j]);
                assert(j == i);
            }
        }
    }

    /// A goal other than the replaced one is still stored, with an
    /// unchanged header, after one time-based goal is replaced in place.
    pub proof fn lemma_goal_lookup_after_tb_update(
        self,
        v2: RepoView,
        i: int,
        g2: TimebasedGoalView,
        id: u128,
    )
        requires
            self.wf(),
            0 <= i < self.timebased_goals.len(),
            g2.goal.goal_id == self.timebased_goals[i].goal.goal_id,
            v2.timebased_goals == self.timebased_goals.update(i, g2),
            v2.taskbased_goals == self.taskbased_goals,
            self.goal_exists(id),
            id != g2.goal.goal_id,
        ensures
            v2.goal_exists(id),
            v2.goal_header(id) == self.goal_header(id),
    {
        let n = self.timebased_goals.len() as int;
        if self.tb_has_goal(id) {
            let k = self.tb_goal_index(id);
            assert(0 <= k < n && self.timebased_goals[k].goal.goal_id == id);
            assert(k != i);
            assert(v2.timebased_goals[k] == self.timebased_goals[k]);
            assert(v2.tb_has_goal(id));
            let j = v2.tb_goal_index(id);
            assert(0 <= j < n && v2.timebased_goals[j].goal.goal_id == id);
            assert(j != i);
            assert(v2.timebased_goals[j] == self.timebased_goals[j]);
            assert(j == k);
        } else {
            assert(self.task_has_goal(id));
            assert forall|k: int|
                0 <= k < v2.timebased_goals.len() implies (
            #[trigger] v2.timebased_goals[k]).goal.goal_id != id by {
                if k != i {
                    assert(v2.timebased_goals[k] == self.timebased_goals[k]);
                }
            }
            assert(!v2.tb_has_goal(id));
        }
    }

    /// A goal other than the replaced one is still stored, with an
    /// unchanged header, after one task-based goal is replaced in place.
    pub proof fn lemma_goal_lookup_after_task_update(
        self,
        v2: RepoView,
        i: int,
        g2: TaskbasedGoalView,
        id: u128,
    )
        requires
            self.wf(),
            0 <= i < self.taskbased_goals.len(),
            g2.goal.goal_id == self.taskbased_goals[i].goal.goal_id,
            v2.taskbased_goals == self.taskbased_goals.update(i, g2),
            v2.timebased_goals == self.timebased_goals,
            self.goal_exists(id),
            id != g2.goal.goal_id,
        ensures
            v2.goal_exists(id),
            v2.goal_header(id) == self.goal_header(id),
    {
        let n = self.taskbased_goals.len() as int;
        if self.task_has_goal(id) {
            let k = self.task_goal_index(id);
            assert(0 <= k < n && self.taskbased_goals[k].goal.goal_id == id);
            assert(k != i);
            assert(v2.taskbased_goals[k] == self.taskbased_goals[k]);
            assert(v2.task_has_goal(id));
            if !v2.tb_has_goal(id) {
                let j = v2.task_goal_index(id);
                assert(0 <= j < n && v2.taskbased_goals[j].goal.goal_id == id);
                assert(j != i);
                assert(v2.taskbased_goals[j] == self.taskbased_goals[j]);
                assert(j == k);
            }
        }
    }

    /// Under well-formedness, an index holding a time-based goal with this
    /// id is the index `tb_goal_index` denotes.
    pub proof fn lemma_tb_index_unique(self, id: u128, i: int)
        requires
            self.wf(),
            0 <= i < self.timebased_goals.len(),
            self.timebased_goals[i].goal.goal_id == id,
        ensures
            self.tb_has_goal(id),
            self.tb_goal_index(id) == i,
    {
        assert(self.tb_has_goal(id));
        let j = self.tb_goal_index(id);
        assert(0 <= j < self.timebased_goals.len() && self.timebased_goals[j].goal.goal_id == id);
    }

    /// Under well-formedness, an index holding a task-based goal with this
    /// id is the index `task_goal_index` denotes.
    pub proof fn lemma_task_index_unique(self, id: u128, i: int)
        requires
            self.wf(),
            0 <= i < self.taskbased_goals.len(),
            self.taskbased_goals[i].goal.goal_id == id,
        ensures
            self.task_has_goal(id),
            self.task_goal_index(id) == i,
    {
        assert(self.task_has_goal(id));
        let j = self.task_goal_index(id);
        assert(0 <= j < self.taskbased_goals.len() && self.taskbased_goals[j].goal.goal_id == id);
    }

    /// Every stored goal's id was issued by the allocator, so it is
    /// positive and at most the last issued id.
    pub proof fn lemma_existing_goal_id_in_range(self, id: u128)
        requires
            self.wf(),
            self.goal_exists(id),
        ensures
            1 <= id <= self.next_free_id,
    {
        if self.tb_has_goal(id) {
            let i = choose|i: int|
                0 <= i < self.timebased_goals.len() && (
                #[trigger] self.timebased_goals[i]).goal.goal_id == id;
            assert(1 <= self.timebased_goals[i].goal.goal_id <= self.next_free_id);
        } else {
            let i = choose|i: int|
                0 <= i < self.taskbased_goals.len() && (
                #[trigger] self.taskbased_goals[i]).goal.goal_id == id;
            assert(1 <= self.taskbased_goals[i].goal.goal_id <= self.next_free_id);
        }
    }

    /// Every stored recurrence's id was issued by the allocator.
    pub proof fn lemma_existing_rec_id_in_range(self, id: u128)
        requires
            self.wf(),
            self.rec_exists(id),
        ensures
            1 <= id <= self.next_free_id,
    {
        if self.tb_has_rec(id) {
            let i = choose|i: int|
                0 <= i < self.timebased_recurrences.len() && (
                #[trigger] self.timebased_recurrences[i]).recurrence.recurrence_id == id;
            assert(1 <= self.timebased_recurrences[i].recurrence.recurrence_id
                <= self.next_free_id);
        } else {
            let i = choose|i: int|
                0 <= i < self.taskbased_recurrences.len() && (
                #[trigger] self.taskbased_recurrences[i]).recurrence.recurrence_id == id;
            assert(1 <= self.taskbased_recurrences[i].recurrence.recurrence_id
                <= self.next_free_id);
        }
    }

    /// Under well-formedness, no goal id is stored in both collections.
    pub proof fn lemma_goal_not_in_both(self, id: u128)
        requires
            self.wf(),
        ensures
            !(self.tb_has_goal(id) && self.task_has_goal(id)),
    {
        if self.tb_has_goal(id) && self.task_has_goal(id) {
            let i = choose|i: int|
                0 <= i < self.timebased_goals.len() && (
                #[trigger] self.timebased_goals[i]).goal.goal_id == id;
            let j = choose|j: int|
                0 <= j < self.taskbased_goals.len() && (
                #[trigger] self.taskbased_goals[j]).goal.goal_id == id;
            assert(self.timebased_goals[i].goal.goal_id != self.taskbased_goals[j].goal.goal_id);
        }
    }

    /// Under well-formedness, an index holding a time-based recurrence with
    /// this id is the index `tb_rec_index` denotes.
    pub proof fn lemma_tb_rec_index_unique(self, id: u128, i: int)
        requires
            self.wf(),
            0 <= i < self.timebased_recurrences.len(),
            self.timebased_recurrences[i].recurrence.recurrence_id == id,
        ensures
            self.tb_has_rec(id),
            self.tb_rec_index(id) == i,
    {
        assert(self.tb_has_rec(id));
        let j = self.tb_rec_index(id);
        assert(0 <= j < self.timebased_recurrences.len()
            && self.timebased_recurrences[j].recurrence.recurrence_id == id);
    }

    /// Under well-formedness, an index holding a task-based recurrence with
    /// this id is the index `task_rec_index` denotes.
    pub proof fn lemma_task_rec_index_unique(self, id: u128, i: int)
        requires
            self.wf(),
            0 <= i < self.taskbased_recurrences.len(),
            self.taskbased_recurrences[i].recurrence.recurrence_id == id,
        ensures
            self.task_has_rec(id),
            self.task_rec_index(id) == i,
    {
        assert(self.task_has_rec(id));
        let j = self.task_rec_index(id);
        assert(0 <= j < self.taskbased_recurrences.len()
            && self.taskbased_recurrences[j].recurrence.recurrence_id == id);
    }

    /// Under well-formedness, no recurrence id is stored in both
    /// collections.
    pub proof fn lemma_rec_not_in_both(self, id: u128)
        requires
            self.wf(),
        ensures
            !(self.tb_has_rec(id) && self.task_has_rec(id)),
    {
        if self.tb_has_rec(id) && self.task_has_rec(id) {
            let i = choose|i: int|
                0 <= i < self.timebased_recurrences.len() && (
                #[trigger] self.timebased_recurrences[i]).recurrence.recurrence_id == id;
            let j = choose|j: int|
                0 <= j < self.taskbased_recurrences.len() && (
                #[trigger] self.taskbased_recurrences[j]).recurrence.recurrence_id == id;
            assert(self.timebased_recurrences[i].recurrence.recurrence_id
                != self.taskbased_recurrences[j].recurrence.recurrence_id);
        }
    }

    /// The state with the version counter set to `v` and nothing else
    /// changed.
    pub open spec fn with_version(self, v: u128) -> RepoView {
        RepoView { version_number: v, ..self }
    }

    /// The state with the time-based goal `id`'s accumulated dedicated time
    /// set to `total` and nothing else changed.
    pub open spec fn with_dedicated_time(self, id: u128, total: u128) -> RepoView {
        let i = self.tb_goal_index(id);
        let g = self.timebased_goals[i];
        RepoView {
            timebased_goals: self.timebased_goals.update(
                i,
                TimebasedGoalView {
                    criteria: TimebasedCriteriaView { dedicated_time_ms: total, ..g.criteria },
                    ..g
                },
            ),
            ..self
        }
    }

    /// The state with criterion `k` of the task-based goal `id` set to
    /// `checked` and nothing else changed.
    pub open spec fn with_criteria_checked(self, id: u128, k: int, checked: bool) -> RepoView {
        let i = self.task_goal_index(id);
        let g = self.taskbased_goals[i];
        RepoView {
            taskbased_goals: self.taskbased_goals.update(
                i,
                TaskbasedGoalView {
                    criteria: g.criteria.update(
                        k,
                        TaskbasedCriteriaItemView { is_checked: checked, ..g.criteria[k] },
                    ),
                    ..g
                },
            ),
            ..self
        }
    }

    /// Replacing one stored time-based goal by one carrying the same id
    /// preserves well-formedness.
    pub proof fn lemma_update_tb_goal_wf(self, i: int, g2: TimebasedGoalView)
        requires
            self.wf(),
            0 <= i < self.timebased_goals.len(),
            g2.goal.goal_id == self.timebased_goals[i].goal.goal_id,
        ensures
            (RepoView { timebased_goals: self.timebased_goals.update(i, g2), ..self }).wf(),
    {
    }

    /// Replacing one stored task-based goal by one carrying the same id
    /// preserves well-formedness.
    pub proof fn lemma_update_task_goal_wf(self, i: int, g2: TaskbasedGoalView)
        requires
            self.wf(),
            0 <= i < self.taskbased_goals.len(),
            g2.goal.goal_id == self.taskbased_goals[i].goal.goal_id,
        ensures
            (RepoView { taskbased_goals: self.taskbased_goals.update(i, g2), ..self }).wf(),
    {
    }

    /// The state with the stored goal `id`'s status replaced by `status`
    /// and nothing else changed.
    pub open spec fn with_goal_status(self, id: u128, status: GoalCompletionStatus) -> RepoView {
        if self.tb_has_goal(id) {
            let i = self.tb_goal_index(id);
            let g = self.timebased_goals[i];
            RepoView {
                timebased_goals: self.timebased_goals.update(
                    i,
                    TimebasedGoalView {
                        goal: GoalView { completion_status: status, ..g.goal },
                        ..g
                    },
                ),
                ..self
            }
        } else {
            let i = self.task_goal_index(id);
            let g = self.taskbased_goals[i];
            RepoView {
                taskbased_goals: self.taskbased_goals.update(
                    i,
                    TaskbasedGoalView {
                        goal: GoalView { completion_status: status, ..g.goal },
                        ..g
                    },
                ),
                ..self
            }
        }
    }
}

} // verus!
