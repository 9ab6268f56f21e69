//! Creating and editing goals through the combined create-or-edit entry
//! points: a sentinel `goal_id == 0` creates, any other id edits in place.
//! Both variants validate parent containment and shrink protection before
//! touching the store.

use vstd::prelude::*;
use crate::bounds::{is_within_bounds, within_bounds};
use crate::codes::CreateEditGoalCode;
use crate::goal::{Goal, GoalCompletionStatus, TaskbasedGoal, TimebasedGoal};
use crate::goal::{TaskbasedGoalView, TimebasedGoalView};
use crate::state::{is_incomplete_child, RepoView};
use crate::store::InMemoryRepo;

verus! {

impl InMemoryRepo {
    /// Would every incomplete immediate subgoal of `id` still start within
    /// the bound `[start, end]`?
    pub(crate) fn subgoals_fit(&self, id: u128, start: u128, end: u128) -> (r: bool)
        ensures
            r == self@.subgoals_ok(id, start, end),
    {
        let n = self.timebased_goals.len();
        let mut i: usize = 0;
        while i < n
            invariant
                i <= n,
                n == self@.timebased_goals.len(),
                forall|j: int|
                    0 <= j < i ==> (is_incomplete_child(
                        (#[trigger] self@.timebased_goals[j]).goal,
                        id,
                    ) ==> within_bounds(
                        start,
                        end,
                        self@.timebased_goals[j].goal.start_unix_timestamp,
                        self@.timebased_goals[j].goal.end_unix_timestamp,
                    )),
            decreases n - i,
        {
            let g = &self.timebased_goals[i].goal;
            if g.parent_id == id && g.completion_status == GoalCompletionStatus::Incomplete {
                if !is_within_bounds(start, end, g.start_unix_timestamp, g.end_unix_timestamp) {
                    proof {
                        assert(is_incomplete_child(self@.timebased_goals[i as int].goal, id));
                    }
                    return false;
                }
            }
            i = i + 1;
        }
        let m = self.taskbased_goals.len();
        let mut j: usize = 0;
        while j < m
            invariant
                j <= m,
                m == self@.taskbased_goals.len(),
                forall|k: int|
                    0 <= k < self@.timebased_goals.len() ==> (is_incomplete_child(
                        (#[trigger] self@.timebased_goals[k]).goal,
                        id,
                    ) ==> within_bounds(
                        start,
                        end,
                        self@.timebased_goals[k].goal.start_unix_timestamp,
                        self@.timebased_goals[k].goal.end_unix_timestamp,
                    )),
                forall|k: int|
                    0 <= k < j ==> (is_incomplete_child(
                        (#[trigger] self@.taskbased_goals[k]).goal,
                        id,
                    ) ==> within_bounds(
                        start,
                        end,
                        self@.taskbased_goals[k].goal.start_unix_timestamp,
                        self@.taskbased_goals[k].goal.end_unix_timestamp,
                    )),
            decreases m - j,
        {
            let g = &self.taskbased_goals[j].goal;
            if g.parent_id == id && g.completion_status == GoalCompletionStatus::Incomplete {
                if !is_within_bounds(start, end, g.start_unix_timestamp, g.end_unix_timestamp) {
                    proof {
                        assert(is_incomplete_child(self@.taskbased_goals[j as int].goal, id));
                    }
                    return false;
                }
            }
            j = j + 1;
        }
        true
    }

    /// Check the supplied header against the stored parent's bound. A
    /// missing parent fails the check: no stored bound admits the start.
    fn parent_bound_ok(&self, parent_id: u128, start: u128, end: u128) -> (r: bool)
        requires
            self@.wf(),
        ensures
            r == (self@.goal_exists(parent_id) && within_bounds(
                self@.goal_header(parent_id).start_unix_timestamp,
                self@.goal_header(parent_id).end_unix_timestamp,
                start,
                end,
            )),
    {
        let (_, parent) = self.get_goal_by_id(parent_id);
        match parent {
            Some(p) => is_within_bounds(p.start_unix_timestamp, p.end_unix_timestamp, start, end),
            None => false,
        }
    }

    /// Create (`goal_id == 0`) or edit a time-based goal.
    ///
    /// A create appends the supplied goal with a fresh id, forcing
    /// `recurrence_id = 0` and an incomplete status. An edit overwrites the
    /// stored goal's name, bounds, callback lists and criteria in place,
    /// keeping its parent, spawning recurrence and status. The result code
    /// and the validation order are exactly `create_edit_outcome`; naming a
    /// parent id that no stored goal carries fails the containment check
    /// (`FailureSubgoalOutsideParentTimebound`). Any failure leaves the
    /// store untouched, and success bumps the version. After a success
    /// naming a parent (other than the goal itself), the goal's start lies
    /// within that stored parent's bound.
    pub fn create_edit_timebased_goal(&mut self, goal_dat: TimebasedGoal) -> (r:
        CreateEditGoalCode)
        requires
            old(self)@.wf(),
            old(self)@.version_number < u128::MAX,
            goal_dat.goal.goal_id == 0 ==> old(self)@.next_free_id < u128::MAX,
        ensures
            final(self)@.wf(),
            r == old(self)@.create_edit_outcome(goal_dat@.goal, true),
            r != CreateEditGoalCode::Success ==> *final(self) == *old(self),
            r == CreateEditGoalCode::Success && goal_dat.goal.goal_id == 0 ==> final(self)@ == old(
                self,
            )@.with_created_tb_goal(goal_dat@),
            r == CreateEditGoalCode::Success && goal_dat.goal.goal_id != 0 ==> final(self)@ == old(
                self,
            )@.with_edited_tb_goal(goal_dat@),
            r == CreateEditGoalCode::Success && goal_dat.goal.parent_id != 0
                && goal_dat.goal.parent_id != goal_dat.goal.goal_id ==> final(self)@.goal_exists(
                goal_dat.goal.parent_id,
            ) && within_bounds(
                final(self)@.goal_header(goal_dat.goal.parent_id).start_unix_timestamp,
                final(self)@.goal_header(goal_dat.goal.parent_id).end_unix_timestamp,
                goal_dat.goal.start_unix_timestamp,
                goal_dat.goal.end_unix_timestamp,
            ),
    {
        let ghost pre = self@;
        if goal_dat.goal.parent_id != 0 {
            if !self.parent_bound_ok(
                goal_dat.goal.parent_id,
                goal_dat.goal.start_unix_timestamp,
                goal_dat.goal.end_unix_timestamp,
            ) {
                return CreateEditGoalCode::FailureSubgoalOutsideParentTimebound;
            }
        }
        if goal_dat.goal.goal_id != 0 {
            if !self.does_goal_exist(goal_dat.goal.goal_id) {
                return CreateEditGoalCode::FailureEditingGoalDoesntExist;
            }
            if !self.subgoals_fit(
                goal_dat.goal.goal_id,
                goal_dat.goal.start_unix_timestamp,
                goal_dat.goal.end_unix_timestamp,
            ) {
                return CreateEditGoalCode::FailureNewTimeboundSmallerThanSubgoals;
            }
            let (tb_found, idx) = self.index_of_timebased_goal(goal_dat.goal.goal_id);
            if !tb_found {
                return CreateEditGoalCode::FailureEditingGoalOfIncorrectType;
            }
            proof {
                pre.lemma_tb_index_unique(goal_dat.goal.goal_id, idx as int);
            }
            self.version_number = self.version_number + 1;
            let mut stored = self.timebased_goals.remove(idx);
            let TimebasedGoal { goal: new_goal, criteria: new_criteria } = goal_dat;
            let Goal {
                goal_name,
                start_unix_timestamp,
                end_unix_timestamp,
                failure_callback,
                success_callback,
                finally_callback,
                ..
            } = new_goal;
            stored.goal.goal_name = goal_name;
            stored.goal.start_unix_timestamp = start_unix_timestamp;
            stored.goal.end_unix_timestamp = end_unix_timestamp;
            stored.goal.failure_callback = failure_callback;
            stored.goal.success_callback = success_callback;
            stored.goal.finally_callback = finally_callback;
            stored.criteria = new_criteria;
            let ghost stored_v = stored@;
            self.timebased_goals.insert(idx, stored);
            proof {
                assert(self@.timebased_goals =~= pre.timebased_goals.update(idx as int, stored_v));
                assert(stored_v =~= (TimebasedGoalView {
                    goal: RepoView::edited_header(
                        pre.timebased_goals[idx as int].goal,
                        goal_dat@.goal,
                    ),
                    criteria: goal_dat@.criteria,
                }));
                assert(self@ =~= pre.with_edited_tb_goal(goal_dat@));
                pre.lemma_update_tb_goal_wf(idx as int, stored_v);
                if goal_dat.goal.parent_id != 0 && goal_dat.goal.parent_id != goal_dat.goal.goal_id {
                    pre.lemma_goal_lookup_after_tb_update(
                        self@,
                        idx as int,
                        stored_v,
                        goal_dat.goal.parent_id,
                    );
                }
            }
            CreateEditGoalCode::Success
        } else {
            self.version_number = self.version_number + 1;
            let id = self.next_fresh_id();
            let mut g = goal_dat;
            g.goal.goal_id = id;
            g.goal.recurrence_id = 0;
            g.goal.completion_status = GoalCompletionStatus::Incomplete;
            let ghost gv = g@;
            self.timebased_goals.push(g);
            proof {
                assert(self@.timebased_goals =~= pre.timebased_goals.push(gv));
                assert(gv =~= (TimebasedGoalView {
                    goal: pre.created_header(goal_dat@.goal),
                    criteria: goal_dat@.criteria,
                }));
                assert(self@ =~= pre.with_created_tb_goal(goal_dat@));
                pre.lemma_push_tb_goal_wf(self@, gv);
                if goal_dat.goal.parent_id != 0 {
                    pre.lemma_existing_goal_id_in_range(goal_dat.goal.parent_id);
                    pre.lemma_goal_lookup_after_tb_push(self@, gv, goal_dat.goal.parent_id);
                }
            }
            CreateEditGoalCode::Success
        }
    }

    /// Create (`goal_id == 0`) or edit a task-based goal, under the same
    /// contract shape as the time-based entry point; an edit replaces the
    /// whole stored checklist by the supplied one.
    pub fn create_edit_taskbased_goal(&mut self, goal_dat: TaskbasedGoal) -> (r:
        CreateEditGoalCode)
        requires
            old(self)@.wf(),
            old(self)@.version_number < u128::MAX,
            goal_dat.goal.goal_id == 0 ==> old(self)@.next_free_id < u128::MAX,
        ensures
            final(self)@.wf(),
            r == old(self)@.create_edit_outcome(goal_dat@.goal, false),
            r != CreateEditGoalCode::Success ==> *final(self) == *old(self),
            r == CreateEditGoalCode::Success && goal_dat.goal.goal_id == 0 ==> final(self)@ == old(
                self,
            )@.with_created_task_goal(goal_dat@),
            r == CreateEditGoalCode::Success && goal_dat.goal.goal_id != 0 ==> final(self)@ == old(
                self,
            )@.with_edited_task_goal(goal_dat@),
            r == CreateEditGoalCode::Success && goal_dat.goal.parent_id != 0
                && goal_dat.goal.parent_id != goal_dat.goal.goal_id ==> final(self)@.goal_exists(
                goal_dat.goal.parent_id,
            ) && within_bounds(
                final(self)@.goal_header(goal_dat.goal.parent_id).start_unix_timestamp,
                final(self)@.goal_header(goal_dat.goal.parent_id).end_unix_timestamp,
                goal_dat.goal.start_unix_timestamp,
                goal_dat.goal.end_unix_timestamp,
            ),
    {
        let ghost pre = self@;
        if goal_dat.goal.parent_id != 0 {
            if !self.parent_bound_ok(
                goal_dat.goal.parent_id,
                goal_dat.goal.start_unix_timestamp,
                goal_dat.goal.end_unix_timestamp,
            ) {
                return CreateEditGoalCode::FailureSubgoalOutsideParentTimebound;
            }
        }
        if goal_dat.goal.goal_id != 0 {
            if !self.does_goal_exist(goal_dat.goal.goal_id) {
                return CreateEditGoalCode::FailureEditingGoalDoesntExist;
            }
            if !self.subgoals_fit(
                goal_dat.goal.goal_id,
                goal_dat.goal.start_unix_timestamp,
                goal_dat.goal.end_unix_timestamp,
            ) {
                return CreateEditGoalCode::FailureNewTimeboundSmallerThanSubgoals;
            }
            let (task_found, idx) = self.index_of_taskbased_goal(goal_dat.goal.goal_id);
            if !task_found {
                return CreateEditGoalCode::FailureEditingGoalOfIncorrectType;
            }
            proof {
                pre.lemma_task_index_unique(goal_dat.goal.goal_id, idx as int);
            }
            self.version_number = self.version_number + 1;
            let mut stored = self.taskbased_goals.remove(idx);
            let TaskbasedGoal { goal: new_goal, criteria: new_criteria } = goal_dat;
            let Goal {
                goal_name,
                start_unix_timestamp,
                end_unix_timestamp,
                failure_callback,
                success_callback,
                finally_callback,
                ..
            } = new_goal;
            stored.goal.goal_name = goal_name;
            stored.goal.start_unix_timestamp = start_unix_timestamp;
            stored.goal.end_unix_timestamp = end_unix_timestamp;
            stored.goal.failure_callback = failure_callback;
            stored.goal.success_callback = success_callback;
            stored.goal.finally_callback = finally_callback;
            stored.criteria = new_criteria;
            let ghost stored_v = stored@;
            self.taskbased_goals.insert(idx, stored);
            proof {
                assert(self@.taskbased_goals =~= pre.taskbased_goals.update(idx as int, stored_v));
                assert(stored_v =~= (TaskbasedGoalView {
                    goal: RepoView::edited_header(
                        pre.taskbased_goals[idx as int].goal,
                        goal_dat@.goal,
                    ),
                    criteria: goal_dat@.criteria,
                }));
                assert(self@ =~= pre.with_edited_task_goal(goal_dat@));
                pre.lemma_update_task_goal_wf(idx as int, stored_v);
                if goal_dat.goal.parent_id != 0 && goal_dat.goal.parent_id != goal_dat.goal.goal_id {
                    pre.lemma_goal_lookup_after_task_update(
                        self@,
                        idx as int,
                        stored_v,
                        goal_dat.goal.parent_id,
                    );
                }
            }
            CreateEditGoalCode::Success
        } else {
            self.version_number = self.version_number + 1;
            let id = self.next_fresh_id();
            let mut g = goal_dat;
            g.goal.goal_id = id;
            g.goal.recurrence_id = 0;
            g.goal.completion_status = GoalCompletionStatus::Incomplete;
            let ghost gv = g@;
            self.taskbased_goals.push(g);
            proof {
                assert(self@.taskbased_goals =~= pre.taskbased_goals.push(gv));
                assert(gv =~= (TaskbasedGoalView {
                    goal: pre.created_header(goal_dat@.goal),
                    criteria: goal_dat@.criteria,
                }));
                assert(self@ =~= pre.with_created_task_goal(goal_dat@));
                pre.lemma_push_task_goal_wf(self@, gv);
                if goal_dat.goal.parent_id != 0 {
                    pre.lemma_existing_goal_id_in_range(goal_dat.goal.parent_id);
                    pre.lemma_goal_lookup_after_task_push(self@, gv, goal_dat.goal.parent_id);
                }
            }
            CreateEditGoalCode::Success
        }
    }
}

} // verus!
