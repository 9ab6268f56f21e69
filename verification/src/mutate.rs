//! Status transitions and in-place payload mutations: resolving a goal as
//! succeeded, failed or deleted (gated on its incomplete immediate
//! subgoals), feeding time into a time-based goal, and toggling one
//! criterion of a task-based goal.

use vstd::prelude::*;
use crate::codes::{CheckUncheckTaskbasedCriteriaCode, GoalDeathCode, GoalDeleteCode};
use crate::goal::{GoalCompletionStatus, TaskbasedCriteriaItemView, TaskbasedGoalView};
use crate::store::InMemoryRepo;

verus! {

impl InMemoryRepo {
    /// Overwrite the stored status of the goal with this id, in whichever
    /// collection holds it.
    pub(crate) fn set_goal_status(&mut self, goal_id: u128, status: GoalCompletionStatus)
        requires
            old(self)@.wf(),
            old(self)@.goal_exists(goal_id),
        ensures
            final(self)@ == old(self)@.with_goal_status(goal_id, status),
            final(self)@.wf(),
    {
        let ghost pre = self@;
        let (tb_found, idx) = self.index_of_timebased_goal(goal_id);
        if tb_found {
            proof {
                pre.lemma_tb_index_unique(goal_id, idx as int);
            }
            let mut g = self.timebased_goals.remove(idx);
            g.goal.completion_status = status;
            self.timebased_goals.insert(idx, g);
            proof {
                assert(self.timebased_goals@ =~= old(self).timebased_goals@.update(idx as int, g));
                assert(self@.timebased_goals =~= pre.timebased_goals.update(idx as int, g@));
                assert(self@ =~= pre.with_goal_status(goal_id, status));
                pre.lemma_update_tb_goal_wf(idx as int, g@);
            }
        } else {
            let (task_found, idx) = self.index_of_taskbased_goal(goal_id);
            proof {
                pre.lemma_task_index_unique(goal_id, idx as int);
            }
            let mut g = self.taskbased_goals.remove(idx);
            g.goal.completion_status = status;
            self.taskbased_goals.insert(idx, g);
            proof {
                assert(self.taskbased_goals@ =~= old(self).taskbased_goals@.update(idx as int, g));
                assert(self@.taskbased_goals =~= pre.taskbased_goals.update(idx as int, g@));
                assert(self@ =~= pre.with_goal_status(goal_id, status));
                pre.lemma_update_task_goal_wf(idx as int, g@);
            }
        }
    }

    /// Resolve the goal as succeeded. Fails if no goal carries the id, or
    /// if any immediate subgoal is still incomplete; on success only the
    /// goal's status and the version counter change.
    pub fn succeed_goal(&mut self, goal_id: u128) -> (r: GoalDeathCode)
        requires
            old(self)@.wf(),
            old(self)@.version_number < u128::MAX,
        ensures
            final(self)@.wf(),
            !old(self)@.goal_exists(goal_id) ==> r == GoalDeathCode::FailureGoalDoesntExist
                && *final(self) == *old(self),
            old(self)@.goal_exists(goal_id) && old(self)@.has_incomplete_subgoal(goal_id) ==> r
                == GoalDeathCode::FailureSubgoalsNotAllDead && *final(self) == *old(self),
            old(self)@.goal_exists(goal_id) && !old(self)@.has_incomplete_subgoal(goal_id) ==> r
                == GoalDeathCode::Success && final(self)@ == old(self)@.with_goal_status(
                goal_id,
                GoalCompletionStatus::Succeeded,
            ).with_version((old(self)@.version_number + 1) as u128),
    {
        if !self.does_goal_exist(goal_id) {
            return GoalDeathCode::FailureGoalDoesntExist;
        }
        if self.exists_incomplete_subgoal(goal_id) {
            return GoalDeathCode::FailureSubgoalsNotAllDead;
        }
        self.version_number = self.version_number + 1;
        let ghost bumped = self@;
        self.set_goal_status(goal_id, GoalCompletionStatus::Succeeded);
        proof {
            assert(self@ =~= old(self)@.with_goal_status(
                goal_id,
                GoalCompletionStatus::Succeeded,
            ).with_version((old(self)@.version_number + 1) as u128));
        }
        GoalDeathCode::Success
    }

    /// Resolve the goal as failed, under the same gating as `succeed_goal`.
    pub fn fail_goal(&mut self, goal_id: u128) -> (r: GoalDeathCode)
        requires
            old(self)@.wf(),
            old(self)@.version_number < u128::MAX,
        ensures
            final(self)@.wf(),
            !old(self)@.goal_exists(goal_id) ==> r == GoalDeathCode::FailureGoalDoesntExist
                && *final(self) == *old(self),
            old(self)@.goal_exists(goal_id) && old(self)@.has_incomplete_subgoal(goal_id) ==> r
                == GoalDeathCode::FailureSubgoalsNotAllDead && *final(self) == *old(self),
            old(self)@.goal_exists(goal_id) && !old(self)@.has_incomplete_subgoal(goal_id) ==> r
                == GoalDeathCode::Success && final(self)@ == old(self)@.with_goal_status(
                goal_id,
                GoalCompletionStatus::Failed,
            ).with_version((old(self)@.version_number + 1) as u128),
    {
        if !self.does_goal_exist(goal_id) {
            return GoalDeathCode::FailureGoalDoesntExist;
        }
        if self.exists_incomplete_subgoal(goal_id) {
            return GoalDeathCode::FailureSubgoalsNotAllDead;
        }
        self.version_number = self.version_number + 1;
        self.set_goal_status(goal_id, GoalCompletionStatus::Failed);
        proof {
            assert(self@ =~= old(self)@.with_goal_status(
                goal_id,
                GoalCompletionStatus::Failed,
            ).with_version((old(self)@.version_number + 1) as u128));
        }
        GoalDeathCode::Success
    }

    /// Mark the goal deleted. Deletion is a status, not removal: the goal
    /// stays stored and its id is never reused. Gated like `succeed_goal`.
    pub fn delete_goal(&mut self, goal_id: u128) -> (r: GoalDeleteCode)
        requires
            old(self)@.wf(),
            old(self)@.version_number < u128::MAX,
        ensures
            final(self)@.wf(),
            !old(self)@.goal_exists(goal_id) ==> r == GoalDeleteCode::FailureGoalDoesntExist
                && *final(self) == *old(self),
            old(self)@.goal_exists(goal_id) && old(self)@.has_incomplete_subgoal(goal_id) ==> r
                == GoalDeleteCode::FailureGoalHasSubgoals && *final(self) == *old(self),
            old(self)@.goal_exists(goal_id) && !old(self)@.has_incomplete_subgoal(goal_id) ==> r
                == GoalDeleteCode::Success && final(self)@ == old(self)@.with_goal_status(
                goal_id,
                GoalCompletionStatus::Deleted,
            ).with_version((old(self)@.version_number + 1) as u128),
    {
        if !self.does_goal_exist(goal_id) {
            return GoalDeleteCode::FailureGoalDoesntExist;
        }
        if self.exists_incomplete_subgoal(goal_id) {
            return GoalDeleteCode::FailureGoalHasSubgoals;
        }
        self.version_number = self.version_number + 1;
        self.set_goal_status(goal_id, GoalCompletionStatus::Deleted);
        proof {
            assert(self@ =~= old(self)@.with_goal_status(
                goal_id,
                GoalCompletionStatus::Deleted,
            ).with_version((old(self)@.version_number + 1) as u128));
        }
        GoalDeleteCode::Success
    }

    /// Add `time_to_add_ms` to the accumulated dedicated time of the
    /// time-based goal with this id. Returns false, changing nothing, if no
    /// time-based goal carries the id.
    pub fn feed_timebased_goal(&mut self, goal_id: u128, time_to_add_ms: u128) -> (r: bool)
        requires
            old(self)@.wf(),
            old(self)@.version_number < u128::MAX,
            old(self)@.tb_has_goal(goal_id) ==> old(self)@.timebased_goals[old(self)@.tb_goal_index(goal_id)].criteria.dedicated_time_ms + time_to_add_ms <= u128::MAX,
        ensures
            final(self)@.wf(),
            r == old(self)@.tb_has_goal(goal_id),
            !old(self)@.tb_has_goal(goal_id) ==> *final(self) == *old(self),
            old(self)@.tb_has_goal(goal_id) ==> final(self)@ == old(self)@.with_dedicated_time(
                goal_id,
                (old(self)@.timebased_goals[old(self)@.tb_goal_index(
                    goal_id,
                )].criteria.dedicated_time_ms + time_to_add_ms) as u128,
            ).with_version((old(self)@.version_number + 1) as u128),
    {
        let ghost pre = self@;
        if !self.does_goal_exist(goal_id) {
            return false;
        }
        let (tb_found, idx) = self.index_of_timebased_goal(goal_id);
        if !tb_found {
            return false;
        }
        proof {
            pre.lemma_tb_index_unique(goal_id, idx as int);
        }
        let mut g = self.timebased_goals.remove(idx);
        g.criteria.dedicated_time_ms = g.criteria.dedicated_time_ms + time_to_add_ms;
        self.timebased_goals.insert(idx, g);
        self.version_number = self.version_number + 1;
        proof {
            assert(self.timebased_goals@ =~= old(self).timebased_goals@.update(idx as int, g));
            assert(self@.timebased_goals =~= pre.timebased_goals.update(idx as int, g@));
            assert(self@ =~= pre.with_dedicated_time(
                goal_id,
                (pre.timebased_goals[pre.tb_goal_index(
                    goal_id,
                )].criteria.dedicated_time_ms + time_to_add_ms) as u128,
            ).with_version((pre.version_number + 1) as u128));
            pre.lemma_update_tb_goal_wf(idx as int, g@);
        }
        true
    }

    /// Set criterion `criteria_index` of the task-based goal with this id
    /// to `checked`. Reports whether the flag was flipped or already held
    /// the requested state (in which case nothing changes, not even the
    /// version counter), or why the goal or index is unusable.
    fn set_taskbased_criteria(
        &mut self,
        goal_id: u128,
        criteria_index: usize,
        checked: bool,
    ) -> (r: CheckUncheckTaskbasedCriteriaCode)
        requires
            old(self)@.wf(),
            old(self)@.version_number < u128::MAX,
        ensures
            final(self)@.wf(),
            !old(self)@.goal_exists(goal_id) ==> r
                == CheckUncheckTaskbasedCriteriaCode::FailureGoalDoesntExist && *final(self)
                == *old(self),
            old(self)@.goal_exists(goal_id) && old(self)@.tb_has_goal(goal_id) ==> r
                == CheckUncheckTaskbasedCriteriaCode::FailureGoalIsTimebased && *final(self)
                == *old(self),
            old(self)@.task_has_goal(goal_id) && criteria_index >= old(self)@.taskbased_goals[old(self)@.task_goal_index(goal_id)].criteria.len() ==> r
                == CheckUncheckTaskbasedCriteriaCode::FailureCriteriaIndexOutOfBounds && *final(self) == *old(self),
            old(self)@.task_has_goal(goal_id) && criteria_index < old(self)@.taskbased_goals[old(self)@.task_goal_index(goal_id)].criteria.len() && old(self)@.taskbased_goals[old(self)@.task_goal_index(goal_id)].criteria[criteria_index as int].is_checked == checked ==> r
                == CheckUncheckTaskbasedCriteriaCode::SuccessCriteriaAlreadyInThisState && *final(self) == *old(self),
            old(self)@.task_has_goal(goal_id) && criteria_index < old(self)@.taskbased_goals[old(self)@.task_goal_index(goal_id)].criteria.len() && old(self)@.taskbased_goals[old(self)@.task_goal_index(goal_id)].criteria[criteria_index as int].is_checked != checked ==> r
                == CheckUncheckTaskbasedCriteriaCode::SuccessCriteriaToggled && final(self)@ == old(self)@.with_criteria_checked(goal_id, criteria_index as int, checked).with_version(
                (old(self)@.version_number + 1) as u128,
            ),
    {
        let ghost pre = self@;
        if !self.does_goal_exist(goal_id) {
            return CheckUncheckTaskbasedCriteriaCode::FailureGoalDoesntExist;
        }
        if self.is_timebased_goal(goal_id) {
            return CheckUncheckTaskbasedCriteriaCode::FailureGoalIsTimebased;
        }
        let (task_found, idx) = self.index_of_taskbased_goal(goal_id);
        proof {
            pre.lemma_task_index_unique(goal_id, idx as int);
        }
        if criteria_index >= self.taskbased_goals[idx].criteria.len() {
            return CheckUncheckTaskbasedCriteriaCode::FailureCriteriaIndexOutOfBounds;
        }
        if self.taskbased_goals[idx].criteria[criteria_index].is_checked == checked {
            return CheckUncheckTaskbasedCriteriaCode::SuccessCriteriaAlreadyInThisState;
        }
        let mut g = self.taskbased_goals.remove(idx);
        let mut item = g.criteria.remove(criteria_index);
        item.is_checked = checked;
        g.criteria.insert(criteria_index, item);
        self.taskbased_goals.insert(idx, g);
        self.version_number = self.version_number + 1;
        proof {
            let k = criteria_index as int;
            assert(g.criteria@ =~= old(self).taskbased_goals@[idx as int].criteria@.update(
                k,
                item,
            ));
            assert(g@.criteria =~= pre.taskbased_goals[idx as int].criteria.update(k, item@));
            assert(g@ =~= TaskbasedGoalView {
                criteria: pre.taskbased_goals[idx as int].criteria.update(
                    k,
                    TaskbasedCriteriaItemView {
                        is_checked: checked,
                        ..pre.taskbased_goals[idx as int].criteria[k]
                    },
                ),
                ..pre.taskbased_goals[idx as int]
            });
            assert(self.taskbased_goals@ =~= old(self).taskbased_goals@.update(idx as int, g));
            assert(self@.taskbased_goals =~= pre.taskbased_goals.update(idx as int, g@));
            assert(self@ =~= pre.with_criteria_checked(goal_id, k, checked).with_version(
                (pre.version_number + 1) as u128,
            ));
            pre.lemma_update_task_goal_wf(idx as int, g@);
        }
        CheckUncheckTaskbasedCriteriaCode::SuccessCriteriaToggled
    }

    /// Check one criterion of a task-based goal (set its flag).
    pub fn check_taskbased_criteria(&mut self, goal_id: u128, criteria_index: usize) -> (r:
        CheckUncheckTaskbasedCriteriaCode)
        requires
            old(self)@.wf(),
            old(self)@.version_number < u128::MAX,
        ensures
            final(self)@.wf(),
            !old(self)@.goal_exists(goal_id) ==> r
                == CheckUncheckTaskbasedCriteriaCode::FailureGoalDoesntExist && *final(self)
                == *old(self),
            old(self)@.goal_exists(goal_id) && old(self)@.tb_has_goal(goal_id) ==> r
                == CheckUncheckTaskbasedCriteriaCode::FailureGoalIsTimebased && *final(self)
                == *old(self),
            old(self)@.task_has_goal(goal_id) && criteria_index >= old(self)@.taskbased_goals[old(self)@.task_goal_index(goal_id)].criteria.len() ==> r
                == CheckUncheckTaskbasedCriteriaCode::FailureCriteriaIndexOutOfBounds && *final(self) == *old(self),
            old(self)@.task_has_goal(goal_id) && criteria_index < old(self)@.taskbased_goals[old(self)@.task_goal_index(goal_id)].criteria.len() && old(self)@.taskbased_goals[old(self)@.task_goal_index(goal_id)].criteria[criteria_index as int].is_checked ==> r
                == CheckUncheckTaskbasedCriteriaCode::SuccessCriteriaAlreadyInThisState && *final(self) == *old(self),
            old(self)@.task_has_goal(goal_id) && criteria_index < old(self)@.taskbased_goals[old(self)@.task_goal_index(goal_id)].criteria.len() && !old(self)@.taskbased_goals[old(self)@.task_goal_index(goal_id)].criteria[criteria_index as int].is_checked ==> r
                == CheckUncheckTaskbasedCriteriaCode::SuccessCriteriaToggled && final(self)@ == old(self)@.with_criteria_checked(goal_id, criteria_index as int, true).with_version(
                (old(self)@.version_number + 1) as u128,
            ),
    {
        self.set_taskbased_criteria(goal_id, criteria_index, true)
    }

    /// Uncheck one criterion of a task-based goal (clear its flag).
    pub fn uncheck_taskbased_criteria(&mut self, goal_id: u128, criteria_index: usize) -> (r:
        CheckUncheckTaskbasedCriteriaCode)
        requires
            old(self)@.wf(),
            old(self)@.version_number < u128::MAX,
        ensures
            final(self)@.wf(),
            !old(self)@.goal_exists(goal_id) ==> r
                == CheckUncheckTaskbasedCriteriaCode::FailureGoalDoesntExist && *final(self)
                == *old(self),
            old(self)@.goal_exists(goal_id) && old(self)@.tb_has_goal(goal_id) ==> r
                == CheckUncheckTaskbasedCriteriaCode::FailureGoalIsTimebased && *final(self)
                == *old(self),
            old(self)@.task_has_goal(goal_id) && criteria_index >= old(self)@.taskbased_goals[old(self)@.task_goal_index(goal_id)].criteria.len() ==> r
                == CheckUncheckTaskbasedCriteriaCode::FailureCriteriaIndexOutOfBounds && *final(self) == *old(self),
            old(self)@.task_has_goal(goal_id) && criteria_index < old(self)@.taskbased_goals[old(self)@.task_goal_index(goal_id)].criteria.len() && !old(self)@.taskbased_goals[old(self)@.task_goal_index(goal_id)].criteria[criteria_index as int].is_checked ==> r
                == CheckUncheckTaskbasedCriteriaCode::SuccessCriteriaAlreadyInThisState && *final(self) == *old(self),
            old(self)@.task_has_goal(goal_id) && criteria_index < old(self)@.taskbased_goals[old(self)@.task_goal_index(goal_id)].criteria.len() && old(self)@.taskbased_goals[old(self)@.task_goal_index(goal_id)].criteria[criteria_index as int].is_checked ==> r
                == CheckUncheckTaskbasedCriteriaCode::SuccessCriteriaToggled && final(self)@ == old(self)@.with_criteria_checked(goal_id, criteria_index as int, false).with_version(
                (old(self)@.version_number + 1) as u128,
            ),
    {
        self.set_taskbased_criteria(goal_id, criteria_index, false)
    }
}

} // verus!
