//! The store's call surface as a trait, so that another backing
//! implementation (for instance a database-backed store) can satisfy the
//! same operation set under the same contracts. Each method's contract is
//! stated over the implementor's mathematical state and mirrors the one on
//! `InMemoryRepo`, the in-memory implementation; on a failure the
//! implementor's state is unchanged.

use vstd::prelude::*;
use crate::bounds::within_bounds;
use crate::codes::{
    CheckUncheckTaskbasedCriteriaCode, CreateEditGoalCode, CreateEditRecurrenceCode, GetGoalCode,
    GoalDeathCode, GoalDeleteCode,
};
use crate::goal::{
    goal_views, task_goal_views, tb_goal_views, Goal, GoalCompletionStatus, TaskbasedGoal,
    TimebasedGoal,
};
use crate::recurrence::{task_rec_views, tb_rec_views, TaskbasedRecurrence, TimebasedRecurrence};
use crate::state::{
    children_matching, expired_matching, ids_of, task_headers, task_matching, task_recs_matching,
    tb_headers, tb_matching, tb_recs_matching, RepoView,
};
use crate::store::InMemoryRepo;

verus! {

pub trait IRepo: Sized {
    /// The implementor's mathematical state.
    spec fn repo(&self) -> RepoView;

    /// The implementor's validity; every operation requires and preserves
    /// it.
    spec fn inv(&self) -> bool;

    /// The version of the current state; any successful mutation moves it
    /// to a larger value.
    fn get_state_version(&self) -> (v: u128)
        ensures
            v == self.repo().version_number,
    ;

    /// Create (`goal_id == 0`) or edit a time-based goal; see
    /// `InMemoryRepo::create_edit_timebased_goal`.
    fn create_edit_timebased_goal(&mut self, goal_dat: TimebasedGoal) -> (r: CreateEditGoalCode)
        requires
            old(self).inv(),
            old(self).repo().version_number < u128::MAX,
            goal_dat.goal.goal_id == 0 ==> old(self).repo().next_free_id < u128::MAX,
        ensures
            final(self).inv(),
            r == old(self).repo().create_edit_outcome(goal_dat@.goal, true),
            r != CreateEditGoalCode::Success ==> final(self).repo() == old(self).repo(),
            r == CreateEditGoalCode::Success && goal_dat.goal.goal_id == 0 ==> final(self).repo()
                == old(self).repo().with_created_tb_goal(goal_dat@),
            r == CreateEditGoalCode::Success && goal_dat.goal.goal_id != 0 ==> final(self).repo()
                == old(self).repo().with_edited_tb_goal(goal_dat@),
            r == CreateEditGoalCode::Success && goal_dat.goal.parent_id != 0
                && goal_dat.goal.parent_id != goal_dat.goal.goal_id ==> final(self).repo().goal_exists(goal_dat.goal.parent_id) && within_bounds(
                final(self).repo().goal_header(goal_dat.goal.parent_id).start_unix_timestamp,
                final(self).repo().goal_header(goal_dat.goal.parent_id).end_unix_timestamp,
                goal_dat.goal.start_unix_timestamp,
                goal_dat.goal.end_unix_timestamp,
            ),
    ;

    /// Create (`goal_id == 0`) or edit a task-based goal; see
    /// `InMemoryRepo::create_edit_taskbased_goal`.
    fn create_edit_taskbased_goal(&mut self, goal_dat: TaskbasedGoal) -> (r: CreateEditGoalCode)
        requires
            old(self).inv(),
            old(self).repo().version_number < u128::MAX,
            goal_dat.goal.goal_id == 0 ==> old(self).repo().next_free_id < u128::MAX,
        ensures
            final(self).inv(),
            r == old(self).repo().create_edit_outcome(goal_dat@.goal, false),
            r != CreateEditGoalCode::Success ==> final(self).repo() == old(self).repo(),
            r == CreateEditGoalCode::Success && goal_dat.goal.goal_id == 0 ==> final(self).repo()
                == old(self).repo().with_created_task_goal(goal_dat@),
            r == CreateEditGoalCode::Success && goal_dat.goal.goal_id != 0 ==> final(self).repo()
                == old(self).repo().with_edited_task_goal(goal_dat@),
            r == CreateEditGoalCode::Success && goal_dat.goal.parent_id != 0
                && goal_dat.goal.parent_id != goal_dat.goal.goal_id ==> final(self).repo().goal_exists(goal_dat.goal.parent_id) && within_bounds(
                final(self).repo().goal_header(goal_dat.goal.parent_id).start_unix_timestamp,
                final(self).repo().goal_header(goal_dat.goal.parent_id).end_unix_timestamp,
                goal_dat.goal.start_unix_timestamp,
                goal_dat.goal.end_unix_timestamp,
            ),
    ;

    /// Create (`recurrence_id == 0`) or edit a time-based recurrence; see
    /// `InMemoryRepo::create_edit_timebased_recurrence`.
    fn create_edit_timebased_recurrence(&mut self, recurrence_dat: TimebasedRecurrence) -> (r:
        CreateEditRecurrenceCode)
        requires
            old(self).inv(),
            old(self).repo().version_number < u128::MAX,
            recurrence_dat.recurrence.recurrence_id == 0 ==> old(self).repo().next_free_id
                < u128::MAX,
        ensures
            final(self).inv(),
            recurrence_dat.recurrence.recurrence_id == 0 ==> r
                == CreateEditRecurrenceCode::Success && final(self).repo() == old(self).repo().with_created_tb_rec(recurrence_dat@),
            recurrence_dat.recurrence.recurrence_id != 0 && !old(self).repo().rec_exists(
                recurrence_dat.recurrence.recurrence_id,
            ) ==> r == CreateEditRecurrenceCode::FailureEditingRecurrenceDoesntExist && final(self).repo() == old(self).repo(),
            recurrence_dat.recurrence.recurrence_id != 0 && old(self).repo().rec_exists(
                recurrence_dat.recurrence.recurrence_id,
            ) ==> r == CreateEditRecurrenceCode::Success && final(self).repo() == old(self).repo().with_edited_tb_rec(recurrence_dat@),
    ;

    /// Create (`recurrence_id == 0`) or edit a task-based recurrence; see
    /// `InMemoryRepo::create_edit_taskbased_recurrence`.
    fn create_edit_taskbased_recurrence(&mut self, recurrence_dat: TaskbasedRecurrence) -> (r:
        CreateEditRecurrenceCode)
        requires
            old(self).inv(),
            old(self).repo().version_number < u128::MAX,
            recurrence_dat.recurrence.recurrence_id == 0 ==> old(self).repo().next_free_id
                < u128::MAX,
        ensures
            final(self).inv(),
            recurrence_dat.recurrence.recurrence_id == 0 ==> r
                == CreateEditRecurrenceCode::Success && final(self).repo() == old(self).repo().with_created_task_rec(recurrence_dat@),
            recurrence_dat.recurrence.recurrence_id != 0 && !old(self).repo().rec_exists(
                recurrence_dat.recurrence.recurrence_id,
            ) ==> r == CreateEditRecurrenceCode::FailureEditingRecurrenceDoesntExist && final(self).repo() == old(self).repo(),
            recurrence_dat.recurrence.recurrence_id != 0 && old(self).repo().rec_exists(
                recurrence_dat.recurrence.recurrence_id,
            ) ==> r == CreateEditRecurrenceCode::Success && final(self).repo() == old(self).repo().with_edited_task_rec(recurrence_dat@),
    ;

    /// Mark the goal deleted (a status, not removal), gated on its
    /// incomplete immediate subgoals.
    fn delete_goal(&mut self, goal_id: u128) -> (r: GoalDeleteCode)
        requires
            old(self).inv(),
            old(self).repo().version_number < u128::MAX,
        ensures
            final(self).inv(),
            !old(self).repo().goal_exists(goal_id) ==> r == GoalDeleteCode::FailureGoalDoesntExist
                && final(self).repo() == old(self).repo(),
            old(self).repo().goal_exists(goal_id) && old(self).repo().has_incomplete_subgoal(
                goal_id,
            ) ==> r == GoalDeleteCode::FailureGoalHasSubgoals && final(self).repo() == old(self).repo(),
            old(self).repo().goal_exists(goal_id) && !old(self).repo().has_incomplete_subgoal(
                goal_id,
            ) ==> r == GoalDeleteCode::Success && final(self).repo() == old(self).repo().with_goal_status(goal_id, GoalCompletionStatus::Deleted).with_version(
                (old(self).repo().version_number + 1) as u128,
            ),
    ;

    /// Erase the recurrence with this id from storage.
    fn delete_recurrence(&mut self, recurrence_id: u128) -> (r: bool)
        requires
            old(self).inv(),
            old(self).repo().version_number < u128::MAX,
        ensures
            final(self).inv(),
            r == old(self).repo().rec_exists(recurrence_id),
            !old(self).repo().rec_exists(recurrence_id) ==> final(self).repo() == old(self).repo(),
            old(self).repo().rec_exists(recurrence_id) ==> final(self).repo() == old(self).repo().with_removed_rec(recurrence_id).with_version(
                (old(self).repo().version_number + 1) as u128,
            ),
    ;

    /// Add time to the accumulated dedicated time of a time-based goal.
    fn feed_timebased_goal(&mut self, goal_id: u128, time_to_add_ms: u128) -> (r: bool)
        requires
            old(self).inv(),
            old(self).repo().version_number < u128::MAX,
            old(self).repo().tb_has_goal(goal_id) ==> old(self).repo().timebased_goals[old(self).repo().tb_goal_index(goal_id)].criteria.dedicated_time_ms + time_to_add_ms
                <= u128::MAX,
        ensures
            final(self).inv(),
            r == old(self).repo().tb_has_goal(goal_id),
            !old(self).repo().tb_has_goal(goal_id) ==> final(self).repo() == old(self).repo(),
            old(self).repo().tb_has_goal(goal_id) ==> final(self).repo() == old(self).repo().with_dedicated_time(
                goal_id,
                (old(self).repo().timebased_goals[old(self).repo().tb_goal_index(
                    goal_id,
                )].criteria.dedicated_time_ms + time_to_add_ms) as u128,
            ).with_version((old(self).repo().version_number + 1) as u128),
    ;

    /// Uncheck one criterion of a task-based goal.
    fn uncheck_taskbased_criteria(&mut self, goal_id: u128, criteria_index: usize) -> (r:
        CheckUncheckTaskbasedCriteriaCode)
        requires
            old(self).inv(),
            old(self).repo().version_number < u128::MAX,
        ensures
            final(self).inv(),
            !old(self).repo().goal_exists(goal_id) ==> r
                == CheckUncheckTaskbasedCriteriaCode::FailureGoalDoesntExist && final(self).repo()
                == old(self).repo(),
            old(self).repo().goal_exists(goal_id) && old(self).repo().tb_has_goal(goal_id) ==> r
                == CheckUncheckTaskbasedCriteriaCode::FailureGoalIsTimebased && final(self).repo()
                == old(self).repo(),
            old(self).repo().task_has_goal(goal_id) && criteria_index >= old(self).repo().taskbased_goals[old(self).repo().task_goal_index(goal_id)].criteria.len()
                ==> r == CheckUncheckTaskbasedCriteriaCode::FailureCriteriaIndexOutOfBounds
                && final(self).repo() == old(self).repo(),
            old(self).repo().task_has_goal(goal_id) && criteria_index < old(self).repo().taskbased_goals[old(self).repo().task_goal_index(goal_id)].criteria.len()
                && !old(self).repo().taskbased_goals[old(self).repo().task_goal_index(
                goal_id,
            )].criteria[criteria_index as int].is_checked ==> r
                == CheckUncheckTaskbasedCriteriaCode::SuccessCriteriaAlreadyInThisState && final(self).repo() == old(self).repo(),
            old(self).repo().task_has_goal(goal_id) && criteria_index < old(self).repo().taskbased_goals[old(self).repo().task_goal_index(goal_id)].criteria.len()
                && old(self).repo().taskbased_goals[old(self).repo().task_goal_index(
                goal_id,
            )].criteria[criteria_index as int].is_checked ==> r
                == CheckUncheckTaskbasedCriteriaCode::SuccessCriteriaToggled && final(self).repo()
                == old(self).repo().with_criteria_checked(
                goal_id,
                criteria_index as int,
                false,
            ).with_version((old(self).repo().version_number + 1) as u128),
    ;

    /// Check one criterion of a task-based goal.
    fn check_taskbased_criteria(&mut self, goal_id: u128, criteria_index: usize) -> (r:
        CheckUncheckTaskbasedCriteriaCode)
        requires
            old(self).inv(),
            old(self).repo().version_number < u128::MAX,
        ensures
            final(self).inv(),
            !old(self).repo().goal_exists(goal_id) ==> r
                == CheckUncheckTaskbasedCriteriaCode::FailureGoalDoesntExist && final(self).repo()
                == old(self).repo(),
            old(self).repo().goal_exists(goal_id) && old(self).repo().tb_has_goal(goal_id) ==> r
                == CheckUncheckTaskbasedCriteriaCode::FailureGoalIsTimebased && final(self).repo()
                == old(self).repo(),
            old(self).repo().task_has_goal(goal_id) && criteria_index >= old(self).repo().taskbased_goals[old(self).repo().task_goal_index(goal_id)].criteria.len()
                ==> r == CheckUncheckTaskbasedCriteriaCode::FailureCriteriaIndexOutOfBounds
                && final(self).repo() == old(self).repo(),
            old(self).repo().task_has_goal(goal_id) && criteria_index < old(self).repo().taskbased_goals[old(self).repo().task_goal_index(goal_id)].criteria.len()
                && old(self).repo().taskbased_goals[old(self).repo().task_goal_index(
                goal_id,
            )].criteria[criteria_index as int].is_checked ==> r
                == CheckUncheckTaskbasedCriteriaCode::SuccessCriteriaAlreadyInThisState && final(self).repo() == old(self).repo(),
            old(self).repo().task_has_goal(goal_id) && criteria_index < old(self).repo().taskbased_goals[old(self).repo().task_goal_index(goal_id)].criteria.len()
                && !old(self).repo().taskbased_goals[old(self).repo().task_goal_index(
                goal_id,
            )].criteria[criteria_index as int].is_checked ==> r
                == CheckUncheckTaskbasedCriteriaCode::SuccessCriteriaToggled && final(self).repo()
                == old(self).repo().with_criteria_checked(
                goal_id,
                criteria_index as int,
                true,
            ).with_version((old(self).repo().version_number + 1) as u128),
    ;

    /// Resolve the goal as succeeded, gated on its incomplete immediate
    /// subgoals.
    fn succeed_goal(&mut self, goal_id: u128) -> (r: GoalDeathCode)
        requires
            old(self).inv(),
            old(self).repo().version_number < u128::MAX,
        ensures
            final(self).inv(),
            !old(self).repo().goal_exists(goal_id) ==> r == GoalDeathCode::FailureGoalDoesntExist
                && final(self).repo() == old(self).repo(),
            old(self).repo().goal_exists(goal_id) && old(self).repo().has_incomplete_subgoal(
                goal_id,
            ) ==> r == GoalDeathCode::FailureSubgoalsNotAllDead && final(self).repo() == old(self).repo(),
            old(self).repo().goal_exists(goal_id) && !old(self).repo().has_incomplete_subgoal(
                goal_id,
            ) ==> r == GoalDeathCode::Success && final(self).repo() == old(self).repo().with_goal_status(goal_id, GoalCompletionStatus::Succeeded).with_version(
                (old(self).repo().version_number + 1) as u128,
            ),
    ;

    /// Resolve the goal as failed, under the same gating as `succeed_goal`.
    fn fail_goal(&mut self, goal_id: u128) -> (r: GoalDeathCode)
        requires
            old(self).inv(),
            old(self).repo().version_number < u128::MAX,
        ensures
            final(self).inv(),
            !old(self).repo().goal_exists(goal_id) ==> r == GoalDeathCode::FailureGoalDoesntExist
                && final(self).repo() == old(self).repo(),
            old(self).repo().goal_exists(goal_id) && old(self).repo().has_incomplete_subgoal(
                goal_id,
            ) ==> r == GoalDeathCode::FailureSubgoalsNotAllDead && final(self).repo() == old(self).repo(),
            old(self).repo().goal_exists(goal_id) && !old(self).repo().has_incomplete_subgoal(
                goal_id,
            ) ==> r == GoalDeathCode::Success && final(self).repo() == old(self).repo().with_goal_status(goal_id, GoalCompletionStatus::Failed).with_version(
                (old(self).repo().version_number + 1) as u128,
            ),
    ;

    /// The ids of every stored goal that is still incomplete and whose end
    /// lies strictly before the given time.
    fn get_expired_goal_ids(&self, cur_time_unix_timestamp: u128) -> (r: Vec<u128>)
        ensures
            r@ == ids_of(
                expired_matching(
                    task_headers(self.repo().taskbased_goals),
                    cur_time_unix_timestamp,
                ),
            ) + ids_of(
                expired_matching(
                    tb_headers(self.repo().timebased_goals),
                    cur_time_unix_timestamp,
                ),
            ),
    ;

    /// Fetch a copy of the time-based goal with this id, or say why not.
    fn get_timebased_goal_by_id(&self, goal_id: u128) -> (r: (GetGoalCode, Option<TimebasedGoal>))
        requires
            self.inv(),
        ensures
            !self.repo().goal_exists(goal_id) ==> r.0 == GetGoalCode::FailureGoalDoesntExist
                && r.1 is None,
            self.repo().goal_exists(goal_id) && !self.repo().tb_has_goal(goal_id) ==> r.0
                == GetGoalCode::FailureGoalIncorrectType && r.1 is None,
            self.repo().tb_has_goal(goal_id) ==> r.0 == GetGoalCode::Success && (r.1 matches Some(
                g,
            ) && g@ == self.repo().timebased_goals[self.repo().tb_goal_index(goal_id)]),
    ;

    /// Fetch a copy of the task-based goal with this id, or say why not.
    fn get_taskbased_goal_by_id(&self, goal_id: u128) -> (r: (GetGoalCode, Option<TaskbasedGoal>))
        requires
            self.inv(),
        ensures
            !self.repo().goal_exists(goal_id) ==> r.0 == GetGoalCode::FailureGoalDoesntExist
                && r.1 is None,
            self.repo().goal_exists(goal_id) && self.repo().tb_has_goal(goal_id) ==> r.0
                == GetGoalCode::FailureGoalIncorrectType && r.1 is None,
            self.repo().task_has_goal(goal_id) ==> r.0 == GetGoalCode::Success && (r.1 matches Some(
                g,
            ) && g@ == self.repo().taskbased_goals[self.repo().task_goal_index(goal_id)]),
    ;

    /// Fetch a copy of the header of the goal with this id.
    fn get_goal_by_id(&self, goal_id: u128) -> (r: (GetGoalCode, Option<Goal>))
        requires
            self.inv(),
        ensures
            !self.repo().goal_exists(goal_id) ==> r.0 == GetGoalCode::FailureGoalDoesntExist
                && r.1 is None,
            self.repo().goal_exists(goal_id) ==> r.0 == GetGoalCode::Success && (r.1 matches Some(
                g,
            ) && g@ == self.repo().goal_header(goal_id)),
    ;

    /// The time-based goals passing an interval-and-status query, in stored
    /// order.
    fn get_timebased_goals(
        &self,
        start_unix_timestamp: u128,
        end_unix_timestamp: u128,
        filter: &[GoalCompletionStatus],
    ) -> (r: Vec<TimebasedGoal>)
        ensures
            tb_goal_views(r@) == tb_matching(
                self.repo().timebased_goals,
                start_unix_timestamp,
                end_unix_timestamp,
                filter@,
            ),
    ;

    /// The task-based goals passing an interval-and-status query, in stored
    /// order.
    fn get_taskbased_goals(
        &self,
        start_unix_timestamp: u128,
        end_unix_timestamp: u128,
        filter: &[GoalCompletionStatus],
    ) -> (r: Vec<TaskbasedGoal>)
        ensures
            task_goal_views(r@) == task_matching(
                self.repo().taskbased_goals,
                start_unix_timestamp,
                end_unix_timestamp,
                filter@,
            ),
    ;

    /// The headers of all goals passing the query: matching task-based
    /// goals first, then matching time-based ones.
    fn get_goals(
        &self,
        start_unix_timestamp: u128,
        end_unix_timestamp: u128,
        filter: &[GoalCompletionStatus],
    ) -> (r: Vec<Goal>)
        ensures
            goal_views(r@) == task_headers(
                task_matching(
                    self.repo().taskbased_goals,
                    start_unix_timestamp,
                    end_unix_timestamp,
                    filter@,
                ),
            ) + tb_headers(
                tb_matching(
                    self.repo().timebased_goals,
                    start_unix_timestamp,
                    end_unix_timestamp,
                    filter@,
                ),
            ),
    ;

    /// The time-based recurrences whose own bound passes the interval
    /// query, in stored order.
    fn get_timebased_recurrences(&self, start_unix_timestamp: u128, end_unix_timestamp: u128) -> (r:
        Vec<TimebasedRecurrence>)
        ensures
            tb_rec_views(r@) == tb_recs_matching(
                self.repo().timebased_recurrences,
                start_unix_timestamp,
                end_unix_timestamp,
            ),
    ;

    /// The task-based recurrences whose own bound passes the interval
    /// query, in stored order.
    fn get_taskbased_recurrences(&self, start_unix_timestamp: u128, end_unix_timestamp: u128) -> (r:
        Vec<TaskbasedRecurrence>)
        ensures
            task_rec_views(r@) == task_recs_matching(
                self.repo().taskbased_recurrences,
                start_unix_timestamp,
                end_unix_timestamp,
            ),
    ;

    /// Is the goal with this id stored in the time-based collection?
    fn is_timebased_goal(&self, goal_id: u128) -> (r: bool)
        ensures
            r == self.repo().tb_has_goal(goal_id),
    ;

    /// Is the recurrence with this id stored in the time-based collection?
    fn is_timebased_recurrence(&self, rec_id: u128) -> (r: bool)
        ensures
            r == self.repo().tb_has_rec(rec_id),
    ;

    /// Materialize goals from the recurrence's template up to the first
    /// start beyond `cur_time`; see
    /// `InMemoryRepo::generate_goals_from_recurrence`.
    fn generate_goals_from_recurrence(&mut self, rec_id: u128, cur_time: u128) -> (r: bool)
        requires
            old(self).inv(),
            old(self).repo().version_number < u128::MAX,
            old(self).repo().rec_exists(rec_id) ==> RepoView::spawn_fits(
                old(self).repo().rec_of(rec_id),
                old(self).repo().next_free_id,
                cur_time,
            ),
        ensures
            final(self).inv(),
            r == old(self).repo().rec_exists(rec_id),
            !old(self).repo().rec_exists(rec_id) ==> final(self).repo() == old(self).repo(),
            old(self).repo().tb_has_rec(rec_id) ==> final(self).repo() == old(self).repo().with_spawned_tb(rec_id, cur_time),
            old(self).repo().task_has_rec(rec_id) && !old(self).repo().tb_has_rec(rec_id) ==> final(self).repo() == old(self).repo().with_spawned_task(rec_id, cur_time),
            old(self).repo().rec_exists(rec_id) ==> final(self).repo().rec_exists(rec_id) && final(self).repo().rec_of(rec_id).latest_spawned_start_time_ms >= old(self).repo().rec_of(
                rec_id,
            ).latest_spawned_start_time_ms,
    ;

    /// Depth-exactly-one children of `goal_id` whose status the filter
    /// admits: time-based children first, then task-based ones.
    fn get_immediate_subgoals(&self, goal_id: u128, filter: &[GoalCompletionStatus]) -> (r: Vec<
        Goal,
    >)
        ensures
            goal_views(r@) == children_matching(
                tb_headers(self.repo().timebased_goals),
                goal_id,
                filter@,
            ) + children_matching(task_headers(self.repo().taskbased_goals), goal_id, filter@),
    ;

    /// Does any stored goal carry this id?
    fn does_goal_exist(&self, goal_id: u128) -> (r: bool)
        ensures
            r == self.repo().goal_exists(goal_id),
    ;

    /// Does any stored recurrence carry this id?
    fn does_recurrence_exist(&self, rec_id: u128) -> (r: bool)
        ensures
            r == self.repo().rec_exists(rec_id),
    ;

    /// The number of depth-exactly-one children of `goal_id` whose status
    /// the filter admits.
    fn get_num_immediate_subgoals(&self, goal_id: u128, filter: &[GoalCompletionStatus]) -> (r:
        usize)
        ensures
            r == children_matching(tb_headers(self.repo().timebased_goals), goal_id, filter@).len()
                + children_matching(
                task_headers(self.repo().taskbased_goals),
                goal_id,
                filter@,
            ).len(),
    ;
}

impl IRepo for InMemoryRepo {
    open spec fn repo(&self) -> RepoView {
        self@
    }

    open spec fn inv(&self) -> bool {
        self@.wf()
    }

    fn get_state_version(&self) -> (v: u128) {
        InMemoryRepo::get_state_version(self)
    }

    fn create_edit_timebased_goal(&mut self, goal_dat: TimebasedGoal) -> (r: CreateEditGoalCode) {
        InMemoryRepo::create_edit_timebased_goal(self, goal_dat)
    }

    fn create_edit_taskbased_goal(&mut self, goal_dat: TaskbasedGoal) -> (r: CreateEditGoalCode) {
        InMemoryRepo::create_edit_taskbased_goal(self, goal_dat)
    }

    fn create_edit_timebased_recurrence(&mut self, recurrence_dat: TimebasedRecurrence) -> (r:
        CreateEditRecurrenceCode) {
        InMemoryRepo::create_edit_timebased_recurrence(self, recurrence_dat)
    }

    fn create_edit_taskbased_recurrence(&mut self, recurrence_dat: TaskbasedRecurrence) -> (r:
        CreateEditRecurrenceCode) {
        InMemoryRepo::create_edit_taskbased_recurrence(self, recurrence_dat)
    }

    fn delete_goal(&mut self, goal_id: u128) -> (r: GoalDeleteCode) {
        InMemoryRepo::delete_goal(self, goal_id)
    }

    fn delete_recurrence(&mut self, recurrence_id: u128) -> (r: bool) {
        InMemoryRepo::delete_recurrence(self, recurrence_id)
    }

    fn feed_timebased_goal(&mut self, goal_id: u128, time_to_add_ms: u128) -> (r: bool) {
        InMemoryRepo::feed_timebased_goal(self, goal_id, time_to_add_ms)
    }

    fn uncheck_taskbased_criteria(&mut self, goal_id: u128, criteria_index: usize) -> (r:
        CheckUncheckTaskbasedCriteriaCode) {
        InMemoryRepo::uncheck_taskbased_criteria(self, goal_id, criteria_index)
    }

    fn check_taskbased_criteria(&mut self, goal_id: u128, criteria_index: usize) -> (r:
        CheckUncheckTaskbasedCriteriaCode) {
        InMemoryRepo::check_taskbased_criteria(self, goal_id, criteria_index)
    }

    fn succeed_goal(&mut self, goal_id: u128) -> (r: GoalDeathCode) {
        InMemoryRepo::succeed_goal(self, goal_id)
    }

    fn fail_goal(&mut self, goal_id: u128) -> (r: GoalDeathCode) {
        InMemoryRepo::fail_goal(self, goal_id)
    }

    fn get_expired_goal_ids(&self, cur_time_unix_timestamp: u128) -> (r: Vec<u128>) {
        InMemoryRepo::get_expired_goal_ids(self, cur_time_unix_timestamp)
    }

    fn get_timebased_goal_by_id(&self, goal_id: u128) -> (r: (GetGoalCode, Option<TimebasedGoal>)) {
        InMemoryRepo::get_timebased_goal_by_id(self, goal_id)
    }

    fn get_taskbased_goal_by_id(&self, goal_id: u128) -> (r: (GetGoalCode, Option<TaskbasedGoal>)) {
        InMemoryRepo::get_taskbased_goal_by_id(self, goal_id)
    }

    fn get_goal_by_id(&self, goal_id: u128) -> (r: (GetGoalCode, Option<Goal>)) {
        InMemoryRepo::get_goal_by_id(self, goal_id)
    }

    fn get_timebased_goals(
        &self,
        start_unix_timestamp: u128,
        end_unix_timestamp: u128,
        filter: &[GoalCompletionStatus],
    ) -> (r: Vec<TimebasedGoal>) {
        InMemoryRepo::get_timebased_goals(self, start_unix_timestamp, end_unix_timestamp, filter)
    }

    fn get_taskbased_goals(
        &self,
        start_unix_timestamp: u128,
        end_unix_timestamp: u128,
        filter: &[GoalCompletionStatus],
    ) -> (r: Vec<TaskbasedGoal>) {
        InMemoryRepo::get_taskbased_goals(self, start_unix_timestamp, end_unix_timestamp, filter)
    }

    fn get_goals(
        &self,
        start_unix_timestamp: u128,
        end_unix_timestamp: u128,
        filter: &[GoalCompletionStatus],
    ) -> (r: Vec<Goal>) {
        InMemoryRepo::get_goals(self, start_unix_timestamp, end_unix_timestamp, filter)
    }

    fn get_timebased_recurrences(&self, start_unix_timestamp: u128, end_unix_timestamp: u128) -> (r:
        Vec<TimebasedRecurrence>) {
        InMemoryRepo::get_timebased_recurrences(self, start_unix_timestamp, end_unix_timestamp)
    }

    fn get_taskbased_recurrences(&self, start_unix_timestamp: u128, end_unix_timestamp: u128) -> (r:
        Vec<TaskbasedRecurrence>) {
        InMemoryRepo::get_taskbased_recurrences(self, start_unix_timestamp, end_unix_timestamp)
    }

    fn is_timebased_goal(&self, goal_id: u128) -> (r: bool) {
        InMemoryRepo::is_timebased_goal(self, goal_id)
    }

    fn is_timebased_recurrence(&self, rec_id: u128) -> (r: bool) {
        InMemoryRepo::is_timebased_recurrence(self, rec_id)
    }

    fn generate_goals_from_recurrence(&mut self, rec_id: u128, cur_time: u128) -> (r: bool) {
        InMemoryRepo::generate_goals_from_recurrence(self, rec_id, cur_time)
    }

    fn get_immediate_subgoals(&self, goal_id: u128, filter: &[GoalCompletionStatus]) -> (r: Vec<
        Goal,
    >) {
        InMemoryRepo::get_immediate_subgoals(self, goal_id, filter)
    }

    fn does_goal_exist(&self, goal_id: u128) -> (r: bool) {
        InMemoryRepo::does_goal_exist(self, goal_id)
    }

    fn does_recurrence_exist(&self, rec_id: u128) -> (r: bool) {
        InMemoryRepo::does_recurrence_exist(self, rec_id)
    }

    fn get_num_immediate_subgoals(&self, goal_id: u128, filter: &[GoalCompletionStatus]) -> (r:
        usize) {
        InMemoryRepo::get_num_immediate_subgoals(self, goal_id, filter)
    }
}

} // verus!
