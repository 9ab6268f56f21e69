//! Read-only projections over the store: by-id lookups, interval-and-status
//! filtered listings, subgoal and expiry queries. No query mutates the
//! store; each contract states the returned views exactly, in stored order.

use vstd::prelude::*;
use crate::codes::GetGoalCode;
use crate::goal::{
    clone_goal, clone_taskbased_goal, clone_timebased_goal, goal_views, task_goal_views,
    tb_goal_views, Goal, GoalCompletionStatus, TaskbasedGoal, TimebasedGoal,
};
use crate::recurrence::{
    clone_taskbased_recurrence, clone_timebased_recurrence, task_rec_views, tb_rec_views,
    TaskbasedRecurrence, TimebasedRecurrence,
};
use crate::seq_extra::lemma_filter_take_step;
use crate::seq_extra::lemma_take_push;
use crate::state::{
    child_pass, children_matching, expired_matching, expired_pass, goal_passes, ids_of,
    is_incomplete_child, subgoal_passes, task_headers, task_matching, task_pass, task_rec_pass,
    task_recs_matching, tb_headers, tb_matching, tb_pass, tb_rec_pass, tb_recs_matching,
};
use crate::store::InMemoryRepo;

verus! {

/// Does the slice contain this status?
fn status_in(filter: &[GoalCompletionStatus], status: GoalCompletionStatus) -> (r: bool)
    ensures
        r == filter@.contains(status),
{
    let n = filter.len();
    let mut i: usize = 0;
    while i < n
        invariant
            i <= n,
            n == filter@.len(),
            forall|j: int| 0 <= j < i ==> filter@[j] != status,
        decreases n - i,
    {
        if filter[i] == status {
            assert(filter@[i as int] == status);
            return true;
        }
        i = i + 1;
    }
    false
}

/// Decide `goal_passes` for one stored header.
fn header_passes(
    g: &Goal,
    start_unix_timestamp: u128,
    end_unix_timestamp: u128,
    filter: &[GoalCompletionStatus],
) -> (r: bool)
    ensures
        r == goal_passes(g@, start_unix_timestamp, end_unix_timestamp, filter@),
{
    let interval_ok = (start_unix_timestamp == 0 && end_unix_timestamp == 0)
        || crate::bounds::do_bounds_intersect(
        g.start_unix_timestamp,
        g.end_unix_timestamp,
        start_unix_timestamp,
        end_unix_timestamp,
    );
    let status_ok = filter.len() == 0 || status_in(filter, g.completion_status);
    interval_ok && status_ok
}

impl InMemoryRepo {
    /// The time-based goals whose status the filter admits (an empty filter
    /// admits all) and whose bound intersects the interval (`(0, 0)` means
    /// unbounded), in stored order.
    pub fn get_timebased_goals(
        &self,
        start_unix_timestamp: u128,
        end_unix_timestamp: u128,
        filter: &[GoalCompletionStatus],
    ) -> (r: Vec<TimebasedGoal>)
        ensures
            tb_goal_views(r@) == tb_matching(
                self@.timebased_goals,
                start_unix_timestamp,
                end_unix_timestamp,
                filter@,
            ),
    {
        let ghost s = self@.timebased_goals;
        let mut goals: Vec<TimebasedGoal> = Vec::new();
        let n = self.timebased_goals.len();
        let mut i: usize = 0;
        while i < n
            invariant
                i <= n,
                n == s.len(),
                s == self@.timebased_goals,
                tb_goal_views(goals@) == tb_matching(
                    s.take(i as int),
                    start_unix_timestamp,
                    end_unix_timestamp,
                    filter@,
                ),
            decreases n - i,
        {
            proof {
                lemma_filter_take_step(
                    s,
                    tb_pass(start_unix_timestamp, end_unix_timestamp, filter@),
                    i as int,
                );
            }
            let g = &self.timebased_goals[i];
            if header_passes(&g.goal, start_unix_timestamp, end_unix_timestamp, filter) {
                goals.push(clone_timebased_goal(g));
                proof {
                    assert(tb_goal_views(goals@) =~= tb_matching(
                        s.take(i + 1),
                        start_unix_timestamp,
                        end_unix_timestamp,
                        filter@,
                    ));
                }
            }
            i = i + 1;
        }
        proof {
            assert(s.take(n as int) =~= s);
        }
        goals
    }

    /// The task-based goals passing the same interval-and-status query, in
    /// stored order.
    pub fn get_taskbased_goals(
        &self,
        start_unix_timestamp: u128,
        end_unix_timestamp: u128,
        filter: &[GoalCompletionStatus],
    ) -> (r: Vec<TaskbasedGoal>)
        ensures
            task_goal_views(r@) == task_matching(
                self@.taskbased_goals,
                start_unix_timestamp,
                end_unix_timestamp,
                filter@,
            ),
    {
        let ghost s = self@.taskbased_goals;
        let mut goals: Vec<TaskbasedGoal> = Vec::new();
        let n = self.taskbased_goals.len();
        let mut i: usize = 0;
        while i < n
            invariant
                i <= n,
                n == s.len(),
                s == self@.taskbased_goals,
                task_goal_views(goals@) == task_matching(
                    s.take(i as int),
                    start_unix_timestamp,
                    end_unix_timestamp,
                    filter@,
                ),
            decreases n - i,
        {
            proof {
                lemma_filter_take_step(
                    s,
                    task_pass(start_unix_timestamp, end_unix_timestamp, filter@),
                    i as int,
                );
            }
            let g = &self.taskbased_goals[i];
            if header_passes(&g.goal, start_unix_timestamp, end_unix_timestamp, filter) {
                goals.push(clone_taskbased_goal(g));
                proof {
                    assert(task_goal_views(goals@) =~= task_matching(
                        s.take(i + 1),
                        start_unix_timestamp,
                        end_unix_timestamp,
                        filter@,
                    ));
                }
            }
            i = i + 1;
        }
        proof {
            assert(s.take(n as int) =~= s);
        }
        goals
    }

    /// The headers of all goals passing the query: the matching task-based
    /// goals first, then the matching time-based ones, each in stored order.
    pub fn get_goals(
        &self,
        start_unix_timestamp: u128,
        end_unix_timestamp: u128,
        filter: &[GoalCompletionStatus],
    ) -> (r: Vec<Goal>)
        ensures
            goal_views(r@) == task_headers(
                task_matching(
                    self@.taskbased_goals,
                    start_unix_timestamp,
                    end_unix_timestamp,
                    filter@,
                ),
            ) + tb_headers(
                tb_matching(
                    self@.timebased_goals,
                    start_unix_timestamp,
                    end_unix_timestamp,
                    filter@,
                ),
            ),
    {
        let task_goals = self.get_taskbased_goals(
            start_unix_timestamp,
            end_unix_timestamp,
            filter,
        );
        let tb_goals = self.get_timebased_goals(start_unix_timestamp, end_unix_timestamp, filter);
        let ghost task_hs = task_headers(
            task_matching(self@.taskbased_goals, start_unix_timestamp, end_unix_timestamp, filter@),
        );
        let ghost tb_hs = tb_headers(
            tb_matching(self@.timebased_goals, start_unix_timestamp, end_unix_timestamp, filter@),
        );
        let mut goals: Vec<Goal> = Vec::new();
        let n = task_goals.len();
        let mut i: usize = 0;
        proof {
            assert(task_hs.len() == task_goals@.len());
        }
        while i < n
            invariant
                i <= n,
                n == task_goals@.len(),
                n == task_hs.len(),
                task_hs == task_headers(task_goal_views(task_goals@)),
                goal_views(goals@) == task_hs.take(i as int),
            decreases n - i,
        {
            goals.push(clone_goal(&task_goals[i].goal));
            proof {
                lemma_take_push(task_hs, i as int);
                assert(goal_views(goals@) =~= task_hs.take(i + 1));
            }
            i = i + 1;
        }
        proof {
            assert(task_hs.take(n as int) =~= task_hs);
        }
        let m = tb_goals.len();
        let mut j: usize = 0;
        proof {
            assert(tb_hs.len() == tb_goals@.len());
        }
        while j < m
            invariant
                j <= m,
                m == tb_goals@.len(),
                m == tb_hs.len(),
                tb_hs == tb_headers(tb_goal_views(tb_goals@)),
                goal_views(goals@) == task_hs + tb_hs.take(j as int),
            decreases m - j,
        {
            let cg = clone_goal(&tb_goals[j].goal);
            proof {
                assert(cg@ == tb_hs[j as int]);
            }
            let ghost pre = goals@;
            goals.push(cg);
            proof {
                lemma_take_push(tb_hs, j as int);
                assert(goal_views(pre.push(cg)) =~= goal_views(pre).push(cg@));
                crate::seq_extra::lemma_add_push(task_hs, tb_hs.take(j as int), tb_hs[j as int]);
            }
            j = j + 1;
        }
        proof {
            assert(tb_hs.take(m as int) =~= tb_hs);
            assert(goal_views(goals@) == task_hs + tb_hs);
        }
        goals
    }

    /// The time-based recurrences whose own bound passes the interval query
    /// (`(0, 0)` means unbounded), in stored order.
    pub fn get_timebased_recurrences(
        &self,
        start_unix_timestamp: u128,
        end_unix_timestamp: u128,
    ) -> (r: Vec<TimebasedRecurrence>)
        ensures
            tb_rec_views(r@) == tb_recs_matching(
                self@.timebased_recurrences,
                start_unix_timestamp,
                end_unix_timestamp,
            ),
    {
        let ghost s = self@.timebased_recurrences;
        let mut recs: Vec<TimebasedRecurrence> = Vec::new();
        let n = self.timebased_recurrences.len();
        let mut i: usize = 0;
        while i < n
            invariant
                i <= n,
                n == s.len(),
                s == self@.timebased_recurrences,
                tb_rec_views(recs@) == tb_recs_matching(
                    s.take(i as int),
                    start_unix_timestamp,
                    end_unix_timestamp,
                ),
            decreases n - i,
        {
            proof {
                lemma_filter_take_step(
                    s,
                    tb_rec_pass(start_unix_timestamp, end_unix_timestamp),
                    i as int,
                );
            }
            let rec = &self.timebased_recurrences[i];
            if (start_unix_timestamp == 0 && end_unix_timestamp == 0)
                || crate::bounds::do_bounds_intersect(
                rec.recurrence.start_unix_timestamp,
                rec.recurrence.end_unix_timestamp,
                start_unix_timestamp,
                end_unix_timestamp,
            ) {
                recs.push(clone_timebased_recurrence(rec));
                proof {
                    assert(tb_rec_views(recs@) =~= tb_recs_matching(
                        s.take(i + 1),
                        start_unix_timestamp,
                        end_unix_timestamp,
                    ));
                }
            }
            i = i + 1;
        }
        proof {
            assert(s.take(n as int) =~= s);
        }
        recs
    }

    /// The task-based recurrences whose own bound passes the interval
    /// query, in stored order.
    pub fn get_taskbased_recurrences(
        &self,
        start_unix_timestamp: u128,
        end_unix_timestamp: u128,
    ) -> (r: Vec<TaskbasedRecurrence>)
        ensures
            task_rec_views(r@) == task_recs_matching(
                self@.taskbased_recurrences,
                start_unix_timestamp,
                end_unix_timestamp,
            ),
    {
        let ghost s = self@.taskbased_recurrences;
        let mut recs: Vec<TaskbasedRecurrence> = Vec::new();
        let n = self.taskbased_recurrences.len();
        let mut i: usize = 0;
        while i < n
            invariant
                i <= n,
                n == s.len(),
                s == self@.taskbased_recurrences,
                task_rec_views(recs@) == task_recs_matching(
                    s.take(i as int),
                    start_unix_timestamp,
                    end_unix_timestamp,
                ),
            decreases n - i,
        {
            proof {
                lemma_filter_take_step(
                    s,
                    task_rec_pass(start_unix_timestamp, end_unix_timestamp),
                    i as int,
                );
            }
            let rec = &self.taskbased_recurrences[i];
            if (start_unix_timestamp == 0 && end_unix_timestamp == 0)
                || crate::bounds::do_bounds_intersect(
                rec.recurrence.start_unix_timestamp,
                rec.recurrence.end_unix_timestamp,
                start_unix_timestamp,
                end_unix_timestamp,
            ) {
                recs.push(clone_taskbased_recurrence(rec));
                proof {
                    assert(task_rec_views(recs@) =~= task_recs_matching(
                        s.take(i + 1),
                        start_unix_timestamp,
                        end_unix_timestamp,
                    ));
                }
            }
            i = i + 1;
        }
        proof {
            assert(s.take(n as int) =~= s);
        }
        recs
    }

    /// Depth-exactly-one children of `goal_id` whose status the filter
    /// admits (an empty filter admits all): the time-based children first,
    /// then the task-based ones, each in stored order.
    pub fn get_immediate_subgoals(&self, goal_id: u128, filter: &[GoalCompletionStatus]) -> (r:
        Vec<Goal>)
        ensures
            goal_views(r@) == children_matching(
                tb_headers(self@.timebased_goals),
                goal_id,
                filter@,
            ) + children_matching(task_headers(self@.taskbased_goals), goal_id, filter@),
    {
        let ghost tb_hs = tb_headers(self@.timebased_goals);
        let ghost task_hs = task_headers(self@.taskbased_goals);
        let mut goals: Vec<Goal> = Vec::new();
        let n = self.timebased_goals.len();
        let mut i: usize = 0;
        while i < n
            invariant
                i <= n,
                n == tb_hs.len(),
                tb_hs == tb_headers(self@.timebased_goals),
                goal_views(goals@) == children_matching(tb_hs.take(i as int), goal_id, filter@),
            decreases n - i,
        {
            proof {
                lemma_filter_take_step(tb_hs, child_pass(goal_id, filter@), i as int);
            }
            let g = &self.timebased_goals[i].goal;
            if g.parent_id == goal_id && (filter.len() == 0 || status_in(
                filter,
                g.completion_status,
            )) {
                goals.push(clone_goal(g));
                proof {
                    assert(goal_views(goals@) =~= children_matching(
                        tb_hs.take(i + 1),
                        goal_id,
                        filter@,
                    ));
                }
            }
            i = i + 1;
        }
        proof {
            assert(tb_hs.take(n as int) =~= tb_hs);
        }
        let m = self.taskbased_goals.len();
        let mut j: usize = 0;
        while j < m
            invariant
                j <= m,
                m == task_hs.len(),
                task_hs == task_headers(self@.taskbased_goals),
                tb_hs == tb_headers(self@.timebased_goals),
                goal_views(goals@) == children_matching(tb_hs, goal_id, filter@)
                    + children_matching(task_hs.take(j as int), goal_id, filter@),
            decreases m - j,
        {
            proof {
                lemma_filter_take_step(task_hs, child_pass(goal_id, filter@), j as int);
            }
            let g = &self.taskbased_goals[j].goal;
            if g.parent_id == goal_id && (filter.len() == 0 || status_in(
                filter,
                g.completion_status,
            )) {
                let cg = clone_goal(g);
                proof {
                    assert(cg@ == task_hs[j as int]);
                }
                let ghost pre = goals@;
                goals.push(cg);
                proof {
                    assert(goal_views(pre.push(cg)) =~= goal_views(pre).push(cg@));
                    crate::seq_extra::lemma_add_push(
                        children_matching(tb_hs, goal_id, filter@),
                        children_matching(task_hs.take(j as int), goal_id, filter@),
                        task_hs[j as int],
                    );
                }
            }
            j = j + 1;
        }
        proof {
            assert(task_hs.take(m as int) =~= task_hs);
        }
        goals
    }

    /// The number of depth-exactly-one children of `goal_id` whose status
    /// the filter admits.
    pub fn get_num_immediate_subgoals(&self, goal_id: u128, filter: &[GoalCompletionStatus]) -> (r:
        usize)
        ensures
            r == children_matching(tb_headers(self@.timebased_goals), goal_id, filter@).len()
                + children_matching(task_headers(self@.taskbased_goals), goal_id, filter@).len(),
    {
        let subgoals = self.get_immediate_subgoals(goal_id, filter);
        proof {
            assert(goal_views(subgoals@).len() == subgoals@.len());
        }
        subgoals.len()
    }

    /// The ids of every stored goal that is still incomplete and whose end
    /// lies strictly before `cur_time_unix_timestamp`: task-based goals
    /// first, then time-based ones, each in stored order.
    pub fn get_expired_goal_ids(&self, cur_time_unix_timestamp: u128) -> (r: Vec<u128>)
        ensures
            r@ == ids_of(
                expired_matching(task_headers(self@.taskbased_goals), cur_time_unix_timestamp),
            ) + ids_of(
                expired_matching(tb_headers(self@.timebased_goals), cur_time_unix_timestamp),
            ),
    {
        let ghost task_hs = task_headers(self@.taskbased_goals);
        let ghost tb_hs = tb_headers(self@.timebased_goals);
        let mut ids: Vec<u128> = Vec::new();
        let n = self.taskbased_goals.len();
        let mut i: usize = 0;
        while i < n
            invariant
                i <= n,
                n == task_hs.len(),
                task_hs == task_headers(self@.taskbased_goals),
                ids@ == ids_of(expired_matching(task_hs.take(i as int), cur_time_unix_timestamp)),
            decreases n - i,
        {
            proof {
                lemma_filter_take_step(task_hs, expired_pass(cur_time_unix_timestamp), i as int);
            }
            let g = &self.taskbased_goals[i].goal;
            if g.completion_status == GoalCompletionStatus::Incomplete && g.end_unix_timestamp
                < cur_time_unix_timestamp {
                ids.push(g.goal_id);
                proof {
                    assert(ids@ =~= ids_of(
                        expired_matching(task_hs.take(i + 1), cur_time_unix_timestamp),
                    ));
                }
            }
            i = i + 1;
        }
        proof {
            assert(task_hs.take(n as int) =~= task_hs);
        }
        let m = self.timebased_goals.len();
        let mut j: usize = 0;
        while j < m
            invariant
                j <= m,
                m == tb_hs.len(),
                tb_hs == tb_headers(self@.timebased_goals),
                task_hs == task_headers(self@.taskbased_goals),
                ids@ == ids_of(expired_matching(task_hs, cur_time_unix_timestamp)) + ids_of(
                    expired_matching(tb_hs.take(j as int), cur_time_unix_timestamp),
                ),
            decreases m - j,
        {
            proof {
                lemma_filter_take_step(tb_hs, expired_pass(cur_time_unix_timestamp), j as int);
            }
            let g = &self.timebased_goals[j].goal;
            if g.completion_status == GoalCompletionStatus::Incomplete && g.end_unix_timestamp
                < cur_time_unix_timestamp {
                ids.push(g.goal_id);
                proof {
                    assert(ids@ =~= ids_of(expired_matching(task_hs, cur_time_unix_timestamp))
                        + ids_of(expired_matching(tb_hs.take(j + 1), cur_time_unix_timestamp)));
                }
            }
            j = j + 1;
        }
        proof {
            assert(tb_hs.take(m as int) =~= tb_hs);
        }
        ids
    }

    /// Fetch a copy of the time-based goal with this id, or say why not.
    pub fn get_timebased_goal_by_id(&self, goal_id: u128) -> (r: (GetGoalCode, Option<
        TimebasedGoal,
    >))
        requires
            self@.wf(),
        ensures
            !self@.goal_exists(goal_id) ==> r.0 == GetGoalCode::FailureGoalDoesntExist
                && r.1 is None,
            self@.goal_exists(goal_id) && !self@.tb_has_goal(goal_id) ==> r.0
                == GetGoalCode::FailureGoalIncorrectType && r.1 is None,
            self@.tb_has_goal(goal_id) ==> r.0 == GetGoalCode::Success && (r.1 matches Some(g)
                && g@ == self@.timebased_goals[self@.tb_goal_index(goal_id)]),
    {
        if !self.does_goal_exist(goal_id) {
            return (GetGoalCode::FailureGoalDoesntExist, None);
        }
        let (found, idx) = self.index_of_timebased_goal(goal_id);
        if !found {
            return (GetGoalCode::FailureGoalIncorrectType, None);
        }
        proof {
            self@.lemma_tb_index_unique(goal_id, idx as int);
        }
        (GetGoalCode::Success, Some(clone_timebased_goal(&self.timebased_goals[idx])))
    }

    /// Fetch a copy of the task-based goal with this id, or say why not.
    pub fn get_taskbased_goal_by_id(&self, goal_id: u128) -> (r: (GetGoalCode, Option<
        TaskbasedGoal,
    >))
        requires
            self@.wf(),
        ensures
            !self@.goal_exists(goal_id) ==> r.0 == GetGoalCode::FailureGoalDoesntExist
                && r.1 is None,
            self@.goal_exists(goal_id) && self@.tb_has_goal(goal_id) ==> r.0
                == GetGoalCode::FailureGoalIncorrectType && r.1 is None,
            self@.task_has_goal(goal_id) ==> r.0 == GetGoalCode::Success && (r.1 matches Some(g)
                && g@ == self@.taskbased_goals[self@.task_goal_index(goal_id)]),
    {
        if !self.does_goal_exist(goal_id) {
            return (GetGoalCode::FailureGoalDoesntExist, None);
        }
        if self.is_timebased_goal(goal_id) {
            proof {
                self@.lemma_goal_not_in_both(goal_id);
            }
            return (GetGoalCode::FailureGoalIncorrectType, None);
        }
        let (found, idx) = self.index_of_taskbased_goal(goal_id);
        proof {
            self@.lemma_task_index_unique(goal_id, idx as int);
        }
        (GetGoalCode::Success, Some(clone_taskbased_goal(&self.taskbased_goals[idx])))
    }

    /// Fetch a copy of the header of the goal with this id, from whichever
    /// collection holds it, or say that none does.
    pub fn get_goal_by_id(&self, goal_id: u128) -> (r: (GetGoalCode, Option<Goal>))
        requires
            self@.wf(),
        ensures
            !self@.goal_exists(goal_id) ==> r.0 == GetGoalCode::FailureGoalDoesntExist
                && r.1 is None,
            self@.goal_exists(goal_id) ==> r.0 == GetGoalCode::Success && (r.1 matches Some(g)
                && g@ == self@.goal_header(goal_id)),
    {
        if !self.does_goal_exist(goal_id) {
            return (GetGoalCode::FailureGoalDoesntExist, None);
        }
        let (tb_found, idx_tb) = self.index_of_timebased_goal(goal_id);
        if tb_found {
            proof {
                self@.lemma_tb_index_unique(goal_id, idx_tb as int);
            }
            return (GetGoalCode::Success, Some(clone_goal(&self.timebased_goals[idx_tb].goal)));
        }
        let (task_found, idx_task) = self.index_of_taskbased_goal(goal_id);
        proof {
            self@.lemma_task_index_unique(goal_id, idx_task as int);
        }
        (GetGoalCode::Success, Some(clone_goal(&self.taskbased_goals[idx_task].goal)))
    }

    /// Does the goal with this id have at least one incomplete immediate
    /// subgoal?
    pub(crate) fn exists_incomplete_subgoal(&self, goal_id: u128) -> (r: bool)
        ensures
            r == self@.has_incomplete_subgoal(goal_id),
    {
        let n = self.timebased_goals.len();
        let mut i: usize = 0;
        while i < n
            invariant
                i <= n,
                n == self@.timebased_goals.len(),
                forall|j: int|
                    0 <= j < i ==> !is_incomplete_child(
                        (#[trigger] self@.timebased_goals[j]).goal,
                        goal_id,
                    ),
            decreases n - i,
        {
            let g = &self.timebased_goals[i].goal;
            if g.parent_id == goal_id && g.completion_status == GoalCompletionStatus::Incomplete {
                proof {
                    assert(is_incomplete_child(self@.timebased_goals[i as int].goal, goal_id));
                }
                return true;
            }
            i = i + 1;
        }
        let m = self.taskbased_goals.len();
        let mut j: usize = 0;
        while j < m
            invariant
                m == self@.taskbased_goals.len(),
                j <= m,
                forall|k: int|
                    0 <= k < self@.timebased_goals.len() ==> !is_incomplete_child(
                        (#[trigger] self@.timebased_goals[k]).goal,
                        goal_id,
                    ),
                forall|k: int|
                    0 <= k < j ==> !is_incomplete_child(
                        (#[trigger] self@.taskbased_goals[k]).goal,
                        goal_id,
                    ),
            decreases m - j,
        {
            let g = &self.taskbased_goals[j].goal;
            if g.parent_id == goal_id && g.completion_status == GoalCompletionStatus::Incomplete {
                proof {
                    assert(is_incomplete_child(self@.taskbased_goals[j as int].goal, goal_id));
                }
                return true;
            }
            j = j + 1;
        }
        false
    }
}

} // verus!
