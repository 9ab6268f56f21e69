//! The in-memory store: owned collections of goals and recurrences, the
//! identity allocator, and the change version counter. The mutating and
//! querying operations live in the sibling modules and are implemented on
//! this type.

use vstd::prelude::*;
use crate::goal::{TaskbasedGoal, TimebasedGoal};
use crate::recurrence::{TaskbasedRecurrence, TimebasedRecurrence};
use crate::state::RepoView;

verus! {

/// An in-memory goal and recurrence store.
///
/// Ids are issued by a single counter starting at 0 that increments before
/// every issue, so 0 is never issued and no id is ever reused — not even
/// after a goal is deleted. The version counter strictly increases on every
/// successful mutation.
pub struct InMemoryRepo {
    pub next_free_id: u128,
    pub timebased_recurrences: Vec<TimebasedRecurrence>,
    pub taskbased_recurrences: Vec<TaskbasedRecurrence>,
    pub timebased_goals: Vec<TimebasedGoal>,
    pub taskbased_goals: Vec<TaskbasedGoal>,
    pub version_number: u128,
}

impl View for InMemoryRepo {
    type V = RepoView;

    open spec fn view(&self) -> RepoView {
        RepoView {
            next_free_id: self.next_free_id,
            timebased_recurrences: crate::recurrence::tb_rec_views(self.timebased_recurrences@),
            taskbased_recurrences: crate::recurrence::task_rec_views(self.taskbased_recurrences@),
            timebased_goals: crate::goal::tb_goal_views(self.timebased_goals@),
            taskbased_goals: crate::goal::task_goal_views(self.taskbased_goals@),
            version_number: self.version_number,
        }
    }
}

impl InMemoryRepo {
    /// An empty store: no goals, no recurrences, version 0, no id issued yet.
    pub fn new() -> (repo: InMemoryRepo)
        ensures
            repo@.wf(),
            repo@.next_free_id == 0,
            repo@.version_number == 0,
            repo@.timebased_goals.len() == 0,
            repo@.taskbased_goals.len() == 0,
            repo@.timebased_recurrences.len() == 0,
            repo@.taskbased_recurrences.len() == 0,
    {
        InMemoryRepo {
            next_free_id: 0,
            taskbased_recurrences: Vec::new(),
            timebased_recurrences: Vec::new(),
            timebased_goals: Vec::new(),
            taskbased_goals: Vec::new(),
            version_number: 0,
        }
    }

    /// The version of the current state; any successful mutation moves it
    /// to a larger value.
    pub fn get_state_version(&self) -> (v: u128)
        ensures
            v == self@.version_number,
    {
        self.version_number
    }

    /// Increment the allocator and return the fresh id: positive, never
    /// reused, and larger than every id issued before.
    pub(crate) fn next_fresh_id(&mut self) -> (id: u128)
        requires
            old(self).next_free_id < u128::MAX,
        ensures
            id == old(self).next_free_id + 1,
            final(self).next_free_id == id,
            final(self).timebased_goals == old(self).timebased_goals,
            final(self).taskbased_goals == old(self).taskbased_goals,
            final(self).timebased_recurrences == old(self).timebased_recurrences,
            final(self).taskbased_recurrences == old(self).taskbased_recurrences,
            final(self).version_number == old(self).version_number,
    {
        self.next_free_id = self.next_free_id + 1;
        self.next_free_id
    }

    /// Linear scan of the time-based goals for `target_id`; returns whether
    /// it was found and, if so, its index.
    pub(crate) fn index_of_timebased_goal(&self, target_id: u128) -> (r: (bool, usize))
        ensures
            r.0 == self@.tb_has_goal(target_id),
            r.0 ==> r.1 < self@.timebased_goals.len() && self@.timebased_goals[
                r.1 as int
            ].goal.goal_id == target_id,
    {
        let n = self.timebased_goals.len();
        let mut i: usize = 0;
        while i < n
            invariant
                i <= n,
                n == self@.timebased_goals.len(),
                forall|j: int|
                    0 <= j < i ==> (#[trigger] self@.timebased_goals[j]).goal.goal_id != target_id,
            decreases n - i,
        {
            if self.timebased_goals[i].goal.goal_id == target_id {
                return (true, i);
            }
            i = i + 1;
        }
        (false, 0)
    }

    /// Linear scan of the task-based goals for `target_id`.
    pub(crate) fn index_of_taskbased_goal(&self, target_id: u128) -> (r: (bool, usize))
        ensures
            r.0 == self@.task_has_goal(target_id),
            r.0 ==> r.1 < self@.taskbased_goals.len() && self@.taskbased_goals[
                r.1 as int
            ].goal.goal_id == target_id,
    {
        let n = self.taskbased_goals.len();
        let mut i: usize = 0;
        while i < n
            invariant
                i <= n,
                n == self@.taskbased_goals.len(),
                forall|j: int|
                    0 <= j < i ==> (#[trigger] self@.taskbased_goals[j]).goal.goal_id != target_id,
            decreases n - i,
        {
            if self.taskbased_goals[i].goal.goal_id == target_id {
                return (true, i);
            }
            i = i + 1;
        }
        (false, 0)
    }

    /// Linear scan of the time-based recurrences for `target_id`.
    pub(crate) fn index_of_timebased_recurrence(&self, target_id: u128) -> (r: (bool, usize))
        ensures
            r.0 == self@.tb_has_rec(target_id),
            r.0 ==> r.1 < self@.timebased_recurrences.len() && self@.timebased_recurrences[
                r.1 as int
            ].recurrence.recurrence_id == target_id,
    {
        let n = self.timebased_recurrences.len();
        let mut i: usize = 0;
        while i < n
            invariant
                i <= n,
                n == self@.timebased_recurrences.len(),
                forall|j: int|
                    0 <= j < i ==> (
                    #[trigger] self@.timebased_recurrences[j]).recurrence.recurrence_id
                        != target_id,
            decreases n - i,
        {
            if self.timebased_recurrences[i].recurrence.recurrence_id == target_id {
                return (true, i);
            }
            i = i + 1;
        }
        (false, 0)
    }

    /// Linear scan of the task-based recurrences for `target_id`.
    pub(crate) fn index_of_taskbased_recurrence(&self, target_id: u128) -> (r: (bool, usize))
        ensures
            r.0 == self@.task_has_rec(target_id),
            r.0 ==> r.1 < self@.taskbased_recurrences.len() && self@.taskbased_recurrences[
                r.1 as int
            ].recurrence.recurrence_id == target_id,
    {
        let n = self.taskbased_recurrences.len();
        let mut i: usize = 0;
        while i < n
            invariant
                i <= n,
                n == self@.taskbased_recurrences.len(),
                forall|j: int|
                    0 <= j < i ==> (
                    #[trigger] self@.taskbased_recurrences[j]).recurrence.recurrence_id
                        != target_id,
            decreases n - i,
        {
            if self.taskbased_recurrences[i].recurrence.recurrence_id == target_id {
                return (true, i);
            }
            i = i + 1;
        }
        (false, 0)
    }

    /// Does any stored goal carry this id?
    pub fn does_goal_exist(&self, goal_id: u128) -> (r: bool)
        ensures
            r == self@.goal_exists(goal_id),
    {
        let (in_timebased, _) = self.index_of_timebased_goal(goal_id);
        let (in_taskbased, _) = self.index_of_taskbased_goal(goal_id);
        in_taskbased || in_timebased
    }

    /// Does any stored recurrence carry this id?
    pub fn does_recurrence_exist(&self, rec_id: u128) -> (r: bool)
        ensures
            r == self@.rec_exists(rec_id),
    {
        let (in_timebased, _) = self.index_of_timebased_recurrence(rec_id);
        let (in_taskbased, _) = self.index_of_taskbased_recurrence(rec_id);
        in_taskbased || in_timebased
    }

    /// Is the goal with this id stored in the time-based collection?
    pub fn is_timebased_goal(&self, goal_id: u128) -> (r: bool)
        ensures
            r == self@.tb_has_goal(goal_id),
    {
        let (in_timebased, _) = self.index_of_timebased_goal(goal_id);
        in_timebased
    }

    /// Is the recurrence with this id stored in the time-based collection?
    pub fn is_timebased_recurrence(&self, rec_id: u128) -> (r: bool)
        ensures
            r == self@.tb_has_rec(rec_id),
    {
        let (in_timebased, _) = self.index_of_timebased_recurrence(rec_id);
        in_timebased
    }
}

} // verus!
