//! Goal data: a common header shared by both goal variants, the
//! variant-specific criteria payloads, and mathematical views of each.

use vstd::prelude::*;

verus! {

/// A goal's completion status. `Incomplete` is the only live state; the
/// other three are terminal.
#[derive(PartialEq, Eq, Structural, Copy, Clone, Debug)]
pub enum GoalCompletionStatus {
    Incomplete,
    Succeeded,
    Failed,
    Deleted,
}

/// The header common to both goal variants.
///
/// An id of 0 means "unset": no parent, not spawned by a recurrence, or (for
/// `goal_id`) not yet assigned. The callback lists are opaque action
/// identifiers handed to an external executor on resolution; the store never
/// interprets them.
#[derive(Clone, Debug)]
pub struct Goal {
    pub parent_id: u128,
    pub recurrence_id: u128,
    pub goal_id: u128,
    pub goal_name: String,
    pub start_unix_timestamp: u128,
    pub end_unix_timestamp: u128,
    pub failure_callback: Vec<String>,
    pub success_callback: Vec<String>,
    pub finally_callback: Vec<String>,
    pub completion_status: GoalCompletionStatus,
}

/// Mathematical view of a `Goal` header.
#[verifier::ext_equal]
pub struct GoalView {
    pub parent_id: u128,
    pub recurrence_id: u128,
    pub goal_id: u128,
    pub goal_name: Seq<char>,
    pub start_unix_timestamp: u128,
    pub end_unix_timestamp: u128,
    pub failure_callback: Seq<Seq<char>>,
    pub success_callback: Seq<Seq<char>>,
    pub finally_callback: Seq<Seq<char>>,
    pub completion_status: GoalCompletionStatus,
}

impl View for Goal {
    type V = GoalView;

    open spec fn view(&self) -> GoalView {
        GoalView {
            parent_id: self.parent_id,
            recurrence_id: self.recurrence_id,
            goal_id: self.goal_id,
            goal_name: self.goal_name@,
            start_unix_timestamp: self.start_unix_timestamp,
            end_unix_timestamp: self.end_unix_timestamp,
            failure_callback: self.failure_callback.deep_view(),
            success_callback: self.success_callback.deep_view(),
            finally_callback: self.finally_callback.deep_view(),
            completion_status: self.completion_status,
        }
    }
}

/// Completion payload of a time-based goal: a target duration and either a
/// link to an external task (`link_id != 0`, with a feed flag) or a free-text
/// task (`link_id == 0`), plus the time dedicated so far.
#[derive(Clone, Debug)]
pub struct TimebasedCriteria {
    pub time_ms: u128,
    pub link_id: u128,
    pub task: String,
    pub feed: bool,
    pub dedicated_time_ms: u128,
}

/// Mathematical view of `TimebasedCriteria`.
#[verifier::ext_equal]
pub struct TimebasedCriteriaView {
    pub time_ms: u128,
    pub link_id: u128,
    pub task: Seq<char>,
    pub feed: bool,
    pub dedicated_time_ms: u128,
}

impl View for TimebasedCriteria {
    type V = TimebasedCriteriaView;

    open spec fn view(&self) -> TimebasedCriteriaView {
        TimebasedCriteriaView {
            time_ms: self.time_ms,
            link_id: self.link_id,
            task: self.task@,
            feed: self.feed,
            dedicated_time_ms: self.dedicated_time_ms,
        }
    }
}

/// A time-based goal: header plus duration criteria.
#[derive(Clone, Debug)]
pub struct TimebasedGoal {
    pub goal: Goal,
    pub criteria: TimebasedCriteria,
}

/// Mathematical view of a `TimebasedGoal`.
#[verifier::ext_equal]
pub struct TimebasedGoalView {
    pub goal: GoalView,
    pub criteria: TimebasedCriteriaView,
}

impl View for TimebasedGoal {
    type V = TimebasedGoalView;

    open spec fn view(&self) -> TimebasedGoalView {
        TimebasedGoalView { goal: self.goal@, criteria: self.criteria@ }
    }
}

/// One item of a task-based goal's checklist.
#[derive(Clone, Debug)]
pub struct TaskbasedCriteriaItem {
    pub description: String,
    pub link_id: u128,
    pub is_checked: bool,
}

/// Mathematical view of a `TaskbasedCriteriaItem`.
#[verifier::ext_equal]
pub struct TaskbasedCriteriaItemView {
    pub description: Seq<char>,
    pub link_id: u128,
    pub is_checked: bool,
}

impl View for TaskbasedCriteriaItem {
    type V = TaskbasedCriteriaItemView;

    open spec fn view(&self) -> TaskbasedCriteriaItemView {
        TaskbasedCriteriaItemView {
            description: self.description@,
            link_id: self.link_id,
            is_checked: self.is_checked,
        }
    }
}

/// A task-based goal: header plus an ordered checklist.
#[derive(Clone, Debug)]
pub struct TaskbasedGoal {
    pub goal: Goal,
    pub criteria: Vec<TaskbasedCriteriaItem>,
}

/// Mathematical view of a `TaskbasedGoal`.
#[verifier::ext_equal]
pub struct TaskbasedGoalView {
    pub goal: GoalView,
    pub criteria: Seq<TaskbasedCriteriaItemView>,
}

impl View for TaskbasedGoal {
    type V = TaskbasedGoalView;

    open spec fn view(&self) -> TaskbasedGoalView {
        TaskbasedGoalView { goal: self.goal@, criteria: criteria_views(self.criteria@) }
    }
}

/// Views of a sequence of goal headers.
pub open spec fn goal_views(s: Seq<Goal>) -> Seq<GoalView> {
    s.map_values(|g: Goal| g@)
}

/// Views of a sequence of time-based goals.
pub open spec fn tb_goal_views(s: Seq<TimebasedGoal>) -> Seq<TimebasedGoalView> {
    s.map_values(|g: TimebasedGoal| g@)
}

/// Views of a sequence of task-based goals.
pub open spec fn task_goal_views(s: Seq<TaskbasedGoal>) -> Seq<TaskbasedGoalView> {
    s.map_values(|g: TaskbasedGoal| g@)
}

/// Views of a checklist.
pub open spec fn criteria_views(s: Seq<TaskbasedCriteriaItem>) -> Seq<TaskbasedCriteriaItemView> {
    s.map_values(|c: TaskbasedCriteriaItem| c@)
}

/// Copy a list of opaque action identifiers, preserving its view.
pub(crate) fn clone_string_vec(v: &Vec<String>) -> (r: Vec<String>)
    ensures
        r@ == v@,
{
    let r = v.clone();
    proof {
        assert forall|i: int| 0 <= i < v@.len() implies r@[i] == v@[i] by {
            assert(cloned::<String>(v@[i], r@[i]));
        }
        assert(r@ =~= v@);
    }
    r
}

/// Copy a goal header, preserving its view.
pub(crate) fn clone_goal(g: &Goal) -> (r: Goal)
    ensures
        r@ == g@,
{
    Goal {
        parent_id: g.parent_id,
        recurrence_id: g.recurrence_id,
        goal_id: g.goal_id,
        goal_name: g.goal_name.clone(),
        start_unix_timestamp: g.start_unix_timestamp,
        end_unix_timestamp: g.end_unix_timestamp,
        failure_callback: clone_string_vec(&g.failure_callback),
        success_callback: clone_string_vec(&g.success_callback),
        finally_callback: clone_string_vec(&g.finally_callback),
        completion_status: g.completion_status,
    }
}

/// Copy time-based criteria, preserving its view.
pub(crate) fn clone_timebased_criteria(c: &TimebasedCriteria) -> (r: TimebasedCriteria)
    ensures
        r@ == c@,
{
    TimebasedCriteria {
        time_ms: c.time_ms,
        link_id: c.link_id,
        task: c.task.clone(),
        feed: c.feed,
        dedicated_time_ms: c.dedicated_time_ms,
    }
}

/// Copy a time-based goal, preserving its view.
pub(crate) fn clone_timebased_goal(g: &TimebasedGoal) -> (r: TimebasedGoal)
    ensures
        r@ == g@,
{
    TimebasedGoal { goal: clone_goal(&g.goal), criteria: clone_timebased_criteria(&g.criteria) }
}

/// Copy one checklist item, preserving its view.
pub(crate) fn clone_criteria_item(c: &TaskbasedCriteriaItem) -> (r: TaskbasedCriteriaItem)
    ensures
        r@ == c@,
{
    TaskbasedCriteriaItem {
        description: c.description.clone(),
        link_id: c.link_id,
        is_checked: c.is_checked,
    }
}

/// Copy a checklist, preserving its view.
pub(crate) fn clone_criteria_items(v: &Vec<TaskbasedCriteriaItem>) -> (r: Vec<TaskbasedCriteriaItem>)
    ensures
        criteria_views(r@) == criteria_views(v@),
{
    let mut r: Vec<TaskbasedCriteriaItem> = Vec::new();
    let n = v.len();
    let mut i: usize = 0;
    while i < n
        invariant
            i <= n,
            n == v@.len(),
            r@.len() == i,
            forall|j: int| 0 <= j < i ==> (#[trigger] r@[j])@ == v@[j]@,
        decreases n - i,
    {
        r.push(clone_criteria_item(&v[i]));
        i = i + 1;
    }
    proof {
        assert(criteria_views(r@) =~= criteria_views(v@));
    }
    r
}

/// Copy a task-based goal, preserving its view.
pub(crate) fn clone_taskbased_goal(g: &TaskbasedGoal) -> (r: TaskbasedGoal)
    ensures
        r@ == g@,
{
    TaskbasedGoal { goal: clone_goal(&g.goal), criteria: clone_criteria_items(&g.criteria) }
}

} // verus!
