//! Filtered listings, subgoal queries, expiry lookups and the pure bound
//! predicates.

use goal_store::bounds::{do_bounds_intersect, is_within_bounds};
use goal_store::codes::{CreateEditGoalCode, CreateEditRecurrenceCode, GetGoalCode, GoalDeathCode};
use goal_store::goal::{
    Goal, GoalCompletionStatus, TaskbasedCriteriaItem, TaskbasedGoal, TimebasedCriteria,
    TimebasedGoal,
};
use goal_store::recurrence::{Recurrence, TimebasedRecurrence};
use goal_store::store::InMemoryRepo;

fn header(parent: u128, start: u128, end: u128, name: &str) -> Goal {
    Goal {
        parent_id: parent,
        recurrence_id: 0,
        goal_id: 0,
        goal_name: name.to_string(),
        start_unix_timestamp: start,
        end_unix_timestamp: end,
        failure_callback: vec![],
        success_callback: vec![],
        finally_callback: vec![],
        completion_status: GoalCompletionStatus::Incomplete,
    }
}

fn tb(parent: u128, start: u128, end: u128, name: &str) -> TimebasedGoal {
    TimebasedGoal {
        goal: header(parent, start, end, name),
        criteria: TimebasedCriteria {
            time_ms: 0,
            link_id: 0,
            task: String::new(),
            feed: false,
            dedicated_time_ms: 0,
        },
    }
}

fn task(parent: u128, start: u128, end: u128, name: &str) -> TaskbasedGoal {
    TaskbasedGoal {
        goal: header(parent, start, end, name),
        criteria: vec![TaskbasedCriteriaItem {
            description: "item".to_string(),
            link_id: 0,
            is_checked: false,
        }],
    }
}

#[test]
fn within_bounds_is_asymmetric() {
    assert!(is_within_bounds(0, 1000, 100, 200));
    assert!(is_within_bounds(0, 1000, 1000, 9999));
    assert!(!is_within_bounds(0, 1000, 1001, 1002));
    assert!(!is_within_bounds(500, 1000, 499, 700));
}

#[test]
fn bounds_at_the_integer_extremes() {
    assert!(is_within_bounds(0, u128::MAX, u128::MAX, 0));
    assert!(!is_within_bounds(1, u128::MAX, 0, u128::MAX));
    assert!(do_bounds_intersect(0, u128::MAX, u128::MAX, u128::MAX));
}

#[test]
fn bounds_intersection_cases() {
    assert!(do_bounds_intersect(0, 10, 5, 15));
    assert!(do_bounds_intersect(5, 15, 0, 10));
    assert!(do_bounds_intersect(0, 100, 40, 60));
    assert!(do_bounds_intersect(40, 60, 0, 100));
    assert!(!do_bounds_intersect(0, 10, 11, 20));
    assert!(!do_bounds_intersect(11, 20, 0, 10));
    assert!(do_bounds_intersect(10, 20, 20, 30));
}

#[test]
fn interval_query_filters_by_intersection() {
    let mut repo = InMemoryRepo::new();
    repo.create_edit_timebased_goal(tb(0, 0, 100, "early"));
    repo.create_edit_timebased_goal(tb(0, 200, 300, "middle"));
    repo.create_edit_timebased_goal(tb(0, 400, 500, "late"));
    let hits = repo.get_timebased_goals(150, 350, &[]);
    assert_eq!(hits.len(), 1);
    assert_eq!(hits[0].goal.goal_name, "middle");
    // (0, 0) means unbounded.
    assert_eq!(repo.get_timebased_goals(0, 0, &[]).len(), 3);
}

#[test]
fn status_filter_restricts_and_empty_filter_admits_all() {
    let mut repo = InMemoryRepo::new();
    repo.create_edit_timebased_goal(tb(0, 0, 100, "a"));
    repo.create_edit_timebased_goal(tb(0, 0, 100, "b"));
    assert_eq!(repo.succeed_goal(2), GoalDeathCode::Success);
    let done = repo.get_timebased_goals(0, 0, &[GoalCompletionStatus::Succeeded]);
    assert_eq!(done.len(), 1);
    assert_eq!(done[0].goal.goal_name, "b");
    let open = repo.get_timebased_goals(0, 0, &[GoalCompletionStatus::Incomplete]);
    assert_eq!(open.len(), 1);
    assert_eq!(open[0].goal.goal_name, "a");
    let both = repo.get_timebased_goals(
        0,
        0,
        &[GoalCompletionStatus::Incomplete, GoalCompletionStatus::Succeeded],
    );
    assert_eq!(both.len(), 2);
    assert_eq!(repo.get_timebased_goals(0, 0, &[]).len(), 2);
}

#[test]
fn get_goals_lists_taskbased_before_timebased() {
    let mut repo = InMemoryRepo::new();
    repo.create_edit_timebased_goal(tb(0, 0, 100, "clock"));
    repo.create_edit_taskbased_goal(task(0, 0, 100, "list"));
    let all = repo.get_goals(0, 0, &[]);
    assert_eq!(all.len(), 2);
    assert_eq!(all[0].goal_name, "list");
    assert_eq!(all[1].goal_name, "clock");
}

#[test]
fn immediate_subgoals_are_depth_exactly_one() {
    let mut repo = InMemoryRepo::new();
    repo.create_edit_timebased_goal(tb(0, 0, 1000, "root"));
    repo.create_edit_timebased_goal(tb(1, 100, 200, "child"));
    repo.create_edit_taskbased_goal(task(1, 150, 250, "child-task"));
    repo.create_edit_timebased_goal(tb(2, 120, 130, "grandchild"));
    let children = repo.get_immediate_subgoals(1, &[]);
    assert_eq!(children.len(), 2);
    assert_eq!(children[0].goal_name, "child");
    assert_eq!(children[1].goal_name, "child-task");
    assert_eq!(repo.get_num_immediate_subgoals(1, &[]), 2);
    assert_eq!(repo.get_num_immediate_subgoals(2, &[]), 1);
    assert_eq!(repo.get_num_immediate_subgoals(4, &[]), 0);
}

#[test]
fn subgoal_queries_respect_the_status_filter() {
    let mut repo = InMemoryRepo::new();
    repo.create_edit_timebased_goal(tb(0, 0, 1000, "root"));
    repo.create_edit_timebased_goal(tb(1, 100, 200, "done"));
    repo.create_edit_timebased_goal(tb(1, 300, 400, "open"));
    assert_eq!(repo.succeed_goal(2), GoalDeathCode::Success);
    let open = repo.get_immediate_subgoals(1, &[GoalCompletionStatus::Incomplete]);
    assert_eq!(open.len(), 1);
    assert_eq!(open[0].goal_name, "open");
    assert_eq!(
        repo.get_num_immediate_subgoals(1, &[GoalCompletionStatus::Incomplete]),
        1
    );
}

#[test]
fn expired_goals_are_incomplete_with_past_ends() {
    let mut repo = InMemoryRepo::new();
    repo.create_edit_timebased_goal(tb(0, 0, 100, "past"));
    repo.create_edit_timebased_goal(tb(0, 0, 500, "future"));
    repo.create_edit_taskbased_goal(task(0, 0, 50, "past-task"));
    repo.create_edit_taskbased_goal(task(0, 0, 80, "resolved"));
    assert_eq!(repo.succeed_goal(4), GoalDeathCode::Success);
    let expired = repo.get_expired_goal_ids(200);
    // Task-based ids come first, then time-based ones.
    assert_eq!(expired, vec![3, 1]);
    assert_eq!(repo.get_expired_goal_ids(0).len(), 0);
    // The end must lie strictly before the probe time.
    assert_eq!(repo.get_expired_goal_ids(100), vec![3]);
}

#[test]
fn by_id_lookups_report_missing_ids() {
    let mut repo = InMemoryRepo::new();
    let (c1, g1) = repo.get_timebased_goal_by_id(1);
    assert_eq!(c1, GetGoalCode::FailureGoalDoesntExist);
    assert!(g1.is_none());
    let (c2, g2) = repo.get_taskbased_goal_by_id(1);
    assert_eq!(c2, GetGoalCode::FailureGoalDoesntExist);
    assert!(g2.is_none());
    let (c3, g3) = repo.get_goal_by_id(1);
    assert_eq!(c3, GetGoalCode::FailureGoalDoesntExist);
    assert!(g3.is_none());
}

#[test]
fn by_id_lookup_returns_the_stored_goal() {
    let mut repo = InMemoryRepo::new();
    repo.create_edit_taskbased_goal(task(0, 3, 9, "findme"));
    let (code, g) = repo.get_goal_by_id(1);
    assert_eq!(code, GetGoalCode::Success);
    let g = g.unwrap();
    assert_eq!(g.goal_name, "findme");
    assert_eq!(g.start_unix_timestamp, 3);
    assert_eq!(g.end_unix_timestamp, 9);
}

#[test]
fn recurrence_queries_filter_by_interval() {
    let mut repo = InMemoryRepo::new();
    let mk = |start: u128, end: u128| TimebasedRecurrence {
        timebased_goal: tb(0, 0, 0, "template"),
        recurrence: Recurrence {
            recurrence_id: 0,
            start_unix_timestamp: start,
            end_unix_timestamp: end,
            spawn_interval_ms: 10,
            goal_duration_ms: 5,
            latest_spawned_start_time_ms: 0,
        },
    };
    assert_eq!(
        repo.create_edit_timebased_recurrence(mk(0, 100)),
        CreateEditRecurrenceCode::Success
    );
    assert_eq!(
        repo.create_edit_timebased_recurrence(mk(500, 900)),
        CreateEditRecurrenceCode::Success
    );
    assert_eq!(repo.get_timebased_recurrences(0, 0).len(), 2);
    let hits = repo.get_timebased_recurrences(50, 120);
    assert_eq!(hits.len(), 1);
    assert_eq!(hits[0].recurrence.recurrence_id, 1);
    assert_eq!(repo.get_taskbased_recurrences(0, 0).len(), 0);
    assert!(!repo.is_timebased_recurrence(7));
}

#[test]
fn queries_preserve_callback_lists() {
    let mut repo = InMemoryRepo::new();
    let mut g = tb(0, 0, 100, "with-callbacks");
    g.goal.success_callback = vec!["notify".to_string(), "archive".to_string()];
    g.goal.failure_callback = vec!["retry".to_string()];
    assert_eq!(repo.create_edit_timebased_goal(g), CreateEditGoalCode::Success);
    let (_, fetched) = repo.get_timebased_goal_by_id(1);
    let fetched = fetched.unwrap();
    assert_eq!(fetched.goal.success_callback, vec!["notify", "archive"]);
    assert_eq!(fetched.goal.failure_callback, vec!["retry"]);
    assert_eq!(fetched.goal.finally_callback, Vec::<String>::new());
}
