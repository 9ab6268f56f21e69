//! Goal creation, editing, and the completion state machine.

use goal_store::codes::{CreateEditGoalCode, GoalDeathCode, GoalDeleteCode};
use goal_store::goal::{
    Goal, GoalCompletionStatus, TaskbasedCriteriaItem, TaskbasedGoal, TimebasedCriteria,
    TimebasedGoal,
};
use goal_store::store::InMemoryRepo;

fn header(parent: u128, id: u128, start: u128, end: u128) -> Goal {
    Goal {
        parent_id: parent,
        recurrence_id: 0,
        goal_id: id,
        goal_name: "goal".to_string(),
        start_unix_timestamp: start,
        end_unix_timestamp: end,
        failure_callback: vec!["on-fail".to_string()],
        success_callback: vec!["on-success".to_string()],
        finally_callback: vec!["finally".to_string()],
        completion_status: GoalCompletionStatus::Incomplete,
    }
}

fn tb(parent: u128, id: u128, start: u128, end: u128) -> TimebasedGoal {
    TimebasedGoal {
        goal: header(parent, id, start, end),
        criteria: TimebasedCriteria {
            time_ms: 10_000,
            link_id: 0,
            task: "practice".to_string(),
            feed: false,
            dedicated_time_ms: 0,
        },
    }
}

fn task(parent: u128, id: u128, start: u128, end: u128) -> TaskbasedGoal {
    TaskbasedGoal {
        goal: header(parent, id, start, end),
        criteria: vec![
            TaskbasedCriteriaItem {
                description: "step one".to_string(),
                link_id: 0,
                is_checked: false,
            },
            TaskbasedCriteriaItem {
                description: "step two".to_string(),
                link_id: 7,
                is_checked: false,
            },
        ],
    }
}

#[test]
fn create_assigns_first_id_and_incomplete_status() {
    let mut repo = InMemoryRepo::new();
    let mut g = tb(0, 0, 0, 1000);
    g.goal.recurrence_id = 99;
    g.goal.completion_status = GoalCompletionStatus::Failed;
    assert_eq!(repo.create_edit_timebased_goal(g), CreateEditGoalCode::Success);
    let (_, fetched) = repo.get_timebased_goal_by_id(1);
    let fetched = fetched.unwrap();
    assert_eq!(fetched.goal.goal_id, 1);
    assert_eq!(fetched.goal.recurrence_id, 0);
    assert_eq!(fetched.goal.completion_status, GoalCompletionStatus::Incomplete);
    assert!(repo.does_goal_exist(1));
    assert!(!repo.does_goal_exist(2));
    assert_eq!(repo.get_state_version(), 1);
}

#[test]
fn subgoal_inside_parent_bound_is_accepted() {
    let mut repo = InMemoryRepo::new();
    assert_eq!(repo.create_edit_timebased_goal(tb(0, 0, 0, 1000)), CreateEditGoalCode::Success);
    assert_eq!(repo.create_edit_timebased_goal(tb(1, 0, 100, 200)), CreateEditGoalCode::Success);
    assert!(repo.does_goal_exist(2));
}

#[test]
fn subgoal_outside_parent_bound_is_rejected() {
    let mut repo = InMemoryRepo::new();
    assert_eq!(repo.create_edit_timebased_goal(tb(0, 0, 0, 1000)), CreateEditGoalCode::Success);
    assert_eq!(
        repo.create_edit_timebased_goal(tb(1, 0, 1001, 1200)),
        CreateEditGoalCode::FailureSubgoalOutsideParentTimebound
    );
    assert!(!repo.does_goal_exist(2));
    assert_eq!(repo.get_state_version(), 1);
}

#[test]
fn naming_a_missing_parent_fails_recoverably() {
    let mut repo = InMemoryRepo::new();
    // Create naming a parent that was never stored: the containment check
    // fails (no stored parent bound admits the start) and nothing changes.
    assert_eq!(
        repo.create_edit_timebased_goal(tb(42, 0, 10, 20)),
        CreateEditGoalCode::FailureSubgoalOutsideParentTimebound
    );
    assert!(!repo.does_goal_exist(1));
    assert_eq!(repo.get_state_version(), 0);
    // The same holds when an edit names a missing parent.
    assert_eq!(repo.create_edit_taskbased_goal(task(0, 0, 0, 100)), CreateEditGoalCode::Success);
    assert_eq!(
        repo.create_edit_taskbased_goal(task(9, 1, 5, 50)),
        CreateEditGoalCode::FailureSubgoalOutsideParentTimebound
    );
    let (_, g) = repo.get_taskbased_goal_by_id(1);
    assert_eq!(g.unwrap().goal.start_unix_timestamp, 0);
    assert_eq!(repo.get_state_version(), 1);
}

#[test]
fn containment_checks_only_the_inner_start() {
    // The bound check is deliberately asymmetric: the subgoal's end may
    // stick out past the parent's end.
    let mut repo = InMemoryRepo::new();
    assert_eq!(repo.create_edit_timebased_goal(tb(0, 0, 0, 1000)), CreateEditGoalCode::Success);
    assert_eq!(repo.create_edit_timebased_goal(tb(1, 0, 900, 5000)), CreateEditGoalCode::Success);
}

#[test]
fn shrinking_over_incomplete_subgoal_fails_and_changes_nothing() {
    let mut repo = InMemoryRepo::new();
    assert_eq!(repo.create_edit_timebased_goal(tb(0, 0, 0, 1000)), CreateEditGoalCode::Success);
    assert_eq!(repo.create_edit_timebased_goal(tb(1, 0, 100, 200)), CreateEditGoalCode::Success);
    let version = repo.get_state_version();
    assert_eq!(
        repo.create_edit_timebased_goal(tb(0, 1, 150, 1000)),
        CreateEditGoalCode::FailureNewTimeboundSmallerThanSubgoals
    );
    assert_eq!(repo.get_state_version(), version);
    let (_, a) = repo.get_timebased_goal_by_id(1);
    assert_eq!(a.unwrap().goal.start_unix_timestamp, 0);
}

#[test]
fn shrinking_over_resolved_subgoal_is_allowed() {
    let mut repo = InMemoryRepo::new();
    assert_eq!(repo.create_edit_timebased_goal(tb(0, 0, 0, 1000)), CreateEditGoalCode::Success);
    assert_eq!(repo.create_edit_timebased_goal(tb(1, 0, 100, 200)), CreateEditGoalCode::Success);
    assert_eq!(repo.succeed_goal(2), GoalDeathCode::Success);
    assert_eq!(repo.create_edit_timebased_goal(tb(0, 1, 150, 1000)), CreateEditGoalCode::Success);
    let (_, a) = repo.get_timebased_goal_by_id(1);
    assert_eq!(a.unwrap().goal.start_unix_timestamp, 150);
}

#[test]
fn edit_of_missing_goal_fails() {
    let mut repo = InMemoryRepo::new();
    assert_eq!(
        repo.create_edit_timebased_goal(tb(0, 42, 0, 10)),
        CreateEditGoalCode::FailureEditingGoalDoesntExist
    );
    assert_eq!(repo.get_state_version(), 0);
}

#[test]
fn edit_through_the_wrong_variant_fails() {
    let mut repo = InMemoryRepo::new();
    assert_eq!(repo.create_edit_taskbased_goal(task(0, 0, 0, 10)), CreateEditGoalCode::Success);
    assert_eq!(
        repo.create_edit_timebased_goal(tb(0, 1, 0, 10)),
        CreateEditGoalCode::FailureEditingGoalOfIncorrectType
    );
}

#[test]
fn edit_overwrites_payload_but_keeps_identity() {
    let mut repo = InMemoryRepo::new();
    assert_eq!(repo.create_edit_timebased_goal(tb(0, 0, 0, 1000)), CreateEditGoalCode::Success);
    let mut edit = tb(0, 1, 5, 900);
    edit.goal.goal_name = "renamed".to_string();
    edit.criteria.time_ms = 77;
    assert_eq!(repo.create_edit_timebased_goal(edit), CreateEditGoalCode::Success);
    let (_, g) = repo.get_timebased_goal_by_id(1);
    let g = g.unwrap();
    assert_eq!(g.goal.goal_name, "renamed");
    assert_eq!(g.goal.start_unix_timestamp, 5);
    assert_eq!(g.goal.end_unix_timestamp, 900);
    assert_eq!(g.criteria.time_ms, 77);
    assert_eq!(g.goal.goal_id, 1);
    assert_eq!(g.goal.completion_status, GoalCompletionStatus::Incomplete);
    assert_eq!(repo.get_state_version(), 2);
}

#[test]
fn resolution_is_gated_on_incomplete_subgoals() {
    let mut repo = InMemoryRepo::new();
    assert_eq!(repo.create_edit_timebased_goal(tb(0, 0, 0, 1000)), CreateEditGoalCode::Success);
    assert_eq!(repo.create_edit_timebased_goal(tb(1, 0, 100, 200)), CreateEditGoalCode::Success);
    assert_eq!(repo.succeed_goal(1), GoalDeathCode::FailureSubgoalsNotAllDead);
    assert_eq!(repo.fail_goal(1), GoalDeathCode::FailureSubgoalsNotAllDead);
    assert_eq!(repo.delete_goal(1), GoalDeleteCode::FailureGoalHasSubgoals);
    assert_eq!(repo.succeed_goal(2), GoalDeathCode::Success);
    assert_eq!(repo.succeed_goal(1), GoalDeathCode::Success);
    let (_, a) = repo.get_goal_by_id(1);
    assert_eq!(a.unwrap().completion_status, GoalCompletionStatus::Succeeded);
}

#[test]
fn resolving_a_missing_goal_fails() {
    let mut repo = InMemoryRepo::new();
    assert_eq!(repo.succeed_goal(5), GoalDeathCode::FailureGoalDoesntExist);
    assert_eq!(repo.fail_goal(5), GoalDeathCode::FailureGoalDoesntExist);
    assert_eq!(repo.delete_goal(5), GoalDeleteCode::FailureGoalDoesntExist);
    assert_eq!(repo.get_state_version(), 0);
}

#[test]
fn fail_goal_sets_failed_status() {
    let mut repo = InMemoryRepo::new();
    assert_eq!(repo.create_edit_taskbased_goal(task(0, 0, 0, 10)), CreateEditGoalCode::Success);
    assert_eq!(repo.fail_goal(1), GoalDeathCode::Success);
    let (_, g) = repo.get_taskbased_goal_by_id(1);
    assert_eq!(g.unwrap().goal.completion_status, GoalCompletionStatus::Failed);
}

#[test]
fn deletion_is_a_status_not_a_removal() {
    let mut repo = InMemoryRepo::new();
    assert_eq!(repo.create_edit_timebased_goal(tb(0, 0, 0, 10)), CreateEditGoalCode::Success);
    assert_eq!(repo.delete_goal(1), GoalDeleteCode::Success);
    assert!(repo.does_goal_exist(1));
    let (_, g) = repo.get_timebased_goal_by_id(1);
    assert_eq!(g.unwrap().goal.completion_status, GoalCompletionStatus::Deleted);
    // The id is not reused by the next create.
    assert_eq!(repo.create_edit_timebased_goal(tb(0, 0, 0, 10)), CreateEditGoalCode::Success);
    assert!(repo.does_goal_exist(2));
}

#[test]
fn ids_are_disjoint_across_the_two_collections() {
    let mut repo = InMemoryRepo::new();
    assert_eq!(repo.create_edit_timebased_goal(tb(0, 0, 0, 10)), CreateEditGoalCode::Success);
    assert_eq!(repo.create_edit_taskbased_goal(task(0, 0, 0, 10)), CreateEditGoalCode::Success);
    assert!(repo.is_timebased_goal(1));
    assert!(!repo.is_timebased_goal(2));
    let (code_tb, none_tb) = repo.get_timebased_goal_by_id(2);
    assert_eq!(code_tb, goal_store::codes::GetGoalCode::FailureGoalIncorrectType);
    assert!(none_tb.is_none());
    let (code_task, none_task) = repo.get_taskbased_goal_by_id(1);
    assert_eq!(code_task, goal_store::codes::GetGoalCode::FailureGoalIncorrectType);
    assert!(none_task.is_none());
}

#[test]
fn version_bumps_exactly_on_successful_mutations() {
    let mut repo = InMemoryRepo::new();
    assert_eq!(repo.get_state_version(), 0);
    repo.create_edit_timebased_goal(tb(0, 0, 0, 1000));
    assert_eq!(repo.get_state_version(), 1);
    // A failing create leaves the version alone.
    repo.create_edit_timebased_goal(tb(1, 0, 5000, 6000));
    assert_eq!(repo.get_state_version(), 1);
    repo.create_edit_timebased_goal(tb(1, 0, 100, 200));
    assert_eq!(repo.get_state_version(), 2);
    // A failing resolution leaves the version alone.
    repo.succeed_goal(1);
    assert_eq!(repo.get_state_version(), 2);
    repo.succeed_goal(2);
    assert_eq!(repo.get_state_version(), 3);
    // Queries never bump.
    repo.get_goals(0, 0, &[]);
    repo.get_expired_goal_ids(10_000);
    assert_eq!(repo.get_state_version(), 3);
}
