//! Feeding time into time-based goals and toggling task-based criteria.

use goal_store::codes::{CheckUncheckTaskbasedCriteriaCode, CreateEditGoalCode};
use goal_store::goal::{
    Goal, GoalCompletionStatus, TaskbasedCriteriaItem, TaskbasedGoal, TimebasedCriteria,
    TimebasedGoal,
};
use goal_store::store::InMemoryRepo;

fn header(start: u128, end: u128) -> Goal {
    Goal {
        parent_id: 0,
        recurrence_id: 0,
        goal_id: 0,
        goal_name: "goal".to_string(),
        start_unix_timestamp: start,
        end_unix_timestamp: end,
        failure_callback: vec![],
        success_callback: vec![],
        finally_callback: vec![],
        completion_status: GoalCompletionStatus::Incomplete,
    }
}

fn tb(start: u128, end: u128) -> TimebasedGoal {
    TimebasedGoal {
        goal: header(start, end),
        criteria: TimebasedCriteria {
            time_ms: 60_000,
            link_id: 0,
            task: "read".to_string(),
            feed: true,
            dedicated_time_ms: 40,
        },
    }
}

fn task(start: u128, end: u128) -> TaskbasedGoal {
    TaskbasedGoal {
        goal: header(start, end),
        criteria: vec![
            TaskbasedCriteriaItem {
                description: "first".to_string(),
                link_id: 0,
                is_checked: false,
            },
            TaskbasedCriteriaItem {
                description: "second".to_string(),
                link_id: 0,
                is_checked: true,
            },
        ],
    }
}

#[test]
fn feeding_accumulates_dedicated_time() {
    let mut repo = InMemoryRepo::new();
    assert_eq!(repo.create_edit_timebased_goal(tb(0, 100)), CreateEditGoalCode::Success);
    assert!(repo.feed_timebased_goal(1, 60));
    assert!(repo.feed_timebased_goal(1, 2));
    let (_, g) = repo.get_timebased_goal_by_id(1);
    assert_eq!(g.unwrap().criteria.dedicated_time_ms, 102);
    assert_eq!(repo.get_state_version(), 3);
}

#[test]
fn feeding_a_missing_or_taskbased_goal_fails() {
    let mut repo = InMemoryRepo::new();
    assert!(!repo.feed_timebased_goal(1, 60));
    assert_eq!(repo.create_edit_taskbased_goal(task(0, 100)), CreateEditGoalCode::Success);
    assert!(!repo.feed_timebased_goal(1, 60));
    assert_eq!(repo.get_state_version(), 1);
}

#[test]
fn checking_flips_the_flag_and_bumps_the_version() {
    let mut repo = InMemoryRepo::new();
    assert_eq!(repo.create_edit_taskbased_goal(task(0, 100)), CreateEditGoalCode::Success);
    assert_eq!(
        repo.check_taskbased_criteria(1, 0),
        CheckUncheckTaskbasedCriteriaCode::SuccessCriteriaToggled
    );
    let (_, g) = repo.get_taskbased_goal_by_id(1);
    let g = g.unwrap();
    assert!(g.criteria[0].is_checked);
    assert!(g.criteria[1].is_checked);
    assert_eq!(repo.get_state_version(), 2);
}

#[test]
fn checking_an_already_checked_criterion_is_a_no_op() {
    let mut repo = InMemoryRepo::new();
    assert_eq!(repo.create_edit_taskbased_goal(task(0, 100)), CreateEditGoalCode::Success);
    assert_eq!(
        repo.check_taskbased_criteria(1, 1),
        CheckUncheckTaskbasedCriteriaCode::SuccessCriteriaAlreadyInThisState
    );
    // No mutation and no version bump.
    assert_eq!(repo.get_state_version(), 1);
    let (_, g) = repo.get_taskbased_goal_by_id(1);
    assert!(g.unwrap().criteria[1].is_checked);
}

#[test]
fn unchecking_mirrors_checking() {
    let mut repo = InMemoryRepo::new();
    assert_eq!(repo.create_edit_taskbased_goal(task(0, 100)), CreateEditGoalCode::Success);
    assert_eq!(
        repo.uncheck_taskbased_criteria(1, 0),
        CheckUncheckTaskbasedCriteriaCode::SuccessCriteriaAlreadyInThisState
    );
    assert_eq!(repo.get_state_version(), 1);
    assert_eq!(
        repo.uncheck_taskbased_criteria(1, 1),
        CheckUncheckTaskbasedCriteriaCode::SuccessCriteriaToggled
    );
    assert_eq!(repo.get_state_version(), 2);
    let (_, g) = repo.get_taskbased_goal_by_id(1);
    assert!(!g.unwrap().criteria[1].is_checked);
}

#[test]
fn feeding_up_to_the_integer_limit() {
    let mut repo = InMemoryRepo::new();
    assert_eq!(repo.create_edit_timebased_goal(tb(0, 100)), CreateEditGoalCode::Success);
    // The seeded goal already carries 40 dedicated milliseconds.
    assert!(repo.feed_timebased_goal(1, u128::MAX - 40));
    let (_, g) = repo.get_timebased_goal_by_id(1);
    assert_eq!(g.unwrap().criteria.dedicated_time_ms, u128::MAX);
}

#[test]
fn criteria_toggle_error_codes() {
    let mut repo = InMemoryRepo::new();
    assert_eq!(
        repo.check_taskbased_criteria(1, 0),
        CheckUncheckTaskbasedCriteriaCode::FailureGoalDoesntExist
    );
    assert_eq!(repo.create_edit_timebased_goal(tb(0, 100)), CreateEditGoalCode::Success);
    assert_eq!(
        repo.check_taskbased_criteria(1, 0),
        CheckUncheckTaskbasedCriteriaCode::FailureGoalIsTimebased
    );
    assert_eq!(repo.create_edit_taskbased_goal(task(0, 100)), CreateEditGoalCode::Success);
    assert_eq!(
        repo.check_taskbased_criteria(2, 2),
        CheckUncheckTaskbasedCriteriaCode::FailureCriteriaIndexOutOfBounds
    );
    assert_eq!(
        repo.uncheck_taskbased_criteria(2, 9),
        CheckUncheckTaskbasedCriteriaCode::FailureCriteriaIndexOutOfBounds
    );
    assert_eq!(repo.get_state_version(), 2);
}
