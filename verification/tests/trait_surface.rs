//! The `IRepo` trait: code written against the trait alone works with the
//! in-memory implementation.

use goal_store::api::IRepo;
use goal_store::codes::{CreateEditGoalCode, GoalDeathCode};
use goal_store::goal::{Goal, GoalCompletionStatus, TimebasedCriteria, TimebasedGoal};
use goal_store::store::InMemoryRepo;

fn simple_goal(start: u128, end: u128) -> TimebasedGoal {
    TimebasedGoal {
        goal: Goal {
            parent_id: 0,
            recurrence_id: 0,
            goal_id: 0,
            goal_name: "via-trait".to_string(),
            start_unix_timestamp: start,
            end_unix_timestamp: end,
            failure_callback: vec![],
            success_callback: vec![],
            finally_callback: vec![],
            completion_status: GoalCompletionStatus::Incomplete,
        },
        criteria: TimebasedCriteria {
            time_ms: 0,
            link_id: 0,
            task: String::new(),
            feed: false,
            dedicated_time_ms: 0,
        },
    }
}

fn create_then_resolve<R: IRepo>(repo: &mut R) -> (u128, u128) {
    let created = IRepo::create_edit_timebased_goal(repo, simple_goal(0, 100));
    assert_eq!(created, CreateEditGoalCode::Success);
    let ids = IRepo::get_expired_goal_ids(repo, 500);
    assert_eq!(ids.len(), 1);
    let resolved = IRepo::succeed_goal(repo, ids[0]);
    assert_eq!(resolved, GoalDeathCode::Success);
    (ids[0], IRepo::get_state_version(repo))
}

#[test]
fn trait_calls_drive_the_in_memory_store() {
    let mut repo = InMemoryRepo::new();
    let (id, version) = create_then_resolve(&mut repo);
    assert_eq!(id, 1);
    assert_eq!(version, 2);
    let (_, g) = repo.get_goal_by_id(1);
    assert_eq!(g.unwrap().completion_status, GoalCompletionStatus::Succeeded);
}
