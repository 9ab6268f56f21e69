//! Recurrence definitions and the spawning algorithm.

use goal_store::codes::{CreateEditGoalCode, CreateEditRecurrenceCode};
use goal_store::goal::{
    Goal, GoalCompletionStatus, TaskbasedCriteriaItem, TaskbasedGoal, TimebasedCriteria,
    TimebasedGoal,
};
use goal_store::recurrence::{Recurrence, TaskbasedRecurrence, TimebasedRecurrence};
use goal_store::store::InMemoryRepo;

fn template_header(name: &str) -> Goal {
    Goal {
        parent_id: 0,
        recurrence_id: 0,
        goal_id: 0,
        goal_name: name.to_string(),
        start_unix_timestamp: 0,
        end_unix_timestamp: 0,
        failure_callback: vec![],
        success_callback: vec![],
        finally_callback: vec![],
        completion_status: GoalCompletionStatus::Incomplete,
    }
}

fn tb_rec(start: u128, end: u128, interval: u128, duration: u128) -> TimebasedRecurrence {
    TimebasedRecurrence {
        timebased_goal: TimebasedGoal {
            goal: template_header("daily"),
            criteria: TimebasedCriteria {
                time_ms: 500,
                link_id: 0,
                task: "swim".to_string(),
                feed: false,
                dedicated_time_ms: 0,
            },
        },
        recurrence: Recurrence {
            recurrence_id: 0,
            start_unix_timestamp: start,
            end_unix_timestamp: end,
            spawn_interval_ms: interval,
            goal_duration_ms: duration,
            latest_spawned_start_time_ms: 7777,
        },
    }
}

fn task_rec(start: u128, end: u128, interval: u128, duration: u128) -> TaskbasedRecurrence {
    TaskbasedRecurrence {
        taskbased_goal: TaskbasedGoal {
            goal: template_header("weekly"),
            criteria: vec![TaskbasedCriteriaItem {
                description: "tidy".to_string(),
                link_id: 0,
                is_checked: false,
            }],
        },
        recurrence: Recurrence {
            recurrence_id: 0,
            start_unix_timestamp: start,
            end_unix_timestamp: end,
            spawn_interval_ms: interval,
            goal_duration_ms: duration,
            latest_spawned_start_time_ms: 0,
        },
    }
}

#[test]
fn create_assigns_id_and_initializes_progress() {
    let mut repo = InMemoryRepo::new();
    assert_eq!(
        repo.create_edit_timebased_recurrence(tb_rec(50, 10_000, 1000, 500)),
        CreateEditRecurrenceCode::Success
    );
    let recs = repo.get_timebased_recurrences(0, 0);
    assert_eq!(recs.len(), 1);
    assert_eq!(recs[0].recurrence.recurrence_id, 1);
    // The caller-supplied progress value is ignored; progress starts at the
    // recurrence's own start.
    assert_eq!(recs[0].recurrence.latest_spawned_start_time_ms, 50);
    assert!(repo.does_recurrence_exist(1));
    assert!(repo.is_timebased_recurrence(1));
    assert_eq!(repo.get_state_version(), 1);
}

#[test]
fn editing_a_missing_recurrence_fails() {
    let mut repo = InMemoryRepo::new();
    let mut r = tb_rec(0, 10_000, 1000, 500);
    r.recurrence.recurrence_id = 3;
    assert_eq!(
        repo.create_edit_timebased_recurrence(r),
        CreateEditRecurrenceCode::FailureEditingRecurrenceDoesntExist
    );
    assert_eq!(repo.get_state_version(), 0);
}

#[test]
fn spawning_materializes_until_past_cur_time() {
    let mut repo = InMemoryRepo::new();
    assert_eq!(
        repo.create_edit_timebased_recurrence(tb_rec(0, 10_000, 1000, 500)),
        CreateEditRecurrenceCode::Success
    );
    assert!(repo.generate_goals_from_recurrence(1, 2500));
    let goals = repo.get_timebased_goals(0, 0, &[]);
    let starts: Vec<u128> = goals.iter().map(|g| g.goal.start_unix_timestamp).collect();
    assert_eq!(starts, vec![0, 1000, 2000, 3000]);
    for g in &goals {
        assert_eq!(g.goal.end_unix_timestamp, g.goal.start_unix_timestamp + 500);
        assert_eq!(g.goal.recurrence_id, 1);
        assert_eq!(g.goal.completion_status, GoalCompletionStatus::Incomplete);
        assert_eq!(g.goal.goal_name, "daily");
    }
    let ids: Vec<u128> = goals.iter().map(|g| g.goal.goal_id).collect();
    assert_eq!(ids, vec![2, 3, 4, 5]);
    let recs = repo.get_timebased_recurrences(0, 0);
    assert_eq!(recs[0].recurrence.latest_spawned_start_time_ms, 3000);
    // One version bump for the whole call.
    assert_eq!(repo.get_state_version(), 2);
}

#[test]
fn spawning_resumes_from_recorded_progress() {
    let mut repo = InMemoryRepo::new();
    assert_eq!(
        repo.create_edit_timebased_recurrence(tb_rec(0, 10_000, 1000, 500)),
        CreateEditRecurrenceCode::Success
    );
    assert!(repo.generate_goals_from_recurrence(1, 2500));
    // Progress never decreases: a second call at an earlier time spawns
    // exactly the one goal past it, starting from the recorded progress.
    assert!(repo.generate_goals_from_recurrence(1, 100));
    let goals = repo.get_timebased_goals(0, 0, &[]);
    let starts: Vec<u128> = goals.iter().map(|g| g.goal.start_unix_timestamp).collect();
    assert_eq!(starts, vec![0, 1000, 2000, 3000, 3000]);
    let recs = repo.get_timebased_recurrences(0, 0);
    assert_eq!(recs[0].recurrence.latest_spawned_start_time_ms, 3000);
}

#[test]
fn spawning_never_passes_the_end_bound() {
    let mut repo = InMemoryRepo::new();
    assert_eq!(
        repo.create_edit_timebased_recurrence(tb_rec(0, 1500, 1000, 500)),
        CreateEditRecurrenceCode::Success
    );
    assert!(repo.generate_goals_from_recurrence(1, 9000));
    let goals = repo.get_timebased_goals(0, 0, &[]);
    let starts: Vec<u128> = goals.iter().map(|g| g.goal.start_unix_timestamp).collect();
    assert_eq!(starts, vec![0, 1000]);
}

#[test]
fn zero_end_stops_spawning_at_once_for_positive_start() {
    // An end of 0 is documented as "indefinite" but the walk never passes
    // the end bound, so nothing is spawned when the start is positive.
    let mut repo = InMemoryRepo::new();
    assert_eq!(
        repo.create_edit_timebased_recurrence(tb_rec(5, 0, 1000, 500)),
        CreateEditRecurrenceCode::Success
    );
    assert!(repo.generate_goals_from_recurrence(1, 9000));
    assert_eq!(repo.get_timebased_goals(0, 0, &[]).len(), 0);
    let recs = repo.get_timebased_recurrences(0, 0);
    assert_eq!(recs[0].recurrence.latest_spawned_start_time_ms, 5);
    // The call itself still counts as a mutation.
    assert_eq!(repo.get_state_version(), 2);
}

#[test]
fn spawning_a_missing_recurrence_fails() {
    let mut repo = InMemoryRepo::new();
    assert!(!repo.generate_goals_from_recurrence(9, 100));
    assert_eq!(repo.get_state_version(), 0);
}

#[test]
fn taskbased_spawning_copies_the_checklist() {
    let mut repo = InMemoryRepo::new();
    assert_eq!(
        repo.create_edit_taskbased_recurrence(task_rec(0, 3000, 2000, 100)),
        CreateEditRecurrenceCode::Success
    );
    assert!(repo.generate_goals_from_recurrence(1, 500));
    let goals = repo.get_taskbased_goals(0, 0, &[]);
    let starts: Vec<u128> = goals.iter().map(|g| g.goal.start_unix_timestamp).collect();
    assert_eq!(starts, vec![0, 2000]);
    assert_eq!(goals[0].criteria.len(), 1);
    assert_eq!(goals[0].criteria[0].description, "tidy");
    assert_eq!(goals[1].goal.end_unix_timestamp, 2100);
}

#[test]
fn edit_preserves_spawn_progress() {
    let mut repo = InMemoryRepo::new();
    assert_eq!(
        repo.create_edit_timebased_recurrence(tb_rec(0, 10_000, 1000, 500)),
        CreateEditRecurrenceCode::Success
    );
    assert!(repo.generate_goals_from_recurrence(1, 2500));
    let mut edited = tb_rec(0, 20_000, 2000, 900);
    edited.recurrence.recurrence_id = 1;
    edited.recurrence.latest_spawned_start_time_ms = 0;
    assert_eq!(
        repo.create_edit_timebased_recurrence(edited),
        CreateEditRecurrenceCode::Success
    );
    let recs = repo.get_timebased_recurrences(0, 0);
    assert_eq!(recs.len(), 1);
    assert_eq!(recs[0].recurrence.latest_spawned_start_time_ms, 3000);
    assert_eq!(recs[0].recurrence.spawn_interval_ms, 2000);
    assert_eq!(recs[0].recurrence.end_unix_timestamp, 20_000);
}

#[test]
fn delete_recurrence_erases_it() {
    let mut repo = InMemoryRepo::new();
    assert_eq!(
        repo.create_edit_timebased_recurrence(tb_rec(0, 10_000, 1000, 500)),
        CreateEditRecurrenceCode::Success
    );
    assert!(repo.delete_recurrence(1));
    assert!(!repo.does_recurrence_exist(1));
    assert_eq!(repo.get_timebased_recurrences(0, 0).len(), 0);
    assert!(!repo.delete_recurrence(1));
    assert_eq!(repo.get_state_version(), 2);
}

#[test]
fn spawned_goals_can_be_resolved_like_any_other() {
    let mut repo = InMemoryRepo::new();
    assert_eq!(repo.create_edit_timebased_goal(spawnable_goal()), CreateEditGoalCode::Success);
    assert_eq!(
        repo.create_edit_taskbased_recurrence(task_rec(0, 100, 1000, 50)),
        CreateEditRecurrenceCode::Success
    );
    assert!(repo.generate_goals_from_recurrence(2, 10));
    let goals = repo.get_taskbased_goals(0, 0, &[]);
    assert_eq!(goals.len(), 1);
    let spawned_id = goals[0].goal.goal_id;
    assert_eq!(
        repo.succeed_goal(spawned_id),
        goal_store::codes::GoalDeathCode::Success
    );
}

fn spawnable_goal() -> TimebasedGoal {
    TimebasedGoal {
        goal: template_header("solo"),
        criteria: TimebasedCriteria {
            time_ms: 1,
            link_id: 0,
            task: "t".to_string(),
            feed: false,
            dedicated_time_ms: 0,
        },
    }
}
