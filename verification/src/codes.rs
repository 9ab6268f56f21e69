//! Result codes returned by the store's fallible operations. Expected
//! validation failures are reported through these closed enumerations,
//! never through a panic.

use vstd::prelude::*;

verus! {

/// Outcome of creating or editing a goal.
#[derive(PartialEq, Eq, Structural, Copy, Clone, Debug)]
pub enum CreateEditGoalCode {
    Success,
    /// The goal names a parent and its start lies outside the parent's bound.
    FailureSubgoalOutsideParentTimebound,
    /// The new bound would leave an incomplete immediate subgoal outside it.
    FailureNewTimeboundSmallerThanSubgoals,
    /// The edited id belongs to a goal of the other variant.
    FailureEditingGoalOfIncorrectType,
    /// No stored goal carries the edited id.
    FailureEditingGoalDoesntExist,
}

/// Outcome of creating or editing a recurrence.
#[derive(PartialEq, Eq, Structural, Copy, Clone, Debug)]
pub enum CreateEditRecurrenceCode {
    Success,
    /// No stored recurrence carries the edited id.
    FailureEditingRecurrenceDoesntExist,
}

/// Outcome of resolving a goal as succeeded or failed.
#[derive(PartialEq, Eq, Structural, Copy, Clone, Debug)]
pub enum GoalDeathCode {
    Success,
    /// At least one immediate subgoal is still incomplete.
    FailureSubgoalsNotAllDead,
    /// No stored goal carries the id.
    FailureGoalDoesntExist,
}

/// Outcome of fetching a goal by id.
#[derive(PartialEq, Eq, Structural, Copy, Clone, Debug)]
pub enum GetGoalCode {
    Success,
    /// The id belongs to a goal of the other variant.
    FailureGoalIncorrectType,
    /// No stored goal carries the id.
    FailureGoalDoesntExist,
}

/// Outcome of deleting a goal.
#[derive(PartialEq, Eq, Structural, Copy, Clone, Debug)]
pub enum GoalDeleteCode {
    Success,
    /// At least one immediate subgoal is still incomplete.
    FailureGoalHasSubgoals,
    /// No stored goal carries the id.
    FailureGoalDoesntExist,
}

/// Outcome of checking or unchecking one task-based criterion.
#[derive(PartialEq, Eq, Structural, Copy, Clone, Debug)]
pub enum CheckUncheckTaskbasedCriteriaCode {
    /// The criterion's checked flag was flipped.
    SuccessCriteriaToggled,
    /// The criterion already held the requested state; nothing changed.
    SuccessCriteriaAlreadyInThisState,
    /// The index lies beyond the goal's criteria list.
    FailureCriteriaIndexOutOfBounds,
    /// No stored goal carries the id.
    FailureGoalDoesntExist,
    /// The id belongs to a time-based goal, which has no criteria list.
    FailureGoalIsTimebased,
}

} // verus!
