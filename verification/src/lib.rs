//! An in-memory store for hierarchical, time-bounded goals and the
//! recurrences that spawn them on a schedule.
//!
//! The store owns two disjoint collections of goals (time-based and
//! task-based) and two collections of recurrences. It enforces structural
//! invariants — a subgoal's start must lie inside its parent's bound, and a
//! goal may only resolve once every incomplete immediate subgoal is resolved —
//! and exposes filtered queries by time interval and completion status. A
//! version counter strictly increases on every successful mutation so that a
//! caller can cheaply detect change.

pub mod api;
pub mod bounds;
pub mod codes;
pub mod edit_goals;
pub mod goal;
pub mod laws;
pub mod mutate;
pub mod queries;
pub mod recurrence;
pub mod recurrence_ops;
pub mod seq_extra;
pub mod spawn;
pub mod state;
pub mod store;
