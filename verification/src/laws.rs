//! Store-wide laws. Most guarantees are stated directly on the operations'
//! contracts (containment and shrink protection on create/edit, resolution
//! gating on succeed/fail/delete, toggle idempotence on the criteria calls,
//! version and spawn-progress monotonicity on every mutator); this module
//! states the one that is a property of every well-formed state.

use vstd::prelude::*;
use crate::goal::GoalCompletionStatus;
use crate::seq_extra::lemma_filter_empty_iff;
use crate::state::{child_pass, children_matching, is_incomplete_child, task_headers, tb_headers,
    RepoView};

verus! {

/// Law: the two goal collections are disjoint. In every well-formed store
/// state — and every operation both requires and re-establishes
/// well-formedness — no goal id is stored in the time-based and the
/// task-based collection at once.
pub proof fn lemma_goal_collections_disjoint(v: RepoView)
    requires
        v.wf(),
    ensures
        forall|id: u128| !(#[trigger] v.tb_has_goal(id) && v.task_has_goal(id)),
{
    assert forall|id: u128| !(#[trigger] v.tb_has_goal(id) && v.task_has_goal(id)) by {
        v.lemma_goal_not_in_both(id);
    }
}

/// Law: the resolution gate agrees with the subgoal query. A goal has an
/// incomplete immediate subgoal — the condition under which `succeed_goal`,
/// `fail_goal` and `delete_goal` refuse to resolve it — exactly when
/// `get_num_immediate_subgoals` filtered to the incomplete status counts at
/// least one child.
pub proof fn lemma_gate_matches_subgoal_query(v: RepoView, id: u128)
    ensures
        v.has_incomplete_subgoal(id) <==> children_matching(
            tb_headers(v.timebased_goals),
            id,
            seq![GoalCompletionStatus::Incomplete],
        ).len() + children_matching(
            task_headers(v.taskbased_goals),
            id,
            seq![GoalCompletionStatus::Incomplete],
        ).len() > 0,
{
    let filter = seq![GoalCompletionStatus::Incomplete];
    let p = child_pass(id, filter);
    let tb_hs = tb_headers(v.timebased_goals);
    let task_hs = task_headers(v.taskbased_goals);
    assert forall|st: GoalCompletionStatus| filter.contains(st) <==> st
        is Incomplete by {
        if st is Incomplete {
            assert(filter[0] == st);
        }
        if filter.contains(st) {
            let j = choose|j: int| 0 <= j < filter.len() && filter[j] == st;
            assert(j == 0);
        }
    }
    assert forall|i: int| 0 <= i < tb_hs.len() implies (#[trigger] p(tb_hs[i])
        == is_incomplete_child(v.timebased_goals[i].goal, id)) by {
        assert(tb_hs[i] == v.timebased_goals[i].goal);
    }
    assert forall|i: int| 0 <= i < task_hs.len() implies (#[trigger] p(task_hs[i])
        == is_incomplete_child(v.taskbased_goals[i].goal, id)) by {
        assert(task_hs[i] == v.taskbased_goals[i].goal);
    }
    lemma_filter_empty_iff(tb_hs, p);
    lemma_filter_empty_iff(task_hs, p);
    if v.has_incomplete_subgoal(id) {
        if exists|i: int|
            0 <= i < v.timebased_goals.len() && is_incomplete_child(
                (#[trigger] v.timebased_goals[i]).goal,
                id,
            ) {
            let i = choose|i: int|
                0 <= i < v.timebased_goals.len() && is_incomplete_child(
                    (#[trigger] v.timebased_goals[i]).goal,
                    id,
                );
            assert(p(tb_hs[i]));
            assert(tb_hs.filter(p).len() > 0);
        } else {
            let i = choose|i: int|
                0 <= i < v.taskbased_goals.len() && is_incomplete_child(
                    (#[trigger] v.taskbased_goals[i]).goal,
                    id,
                );
            assert(p(task_hs[i]));
            assert(task_hs.filter(p).len() > 0);
        }
    }
    if tb_hs.filter(p).len() > 0 {
        let i = choose|i: int| 0 <= i < tb_hs.len() && #[trigger] p(tb_hs[i]);
        assert(is_incomplete_child(v.timebased_goals[i].goal, id));
        assert(v.has_incomplete_subgoal(id));
    }
    if task_hs.filter(p).len() > 0 {
        let i = choose|i: int| 0 <= i < task_hs.len() && #[trigger] p(task_hs[i]);
        assert(is_incomplete_child(v.taskbased_goals[i].goal, id));
        assert(v.has_incomplete_subgoal(id));
    }
}

} // verus!
