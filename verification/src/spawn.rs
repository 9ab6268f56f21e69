//! The recurrence spawner: materializes concrete goals from a recurrence's
//! template, walking start times from the recorded spawn progress in steps
//! of the spawn interval, never past the recurrence's end bound, and
//! stopping right after the first start beyond the requested time.

use vstd::prelude::*;
use crate::goal::{clone_taskbased_goal, clone_timebased_goal, GoalView};
use crate::goal::{TaskbasedGoalView, TimebasedGoalView};
use crate::recurrence::{Recurrence, TaskbasedRecurrenceView, TimebasedRecurrenceView};
use crate::state::RepoView;
use crate::store::InMemoryRepo;

verus! {

/// The start times the spawn loop visits, in order: beginning at `next`,
/// stepping by `interval`, never past `end`, and ending with the first
/// start beyond `cur` (exactly one such start is produced).
pub open spec fn spawn_starts(next: int, end: int, interval: int, cur: int) -> Seq<int>
    decreases (if next > cur {
        0int
    } else {
        cur - next + 1
    })
        when interval >= 1
{
    if next > end {
        Seq::empty()
    } else if next > cur {
        seq![next]
    } else {
        seq![next] + spawn_starts(next + interval, end, interval, cur)
    }
}

/// The first start time a spawn walk considers: the recorded spawn
/// progress, or the recurrence's own start if that is later.
pub open spec fn first_spawn_start(rec: Recurrence) -> int {
    if rec.latest_spawned_start_time_ms > rec.start_unix_timestamp {
        rec.latest_spawned_start_time_ms as int
    } else {
        rec.start_unix_timestamp as int
    }
}

/// The start times one call of the spawner visits for this recurrence.
pub open spec fn rec_spawn_starts(rec: Recurrence, cur: int) -> Seq<int> {
    spawn_starts(
        first_spawn_start(rec),
        rec.end_unix_timestamp as int,
        rec.spawn_interval_ms as int,
        cur,
    )
}

/// Every visited start time lies between the walk's first start and the
/// recurrence's end bound.
pub proof fn lemma_spawn_starts_bounds(next: int, end: int, interval: int, cur: int)
    requires
        interval >= 1,
    ensures
        forall|k: int|
            0 <= k < spawn_starts(next, end, interval, cur).len() ==> next <= #[trigger] spawn_starts(
                next,
                end,
                interval,
                cur,
            )[k] <= end,
    decreases (if next > cur {
        0int
    } else {
        cur - next + 1
    }),
{
    if next > end {
    } else if next > cur {
    } else {
        lemma_spawn_starts_bounds(next + interval, end, interval, cur);
        let rest = spawn_starts(next + interval, end, interval, cur);
        let whole = spawn_starts(next, end, interval, cur);
        assert(whole == seq![next] + rest);
        assert forall|k: int| 0 <= k < whole.len() implies next <= #[trigger] whole[k] <= end by {
            if k == 0 {
                assert(whole[0] == next);
            } else {
                assert(whole[k] == rest[k - 1]);
            }
        }
    }
}

/// One goal materialized from a time-based template: fresh id, the spawning
/// recurrence recorded, the bound `[start, start + duration]`, everything
/// else (status included) copied from the template.
pub open spec fn spawned_tb_goal(
    template: TimebasedGoalView,
    rec_id: u128,
    id: u128,
    start: u128,
    duration: u128,
) -> TimebasedGoalView {
    TimebasedGoalView {
        goal: GoalView {
            goal_id: id,
            recurrence_id: rec_id,
            start_unix_timestamp: start,
            end_unix_timestamp: (start + duration) as u128,
            ..template.goal
        },
        criteria: template.criteria,
    }
}

/// The goals one spawn call appends from a time-based template, with
/// consecutive ids from `first_id`.
pub open spec fn spawned_tb_goals(
    template: TimebasedGoalView,
    rec_id: u128,
    first_id: u128,
    starts: Seq<int>,
    duration: u128,
) -> Seq<TimebasedGoalView> {
    Seq::new(
        starts.len(),
        |k: int| spawned_tb_goal(template, rec_id, (first_id + k) as u128, starts[k] as u128, duration),
    )
}

/// One goal materialized from a task-based template.
pub open spec fn spawned_task_goal(
    template: TaskbasedGoalView,
    rec_id: u128,
    id: u128,
    start: u128,
    duration: u128,
) -> TaskbasedGoalView {
    TaskbasedGoalView {
        goal: GoalView {
            goal_id: id,
            recurrence_id: rec_id,
            start_unix_timestamp: start,
            end_unix_timestamp: (start + duration) as u128,
            ..template.goal
        },
        criteria: template.criteria,
    }
}

/// The goals one spawn call appends from a task-based template.
pub open spec fn spawned_task_goals(
    template: TaskbasedGoalView,
    rec_id: u128,
    first_id: u128,
    starts: Seq<int>,
    duration: u128,
) -> Seq<TaskbasedGoalView> {
    Seq::new(
        starts.len(),
        |k: int|
            spawned_task_goal(template, rec_id, (first_id + k) as u128, starts[k] as u128, duration),
    )
}

impl RepoView {
    /// The state after one spawn call on the time-based recurrence
    /// `rec_id`: the materialized goals are appended in visiting order with
    /// consecutive fresh ids, the recurrence's spawn progress advances to
    /// the last visited start (if any), and the version advances once.
    pub open spec fn with_spawned_tb(self, rec_id: u128, cur_time: u128) -> RepoView {
        let i = self.tb_rec_index(rec_id);
        let tr = self.timebased_recurrences[i];
        let rec = tr.recurrence;
        let starts = rec_spawn_starts(rec, cur_time as int);
        let new_latest = if starts.len() == 0 {
            rec.latest_spawned_start_time_ms
        } else {
            starts.last() as u128
        };
        RepoView {
            next_free_id: (self.next_free_id + starts.len()) as u128,
            timebased_goals: self.timebased_goals + spawned_tb_goals(
                tr.timebased_goal,
                rec_id,
                (self.next_free_id + 1) as u128,
                starts,
                rec.goal_duration_ms,
            ),
            timebased_recurrences: self.timebased_recurrences.update(
                i,
                TimebasedRecurrenceView {
                    timebased_goal: tr.timebased_goal,
                    recurrence: Recurrence { latest_spawned_start_time_ms: new_latest, ..rec },
                },
            ),
            version_number: (self.version_number + 1) as u128,
            ..self
        }
    }

    /// The state after one spawn call on the task-based recurrence
    /// `rec_id`.
    pub open spec fn with_spawned_task(self, rec_id: u128, cur_time: u128) -> RepoView {
        let i = self.task_rec_index(rec_id);
        let tr = self.taskbased_recurrences[i];
        let rec = tr.recurrence;
        let starts = rec_spawn_starts(rec, cur_time as int);
        let new_latest = if starts.len() == 0 {
            rec.latest_spawned_start_time_ms
        } else {
            starts.last() as u128
        };
        RepoView {
            next_free_id: (self.next_free_id + starts.len()) as u128,
            taskbased_goals: self.taskbased_goals + spawned_task_goals(
                tr.taskbased_goal,
                rec_id,
                (self.next_free_id + 1) as u128,
                starts,
                rec.goal_duration_ms,
            ),
            taskbased_recurrences: self.taskbased_recurrences.update(
                i,
                TaskbasedRecurrenceView {
                    taskbased_goal: tr.taskbased_goal,
                    recurrence: Recurrence { latest_spawned_start_time_ms: new_latest, ..rec },
                },
            ),
            version_number: (self.version_number + 1) as u128,
            ..self
        }
    }

    /// The resource bounds a spawn call needs from the machine: the walk
    /// steps forward, the spawned bounds and the walk arithmetic fit in the
    /// integer type, and the allocator has headroom for every spawned id.
    ///
    /// A zero interval is excluded because the walk then never advances:
    /// with a live window (first start at most both the end bound and
    /// `cur_time`) it repeats the same start forever. The exclusion also
    /// covers the two degenerate zero-interval cases whose walk would stop
    /// on its own (first start already past the end bound, or already past
    /// `cur_time`).
    pub open spec fn spawn_fits(rec: Recurrence, next_free_id: u128, cur_time: u128) -> bool {
        &&& rec.spawn_interval_ms >= 1
        &&& cur_time + rec.spawn_interval_ms <= u128::MAX
        &&& rec.end_unix_timestamp + rec.goal_duration_ms <= u128::MAX
        &&& next_free_id + rec.end_unix_timestamp + 2 <= u128::MAX
    }
}

impl InMemoryRepo {
    /// Spawn goals from the time-based recurrence stored at `idx`.
    fn spawn_timebased(&mut self, rec_id: u128, idx: usize, cur_time: u128)
        requires
            old(self)@.wf(),
            old(self)@.version_number < u128::MAX,
            idx < old(self)@.timebased_recurrences.len(),
            old(self)@.timebased_recurrences[idx as int].recurrence.recurrence_id == rec_id,
            RepoView::spawn_fits(
                old(self)@.timebased_recurrences[idx as int].recurrence,
                old(self)@.next_free_id,
                cur_time,
            ),
        ensures
            final(self)@.wf(),
            final(self)@ == old(self)@.with_spawned_tb(rec_id, cur_time),
    {
        let ghost pre = self@;
        proof {
            pre.lemma_tb_rec_index_unique(rec_id, idx as int);
        }
        self.version_number = self.version_number + 1;
        let rec = self.timebased_recurrences[idx].recurrence;
        let ghost starts = rec_spawn_starts(rec, cur_time as int);
        let ghost template = pre.timebased_recurrences[idx as int].timebased_goal;
        let ghost nfi0 = pre.next_free_id;
        let mut next: u128 = if rec.latest_spawned_start_time_ms > rec.start_unix_timestamp {
            rec.latest_spawned_start_time_ms
        } else {
            rec.start_unix_timestamp
        };
        let ghost first = first_spawn_start(rec);
        let mut last: u128 = 0;
        let mut any: bool = false;
        let ghost mut k: int = 0;
        proof {
            assert(starts.skip(0) =~= starts);
        }
        loop
            invariant_except_break
                self@.wf(),
                pre.wf(),
                idx < pre.timebased_recurrences.len(),
                rec == pre.timebased_recurrences[idx as int].recurrence,
                template == pre.timebased_recurrences[idx as int].timebased_goal,
                starts == rec_spawn_starts(rec, cur_time as int),
                RepoView::spawn_fits(rec, nfi0, cur_time),
                nfi0 == pre.next_free_id,
                first == first_spawn_start(rec),
                0 <= k <= starts.len(),
                starts.skip(k) == spawn_starts(
                    next as int,
                    rec.end_unix_timestamp as int,
                    rec.spawn_interval_ms as int,
                    cur_time as int,
                ),
                next >= first,
                k <= next - first + 1,
                self@.next_free_id == nfi0 + k,
                self@.timebased_goals == pre.timebased_goals + spawned_tb_goals(
                    template,
                    rec_id,
                    (nfi0 + 1) as u128,
                    starts.take(k),
                    rec.goal_duration_ms,
                ),
                self@.taskbased_goals == pre.taskbased_goals,
                self@.timebased_recurrences == pre.timebased_recurrences,
                self@.taskbased_recurrences == pre.taskbased_recurrences,
                self@.version_number == (pre.version_number + 1) as u128,
                any ==> k >= 1 && last as int == starts[k - 1],
                !any ==> k == 0,
            ensures
                self@.wf(),
                k == starts.len(),
                any <==> starts.len() > 0,
                any ==> last as int == starts.last(),
                self@.next_free_id == nfi0 + k,
                self@.timebased_goals == pre.timebased_goals + spawned_tb_goals(
                    template,
                    rec_id,
                    (nfi0 + 1) as u128,
                    starts.take(k),
                    rec.goal_duration_ms,
                ),
                self@.taskbased_goals == pre.taskbased_goals,
                self@.timebased_recurrences == pre.timebased_recurrences,
                self@.taskbased_recurrences == pre.taskbased_recurrences,
                self@.version_number == (pre.version_number + 1) as u128,
            decreases (if next > cur_time {
                0int
            } else {
                cur_time as int - next as int + 1
            }),
        {
            if next > rec.end_unix_timestamp {
                proof {
                    assert(starts.skip(k).len() == 0);
                    assert(k == starts.len());
                }
                break;
            }
            let ghost s0 = self@;
            let next_id = self.next_fresh_id();
            let mut g = clone_timebased_goal(&self.timebased_recurrences[idx].timebased_goal);
            g.goal.start_unix_timestamp = next;
            g.goal.end_unix_timestamp = next + rec.goal_duration_ms;
            g.goal.goal_id = next_id;
            g.goal.recurrence_id = rec_id;
            let ghost gv = g@;
            self.timebased_goals.push(g);
            proof {
                let e = rec.end_unix_timestamp as int;
                let iv = rec.spawn_interval_ms as int;
                let c = cur_time as int;
                let tail = spawn_starts(next as int, e, iv, c);
                if next as int > c {
                    assert(tail =~= seq![next as int]);
                } else {
                    assert(tail == seq![next as int] + spawn_starts(next as int + iv, e, iv, c));
                }
                assert(tail.len() >= 1);
                assert(tail[0] == next as int);
                assert(k < starts.len());
                assert(starts[k] == starts.skip(k)[0]);
                assert(starts[k] == next as int);
                assert(gv =~= spawned_tb_goal(template, rec_id, next_id, next, rec.goal_duration_ms));
                assert(starts.take(k + 1) =~= starts.take(k).push(starts[k]));
                assert(spawned_tb_goals(
                    template,
                    rec_id,
                    (nfi0 + 1) as u128,
                    starts.take(k + 1),
                    rec.goal_duration_ms,
                ) =~= spawned_tb_goals(
                    template,
                    rec_id,
                    (nfi0 + 1) as u128,
                    starts.take(k),
                    rec.goal_duration_ms,
                ).push(gv));
                assert(self@.timebased_goals =~= s0.timebased_goals.push(gv));
                crate::seq_extra::lemma_add_push(
                    pre.timebased_goals,
                    spawned_tb_goals(
                        template,
                        rec_id,
                        (nfi0 + 1) as u128,
                        starts.take(k),
                        rec.goal_duration_ms,
                    ),
                    gv,
                );
                s0.lemma_push_tb_goal_wf(self@, gv);
                k = k + 1;
            }
            last = next;
            any = true;
            if next > cur_time {
                proof {
                    assert(starts.skip(k - 1).len() == 1);
                    assert(k == starts.len());
                }
                break;
            }
            proof {
                let e = rec.end_unix_timestamp as int;
                let iv = rec.spawn_interval_ms as int;
                let c = cur_time as int;
                assert(spawn_starts(next as int, e, iv, c) == seq![next as int] + spawn_starts(
                    next as int + iv,
                    e,
                    iv,
                    c,
                ));
                assert(starts.skip(k) =~= starts.skip(k - 1).skip(1));
                assert((seq![next as int] + spawn_starts(next as int + iv, e, iv, c)).skip(1)
                    =~= spawn_starts(next as int + iv, e, iv, c));
            }
            next = next + rec.spawn_interval_ms;
        }
        if any {
            let mut tr = self.timebased_recurrences.remove(idx);
            tr.recurrence.latest_spawned_start_time_ms = last;
            let ghost trv = tr@;
            self.timebased_recurrences.insert(idx, tr);
            proof {
                assert(self@.timebased_recurrences =~= pre.timebased_recurrences.update(
                    idx as int,
                    trv,
                ));
                let ghost loop_end = RepoView {
                    timebased_recurrences: pre.timebased_recurrences,
                    ..self@
                };
                loop_end.lemma_update_tb_rec_wf(idx as int, trv);
                assert(self@ =~= (RepoView {
                    timebased_recurrences: loop_end.timebased_recurrences.update(idx as int, trv),
                    ..loop_end
                }));
                assert(self@ =~= pre.with_spawned_tb(rec_id, cur_time));
            }
        } else {
            proof {
                let i = pre.tb_rec_index(rec_id);
                let tr = pre.timebased_recurrences[i];
                assert(pre.timebased_recurrences.update(
                    i,
                    TimebasedRecurrenceView {
                        timebased_goal: tr.timebased_goal,
                        recurrence: Recurrence {
                            latest_spawned_start_time_ms: rec.latest_spawned_start_time_ms,
                            ..rec
                        },
                    },
                ) =~= pre.timebased_recurrences);
                assert(starts.take(0) =~= Seq::<int>::empty());
                assert(spawned_tb_goals(
                    template,
                    rec_id,
                    (nfi0 + 1) as u128,
                    starts.take(0),
                    rec.goal_duration_ms,
                ) =~= Seq::<TimebasedGoalView>::empty());
                assert(pre.timebased_goals + Seq::<TimebasedGoalView>::empty()
                    =~= pre.timebased_goals);
                assert(self@ =~= pre.with_spawned_tb(rec_id, cur_time));
            }
        }
    }

    /// Spawn goals from the task-based recurrence stored at `idx`.
    fn spawn_taskbased(&mut self, rec_id: u128, idx: usize, cur_time: u128)
        requires
            old(self)@.wf(),
            old(self)@.version_number < u128::MAX,
            idx < old(self)@.taskbased_recurrences.len(),
            old(self)@.taskbased_recurrences[idx as int].recurrence.recurrence_id == rec_id,
            RepoView::spawn_fits(
                old(self)@.taskbased_recurrences[idx as int].recurrence,
                old(self)@.next_free_id,
                cur_time,
            ),
        ensures
            final(self)@.wf(),
            final(self)@ == old(self)@.with_spawned_task(rec_id, cur_time),
    {
        let ghost pre = self@;
        proof {
            pre.lemma_task_rec_index_unique(rec_id, idx as int);
        }
        self.version_number = self.version_number + 1;
        let rec = self.taskbased_recurrences[idx].recurrence;
        let ghost starts = rec_spawn_starts(rec, cur_time as int);
        let ghost template = pre.taskbased_recurrences[idx as int].taskbased_goal;
        let ghost nfi0 = pre.next_free_id;
        let mut next: u128 = if rec.latest_spawned_start_time_ms > rec.start_unix_timestamp {
            rec.latest_spawned_start_time_ms
        } else {
            rec.start_unix_timestamp
        };
        let ghost first = first_spawn_start(rec);
        let mut last: u128 = 0;
        let mut any: bool = false;
        let ghost mut k: int = 0;
        proof {
            assert(starts.skip(0) =~= starts);
        }
        loop
            invariant_except_break
                self@.wf(),
                pre.wf(),
                idx < pre.taskbased_recurrences.len(),
                rec == pre.taskbased_recurrences[idx as int].recurrence,
                template == pre.taskbased_recurrences[idx as int].taskbased_goal,
                starts == rec_spawn_starts(rec, cur_time as int),
                RepoView::spawn_fits(rec, nfi0, cur_time),
                nfi0 == pre.next_free_id,
                first == first_spawn_start(rec),
                0 <= k <= starts.len(),
                starts.skip(k) == spawn_starts(
                    next as int,
                    rec.end_unix_timestamp as int,
                    rec.spawn_interval_ms as int,
                    cur_time as int,
                ),
                next >= first,
                k <= next - first + 1,
                self@.next_free_id == nfi0 + k,
                self@.taskbased_goals == pre.taskbased_goals + spawned_task_goals(
                    template,
                    rec_id,
                    (nfi0 + 1) as u128,
                    starts.take(k),
                    rec.goal_duration_ms,
                ),
                self@.timebased_goals == pre.timebased_goals,
                self@.timebased_recurrences == pre.timebased_recurrences,
                self@.taskbased_recurrences == pre.taskbased_recurrences,
                self@.version_number == (pre.version_number + 1) as u128,
                any ==> k >= 1 && last as int == starts[k - 1],
                !any ==> k == 0,
            ensures
                self@.wf(),
                k == starts.len(),
                any <==> starts.len() > 0,
                any ==> last as int == starts.last(),
                self@.next_free_id == nfi0 + k,
                self@.taskbased_goals == pre.taskbased_goals + spawned_task_goals(
                    template,
                    rec_id,
                    (nfi0 + 1) as u128,
                    starts.take(k),
                    rec.goal_duration_ms,
                ),
                self@.timebased_goals == pre.timebased_goals,
                self@.timebased_recurrences == pre.timebased_recurrences,
                self@.taskbased_recurrences == pre.taskbased_recurrences,
                self@.version_number == (pre.version_number + 1) as u128,
            decreases (if next > cur_time {
                0int
            } else {
                cur_time as int - next as int + 1
            }),
        {
            if next > rec.end_unix_timestamp {
                proof {
                    assert(starts.skip(k).len() == 0);
                    assert(k == starts.len());
                }
                break;
            }
            let ghost s0 = self@;
            let next_id = self.next_fresh_id();
            let mut g = clone_taskbased_goal(&self.taskbased_recurrences[idx].taskbased_goal);
            g.goal.start_unix_timestamp = next;
            g.goal.end_unix_timestamp = next + rec.goal_duration_ms;
            g.goal.goal_id = next_id;
            g.goal.recurrence_id = rec_id;
            let ghost gv = g@;
            self.taskbased_goals.push(g);
            proof {
                let e = rec.end_unix_timestamp as int;
                let iv = rec.spawn_interval_ms as int;
                let c = cur_time as int;
                let tail = spawn_starts(next as int, e, iv, c);
                if next as int > c {
                    assert(tail =~= seq![next as int]);
                } else {
                    assert(tail == seq![next as int] + spawn_starts(next as int + iv, e, iv, c));
                }
                assert(tail.len() >= 1);
                assert(tail[0] == next as int);
                assert(k < starts.len());
                assert(starts[k] == starts.skip(k)[0]);
                assert(starts[k] == next as int);
                assert(gv =~= spawned_task_goal(
                    template,
                    rec_id,
                    next_id,
                    next,
                    rec.goal_duration_ms,
                ));
                assert(starts.take(k + 1) =~= starts.take(k).push(starts[k]));
                assert(spawned_task_goals(
                    template,
                    rec_id,
                    (nfi0 + 1) as u128,
                    starts.take(k + 1),
                    rec.goal_duration_ms,
                ) =~= spawned_task_goals(
                    template,
                    rec_id,
                    (nfi0 + 1) as u128,
                    starts.take(k),
                    rec.goal_duration_ms,
                ).push(gv));
                assert(self@.taskbased_goals =~= s0.taskbased_goals.push(gv));
                crate::seq_extra::lemma_add_push(
                    pre.taskbased_goals,
                    spawned_task_goals(
                        template,
                        rec_id,
                        (nfi0 + 1) as u128,
                        starts.take(k),
                        rec.goal_duration_ms,
                    ),
                    gv,
                );
                s0.lemma_push_task_goal_wf(self@, gv);
                k = k + 1;
            }
            last = next;
            any = true;
            if next > cur_time {
                proof {
                    assert(starts.skip(k - 1).len() == 1);
                    assert(k == starts.len());
                }
                break;
            }
            proof {
                let e = rec.end_unix_timestamp as int;
                let iv = rec.spawn_interval_ms as int;
                let c = cur_time as int;
                assert(spawn_starts(next as int, e, iv, c) == seq![next as int] + spawn_starts(
                    next as int + iv,
                    e,
                    iv,
                    c,
                ));
                assert(starts.skip(k) =~= starts.skip(k - 1).skip(1));
                assert((seq![next as int] + spawn_starts(next as int + iv, e, iv, c)).skip(1)
                    =~= spawn_starts(next as int + iv, e, iv, c));
            }
            next = next + rec.spawn_interval_ms;
        }
        if any {
            let mut tr = self.taskbased_recurrences.remove(idx);
            tr.recurrence.latest_spawned_start_time_ms = last;
            let ghost trv = tr@;
            self.taskbased_recurrences.insert(idx, tr);
            proof {
                assert(self@.taskbased_recurrences =~= pre.taskbased_recurrences.update(
                    idx as int,
                    trv,
                ));
                let ghost loop_end = RepoView {
                    taskbased_recurrences: pre.taskbased_recurrences,
                    ..self@
                };
                loop_end.lemma_update_task_rec_wf(idx as int, trv);
                assert(self@ =~= (RepoView {
                    taskbased_recurrences: loop_end.taskbased_recurrences.update(idx as int, trv),
                    ..loop_end
                }));
                assert(self@ =~= pre.with_spawned_task(rec_id, cur_time));
            }
        } else {
            proof {
                let i = pre.task_rec_index(rec_id);
                let tr = pre.taskbased_recurrences[i];
                assert(pre.taskbased_recurrences.update(
                    i,
                    TaskbasedRecurrenceView {
                        taskbased_goal: tr.taskbased_goal,
                        recurrence: Recurrence {
                            latest_spawned_start_time_ms: rec.latest_spawned_start_time_ms,
                            ..rec
                        },
                    },
                ) =~= pre.taskbased_recurrences);
                assert(starts.take(0) =~= Seq::<int>::empty());
                assert(spawned_task_goals(
                    template,
                    rec_id,
                    (nfi0 + 1) as u128,
                    starts.take(0),
                    rec.goal_duration_ms,
                ) =~= Seq::<TaskbasedGoalView>::empty());
                assert(pre.taskbased_goals + Seq::<TaskbasedGoalView>::empty()
                    =~= pre.taskbased_goals);
                assert(self@ =~= pre.with_spawned_task(rec_id, cur_time));
            }
        }
    }

    /// Materialize goals from the recurrence's template: starting at the
    /// recorded spawn progress (or the recurrence's start, if later), one
    /// goal per interval step, each bounded by the template duration, never
    /// past the recurrence's end, and stopping right after the first start
    /// beyond `cur_time`. Returns false, changing nothing, if no recurrence
    /// carries the id; otherwise the version advances once and the
    /// recurrence's spawn progress never decreases.
    pub fn generate_goals_from_recurrence(&mut self, rec_id: u128, cur_time: u128) -> (r: bool)
        requires
            old(self)@.wf(),
            old(self)@.version_number < u128::MAX,
            old(self)@.rec_exists(rec_id) ==> RepoView::spawn_fits(
                old(self)@.rec_of(rec_id),
                old(self)@.next_free_id,
                cur_time,
            ),
        ensures
            final(self)@.wf(),
            r == old(self)@.rec_exists(rec_id),
            !old(self)@.rec_exists(rec_id) ==> *final(self) == *old(self),
            old(self)@.tb_has_rec(rec_id) ==> final(self)@ == old(self)@.with_spawned_tb(
                rec_id,
                cur_time,
            ),
            old(self)@.task_has_rec(rec_id) && !old(self)@.tb_has_rec(rec_id) ==> final(self)@
                == old(self)@.with_spawned_task(rec_id, cur_time),
            old(self)@.rec_exists(rec_id) ==> final(self)@.rec_exists(rec_id) && final(self)@.rec_of(rec_id).latest_spawned_start_time_ms >= old(self)@.rec_of(
                rec_id,
            ).latest_spawned_start_time_ms,
    {
        let ghost pre = self@;
        let (tb_found, idx_tb) = self.index_of_timebased_recurrence(rec_id);
        let (task_found, idx_task) = self.index_of_taskbased_recurrence(rec_id);
        if !tb_found && !task_found {
            return false;
        }
        if tb_found {
            proof {
                pre.lemma_tb_rec_index_unique(rec_id, idx_tb as int);
            }
            self.spawn_timebased(rec_id, idx_tb, cur_time);
            proof {
                let rec = pre.timebased_recurrences[idx_tb as int].recurrence;
                let starts = rec_spawn_starts(rec, cur_time as int);
                lemma_spawn_starts_bounds(
                    first_spawn_start(rec),
                    rec.end_unix_timestamp as int,
                    rec.spawn_interval_ms as int,
                    cur_time as int,
                );
                let new_latest = if starts.len() == 0 {
                    rec.latest_spawned_start_time_ms
                } else {
                    starts.last() as u128
                };
                pre.lemma_rec_of_after_tb_update(
                    self@,
                    idx_tb as int,
                    TimebasedRecurrenceView {
                        timebased_goal: pre.timebased_recurrences[idx_tb as int].timebased_goal,
                        recurrence: Recurrence {
                            latest_spawned_start_time_ms: new_latest,
                            ..rec
                        },
                    },
                );
            }
        } else {
            proof {
                pre.lemma_task_rec_index_unique(rec_id, idx_task as int);
                pre.lemma_rec_not_in_both(rec_id);
            }
            self.spawn_taskbased(rec_id, idx_task, cur_time);
            proof {
                let rec = pre.taskbased_recurrences[idx_task as int].recurrence;
                let starts = rec_spawn_starts(rec, cur_time as int);
                lemma_spawn_starts_bounds(
                    first_spawn_start(rec),
                    rec.end_unix_timestamp as int,
                    rec.spawn_interval_ms as int,
                    cur_time as int,
                );
                let new_latest = if starts.len() == 0 {
                    rec.latest_spawned_start_time_ms
                } else {
                    starts.last() as u128
                };
                pre.lemma_rec_of_after_task_update(
                    self@,
                    idx_task as int,
                    TaskbasedRecurrenceView {
                        taskbased_goal: pre.taskbased_recurrences[idx_task as int].taskbased_goal,
                        recurrence: Recurrence {
                            latest_spawned_start_time_ms: new_latest,
                            ..rec
                        },
                    },
                );
            }
        }
        true
    }
}

} // verus!
