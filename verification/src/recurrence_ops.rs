//! Creating, editing and deleting recurrence definitions. A sentinel
//! `recurrence_id == 0` creates; any other id edits, replacing the stored
//! definition and template while preserving the recorded spawn progress.
//! Deleting a recurrence erases it outright — unlike goals, recurrences
//! have no terminal status.

use vstd::prelude::*;
use crate::codes::CreateEditRecurrenceCode;
use crate::recurrence::{Recurrence, TaskbasedRecurrence, TimebasedRecurrence};
use crate::recurrence::{TaskbasedRecurrenceView, TimebasedRecurrenceView};
use crate::state::RepoView;
use crate::store::InMemoryRepo;

verus! {

impl InMemoryRepo {
    /// Create (`recurrence_id == 0`) or edit a time-based recurrence.
    ///
    /// A create appends the definition with a fresh id and initializes its
    /// spawn progress to its own start. An edit fails if no recurrence
    /// carries the id; otherwise the stored definition (from whichever
    /// collection holds it) is replaced by the supplied one — moved into
    /// the time-based collection — with `latest_spawned_start_time_ms`
    /// preserved, so spawn progress survives edits.
    pub fn create_edit_timebased_recurrence(&mut self, recurrence_dat: TimebasedRecurrence) -> (r:
        CreateEditRecurrenceCode)
        requires
            old(self)@.wf(),
            old(self)@.version_number < u128::MAX,
            recurrence_dat.recurrence.recurrence_id == 0 ==> old(self)@.next_free_id < u128::MAX,
        ensures
            final(self)@.wf(),
            recurrence_dat.recurrence.recurrence_id == 0 ==> r
                == CreateEditRecurrenceCode::Success && final(self)@ == old(
                self,
            )@.with_created_tb_rec(recurrence_dat@),
            recurrence_dat.recurrence.recurrence_id != 0 && !old(self)@.rec_exists(
                recurrence_dat.recurrence.recurrence_id,
            ) ==> r == CreateEditRecurrenceCode::FailureEditingRecurrenceDoesntExist && *final(self)
                == *old(self),
            recurrence_dat.recurrence.recurrence_id != 0 && old(self)@.rec_exists(
                recurrence_dat.recurrence.recurrence_id,
            ) ==> r == CreateEditRecurrenceCode::Success && final(self)@ == old(
                self,
            )@.with_edited_tb_rec(recurrence_dat@),
    {
        let ghost pre = self@;
        if recurrence_dat.recurrence.recurrence_id == 0 {
            self.version_number = self.version_number + 1;
            let id = self.next_fresh_id();
            let mut rd = recurrence_dat;
            rd.recurrence.recurrence_id = id;
            rd.recurrence.latest_spawned_start_time_ms = rd.recurrence.start_unix_timestamp;
            let ghost rv = rd@;
            self.timebased_recurrences.push(rd);
            proof {
                assert(self@.timebased_recurrences =~= pre.timebased_recurrences.push(rv));
                assert(self@ =~= pre.with_created_tb_rec(recurrence_dat@));
                if pre.rec_exists(id) {
                    pre.lemma_existing_rec_id_in_range(id);
                }
                pre.lemma_push_tb_rec_wf(self@, rv);
            }
            CreateEditRecurrenceCode::Success
        } else {
            let rec_id = recurrence_dat.recurrence.recurrence_id;
            let (tb_found, idx_tb) = self.index_of_timebased_recurrence(rec_id);
            let (task_found, idx_task) = self.index_of_taskbased_recurrence(rec_id);
            if !tb_found && !task_found {
                return CreateEditRecurrenceCode::FailureEditingRecurrenceDoesntExist;
            }
            let prev_latest: u128;
            if task_found {
                proof {
                    pre.lemma_task_rec_index_unique(rec_id, idx_task as int);
                    pre.lemma_rec_not_in_both(rec_id);
                }
                prev_latest =
                self.taskbased_recurrences[idx_task].recurrence.latest_spawned_start_time_ms;
                self.taskbased_recurrences.remove(idx_task);
                proof {
                    assert(self@.taskbased_recurrences =~= pre.taskbased_recurrences.remove(
                        idx_task as int,
                    ));
                    pre.lemma_remove_task_rec_wf(self@, idx_task as int);
                }
            } else {
                proof {
                    pre.lemma_tb_rec_index_unique(rec_id, idx_tb as int);
                }
                prev_latest =
                self.timebased_recurrences[idx_tb].recurrence.latest_spawned_start_time_ms;
                self.timebased_recurrences.remove(idx_tb);
                proof {
                    assert(self@.timebased_recurrences =~= pre.timebased_recurrences.remove(
                        idx_tb as int,
                    ));
                    pre.lemma_remove_tb_rec_wf(self@, idx_tb as int);
                }
            }
            let ghost mid = self@;
            let mut rd = recurrence_dat;
            rd.recurrence.latest_spawned_start_time_ms = prev_latest;
            let ghost rv = rd@;
            self.timebased_recurrences.push(rd);
            self.version_number = self.version_number + 1;
            proof {
                assert(self@.timebased_recurrences =~= mid.timebased_recurrences.push(rv));
                pre.lemma_existing_rec_id_in_range(rec_id);
                mid.lemma_push_tb_rec_wf(self@, rv);
                assert(self@ =~= pre.with_edited_tb_rec(recurrence_dat@));
            }
            CreateEditRecurrenceCode::Success
        }
    }

    /// Create (`recurrence_id == 0`) or edit a task-based recurrence, under
    /// the same contract shape as the time-based entry point: an edit moves
    /// the definition into the task-based collection, preserving spawn
    /// progress.
    pub fn create_edit_taskbased_recurrence(&mut self, recurrence_dat: TaskbasedRecurrence) -> (r:
        CreateEditRecurrenceCode)
        requires
            old(self)@.wf(),
            old(self)@.version_number < u128::MAX,
            recurrence_dat.recurrence.recurrence_id == 0 ==> old(self)@.next_free_id < u128::MAX,
        ensures
            final(self)@.wf(),
            recurrence_dat.recurrence.recurrence_id == 0 ==> r
                == CreateEditRecurrenceCode::Success && final(self)@ == old(
                self,
            )@.with_created_task_rec(recurrence_dat@),
            recurrence_dat.recurrence.recurrence_id != 0 && !old(self)@.rec_exists(
                recurrence_dat.recurrence.recurrence_id,
            ) ==> r == CreateEditRecurrenceCode::FailureEditingRecurrenceDoesntExist && *final(self)
                == *old(self),
            recurrence_dat.recurrence.recurrence_id != 0 && old(self)@.rec_exists(
                recurrence_dat.recurrence.recurrence_id,
            ) ==> r == CreateEditRecurrenceCode::Success && final(self)@ == old(
                self,
            )@.with_edited_task_rec(recurrence_dat@),
    {
        let ghost pre = self@;
        if recurrence_dat.recurrence.recurrence_id == 0 {
            self.version_number = self.version_number + 1;
            let id = self.next_fresh_id();
            let mut rd = recurrence_dat;
            rd.recurrence.recurrence_id = id;
            rd.recurrence.latest_spawned_start_time_ms = rd.recurrence.start_unix_timestamp;
            let ghost rv = rd@;
            self.taskbased_recurrences.push(rd);
            proof {
                assert(self@.taskbased_recurrences =~= pre.taskbased_recurrences.push(rv));
                assert(self@ =~= pre.with_created_task_rec(recurrence_dat@));
                if pre.rec_exists(id) {
                    pre.lemma_existing_rec_id_in_range(id);
                }
                pre.lemma_push_task_rec_wf(self@, rv);
            }
            CreateEditRecurrenceCode::Success
        } else {
            let rec_id = recurrence_dat.recurrence.recurrence_id;
            let (tb_found, idx_tb) = self.index_of_timebased_recurrence(rec_id);
            let (task_found, idx_task) = self.index_of_taskbased_recurrence(rec_id);
            if !tb_found && !task_found {
                return CreateEditRecurrenceCode::FailureEditingRecurrenceDoesntExist;
            }
            let prev_latest: u128;
            if task_found {
                proof {
                    pre.lemma_task_rec_index_unique(rec_id, idx_task as int);
                    pre.lemma_rec_not_in_both(rec_id);
                }
                prev_latest =
                self.taskbased_recurrences[idx_task].recurrence.latest_spawned_start_time_ms;
                self.taskbased_recurrences.remove(idx_task);
                proof {
                    assert(self@.taskbased_recurrences =~= pre.taskbased_recurrences.remove(
                        idx_task as int,
                    ));
                    pre.lemma_remove_task_rec_wf(self@, idx_task as int);
                }
            } else {
                proof {
                    pre.lemma_tb_rec_index_unique(rec_id, idx_tb as int);
                }
                prev_latest =
                self.timebased_recurrences[idx_tb].recurrence.latest_spawned_start_time_ms;
                self.timebased_recurrences.remove(idx_tb);
                proof {
                    assert(self@.timebased_recurrences =~= pre.timebased_recurrences.remove(
                        idx_tb as int,
                    ));
                    pre.lemma_remove_tb_rec_wf(self@, idx_tb as int);
                }
            }
            let ghost mid = self@;
            let mut rd = recurrence_dat;
            rd.recurrence.latest_spawned_start_time_ms = prev_latest;
            let ghost rv = rd@;
            self.taskbased_recurrences.push(rd);
            self.version_number = self.version_number + 1;
            proof {
                assert(self@.taskbased_recurrences =~= mid.taskbased_recurrences.push(rv));
                pre.lemma_existing_rec_id_in_range(rec_id);
                mid.lemma_push_task_rec_wf(self@, rv);
                assert(self@ =~= pre.with_edited_task_rec(recurrence_dat@));
            }
            CreateEditRecurrenceCode::Success
        }
    }

    /// Erase the recurrence with this id from storage. Returns false,
    /// changing nothing, if no recurrence carries the id.
    pub fn delete_recurrence(&mut self, recurrence_id: u128) -> (r: bool)
        requires
            old(self)@.wf(),
            old(self)@.version_number < u128::MAX,
        ensures
            final(self)@.wf(),
            r == old(self)@.rec_exists(recurrence_id),
            !old(self)@.rec_exists(recurrence_id) ==> *final(self) == *old(self),
            old(self)@.rec_exists(recurrence_id) ==> final(self)@ == old(self)@.with_removed_rec(
                recurrence_id,
            ).with_version((old(self)@.version_number + 1) as u128),
    {
        let ghost pre = self@;
        let (tb_found, idx_tb) = self.index_of_timebased_recurrence(recurrence_id);
        let (task_found, idx_task) = self.index_of_taskbased_recurrence(recurrence_id);
        if !tb_found && !task_found {
            return false;
        }
        if tb_found {
            proof {
                pre.lemma_tb_rec_index_unique(recurrence_id, idx_tb as int);
            }
            self.timebased_recurrences.remove(idx_tb);
            proof {
                assert(self@.timebased_recurrences =~= pre.timebased_recurrences.remove(
                    idx_tb as int,
                ));
                pre.lemma_remove_tb_rec_wf(self@, idx_tb as int);
            }
        } else {
            proof {
                pre.lemma_task_rec_index_unique(recurrence_id, idx_task as int);
            }
            self.taskbased_recurrences.remove(idx_task);
            proof {
                assert(self@.taskbased_recurrences =~= pre.taskbased_recurrences.remove(
                    idx_task as int,
                ));
                pre.lemma_remove_task_rec_wf(self@, idx_task as int);
            }
        }
        self.version_number = self.version_number + 1;
        proof {
            assert(self@ =~= pre.with_removed_rec(recurrence_id).with_version(
                (pre.version_number + 1) as u128,
            ));
        }
        true
    }
}

} // verus!
