//! What the service keeps on disk: the upload queue, the upload history
//! and the files refused for upload.

use vstd::prelude::*;

use crate::task::{TaskStatus, UploadTask};
use crate::time::{current_time, Timestamp};

verus! {

/// The upload queue.
#[derive(Clone, Debug)]
pub struct QueueData {
    pub tasks: Vec<UploadTask>,
    pub version: u32,
}

/// Finished uploads.
#[derive(Clone, Debug)]
pub struct HistoryData {
    pub records: Vec<UploadTask>,
    pub version: u32,
}

/// A file that was refused for upload, and why.
#[derive(Clone, Debug)]
pub struct BlockedFileRecord {
    pub file_path: String,
    pub file_name: String,
    pub file_size: u64,
    pub reason: String,
    pub blocked_at: Timestamp,
}

/// All refused files.
#[derive(Clone, Debug)]
pub struct BlockedFileData {
    pub records: Vec<BlockedFileRecord>,
}

impl Default for QueueData {
    fn default() -> (r: Self)
        ensures
            r.tasks@.len() == 0,
            r.version == 1,
    {
        QueueData { tasks: Vec::new(), version: 1 }
    }
}

impl Default for HistoryData {
    fn default() -> (r: Self)
        ensures
            r.records@.len() == 0,
            r.version == 1,
    {
        HistoryData { records: Vec::new(), version: 1 }
    }
}

impl Default for BlockedFileData {
    fn default() -> (r: Self)
        ensures
            r.records@.len() == 0,
    {
        BlockedFileData { records: Vec::new() }
    }
}

/// Index of the first task in `tasks` whose id is `id`, if any.
pub open spec fn first_with_id(tasks: Seq<UploadTask>, id: Seq<char>) -> Option<int>
    decreases tasks.len(),
{
    if tasks.len() == 0 {
        None
    } else if tasks[0].id@ == id {
        Some(0)
    } else {
        match first_with_id(tasks.drop_first(), id) {
            Some(i) => Some(i + 1),
            None => None,
        }
    }
}

/// `index` moved `by` places further on.
pub open spec fn shifted(index: Option<int>, by: int) -> Option<int> {
    match index {
        Some(k) => Some(k + by),
        None => None,
    }
}

/// `first_with_id` finds the first task with that id, and finds none only
/// when no task has it.
pub proof fn lemma_first_with_id(tasks: Seq<UploadTask>, id: Seq<char>)
    ensures
        first_with_id(tasks, id) matches Some(i) ==> {
            &&& 0 <= i < tasks.len()
            &&& tasks[i].id@ == id
            &&& forall|j: int| 0 <= j < i ==> tasks[j].id@ != id
        },
        first_with_id(tasks, id) is None ==> forall|j: int|
            0 <= j < tasks.len() ==> tasks[j].id@ != id,
    decreases tasks.len(),
{
    if tasks.len() > 0 && tasks[0].id@ != id {
        lemma_first_with_id(tasks.drop_first(), id);
        assert forall|j: int| 0 < j < tasks.len() implies tasks[j].id@ == tasks.drop_first()[j
            - 1].id@ by {}
    }
}

/// The tasks after a user asks, at `now`, to retry the one with id `id`:
/// the first task with that id is reset for a fresh upload; the others, and
/// all tasks when none has that id, stay as they were.
pub open spec fn retry_outcome(tasks: Seq<UploadTask>, id: Seq<char>, now: Timestamp) -> Seq<UploadTask> {
    match first_with_id(tasks, id) {
        Some(i) => tasks.update(i, tasks[i].reset_at(now)),
        None => tasks,
    }
}

/// Asking twice at once to retry the same task does no more than asking
/// once, and no task but the first with that id is touched.
pub proof fn lemma_retry_outcome(tasks: Seq<UploadTask>, id: Seq<char>, now: Timestamp)
    ensures
        retry_outcome(retry_outcome(tasks, id, now), id, now) == retry_outcome(tasks, id, now),
        retry_outcome(tasks, id, now).len() == tasks.len(),
        forall|j: int|
            0 <= j < tasks.len() && Some(j) != first_with_id(tasks, id) ==> #[trigger] retry_outcome(
                tasks,
                id,
                now,
            )[j] == tasks[j],
{
    lemma_first_with_id(tasks, id);
    let once = retry_outcome(tasks, id, now);
    lemma_first_with_id(once, id);
    match first_with_id(tasks, id) {
        Some(i) => {
            assert(once[i].id@ == id);
            match first_with_id(once, id) {
                Some(k) => {
                    if k < i {
                        assert(once[k] == tasks[k]);
                    }
                    assert(k == i);
                    assert(once.update(i, once[i].reset_at(now)) =~= once);
                },
                None => {
                    assert(false);
                },
            }
        },
        None => {},
    }
}

/// Asking to retry the task with id `id` puts the first task with that id
/// back to pending, whatever its status was, with no retries, no error and
/// no progress, stamped `now`; its id, file, target and creation time stay.
/// The queue keeps its length, and asking for an id that no task has
/// changes nothing.
pub proof fn lemma_retry_resets_first_match(tasks: Seq<UploadTask>, id: Seq<char>, now: Timestamp, i: int)
    requires
        0 <= i < tasks.len(),
        tasks[i].id@ == id,
        forall|j: int| 0 <= j < i ==> tasks[j].id@ != id,
    ensures
        retry_outcome(tasks, id, now).len() == tasks.len(),
        retry_outcome(tasks, id, now)[i].status == TaskStatus::Pending,
        retry_outcome(tasks, id, now)[i].retry_count == 0,
        retry_outcome(tasks, id, now)[i].error is None,
        retry_outcome(tasks, id, now)[i].progress == 0,
        retry_outcome(tasks, id, now)[i].updated_at == now,
        retry_outcome(tasks, id, now)[i].id == tasks[i].id,
        retry_outcome(tasks, id, now)[i].file.path == tasks[i].file.path,
        retry_outcome(tasks, id, now)[i].alist_path == tasks[i].alist_path,
        retry_outcome(tasks, id, now)[i].created_at == tasks[i].created_at,
        forall|j: int| 0 <= j < tasks.len() && j != i ==> #[trigger] retry_outcome(tasks, id, now)[j]
            == tasks[j],
{
    lemma_first_with_id(tasks, id);
    match first_with_id(tasks, id) {
        Some(k) => {
            if k < i {
                assert(tasks[k].id@ != id);
            }
            if k > i {
                assert(tasks[i].id@ != id);
            }
        },
        None => {
            assert(tasks[i].id@ != id);
        },
    }
}

/// Asking to retry an id that no task has leaves the queue as it was.
pub proof fn lemma_retry_unknown_id(tasks: Seq<UploadTask>, id: Seq<char>, now: Timestamp)
    requires
        forall|j: int| 0 <= j < tasks.len() ==> tasks[j].id@ != id,
    ensures
        retry_outcome(tasks, id, now) == tasks,
{
    lemma_first_with_id(tasks, id);
    if first_with_id(tasks, id) is Some {
        let k = first_with_id(tasks, id)->0;
        assert(tasks[k].id@ == id);
    }
}

impl QueueData {
    /// Resets, at `now`, the first task whose id is `task_id` for a fresh
    /// upload (see `UploadTask::reset_for_retry_at`). Returns whether such a
    /// task was found; when none was, the queue is unchanged.
    pub fn retry_task_at(&mut self, task_id: &String, now: Timestamp) -> (found: bool)
        ensures
            final(self).version == old(self).version,
            found == (first_with_id(old(self).tasks@, task_id@) is Some),
            final(self).tasks@ == retry_outcome(old(self).tasks@, task_id@, now),
    {
        let n = self.tasks.len();
        let mut i: usize = 0;
        proof {
            assert(old(self).tasks@.skip(0) =~= old(self).tasks@);
        }
        while i < n
            invariant
                n == self.tasks@.len(),
                i <= n,
                self.tasks@ == old(self).tasks@,
                self.version == old(self).version,
                first_with_id(old(self).tasks@, task_id@) == shifted(
                    first_with_id(old(self).tasks@.skip(i as int), task_id@),
                    i as int,
                ),
            decreases n - i,
        {
            proof {
                assert(old(self).tasks@.skip(i as int)[0] == old(self).tasks@[i as int]);
                assert(old(self).tasks@.skip(i as int).drop_first() =~= old(self).tasks@.skip(
                    i + 1,
                ));
            }
            if self.tasks[i].id == *task_id {
                self.tasks[i].reset_for_retry_at(now);
                return true;
            }
            i = i + 1;
        }
        false
    }

    /// Resets, now, the first task whose id is `task_id` for a fresh upload.
    pub fn retry_task(&mut self, task_id: &String) -> (found: bool)
        ensures
            final(self).version == old(self).version,
            found == (first_with_id(old(self).tasks@, task_id@) is Some),
            exists|now: Timestamp|
                now.valid() && final(self).tasks@ == retry_outcome(old(self).tasks@, task_id@, now),
    {
        let now = current_time();
        self.retry_task_at(task_id, now)
    }
}

impl BlockedFileData {
    /// Removes the record at `index` when there is one, and says whether it did.
    pub fn remove_record(&mut self, index: usize) -> (removed: bool)
        ensures
            removed == (index < old(self).records@.len()),
            removed ==> final(self).records@ == old(self).records@.remove(index as int),
            !removed ==> final(self).records@ == old(self).records@,
    {
        if index < self.records.len() {
            self.records.remove(index);
            true
        } else {
            false
        }
    }
}

} // verus!
