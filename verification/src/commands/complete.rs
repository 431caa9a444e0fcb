//! The command that completes one task.

use vstd::prelude::*;
use crate::commands::{match_count, no_match, only_match_at, resolve, CommandError};
use crate::storage::{distinct_ids, is_first_with, TaskStorage};
use crate::task::Task;

verus! {

/// What the command found of its task.
#[derive(Debug)]
pub enum Completion {
    /// The task with this title was pending and is now completed.
    Completed(String),
    /// The task with this title was completed before, and is left as it was.
    AlreadyCompleted(String),
}

/// Completes a pending task, and leaves a completed one as it is: its
/// completion time is not stamped again.
pub fn complete_if_pending(task: &mut Task)
    ensures
        final(task).completion_of(*old(task)),
        old(task).wf() ==> final(task).wf(),
{
    if !task.completed {
        task.complete();
    }
}

/// Completes the one task whose identity starts with `partial_id`, and
/// says whether it was pending: `NotFound` where there is none, `Ambiguous`
/// with their number where there are several. A task that was completed
/// before keeps its completion time. A command that fails changes nothing.
pub fn execute(storage: &mut TaskStorage, partial_id: &str) -> (r: Result<
    Completion,
    CommandError,
>)
    ensures
        final(storage).file_path == old(storage).file_path,
        final(storage).tasks@.len() == old(storage).tasks@.len(),
        old(storage).wf() ==> final(storage).wf(),
        distinct_ids(old(storage).tasks@) ==> distinct_ids(final(storage).tasks@),
        match r {
            Ok(outcome) => final(storage).dirty && exists|i: int|
                {
                    &&& only_match_at(old(storage).tasks@, partial_id@, i)
                    &&& forall|j: int|
                        0 <= j < old(storage).tasks@.len() && j != i ==> final(storage).tasks@[j]
                            == #[trigger] old(storage).tasks@[j]
                    &&& match outcome {
                        Completion::Completed(title) => {
                            &&& title == old(storage).tasks@[i].title
                            &&& !old(storage).tasks@[i].completed
                            &&& final(storage).tasks@[i].completed_from(old(storage).tasks@[i])
                        },
                        Completion::AlreadyCompleted(title) => {
                            &&& title == old(storage).tasks@[i].title
                            &&& old(storage).tasks@[i].completed
                            &&& final(storage).tasks@[i] == old(storage).tasks@[i]
                        },
                    }
                },
            Err(CommandError::NotFound) => no_match(old(storage).tasks@, partial_id@)
                && *final(storage) == *old(storage),
            Err(CommandError::Ambiguous(n)) => n >= 2 && n == match_count(
                old(storage).tasks@,
                partial_id@,
            ) && *final(storage) == *old(storage),
        },
{
    match resolve(storage.tasks.as_slice(), partial_id) {
        Ok(i) => {
            let id: u128 = storage.tasks[i].id;
            let title = storage.tasks[i].title.clone();
            let was_completed = storage.tasks[i].completed;
            assert(is_first_with(storage.tasks@, id, i as int));
            storage.update_task(id, complete_if_pending);
            proof {
                let before = old(storage).tasks@;
                let after = storage.tasks@;
                assert forall|k: int| 0 <= k < after.len() implies (#[trigger] after[k]).id
                    == before[k].id && (before[k].wf() ==> after[k].wf()) by {}
            }
            if was_completed {
                Ok(Completion::AlreadyCompleted(title))
            } else {
                Ok(Completion::Completed(title))
            }
        },
        Err(e) => Err(e),
    }
}

} // verus!
