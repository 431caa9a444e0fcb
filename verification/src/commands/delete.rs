//! The command that deletes one task.

use vstd::prelude::*;
use crate::commands::{match_count, no_match, only_match_at, resolve, CommandError};
use crate::storage::{distinct_ids, lemma_without_only, TaskStorage};

verus! {

/// Removes the one task whose identity starts with `partial_id` and hands
/// back its title: `NotFound` where there is none, `Ambiguous` with their
/// number where there are several. A command that fails changes nothing.
pub fn execute(storage: &mut TaskStorage, partial_id: &str) -> (r: Result<String, CommandError>)
    ensures
        final(storage).file_path == old(storage).file_path,
        old(storage).wf() ==> final(storage).wf(),
        distinct_ids(old(storage).tasks@) ==> distinct_ids(final(storage).tasks@),
        match r {
            Ok(title) => final(storage).dirty && exists|i: int|
                only_match_at(old(storage).tasks@, partial_id@, i) && title == old(
                    storage,
                ).tasks@[i].title && final(storage).tasks@ == old(storage).tasks@.remove(i),
            Err(CommandError::NotFound) => no_match(old(storage).tasks@, partial_id@)
                && *final(storage) == *old(storage),
            Err(CommandError::Ambiguous(n)) => n >= 2 && n == match_count(
                old(storage).tasks@,
                partial_id@,
            ) && *final(storage) == *old(storage),
        },
{
    match resolve(storage.tasks.as_slice(), partial_id) {
        Ok(i) => {
            let id: u128 = storage.tasks[i].id;
            let title = storage.tasks[i].title.clone();
            proof {
                lemma_without_only(storage.tasks@, id, i as int);
            }
            storage.remove_task(id);
            Ok(title)
        },
        Err(e) => Err(e),
    }
}

} // verus!
