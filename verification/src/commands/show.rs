//! The command that shows one task.

use vstd::prelude::*;
use crate::commands::{match_count, no_match, only_match_at, resolve, CommandError};
use crate::storage::TaskStorage;
use crate::task::Task;

verus! {

/// The one task whose identity starts with `partial_id`:
/// `NotFound` where there is none, `Ambiguous` with their number where
/// there are several.
pub fn execute<'a>(storage: &'a TaskStorage, partial_id: &str) -> (r: Result<
    &'a Task,
    CommandError,
>)
    ensures
        match r {
            Ok(task) => exists|i: int|
                only_match_at(storage.tasks@, partial_id@, i) && *task == storage.tasks@[i],
            Err(CommandError::NotFound) => no_match(storage.tasks@, partial_id@),
            Err(CommandError::Ambiguous(n)) => n >= 2 && n == match_count(
                storage.tasks@,
                partial_id@,
            ),
        },
{
    match resolve(storage.tasks.as_slice(), partial_id) {
        Ok(i) => Ok(&storage.tasks[i]),
        Err(e) => Err(e),
    }
}

} // verus!
