//! The command that adds a task.

use vstd::prelude::*;
use crate::clock::Timestamp;
use crate::storage::TaskStorage;
use crate::task::{Priority, Task};

verus! {

/// Creates a pending task from the given title, description and priority,
/// appends it to the collection, and hands back a copy of it.
pub fn execute(
    storage: &mut TaskStorage,
    title: String,
    description: Option<String>,
    priority: Priority,
) -> (added: Task)
    ensures
        final(storage).file_path == old(storage).file_path,
        final(storage).tasks@ == old(storage).tasks@.push(added),
        final(storage).dirty,
        exists|id: u128, created_at: Timestamp|
            added == #[trigger] Task::pending(id, created_at, title, description, priority),
        old(storage).wf() ==> final(storage).wf(),
{
    let task = Task::new(title, description, priority);
    let added = task.duplicate();
    storage.add_task(task);
    added
}

} // verus!
