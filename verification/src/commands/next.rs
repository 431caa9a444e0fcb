//! The command that picks the next task to do.

use vstd::prelude::*;
use crate::storage::TaskStorage;
use crate::task::Task;

verus! {

/// Whether every task of `tasks` is completed.
pub open spec fn all_completed(tasks: Seq<Task>) -> bool {
    forall|j: int| 0 <= j < tasks.len() ==> (#[trigger] tasks[j]).completed
}

/// Whether the task at `i` is the next to do: it is pending, no pending
/// task was created later, and every pending task before it was created
/// earlier.
pub open spec fn is_next(tasks: Seq<Task>, i: int) -> bool {
    &&& 0 <= i < tasks.len()
    &&& !tasks[i].completed
    &&& forall|j: int|
        0 <= j < tasks.len() && !(#[trigger] tasks[j]).completed ==> !tasks[i].created_at.before(
            tasks[j].created_at,
        )
    &&& forall|j: int|
        0 <= j < i && !(#[trigger] tasks[j]).completed ==> tasks[j].created_at.before(
            tasks[i].created_at,
        )
}

/// The position of the pending task that was created last, the first of
/// them where several were created at the same time; `None` where every
/// task is completed.
pub fn select(tasks: &[Task]) -> (r: Option<usize>)
    ensures
        match r {
            Some(i) => is_next(tasks@, i as int),
            None => all_completed(tasks@),
        },
{
    let n: usize = tasks.len();
    let mut best: Option<usize> = None;
    let mut i: usize = 0;
    while i < n
        invariant
            n == tasks@.len(),
            i <= n,
            match best {
                Some(b) => b < i && is_next(tasks@.take(i as int), b as int),
                None => all_completed(tasks@.take(i as int)),
            },
        decreases n - i,
    {
        if !tasks[i].completed {
            let better = match best {
                Some(b) => tasks[b].created_at.is_before(&tasks[i].created_at),
                None => true,
            };
            if better {
                best = Some(i);
            }
        }
        i += 1;
    }
    proof {
        assert(tasks@.take(n as int) == tasks@);
    }
    best
}

/// The next task to do: the pending task that was created last,
/// the first of them where several were created at the same time; `None`
/// where every task is completed.
pub fn execute(storage: &TaskStorage) -> (r: Option<&Task>)
    ensures
        match r {
            Some(task) => exists|i: int| is_next(storage.tasks@, i) && *task == storage.tasks@[i],
            None => all_completed(storage.tasks@),
        },
{
    match select(storage.tasks.as_slice()) {
        Some(i) => Some(&storage.tasks[i]),
        None => None,
    }
}

} // verus!
