//! The command that lists the tasks.

use vstd::prelude::*;
use crate::storage::TaskStorage;
use crate::task::Task;

verus! {

/// What there is to list.
#[derive(Debug)]
pub enum Listing<'a> {
    /// The collection is empty.
    NoTasks,
    /// Completed tasks were asked for, and there is none.
    NoCompleted,
    /// Pending tasks were asked for, and there is none.
    NoPending,
    /// The tasks to show, in the order of the collection, and how many
    /// tasks of the whole collection are pending and completed.
    Tasks { shown: Vec<&'a Task>, pending: usize, completed: usize },
}

/// Whether a task is listed under the two flags. Either flag alone narrows
/// the list to the tasks of its status; both together, like neither, list
/// every task.
pub open spec fn visible(task: Task, show_completed: bool, show_pending: bool) -> bool {
    if show_completed && show_pending {
        true
    } else if show_completed {
        task.completed
    } else if show_pending {
        !task.completed
    } else {
        true
    }
}

/// The tasks of `tasks` that are listed under the two flags, in their order.
pub open spec fn shown_tasks(tasks: Seq<Task>, show_completed: bool, show_pending: bool) -> Seq<
    Task,
>
    decreases tasks.len(),
{
    if tasks.len() == 0 {
        Seq::empty()
    } else if visible(tasks.last(), show_completed, show_pending) {
        shown_tasks(tasks.drop_last(), show_completed, show_pending).push(tasks.last())
    } else {
        shown_tasks(tasks.drop_last(), show_completed, show_pending)
    }
}

/// How many tasks of `tasks` are completed.
pub open spec fn completed_count(tasks: Seq<Task>) -> nat
    decreases tasks.len(),
{
    if tasks.len() == 0 {
        0
    } else if tasks.last().completed {
        completed_count(tasks.drop_last()) + 1
    } else {
        completed_count(tasks.drop_last())
    }
}

/// The tasks that a sequence of references points to.
pub open spec fn targets(shown: Seq<&Task>) -> Seq<Task> {
    shown.map_values(|task: &Task| *task)
}

/// What the listing is for a collection and the two flags.
pub open spec fn listing_of(
    tasks: Seq<Task>,
    show_completed: bool,
    show_pending: bool,
    listing: Listing<'_>,
) -> bool {
    if tasks.len() == 0 {
        listing is NoTasks
    } else if shown_tasks(tasks, show_completed, show_pending).len() == 0 {
        if show_completed {
            listing is NoCompleted
        } else {
            listing is NoPending
        }
    } else {
        listing matches Listing::Tasks { shown, pending, completed } && targets(shown@) == shown_tasks(
            tasks,
            show_completed,
            show_pending,
        ) && completed == completed_count(tasks) && pending == tasks.len() - completed_count(
            tasks,
        )
    }
}

fn is_visible(task: &Task, show_completed: bool, show_pending: bool) -> (b: bool)
    ensures
        b == visible(*task, show_completed, show_pending),
{
    if show_completed && show_pending {
        true
    } else if show_completed {
        task.completed
    } else if show_pending {
        !task.completed
    } else {
        true
    }
}

/// Lists the tasks under the two flags, with the numbers of pending and of
/// completed tasks in the whole collection.
pub fn execute<'a>(storage: &'a TaskStorage, show_completed: bool, show_pending: bool) -> (r:
    Listing<'a>)
    ensures
        listing_of(storage.tasks@, show_completed, show_pending, r),
{
    let n: usize = storage.tasks.len();
    if n == 0 {
        return Listing::NoTasks;
    }
    let mut shown: Vec<&'a Task> = Vec::new();
    let mut completed: usize = 0;
    let mut i: usize = 0;
    while i < n
        invariant
            n == storage.tasks@.len(),
            i <= n,
            completed <= i,
            completed == completed_count(storage.tasks@.take(i as int)),
            targets(shown@) == shown_tasks(
                storage.tasks@.take(i as int),
                show_completed,
                show_pending,
            ),
        decreases n - i,
    {
        proof {
            assert(storage.tasks@.take(i + 1).drop_last() == storage.tasks@.take(i as int));
        }
        if is_visible(&storage.tasks[i], show_completed, show_pending) {
            shown.push(&storage.tasks[i]);
        }
        if storage.tasks[i].completed {
            completed += 1;
        }
        i += 1;
    }
    proof {
        assert(storage.tasks@.take(n as int) == storage.tasks@);
    }
    if shown.len() == 0 {
        if show_completed {
            Listing::NoCompleted
        } else {
            Listing::NoPending
        }
    } else {
        Listing::Tasks { shown, pending: n - completed, completed }
    }
}

/// With both flags, or with neither, every task is listed.
pub proof fn lemma_unfiltered(tasks: Seq<Task>, show_completed: bool, show_pending: bool)
    requires
        show_completed == show_pending,
    ensures
        shown_tasks(tasks, show_completed, show_pending) == tasks,
    decreases tasks.len(),
{
    if tasks.len() > 0 {
        lemma_unfiltered(tasks.drop_last(), show_completed, show_pending);
    }
}

/// Asking for completed and pending tasks together lists the same tasks as
/// asking for neither, and gives the same listing.
pub proof fn lemma_both_flags_as_none(tasks: Seq<Task>, listing: Listing<'_>)
    ensures
        shown_tasks(tasks, true, true) == shown_tasks(tasks, false, false),
        listing_of(tasks, true, true, listing) == listing_of(tasks, false, false, listing),
{
    lemma_unfiltered(tasks, true, true);
    lemma_unfiltered(tasks, false, false);
}

} // verus!
