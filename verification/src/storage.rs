//! The stored collection: the tasks of the backing document, held in memory
//! between reading the document and writing it back.
//!
//! The document is read whole and written whole, and nothing guards it
//! against a second process: of two processes that work on one document at
//! the same time, the one that writes last wins, and the changes of the
//! other are lost.

use vstd::prelude::*;
use std::path::PathBuf;
use crate::task::{all_wf, Task};

verus! {

/// A path of the file system. Its contents are not modelled.
#[verifier::external_type_specification]
#[verifier::external_body]
pub struct ExPathBuf(PathBuf);

/// Why the backing document could not be used.
#[derive(Debug)]
pub enum StorageError {
    /// The document, or the directory it lives in, cannot be read or written.
    IoFailure(String),
    /// The document exists and is not blank, but is no task collection.
    CorruptData(String),
}

/// The user's home directory, from `dirs::home_dir`, or `None` where the
/// system knows of none. Nothing is claimed of the result: it depends on the
/// environment.
#[verifier::external_body]
fn home_dir() -> Option<PathBuf> {
    dirs::home_dir()
}

/// The path that `std::path::Path::join` gives for `name` below `base`.
pub uninterp spec fn joined(base: PathBuf, name: Seq<char>) -> PathBuf;

/// The path `name` below `base`, from `std::path::Path::join`, whose result
/// depends on the two paths alone.
#[verifier::external_body]
fn join(base: &PathBuf, name: &str) -> (r: PathBuf)
    ensures
        r == joined(*base, name@),
{
    base.join(name)
}

/// The place of the backing document for a home directory: in it the
/// directory `.tli`, and in that the document `tasks.json`.
pub open spec fn document_path(home: PathBuf) -> PathBuf {
    joined(joined(home, ".tli"@), "tasks.json"@)
}

/// Whether `c` is white space, as Unicode's `White_Space` property has it.
pub open spec fn is_space(c: char) -> bool {
    let n = c as u32;
    (0x09 <= n <= 0x0d) || n == 0x20 || n == 0x85 || n == 0xa0 || n == 0x1680 || (0x2000 <= n
        <= 0x200a) || n == 0x2028 || n == 0x2029 || n == 0x202f || n == 0x205f || n == 0x3000
}

/// Whether a text holds nothing but white space.
pub open spec fn is_blank(text: Seq<char>) -> bool {
    forall|i: int| 0 <= i < text.len() ==> is_space(#[trigger] text[i])
}

/// The tasks of `tasks` whose identity is not `id`, in their order.
pub open spec fn without(tasks: Seq<Task>, id: u128) -> Seq<Task>
    decreases tasks.len(),
{
    if tasks.len() == 0 {
        Seq::empty()
    } else if tasks.last().id == id {
        without(tasks.drop_last(), id)
    } else {
        without(tasks.drop_last(), id).push(tasks.last())
    }
}

/// Whether some task of `tasks` has the identity `id`.
pub open spec fn has_id(tasks: Seq<Task>, id: u128) -> bool {
    exists|i: int| 0 <= i < tasks.len() && (#[trigger] tasks[i]).id == id
}

/// Whether the task at `i` is the first of `tasks` with the identity `id`.
pub open spec fn is_first_with(tasks: Seq<Task>, id: u128, i: int) -> bool {
    &&& 0 <= i < tasks.len()
    &&& tasks[i].id == id
    &&& forall|j: int| 0 <= j < i ==> (#[trigger] tasks[j]).id != id
}

/// Whether `task` is the first task of `tasks` with the identity `id`.
pub open spec fn first_with(tasks: Seq<Task>, id: u128, task: Task) -> bool {
    exists|i: int| #[trigger] is_first_with(tasks, id, i) && tasks[i] == task
}

/// Whether no two tasks of `tasks` share an identity.
pub open spec fn distinct_ids(tasks: Seq<Task>) -> bool {
    forall|i: int, j: int|
        0 <= i < j < tasks.len() ==> (#[trigger] tasks[i]).id != (#[trigger] tasks[j]).id
}

fn char_is_space(c: char) -> (b: bool)
    ensures
        b == is_space(c),
{
    let n: u32 = c as u32;
    (0x09 <= n && n <= 0x0d) || n == 0x20 || n == 0x85 || n == 0xa0 || n == 0x1680 || (0x2000 <= n
        && n <= 0x200a) || n == 0x2028 || n == 0x2029 || n == 0x202f || n == 0x205f || n == 0x3000
}

/// Whether a text holds nothing but white space.
pub fn blank(text: &str) -> (b: bool)
    ensures
        b == is_blank(text@),
{
    let n: usize = text.unicode_len();
    let mut i: usize = 0;
    while i < n
        invariant
            n == text@.len(),
            i <= n,
            forall|j: int| 0 <= j < i ==> is_space(#[trigger] text@[j]),
        decreases n - i,
    {
        if !char_is_space(text.get_char(i)) {
            return false;
        }
        i += 1;
    }
    true
}

/// The task collection of one user, with the place of its backing document.
///
/// `tasks` is the collection in the order in which the document holds it.
/// `dirty` says that the collection has changed since it was read or
/// written, so that the document is to be written again.
pub struct TaskStorage {
    pub file_path: PathBuf,
    pub tasks: Vec<Task>,
    pub dirty: bool,
}

impl TaskStorage {
    /// Whether every task of the collection records a completion time
    /// exactly when it is completed.
    pub open spec fn wf(&self) -> bool {
        all_wf(self.tasks@)
    }

    /// The storage of the current user: below the home directory, in the
    /// directory `.tli`, the document `tasks.json`. Fails where the system
    /// knows of no home directory.
    pub fn new() -> (r: Result<TaskStorage, StorageError>)
        ensures
            r matches Ok(s) ==> s.tasks@.len() == 0 && !s.dirty && s.wf(),
            r matches Ok(s) ==> exists|home: PathBuf| s.file_path == #[trigger] document_path(home),
            r matches Err(e) ==> e matches StorageError::IoFailure(m) && m@
                == "Could not find home directory"@,
    {
        Self::below(home_dir())
    }

    /// The storage below the given home directory: fails with `IoFailure`
    /// exactly where there is none, and else starts empty and clean, with
    /// its document at `.tli/tasks.json` below that directory.
    pub fn below(home: Option<PathBuf>) -> (r: Result<TaskStorage, StorageError>)
        ensures
            home is Some <==> r is Ok,
            r matches Ok(s) ==> s.file_path == document_path(home.unwrap()),
            r matches Ok(s) ==> s.tasks@.len() == 0 && !s.dirty && s.wf(),
            r matches Err(e) ==> e matches StorageError::IoFailure(m) && m@
                == "Could not find home directory"@,
    {
        match home {
            None => Err(
                StorageError::IoFailure(String::from_str("Could not find home directory")),
            ),
            Some(dir) => {
                let file_path = join(&join(&dir, ".tli"), "tasks.json");
                Ok(TaskStorage { file_path, tasks: Vec::new(), dirty: false })
            },
        }
    }

    /// Takes in the backing document as it was read. `document` is its
    /// text, or `None` where it does not exist; `parsed` is what parsing
    /// that text gave. A missing or blank document is the empty collection;
    /// any other is the parsed collection, or `CorruptData` with the
    /// parser's message.
    pub fn load_tasks(&mut self, document: Option<&str>, parsed: Result<Vec<Task>, String>) -> (r:
        Result<(), StorageError>)
        ensures
            final(self).file_path == old(self).file_path,
            document is None || is_blank(document.unwrap()@) ==> r is Ok && final(self).tasks@
                == Seq::<Task>::empty() && !final(self).dirty,
            !(document is None || is_blank(document.unwrap()@)) ==> match parsed {
                Ok(tasks) => r is Ok && final(self).tasks == tasks && !final(self).dirty,
                Err(message) => r == Err::<(), StorageError>(StorageError::CorruptData(message))
                    && final(self).tasks == old(self).tasks && final(self).dirty == old(
                    self,
                ).dirty,
            },
    {
        let empty = match document {
            None => true,
            Some(text) => blank(text),
        };
        if empty {
            self.tasks = Vec::new();
            self.dirty = false;
            Ok(())
        } else {
            match parsed {
                Ok(tasks) => {
                    self.tasks = tasks;
                    self.dirty = false;
                    Ok(())
                },
                Err(message) => Err(StorageError::CorruptData(message)),
            }
        }
    }

    /// Records how writing the collection to the backing document went:
    /// after a write that succeeded the storage is clean; one that failed is
    /// an `IoFailure` with the writer's message, and leaves it as it was.
    pub fn save_tasks(&mut self, written: Result<(), String>) -> (r: Result<(), StorageError>)
        ensures
            final(self).file_path == old(self).file_path,
            final(self).tasks == old(self).tasks,
            match written {
                Ok(_) => r is Ok && !final(self).dirty,
                Err(message) => r == Err::<(), StorageError>(StorageError::IoFailure(message))
                    && final(self).dirty == old(self).dirty,
            },
    {
        match written {
            Ok(_) => {
                self.dirty = false;
                Ok(())
            },
            Err(message) => Err(StorageError::IoFailure(message)),
        }
    }

    /// Appends a task to the collection.
    pub fn add_task(&mut self, task: Task)
        ensures
            final(self).file_path == old(self).file_path,
            final(self).tasks@ == old(self).tasks@.push(task),
            final(self).dirty,
            old(self).wf() && task.wf() ==> final(self).wf(),
    {
        self.tasks.push(task);
        self.dirty = true;
    }

    /// Removes every task with the identity `id`, and says whether there
    /// was one. The other tasks keep their order.
    pub fn remove_task(&mut self, id: u128) -> (removed: bool)
        ensures
            final(self).file_path == old(self).file_path,
            final(self).tasks@ == without(old(self).tasks@, id),
            removed == has_id(old(self).tasks@, id),
            removed == (final(self).tasks@.len() < old(self).tasks@.len()),
            !removed ==> final(self).tasks@ == old(self).tasks@,
            final(self).dirty == (old(self).dirty || removed),
            old(self).wf() ==> final(self).wf(),
    {
        let len_before: usize = self.tasks.len();
        let ghost before = self.tasks@;
        let ghost mut done: int = 0;
        let mut i: usize = 0;
        while i < self.tasks.len()
            invariant
                self.file_path == old(self).file_path,
                self.dirty == old(self).dirty,
                before == old(self).tasks@,
                i <= self.tasks@.len(),
                i <= done <= before.len(),
                self.tasks@.len() - i == before.len() - done,
                self.tasks@.take(i as int) == without(before.take(done), id),
                self.tasks@.skip(i as int) == before.skip(done),
                all_wf(before) ==> all_wf(self.tasks@),
            decreases self.tasks@.len() - i,
        {
            proof {
                assert(before.take(done + 1).drop_last() == before.take(done));
                assert(before[done] == before.skip(done)[0]);
                assert(before.skip(done + 1) == before.skip(done).skip(1));
            }
            if self.tasks[i].id == id {
                self.tasks.remove(i);
            } else {
                i += 1;
            }
            proof {
                done = done + 1;
            }
        }
        proof {
            assert(before.take(done) == before);
            lemma_without(before, id);
        }
        if self.tasks.len() < len_before {
            self.dirty = true;
            true
        } else {
            false
        }
    }

    /// Applies `updater` to the first task with the identity `id`, in place,
    /// and says whether there was one. `updater` runs once if there is, and
    /// not at all if there is none; every other task stays as it was.
    pub fn update_task<F: FnOnce(&mut Task)>(&mut self, id: u128, updater: F) -> (found: bool)
        requires
            forall|task: &mut Task|
                first_with(old(self).tasks@, id, *task) ==> #[trigger] updater.requires((task,)),
        ensures
            final(self).file_path == old(self).file_path,
            found == has_id(old(self).tasks@, id),
            final(self).dirty == (old(self).dirty || found),
            !found ==> final(self).tasks@ == old(self).tasks@,
            final(self).tasks@.len() == old(self).tasks@.len(),
            forall|i: int|
                is_first_with(old(self).tasks@, id, i) ==> exists|task: &mut Task|
                    *task == old(self).tasks@[i] && *final(task) == final(self).tasks@[i]
                        && #[trigger] updater.ensures((task,), ()),
            forall|i: int|
                0 <= i < old(self).tasks@.len() && !is_first_with(old(self).tasks@, id, i)
                    ==> final(self).tasks@[i] == #[trigger] old(self).tasks@[i],
    {
        let n: usize = self.tasks.len();
        let mut i: usize = 0;
        while i < n
            invariant
                n == self.tasks@.len(),
                i <= n,
                *self == *old(self),
                forall|j: int| 0 <= j < i ==> (#[trigger] self.tasks@[j]).id != id,
                forall|task: &mut Task|
                    first_with(self.tasks@, id, *task) ==> #[trigger] updater.requires((task,)),
            decreases n - i,
        {
            if self.tasks[i].id == id {
                assert(is_first_with(self.tasks@, id, i as int));
                updater(&mut self.tasks[i]);
                self.dirty = true;
                return true;
            }
            i += 1;
        }
        false
    }
}

/// What `without` keeps and what it drops: it drops something exactly where
/// the identity occurs, and never grows the collection.
pub proof fn lemma_without(tasks: Seq<Task>, id: u128)
    ensures
        without(tasks, id).len() <= tasks.len(),
        has_id(tasks, id) <==> without(tasks, id).len() < tasks.len(),
        !has_id(tasks, id) ==> without(tasks, id) == tasks,
    decreases tasks.len(),
{
    if tasks.len() > 0 {
        let front = tasks.drop_last();
        lemma_without(front, id);
        if has_id(tasks, id) && tasks.last().id != id {
            let i = choose|i: int| 0 <= i < tasks.len() && (#[trigger] tasks[i]).id == id;
            assert(front[i].id == id);
        }
    }
}

/// Where exactly one task has the identity, `without` takes out that task
/// and nothing else.
pub proof fn lemma_without_only(tasks: Seq<Task>, id: u128, i: int)
    requires
        0 <= i < tasks.len(),
        tasks[i].id == id,
        forall|j: int| 0 <= j < tasks.len() && j != i ==> (#[trigger] tasks[j]).id != id,
    ensures
        without(tasks, id) == tasks.remove(i),
    decreases tasks.len(),
{
    let front = tasks.drop_last();
    if i == tasks.len() - 1 {
        lemma_without(front, id);
    } else {
        lemma_without_only(front, id, i);
    }
}

/// Removal in a collection of distinct identities: taking out an identity
/// that is present shrinks the collection by exactly one task, and taking
/// out one that is absent leaves the collection as it was.
pub proof fn lemma_removal(tasks: Seq<Task>, id: u128)
    requires
        distinct_ids(tasks),
    ensures
        has_id(tasks, id) ==> without(tasks, id).len() == tasks.len() - 1,
        !has_id(tasks, id) ==> without(tasks, id) == tasks,
{
    lemma_without(tasks, id);
    if has_id(tasks, id) {
        let i = choose|i: int| 0 <= i < tasks.len() && (#[trigger] tasks[i]).id == id;
        lemma_without_only(tasks, id, i);
    }
}

} // verus!
