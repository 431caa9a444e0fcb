//! The commands of the task list, and the lookup of a task by the first
//! characters of its identity.

use vstd::prelude::*;
use crate::identity::{canonical_text, id_text};
use crate::task::Task;

pub mod add;
pub mod complete;
pub mod delete;
pub mod list;
pub mod next;
pub mod show;

verus! {

/// Why a command could not pick its task.
#[derive(Debug, PartialEq, Eq)]
pub enum CommandError {
    /// No task's identity starts with the prefix.
    NotFound,
    /// The identities of this many tasks, two or more, start with the prefix.
    Ambiguous(usize),
}

/// Whether the canonical text of the task's identity starts with `prefix`.
pub open spec fn starts_with_prefix(task: Task, prefix: Seq<char>) -> bool {
    prefix.is_prefix_of(canonical_text(task.id))
}

/// How many tasks of `tasks` have an identity that starts with `prefix`.
pub open spec fn match_count(tasks: Seq<Task>, prefix: Seq<char>) -> nat
    decreases tasks.len(),
{
    if tasks.len() == 0 {
        0
    } else if starts_with_prefix(tasks.last(), prefix) {
        match_count(tasks.drop_last(), prefix) + 1
    } else {
        match_count(tasks.drop_last(), prefix)
    }
}

/// Whether the task at `i` is the only one of `tasks` whose identity starts
/// with `prefix`.
pub open spec fn only_match_at(tasks: Seq<Task>, prefix: Seq<char>, i: int) -> bool {
    &&& 0 <= i < tasks.len()
    &&& starts_with_prefix(tasks[i], prefix)
    &&& forall|j: int|
        0 <= j < tasks.len() && j != i ==> !starts_with_prefix(#[trigger] tasks[j], prefix)
}

/// Whether no task of `tasks` has an identity that starts with `prefix`.
pub open spec fn no_match(tasks: Seq<Task>, prefix: Seq<char>) -> bool {
    forall|j: int| 0 <= j < tasks.len() ==> !starts_with_prefix(#[trigger] tasks[j], prefix)
}

/// Whether `text` starts with `prefix`, character by character.
pub fn starts_with(text: &str, prefix: &str) -> (b: bool)
    ensures
        b == prefix@.is_prefix_of(text@),
{
    let n: usize = prefix.unicode_len();
    if n > text.unicode_len() {
        return false;
    }
    let mut i: usize = 0;
    while i < n
        invariant
            n == prefix@.len(),
            n <= text@.len(),
            i <= n,
            forall|j: int| 0 <= j < i ==> prefix@[j] == text@[j],
        decreases n - i,
    {
        if prefix.get_char(i) != text.get_char(i) {
            return false;
        }
        i += 1;
    }
    true
}

/// Finds the one task whose identity starts with `prefix` and gives its
/// position: `NotFound` where there is none, `Ambiguous` with their number
/// where there are several.
pub fn resolve(tasks: &[Task], prefix: &str) -> (r: Result<usize, CommandError>)
    ensures
        match r {
            Ok(i) => match_count(tasks@, prefix@) == 1 && only_match_at(tasks@, prefix@, i as int),
            Err(CommandError::NotFound) => match_count(tasks@, prefix@) == 0 && no_match(
                tasks@,
                prefix@,
            ),
            Err(CommandError::Ambiguous(n)) => n >= 2 && n == match_count(tasks@, prefix@),
        },
{
    let n: usize = tasks.len();
    let mut count: usize = 0;
    let mut first: usize = 0;
    let mut i: usize = 0;
    while i < n
        invariant
            n == tasks@.len(),
            i <= n,
            count <= i,
            count == match_count(tasks@.take(i as int), prefix@),
            count == 0 ==> no_match(tasks@.take(i as int), prefix@),
            count == 1 ==> only_match_at(tasks@.take(i as int), prefix@, first as int),
        decreases n - i,
    {
        proof {
            assert(tasks@.take(i + 1).drop_last() == tasks@.take(i as int));
        }
        let text = id_text(tasks[i].id);
        if starts_with(text.as_str(), prefix) {
            if count == 0 {
                first = i;
            }
            count += 1;
        }
        i += 1;
    }
    proof {
        assert(tasks@.take(n as int) == tasks@);
    }
    if count == 0 {
        Err(CommandError::NotFound)
    } else if count == 1 {
        Ok(first)
    } else {
        Err(CommandError::Ambiguous(count))
    }
}

/// Finds the one task whose identity starts with `partial_id` and gives
/// its identity: `NotFound` where there is none, `Ambiguous` with their
/// number where there are several.
pub fn find_task_by_partial_id(tasks: &[Task], partial_id: &str) -> (r: Result<
    u128,
    CommandError,
>)
    ensures
        match r {
            Ok(id) => match_count(tasks@, partial_id@) == 1 && exists|i: int|
                only_match_at(tasks@, partial_id@, i) && id == (#[trigger] tasks@[i]).id,
            Err(CommandError::NotFound) => match_count(tasks@, partial_id@) == 0 && no_match(
                tasks@,
                partial_id@,
            ),
            Err(CommandError::Ambiguous(n)) => n >= 2 && n == match_count(tasks@, partial_id@),
        },
{
    match resolve(tasks, partial_id) {
        Ok(i) => Ok(tasks[i].id),
        Err(e) => Err(e),
    }
}

/// A prefix that no identity starts with is never resolved: the number of
/// matches is zero exactly where no task matches.
pub proof fn lemma_no_match(tasks: Seq<Task>, prefix: Seq<char>)
    ensures
        match_count(tasks, prefix) == 0 <==> no_match(tasks, prefix),
    decreases tasks.len(),
{
    if tasks.len() > 0 {
        let front = tasks.drop_last();
        lemma_no_match(front, prefix);
        if match_count(tasks, prefix) == 0 {
            assert(forall|j: int| 0 <= j < front.len() ==> front[j] == tasks[j]);
        }
    }
}

/// A prefix that the identity of exactly one task starts with resolves to
/// that task: the number of matches is then one.
pub proof fn lemma_single_match(tasks: Seq<Task>, prefix: Seq<char>, i: int)
    requires
        only_match_at(tasks, prefix, i),
    ensures
        match_count(tasks, prefix) == 1,
    decreases tasks.len(),
{
    let front = tasks.drop_last();
    if i == tasks.len() - 1 {
        lemma_no_match(front, prefix);
    } else {
        lemma_single_match(front, prefix, i);
    }
}

/// A prefix that the identities of two tasks start with is ambiguous: the
/// number of matches is then two or more.
pub proof fn lemma_several_matches(tasks: Seq<Task>, prefix: Seq<char>, i: int, j: int)
    requires
        0 <= i < j < tasks.len(),
        starts_with_prefix(tasks[i], prefix),
        starts_with_prefix(tasks[j], prefix),
    ensures
        match_count(tasks, prefix) >= 2,
    decreases tasks.len(),
{
    let front = tasks.drop_last();
    if j == tasks.len() - 1 {
        lemma_no_match(front, prefix);
    } else {
        lemma_several_matches(front, prefix, i, j);
    }
}

} // verus!
