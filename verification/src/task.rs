//! The task record, its priority and its status transitions.

use vstd::prelude::*;
use crate::clock::{now, Timestamp};
use crate::identity::{canonical_text, fresh_id, id_text};

verus! {

/// How urgent a task is. The order low, medium, high is for display only.
#[derive(Clone, Copy, Debug, PartialEq, Eq, Structural)]
pub enum Priority {
    Low,
    Medium,
    High,
}

/// A priority token that is none of `low`, `medium`, `high`.
#[derive(Debug)]
pub struct InvalidPriority {
    /// The token as it was given.
    pub input: String,
}

/// The ASCII lower-case form of `c`; other characters are unchanged.
pub open spec fn lower(c: char) -> char {
    if 'A' <= c && c <= 'Z' {
        ((c as u8) + 32) as char
    } else {
        c
    }
}

/// Whether `a` and `b` are equal up to the case of ASCII letters.
pub open spec fn same_ignoring_case(a: Seq<char>, b: Seq<char>) -> bool {
    a.len() == b.len() && forall|i: int| 0 <= i < a.len() ==> lower(#[trigger] a[i]) == lower(b[i])
}

/// The priority that a token names, if any.
pub open spec fn priority_of(token: Seq<char>) -> Option<Priority> {
    if same_ignoring_case(token, "low"@) {
        Some(Priority::Low)
    } else if same_ignoring_case(token, "medium"@) {
        Some(Priority::Medium)
    } else if same_ignoring_case(token, "high"@) {
        Some(Priority::High)
    } else {
        None
    }
}

fn to_lower(c: char) -> (r: char)
    ensures
        r == lower(c),
{
    if 'A' <= c && c <= 'Z' {
        ((c as u8) + 32) as char
    } else {
        c
    }
}

/// Compares a token with a name, ignoring the case of ASCII letters.
fn matches_name(token: &str, name: &str) -> (b: bool)
    ensures
        b == same_ignoring_case(token@, name@),
{
    let n: usize = token.unicode_len();
    if n != name.unicode_len() {
        return false;
    }
    let mut i: usize = 0;
    while i < n
        invariant
            n == token@.len(),
            n == name@.len(),
            i <= n,
            forall|j: int| 0 <= j < i ==> lower(#[trigger] token@[j]) == lower(name@[j]),
        decreases n - i,
    {
        if to_lower(token.get_char(i)) != to_lower(name.get_char(i)) {
            return false;
        }
        i += 1;
    }
    true
}

impl Priority {
    /// The name of the priority, in lower case.
    pub open spec fn name(self) -> Seq<char> {
        match self {
            Priority::Low => "low"@,
            Priority::Medium => "medium"@,
            Priority::High => "high"@,
        }
    }

    /// The name of the priority, in lower case.
    pub fn as_str(&self) -> (s: &'static str)
        ensures
            s@ == self.name(),
    {
        match self {
            Priority::Low => "low",
            Priority::Medium => "medium",
            Priority::High => "high",
        }
    }

    /// The name of the priority, in lower case, as an owned string.
    pub fn to_string(&self) -> (s: String)
        ensures
            s@ == self.name(),
    {
        String::from_str(self.as_str())
    }

    /// Reads a priority from a token, ignoring the case of its letters. Any
    /// token but the three names is refused, and handed back in the error.
    pub fn from_str(s: &str) -> (r: Result<Priority, InvalidPriority>)
        ensures
            match r {
                Ok(p) => priority_of(s@) == Some(p),
                Err(e) => priority_of(s@) is None && e.input@ == s@,
            },
    {
        if matches_name(s, "low") {
            Ok(Priority::Low)
        } else if matches_name(s, "medium") {
            Ok(Priority::Medium)
        } else if matches_name(s, "high") {
            Ok(Priority::High)
        } else {
            Err(InvalidPriority { input: String::from_str(s) })
        }
    }
}

impl std::str::FromStr for Priority {
    type Err = InvalidPriority;

    fn from_str(s: &str) -> (r: Result<Priority, InvalidPriority>)
        ensures
            match r {
                Ok(p) => priority_of(s@) == Some(p),
                Err(e) => priority_of(s@) is None && e.input@ == s@,
            },
    {
        Priority::from_str(s)
    }
}

impl Default for Priority {
    fn default() -> (p: Priority)
        ensures
            p == Priority::Medium,
    {
        Priority::Medium
    }
}

/// One item of the task list.
#[derive(Debug)]
pub struct Task {
    pub id: u128,
    pub title: String,
    pub description: Option<String>,
    pub completed: bool,
    pub created_at: Timestamp,
    pub completed_at: Option<Timestamp>,
    pub priority: Priority,
}

impl Task {
    /// A completion time is recorded exactly when the task is completed.
    pub open spec fn wf(self) -> bool {
        self.completed <==> self.completed_at is Some
    }

    /// Whether `self` differs from `other` at most in the completion flag and
    /// the completion time.
    pub open spec fn same_record(self, other: Task) -> bool {
        &&& self.id == other.id
        &&& self.title == other.title
        &&& self.description == other.description
        &&& self.created_at == other.created_at
        &&& self.priority == other.priority
    }

    /// The task with its completion undone: pending, with no completion
    /// time, and else as it is.
    pub open spec fn uncompleted(self) -> Task {
        Task { completed: false, completed_at: None, ..self }
    }

    /// Whether `self` is `before` after its completion: completed, with a
    /// completion time, and else as `before` is.
    pub open spec fn completed_from(self, before: Task) -> bool {
        self.completed && self.completed_at is Some && self.same_record(before)
    }

    /// Whether `self` is what completing `before` gives where completed
    /// tasks are left alone: a completed task as it was, a pending one
    /// completed.
    pub open spec fn completion_of(self, before: Task) -> bool {
        if before.completed {
            self == before
        } else {
            self.completed_from(before)
        }
    }

    /// The pending task with the given identity, creation time, title,
    /// description and priority.
    pub open spec fn pending(
        id: u128,
        created_at: Timestamp,
        title: String,
        description: Option<String>,
        priority: Priority,
    ) -> Task {
        Task { id, title, description, completed: false, created_at, completed_at: None, priority }
    }

    /// The task completed at the time `at`, and else as it is.
    pub open spec fn completed_at_time(self, at: Timestamp) -> Task {
        Task { completed: true, completed_at: Some(at), ..self }
    }

    /// A new pending task with a fresh random identity, created now.
    pub fn new(title: String, description: Option<String>, priority: Priority) -> (t: Task)
        ensures
            exists|id: u128, created_at: Timestamp|
                t == #[trigger] Task::pending(id, created_at, title, description, priority),
            t.wf(),
    {
        Task::from_parts(fresh_id(), now(), title, description, priority)
    }

    /// A new pending task with the given identity and creation time.
    pub fn from_parts(
        id: u128,
        created_at: Timestamp,
        title: String,
        description: Option<String>,
        priority: Priority,
    ) -> (t: Task)
        ensures
            t == Task::pending(id, created_at, title, description, priority),
            t.wf(),
    {
        Task { id, title, description, completed: false, created_at, completed_at: None, priority }
    }

    /// Marks the task completed and stamps it with the current time.
    pub fn complete(&mut self)
        ensures
            exists|at: Timestamp| *final(self) == #[trigger] old(self).completed_at_time(at),
            final(self).completed_from(*old(self)),
            final(self).wf(),
    {
        self.complete_at(now());
    }

    /// Marks the task completed and stamps it with the time `at`.
    pub fn complete_at(&mut self, at: Timestamp)
        ensures
            *final(self) == old(self).completed_at_time(at),
            final(self).completed_from(*old(self)),
            final(self).wf(),
    {
        self.completed = true;
        self.completed_at = Some(at);
    }

    /// Marks the task pending again and forgets its completion time.
    pub fn uncomplete(&mut self)
        ensures
            *final(self) == old(self).uncompleted(),
            final(self).wf(),
    {
        self.completed = false;
        self.completed_at = None;
    }

    /// The canonical text of the task's identity.
    pub fn id_text(&self) -> (s: String)
        ensures
            s@ == canonical_text(self.id),
    {
        id_text(self.id)
    }

    /// The first eight characters of the canonical text of the task's
    /// identity, by which lists name the task.
    pub fn short_id(&self) -> (s: String)
        ensures
            s@ == canonical_text(self.id).subrange(0, 8),
    {
        let text = id_text(self.id);
        String::from_str(text.as_str().substring_char(0, 8))
    }

    /// A copy of the task, equal to it in every field.
    pub fn duplicate(&self) -> (t: Task)
        ensures
            t == *self,
    {
        let description = match &self.description {
            Some(d) => Some(d.clone()),
            None => None,
        };
        Task {
            id: self.id,
            title: self.title.clone(),
            description,
            completed: self.completed,
            created_at: self.created_at,
            completed_at: self.completed_at,
            priority: self.priority,
        }
    }
}

/// Whether every task of `tasks` records a completion time exactly when it
/// is completed.
pub open spec fn all_wf(tasks: Seq<Task>) -> bool {
    forall|i: int| 0 <= i < tasks.len() ==> (#[trigger] tasks[i]).wf()
}

/// A priority is read back from its own name: what is written for a
/// priority names that priority and no other.
pub proof fn lemma_name_round_trip(priority: Priority)
    ensures
        priority_of(priority.name()) == Some(priority),
{
    reveal_strlit("low");
    reveal_strlit("medium");
    reveal_strlit("high");
}

/// Completing a pending task and then undoing it gives the task back: the
/// flag and the completion time both revert, and nothing else has changed.
pub proof fn lemma_complete_then_uncomplete(task: Task, completed: Task)
    requires
        task.wf(),
        !task.completed,
        completed.completed_from(task),
    ensures
        completed.completed,
        completed.completed_at is Some,
        completed.wf(),
        completed.uncompleted() == task,
{
}

/// Completing twice, where completed tasks are left alone, is completing
/// once: the first step completes and stamps the task, and the second
/// changes nothing, so the completion time of the first stays.
pub proof fn lemma_complete_twice(task: Task, once: Task, twice: Task)
    requires
        once.completion_of(task),
        twice.completion_of(once),
    ensures
        once.completed,
        task.wf() ==> once.completed_at is Some,
        twice == once,
{
}

impl Clone for Task {
    fn clone(&self) -> (t: Task)
        ensures
            t == *self,
    {
        self.duplicate()
    }
}

} // verus!
