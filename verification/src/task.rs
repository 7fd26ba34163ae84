//! A single task and its mathematical model.

use vstd::prelude::*;

verus! {

/// The lowest priority a stored task may carry.
pub const MIN_PRIORITY: u8 = 1;

/// The highest priority a stored task may carry.
pub const MAX_PRIORITY: u8 = 5;

/// Whether `priority` is one a stored task may carry.
pub open spec fn priority_in_range(priority: int) -> bool {
    MIN_PRIORITY <= priority <= MAX_PRIORITY
}

/// What a task is, as plain mathematical data.
pub struct TaskView {
    pub description: Seq<char>,
    pub priority: u8,
    pub completed: bool,
}

impl TaskView {
    /// A task fit to be stored: it says something and its priority is in range.
    pub open spec fn valid(self) -> bool {
        &&& self.description.len() > 0
        &&& priority_in_range(self.priority as int)
    }

    /// A task that has not been completed yet.
    pub open spec fn fresh(description: Seq<char>, priority: u8) -> TaskView {
        TaskView { description, priority, completed: false }
    }

    /// The same task, completed.
    pub open spec fn complete(self) -> TaskView {
        TaskView { completed: true, ..self }
    }

    /// The same task with another priority.
    pub open spec fn with_priority(self, priority: u8) -> TaskView {
        TaskView { priority, ..self }
    }
}

/// A task: what is to be done, how urgent it is, and whether it is done.
#[derive(Debug)]
pub struct Task {
    description: String,
    priority: u8,
    completed: bool,
}

impl View for Task {
    type V = TaskView;

    closed spec fn view(&self) -> TaskView {
        TaskView {
            description: self.description@,
            priority: self.priority,
            completed: self.completed,
        }
    }
}

impl Task {
    /// A pending task with the given description and priority.
    pub fn new(description: String, priority: u8) -> (task: Task)
        ensures
            task@ == TaskView::fresh(description@, priority),
    {
        Task { description, priority, completed: false }
    }

    /// What is to be done.
    pub fn description(&self) -> (description: &str)
        ensures
            description@ == self@.description,
    {
        self.description.as_str()
    }

    /// How urgent the task is.
    pub fn priority(&self) -> (priority: u8)
        ensures
            priority == self@.priority,
    {
        self.priority
    }

    /// Whether the task is done.
    pub fn is_completed(&self) -> (completed: bool)
        ensures
            completed == self@.completed,
    {
        self.completed
    }

    /// Marks the task as done. A task that is done stays done.
    pub fn complete(&mut self)
        ensures
            final(self)@ == old(self)@.complete(),
    {
        self.completed = true;
    }

    /// Gives the task another priority.
    pub fn set_priority(&mut self, priority: u8)
        ensures
            final(self)@ == old(self)@.with_priority(priority),
    {
        self.priority = priority;
    }
}

impl Clone for Task {
    fn clone(&self) -> (copy: Task)
        ensures
            copy@ == self@,
    {
        Task {
            description: self.description.clone(),
            priority: self.priority,
            completed: self.completed,
        }
    }
}

} // verus!
