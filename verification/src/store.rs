//! The task store: an ordered list of tasks, addressed by position.

use vstd::prelude::*;
use crate::error::StoreError;
use crate::model::{
    added, all_valid, entries, entries_where, located, marked_complete, removed, reprioritized,
    tasks_after, verdict, EntryView,
};
use crate::task::{Task, TaskView, MAX_PRIORITY, MIN_PRIORITY};
use crate::text::{trim, trimmed};

verus! {

/// The models of `tasks`, in the same order.
pub open spec fn views(tasks: Seq<Task>) -> Seq<TaskView> {
    tasks.map_values(|t: Task| t@)
}

/// A task together with the position, counted from 1, that it has in the store.
#[derive(Debug)]
pub struct Entry {
    pub position: usize,
    pub task: Task,
}

impl View for Entry {
    type V = EntryView;

    open spec fn view(&self) -> EntryView {
        EntryView { position: self.position as nat, task: self.task@ }
    }
}

/// The models of `entries`, in the same order.
pub open spec fn entry_views(entries: Seq<Entry>) -> Seq<EntryView> {
    entries.map_values(|e: Entry| e@)
}

/// The tasks of one session, in the order in which they were added. A task is
/// known by its position, counted from 1, which changes when a task before it
/// is removed.
#[derive(Debug)]
pub struct TaskStore {
    tasks: Vec<Task>,
}

impl View for TaskStore {
    type V = Seq<TaskView>;

    closed spec fn view(&self) -> Seq<TaskView> {
        views(self.tasks@)
    }
}

impl TaskStore {
    /// The store is well formed: every task in it has a description and a
    /// priority from 1 to 5.
    pub open spec fn wf(&self) -> bool {
        all_valid(self@)
    }

    /// A store without tasks.
    pub fn new() -> (store: TaskStore)
        ensures
            store@ == Seq::<TaskView>::empty(),
            store.wf(),
    {
        let store = TaskStore { tasks: Vec::new() };
        assert(store@ =~= Seq::<TaskView>::empty());
        store
    }

    /// The number of tasks.
    pub fn len(&self) -> (n: usize)
        ensures
            n == self@.len(),
    {
        self.tasks.len()
    }

    /// Whether the store holds no task.
    pub fn is_empty(&self) -> (empty: bool)
        ensures
            empty == (self@.len() == 0),
    {
        self.tasks.len() == 0
    }

    /// The offset, counted from 0, of the task at position `index`, counted
    /// from 1. An empty store is turned down first, then a position that
    /// names no task.
    pub fn locate(&self, index: usize) -> (result: Result<usize, StoreError>)
        ensures
            result matches Ok(at) ==> located(self@, index as int) == Ok::<int, StoreError>(
                at as int,
            ),
            result matches Err(error) ==> located(self@, index as int) == Err::<int, StoreError>(
                error,
            ),
    {
        if self.tasks.len() == 0 {
            Err(StoreError::EmptyStore)
        } else if index == 0 || index > self.tasks.len() {
            Err(StoreError::InvalidIndex)
        } else {
            Ok(index - 1)
        }
    }

    /// Adds a pending task at the end. The description is stored without the
    /// white space around it. A priority outside 1 to 5 is turned down first,
    /// then a description of which nothing is left; either leaves the store
    /// as it was.
    pub fn add(&mut self, description: &str, priority: u8) -> (result: Result<(), StoreError>)
        ensures
            result == verdict(added(old(self)@, trimmed(description@), priority)),
            final(self)@ == tasks_after(
                old(self)@,
                added(old(self)@, trimmed(description@), priority),
            ),
            old(self).wf() ==> final(self).wf(),
    {
        let kept = trim(description);
        self.append(kept.to_owned(), priority)
    }

    /// Adds a pending task at the end, with the description as it stands. A
    /// priority outside 1 to 5 is turned down first, then an empty
    /// description; either leaves the store as it was.
    pub fn append(&mut self, description: String, priority: u8) -> (result: Result<(), StoreError>)
        ensures
            result == verdict(added(old(self)@, description@, priority)),
            final(self)@ == tasks_after(old(self)@, added(old(self)@, description@, priority)),
            old(self).wf() ==> final(self).wf(),
    {
        if priority < MIN_PRIORITY || priority > MAX_PRIORITY {
            return Err(StoreError::InvalidPriority);
        }
        if description.as_str().is_empty() {
            return Err(StoreError::EmptyDescription);
        }
        let task = Task::new(description, priority);
        self.tasks.push(task);
        assert(self@ =~= old(self)@.push(task@));
        Ok(())
    }

    /// Removes the task at position `index`, counted from 1; the tasks after
    /// it move up by one. An empty store and a position that names no task
    /// are turned down, in that order, and leave the store as it was.
    pub fn remove(&mut self, index: usize) -> (result: Result<(), StoreError>)
        ensures
            result == verdict(removed(old(self)@, index as int)),
            final(self)@ == tasks_after(old(self)@, removed(old(self)@, index as int)),
            old(self).wf() ==> final(self).wf(),
    {
        match self.locate(index) {
            Ok(at) => {
                self.tasks.remove(at);
                assert(self@ =~= old(self)@.remove(at as int));
                Ok(())
            },
            Err(error) => Err(error),
        }
    }

    /// Marks the task at position `index`, counted from 1, as completed; a
    /// task that is completed already stays so. An empty store and a position
    /// that names no task are turned down, in that order, and leave the store
    /// as it was.
    pub fn mark_complete(&mut self, index: usize) -> (result: Result<(), StoreError>)
        ensures
            result == verdict(marked_complete(old(self)@, index as int)),
            final(self)@ == tasks_after(old(self)@, marked_complete(old(self)@, index as int)),
            old(self).wf() ==> final(self).wf(),
    {
        match self.locate(index) {
            Ok(at) => {
                self.tasks[at].complete();
                assert(self@ =~= old(self)@.update(at as int, old(self)@[at as int].complete()));
                Ok(())
            },
            Err(error) => Err(error),
        }
    }

    /// Gives the task at position `index`, counted from 1, the priority
    /// `priority`. An empty store, a position that names no task and a
    /// priority outside 1 to 5 are turned down, in that order, and leave the
    /// store as it was.
    pub fn change_priority(&mut self, index: usize, priority: u8) -> (result: Result<
        (),
        StoreError,
    >)
        ensures
            result == verdict(reprioritized(old(self)@, index as int, priority)),
            final(self)@ == tasks_after(
                old(self)@,
                reprioritized(old(self)@, index as int, priority),
            ),
            old(self).wf() ==> final(self).wf(),
    {
        match self.locate(index) {
            Ok(at) => {
                if priority < MIN_PRIORITY || priority > MAX_PRIORITY {
                    return Err(StoreError::InvalidPriority);
                }
                self.tasks[at].set_priority(priority);
                assert(self@ =~= old(self)@.update(
                    at as int,
                    old(self)@[at as int].with_priority(priority),
                ));
                Ok(())
            },
            Err(error) => Err(error),
        }
    }

    /// Every task with its position, in the order of the store. An empty
    /// store gives an empty listing.
    pub fn list(&self) -> (listing: Vec<Entry>)
        ensures
            entry_views(listing@) == entries(self@),
            listing@.len() == self@.len(),
    {
        let mut listing: Vec<Entry> = Vec::new();
        let n: usize = self.tasks.len();
        let mut i: usize = 0;
        while i < n
            invariant
                i <= n,
                n == self.tasks@.len(),
                listing@.len() == i,
                forall|k: int| 0 <= k < i ==> (#[trigger] listing@[k])@ == entries(self@)[k],
            decreases n - i,
        {
            let entry = Entry { position: i + 1, task: self.tasks[i].clone() };
            listing.push(entry);
            i += 1;
        }
        assert(entry_views(listing@) =~= entries(self@));
        listing
    }

    /// The completed tasks, in the order of the store, each with the position
    /// it has among all tasks.
    pub fn list_completed(&self) -> (listing: Vec<Entry>)
        ensures
            entry_views(listing@) == entries_where(self@, true),
    {
        self.list_where(true)
    }

    /// The tasks still to be done, in the order of the store, each with the
    /// position it has among all tasks.
    pub fn list_pending(&self) -> (listing: Vec<Entry>)
        ensures
            entry_views(listing@) == entries_where(self@, false),
    {
        self.list_where(false)
    }

    /// The entries whose completion flag is `completed`.
    fn list_where(&self, completed: bool) -> (listing: Vec<Entry>)
        ensures
            entry_views(listing@) == entries_where(self@, completed),
    {
        let mut listing: Vec<Entry> = Vec::new();
        let n: usize = self.tasks.len();
        let ghost wanted = |e: EntryView| e.task.completed == completed;
        let mut i: usize = 0;
        proof {
            reveal(Seq::filter);
            assert(entries(self@).take(0) =~= Seq::<EntryView>::empty());
            assert(entry_views(listing@) =~= entries(self@).take(0).filter(wanted));
        }
        while i < n
            invariant
                i <= n,
                n == self.tasks@.len(),
                wanted == |e: EntryView| e.task.completed == completed,
                entry_views(listing@) == entries(self@).take(i as int).filter(wanted),
            decreases n - i,
        {
            let ghost before = entry_views(listing@);
            proof {
                reveal(Seq::filter);
                let next = entries(self@).take(i + 1);
                assert(next.drop_last() =~= entries(self@).take(i as int));
                assert(next.last() == entries(self@)[i as int]);
            }
            if self.tasks[i].is_completed() == completed {
                let entry = Entry { position: i + 1, task: self.tasks[i].clone() };
                listing.push(entry);
                assert(entry_views(listing@) =~= before.push(entry@));
            }
            i += 1;
        }
        assert(entries(self@).take(n as int) =~= entries(self@));
        listing
    }
}

} // verus!
