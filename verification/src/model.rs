//! The store as mathematics: a sequence of tasks, what each operation makes
//! of it, and what holds of the operations taken together.

use vstd::prelude::*;
use crate::error::StoreError;
use crate::task::{priority_in_range, TaskView};
use crate::text::trimmed;

verus! {

/// Whether every task of `tasks` is fit to be stored.
pub open spec fn all_valid(tasks: Seq<TaskView>) -> bool {
    forall|i: int| 0 <= i < tasks.len() ==> (#[trigger] tasks[i]).valid()
}

/// Whether `index`, counted from 1, names a task among `len` tasks.
pub open spec fn names_task(index: int, len: int) -> bool {
    1 <= index <= len
}

/// The offset, counted from 0, of the task at position `index`, counted from
/// 1. An empty store is turned down first, then a position outside 1 to the
/// number of tasks.
pub open spec fn located(tasks: Seq<TaskView>, index: int) -> Result<int, StoreError> {
    if tasks.len() == 0 {
        Err(StoreError::EmptyStore)
    } else if !names_task(index, tasks.len() as int) {
        Err(StoreError::InvalidIndex)
    } else {
        Ok(index - 1)
    }
}

/// The tasks after adding a pending task with the description as it stands,
/// or the reason for which that is turned down. The priority is looked at
/// first, then the description.
pub open spec fn added(tasks: Seq<TaskView>, description: Seq<char>, priority: u8) -> Result<
    Seq<TaskView>,
    StoreError,
> {
    if !priority_in_range(priority as int) {
        Err(StoreError::InvalidPriority)
    } else if description.len() == 0 {
        Err(StoreError::EmptyDescription)
    } else {
        Ok(tasks.push(TaskView::fresh(description, priority)))
    }
}

/// The tasks after removing the task at position `index`, or the reason for
/// which that is turned down.
pub open spec fn removed(tasks: Seq<TaskView>, index: int) -> Result<Seq<TaskView>, StoreError> {
    match located(tasks, index) {
        Ok(at) => Ok(tasks.remove(at)),
        Err(e) => Err(e),
    }
}

/// The tasks after completing the task at position `index`, or the reason
/// for which that is turned down.
pub open spec fn marked_complete(tasks: Seq<TaskView>, index: int) -> Result<
    Seq<TaskView>,
    StoreError,
> {
    match located(tasks, index) {
        Ok(at) => Ok(tasks.update(at, tasks[at].complete())),
        Err(e) => Err(e),
    }
}

/// The tasks after giving the task at position `index` the priority
/// `priority`, or the reason for which that is turned down. The position is
/// looked at first, then the priority.
pub open spec fn reprioritized(tasks: Seq<TaskView>, index: int, priority: u8) -> Result<
    Seq<TaskView>,
    StoreError,
> {
    match located(tasks, index) {
        Ok(at) => if priority_in_range(priority as int) {
            Ok(tasks.update(at, tasks[at].with_priority(priority)))
        } else {
            Err(StoreError::InvalidPriority)
        },
        Err(e) => Err(e),
    }
}

/// What the caller is told of an operation: that it went through, or why not.
pub open spec fn verdict(outcome: Result<Seq<TaskView>, StoreError>) -> Result<(), StoreError> {
    match outcome {
        Ok(_) => Ok(()),
        Err(e) => Err(e),
    }
}

/// What an operation leaves in the store: the new tasks where it went
/// through, the tasks as they were where it did not.
pub open spec fn tasks_after(
    before: Seq<TaskView>,
    outcome: Result<Seq<TaskView>, StoreError>,
) -> Seq<TaskView> {
    match outcome {
        Ok(tasks) => tasks,
        Err(_) => before,
    }
}

/// A task together with the position, counted from 1, that it has in the store.
pub struct EntryView {
    pub position: nat,
    pub task: TaskView,
}

/// Every task of `tasks` with its position, in the order of the store.
pub open spec fn entries(tasks: Seq<TaskView>) -> Seq<EntryView> {
    Seq::new(tasks.len(), |i: int| EntryView { position: (i + 1) as nat, task: tasks[i] })
}

/// The entries of `tasks` whose completion flag is `completed`, in the order
/// of the store, each with the position it has among all tasks.
pub open spec fn entries_where(tasks: Seq<TaskView>, completed: bool) -> Seq<EntryView> {
    entries(tasks).filter(|e: EntryView| e.task.completed == completed)
}

/// No operation lets a task into the store that is not fit to be stored.
pub proof fn lemma_operations_keep_tasks_valid(
    tasks: Seq<TaskView>,
    description: Seq<char>,
    index: int,
    priority: u8,
)
    requires
        all_valid(tasks),
    ensures
        all_valid(tasks_after(tasks, added(tasks, description, priority))),
        all_valid(tasks_after(tasks, removed(tasks, index))),
        all_valid(tasks_after(tasks, marked_complete(tasks, index))),
        all_valid(tasks_after(tasks, reprioritized(tasks, index, priority))),
{
}

/// Adding a task with something to say and a priority from 1 to 5 goes
/// through, and the listing afterwards is the listing before followed by
/// exactly one entry: the new task, pending, at the next position.
pub proof fn lemma_add_appends_one_entry(
    tasks: Seq<TaskView>,
    description: Seq<char>,
    priority: u8,
)
    requires
        trimmed(description).len() > 0,
        priority_in_range(priority as int),
    ensures
        added(tasks, trimmed(description), priority) is Ok,
        entries(tasks_after(tasks, added(tasks, trimmed(description), priority))) == entries(
            tasks,
        ).push(
            EntryView {
                position: tasks.len() + 1,
                task: TaskView { description: trimmed(description), priority, completed: false },
            },
        ),
{
    let after = tasks_after(tasks, added(tasks, trimmed(description), priority));
    assert(entries(after) =~= entries(tasks).push(
        EntryView {
            position: tasks.len() + 1,
            task: TaskView { description: trimmed(description), priority, completed: false },
        },
    ));
}

/// Adding a task of whose description nothing is left after trimming, or
/// with a priority outside 1 to 5, is turned down and leaves the store, and
/// so its length, as it was.
pub proof fn lemma_rejected_add_changes_nothing(
    tasks: Seq<TaskView>,
    description: Seq<char>,
    priority: u8,
)
    requires
        trimmed(description).len() == 0 || !priority_in_range(priority as int),
    ensures
        added(tasks, trimmed(description), priority) is Err,
        tasks_after(tasks, added(tasks, trimmed(description), priority)) == tasks,
        tasks_after(tasks, added(tasks, trimmed(description), priority)).len() == tasks.len(),
{
}

/// Removing at a position that names a task leaves one task fewer: the
/// tasks before that position stay where they were and those after it move
/// up by one, so that exactly the task at the position is gone. Removing at
/// any other position, from an empty store too, is turned down and leaves
/// the store as it was.
pub proof fn lemma_remove_takes_out_one(tasks: Seq<TaskView>, index: int)
    ensures
        names_task(index, tasks.len() as int) ==> ({
            let after = tasks_after(tasks, removed(tasks, index));
            &&& removed(tasks, index) is Ok
            &&& after.len() == tasks.len() - 1
            &&& forall|k: int| 0 <= k < index - 1 ==> after[k] == tasks[k]
            &&& forall|k: int| index - 1 <= k < after.len() ==> after[k] == tasks[k + 1]
        }),
        !names_task(index, tasks.len() as int) ==> ({
            &&& removed(tasks, index) is Err
            &&& tasks_after(tasks, removed(tasks, index)) == tasks
        }),
{
}

/// Completing a task twice is the same as completing it once: the second
/// call is answered as the first was and leaves the store as the first left
/// it.
pub proof fn lemma_mark_complete_is_idempotent(tasks: Seq<TaskView>, index: int)
    ensures
        ({
            let once = tasks_after(tasks, marked_complete(tasks, index));
            &&& verdict(marked_complete(once, index)) == verdict(marked_complete(tasks, index))
            &&& tasks_after(once, marked_complete(once, index)) == once
        }),
{
    let once = tasks_after(tasks, marked_complete(tasks, index));
    assert(tasks_after(once, marked_complete(once, index)) =~= once);
}

/// Completion is one way: adding, completing and changing a priority leave
/// every task where it was, and a task that was completed stays completed.
pub proof fn lemma_completion_is_one_way(
    tasks: Seq<TaskView>,
    description: Seq<char>,
    index: int,
    priority: u8,
    k: int,
)
    requires
        0 <= k < tasks.len(),
        tasks[k].completed,
    ensures
        tasks_after(tasks, added(tasks, description, priority))[k].completed,
        tasks_after(tasks, marked_complete(tasks, index))[k].completed,
        tasks_after(tasks, reprioritized(tasks, index, priority))[k].completed,
{
}

/// A priority outside 1 to 5 is turned down and leaves every task, and so
/// its priority, as it was; a priority from 1 to 5, at a position that names
/// a task, becomes that task's priority and changes nothing else.
pub proof fn lemma_change_priority_overwrites_or_keeps(
    tasks: Seq<TaskView>,
    index: int,
    priority: u8,
)
    ensures
        ({
            let after = tasks_after(tasks, reprioritized(tasks, index, priority));
            &&& !priority_in_range(priority as int) ==> ({
                &&& reprioritized(tasks, index, priority) is Err
                &&& after == tasks
                &&& forall|k: int| 0 <= k < tasks.len() ==> after[k].priority == tasks[k].priority
            })
            &&& priority_in_range(priority as int) && names_task(index, tasks.len() as int) ==> ({
                &&& reprioritized(tasks, index, priority) is Ok
                &&& after.len() == tasks.len()
                &&& after[index - 1] == (TaskView { priority, ..tasks[index - 1] })
                &&& forall|k: int| 0 <= k < tasks.len() && k != index - 1 ==> after[k] == tasks[k]
            })
        }),
{
}

/// The completed and the pending entries together are all the entries, and
/// no entry is both: every position of the store shows up in exactly one of
/// the two listings.
pub proof fn lemma_completed_and_pending_split_the_listing(tasks: Seq<TaskView>)
    ensures
        entries_where(tasks, true).to_set().union(entries_where(tasks, false).to_set()) == entries(
            tasks,
        ).to_set(),
        entries_where(tasks, true).to_set().disjoint(entries_where(tasks, false).to_set()),
        entries_where(tasks, true).len() + entries_where(tasks, false).len() == tasks.len(),
{
    let all = entries(tasks);
    let done = |e: EntryView| e.task.completed == true;
    let open = |e: EntryView| e.task.completed == false;
    let left = all.filter(done);
    let right = all.filter(open);
    assert forall|e: EntryView|
        left.to_set().union(right.to_set()).contains(e) implies all.to_set().contains(e) by {
        if left.contains(e) {
            all.lemma_filter_contains_rev(done, e);
        } else {
            all.lemma_filter_contains_rev(open, e);
        }
    }
    assert forall|e: EntryView|
        all.to_set().contains(e) implies left.to_set().union(right.to_set()).contains(e) by {
        let i = choose|i: int| 0 <= i < all.len() && all[i] == e;
        if done(e) {
            all.lemma_filter_contains(done, i);
        } else {
            all.lemma_filter_contains(open, i);
        }
    }
    assert(left.to_set().union(right.to_set()) =~= all.to_set());
    assert forall|e: EntryView| left.to_set().contains(e) implies !right.to_set().contains(e) by {
        let i = choose|i: int| 0 <= i < left.len() && left[i] == e;
        all.lemma_filter_pred(done, i);
        if right.contains(e) {
            let j = choose|j: int| 0 <= j < right.len() && right[j] == e;
            all.lemma_filter_pred(open, j);
        }
    }
    lemma_split_lengths(all);
}

/// The completed and the pending among `all` are as many as `all`.
proof fn lemma_split_lengths(all: Seq<EntryView>)
    ensures
        all.filter(|e: EntryView| e.task.completed == true).len() + all.filter(
            |e: EntryView| e.task.completed == false,
        ).len() == all.len(),
    decreases all.len(),
{
    reveal(Seq::filter);
    if all.len() > 0 {
        lemma_split_lengths(all.drop_last());
    }
}

} // verus!
