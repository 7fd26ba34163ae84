//! The text of the dialogue: the menu, the prompts, the messages and the
//! lines of a listing. Each item of a result is one line to show.

use vstd::prelude::*;
use vstd::string::StringExecFns;
use crate::model::EntryView;
use crate::number::{decimal, to_decimal};
use crate::session::{Notice, Reply, ReplyView, Stage, StageView};
use crate::store::{entry_views, Entry};

verus! {

/// The text of a message.
pub open spec fn notice_text(notice: Notice) -> Seq<char> {
    match notice {
        Notice::NotANumber => "Invalid input. Please enter a number between 1-8."@,
        Notice::UnknownChoice => "Wrong Input: Try Again"@,
        Notice::NoTasks => "No tasks found."@,
        Notice::InvalidTaskNumber => "Invalid task number."@,
        Notice::InvalidPriority => "Invalid priority. Must be between 1 and 5."@,
        Notice::EmptyDescription => "Task description cannot be empty."@,
        Notice::TaskAdded => "Task added successfully!"@,
        Notice::TaskRemoved => "Task removed successfully!"@,
        Notice::TaskCompleted => "Task marked as completed!"@,
        Notice::PriorityUpdated => "Priority updated successfully!"@,
        Notice::Exiting => "Exiting...."@,
    }
}

/// The lines of the main menu.
pub open spec fn menu_lines() -> Seq<Seq<char>> {
    seq![
        "\nPlease enter your choice:"@,
        "1. Add task"@,
        "2. Remove task"@,
        "3. View all tasks"@,
        "4. View completed tasks"@,
        "5. View pending tasks"@,
        "6. Mark task as complete"@,
        "7. Change task priority"@,
        "8. Exit"@,
    ]
}

/// What is shown before the next line of input is read: the menu, the
/// question of the stage, or nothing once the session is over.
pub open spec fn prompt_lines(stage: StageView) -> Seq<Seq<char>> {
    match stage {
        StageView::Menu => menu_lines(),
        StageView::AddDescription => seq!["Enter task description:"@],
        StageView::AddPriority { .. } => seq!["Enter task priority (1-5):"@],
        StageView::RemoveNumber => seq!["Enter the task number to remove:"@],
        StageView::CompleteNumber => seq!["Enter the task number to mark as completed:"@],
        StageView::PriorityNumber => seq!["Enter the task number to change priority:"@],
        StageView::PriorityValue { .. } => seq!["Enter new priority (1-5):"@],
        StageView::Finished => Seq::empty(),
    }
}

/// The mark of a task in the full listing: a check mark once it is
/// completed, a blank before.
pub open spec fn mark_text(completed: bool) -> Seq<char> {
    if completed {
        "\u{2713}"@
    } else {
        " "@
    }
}

/// The line of a task in the full listing: position, mark, priority and
/// description.
pub open spec fn entry_line(entry: EntryView) -> Seq<char> {
    decimal(entry.position) + ". ["@ + mark_text(entry.task.completed) + "] Priority: "@ + decimal(
        entry.task.priority as nat,
    ) + " - "@ + entry.task.description
}

/// The line of a task in a listing by state: priority and description.
pub open spec fn summary_line(entry: EntryView) -> Seq<char> {
    "- Priority: "@ + decimal(entry.task.priority as nat) + " | "@ + entry.task.description
}

/// The line of a task in a listing: the full one where `full` is set, the
/// short one where it is not.
pub open spec fn line_of(entry: EntryView, full: bool) -> Seq<char> {
    if full {
        entry_line(entry)
    } else {
        summary_line(entry)
    }
}

/// A heading and below it one line for each entry, in order.
pub open spec fn listing_lines(heading: Seq<char>, listing: Seq<EntryView>, full: bool) -> Seq<
    Seq<char>,
> {
    seq![heading] + listing.map_values(|e: EntryView| line_of(e, full))
}

/// The lines of a reply: none, the message, or a listing. All tasks are
/// listed with full lines, the completed and the pending ones with short
/// lines.
pub open spec fn reply_lines(reply: ReplyView) -> Seq<Seq<char>> {
    match reply {
        ReplyView::Nothing => Seq::empty(),
        ReplyView::Notice(notice) => seq![notice_text(notice)],
        ReplyView::Tasks(listing) => listing_lines("\nTask List:"@, listing, true),
        ReplyView::Completed(listing) => listing_lines("\nCompleted Tasks:"@, listing, false),
        ReplyView::Pending(listing) => listing_lines("\nPending Tasks:"@, listing, false),
    }
}

/// The texts of `lines`, in the same order.
pub open spec fn line_views(lines: Seq<String>) -> Seq<Seq<char>> {
    lines.map_values(|line: String| line@)
}

/// The text of a message.
pub fn notice_message(notice: Notice) -> (text: &'static str)
    ensures
        text@ == notice_text(notice),
{
    match notice {
        Notice::NotANumber => "Invalid input. Please enter a number between 1-8.",
        Notice::UnknownChoice => "Wrong Input: Try Again",
        Notice::NoTasks => "No tasks found.",
        Notice::InvalidTaskNumber => "Invalid task number.",
        Notice::InvalidPriority => "Invalid priority. Must be between 1 and 5.",
        Notice::EmptyDescription => "Task description cannot be empty.",
        Notice::TaskAdded => "Task added successfully!",
        Notice::TaskRemoved => "Task removed successfully!",
        Notice::TaskCompleted => "Task marked as completed!",
        Notice::PriorityUpdated => "Priority updated successfully!",
        Notice::Exiting => "Exiting....",
    }
}

/// One line, as a listing of one.
fn single(text: &str) -> (lines: Vec<String>)
    ensures
        line_views(lines@) == seq![text@],
{
    let mut lines: Vec<String> = Vec::new();
    lines.push(text.to_owned());
    assert(line_views(lines@) =~= seq![text@]);
    lines
}

/// Puts `text` after `lines`.
fn push_line(lines: &mut Vec<String>, text: &str)
    ensures
        line_views(final(lines)@) == line_views(old(lines)@).push(text@),
{
    lines.push(text.to_owned());
    assert(line_views(lines@) =~= line_views(old(lines)@).push(text@));
}

/// What is shown before the next line of input is read.
pub fn render_prompt(stage: &Stage) -> (lines: Vec<String>)
    ensures
        line_views(lines@) == prompt_lines(stage@),
{
    match stage {
        Stage::Menu => {
            let mut lines = single("\nPlease enter your choice:");
            push_line(&mut lines, "1. Add task");
            push_line(&mut lines, "2. Remove task");
            push_line(&mut lines, "3. View all tasks");
            push_line(&mut lines, "4. View completed tasks");
            push_line(&mut lines, "5. View pending tasks");
            push_line(&mut lines, "6. Mark task as complete");
            push_line(&mut lines, "7. Change task priority");
            push_line(&mut lines, "8. Exit");
            assert(line_views(lines@) =~= menu_lines());
            lines
        },
        Stage::AddDescription => single("Enter task description:"),
        Stage::AddPriority { .. } => single("Enter task priority (1-5):"),
        Stage::RemoveNumber => single("Enter the task number to remove:"),
        Stage::CompleteNumber => single("Enter the task number to mark as completed:"),
        Stage::PriorityNumber => single("Enter the task number to change priority:"),
        Stage::PriorityValue { .. } => single("Enter new priority (1-5):"),
        Stage::Finished => {
            let lines: Vec<String> = Vec::new();
            assert(line_views(lines@) =~= Seq::<Seq<char>>::empty());
            lines
        },
    }
}

/// The line of a task in the full listing.
pub fn render_entry(entry: &Entry) -> (line: String)
    ensures
        line@ == entry_line(entry@),
{
    let mut line = to_decimal(entry.position as u64);
    line.append(". [");
    if entry.task.is_completed() {
        line.append("\u{2713}");
    } else {
        line.append(" ");
    }
    line.append("] Priority: ");
    line.append(to_decimal(entry.task.priority() as u64).as_str());
    line.append(" - ");
    line.append(entry.task.description());
    line
}

/// The line of a task in a listing by state.
pub fn render_summary(entry: &Entry) -> (line: String)
    ensures
        line@ == summary_line(entry@),
{
    let mut line = "- Priority: ".to_owned();
    line.append(to_decimal(entry.task.priority() as u64).as_str());
    line.append(" | ");
    line.append(entry.task.description());
    line
}

/// A heading and below it one line for each entry.
fn render_listing(heading: &str, listing: &Vec<Entry>, full: bool) -> (lines: Vec<String>)
    ensures
        line_views(lines@) == listing_lines(heading@, entry_views(listing@), full),
{
    let ghost shown = |e: EntryView| line_of(e, full);
    let mut lines = single(heading);
    let n: usize = listing.len();
    let mut i: usize = 0;
    assert(line_views(lines@) =~= seq![heading@] + entry_views(listing@).take(0).map_values(shown));
    while i < n
        invariant
            i <= n,
            n == listing@.len(),
            shown == |e: EntryView| line_of(e, full),
            line_views(lines@) == seq![heading@] + entry_views(listing@).take(i as int).map_values(
                shown,
            ),
        decreases n - i,
    {
        let line = if full {
            render_entry(&listing[i])
        } else {
            render_summary(&listing[i])
        };
        let ghost before = line_views(lines@);
        lines.push(line);
        proof {
            assert(line_views(lines@) =~= before.push(line@));
            assert(entry_views(listing@).take(i + 1).map_values(shown) =~= entry_views(
                listing@,
            ).take(i as int).map_values(shown).push(line@));
        }
        i += 1;
    }
    assert(entry_views(listing@).take(n as int) =~= entry_views(listing@));
    lines
}

/// The lines of a reply.
pub fn render_reply(reply: &Reply) -> (lines: Vec<String>)
    ensures
        line_views(lines@) == reply_lines(reply@),
{
    match reply {
        Reply::Nothing => {
            let lines: Vec<String> = Vec::new();
            assert(line_views(lines@) =~= Seq::<Seq<char>>::empty());
            lines
        },
        Reply::Notice(notice) => single(notice_message(*notice)),
        Reply::Tasks(listing) => render_listing("\nTask List:", listing, true),
        Reply::Completed(listing) => render_listing("\nCompleted Tasks:", listing, false),
        Reply::Pending(listing) => render_listing("\nPending Tasks:", listing, false),
    }
}

} // verus!
