//! One interactive session: the store, the point the dialogue has reached,
//! and what each line of input leads to. Reading the lines and showing the
//! replies is left to the caller.

use vstd::prelude::*;
use crate::error::StoreError;
use crate::menu::{select, selection_of, MenuChoice, Selection};
use crate::model::{
    added, all_valid, entries, entries_where, located, marked_complete, names_task, removed,
    reprioritized, tasks_after, EntryView,
};
use crate::number::{parse_unsigned, unsigned_literal, within};
use crate::store::{entry_views, Entry, TaskStore};
use crate::task::TaskView;
use crate::text::{trim, trimmed};

verus! {

/// What the session has to say after a line of input, apart from listings.
#[derive(Debug, Clone, Copy, PartialEq, Eq, Structural)]
pub enum Notice {
    /// The menu selection was not a number.
    NotANumber,
    /// The menu selection was a number that no action has.
    UnknownChoice,
    /// There are no tasks.
    NoTasks,
    /// The task number names no task, or is no number.
    InvalidTaskNumber,
    /// The priority is not a number from 1 to 5.
    InvalidPriority,
    /// The description was empty.
    EmptyDescription,
    /// A task was added.
    TaskAdded,
    /// A task was removed.
    TaskRemoved,
    /// A task was marked as completed.
    TaskCompleted,
    /// A task got another priority.
    PriorityUpdated,
    /// The session is over.
    Exiting,
}

/// The point the dialogue has reached: what the next line of input is taken for.
#[derive(Debug)]
pub enum Stage {
    /// A selection from the main menu.
    Menu,
    /// The description of a task to add.
    AddDescription,
    /// The priority of a task to add, whose description was given.
    AddPriority { description: String },
    /// The number of a task to remove.
    RemoveNumber,
    /// The number of a task to mark as completed.
    CompleteNumber,
    /// The number of a task whose priority is to change.
    PriorityNumber,
    /// The new priority of the task at position `index`.
    PriorityValue { index: usize },
    /// Nothing: the session is over.
    Finished,
}

/// A stage as plain mathematical data.
pub enum StageView {
    Menu,
    AddDescription,
    AddPriority { description: Seq<char> },
    RemoveNumber,
    CompleteNumber,
    PriorityNumber,
    PriorityValue { index: nat },
    Finished,
}

impl View for Stage {
    type V = StageView;

    open spec fn view(&self) -> StageView {
        match self {
            Stage::Menu => StageView::Menu,
            Stage::AddDescription => StageView::AddDescription,
            Stage::AddPriority { description } => StageView::AddPriority {
                description: description@,
            },
            Stage::RemoveNumber => StageView::RemoveNumber,
            Stage::CompleteNumber => StageView::CompleteNumber,
            Stage::PriorityNumber => StageView::PriorityNumber,
            Stage::PriorityValue { index } => StageView::PriorityValue { index: *index as nat },
            Stage::Finished => StageView::Finished,
        }
    }
}

/// What a line of input is answered with.
#[derive(Debug)]
pub enum Reply {
    /// Nothing to say; the next prompt follows.
    Nothing,
    /// A message.
    Notice(Notice),
    /// All tasks, of which there is at least one.
    Tasks(Vec<Entry>),
    /// The completed tasks.
    Completed(Vec<Entry>),
    /// The tasks still to be done.
    Pending(Vec<Entry>),
}

/// A reply as plain mathematical data.
pub enum ReplyView {
    Nothing,
    Notice(Notice),
    Tasks(Seq<EntryView>),
    Completed(Seq<EntryView>),
    Pending(Seq<EntryView>),
}

impl View for Reply {
    type V = ReplyView;

    open spec fn view(&self) -> ReplyView {
        match self {
            Reply::Nothing => ReplyView::Nothing,
            Reply::Notice(notice) => ReplyView::Notice(*notice),
            Reply::Tasks(listing) => ReplyView::Tasks(entry_views(listing@)),
            Reply::Completed(listing) => ReplyView::Completed(entry_views(listing@)),
            Reply::Pending(listing) => ReplyView::Pending(entry_views(listing@)),
        }
    }
}

/// A session as plain mathematical data: the tasks and the stage.
pub struct SessionView {
    pub tasks: Seq<TaskView>,
    pub stage: StageView,
}

impl SessionView {
    /// The session is well formed: its tasks are fit to be stored, a task
    /// number is asked for only while there are tasks, and a new priority
    /// only for a position that names a task.
    pub open spec fn wf(self) -> bool {
        &&& all_valid(self.tasks)
        &&& match self.stage {
            StageView::RemoveNumber | StageView::CompleteNumber | StageView::PriorityNumber
                => self.tasks.len() > 0,
            StageView::PriorityValue { index } => names_task(
                index as int,
                self.tasks.len() as int,
            ),
            _ => true,
        }
    }

    /// The session with the same tasks at another stage.
    pub open spec fn at(self, stage: StageView) -> SessionView {
        SessionView { tasks: self.tasks, stage }
    }
}

/// One turn of the dialogue: the session afterwards and the reply.
pub struct Turn {
    pub state: SessionView,
    pub reply: ReplyView,
}

/// The message for a request that the store turned down.
pub open spec fn notice_of(error: StoreError) -> Notice {
    match error {
        StoreError::EmptyStore => Notice::NoTasks,
        StoreError::InvalidIndex => Notice::InvalidTaskNumber,
        StoreError::InvalidPriority => Notice::InvalidPriority,
        StoreError::EmptyDescription => Notice::EmptyDescription,
    }
}

/// The task number that `line` gives: the white space around it counts for
/// nothing, and what is left is read as a numeral without a minus sign.
pub open spec fn number_of(line: Seq<char>) -> Option<nat> {
    unsigned_literal(trimmed(line))
}

/// The position that `line` gives among `count` tasks: the number it gives,
/// unless that is greater than `count`.
pub open spec fn position_of(line: Seq<char>, count: nat) -> Option<nat> {
    match number_of(line) {
        Some(n) => if n <= count {
            Some(n)
        } else {
            None
        },
        None => None,
    }
}

/// The priority that `line` gives, read as a task number is; a number that 8
/// bits do not hold is none.
pub open spec fn priority_of(line: Seq<char>) -> Option<u8> {
    match within(number_of(line), u8::MAX as u64) {
        Some(n) => Some(n as u8),
        None => None,
    }
}

/// Back to the menu with a message, the tasks as they were.
pub open spec fn dismissed(tasks: Seq<TaskView>, notice: Notice) -> Turn {
    Turn { state: SessionView { tasks, stage: StageView::Menu }, reply: ReplyView::Notice(notice) }
}

/// Back to the menu after an operation of the store: with `done` and the new
/// tasks where it went through, with the reason and the tasks as they were
/// where it did not.
pub open spec fn settled(
    tasks: Seq<TaskView>,
    outcome: Result<Seq<TaskView>, StoreError>,
    done: Notice,
) -> Turn {
    match outcome {
        Ok(_) => dismissed(tasks_after(tasks, outcome), done),
        Err(error) => dismissed(tasks, notice_of(error)),
    }
}

/// All tasks are shown and the dialogue goes on at `stage`; with no tasks,
/// back to the menu saying so.
pub open spec fn listed_then(tasks: Seq<TaskView>, stage: StageView) -> Turn {
    if tasks.len() == 0 {
        dismissed(tasks, Notice::NoTasks)
    } else {
        Turn { state: SessionView { tasks, stage }, reply: ReplyView::Tasks(entries(tasks)) }
    }
}

/// The turn that a selection from the menu leads to.
pub open spec fn menu_turn(tasks: Seq<TaskView>, selection: Selection) -> Turn {
    let stay = SessionView { tasks, stage: StageView::Menu };
    match selection {
        Selection::NotANumber => dismissed(tasks, Notice::NotANumber),
        Selection::OutOfRange => dismissed(tasks, Notice::UnknownChoice),
        Selection::Chosen(MenuChoice::Add) => Turn {
            state: stay.at(StageView::AddDescription),
            reply: ReplyView::Nothing,
        },
        Selection::Chosen(MenuChoice::Remove) => listed_then(tasks, StageView::RemoveNumber),
        Selection::Chosen(MenuChoice::ViewAll) => listed_then(tasks, StageView::Menu),
        Selection::Chosen(MenuChoice::ViewCompleted) => Turn {
            state: stay,
            reply: ReplyView::Completed(entries_where(tasks, true)),
        },
        Selection::Chosen(MenuChoice::ViewPending) => Turn {
            state: stay,
            reply: ReplyView::Pending(entries_where(tasks, false)),
        },
        Selection::Chosen(MenuChoice::MarkComplete) => listed_then(
            tasks,
            StageView::CompleteNumber,
        ),
        Selection::Chosen(MenuChoice::ChangePriority) => listed_then(
            tasks,
            StageView::PriorityNumber,
        ),
        Selection::Chosen(MenuChoice::Exit) => Turn {
            state: stay.at(StageView::Finished),
            reply: ReplyView::Notice(Notice::Exiting),
        },
    }
}

/// The turn that the line `line` leads to in the session `state`.
///
/// At the menu the line selects an action. Adding asks for the description,
/// which is kept without the white space around it, and then for the
/// priority; only then is either looked at, the priority first. Removing,
/// completing and changing a priority show the tasks and ask for a task
/// number; a line that gives no number, or one greater than the number of
/// tasks, is no task number. Changing a priority asks for the priority only
/// once the number has been found to name a task. Whatever goes wrong ends
/// the action and leads back to the menu with the tasks as they were.
pub open spec fn turn(state: SessionView, line: Seq<char>) -> Turn {
    let tasks = state.tasks;
    match state.stage {
        StageView::Menu => menu_turn(tasks, selection_of(line)),
        StageView::AddDescription => Turn {
            state: state.at(StageView::AddPriority { description: trimmed(line) }),
            reply: ReplyView::Nothing,
        },
        StageView::AddPriority { description } => match priority_of(line) {
            Some(priority) => settled(tasks, added(tasks, description, priority), Notice::TaskAdded),
            None => dismissed(tasks, Notice::InvalidPriority),
        },
        StageView::RemoveNumber => match position_of(line, tasks.len()) {
            Some(index) => settled(tasks, removed(tasks, index as int), Notice::TaskRemoved),
            None => dismissed(tasks, Notice::InvalidTaskNumber),
        },
        StageView::CompleteNumber => match position_of(line, tasks.len()) {
            Some(index) => settled(
                tasks,
                marked_complete(tasks, index as int),
                Notice::TaskCompleted,
            ),
            None => dismissed(tasks, Notice::InvalidTaskNumber),
        },
        StageView::PriorityNumber => match position_of(line, tasks.len()) {
            Some(index) => match located(tasks, index as int) {
                Ok(_) => Turn {
                    state: state.at(StageView::PriorityValue { index }),
                    reply: ReplyView::Nothing,
                },
                Err(error) => dismissed(tasks, notice_of(error)),
            },
            None => dismissed(tasks, Notice::InvalidTaskNumber),
        },
        StageView::PriorityValue { index } => match priority_of(line) {
            Some(priority) => settled(
                tasks,
                reprioritized(tasks, index as int, priority),
                Notice::PriorityUpdated,
            ),
            None => dismissed(tasks, Notice::InvalidPriority),
        },
        StageView::Finished => Turn { state, reply: ReplyView::Nothing },
    }
}

/// Whether `notice` says that something was added, removed or changed.
pub open spec fn reports_change(notice: Notice) -> bool {
    notice == Notice::TaskAdded || notice == Notice::TaskRemoved || notice == Notice::TaskCompleted
        || notice == Notice::PriorityUpdated
}

/// A well-formed session stays well formed, whatever the line.
pub proof fn lemma_turn_keeps_session_well_formed(state: SessionView, line: Seq<char>)
    requires
        state.wf(),
    ensures
        turn(state, line).state.wf(),
{
}

/// The tasks change only in a turn that says so: every other turn, and so
/// every one in which something was turned down, leaves them as they were.
/// And every turn that ends with a message leads back to the menu, but for
/// the one that ends the session.
pub proof fn lemma_turn_changes_tasks_only_as_told(state: SessionView, line: Seq<char>)
    ensures
        ({
            let next = turn(state, line);
            &&& next.state.tasks != state.tasks ==> (next.reply matches ReplyView::Notice(notice)
                && reports_change(notice))
            &&& next.reply matches ReplyView::Notice(notice) ==> (if notice == Notice::Exiting {
                next.state.stage is Finished
            } else {
                next.state.stage is Menu
            })
        }),
{
}

/// The message for a request that the store turned down.
pub fn notice_for(error: StoreError) -> (notice: Notice)
    ensures
        notice == notice_of(error),
{
    match error {
        StoreError::EmptyStore => Notice::NoTasks,
        StoreError::InvalidIndex => Notice::InvalidTaskNumber,
        StoreError::InvalidPriority => Notice::InvalidPriority,
        StoreError::EmptyDescription => Notice::EmptyDescription,
    }
}

/// Reads a line of input as a position among `count` tasks.
pub fn read_position(line: &str, count: usize) -> (position: Option<usize>)
    ensures
        position matches Some(index) ==> position_of(line@, count as nat) == Some(index as nat),
        position is None ==> position_of(line@, count as nat) is None,
{
    match parse_unsigned(trim(line), count as u64) {
        Some(n) => Some(n as usize),
        None => None,
    }
}

/// Reads a line of input as a priority.
pub fn read_priority(line: &str) -> (priority: Option<u8>)
    ensures
        priority == priority_of(line@),
{
    match parse_unsigned(trim(line), u8::MAX as u64) {
        Some(n) => Some(n as u8),
        None => None,
    }
}

/// One interactive session: the tasks and the stage of the dialogue.
#[derive(Debug)]
pub struct Session {
    store: TaskStore,
    stage: Stage,
}

impl View for Session {
    type V = SessionView;

    closed spec fn view(&self) -> SessionView {
        SessionView { tasks: self.store@, stage: self.stage@ }
    }
}

impl Session {
    /// The session is well formed, as its model says.
    pub open spec fn wf(&self) -> bool {
        self@.wf()
    }

    /// A session with no tasks, at the menu.
    pub fn new() -> (session: Session)
        ensures
            session.wf(),
            session@ == (SessionView { tasks: Seq::<TaskView>::empty(), stage: StageView::Menu }),
    {
        Session { store: TaskStore::new(), stage: Stage::Menu }
    }

    /// The tasks of the session.
    pub fn store(&self) -> (store: &TaskStore)
        ensures
            store@ == self@.tasks,
            self.wf() ==> store.wf(),
    {
        &self.store
    }

    /// The stage of the dialogue: what the next line of input is taken for.
    pub fn stage(&self) -> (stage: &Stage)
        ensures
            stage@ == self@.stage,
    {
        &self.stage
    }

    /// Whether the session is over.
    pub fn is_finished(&self) -> (finished: bool)
        ensures
            finished == (self@.stage is Finished),
    {
        match self.stage {
            Stage::Finished => true,
            _ => false,
        }
    }

    /// Takes one line of input: the session moves on as `turn` says, and the
    /// reply to show is returned.
    pub fn step(&mut self, line: &str) -> (reply: Reply)
        ensures
            final(self)@ == turn(old(self)@, line@).state,
            reply@ == turn(old(self)@, line@).reply,
            old(self).wf() ==> final(self).wf(),
    {
        match &self.stage {
            Stage::Menu => self.act_on(select(line)),
            Stage::AddDescription => {
                self.stage = Stage::AddPriority { description: trim(line).to_owned() };
                Reply::Nothing
            },
            Stage::AddPriority { description } => {
                let description = description.clone();
                self.stage = Stage::Menu;
                match read_priority(line) {
                    Some(priority) => settle(
                        self.store.append(description, priority),
                        Notice::TaskAdded,
                    ),
                    None => Reply::Notice(Notice::InvalidPriority),
                }
            },
            Stage::RemoveNumber => {
                self.stage = Stage::Menu;
                match read_position(line, self.store.len()) {
                    Some(index) => settle(self.store.remove(index), Notice::TaskRemoved),
                    None => Reply::Notice(Notice::InvalidTaskNumber),
                }
            },
            Stage::CompleteNumber => {
                self.stage = Stage::Menu;
                match read_position(line, self.store.len()) {
                    Some(index) => settle(self.store.mark_complete(index), Notice::TaskCompleted),
                    None => Reply::Notice(Notice::InvalidTaskNumber),
                }
            },
            Stage::PriorityNumber => match read_position(line, self.store.len()) {
                Some(index) => match self.store.locate(index) {
                    Ok(_) => {
                        self.stage = Stage::PriorityValue { index };
                        Reply::Nothing
                    },
                    Err(error) => {
                        self.stage = Stage::Menu;
                        Reply::Notice(notice_for(error))
                    },
                },
                None => {
                    self.stage = Stage::Menu;
                    Reply::Notice(Notice::InvalidTaskNumber)
                },
            },
            Stage::PriorityValue { index } => {
                let index = *index;
                self.stage = Stage::Menu;
                match read_priority(line) {
                    Some(priority) => settle(
                        self.store.change_priority(index, priority),
                        Notice::PriorityUpdated,
                    ),
                    None => Reply::Notice(Notice::InvalidPriority),
                }
            },
            Stage::Finished => Reply::Nothing,
        }
    }

    /// Acts on a selection from the menu.
    fn act_on(&mut self, selection: Selection) -> (reply: Reply)
        requires
            old(self)@.stage is Menu,
        ensures
            final(self)@ == menu_turn(old(self)@.tasks, selection).state,
            reply@ == menu_turn(old(self)@.tasks, selection).reply,
    {
        match selection {
            Selection::NotANumber => Reply::Notice(Notice::NotANumber),
            Selection::OutOfRange => Reply::Notice(Notice::UnknownChoice),
            Selection::Chosen(MenuChoice::Add) => {
                self.stage = Stage::AddDescription;
                Reply::Nothing
            },
            Selection::Chosen(MenuChoice::Remove) => self.list_then(Stage::RemoveNumber),
            Selection::Chosen(MenuChoice::ViewAll) => self.list_then(Stage::Menu),
            Selection::Chosen(MenuChoice::ViewCompleted) => Reply::Completed(
                self.store.list_completed(),
            ),
            Selection::Chosen(MenuChoice::ViewPending) => Reply::Pending(self.store.list_pending()),
            Selection::Chosen(MenuChoice::MarkComplete) => self.list_then(
                Stage::CompleteNumber,
            ),
            Selection::Chosen(MenuChoice::ChangePriority) => self.list_then(
                Stage::PriorityNumber,
            ),
            Selection::Chosen(MenuChoice::Exit) => {
                self.stage = Stage::Finished;
                Reply::Notice(Notice::Exiting)
            },
        }
    }

    /// Shows the tasks and goes on at `stage`, or says that there are none.
    fn list_then(&mut self, stage: Stage) -> (reply: Reply)
        requires
            old(self)@.stage is Menu,
        ensures
            final(self)@ == listed_then(old(self)@.tasks, stage@).state,
            reply@ == listed_then(old(self)@.tasks, stage@).reply,
    {
        if self.store.is_empty() {
            Reply::Notice(Notice::NoTasks)
        } else {
            self.stage = stage;
            Reply::Tasks(self.store.list())
        }
    }
}

/// The reply after an operation of the store: `done` where it went through,
/// the reason where it did not.
fn settle(result: Result<(), StoreError>, done: Notice) -> (reply: Reply)
    ensures
        reply@ == ReplyView::Notice(
            match result {
                Ok(_) => done,
                Err(error) => notice_of(error),
            },
        ),
{
    match result {
        Ok(_) => Reply::Notice(done),
        Err(error) => Reply::Notice(notice_for(error)),
    }
}

} // verus!
