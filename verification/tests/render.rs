use task_tracker::render::{notice_message, render_entry, render_prompt, render_reply, render_summary};
use task_tracker::session::{Notice, Reply, Session, Stage};
use task_tracker::store::{Entry, TaskStore};
use task_tracker::task::Task;

fn entry(position: usize, description: &str, priority: u8, completed: bool) -> Entry {
    let mut task = Task::new(description.to_string(), priority);
    if completed {
        task.complete();
    }
    Entry { position, task }
}

fn transcript(inputs: &[&str]) -> Vec<String> {
    let mut session = Session::new();
    let mut shown = Vec::new();
    for input in inputs {
        shown.extend(render_prompt(session.stage()));
        let reply = session.step(input);
        shown.extend(render_reply(&reply));
    }
    shown.extend(render_prompt(session.stage()));
    shown
}

const MENU: [&str; 9] = [
    "\nPlease enter your choice:",
    "1. Add task",
    "2. Remove task",
    "3. View all tasks",
    "4. View completed tasks",
    "5. View pending tasks",
    "6. Mark task as complete",
    "7. Change task priority",
    "8. Exit",
];

fn expect(parts: &[&[&str]]) -> Vec<String> {
    parts.iter().flat_map(|part| part.iter().map(|line| line.to_string())).collect()
}

#[test]
fn notice_messages() {
    assert_eq!(notice_message(Notice::NotANumber), "Invalid input. Please enter a number between 1-8.");
    assert_eq!(notice_message(Notice::UnknownChoice), "Wrong Input: Try Again");
    assert_eq!(notice_message(Notice::NoTasks), "No tasks found.");
    assert_eq!(notice_message(Notice::InvalidTaskNumber), "Invalid task number.");
    assert_eq!(notice_message(Notice::InvalidPriority), "Invalid priority. Must be between 1 and 5.");
    assert_eq!(notice_message(Notice::EmptyDescription), "Task description cannot be empty.");
    assert_eq!(notice_message(Notice::TaskAdded), "Task added successfully!");
    assert_eq!(notice_message(Notice::TaskRemoved), "Task removed successfully!");
    assert_eq!(notice_message(Notice::TaskCompleted), "Task marked as completed!");
    assert_eq!(notice_message(Notice::PriorityUpdated), "Priority updated successfully!");
    assert_eq!(notice_message(Notice::Exiting), "Exiting....");
}

#[test]
fn prompt_of_each_stage() {
    assert_eq!(render_prompt(&Stage::Menu), MENU.to_vec());
    assert_eq!(render_prompt(&Stage::AddDescription), vec!["Enter task description:"]);
    assert_eq!(
        render_prompt(&Stage::AddPriority { description: "x".to_string() }),
        vec!["Enter task priority (1-5):"]
    );
    assert_eq!(render_prompt(&Stage::RemoveNumber), vec!["Enter the task number to remove:"]);
    assert_eq!(
        render_prompt(&Stage::CompleteNumber),
        vec!["Enter the task number to mark as completed:"]
    );
    assert_eq!(
        render_prompt(&Stage::PriorityNumber),
        vec!["Enter the task number to change priority:"]
    );
    assert_eq!(render_prompt(&Stage::PriorityValue { index: 1 }), vec!["Enter new priority (1-5):"]);
    assert_eq!(render_prompt(&Stage::Finished), Vec::<String>::new());
}

#[test]
fn entry_line_shows_position_mark_priority_and_description() {
    assert_eq!(render_entry(&entry(1, "Buy milk", 3, false)), "1. [ ] Priority: 3 - Buy milk");
    assert_eq!(render_entry(&entry(1, "Buy milk", 3, true)), "1. [\u{2713}] Priority: 3 - Buy milk");
    assert_eq!(render_entry(&entry(12, "x - y", 5, false)), "12. [ ] Priority: 5 - x - y");
    assert_eq!(render_entry(&entry(1000, "\u{e9}t\u{e9}", 1, true)), "1000. [\u{2713}] Priority: 1 - \u{e9}t\u{e9}");
}

#[test]
fn summary_line_shows_priority_and_description() {
    assert_eq!(render_summary(&entry(1, "Buy milk", 3, false)), "- Priority: 3 | Buy milk");
    assert_eq!(render_summary(&entry(7, "Buy milk", 4, true)), "- Priority: 4 | Buy milk");
}

#[test]
fn reply_without_words_has_no_lines() {
    assert_eq!(render_reply(&Reply::Nothing), Vec::<String>::new());
}

#[test]
fn reply_with_a_notice_is_its_message() {
    assert_eq!(render_reply(&Reply::Notice(Notice::NoTasks)), vec!["No tasks found."]);
    assert_eq!(render_reply(&Reply::Notice(Notice::Exiting)), vec!["Exiting...."]);
}

#[test]
fn reply_with_all_tasks_has_a_heading_and_full_lines() {
    let mut store = TaskStore::new();
    assert!(store.add("Buy milk", 3).is_ok());
    assert!(store.add("Write report", 1).is_ok());
    assert!(store.mark_complete(2).is_ok());
    assert_eq!(
        render_reply(&Reply::Tasks(store.list())),
        vec![
            "\nTask List:",
            "1. [ ] Priority: 3 - Buy milk",
            "2. [\u{2713}] Priority: 1 - Write report",
        ]
    );
}

#[test]
fn reply_by_state_has_a_heading_and_short_lines() {
    let mut store = TaskStore::new();
    assert!(store.add("Buy milk", 3).is_ok());
    assert!(store.add("Write report", 1).is_ok());
    assert!(store.mark_complete(2).is_ok());
    assert_eq!(
        render_reply(&Reply::Completed(store.list_completed())),
        vec!["\nCompleted Tasks:", "- Priority: 1 | Write report"]
    );
    assert_eq!(
        render_reply(&Reply::Pending(store.list_pending())),
        vec!["\nPending Tasks:", "- Priority: 3 | Buy milk"]
    );
    assert_eq!(render_reply(&Reply::Completed(Vec::new())), vec!["\nCompleted Tasks:"]);
    assert_eq!(render_reply(&Reply::Pending(Vec::new())), vec!["\nPending Tasks:"]);
}

#[test]
fn transcript_of_an_immediate_exit() {
    assert_eq!(transcript(&["8\n"]), expect(&[&MENU, &["Exiting...."]]));
}

#[test]
fn transcript_of_bad_selections() {
    assert_eq!(
        transcript(&["hello\n", "9\n", "8\n"]),
        expect(&[
            &MENU,
            &["Invalid input. Please enter a number between 1-8."],
            &MENU,
            &["Wrong Input: Try Again"],
            &MENU,
            &["Exiting...."],
        ])
    );
}

#[test]
fn transcript_of_the_buy_milk_scenario() {
    let inputs = [
        "1\n", "Buy milk\n", "3\n", "3\n", "1\n", "\n", "2\n", "3\n", "6\n", "1\n", "3\n", "7\n",
        "1\n", "9\n", "3\n", "4\n", "5\n", "2\n", "1\n", "3\n", "8\n",
    ];
    assert_eq!(
        transcript(&inputs),
        expect(&[
            &MENU,
            &["Enter task description:", "Enter task priority (1-5):", "Task added successfully!"],
            &MENU,
            &["\nTask List:", "1. [ ] Priority: 3 - Buy milk"],
            &MENU,
            &[
                "Enter task description:",
                "Enter task priority (1-5):",
                "Task description cannot be empty.",
            ],
            &MENU,
            &["\nTask List:", "1. [ ] Priority: 3 - Buy milk"],
            &MENU,
            &[
                "\nTask List:",
                "1. [ ] Priority: 3 - Buy milk",
                "Enter the task number to mark as completed:",
                "Task marked as completed!",
            ],
            &MENU,
            &["\nTask List:", "1. [\u{2713}] Priority: 3 - Buy milk"],
            &MENU,
            &[
                "\nTask List:",
                "1. [\u{2713}] Priority: 3 - Buy milk",
                "Enter the task number to change priority:",
                "Enter new priority (1-5):",
                "Invalid priority. Must be between 1 and 5.",
            ],
            &MENU,
            &["\nTask List:", "1. [\u{2713}] Priority: 3 - Buy milk"],
            &MENU,
            &["\nCompleted Tasks:", "- Priority: 3 | Buy milk"],
            &MENU,
            &["\nPending Tasks:"],
            &MENU,
            &[
                "\nTask List:",
                "1. [\u{2713}] Priority: 3 - Buy milk",
                "Enter the task number to remove:",
                "Task removed successfully!",
            ],
            &MENU,
            &["No tasks found."],
            &MENU,
            &["Exiting...."],
        ])
    );
}

#[test]
fn transcript_of_actions_on_an_empty_store() {
    assert_eq!(
        transcript(&["2\n", "6\n", "7\n", "3\n", "4\n", "5\n"]),
        expect(&[
            &MENU,
            &["No tasks found."],
            &MENU,
            &["No tasks found."],
            &MENU,
            &["No tasks found."],
            &MENU,
            &["No tasks found."],
            &MENU,
            &["\nCompleted Tasks:"],
            &MENU,
            &["\nPending Tasks:"],
            &MENU,
        ])
    );
}

#[test]
fn transcript_of_bad_task_numbers() {
    assert_eq!(
        transcript(&["1\n", "a\n", "1\n", "2\n", "2\n", "7\n", "0\n", "6\n", "x\n"]),
        expect(&[
            &MENU,
            &["Enter task description:", "Enter task priority (1-5):", "Task added successfully!"],
            &MENU,
            &[
                "\nTask List:",
                "1. [ ] Priority: 1 - a",
                "Enter the task number to remove:",
                "Invalid task number.",
            ],
            &MENU,
            &[
                "\nTask List:",
                "1. [ ] Priority: 1 - a",
                "Enter the task number to change priority:",
                "Invalid task number.",
            ],
            &MENU,
            &[
                "\nTask List:",
                "1. [ ] Priority: 1 - a",
                "Enter the task number to mark as completed:",
                "Invalid task number.",
            ],
            &MENU,
        ])
    );
}
