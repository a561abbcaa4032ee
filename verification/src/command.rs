//! The commands of the tracker and what each of them does to the store.

use vstd::prelude::*;
use vstd::string::*;
use crate::error::{TaskError, ValidationError};
use crate::notification::{body_text, send_notification, summary_text, Notification};
use crate::date::{clock_today, Date};
use crate::render::{display_on, displayed, shows, Line, Style};
use crate::store::{lemma_complete_of_unknown_id_changes_nothing, recorded_date, StoreModel, TaskStore};
use crate::sync::Direction;
use crate::text::{number_of, owned_text_of, parse_number, same_text, text_of};

verus! {

/// A command as the user gave it.
#[derive(Debug, PartialEq, Eq)]
pub enum Command {
    /// `add <description> [--due <YYYY-MM-DD>]`
    Add { description: String, due_date: Option<String> },
    /// `delete`
    Delete,
    /// `done <id>`
    Done { task: String },
    /// `sync-local`
    SyncLocal,
    /// `sync-cloud`
    SyncCloud,
    /// `list`
    List,
    /// Anything else, or nothing.
    Unmatched,
}

/// A command as contracts see it.
pub ghost enum CommandView {
    Add { description: Seq<char>, due_date: Option<Seq<char>> },
    Delete,
    Done { task: Seq<char> },
    SyncLocal,
    SyncCloud,
    List,
    Unmatched,
}

impl View for Command {
    type V = CommandView;

    open spec fn view(&self) -> CommandView {
        match *self {
            Command::Add { description, due_date } => CommandView::Add {
                description: description@,
                due_date: owned_text_of(due_date),
            },
            Command::Delete => CommandView::Delete,
            Command::Done { task } => CommandView::Done { task: task@ },
            Command::SyncLocal => CommandView::SyncLocal,
            Command::SyncCloud => CommandView::SyncCloud,
            Command::List => CommandView::List,
            Command::Unmatched => CommandView::Unmatched,
        }
    }
}

/// The command that a subcommand name and its arguments stand for. A
/// positional argument that is missing counts as the empty text.
pub open spec fn command_of(
    name: Option<Seq<char>>,
    task: Option<Seq<char>>,
    due: Option<Seq<char>>,
) -> CommandView {
    let word = match task {
        Some(t) => t,
        None => Seq::<char>::empty(),
    };
    match name {
        None => CommandView::Unmatched,
        Some(n) => if n == "add"@ {
            CommandView::Add { description: word, due_date: due }
        } else if n == "delete"@ {
            CommandView::Delete
        } else if n == "done"@ {
            CommandView::Done { task: word }
        } else if n == "sync-local"@ {
            CommandView::SyncLocal
        } else if n == "sync-cloud"@ {
            CommandView::SyncCloud
        } else if n == "list"@ {
            CommandView::List
        } else {
            CommandView::Unmatched
        },
    }
}

/// Whether a command reads or changes the tasks.
pub open spec fn touches_tasks(command: CommandView) -> bool {
    command is Add || command is Delete || command is Done || command is List
}

impl Command {
    /// Whether the command reads or changes the tasks, so that the stored
    /// records have to be at hand to run it.
    pub fn needs_store(&self) -> (r: bool)
        ensures
            r == touches_tasks(self@),
    {
        match self {
            Command::Add { .. } | Command::Delete | Command::Done { .. } | Command::List => true,
            Command::SyncLocal | Command::SyncCloud | Command::Unmatched => false,
        }
    }

    /// Makes a command from the name of the subcommand, its positional
    /// argument and the value of `--due`, each as far as it was given.
    pub fn from_parts(name: Option<&str>, task: Option<&str>, due: Option<&str>) -> (r: Command)
        ensures
            r@ == command_of(text_of(name), text_of(task), text_of(due)),
    {
        let word = match task {
            Some(t) => String::from_str(t),
            None => String::new(),
        };
        let name = match name {
            Some(n) => n,
            None => {
                return Command::Unmatched;
            },
        };
        if same_text(name, "add") {
            let due_date = match due {
                Some(d) => Some(String::from_str(d)),
                None => None,
            };
            Command::Add { description: word, due_date }
        } else if same_text(name, "delete") {
            Command::Delete
        } else if same_text(name, "done") {
            Command::Done { task: word }
        } else if same_text(name, "sync-local") {
            Command::SyncLocal
        } else if same_text(name, "sync-cloud") {
            Command::SyncCloud
        } else if same_text(name, "list") {
            Command::List
        } else {
            Command::Unmatched
        }
    }
}

/// What a command has done, and with it what is left to do outside the
/// store.
#[derive(Debug, PartialEq, Eq)]
pub enum Outcome {
    /// A task was created under this id.
    Added { id: u64 },
    /// All tasks were deleted.
    Deleted,
    /// The completion ran, for this id where the argument wrote a number
    /// that fits in 64 bits. Whether a task had the id is not reported.
    Completed { id: Option<u64> },
    /// The store file is to be copied in this direction.
    Sync(Direction),
    /// The task list, as it is to be written to the terminal.
    Listed { lines: Vec<String> },
    /// The command was not recognised.
    Unmatched,
}

/// What a command makes of a store, on the day `today`: whether `result`
/// and the store `after` are what running `command` on the store `before`
/// gives.
///
/// - `add` creates the task, or fails and leaves the store as it was.
/// - `delete` clears the store.
/// - `done` completes the task whose id the argument writes in decimal; an
///   argument that writes no number leaves the store as it was.
/// - `list` displays the tasks, or fails on the first task that cannot be
///   rendered; the store stays as it was.
/// - The two synchronisations and an unmatched command leave the store as
///   it was.
pub open spec fn executed(
    before: StoreModel,
    command: CommandView,
    today: (int, int, int),
    result: Result<Outcome, TaskError>,
    after: StoreModel,
) -> bool {
    match command {
        CommandView::Add { description, due_date } => match before.creation(description, due_date) {
            Ok(id) => {
                &&& result matches Ok(Outcome::Added { id: given })
                &&& given == id
                &&& after == before.created(description, recorded_date(due_date, today))
            },
            Err(e) => {
                &&& result matches Err(given)
                &&& given == e
                &&& after == before
            },
        },
        CommandView::Delete => {
            &&& result matches Ok(Outcome::Deleted)
            &&& after == before.cleared()
        },
        CommandView::Done { task } => {
            &&& result matches Ok(Outcome::Completed { id: given })
            &&& given == match number_of(task) {
                Some(id) => if id <= u64::MAX {
                    Some(id as u64)
                } else {
                    None
                },
                None => None,
            }
            &&& after == match number_of(task) {
                Some(id) => before.completed(id),
                None => before,
            }
        },
        CommandView::SyncLocal => {
            &&& result matches Ok(Outcome::Sync(Direction::ToLocal))
            &&& after == before
        },
        CommandView::SyncCloud => {
            &&& result matches Ok(Outcome::Sync(Direction::ToCloud))
            &&& after == before
        },
        CommandView::List => {
            &&& after == before
            &&& match result {
                Ok(Outcome::Listed { lines }) => displayed(
                    before.tasks,
                    today,
                    Ok::<Vec<String>, ValidationError>(lines),
                ),
                Err(TaskError::Validation(e)) => displayed(
                    before.tasks,
                    today,
                    Err::<Vec<String>, ValidationError>(e),
                ),
                _ => false,
            }
        },
        CommandView::Unmatched => {
            &&& result matches Ok(Outcome::Unmatched)
            &&& after == before
        },
    }
}

/// Runs a command on the store, on the day `today`.
pub fn execute_on(store: &mut TaskStore, command: &Command, today: Date) -> (r: Result<
    Outcome,
    TaskError,
>)
    ensures
        executed(old(store)@, command@, today@, r, final(store)@),
        final(store)@.wf(),
{
    let _ = store.next_id();
    match command {
        Command::Add { description, due_date } => {
            let created = match due_date {
                Some(due) => store.create_on(description.as_str(), Some(due.as_str()), today),
                None => store.create_on(description.as_str(), None, today),
            };
            match created {
                Ok(id) => Ok(Outcome::Added { id }),
                Err(e) => Err(e),
            }
        },
        Command::Delete => {
            store.delete_all();
            Ok(Outcome::Deleted)
        },
        Command::Done { task } => {
            let id = parse_number(task.as_str());
            match id {
                Some(id) => {
                    store.complete(id);
                },
                None => {
                    proof {
                        if let Some(id) = number_of(task@) {
                            lemma_complete_of_unknown_id_changes_nothing(store@, id);
                        }
                    }
                },
            }
            Ok(Outcome::Completed { id })
        },
        Command::SyncLocal => Ok(Outcome::Sync(Direction::ToLocal)),
        Command::SyncCloud => Ok(Outcome::Sync(Direction::ToCloud)),
        Command::List => {
            let tasks = store.list();
            match display_on(&tasks, today) {
                Ok(lines) => Ok(Outcome::Listed { lines }),
                Err(e) => Err(TaskError::Validation(e)),
            }
        },
        Command::Unmatched => Ok(Outcome::Unmatched),
    }
}

/// Runs a command on the store today, by the clock of this machine.
/// Whatever day the clock gives, the command does what `executed`
/// describes for that day; the day matters only to the date recorded for a
/// task without a due date and to which tasks are shown as overdue.
pub fn execute_command(store: &mut TaskStore, command: &Command) -> (r: Result<Outcome, TaskError>)
    ensures
        exists|today: (int, int, int)| #[trigger]
            executed(old(store)@, command@, today, r, final(store)@),
        final(store)@.wf(),
{
    let today = clock_today();
    let r = execute_on(store, command, today);
    r
}

impl Outcome {
    /// The notification to be sent after the command: one for each command
    /// that changes the store, none for the others.
    pub fn notification(&self) -> (r: Option<Notification>)
        ensures
            match *self {
                Outcome::Added { .. } => r is Some && r->Some_0.summary@ == summary_text()
                    && r->Some_0.body@ == body_text("add"@),
                Outcome::Deleted => r is Some && r->Some_0.summary@ == summary_text()
                    && r->Some_0.body@ == body_text("delete"@),
                Outcome::Completed { .. } => r is Some && r->Some_0.summary@ == summary_text()
                    && r->Some_0.body@ == body_text("done"@),
                _ => r is None,
            },
    {
        match self {
            Outcome::Added { .. } => Some(send_notification("add")),
            Outcome::Deleted => Some(send_notification("delete")),
            Outcome::Completed { .. } => Some(send_notification("done")),
            _ => None,
        }
    }

    /// The line that announces the outcome on the terminal, for the
    /// outcomes that are announced: the deletion, in the alert style, and
    /// the command that was not recognised, as plain text.
    pub fn announcement(&self) -> (r: Option<String>)
        ensures
            match *self {
                Outcome::Deleted => r is Some && shows(r->Some_0@, "All tasks deleted!"@),
                Outcome::Unmatched => r is Some && r->Some_0@ == "No matches"@,
                _ => r is None,
            },
    {
        match self {
            Outcome::Deleted => {
                let line = Line { style: Style::Alert, text: String::from_str("All tasks deleted!") };
                Some(line.paint())
            },
            Outcome::Unmatched => Some(String::from_str("No matches")),
            _ => None,
        }
    }
}

/// A command that does not touch the tasks leaves every store as it was,
/// and its outcome is the same whatever the store holds and whatever the
/// day.
pub proof fn lemma_untouched_store_stays(
    before: StoreModel,
    command: CommandView,
    today: (int, int, int),
    result: Result<Outcome, TaskError>,
    after: StoreModel,
    other: StoreModel,
    other_day: (int, int, int),
)
    requires
        !touches_tasks(command),
        executed(before, command, today, result, after),
    ensures
        after == before,
        executed(other, command, other_day, result, other),
{
}

} // verus!
