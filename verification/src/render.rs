//! Rendering of the task list for a terminal: which line a task gets and in
//! which style, and the colouring of that line.

use vstd::prelude::*;
use vstd::string::*;
use crate::date::{clock_today, expiry, is_expired, later_than, parsed_ymd, Date};
use crate::error::ValidationError;
use crate::task::{views, Task, TaskView};
use crate::text::{decimal, decimal_text};

verus! {

/// The look of a rendered line.
#[derive(Clone, Copy, Debug, PartialEq, Eq, Structural)]
pub enum Style {
    /// A completed task: red and struck through.
    Inactive,
    /// The warning shown for a task whose due date has passed: yellow.
    Overdue,
    /// An announcement that something was destroyed: red.
    Alert,
    /// A task that is still open and not yet due: green.
    Active,
}

/// One line of the rendered list, before it is coloured.
#[derive(Debug, PartialEq, Eq)]
pub struct Line {
    pub style: Style,
    pub text: String,
}

/// A line as contracts see it.
pub ghost struct LineView {
    pub style: Style,
    pub text: Seq<char>,
}

impl View for Line {
    type V = LineView;

    open spec fn view(&self) -> LineView {
        LineView { style: self.style, text: self.text@ }
    }
}

/// The text that stands for an overdue task.
pub open spec fn overdue_notice() -> Seq<char> {
    "\u{26a0}\u{fe0f} Task is overdue!"@
}

/// The text of a task's own line: its id in decimal, a colon, a space and
/// its description.
pub open spec fn label(task: TaskView) -> Seq<char> {
    decimal(task.id) + seq![':', ' '] + task.description
}

/// The line of a task, given whether its due date has passed. A completed
/// task is shown as inactive whatever its date; an open task whose date has
/// passed is replaced by the overdue warning; any other task is active.
pub open spec fn rendered(task: TaskView, expired: bool) -> LineView {
    if task.done {
        LineView { style: Style::Inactive, text: label(task) }
    } else if expired {
        LineView { style: Style::Overdue, text: overdue_notice() }
    } else {
        LineView { style: Style::Active, text: label(task) }
    }
}

/// The line of a task on the day `today`, or the validation failure of its
/// due date. The due date of a completed task is not looked at.
pub open spec fn rendering(task: TaskView, today: (int, int, int)) -> Result<
    LineView,
    ValidationError,
> {
    if task.done {
        Ok(rendered(task, false))
    } else {
        match expiry(parsed_ymd(task.due_date), today) {
            Ok(expired) => Ok(rendered(task, expired)),
            Err(e) => Err(e),
        }
    }
}

/// The view of a rendering result.
pub open spec fn line_view(r: Result<Line, ValidationError>) -> Result<LineView, ValidationError> {
    match r {
        Ok(line) => Ok(line@),
        Err(e) => Err(e),
    }
}

/// Writes a task's own line: `"{id}: {description}"`.
pub fn label_text(task: &Task) -> (r: String)
    ensures
        r@ == label(task@),
{
    proof {
        reveal_strlit(": ");
    }
    let mut text = decimal_text(task.id);
    text.append(": ");
    text.append(task.description.as_str());
    text
}

/// Renders one task, given whether its due date has passed.
pub fn line_for(task: &Task, expired: bool) -> (r: Line)
    ensures
        r@ == rendered(task@, expired),
{
    if task.done {
        Line { style: Style::Inactive, text: label_text(task) }
    } else if expired {
        Line { style: Style::Overdue, text: String::from_str("\u{26a0}\u{fe0f} Task is overdue!") }
    } else {
        Line { style: Style::Active, text: label_text(task) }
    }
}

/// Renders one task as it is to be shown on the day `today`. Fails where the
/// task is still open and its due date is no date.
pub fn render_task(task: &Task, today: Date) -> (r: Result<Line, ValidationError>)
    ensures
        line_view(r) == rendering(task@, today@),
{
    if task.done {
        Ok(line_for(task, false))
    } else {
        match is_expired(task.due_date.as_str(), today) {
            Ok(expired) => Ok(line_for(task, expired)),
            Err(e) => Err(e),
        }
    }
}

/// Renders a list of tasks in order, one line each. Fails with the
/// validation failure of the first task that cannot be rendered.
pub fn render_all(tasks: &Vec<Task>, today: Date) -> (r: Result<Vec<Line>, ValidationError>)
    ensures
        match r {
            Ok(lines) => {
                &&& lines.len() == tasks.len()
                &&& forall|i: int|
                    0 <= i < tasks.len() ==> rendering(#[trigger] tasks[i]@, today@) == Ok::<
                        LineView,
                        ValidationError,
                    >(lines[i]@)
            },
            Err(e) => exists|i: int|
                {
                    &&& 0 <= i < tasks.len()
                    &&& rendering(#[trigger] tasks[i]@, today@) == Err::<LineView, ValidationError>(e)
                    &&& forall|j: int| 0 <= j < i ==> rendering(#[trigger] tasks[j]@, today@) is Ok
                },
        },
{
    let mut lines: Vec<Line> = Vec::new();
    let mut k: usize = 0;
    while k < tasks.len()
        invariant
            k <= tasks.len(),
            lines.len() == k,
            forall|i: int|
                0 <= i < k ==> rendering(#[trigger] tasks[i]@, today@) == Ok::<
                    LineView,
                    ValidationError,
                >(lines[i]@),
        decreases tasks.len() - k,
    {
        match render_task(&tasks[k], today) {
            Ok(line) => {
                lines.push(line);
            },
            Err(e) => {
                return Err(e);
            },
        }
        k += 1;
    }
    Ok(lines)
}

/// Whether `part` stands in `whole` from position `start` on.
pub open spec fn occurs_at(whole: Seq<char>, part: Seq<char>, start: int) -> bool {
    &&& 0 <= start
    &&& start + part.len() <= whole.len()
    &&& whole.subrange(start, start + part.len()) == part
}

/// Whether `whole` holds `part` as one unbroken stretch.
pub open spec fn shows(whole: Seq<char>, part: Seq<char>) -> bool {
    exists|start: int| occurs_at(whole, part, start)
}

/// Formats `console::style(text).red().strikethrough()` with `Display`. The
/// escape codes that console puts around the text depend on whether colours
/// are switched on for standard output, so the contract claims only what
/// holds either way: the text itself is in the result, unbroken.
#[verifier::external_body]
fn red_struck_through(text: &str) -> (r: String)
    ensures
        shows(r@, text@),
{
    format!("{}", console::style(text).red().strikethrough())
}

/// Formats `console::style(text).yellow()` with `Display`. As for the other
/// colours, the contract claims only that the text is in the result.
#[verifier::external_body]
fn yellow(text: &str) -> (r: String)
    ensures
        shows(r@, text@),
{
    format!("{}", console::style(text).yellow())
}

/// Formats `console::style(text).green()` with `Display`. As for the other
/// colours, the contract claims only that the text is in the result.
#[verifier::external_body]
fn green(text: &str) -> (r: String)
    ensures
        shows(r@, text@),
{
    format!("{}", console::style(text).green())
}

/// Formats `console::style(text).red()` with `Display`. As for the other
/// colours, the contract claims only that the text is in the result.
#[verifier::external_body]
fn red(text: &str) -> (r: String)
    ensures
        shows(r@, text@),
{
    format!("{}", console::style(text).red())
}

impl Line {
    /// The line as it is written to the terminal: its text in the colours of
    /// its style where colours are switched on, and the bare text where they
    /// are not.
    pub fn paint(&self) -> (r: String)
        ensures
            shows(r@, self.text@),
    {
        match self.style {
            Style::Inactive => red_struck_through(self.text.as_str()),
            Style::Overdue => yellow(self.text.as_str()),
            Style::Alert => red(self.text.as_str()),
            Style::Active => green(self.text.as_str()),
        }
    }
}

/// Whether `r` is a faithful display of `tasks` on the day `today`: either
/// one painted line for each task, in order, each showing the text of that
/// task's rendering, or the validation failure of the first task that cannot
/// be rendered.
pub open spec fn displayed(
    tasks: Seq<TaskView>,
    today: (int, int, int),
    r: Result<Vec<String>, ValidationError>,
) -> bool {
    match r {
        Ok(out) => {
            &&& out.len() == tasks.len()
            &&& forall|i: int|
                0 <= i < tasks.len() ==> {
                    &&& rendering(#[trigger] tasks[i], today) is Ok
                    &&& shows(out[i]@, rendering(tasks[i], today)->Ok_0.text)
                }
        },
        Err(e) => exists|i: int|
            {
                &&& 0 <= i < tasks.len()
                &&& rendering(#[trigger] tasks[i], today) == Err::<LineView, ValidationError>(e)
                &&& forall|j: int| 0 <= j < i ==> rendering(#[trigger] tasks[j], today) is Ok
            },
    }
}

/// The task list as it is written to the terminal on the day `today`: one
/// painted line for each task, in order. Fails with the validation failure
/// of the first task that cannot be rendered.
pub fn display_on(tasks: &Vec<Task>, today: Date) -> (r: Result<Vec<String>, ValidationError>)
    ensures
        displayed(views(tasks@), today@, r),
{
    let lines = match render_all(tasks, today) {
        Ok(lines) => lines,
        Err(e) => {
            let ghost i = choose|i: int|
                {
                    &&& 0 <= i < tasks.len()
                    &&& rendering(#[trigger] tasks[i]@, today@) == Err::<LineView, ValidationError>(e)
                    &&& forall|j: int| 0 <= j < i ==> rendering(#[trigger] tasks[j]@, today@) is Ok
                };
            assert(rendering(views(tasks@)[i], today@) == Err::<LineView, ValidationError>(e));
            return Err(e);
        },
    };
    let mut out: Vec<String> = Vec::new();
    let mut k: usize = 0;
    while k < lines.len()
        invariant
            k <= lines.len(),
            out.len() == k,
            forall|i: int| 0 <= i < k ==> shows(#[trigger] out[i]@, lines[i]@.text),
        decreases lines.len() - k,
    {
        out.push(lines[k].paint());
        k += 1;
    }
    Ok(out)
}

/// The task list as it is written to the terminal today, by the clock of
/// this machine. Whatever day the clock gives, the result is a faithful
/// display of the tasks on that day.
pub fn display_on_console(tasks: &Vec<Task>) -> (r: Result<Vec<String>, ValidationError>)
    ensures
        exists|today: (int, int, int)| #[trigger] displayed(views(tasks@), today, r),
{
    let today = clock_today();
    let r = display_on(tasks, today);
    r
}

/// The rendering policy, in its order of precedence. A completed task is
/// shown as inactive with its own text whatever its due date says, even
/// where that is no date. An open task whose due date is no date cannot be
/// rendered. An open task is replaced by the overdue warning exactly when
/// today comes after its due date; on the due date itself and before it,
/// the task is shown as active with its own text.
pub proof fn lemma_rendering_policy(task: TaskView, today: (int, int, int))
    ensures
        task.done ==> rendering(task, today) == Ok::<LineView, ValidationError>(
            LineView { style: Style::Inactive, text: label(task) },
        ),
        !task.done && parsed_ymd(task.due_date) is None ==> rendering(task, today) == Err::<
            LineView,
            ValidationError,
        >(ValidationError::MalformedDate),
        !task.done && parsed_ymd(task.due_date) is Some && later_than(
            today,
            parsed_ymd(task.due_date)->Some_0,
        ) ==> rendering(task, today) == Ok::<LineView, ValidationError>(
            LineView { style: Style::Overdue, text: overdue_notice() },
        ),
        !task.done && parsed_ymd(task.due_date) is Some && !later_than(
            today,
            parsed_ymd(task.due_date)->Some_0,
        ) ==> rendering(task, today) == Ok::<LineView, ValidationError>(
            LineView { style: Style::Active, text: label(task) },
        ),
{
}

} // verus!
