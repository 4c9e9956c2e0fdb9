use vstd::prelude::*;
use crate::calendar::CalDate;
use crate::command::TaskCommand;
use crate::model::{kind_name, kind_text, FypmError, TaAbandonTags, TaskRecord};

verus! {

/// What a finished process left behind.
#[derive(Debug)]
pub struct ProcessOutput {
    pub success: bool,
    pub stdout: String,
    pub stderr: String,
}

/// The period a date listing covers, chosen by option.
#[derive(Clone, Copy, Debug, PartialEq, Eq, Structural)]
pub enum DateRangeKind {
    Year,
    Month,
    Week,
}

/// The arguments of a task creation.
#[derive(Debug)]
pub struct AddRequest {
    pub description: String,
    pub project: String,
    pub style: String,
    pub ty: String,
    pub other_args: Option<Vec<String>>,
    pub skip_confirmation: bool,
}

/// What a command asks its runner to do next. Each effect but `Fail` and
/// `Finish` is answered with one event, of the kind `reply_kind` gives.
#[derive(Debug)]
pub enum Effect {
    /// Run the process and wait for it; answered by `Ack`.
    Run(TaskCommand),
    /// Run the process and collect its output; answered by `Output`.
    Capture(TaskCommand),
    /// Print each line; answered by `Ack`.
    Print(Vec<String>),
    /// Stop the program with this message (a panic).
    Fail(String),
    /// The command is over, with this result.
    Finish(Result<Option<String>, FypmError>),
    /// Fetch the tasks a filter selects (with the default export options when
    /// the flag is set); answered by `Tasks`.
    QueryTasks(String, bool),
    /// Fetch the identifiers a filter selects; answered by `Uuids`.
    QueryUuids(String, bool),
    /// Count the tasks a filter selects; answered by `Count`.
    QueryCount(String),
    /// Fetch the active task; answered by `Active`.
    QueryActive,
    /// Fetch the filter that stands for a report modifier; answered by `Text`.
    QueryModifierFilter(String),
    /// Fetch the first and last day of a period; answered by `Range`.
    QueryDateRange(DateRangeKind, Option<String>),
    /// Measure the terminal; answered by `Width`.
    TerminalWidth,
    /// Ask the user a yes/no question; answered by `Confirmed`.
    Confirm(String),
    /// Show the tasks to the user and ask whether to go on; answered by `Selection`.
    ConfirmTasks(Vec<TaskRecord>),
    /// Annotate the tasks a filter selects; answered by `Done`.
    Annotate(String, String),
    /// Remember this identifier as the last active task; answered by `Ack`.
    RememberLastTask(String),
    /// Create a task; answered by `Added`.
    Add(AddRequest),
    /// Create or attach a subtask of a mother task; answered by `Added`.
    AddSub(String, Vec<String>, bool),
    /// Start the task a filter selects; answered by `Done`.
    Start(String),
    /// Expand the special aliases a filter may name; answered by `Resolved`.
    ResolveAliases(String),
    /// Refuse a task whose work time is the whole day; answered by `Done`.
    CheckAllDay(TaskRecord),
    /// Refuse a task that only divides others; answered by `Done`.
    CheckDivisory(TaskRecord),
    /// Find the task to start in place of this one, following its information
    /// link or its sequence; answered by `Text`.
    StartTarget(TaskRecord),
    /// Give up on the tasks a filter selects; answered by `Done`.
    Abandon(TaAbandonTags, String, Option<String>),
}

/// What the runner reports back.
#[derive(Debug)]
pub enum Event {
    /// The command is to begin.
    Begin,
    /// The effect was carried out.
    Ack,
    Output(Result<ProcessOutput, String>),
    Confirmed(bool),
    Tasks(Result<Vec<TaskRecord>, FypmError>),
    Uuids(Result<Vec<String>, FypmError>),
    Count(Result<usize, FypmError>),
    Active(Result<TaskRecord, FypmError>),
    Text(Result<String, FypmError>),
    Range(CalDate, CalDate),
    Width(Option<u16>),
    Selection(Result<bool, FypmError>),
    Done(Result<(), FypmError>),
    Added(Result<String, FypmError>),
    Resolved(String),
}

/// The kinds of events; `Nothing` is what a command waits for once it is over.
#[derive(Clone, Copy, Debug, PartialEq, Eq, Structural)]
pub enum EventKind {
    Begin,
    Ack,
    Output,
    Confirmed,
    Tasks,
    Uuids,
    Count,
    Active,
    Text,
    Range,
    Width,
    Selection,
    Done,
    Added,
    Resolved,
    Nothing,
}

pub open spec fn event_kind(e: &Event) -> EventKind {
    match e {
        Event::Begin => EventKind::Begin,
        Event::Ack => EventKind::Ack,
        Event::Output(_) => EventKind::Output,
        Event::Confirmed(_) => EventKind::Confirmed,
        Event::Tasks(_) => EventKind::Tasks,
        Event::Uuids(_) => EventKind::Uuids,
        Event::Count(_) => EventKind::Count,
        Event::Active(_) => EventKind::Active,
        Event::Text(_) => EventKind::Text,
        Event::Range(_, _) => EventKind::Range,
        Event::Width(_) => EventKind::Width,
        Event::Selection(_) => EventKind::Selection,
        Event::Done(_) => EventKind::Done,
        Event::Added(_) => EventKind::Added,
        Event::Resolved(_) => EventKind::Resolved,
    }
}

/// The kind of event that answers an effect.
pub open spec fn reply_kind(e: &Effect) -> EventKind {
    match e {
        Effect::Run(_) => EventKind::Ack,
        Effect::Capture(_) => EventKind::Output,
        Effect::Print(_) => EventKind::Ack,
        Effect::Fail(_) => EventKind::Nothing,
        Effect::Finish(_) => EventKind::Nothing,
        Effect::QueryTasks(_, _) => EventKind::Tasks,
        Effect::QueryUuids(_, _) => EventKind::Uuids,
        Effect::QueryCount(_) => EventKind::Count,
        Effect::QueryActive => EventKind::Active,
        Effect::QueryModifierFilter(_) => EventKind::Text,
        Effect::QueryDateRange(_, _) => EventKind::Range,
        Effect::TerminalWidth => EventKind::Width,
        Effect::Confirm(_) => EventKind::Confirmed,
        Effect::ConfirmTasks(_) => EventKind::Selection,
        Effect::Annotate(_, _) => EventKind::Done,
        Effect::RememberLastTask(_) => EventKind::Ack,
        Effect::Add(_) => EventKind::Added,
        Effect::AddSub(_, _, _) => EventKind::Added,
        Effect::Start(_) => EventKind::Done,
        Effect::ResolveAliases(_) => EventKind::Resolved,
        Effect::CheckAllDay(_) => EventKind::Done,
        Effect::CheckDivisory(_) => EventKind::Done,
        Effect::StartTarget(_) => EventKind::Text,
        Effect::Abandon(_, _, _) => EventKind::Done,
    }
}

impl Event {
    /// The kind of this event.
    pub fn kind(&self) -> (k: EventKind)
        ensures
            k == event_kind(self),
    {
        match self {
            Event::Begin => EventKind::Begin,
            Event::Ack => EventKind::Ack,
            Event::Output(_) => EventKind::Output,
            Event::Confirmed(_) => EventKind::Confirmed,
            Event::Tasks(_) => EventKind::Tasks,
            Event::Uuids(_) => EventKind::Uuids,
            Event::Count(_) => EventKind::Count,
            Event::Active(_) => EventKind::Active,
            Event::Text(_) => EventKind::Text,
            Event::Range(_, _) => EventKind::Range,
            Event::Width(_) => EventKind::Width,
            Event::Selection(_) => EventKind::Selection,
            Event::Done(_) => EventKind::Done,
            Event::Added(_) => EventKind::Added,
            Event::Resolved(_) => EventKind::Resolved,
        }
    }
}

impl Effect {
    /// The kind of event that answers this effect.
    pub fn reply(&self) -> (k: EventKind)
        ensures
            k == reply_kind(self),
    {
        match self {
            Effect::Run(_) => EventKind::Ack,
            Effect::Capture(_) => EventKind::Output,
            Effect::Print(_) => EventKind::Ack,
            Effect::Fail(_) => EventKind::Nothing,
            Effect::Finish(_) => EventKind::Nothing,
            Effect::QueryTasks(_, _) => EventKind::Tasks,
            Effect::QueryUuids(_, _) => EventKind::Uuids,
            Effect::QueryCount(_) => EventKind::Count,
            Effect::QueryActive => EventKind::Active,
            Effect::QueryModifierFilter(_) => EventKind::Text,
            Effect::QueryDateRange(_, _) => EventKind::Range,
            Effect::TerminalWidth => EventKind::Width,
            Effect::Confirm(_) => EventKind::Confirmed,
            Effect::ConfirmTasks(_) => EventKind::Selection,
            Effect::Annotate(_, _) => EventKind::Done,
            Effect::RememberLastTask(_) => EventKind::Ack,
            Effect::Add(_) => EventKind::Added,
            Effect::AddSub(_, _, _) => EventKind::Added,
            Effect::Start(_) => EventKind::Done,
            Effect::ResolveAliases(_) => EventKind::Resolved,
            Effect::CheckAllDay(_) => EventKind::Done,
            Effect::CheckDivisory(_) => EventKind::Done,
            Effect::StartTarget(_) => EventKind::Text,
            Effect::Abandon(_, _, _) => EventKind::Done,
        }
    }
}

/// What `{:?}` writes for a string: the string in double quotes, each of its
/// characters escaped as `char::escape_debug` does.
pub uninterp spec fn str_debug(s: Seq<char>) -> Seq<char>;

/// A character that `{:?}` writes as it is: printable ASCII other than the
/// quotes and the backslash.
pub open spec fn plain_char(c: char) -> bool {
    &&& 0x20 <= (c as u32) <= 0x7e
    &&& c != '"'
    &&& c != '\''
    &&& c != '\\'
}

/// `format!("{:?}", s)` for a string: it in double quotes, with its characters
/// escaped. The result is named by `str_debug`, a function of the string
/// alone; a string of plain characters is written as it is between the quotes.
#[verifier::external_body]
fn debug_str(s: &str) -> (r: String)
    ensures
        r@ == str_debug(s@),
        (forall|i: int| 0 <= i < s@.len() ==> plain_char(#[trigger] s@[i])) ==> r@ == seq!['"'] + s@ + seq!['"'],
{
    format!("{:?}", s)
}

/// What `{:?}` writes for an error: its derived `Debug` form.
pub open spec fn error_debug(e: FypmError) -> Seq<char> {
    "FypmError { message: "@ + str_debug(e.message@) + ", kind: "@ + kind_name(e.kind) + " }"@
}

/// The panic message of `unwrap` on a failed result, naming the error.
pub open spec fn unwrap_failure_text(e: FypmError) -> Seq<char> {
    unwrap_failure_prefix() + error_debug(e)
}

/// The panic message of `unwrap` on a failed result, naming the error.
pub fn unwrap_failure(e: &FypmError) -> (s: String)
    ensures
        s@ == unwrap_failure_text(*e),
{
    let message = debug_str(e.message.as_str());
    let kind = kind_text(e.kind);
    let detail = String::from_str("FypmError { message: ").concat(message.as_str()).concat(", kind: ").concat(kind.as_str()).concat(" }");
    let s = unwrap_failure_with(detail.as_str());
    assert(s@ =~= unwrap_failure_text(*e));
    s
}

/// The start of the panic message of `unwrap` on a failed result.
pub open spec fn unwrap_failure_prefix() -> Seq<char> {
    "called `Result::unwrap()` on an `Err` value: "@
}

/// The panic message of `unwrap` on a failed result whose error reads `detail`.
pub fn unwrap_failure_with(detail: &str) -> (s: String)
    ensures
        s@ == unwrap_failure_prefix() + detail@,
        unwrap_failure_prefix().is_prefix_of(s@),
{
    let s = String::from_str("called `Result::unwrap()` on an `Err` value: ").concat(detail);
    assert(s@.subrange(0, unwrap_failure_prefix().len() as int) =~= unwrap_failure_prefix());
    s
}

/// The panic message of `unwrap` on an absent value.
pub open spec fn missing_value_text() -> Seq<char> {
    "called `Option::unwrap()` on a `None` value"@
}

/// The panic message of `unwrap` on an absent value.
pub fn missing_value() -> (s: String)
    ensures
        s@ == missing_value_text(),
{
    String::from_str("called `Option::unwrap()` on a `None` value")
}

/// One line to print.
pub fn print_line(line: String) -> (e: Effect)
    ensures
        e matches Effect::Print(v) && v.deep_view() == seq![line@],
{
    let mut v: Vec<String> = Vec::new();
    v.push(line);
    assert(v.deep_view() =~= seq![line@]);
    Effect::Print(v)
}

} // verus!
