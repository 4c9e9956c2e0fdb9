use vstd::prelude::*;
use crate::args::{copy_opt_string, opt_text};

verus! {

/// What went wrong, by category.
#[derive(Clone, Copy, Debug, PartialEq, Eq, Structural)]
pub enum FypmErrorKind {
    /// A filter matched no task.
    NoTasksFound,
    /// A filter matched more tasks than the operation allows.
    TooMuchTasks,
    /// The user declined a confirmation.
    Aborted,
    /// Taskwarrior or another helper could not be run or failed.
    CommandFailed,
}

/// An error with a human-readable message.
#[derive(Debug)]
pub struct FypmError {
    pub message: String,
    pub kind: FypmErrorKind,
}

/// The name of an error kind, as `{:?}` prints it.
pub open spec fn kind_name(k: FypmErrorKind) -> Seq<char> {
    match k {
        FypmErrorKind::NoTasksFound => "NoTasksFound"@,
        FypmErrorKind::TooMuchTasks => "TooMuchTasks"@,
        FypmErrorKind::Aborted => "Aborted"@,
        FypmErrorKind::CommandFailed => "CommandFailed"@,
    }
}

/// The name of an error kind, as `{:?}` prints it.
pub fn kind_text(k: FypmErrorKind) -> (s: String)
    ensures
        s@ == kind_name(k),
{
    match k {
        FypmErrorKind::NoTasksFound => String::from_str("NoTasksFound"),
        FypmErrorKind::TooMuchTasks => String::from_str("TooMuchTasks"),
        FypmErrorKind::Aborted => String::from_str("Aborted"),
        FypmErrorKind::CommandFailed => String::from_str("CommandFailed"),
    }
}

/// Which statistic listing to show.
#[derive(Clone, Copy, Debug, PartialEq, Eq, Structural)]
pub enum StatisticsCommands {
    Deleted,
    Pending,
}

/// The tag a task receives when it is given up on.
#[derive(Clone, Copy, Debug, PartialEq, Eq, Structural)]
pub enum TaAbandonTags {
    Archived,
    Failed,
    Abandoned,
    NoControl,
}

/// What to do with projects.
#[derive(Clone, Copy, Debug, PartialEq, Eq, Structural)]
pub enum TaProjectActions {
    List,
    Add,
    Archive,
}

/// The fields of a task that the commands read.
#[derive(Debug)]
pub struct TaskRecord {
    pub uuid: String,
    pub description: String,
    pub project: Option<String>,
}

/// Two records that hold the same fields.
pub open spec fn same_record(a: TaskRecord, b: TaskRecord) -> bool {
    &&& a.uuid@ == b.uuid@
    &&& a.description@ == b.description@
    &&& opt_text(a.project) == opt_text(b.project)
}

/// A copy of a record.
pub fn copy_record(r: &TaskRecord) -> (c: TaskRecord)
    ensures
        same_record(c, *r),
{
    TaskRecord { uuid: r.uuid.clone(), description: r.description.clone(), project: copy_opt_string(&r.project) }
}

} // verus!
