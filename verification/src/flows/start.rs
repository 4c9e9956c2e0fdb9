use vstd::prelude::*;
use crate::command::{cat, cat3, scripts_call, scripts_command, start_call, start_command, stop_call, stop_command};
use crate::flow::{event_kind, print_line, reply_kind, unwrap_failure, unwrap_failure_text, Effect, Event, EventKind};
use crate::model::{copy_record, kind_name, kind_text, same_record, FypmErrorKind, TaskRecord};

verus! {

/// Where starting a task stands. The strings are the filter once its aliases
/// are expanded, then the identifier of the task to start and, once known,
/// that of the task that was active; the records are the task the filter
/// selects, while it is checked.
pub enum StartState {
    Ready,
    AwaitAlias,
    AwaitTasks(String),
    AwaitAllDay(TaskRecord),
    AwaitDivisory(TaskRecord),
    AwaitTarget,
    Scripted(String),
    AwaitActive(String),
    Remembered(String, String),
    StopAnnounced(String, String),
    Stopped(String),
    Announced(String),
    Started,
    Over,
}

/// Starting the one task a filter selects: its aliases are expanded, the task
/// must pass the whole-day and divisory checks, the task it leads to is found,
/// the user's hook runs on that one, the task that was active is remembered and
/// stopped, and the found task is started.
pub struct TaskStartFlow {
    pub filter: String,
    pub state: StartState,
}

/// The message when a filter selects no task.
pub open spec fn no_task_text(filter: Seq<char>) -> Seq<char> {
    "No task with filter \""@ + filter + "\" found!"@
}

/// The message when a filter selects more than one task.
pub open spec fn too_many_text(filter: Seq<char>) -> Seq<char> {
    "Too much tasks with filter \""@ + filter + "\"!"@
}

/// The message when more than one task is active.
pub open spec fn many_active_text() -> Seq<char> {
    "There are more than one task active! Fix it >:(."@
}

pub open spec fn starting_text(uuid: Seq<char>) -> Seq<char> {
    "Starting task with uuid: "@ + uuid
}

pub open spec fn stopping_text(uuid: Seq<char>) -> Seq<char> {
    "Stopping active task with uuid: "@ + uuid
}

/// Begins starting the task `filter` selects.
pub fn task_start(filter: &String) -> (f: TaskStartFlow)
    ensures
        f.filter@ == filter@,
        f.state is Ready,
{
    TaskStartFlow { filter: filter.clone(), state: StartState::Ready }
}

impl TaskStartFlow {
    pub open spec fn awaits(&self) -> EventKind {
        match self.state {
            StartState::Ready => EventKind::Begin,
            StartState::AwaitAlias => EventKind::Resolved,
            StartState::AwaitTasks(_) => EventKind::Tasks,
            StartState::AwaitAllDay(_) => EventKind::Done,
            StartState::AwaitDivisory(_) => EventKind::Done,
            StartState::AwaitTarget => EventKind::Text,
            StartState::Scripted(_) => EventKind::Ack,
            StartState::AwaitActive(_) => EventKind::Active,
            StartState::Remembered(_, _) => EventKind::Ack,
            StartState::StopAnnounced(_, _) => EventKind::Ack,
            StartState::Stopped(_) => EventKind::Ack,
            StartState::Announced(_) => EventKind::Ack,
            StartState::Started => EventKind::Ack,
            StartState::Over => EventKind::Nothing,
        }
    }

    pub fn awaiting(&self) -> (k: EventKind)
        ensures
            k == self.awaits(),
    {
        match self.state {
            StartState::Ready => EventKind::Begin,
            StartState::AwaitAlias => EventKind::Resolved,
            StartState::AwaitTasks(_) => EventKind::Tasks,
            StartState::AwaitAllDay(_) => EventKind::Done,
            StartState::AwaitDivisory(_) => EventKind::Done,
            StartState::AwaitTarget => EventKind::Text,
            StartState::Scripted(_) => EventKind::Ack,
            StartState::AwaitActive(_) => EventKind::Active,
            StartState::Remembered(_, _) => EventKind::Ack,
            StartState::StopAnnounced(_, _) => EventKind::Ack,
            StartState::Stopped(_) => EventKind::Ack,
            StartState::Announced(_) => EventKind::Ack,
            StartState::Started => EventKind::Ack,
            StartState::Over => EventKind::Nothing,
        }
    }

    /// Takes the next step.
    pub fn step(&mut self, event: Event) -> (e: Effect)
        requires
            event_kind(&event) == old(self).awaits(),
        ensures
            final(self).filter == old(self).filter,
            final(self).awaits() == reply_kind(&e),
            old(self).state is Ready ==> {
                &&& e matches Effect::ResolveAliases(g) && g@ == old(self).filter@
                &&& final(self).state is AwaitAlias
            },
            old(self).state is AwaitAlias ==> match event {
                Event::Resolved(g) => {
                    &&& e matches Effect::QueryTasks(q, true) && q@ == g@
                    &&& final(self).state matches StartState::AwaitTasks(g2) && g2@ == g@
                },
                _ => true,
            },
            old(self).state matches StartState::AwaitTasks(g) ==> match event {
                Event::Tasks(Err(err)) => e matches Effect::Fail(m) && m@ == unwrap_failure_text(err),
                Event::Tasks(Ok(ts)) => if ts@.len() == 0 {
                    e matches Effect::Fail(m) && m@ == no_task_text(g@)
                } else if ts@.len() > 1 {
                    e matches Effect::Fail(m) && m@ == too_many_text(g@)
                } else {
                    &&& e matches Effect::CheckAllDay(r) && same_record(r, ts@[0])
                    &&& final(self).state matches StartState::AwaitAllDay(t) && same_record(t, ts@[0])
                },
                _ => true,
            },
            old(self).state matches StartState::AwaitAllDay(t) ==> match event {
                Event::Done(Err(err)) => e matches Effect::Fail(m) && m@ == unwrap_failure_text(err),
                Event::Done(Ok(())) => {
                    &&& e matches Effect::CheckDivisory(r) && same_record(r, t)
                    &&& final(self).state matches StartState::AwaitDivisory(t2) && same_record(t2, t)
                },
                _ => true,
            },
            old(self).state matches StartState::AwaitDivisory(t) ==> match event {
                Event::Done(Err(err)) => e matches Effect::Fail(m) && m@ == unwrap_failure_text(err),
                Event::Done(Ok(())) => {
                    &&& e matches Effect::StartTarget(r) && same_record(r, t)
                    &&& final(self).state is AwaitTarget
                },
                _ => true,
            },
            old(self).state is AwaitTarget ==> match event {
                Event::Text(Err(err)) => e matches Effect::Fail(m) && m@ == unwrap_failure_text(err),
                Event::Text(Ok(target)) => {
                    &&& e matches Effect::Run(c) && c@ == scripts_call(target@)
                    &&& final(self).state matches StartState::Scripted(t) && t@ == target@
                },
                _ => true,
            },
            old(self).state matches StartState::Scripted(t) ==> {
                &&& e is QueryActive
                &&& final(self).state matches StartState::AwaitActive(t2) && t2@ == t@
            },
            old(self).state matches StartState::AwaitActive(t) ==> match event {
                Event::Active(Ok(a)) => {
                    &&& e matches Effect::RememberLastTask(u) && u@ == a.uuid@
                    &&& final(self).state matches StartState::Remembered(t2, a2) && t2@ == t@ && a2@ == a.uuid@
                },
                Event::Active(Err(err)) => if err.kind == FypmErrorKind::TooMuchTasks {
                    e matches Effect::Fail(m) && m@ == many_active_text()
                } else if err.kind == FypmErrorKind::NoTasksFound {
                    &&& e matches Effect::Print(lines) && lines.deep_view() == seq![starting_text(t@)]
                    &&& final(self).state matches StartState::Announced(t2) && t2@ == t@
                } else {
                    e matches Effect::Fail(m) && m@ == "Unexpected error: "@ + kind_name(err.kind)
                },
                _ => true,
            },
            old(self).state matches StartState::Remembered(t, a) ==> {
                &&& e matches Effect::Print(lines) && lines.deep_view() == seq![stopping_text(a@)]
                &&& final(self).state matches StartState::StopAnnounced(t2, a2) && t2@ == t@ && a2@ == a@
            },
            old(self).state matches StartState::StopAnnounced(t, a) ==> {
                &&& e matches Effect::Run(c) && c@ == stop_call(a@)
                &&& final(self).state matches StartState::Stopped(t2) && t2@ == t@
            },
            old(self).state matches StartState::Stopped(t) ==> {
                &&& e matches Effect::Print(lines) && lines.deep_view() == seq![starting_text(t@)]
                &&& final(self).state matches StartState::Announced(t2) && t2@ == t@
            },
            old(self).state matches StartState::Announced(t) ==> {
                &&& e matches Effect::Run(c) && c@ == start_call(t@)
                &&& final(self).state is Started
            },
            old(self).state is Started ==> e matches Effect::Finish(Ok(None)),
    {
        match &self.state {
            StartState::Ready => {
                self.state = StartState::AwaitAlias;
                Effect::ResolveAliases(self.filter.clone())
            },
            StartState::AwaitAlias => {
                match event {
                    Event::Resolved(g) => {
                        let q = g.clone();
                        self.state = StartState::AwaitTasks(g);
                        Effect::QueryTasks(q, true)
                    },
                    _ => vstd::pervasive::unreached(),
                }
            },
            StartState::AwaitTasks(g) => {
                let g = g.clone();
                match event {
                    Event::Tasks(Err(err)) => {
                        self.state = StartState::Over;
                        Effect::Fail(unwrap_failure(&err))
                    },
                    Event::Tasks(Ok(ts)) => {
                        if ts.len() == 0 {
                            self.state = StartState::Over;
                            Effect::Fail(cat3("No task with filter \"", g.as_str(), "\" found!"))
                        } else if ts.len() > 1 {
                            self.state = StartState::Over;
                            Effect::Fail(cat3("Too much tasks with filter \"", g.as_str(), "\"!"))
                        } else {
                            let mut ts = ts;
                            let t = ts.remove(0);
                            let r = copy_record(&t);
                            self.state = StartState::AwaitAllDay(t);
                            Effect::CheckAllDay(r)
                        }
                    },
                    _ => vstd::pervasive::unreached(),
                }
            },
            StartState::AwaitAllDay(t) => {
                let r = copy_record(t);
                match event {
                    Event::Done(Err(err)) => {
                        self.state = StartState::Over;
                        Effect::Fail(unwrap_failure(&err))
                    },
                    Event::Done(Ok(())) => {
                        let kept = copy_record(&r);
                        self.state = StartState::AwaitDivisory(kept);
                        Effect::CheckDivisory(r)
                    },
                    _ => vstd::pervasive::unreached(),
                }
            },
            StartState::AwaitDivisory(t) => {
                let r = copy_record(t);
                match event {
                    Event::Done(Err(err)) => {
                        self.state = StartState::Over;
                        Effect::Fail(unwrap_failure(&err))
                    },
                    Event::Done(Ok(())) => {
                        self.state = StartState::AwaitTarget;
                        Effect::StartTarget(r)
                    },
                    _ => vstd::pervasive::unreached(),
                }
            },
            StartState::AwaitTarget => {
                match event {
                    Event::Text(Err(err)) => {
                        self.state = StartState::Over;
                        Effect::Fail(unwrap_failure(&err))
                    },
                    Event::Text(Ok(target)) => {
                        let c = scripts_command(target.as_str());
                        self.state = StartState::Scripted(target);
                        Effect::Run(c)
                    },
                    _ => vstd::pervasive::unreached(),
                }
            },
            StartState::Scripted(t) => {
                let t = t.clone();
                self.state = StartState::AwaitActive(t);
                Effect::QueryActive
            },
            StartState::AwaitActive(t) => {
                let t = t.clone();
                match event {
                    Event::Active(Ok(a)) => {
                        let u = a.uuid.clone();
                        self.state = StartState::Remembered(t, a.uuid);
                        Effect::RememberLastTask(u)
                    },
                    Event::Active(Err(err)) => {
                        if err.kind == FypmErrorKind::TooMuchTasks {
                            self.state = StartState::Over;
                            Effect::Fail(String::from_str("There are more than one task active! Fix it >:(."))
                        } else if err.kind == FypmErrorKind::NoTasksFound {
                            let line = cat("Starting task with uuid: ", t.as_str());
                            self.state = StartState::Announced(t);
                            print_line(line)
                        } else {
                            self.state = StartState::Over;
                            Effect::Fail(cat("Unexpected error: ", kind_text(err.kind).as_str()))
                        }
                    },
                    _ => vstd::pervasive::unreached(),
                }
            },
            StartState::Remembered(t, a) => {
                let line = cat("Stopping active task with uuid: ", a.as_str());
                self.state = StartState::StopAnnounced(t.clone(), a.clone());
                print_line(line)
            },
            StartState::StopAnnounced(t, a) => {
                let c = stop_command(a.as_str());
                self.state = StartState::Stopped(t.clone());
                Effect::Run(c)
            },
            StartState::Stopped(t) => {
                let line = cat("Starting task with uuid: ", t.as_str());
                self.state = StartState::Announced(t.clone());
                print_line(line)
            },
            StartState::Announced(t) => {
                let c = start_command(t.as_str());
                self.state = StartState::Started;
                Effect::Run(c)
            },
            StartState::Started => {
                self.state = StartState::Over;
                Effect::Finish(Ok(None))
            },
            StartState::Over => vstd::pervasive::unreached(),
        }
    }
}

} // verus!
