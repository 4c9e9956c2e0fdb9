use vstd::prelude::*;
use crate::args::{copy_opt_string, opt_text};
use crate::command::{owned, task_call, task_command, CommandView, Io, TaskCommand};
use crate::flow::{event_kind, reply_kind, Effect, Event, EventKind};
use crate::model::TaskRecord;

verus! {

/// Where completing tasks stands. `AwaitStart` and `Completing` hold the
/// `task ... done` call still to make.
pub enum DoneState {
    Ready,
    AwaitTasks,
    AwaitActive(Vec<TaskRecord>),
    AwaitCurrent,
    AwaitStart(TaskCommand),
    Completing,
    Over,
}

/// Completing the tasks a filter selects (or the active task), starting
/// another task first when the active one is among them.
pub struct TaskDoneFlow {
    pub filter: Option<String>,
    pub tastart_filter: Option<String>,
    pub control_task: String,
    pub state: DoneState,
}

/// `task rc.recurrence.confirmation=0 <filter> done`, talking to the terminal.
pub open spec fn done_filter_call(filter: Seq<char>) -> CommandView {
    task_call(seq!["rc.recurrence.confirmation=0"@, filter, "done"@], Io::Inherit, Io::Inherit, Io::Inherit, false)
}

pub fn done_filter_command(filter: &str) -> (c: TaskCommand)
    ensures
        c@ == done_filter_call(filter@),
{
    let args = vec![owned("rc.recurrence.confirmation=0"), owned(filter), owned("done")];
    assert(args.deep_view() =~= seq!["rc.recurrence.confirmation=0"@, filter@, "done"@]);
    task_command(args, Io::Inherit, Io::Inherit, Io::Inherit, false)
}

/// `task rc.confirmation=0 rc.recurrence.confirmation=0 <uuid> done`, printing to the terminal.
pub open spec fn done_current_call(uuid: Seq<char>) -> CommandView {
    task_call(seq!["rc.confirmation=0"@, "rc.recurrence.confirmation=0"@, uuid, "done"@], Io::Default, Io::Inherit, Io::Inherit, false)
}

pub fn done_current_command(uuid: &str) -> (c: TaskCommand)
    ensures
        c@ == done_current_call(uuid@),
{
    let args = vec![owned("rc.confirmation=0"), owned("rc.recurrence.confirmation=0"), owned(uuid), owned("done")];
    assert(args.deep_view() =~= seq!["rc.confirmation=0"@, "rc.recurrence.confirmation=0"@, uuid@, "done"@]);
    task_command(args, Io::Default, Io::Inherit, Io::Inherit, false)
}

/// Some task of `tasks` has identifier `uuid`.
pub open spec fn holds_uuid(tasks: Seq<TaskRecord>, uuid: Seq<char>) -> bool {
    exists|i: int| 0 <= i < tasks.len() && #[trigger] tasks[i].uuid@ == uuid
}

/// Some task of `tasks` has identifier `uuid`.
pub fn contains_uuid(tasks: &Vec<TaskRecord>, uuid: &String) -> (r: bool)
    ensures
        r == holds_uuid(tasks@, uuid@),
{
    let mut i: usize = 0;
    while i < tasks.len()
        invariant
            i <= tasks.len(),
            forall|j: int| 0 <= j < i ==> #[trigger] tasks@[j].uuid@ != uuid@,
        decreases tasks.len() - i,
    {
        if tasks[i].uuid == *uuid {
            return true;
        }
        i = i + 1;
    }
    false
}

/// A task is found among the selected ones wherever it stands: the active
/// task counts as selected exactly when some selected task, at any position,
/// has its identifier.
pub proof fn law_selected_at_any_position(tasks: Seq<TaskRecord>, uuid: Seq<char>)
    ensures
        holds_uuid(tasks, uuid) <==> exists|i: int| 0 <= i < tasks.len() && tasks[i].uuid@ == uuid,
        forall|i: int| 0 <= i < tasks.len() ==> holds_uuid(tasks, #[trigger] tasks[i].uuid@),
{
    assert forall|i: int| 0 <= i < tasks.len() implies holds_uuid(tasks, #[trigger] tasks[i].uuid@) by {
        let u = tasks[i].uuid@;
        assert(tasks[i].uuid@ == u);
    }
}

/// Begins completing the tasks `filter` selects, or the active task.
pub fn task_done(filter: &Option<String>, tastart_filter: &Option<String>, control_task: &String) -> (f: TaskDoneFlow)
    ensures
        opt_text(f.filter) == opt_text(*filter),
        opt_text(f.tastart_filter) == opt_text(*tastart_filter),
        f.control_task@ == control_task@,
        f.state is Ready,
        f.consistent(),
{
    TaskDoneFlow {
        filter: copy_opt_string(filter),
        tastart_filter: copy_opt_string(tastart_filter),
        control_task: control_task.clone(),
        state: DoneState::Ready,
    }
}

impl TaskDoneFlow {
    pub open spec fn awaits(&self) -> EventKind {
        match self.state {
            DoneState::Ready => EventKind::Begin,
            DoneState::AwaitTasks => EventKind::Tasks,
            DoneState::AwaitActive(_) => EventKind::Active,
            DoneState::AwaitCurrent => EventKind::Active,
            DoneState::AwaitStart(_) => EventKind::Done,
            DoneState::Completing => EventKind::Ack,
            DoneState::Over => EventKind::Nothing,
        }
    }

    pub fn awaiting(&self) -> (k: EventKind)
        ensures
            k == self.awaits(),
    {
        match self.state {
            DoneState::Ready => EventKind::Begin,
            DoneState::AwaitTasks => EventKind::Tasks,
            DoneState::AwaitActive(_) => EventKind::Active,
            DoneState::AwaitCurrent => EventKind::Active,
            DoneState::AwaitStart(_) => EventKind::Done,
            DoneState::Completing => EventKind::Ack,
            DoneState::Over => EventKind::Nothing,
        }
    }

    /// The states that complete filtered tasks occur only when there is a filter.
    pub open spec fn consistent(&self) -> bool {
        (self.state is AwaitTasks || self.state is AwaitActive) ==> self.filter is Some
    }

    /// The filter of the task to start before completing: the one given, or
    /// the control task.
    pub open spec fn next_task(&self) -> Seq<char> {
        match self.tastart_filter {
            Some(g) => g@,
            None => self.control_task@,
        }
    }

    /// Takes the next step. With a filter, the control task is started first
    /// exactly when no other task to start is given and the active task is
    /// among those the filter selects.
    pub fn step(&mut self, event: Event) -> (e: Effect)
        requires
            event_kind(&event) == old(self).awaits(),
            old(self).consistent(),
        ensures
            final(self).consistent(),
            final(self).filter == old(self).filter,
            final(self).tastart_filter == old(self).tastart_filter,
            final(self).control_task == old(self).control_task,
            final(self).awaits() == reply_kind(&e),
            old(self).state is Ready ==> match old(self).filter {
                Some(g) => (e matches Effect::QueryTasks(h, false) && h@ == g@) && final(self).state is AwaitTasks,
                None => e is QueryActive && final(self).state is AwaitCurrent,
            },
            old(self).state is AwaitTasks ==> match event {
                Event::Tasks(Err(err)) => e matches Effect::Finish(Err(x)) && x == err,
                Event::Tasks(Ok(ts)) => match old(self).tastart_filter {
                    Some(s) => {
                        &&& e matches Effect::Start(g) && g@ == s@
                        &&& old(self).filter matches Some(f)
                        &&& final(self).state matches DoneState::AwaitStart(c) && c@ == done_filter_call(old(self).filter->Some_0@)
                    },
                    None => e is QueryActive && (final(self).state matches DoneState::AwaitActive(v) && v == ts),
                },
                _ => true,
            },
            old(self).state matches DoneState::AwaitActive(ts) ==> match event {
                Event::Active(Err(err)) => e matches Effect::Finish(Err(x)) && x == err,
                Event::Active(Ok(cur)) => old(self).filter is Some && if holds_uuid(ts@, cur.uuid@) {
                    &&& e matches Effect::Start(g) && g@ == old(self).control_task@
                    &&& final(self).state matches DoneState::AwaitStart(c) && c@ == done_filter_call(old(self).filter->Some_0@)
                } else {
                    &&& e matches Effect::Run(c) && c@ == done_filter_call(old(self).filter->Some_0@)
                    &&& final(self).state is Completing
                },
                _ => true,
            },
            old(self).state is AwaitCurrent ==> match event {
                Event::Active(Err(err)) => e matches Effect::Finish(Err(x)) && x == err,
                Event::Active(Ok(cur)) => {
                    &&& e matches Effect::Start(g) && g@ == old(self).next_task()
                    &&& final(self).state matches DoneState::AwaitStart(c) && c@ == done_current_call(cur.uuid@)
                },
                _ => true,
            },
            old(self).state matches DoneState::AwaitStart(c) ==> match event {
                Event::Done(Err(err)) => e matches Effect::Finish(Err(x)) && x == err,
                Event::Done(Ok(())) => e matches Effect::Run(r) && r@ == c@ && final(self).state is Completing,
                _ => true,
            },
            old(self).state is Completing ==> e matches Effect::Finish(Ok(None)),
    {
        let mut state = DoneState::Over;
        std::mem::swap(&mut state, &mut self.state);
        match state {
            DoneState::Ready => {
                match &self.filter {
                    Some(g) => {
                        self.state = DoneState::AwaitTasks;
                        Effect::QueryTasks(g.clone(), false)
                    },
                    None => {
                        self.state = DoneState::AwaitCurrent;
                        Effect::QueryActive
                    },
                }
            },
            DoneState::AwaitTasks => {
                match event {
                    Event::Tasks(Err(err)) => Effect::Finish(Err(err)),
                    Event::Tasks(Ok(ts)) => {
                        match &self.tastart_filter {
                            Some(s) => {
                                let f = match &self.filter {
                                    Some(f) => f,
                                    None => vstd::pervasive::unreached(),
                                };
                                self.state = DoneState::AwaitStart(done_filter_command(f.as_str()));
                                Effect::Start(s.clone())
                            },
                            None => {
                                self.state = DoneState::AwaitActive(ts);
                                Effect::QueryActive
                            },
                        }
                    },
                    _ => vstd::pervasive::unreached(),
                }
            },
            DoneState::AwaitActive(ts) => {
                match event {
                    Event::Active(Err(err)) => Effect::Finish(Err(err)),
                    Event::Active(Ok(cur)) => {
                        let f = match &self.filter {
                            Some(f) => f,
                            None => vstd::pervasive::unreached(),
                        };
                        let c = done_filter_command(f.as_str());
                        if contains_uuid(&ts, &cur.uuid) {
                            self.state = DoneState::AwaitStart(c);
                            Effect::Start(self.control_task.clone())
                        } else {
                            self.state = DoneState::Completing;
                            Effect::Run(c)
                        }
                    },
                    _ => vstd::pervasive::unreached(),
                }
            },
            DoneState::AwaitCurrent => {
                match event {
                    Event::Active(Err(err)) => Effect::Finish(Err(err)),
                    Event::Active(Ok(cur)) => {
                        let next = match &self.tastart_filter {
                            Some(s) => s.clone(),
                            None => self.control_task.clone(),
                        };
                        self.state = DoneState::AwaitStart(done_current_command(cur.uuid.as_str()));
                        Effect::Start(next)
                    },
                    _ => vstd::pervasive::unreached(),
                }
            },
            DoneState::AwaitStart(c) => {
                match event {
                    Event::Done(Err(err)) => Effect::Finish(Err(err)),
                    Event::Done(Ok(())) => {
                        self.state = DoneState::Completing;
                        Effect::Run(c)
                    },
                    _ => vstd::pervasive::unreached(),
                }
            },
            DoneState::Completing => Effect::Finish(Ok(None)),
            DoneState::Over => vstd::pervasive::unreached(),
        }
    }
}

} // verus!
