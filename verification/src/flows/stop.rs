use vstd::prelude::*;
use crate::args::{copy_opt_string, opt_text};
use crate::command::{stop_call, stop_command};
use crate::flow::{event_kind, reply_kind, unwrap_failure, unwrap_failure_text, Effect, Event, EventKind};

verus! {

/// Where stopping a task stands.
pub enum StopState {
    Ready,
    AwaitActive,
    Stopped,
    AwaitStart,
    Over,
}

/// Stopping a task (the active one when no filter is given), and then, when
/// asked, starting the control task.
pub struct TaskStopFlow {
    pub filter: Option<String>,
    pub start_control_task: bool,
    pub control_task: String,
    pub state: StopState,
}

/// Begins stopping the tasks `filter_option` selects, or the active task.
pub fn task_stop(filter_option: &Option<String>, start_control_task: bool, control_task: &String) -> (f: TaskStopFlow)
    ensures
        opt_text(f.filter) == opt_text(*filter_option),
        f.start_control_task == start_control_task,
        f.control_task@ == control_task@,
        f.state is Ready,
{
    TaskStopFlow { filter: copy_opt_string(filter_option), start_control_task, control_task: control_task.clone(), state: StopState::Ready }
}

impl TaskStopFlow {
    pub open spec fn awaits(&self) -> EventKind {
        match self.state {
            StopState::Ready => EventKind::Begin,
            StopState::AwaitActive => EventKind::Active,
            StopState::Stopped => EventKind::Ack,
            StopState::AwaitStart => EventKind::Done,
            StopState::Over => EventKind::Nothing,
        }
    }

    pub fn awaiting(&self) -> (k: EventKind)
        ensures
            k == self.awaits(),
    {
        match self.state {
            StopState::Ready => EventKind::Begin,
            StopState::AwaitActive => EventKind::Active,
            StopState::Stopped => EventKind::Ack,
            StopState::AwaitStart => EventKind::Done,
            StopState::Over => EventKind::Nothing,
        }
    }

    /// Takes the next step.
    pub fn step(&mut self, event: Event) -> (e: Effect)
        requires
            event_kind(&event) == old(self).awaits(),
        ensures
            final(self).filter == old(self).filter,
            final(self).start_control_task == old(self).start_control_task,
            final(self).control_task == old(self).control_task,
            final(self).awaits() == reply_kind(&e),
            old(self).state is Ready ==> match old(self).filter {
                Some(g) => e matches Effect::Run(c) && c@ == stop_call(g@) && final(self).state is Stopped,
                None => e is QueryActive && final(self).state is AwaitActive,
            },
            old(self).state is AwaitActive ==> match event {
                Event::Active(Ok(t)) => e matches Effect::Run(c) && c@ == stop_call(t.uuid@) && final(self).state is Stopped,
                Event::Active(Err(err)) => e matches Effect::Fail(m) && m@ == unwrap_failure_text(err),
                _ => true,
            },
            old(self).state is Stopped ==> if old(self).start_control_task {
                e matches Effect::Start(g) && g@ == old(self).control_task@ && final(self).state is AwaitStart
            } else {
                e matches Effect::Finish(Ok(None))
            },
            old(self).state is AwaitStart ==> match event {
                Event::Done(Ok(())) => e matches Effect::Finish(Ok(None)),
                Event::Done(Err(err)) => e matches Effect::Finish(Err(x)) && x == err,
                _ => true,
            },
    {
        match self.state {
            StopState::Ready => {
                match &self.filter {
                    Some(g) => {
                        let c = stop_command(g.as_str());
                        self.state = StopState::Stopped;
                        Effect::Run(c)
                    },
                    None => {
                        self.state = StopState::AwaitActive;
                        Effect::QueryActive
                    },
                }
            },
            StopState::AwaitActive => {
                match event {
                    Event::Active(Ok(t)) => {
                        self.state = StopState::Stopped;
                        Effect::Run(stop_command(t.uuid.as_str()))
                    },
                    Event::Active(Err(err)) => {
                        self.state = StopState::Over;
                        Effect::Fail(unwrap_failure(&err))
                    },
                    _ => vstd::pervasive::unreached(),
                }
            },
            StopState::Stopped => {
                if self.start_control_task {
                    self.state = StopState::AwaitStart;
                    Effect::Start(self.control_task.clone())
                } else {
                    self.state = StopState::Over;
                    Effect::Finish(Ok(None))
                }
            },
            StopState::AwaitStart => {
                self.state = StopState::Over;
                match event {
                    Event::Done(Ok(())) => Effect::Finish(Ok(None)),
                    Event::Done(Err(err)) => Effect::Finish(Err(err)),
                    _ => vstd::pervasive::unreached(),
                }
            },
            StopState::Over => vstd::pervasive::unreached(),
        }
    }
}

} // verus!
