use vstd::prelude::*;
use crate::args::{add_args, add_summary, copy_opt_strings, opt_strings, task_add_args, task_add_summary};
use crate::command::{plain_task_call, plain_task_command, cat, cat3};
use crate::flow::{reply_kind, print_line, AddRequest, Effect, Event, EventKind};
use crate::model::{FypmError, FypmErrorKind};
use crate::uuid::{find_uuid, first_uuid};

verus! {

/// Where a task creation stands.
pub enum AddState {
    Ready,
    Summarized,
    Confirming,
    Running,
    Announced(String),
    Unreported(String),
    Over,
}

/// The creation of one task: an optional confirmation, the `task add` call,
/// and the identifier taskwarrior reports.
pub struct TaskAddFlow {
    pub request: AddRequest,
    pub state: AddState,
}

/// The arguments of the `task` call that creates the requested task.
pub open spec fn request_args(r: AddRequest) -> Seq<Seq<char>> {
    add_args(r.description@, r.project@, r.style@, r.ty@, opt_strings(r.other_args))
}

/// The lines shown for the requested task before it is created.
pub open spec fn request_summary(r: AddRequest) -> Seq<Seq<char>> {
    add_summary(r.description@, r.project@, r.style@, r.ty@, opt_strings(r.other_args))
}

/// The message with which a failed creation stops the program.
pub open spec fn creation_error_text(detail: Seq<char>) -> Seq<char> {
    "An error occurred trying to create a task: "@ + detail
}

/// Starts the creation of a task from its arguments.
pub fn task_add(
    description: &String,
    project: &String,
    style: &String,
    ty: &String,
    other_args: &Option<Vec<String>>,
    skip_confirmation: &bool,
) -> (f: TaskAddFlow)
    ensures
        f.request.description@ == description@,
        f.request.project@ == project@,
        f.request.style@ == style@,
        f.request.ty@ == ty@,
        f.request.other_args is Some <==> other_args is Some,
        opt_strings(f.request.other_args) == opt_strings(*other_args),
        f.request.skip_confirmation == *skip_confirmation,
        f.state is Ready,
{
    let request = AddRequest {
        description: description.clone(),
        project: project.clone(),
        style: style.clone(),
        ty: ty.clone(),
        other_args: copy_opt_strings(other_args),
        skip_confirmation: *skip_confirmation,
    };
    TaskAddFlow { request, state: AddState::Ready }
}

impl TaskAddFlow {
    /// Starts the creation of the task a request describes.
    pub fn from_request(request: AddRequest) -> (f: TaskAddFlow)
        ensures
            f.request == request,
            f.state is Ready,
    {
        TaskAddFlow { request, state: AddState::Ready }
    }

    /// The kind of event the creation waits for.
    pub open spec fn awaits(&self) -> EventKind {
        match self.state {
            AddState::Ready => EventKind::Begin,
            AddState::Summarized => EventKind::Ack,
            AddState::Confirming => EventKind::Confirmed,
            AddState::Running => EventKind::Output,
            AddState::Announced(_) => EventKind::Ack,
            AddState::Unreported(_) => EventKind::Ack,
            AddState::Over => EventKind::Nothing,
        }
    }

    /// The kind of event the creation waits for.
    pub fn awaiting(&self) -> (k: EventKind)
        ensures
            k == self.awaits(),
    {
        match self.state {
            AddState::Ready => EventKind::Begin,
            AddState::Summarized => EventKind::Ack,
            AddState::Confirming => EventKind::Confirmed,
            AddState::Running => EventKind::Output,
            AddState::Announced(_) => EventKind::Ack,
            AddState::Unreported(_) => EventKind::Ack,
            AddState::Over => EventKind::Nothing,
        }
    }

    fn run_add(&self) -> (e: Effect)
        ensures
            e matches Effect::Capture(c) && c@ == plain_task_call(request_args(self.request)),
    {
        let r = &self.request;
        Effect::Capture(plain_task_command(task_add_args(&r.description, &r.project, &r.style, &r.ty, &r.other_args)))
    }

    /// Takes the next step of the creation.
    pub fn step(&mut self, event: Event) -> (e: Effect)
        requires
            crate::flow::event_kind(&event) == old(self).awaits(),
        ensures
            final(self).request == old(self).request,
            final(self).awaits() == reply_kind(&e),
            old(self).state is Ready ==> if old(self).request.skip_confirmation {
                &&& e matches Effect::Capture(c) && c@ == plain_task_call(request_args(old(self).request))
                &&& final(self).state is Running
            } else {
                &&& e matches Effect::Print(lines) && lines.deep_view() == request_summary(old(self).request)
                &&& final(self).state is Summarized
            },
            old(self).state is Summarized ==> {
                &&& e matches Effect::Confirm(q) && q@ == "Do you want to continue?"@
                &&& final(self).state is Confirming
            },
            old(self).state is Confirming ==> (match event {
                Event::Confirmed(true) => {
                    &&& e matches Effect::Capture(c) && c@ == plain_task_call(request_args(old(self).request))
                    &&& final(self).state is Running
                },
                _ => {
                    &&& e matches Effect::Finish(Err(err)) && err.kind == FypmErrorKind::Aborted && err.message@ == "Aborted"@
                    &&& final(self).state is Over
                },
            }),
            old(self).state is Running ==> (match event {
                Event::Output(Err(detail)) => e matches Effect::Fail(m) && m@ == creation_error_text(detail@),
                Event::Output(Ok(out)) => if !out.success {
                    e matches Effect::Fail(m) && m@ == creation_error_text(out.stderr@)
                } else {
                    match first_uuid(out.stdout@) {
                        Some(u) => {
                            &&& e matches Effect::Print(lines) && lines.deep_view() == seq!["Created task with uuid: "@ + u + "!"@]
                            &&& final(self).state matches AddState::Announced(a) && a@ == u
                        },
                        None => {
                            &&& e matches Effect::Print(lines) && lines.deep_view() == seq!["No created tasks!"@]
                            &&& final(self).state matches AddState::Unreported(s) && s@ == out.stdout@
                        },
                    }
                },
                _ => true,
            }),
            old(self).state matches AddState::Announced(u) ==> {
                &&& e matches Effect::Finish(Ok(Some(r))) && r@ == u@
                &&& final(self).state is Over
            },
            old(self).state matches AddState::Unreported(s) ==> e matches Effect::Fail(m) && m@ == s@,
    {
        match &self.state {
            AddState::Ready => {
                if self.request.skip_confirmation {
                    let e = self.run_add();
                    self.state = AddState::Running;
                    e
                } else {
                    let r = &self.request;
                    let lines = task_add_summary(&r.description, &r.project, &r.style, &r.ty, &r.other_args);
                    self.state = AddState::Summarized;
                    Effect::Print(lines)
                }
            },
            AddState::Summarized => {
                self.state = AddState::Confirming;
                Effect::Confirm(String::from_str("Do you want to continue?"))
            },
            AddState::Confirming => {
                match event {
                    Event::Confirmed(true) => {
                        let e = self.run_add();
                        self.state = AddState::Running;
                        e
                    },
                    _ => {
                        self.state = AddState::Over;
                        Effect::Finish(Err(FypmError { message: String::from_str("Aborted"), kind: FypmErrorKind::Aborted }))
                    },
                }
            },
            AddState::Running => {
                match event {
                    Event::Output(Err(detail)) => {
                        self.state = AddState::Over;
                        Effect::Fail(cat("An error occurred trying to create a task: ", detail.as_str()))
                    },
                    Event::Output(Ok(out)) => {
                        if !out.success {
                            self.state = AddState::Over;
                            Effect::Fail(cat("An error occurred trying to create a task: ", out.stderr.as_str()))
                        } else {
                            match find_uuid(out.stdout.as_str()) {
                                Some(u) => {
                                    let line = cat3("Created task with uuid: ", u.as_str(), "!");
                                    self.state = AddState::Announced(u);
                                    print_line(line)
                                },
                                None => {
                                    self.state = AddState::Unreported(out.stdout);
                                    print_line(String::from_str("No created tasks!"))
                                },
                            }
                        }
                    },
                    _ => {
                        self.state = AddState::Over;
                        vstd::pervasive::unreached()
                    },
                }
            },
            AddState::Announced(u) => {
                let r = u.clone();
                self.state = AddState::Over;
                Effect::Finish(Ok(Some(r)))
            },
            AddState::Unreported(s) => {
                let m = s.clone();
                self.state = AddState::Over;
                Effect::Fail(m)
            },
            AddState::Over => {
                vstd::pervasive::unreached()
            },
        }
    }
}

} // verus!
