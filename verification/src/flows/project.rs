use vstd::prelude::*;
use crate::args::{copy_opt_string, opt_text};
use crate::command::{cat, cat3, owned, plain_task_call, plain_task_command};
use crate::flow::{event_kind, reply_kind, AddRequest, Effect, Event, EventKind};
use crate::model::{TaAbandonTags, TaProjectActions};

verus! {

/// Where a project action stands.
pub enum ProjectState {
    Ready,
    Listing,
    AwaitAddConfirm,
    AwaitArchiveConfirm,
    AwaitAdded,
    AwaitArchived,
    Over,
}

/// Listing projects, adding one (a marker task in it) or archiving one (giving
/// up on its open tasks), after the user confirms.
pub struct TaskProjectFlow {
    pub action: TaProjectActions,
    pub arg: Option<String>,
    pub state: ProjectState,
}

/// The arguments of `task` that list projects, under an optional filter.
pub open spec fn list_projects_args(arg: Option<Seq<char>>) -> Seq<Seq<char>> {
    match arg {
        Some(f) => seq!["project:"@ + f, "projects"@],
        None => seq!["projects"@],
    }
}

/// The filter of the open tasks of a project.
pub open spec fn open_tasks_filter(project: Seq<char>) -> Seq<char> {
    "(project:"@ + project + " and -DELETED and -COMPLETED)"@
}

/// Begins a project action.
pub fn task_project(action: &TaProjectActions, arg: &Option<String>) -> (f: TaskProjectFlow)
    ensures
        f.action == *action,
        opt_text(f.arg) == opt_text(*arg),
        f.state is Ready,
        f.consistent(),
{
    TaskProjectFlow {
        action: *action,
        arg: copy_opt_string(arg),
        state: ProjectState::Ready,
    }
}

impl TaskProjectFlow {
    pub open spec fn awaits(&self) -> EventKind {
        match self.state {
            ProjectState::Ready => EventKind::Begin,
            ProjectState::Listing => EventKind::Ack,
            ProjectState::AwaitAddConfirm => EventKind::Confirmed,
            ProjectState::AwaitArchiveConfirm => EventKind::Confirmed,
            ProjectState::AwaitAdded => EventKind::Added,
            ProjectState::AwaitArchived => EventKind::Done,
            ProjectState::Over => EventKind::Nothing,
        }
    }

    pub fn awaiting(&self) -> (k: EventKind)
        ensures
            k == self.awaits(),
    {
        match self.state {
            ProjectState::Ready => EventKind::Begin,
            ProjectState::Listing => EventKind::Ack,
            ProjectState::AwaitAddConfirm => EventKind::Confirmed,
            ProjectState::AwaitArchiveConfirm => EventKind::Confirmed,
            ProjectState::AwaitAdded => EventKind::Added,
            ProjectState::AwaitArchived => EventKind::Done,
            ProjectState::Over => EventKind::Nothing,
        }
    }

    /// The confirmation states occur only with a project name.
    pub open spec fn consistent(&self) -> bool {
        (self.state is AwaitAddConfirm || self.state is AwaitArchiveConfirm) ==> self.arg is Some
    }

    /// Takes the next step.
    pub fn step(&mut self, event: Event) -> (e: Effect)
        requires
            event_kind(&event) == old(self).awaits(),
            old(self).consistent(),
        ensures
            final(self).consistent(),
            final(self).action == old(self).action,
            final(self).arg == old(self).arg,
            final(self).awaits() == reply_kind(&e),
            old(self).state is Ready ==> match old(self).action {
                TaProjectActions::List => {
                    &&& e matches Effect::Run(c) && c@ == plain_task_call(list_projects_args(opt_text(old(self).arg)))
                    &&& final(self).state is Listing
                },
                TaProjectActions::Add => match old(self).arg {
                    Some(p) => {
                        &&& e matches Effect::Confirm(q) && q@ == "Do you want to add '"@ + p@ + "' project?"@
                        &&& final(self).state is AwaitAddConfirm
                    },
                    None => e matches Effect::Fail(m) && m@ == "Please provide a project name!"@,
                },
                TaProjectActions::Archive => match old(self).arg {
                    Some(p) => {
                        &&& e matches Effect::Confirm(q) && q@ == "Do you want to archive '"@ + p@ + "' project?"@
                        &&& final(self).state is AwaitArchiveConfirm
                    },
                    None => e matches Effect::Finish(Ok(None)),
                },
            },
            old(self).state is Listing ==> e matches Effect::Finish(Ok(None)),
            old(self).state is AwaitAddConfirm ==> match event {
                Event::Confirmed(true) => {
                    &&& e matches Effect::Add(r)
                    &&& r.description@ == "Project Marker"@
                    &&& r.project@ == old(self).arg->Some_0@
                    &&& r.style@ == " "@
                    &&& r.ty@ == "Continuous"@
                    &&& r.other_args matches Some(o) && o.deep_view() == seq!["+FYPM"@]
                    &&& r.skip_confirmation
                    &&& final(self).state is AwaitAdded
                },
                _ => e matches Effect::Finish(Ok(None)),
            },
            old(self).state is AwaitArchiveConfirm ==> match event {
                Event::Confirmed(true) => {
                    &&& e matches Effect::Abandon(TaAbandonTags::Archived, g, None) && g@ == open_tasks_filter(old(self).arg->Some_0@)
                    &&& final(self).state is AwaitArchived
                },
                _ => e matches Effect::Finish(Ok(None)),
            },
            old(self).state is AwaitAdded ==> match event {
                Event::Added(Err(err)) => e matches Effect::Finish(Err(x)) && x == err,
                _ => e matches Effect::Finish(Ok(None)),
            },
            old(self).state is AwaitArchived ==> match event {
                Event::Done(Err(err)) => e matches Effect::Finish(Err(x)) && x == err,
                _ => e matches Effect::Finish(Ok(None)),
            },
    {
        let mut state = ProjectState::Over;
        std::mem::swap(&mut state, &mut self.state);
        match state {
            ProjectState::Ready => {
                match self.action {
                    TaProjectActions::List => {
                        let args = match &self.arg {
                            Some(f) => vec![cat("project:", f.as_str()), owned("projects")],
                            None => vec![owned("projects")],
                        };
                        assert(args.deep_view() =~= list_projects_args(opt_text(self.arg)));
                        self.state = ProjectState::Listing;
                        Effect::Run(plain_task_command(args))
                    },
                    TaProjectActions::Add => {
                        match &self.arg {
                            Some(p) => {
                                let q = cat3("Do you want to add '", p.as_str(), "' project?");
                                self.state = ProjectState::AwaitAddConfirm;
                                Effect::Confirm(q)
                            },
                            None => Effect::Fail(String::from_str("Please provide a project name!")),
                        }
                    },
                    TaProjectActions::Archive => {
                        match &self.arg {
                            Some(p) => {
                                let q = cat3("Do you want to archive '", p.as_str(), "' project?");
                                self.state = ProjectState::AwaitArchiveConfirm;
                                Effect::Confirm(q)
                            },
                            None => Effect::Finish(Ok(None)),
                        }
                    },
                }
            },
            ProjectState::Listing => Effect::Finish(Ok(None)),
            ProjectState::AwaitAddConfirm => {
                match event {
                    Event::Confirmed(true) => {
                        let p = match &self.arg {
                            Some(p) => p.clone(),
                            None => vstd::pervasive::unreached(),
                        };
                        let others = vec![owned("+FYPM")];
                        assert(others.deep_view() =~= seq!["+FYPM"@]);
                        self.state = ProjectState::AwaitAdded;
                        Effect::Add(AddRequest {
                            description: String::from_str("Project Marker"),
                            project: p,
                            style: String::from_str(" "),
                            ty: String::from_str("Continuous"),
                            other_args: Some(others),
                            skip_confirmation: true,
                        })
                    },
                    _ => Effect::Finish(Ok(None)),
                }
            },
            ProjectState::AwaitArchiveConfirm => {
                match event {
                    Event::Confirmed(true) => {
                        let g = match &self.arg {
                            Some(p) => cat3("(project:", p.as_str(), " and -DELETED and -COMPLETED)"),
                            None => vstd::pervasive::unreached(),
                        };
                        self.state = ProjectState::AwaitArchived;
                        Effect::Abandon(TaAbandonTags::Archived, g, None)
                    },
                    _ => Effect::Finish(Ok(None)),
                }
            },
            ProjectState::AwaitAdded => {
                match event {
                    Event::Added(Err(err)) => Effect::Finish(Err(err)),
                    _ => Effect::Finish(Ok(None)),
                }
            },
            ProjectState::AwaitArchived => {
                match event {
                    Event::Done(Err(err)) => Effect::Finish(Err(err)),
                    _ => Effect::Finish(Ok(None)),
                }
            },
            ProjectState::Over => vstd::pervasive::unreached(),
        }
    }
}

} // verus!
