use vstd::prelude::*;
use crate::args::{copy_from, copy_strings, modify_args, modify_arg_list};
use crate::command::{cat, cat3, owned, plain_task_call, plain_task_command, CommandView};
use crate::flow::{event_kind, missing_value, missing_value_text, print_line, reply_kind, AddRequest, Effect, Event, EventKind};
use crate::model::TaskRecord;

verus! {

/// Where adding a subtask stands. The record is the mother task; the string is
/// the identifier (or filter) of the subtask once known.
pub enum AddSubState {
    Ready,
    AwaitMother,
    AwaitSubUuid(TaskRecord),
    AwaitAdded(TaskRecord),
    Typed(TaskRecord, String),
    MotherMarked(TaskRecord, String),
    MotherAnnounced(TaskRecord, String),
    Linked(TaskRecord, String),
    Announced(String),
    Over,
}

/// Making a task the subtask of a mother task: an existing task when one
/// argument is given, else a new task from a description, a style and extra
/// arguments in the mother's project.
pub struct TaskAddSubFlow {
    pub mother_task: String,
    pub other_args: Vec<String>,
    pub skip_confirmation: bool,
    pub state: AddSubState,
}

/// `task <mother> modify STATE:Info +MOTHER`.
pub open spec fn mark_mother_call(mother: Seq<char>) -> CommandView {
    plain_task_call(seq![mother, "modify"@, "STATE:Info"@, "+MOTHER"@])
}

pub open spec fn no_project_text() -> Seq<char> {
    "The specified mother doesn't have a project setted... Are you writing this stuff right?"@
}

pub open spec fn wrong_arity_text() -> Seq<char> {
    "You specified a wrong number of arguments! You don't know how to read documentation, do you? :P"@
}

/// The creation a subtask of `mother` with arguments `args` (at least two) asks for.
pub open spec fn sub_request(mother: TaskRecord, args: Seq<Seq<char>>, skip: bool, r: AddRequest) -> bool {
    &&& mother.project matches Some(p) && r.project@ == p@
    &&& r.description@ == args[0]
    &&& r.style@ == args[1]
    &&& r.ty@ == "SubTask"@
    &&& r.other_args matches Some(o) && o.deep_view() == args.subrange(2, args.len() as int)
    &&& r.skip_confirmation == skip
}

/// Begins attaching a subtask to the task `mother_task` selects.
pub fn task_add_sub(mother_task: &String, other_args: &Vec<String>, skip_confirmation: &bool) -> (f: TaskAddSubFlow)
    ensures
        f.mother_task@ == mother_task@,
        f.other_args.deep_view() == other_args.deep_view(),
        f.skip_confirmation == *skip_confirmation,
        f.state is Ready,
        f.consistent(),
{
    TaskAddSubFlow {
        mother_task: mother_task.clone(),
        other_args: copy_strings(other_args),
        skip_confirmation: *skip_confirmation,
        state: AddSubState::Ready,
    }
}

impl TaskAddSubFlow {
    pub open spec fn awaits(&self) -> EventKind {
        match self.state {
            AddSubState::Ready => EventKind::Begin,
            AddSubState::AwaitMother => EventKind::Tasks,
            AddSubState::AwaitSubUuid(_) => EventKind::Uuids,
            AddSubState::AwaitAdded(_) => EventKind::Added,
            AddSubState::Typed(_, _) => EventKind::Ack,
            AddSubState::MotherMarked(_, _) => EventKind::Ack,
            AddSubState::MotherAnnounced(_, _) => EventKind::Ack,
            AddSubState::Linked(_, _) => EventKind::Ack,
            AddSubState::Announced(_) => EventKind::Ack,
            AddSubState::Over => EventKind::Nothing,
        }
    }

    pub fn awaiting(&self) -> (k: EventKind)
        ensures
            k == self.awaits(),
    {
        match self.state {
            AddSubState::Ready => EventKind::Begin,
            AddSubState::AwaitMother => EventKind::Tasks,
            AddSubState::AwaitSubUuid(_) => EventKind::Uuids,
            AddSubState::AwaitAdded(_) => EventKind::Added,
            AddSubState::Typed(_, _) => EventKind::Ack,
            AddSubState::MotherMarked(_, _) => EventKind::Ack,
            AddSubState::MotherAnnounced(_, _) => EventKind::Ack,
            AddSubState::Linked(_, _) => EventKind::Ack,
            AddSubState::Announced(_) => EventKind::Ack,
            AddSubState::Over => EventKind::Nothing,
        }
    }

    /// The states that wait on a single argument occur only with one argument.
    pub open spec fn consistent(&self) -> bool {
        self.state is AwaitSubUuid ==> self.other_args@.len() == 1
    }

    fn mark_mother(&self) -> (c: Effect)
        ensures
            c matches Effect::Run(k) && k@ == mark_mother_call(self.mother_task@),
    {
        let args = vec![self.mother_task.clone(), owned("modify"), owned("STATE:Info"), owned("+MOTHER")];
        assert(args.deep_view() =~= seq![self.mother_task@, "modify"@, "STATE:Info"@, "+MOTHER"@]);
        Effect::Run(plain_task_command(args))
    }

    /// Takes the next step.
    pub fn step(&mut self, event: Event) -> (e: Effect)
        requires
            event_kind(&event) == old(self).awaits(),
            old(self).consistent(),
        ensures
            final(self).consistent(),
            final(self).mother_task == old(self).mother_task,
            final(self).other_args == old(self).other_args,
            final(self).skip_confirmation == old(self).skip_confirmation,
            final(self).awaits() == reply_kind(&e),
            old(self).state is Ready ==> {
                &&& e matches Effect::QueryTasks(g, true) && g@ == old(self).mother_task@
                &&& final(self).state is AwaitMother
            },
            old(self).state is AwaitMother ==> match event {
                Event::Tasks(Err(err)) => e matches Effect::Finish(Err(x)) && x == err,
                Event::Tasks(Ok(ts)) => if ts@.len() == 0 {
                    e matches Effect::Fail(m) && m@ == missing_value_text()
                } else if old(self).other_args@.len() == 1 {
                    &&& e matches Effect::QueryUuids(g, true) && g@ == old(self).other_args.deep_view()[0]
                    &&& final(self).state matches AddSubState::AwaitSubUuid(m) && m == ts@[0]
                } else if old(self).other_args@.len() >= 2 {
                    if ts@[0].project is None {
                        e matches Effect::Fail(m) && m@ == no_project_text()
                    } else {
                        &&& e matches Effect::Add(r) && sub_request(ts@[0], old(self).other_args.deep_view(), old(self).skip_confirmation, r)
                        &&& final(self).state matches AddSubState::AwaitAdded(m) && m == ts@[0]
                    }
                } else {
                    e matches Effect::Fail(m) && m@ == wrong_arity_text()
                },
                _ => true,
            },
            old(self).state matches AddSubState::AwaitSubUuid(m) ==> match event {
                Event::Uuids(Err(err)) => e matches Effect::Finish(Err(x)) && x == err,
                Event::Uuids(Ok(us)) => if us@.len() == 0 {
                    e matches Effect::Fail(t) && t@ == missing_value_text()
                } else {
                    &&& e matches Effect::Run(c) && c@ == plain_task_call(modify_args(us@[0]@, "TYPE:SubTask"@))
                    &&& final(self).state matches AddSubState::Typed(m2, s) && m2 == m && s@ == old(self).other_args.deep_view()[0]
                },
                _ => true,
            },
            old(self).state matches AddSubState::AwaitAdded(m) ==> match event {
                Event::Added(Err(err)) => e matches Effect::Finish(Err(x)) && x == err,
                Event::Added(Ok(u)) => {
                    &&& e matches Effect::Run(c) && c@ == mark_mother_call(old(self).mother_task@)
                    &&& final(self).state matches AddSubState::MotherMarked(m2, s) && m2 == m && s@ == u@
                },
                _ => true,
            },
            old(self).state matches AddSubState::Typed(m, s) ==> {
                &&& e matches Effect::Run(c) && c@ == mark_mother_call(old(self).mother_task@)
                &&& final(self).state matches AddSubState::MotherMarked(m2, s2) && m2 == m && s2@ == s@
            },
            old(self).state matches AddSubState::MotherMarked(m, s) ==> {
                &&& e matches Effect::Print(lines) && lines.deep_view() == seq!["Mother task setted."@]
                &&& final(self).state matches AddSubState::MotherAnnounced(m2, s2) && m2 == m && s2@ == s@
            },
            old(self).state matches AddSubState::MotherAnnounced(m, s) ==> {
                &&& e matches Effect::Run(c) && c@ == plain_task_call(modify_args(s@, "MOTHER:"@ + m.uuid@))
                &&& final(self).state matches AddSubState::Linked(m2, s2) && m2 == m && s2@ == s@
            },
            old(self).state matches AddSubState::Linked(m, s) ==> {
                &&& e matches Effect::Print(lines) && lines.deep_view() == seq!["Subtask added to its MOTHER '"@ + m.description@ + "'!"@]
                &&& final(self).state matches AddSubState::Announced(s2) && s2@ == s@
            },
            old(self).state matches AddSubState::Announced(s) ==> e matches Effect::Finish(Ok(Some(r))) && r@ == s@,
    {
        let mut state = AddSubState::Over;
        std::mem::swap(&mut state, &mut self.state);
        match state {
            AddSubState::Ready => {
                self.state = AddSubState::AwaitMother;
                Effect::QueryTasks(self.mother_task.clone(), true)
            },
            AddSubState::AwaitMother => {
                match event {
                    Event::Tasks(Err(err)) => Effect::Finish(Err(err)),
                    Event::Tasks(Ok(ts)) => {
                        if ts.len() == 0 {
                            Effect::Fail(missing_value())
                        } else {
                            let mut ts = ts;
                            let m = ts.swap_remove(0);
                            if self.other_args.len() == 1 {
                                let sub = self.other_args[0].clone();
                                self.state = AddSubState::AwaitSubUuid(m);
                                Effect::QueryUuids(sub, true)
                            } else if self.other_args.len() >= 2 {
                                match &m.project {
                                    None => Effect::Fail(String::from_str(
                                        "The specified mother doesn't have a project setted... Are you writing this stuff right?",
                                    )),
                                    Some(p) => {
                                        let r = AddRequest {
                                            description: self.other_args[0].clone(),
                                            project: p.clone(),
                                            style: self.other_args[1].clone(),
                                            ty: String::from_str("SubTask"),
                                            other_args: Some(copy_from(&self.other_args, 2)),
                                            skip_confirmation: self.skip_confirmation,
                                        };
                                        self.state = AddSubState::AwaitAdded(m);
                                        Effect::Add(r)
                                    },
                                }
                            } else {
                                Effect::Fail(String::from_str(
                                    "You specified a wrong number of arguments! You don't know how to read documentation, do you? :P",
                                ))
                            }
                        }
                    },
                    _ => vstd::pervasive::unreached(),
                }
            },
            AddSubState::AwaitSubUuid(m) => {
                match event {
                    Event::Uuids(Err(err)) => Effect::Finish(Err(err)),
                    Event::Uuids(Ok(us)) => {
                        if us.len() == 0 {
                            Effect::Fail(missing_value())
                        } else {
                            let c = plain_task_command(modify_arg_list(us[0].as_str(), owned("TYPE:SubTask")));
                            self.state = AddSubState::Typed(m, self.other_args[0].clone());
                            Effect::Run(c)
                        }
                    },
                    _ => vstd::pervasive::unreached(),
                }
            },
            AddSubState::AwaitAdded(m) => {
                match event {
                    Event::Added(Err(err)) => Effect::Finish(Err(err)),
                    Event::Added(Ok(u)) => {
                        let c = self.mark_mother();
                        self.state = AddSubState::MotherMarked(m, u);
                        c
                    },
                    _ => vstd::pervasive::unreached(),
                }
            },
            AddSubState::Typed(m, s) => {
                let c = self.mark_mother();
                self.state = AddSubState::MotherMarked(m, s);
                c
            },
            AddSubState::MotherMarked(m, s) => {
                self.state = AddSubState::MotherAnnounced(m, s);
                print_line(String::from_str("Mother task setted."))
            },
            AddSubState::MotherAnnounced(m, s) => {
                let c = plain_task_command(modify_arg_list(s.as_str(), cat("MOTHER:", m.uuid.as_str())));
                self.state = AddSubState::Linked(m, s);
                Effect::Run(c)
            },
            AddSubState::Linked(m, s) => {
                let line = cat3("Subtask added to its MOTHER '", m.description.as_str(), "'!");
                self.state = AddSubState::Announced(s);
                print_line(line)
            },
            AddSubState::Announced(s) => Effect::Finish(Ok(Some(s))),
            AddSubState::Over => vstd::pervasive::unreached(),
        }
    }
}

} // verus!
