use vstd::prelude::*;
use crate::args::{copy_opt_string, copy_strings, opt_text};
use crate::command::{cat, owned, task_call, task_command, CommandView, Io, TaskCommand};
use crate::flow::{event_kind, print_line, reply_kind, Effect, Event, EventKind};
use crate::model::TaAbandonTags;

verus! {

/// Where a change to many tasks stands; the number is how many tasks the
/// filter selected, the index the next command to run.
pub enum BulkState {
    Ready,
    AwaitTasks,
    AwaitSelection(usize),
    Annotating(usize),
    Running(usize, usize),
    Aborting,
    Over,
}

/// A change to the tasks a filter selects: they are shown to the user, and on
/// confirmation optionally annotated and then changed by `commands` in order.
/// With more than two tasks, taskwarrior asks once more, and `all` is typed.
pub struct BulkFlow {
    pub filter: String,
    pub refusal: Option<String>,
    pub annotation: Option<String>,
    pub commands: Vec<TaskCommand>,
    pub state: BulkState,
}

/// A command with the bulk answer set as given.
pub open spec fn answered(c: CommandView, all: bool) -> CommandView {
    CommandView { answer_all: all, ..c }
}

/// Taskwarrior asks before changing more than two tasks at once.
pub open spec fn needs_bulk_answer(count: nat) -> bool {
    count > 2
}

/// A copy of a command, with the bulk answer set as given.
pub fn copy_command(c: &TaskCommand, all: bool) -> (r: TaskCommand)
    ensures
        r@ == answered(c@, all),
{
    TaskCommand {
        program: c.program.clone(),
        args: copy_strings(&c.args),
        stdin: c.stdin,
        stdout: c.stdout,
        stderr: c.stderr,
        answer_all: all,
    }
}

/// The word that tags a task given up on.
pub open spec fn abandon_tag(tag: TaAbandonTags) -> Seq<char> {
    match tag {
        TaAbandonTags::Archived => "+Archived"@,
        TaAbandonTags::Failed => "+Failed"@,
        TaAbandonTags::Abandoned => "+Abandoned"@,
        TaAbandonTags::NoControl => "+NoControl"@,
    }
}

/// Each way of giving up is recorded by its own tag: `+` and the name the user
/// chose, and no two of them share a tag.
pub proof fn law_abandon_tags_named_apart(a: TaAbandonTags, b: TaAbandonTags)
    ensures
        abandon_tag(a) == "+"@ + match a {
            TaAbandonTags::Archived => "Archived"@,
            TaAbandonTags::Failed => "Failed"@,
            TaAbandonTags::Abandoned => "Abandoned"@,
            TaAbandonTags::NoControl => "NoControl"@,
        },
        a != b ==> abandon_tag(a) != abandon_tag(b),
{
    reveal_strlit("+");
    reveal_strlit("Archived");
    reveal_strlit("Failed");
    reveal_strlit("Abandoned");
    reveal_strlit("NoControl");
    reveal_strlit("+Archived");
    reveal_strlit("+Failed");
    reveal_strlit("+Abandoned");
    reveal_strlit("+NoControl");
    assert("+"@ + "Archived"@ =~= "+Archived"@);
    assert("+"@ + "Failed"@ =~= "+Failed"@);
    assert("+"@ + "Abandoned"@ =~= "+Abandoned"@);
    assert("+"@ + "NoControl"@ =~= "+NoControl"@);
    assert("+Abandoned"@[1] != "+NoControl"@[1]);
}

/// The start of every modification: quiet, unconfirmed, on `filter`.
pub open spec fn quiet_modify(filter: Seq<char>) -> Seq<Seq<char>> {
    seq!["rc.verbose=0"@, "rc.recurrence.confirmation=0"@, "rc.confirmation=0"@, filter, "modify"@]
}

fn quiet_modify_args(filter: &String) -> (v: Vec<String>)
    ensures
        v.deep_view() == quiet_modify(filter@),
{
    let v = vec![owned("rc.verbose=0"), owned("rc.recurrence.confirmation=0"), owned("rc.confirmation=0"), filter.clone(), owned("modify")];
    assert(v.deep_view() =~= quiet_modify(filter@));
    v
}

/// Adds a string to an argument list.
fn push_arg(v: &mut Vec<String>, s: String)
    ensures
        final(v).deep_view() == old(v).deep_view().push(s@),
{
    let ghost before = v.deep_view();
    v.push(s);
    assert(v.deep_view() =~= before.push(s@));
}

/// An annotation is demanded for these tags.
pub open spec fn needs_annotation(tag: TaAbandonTags) -> bool {
    tag == TaAbandonTags::Abandoned || tag == TaAbandonTags::NoControl
}

pub open spec fn missing_annotation_text() -> Seq<char> {
    "You must specify an annotation when mark a task as NoControl or Abandoned!"@
}

/// The call that tags the abandoned tasks.
pub open spec fn abandon_modify_call(tag: TaAbandonTags, filter: Seq<char>) -> CommandView {
    task_call(quiet_modify(filter).push(abandon_tag(tag)), Io::Default, Io::Default, Io::Inherit, false)
}

/// The call that deletes the abandoned tasks.
pub open spec fn abandon_delete_call(filter: Seq<char>) -> CommandView {
    task_call(
        seq!["rc.verbose=0"@, "rc.confirmation=0"@, "rc.recurrence.confirmation=0"@, filter, "delete"@],
        Io::Default,
        Io::Inherit,
        Io::Inherit,
        false,
    )
}

/// Begins giving up on the tasks `filter` selects: they are tagged, annotated
/// when an annotation is given (it must be for `Abandoned` and `NoControl`),
/// and deleted.
pub fn task_abandon(tag: &TaAbandonTags, filter: &String, annotation: &Option<String>) -> (f: BulkFlow)
    ensures
        f.filter@ == filter@,
        f.refusal is Some <==> (needs_annotation(*tag) && annotation is None),
        f.refusal matches Some(m) ==> m@ == missing_annotation_text(),
        opt_text(f.annotation) == opt_text(*annotation),
        f.commands@.len() == 2,
        f.commands@[0]@ == abandon_modify_call(*tag, filter@),
        f.commands@[1]@ == abandon_delete_call(filter@),
        f.state is Ready,
        f.consistent(),
{
    let refusal = if (*tag == TaAbandonTags::Abandoned || *tag == TaAbandonTags::NoControl) && annotation.is_none() {
        Some(String::from_str("You must specify an annotation when mark a task as NoControl or Abandoned!"))
    } else {
        None
    };
    let mut modify = quiet_modify_args(filter);
    let word = match tag {
        TaAbandonTags::Archived => owned("+Archived"),
        TaAbandonTags::Failed => owned("+Failed"),
        TaAbandonTags::Abandoned => owned("+Abandoned"),
        TaAbandonTags::NoControl => owned("+NoControl"),
    };
    push_arg(&mut modify, word);
    let delete = vec![owned("rc.verbose=0"), owned("rc.confirmation=0"), owned("rc.recurrence.confirmation=0"), filter.clone(), owned("delete")];
    assert(delete.deep_view() =~= seq!["rc.verbose=0"@, "rc.confirmation=0"@, "rc.recurrence.confirmation=0"@, filter@, "delete"@]);
    let commands = vec![
        task_command(modify, Io::Default, Io::Default, Io::Inherit, false),
        task_command(delete, Io::Default, Io::Inherit, Io::Inherit, false),
    ];
    BulkFlow {
        filter: filter.clone(),
        refusal,
        annotation: copy_opt_string(annotation),
        commands,
        state: BulkState::Ready,
    }
}

/// The arguments that schedule tasks: an alarm unless it is `cur`, a due date
/// and a work time when given.
pub open spec fn schedule_args(filter: Seq<char>, alarm: Seq<char>, due: Option<Seq<char>>, worktime: Option<Seq<char>>) -> Seq<Seq<char>> {
    let a = if alarm != "cur"@ { quiet_modify(filter).push("ALARM:"@ + alarm) } else { quiet_modify(filter) };
    let b = match due { Some(d) => a.push("due:"@ + d), None => a };
    match worktime { Some(w) => b.push("WT:"@ + w), None => b }
}

/// Begins scheduling the tasks `filter` selects.
pub fn task_schedule(filter: &String, alarm_date: &String, due_date: &Option<String>, worktime: &Option<String>) -> (f: BulkFlow)
    ensures
        f.filter@ == filter@,
        f.refusal is None,
        f.annotation is None,
        f.commands@.len() == 1,
        f.commands@[0]@ == task_call(
            schedule_args(filter@, alarm_date@, opt_text(*due_date), opt_text(*worktime)),
            Io::Default,
            Io::Inherit,
            Io::Inherit,
            false,
        ),
        f.state is Ready,
        f.consistent(),
{
    let mut args = quiet_modify_args(filter);
    if *alarm_date != String::from_str("cur") {
        push_arg(&mut args, cat("ALARM:", alarm_date.as_str()));
    }
    if let Some(d) = due_date {
        push_arg(&mut args, cat("due:", d.as_str()));
    }
    if let Some(w) = worktime {
        push_arg(&mut args, cat("WT:", w.as_str()));
    }
    let commands = vec![task_command(args, Io::Default, Io::Inherit, Io::Inherit, false)];
    BulkFlow { filter: filter.clone(), refusal: None, annotation: None, commands, state: BulkState::Ready }
}

/// The arguments that clear the alarm, the due date and the work time of tasks,
/// each unless its flag keeps it.
pub open spec fn unschedule_args(filter: Seq<char>, no_alarm: bool, no_due: bool, no_worktime: bool) -> Seq<Seq<char>> {
    let a = if !no_alarm { quiet_modify(filter).push("ALARM:"@) } else { quiet_modify(filter) };
    let b = if !no_due { a.push("due:"@) } else { a };
    if !no_worktime { b.push("WT:NonSched!"@) } else { b }
}

/// Unscheduling modifies the selected tasks and clears exactly what is asked:
/// after the modification's start, the alarm is cleared unless `no_alarm`,
/// the due date unless `no_due`, the work time unless `no_worktime`, and
/// nothing else is written.
pub proof fn law_unschedule_clears_what_is_asked(filter: Seq<char>, no_alarm: bool, no_due: bool, no_worktime: bool)
    ensures
        ({
            let args = unschedule_args(filter, no_alarm, no_due, no_worktime);
            let cleared = args.skip(5);
            &&& args.len() >= 5
            &&& args.take(5) == quiet_modify(filter)
            &&& cleared.contains("ALARM:"@) <==> !no_alarm
            &&& cleared.contains("due:"@) <==> !no_due
            &&& cleared.contains("WT:NonSched!"@) <==> !no_worktime
            &&& forall|i: int| 0 <= i < cleared.len() ==> (#[trigger] cleared[i] == "ALARM:"@ || cleared[i] == "due:"@ || cleared[i] == "WT:NonSched!"@)
        }),
{
    reveal_strlit("ALARM:");
    reveal_strlit("due:");
    reveal_strlit("WT:NonSched!");
    let args = unschedule_args(filter, no_alarm, no_due, no_worktime);
    let x: Seq<Seq<char>> = if !no_alarm { seq!["ALARM:"@] } else { seq![] };
    let y: Seq<Seq<char>> = if !no_due { seq!["due:"@] } else { seq![] };
    let z: Seq<Seq<char>> = if !no_worktime { seq!["WT:NonSched!"@] } else { seq![] };
    let cleared = args.skip(5);
    assert(args =~= quiet_modify(filter) + x + y + z);
    assert(cleared =~= x + y + z);
    assert(args.take(5) =~= quiet_modify(filter));
    assert("ALARM:"@.len() != "due:"@.len() && "ALARM:"@.len() != "WT:NonSched!"@.len() && "due:"@.len() != "WT:NonSched!"@.len());
    assert forall|i: int| 0 <= i < cleared.len() implies (#[trigger] cleared[i] == "ALARM:"@ || cleared[i] == "due:"@
        || cleared[i] == "WT:NonSched!"@) && (cleared[i] == "ALARM:"@ ==> !no_alarm) && (cleared[i] == "due:"@ ==> !no_due)
        && (cleared[i] == "WT:NonSched!"@ ==> !no_worktime) by {
        if i < x.len() {
            assert(cleared[i] == x[i]);
        } else if i < x.len() + y.len() {
            assert(cleared[i] == y[i - x.len()]);
        } else {
            assert(cleared[i] == z[i - x.len() - y.len()]);
        }
    }
    if !no_alarm {
        assert(cleared[0] == "ALARM:"@);
    }
    if !no_due {
        assert(cleared[x.len() as int] == "due:"@);
    }
    if !no_worktime {
        assert(cleared[(x.len() + y.len()) as int] == "WT:NonSched!"@);
    }
}

/// Begins unscheduling the tasks `filter` selects.
pub fn task_unschedule(filter: &String, no_alarm: &bool, no_due: &bool, no_worktime: &bool) -> (f: BulkFlow)
    ensures
        f.filter@ == filter@,
        f.refusal is None,
        f.annotation is None,
        f.commands@.len() == 1,
        f.commands@[0]@ == task_call(unschedule_args(filter@, *no_alarm, *no_due, *no_worktime), Io::Default, Io::Inherit, Io::Inherit, false),
        f.state is Ready,
        f.consistent(),
{
    let mut args = quiet_modify_args(filter);
    if !*no_alarm {
        push_arg(&mut args, owned("ALARM:"));
    }
    if !*no_due {
        push_arg(&mut args, owned("due:"));
    }
    if !*no_worktime {
        push_arg(&mut args, owned("WT:NonSched!"));
    }
    let commands = vec![task_command(args, Io::Default, Io::Inherit, Io::Inherit, false)];
    BulkFlow { filter: filter.clone(), refusal: None, annotation: None, commands, state: BulkState::Ready }
}

/// The arguments that bring tasks back to pending, removing the archive tag or
/// the tags of failure.
pub open spec fn und_args(filter: Seq<char>, unarchive: bool) -> Seq<Seq<char>> {
    let base = seq!["rc.verbose=0"@, "rc.confirmation=0"@, "rc.recurrence.confirmation=0"@, filter, "modify"@, "status:pending"@];
    if unarchive {
        base.push("-Archived"@)
    } else {
        base + seq!["-Failed"@, "-Abandoned"@, "-NoControl"@]
    }
}

/// Begins bringing back the tasks `filter` selects.
pub fn task_und(filter: &String, unarchive: &bool) -> (f: BulkFlow)
    ensures
        f.filter@ == filter@,
        f.refusal is None,
        f.annotation is None,
        f.commands@.len() == 1,
        f.commands@[0]@ == task_call(und_args(filter@, *unarchive), Io::Default, Io::Default, Io::Inherit, false),
        f.state is Ready,
        f.consistent(),
{
    let args = if *unarchive {
        vec![owned("rc.verbose=0"), owned("rc.confirmation=0"), owned("rc.recurrence.confirmation=0"), filter.clone(), owned("modify"), owned("status:pending"), owned("-Archived")]
    } else {
        vec![
            owned("rc.verbose=0"), owned("rc.confirmation=0"), owned("rc.recurrence.confirmation=0"), filter.clone(), owned("modify"),
            owned("status:pending"), owned("-Failed"), owned("-Abandoned"), owned("-NoControl"),
        ]
    };
    assert(args.deep_view() =~= und_args(filter@, *unarchive));
    let commands = vec![task_command(args, Io::Default, Io::Default, Io::Inherit, false)];
    BulkFlow { filter: filter.clone(), refusal: None, annotation: None, commands, state: BulkState::Ready }
}

impl BulkFlow {
    pub open spec fn awaits(&self) -> EventKind {
        match self.state {
            BulkState::Ready => EventKind::Begin,
            BulkState::AwaitTasks => EventKind::Tasks,
            BulkState::AwaitSelection(_) => EventKind::Selection,
            BulkState::Annotating(_) => EventKind::Done,
            BulkState::Running(_, _) => EventKind::Ack,
            BulkState::Aborting => EventKind::Ack,
            BulkState::Over => EventKind::Nothing,
        }
    }

    pub fn awaiting(&self) -> (k: EventKind)
        ensures
            k == self.awaits(),
    {
        match self.state {
            BulkState::Ready => EventKind::Begin,
            BulkState::AwaitTasks => EventKind::Tasks,
            BulkState::AwaitSelection(_) => EventKind::Selection,
            BulkState::Annotating(_) => EventKind::Done,
            BulkState::Running(_, _) => EventKind::Ack,
            BulkState::Aborting => EventKind::Ack,
            BulkState::Over => EventKind::Nothing,
        }
    }

    /// There is a command to run first, and the next one to run exists.
    pub open spec fn consistent(&self) -> bool {
        &&& self.commands@.len() > 0
        &&& self.state matches BulkState::Running(_, k) ==> 1 <= k <= self.commands@.len()
    }

    /// The first command, or the effect that ends when confirmation brings
    /// nothing to run.
    fn run_first(&mut self, count: usize) -> (e: Effect)
        requires
            old(self).consistent(),
        ensures
            final(self).filter == old(self).filter,
            final(self).refusal == old(self).refusal,
            final(self).annotation == old(self).annotation,
            final(self).commands == old(self).commands,
            final(self).consistent(),
            e matches Effect::Run(c) && c@ == answered(old(self).commands@[0]@, needs_bulk_answer(count as nat)),
            final(self).state matches BulkState::Running(n, 1) && n == count,
    {
        let c = copy_command(&self.commands[0], count > 2);
        self.state = BulkState::Running(count, 1);
        Effect::Run(c)
    }

    /// Takes the next step.
    pub fn step(&mut self, event: Event) -> (e: Effect)
        requires
            event_kind(&event) == old(self).awaits(),
            old(self).consistent(),
        ensures
            final(self).consistent(),
            final(self).filter == old(self).filter,
            final(self).refusal == old(self).refusal,
            final(self).annotation == old(self).annotation,
            final(self).commands == old(self).commands,
            final(self).awaits() == reply_kind(&e),
            old(self).state is Ready ==> match old(self).refusal {
                Some(m) => e matches Effect::Fail(t) && t@ == m@,
                None => (e matches Effect::QueryTasks(g, false) && g@ == old(self).filter@) && final(self).state is AwaitTasks,
            },
            old(self).state is AwaitTasks ==> match event {
                Event::Tasks(Err(err)) => e matches Effect::Finish(Err(x)) && x == err,
                Event::Tasks(Ok(ts)) => {
                    &&& e matches Effect::ConfirmTasks(shown) && shown == ts
                    &&& final(self).state matches BulkState::AwaitSelection(n) && n == ts@.len()
                },
                _ => true,
            },
            old(self).state matches BulkState::AwaitSelection(n) ==> match event {
                Event::Selection(Err(err)) => e matches Effect::Finish(Err(x)) && x == err,
                Event::Selection(Ok(false)) => {
                    &&& e matches Effect::Print(lines) && lines.deep_view() == seq!["Aborting..."@]
                    &&& final(self).state is Aborting
                },
                Event::Selection(Ok(true)) => match old(self).annotation {
                    Some(a) => {
                        &&& e matches Effect::Annotate(g, b) && g@ == old(self).filter@ && b@ == a@
                        &&& final(self).state matches BulkState::Annotating(m) && m == n
                    },
                    None => {
                        &&& e matches Effect::Run(c) && c@ == answered(old(self).commands@[0]@, needs_bulk_answer(n as nat))
                        &&& final(self).state matches BulkState::Running(m, 1) && m == n
                    },
                },
                _ => true,
            },
            old(self).state matches BulkState::Annotating(n) ==> match event {
                Event::Done(Err(err)) => e matches Effect::Finish(Err(x)) && x == err,
                Event::Done(Ok(())) => {
                    &&& e matches Effect::Run(c) && c@ == answered(old(self).commands@[0]@, needs_bulk_answer(n as nat))
                    &&& final(self).state matches BulkState::Running(m, 1) && m == n
                },
                _ => true,
            },
            old(self).state matches BulkState::Running(n, k) ==> if k < old(self).commands@.len() {
                &&& e matches Effect::Run(c) && c@ == answered(old(self).commands@[k as int]@, needs_bulk_answer(n as nat))
                &&& final(self).state matches BulkState::Running(m, k2) && m == n && k2 == k + 1
            } else {
                e matches Effect::Finish(Ok(None))
            },
            old(self).state is Aborting ==> e matches Effect::Finish(Ok(None)),
    {
        let mut state = BulkState::Over;
        std::mem::swap(&mut state, &mut self.state);
        match state {
            BulkState::Ready => {
                match &self.refusal {
                    Some(m) => Effect::Fail(m.clone()),
                    None => {
                        self.state = BulkState::AwaitTasks;
                        Effect::QueryTasks(self.filter.clone(), false)
                    },
                }
            },
            BulkState::AwaitTasks => {
                match event {
                    Event::Tasks(Err(err)) => Effect::Finish(Err(err)),
                    Event::Tasks(Ok(ts)) => {
                        self.state = BulkState::AwaitSelection(ts.len());
                        Effect::ConfirmTasks(ts)
                    },
                    _ => vstd::pervasive::unreached(),
                }
            },
            BulkState::AwaitSelection(n) => {
                match event {
                    Event::Selection(Err(err)) => Effect::Finish(Err(err)),
                    Event::Selection(Ok(false)) => {
                        self.state = BulkState::Aborting;
                        print_line(String::from_str("Aborting..."))
                    },
                    Event::Selection(Ok(true)) => {
                        match &self.annotation {
                            Some(a) => {
                                let b = a.clone();
                                self.state = BulkState::Annotating(n);
                                Effect::Annotate(self.filter.clone(), b)
                            },
                            None => self.run_first(n),
                        }
                    },
                    _ => vstd::pervasive::unreached(),
                }
            },
            BulkState::Annotating(n) => {
                match event {
                    Event::Done(Err(err)) => Effect::Finish(Err(err)),
                    Event::Done(Ok(())) => self.run_first(n),
                    _ => vstd::pervasive::unreached(),
                }
            },
            BulkState::Running(n, k) => {
                if k < self.commands.len() {
                    let c = copy_command(&self.commands[k], n > 2);
                    self.state = BulkState::Running(n, k + 1);
                    Effect::Run(c)
                } else {
                    Effect::Finish(Ok(None))
                }
            },
            BulkState::Aborting => Effect::Finish(Ok(None)),
            BulkState::Over => vstd::pervasive::unreached(),
        }
    }
}

} // verus!
