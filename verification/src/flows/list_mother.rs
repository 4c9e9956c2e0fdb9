use vstd::prelude::*;
use crate::command::{cat, cat3, owned, task_call, task_command, CommandView, Io, TaskCommand};
use crate::flow::{event_kind, print_line, reply_kind, Effect, Event, EventKind};
use crate::text::{decimal, decimal_string, join, join_strings, repeat, repeat_string};

verus! {

/// Where listing mother tasks stands: the filter the modifier stands for, the
/// mothers' identifiers, the index of the current mother and the tasks counted.
pub enum ListMotherState {
    Ready,
    AwaitModifier,
    AwaitMothers(String),
    AwaitCount(String, Vec<String>, usize, usize),
    MotherShown(String, Vec<String>, usize, usize),
    AwaitOtherCount(String, usize),
    OthersShown(usize),
    Spaced(usize),
    AwaitWidth(usize),
    Ruled(usize),
    Counted,
    Over,
}

/// Listing the mother tasks a filter selects, each with its subtasks, then the
/// other selected tasks that belong to no mother, and how many tasks were shown.
pub struct TaskListMotherFlow {
    pub modifier: String,
    pub filter: Vec<String>,
    pub state: ListMotherState,
}

/// The filter of the mothers among the selected tasks.
pub open spec fn mothers_filter(filter: Seq<Seq<char>>) -> Seq<char> {
    "(("@ + join(filter, " "@) + ") and +MOTHER)"@
}

/// The filter of a mother and its subtasks.
pub open spec fn family_filter(mother: Seq<char>, modifier_filter: Seq<char>) -> Seq<char> {
    "((uuid:"@ + mother + " or MOTHER:"@ + mother + ") "@ + modifier_filter + ")"@
}

/// The filter of the selected tasks that are neither mothers nor subtasks.
pub open spec fn others_filter(filter: Seq<Seq<char>>, modifier_filter: Seq<char>) -> Seq<char> {
    "((("@ + join(filter, " "@) + ") "@ + modifier_filter + ") and MOTHER: and -MOTHER)"@
}

/// The report of the tasks a filter selects, subtasks' types first.
pub open spec fn family_report_call(filter: Seq<char>, modifier: Seq<char>) -> CommandView {
    task_call(
        seq![filter, "rc.verbose=0"@, "rc.report."@ + modifier + ".sort=TYPE-,entry+"@, modifier],
        Io::Default,
        Io::Inherit,
        Io::Default,
        false,
    )
}

/// The rule printed under the listing: as wide as the terminal, or 30 wide.
pub open spec fn rule(width: Option<u16>) -> Seq<char> {
    match width {
        Some(w) => repeat("─"@, w as nat),
        None => repeat("─"@, 30),
    }
}

pub open spec fn overflow_text() -> Seq<char> {
    "attempt to add with overflow"@
}

/// Begins listing mothers and their subtasks.
pub fn task_list_mother_and_subtasks(modifier: &String, filter: &Vec<String>) -> (f: TaskListMotherFlow)
    ensures
        f.modifier@ == modifier@,
        f.filter.deep_view() == filter.deep_view(),
        f.state is Ready,
        f.consistent(),
{
    TaskListMotherFlow { modifier: modifier.clone(), filter: crate::args::copy_strings(filter), state: ListMotherState::Ready }
}

impl TaskListMotherFlow {
    pub open spec fn awaits(&self) -> EventKind {
        match self.state {
            ListMotherState::Ready => EventKind::Begin,
            ListMotherState::AwaitModifier => EventKind::Text,
            ListMotherState::AwaitMothers(_) => EventKind::Uuids,
            ListMotherState::AwaitCount(_, _, _, _) => EventKind::Count,
            ListMotherState::MotherShown(_, _, _, _) => EventKind::Ack,
            ListMotherState::AwaitOtherCount(_, _) => EventKind::Count,
            ListMotherState::OthersShown(_) => EventKind::Ack,
            ListMotherState::Spaced(_) => EventKind::Ack,
            ListMotherState::AwaitWidth(_) => EventKind::Width,
            ListMotherState::Ruled(_) => EventKind::Ack,
            ListMotherState::Counted => EventKind::Ack,
            ListMotherState::Over => EventKind::Nothing,
        }
    }

    pub fn awaiting(&self) -> (k: EventKind)
        ensures
            k == self.awaits(),
    {
        match self.state {
            ListMotherState::Ready => EventKind::Begin,
            ListMotherState::AwaitModifier => EventKind::Text,
            ListMotherState::AwaitMothers(_) => EventKind::Uuids,
            ListMotherState::AwaitCount(_, _, _, _) => EventKind::Count,
            ListMotherState::MotherShown(_, _, _, _) => EventKind::Ack,
            ListMotherState::AwaitOtherCount(_, _) => EventKind::Count,
            ListMotherState::OthersShown(_) => EventKind::Ack,
            ListMotherState::Spaced(_) => EventKind::Ack,
            ListMotherState::AwaitWidth(_) => EventKind::Width,
            ListMotherState::Ruled(_) => EventKind::Ack,
            ListMotherState::Counted => EventKind::Ack,
            ListMotherState::Over => EventKind::Nothing,
        }
    }

    /// The current mother is one of the mothers.
    pub open spec fn consistent(&self) -> bool {
        match self.state {
            ListMotherState::AwaitCount(_, us, k, _) => k < us@.len(),
            ListMotherState::MotherShown(_, us, k, _) => k < us@.len(),
            _ => true,
        }
    }

    /// The effect that asks for the tasks counted for mother `k`, or, past the
    /// last mother, for the other tasks.
    pub open spec fn count_next(&self, mf: Seq<char>, us: Seq<Seq<char>>, k: nat, total: nat, e: Effect, s: ListMotherState) -> bool {
        if k < us.len() {
            &&& e matches Effect::QueryCount(g) && g@ == family_filter(us[k as int], mf)
            &&& s matches ListMotherState::AwaitCount(mf2, us2, k2, t2) && mf2@ == mf && us2.deep_view() == us && k2 == k && t2 == total
        } else {
            &&& e matches Effect::QueryCount(g) && g@ == others_filter(self.filter.deep_view(), mf)
            &&& s matches ListMotherState::AwaitOtherCount(mf2, t2) && mf2@ == mf && t2 == total
        }
    }

    fn ask_count(&mut self, mf: String, us: Vec<String>, k: usize, total: usize) -> (e: Effect)
        requires
            k <= us@.len(),
        ensures
            final(self).modifier == old(self).modifier,
            final(self).filter == old(self).filter,
            final(self).consistent(),
            final(self).awaits() == reply_kind(&e),
            old(self).count_next(mf@, us.deep_view(), k as nat, total as nat, e, final(self).state),
    {
        if k < us.len() {
            let u = us[k].as_str();
            let g = cat3("((uuid:", u, " or MOTHER:").concat(u).concat(") ").concat(mf.as_str()).concat(")");
            self.state = ListMotherState::AwaitCount(mf, us, k, total);
            Effect::QueryCount(g)
        } else {
            let g = cat("(((", join_strings(&self.filter, " ").as_str()).concat(") ").concat(mf.as_str()).concat(") and MOTHER: and -MOTHER)");
            self.state = ListMotherState::AwaitOtherCount(mf, total);
            Effect::QueryCount(g)
        }
    }

    fn report(&self, filter: String) -> (c: TaskCommand)
        ensures
            c@ == family_report_call(filter@, self.modifier@),
    {
        let args = vec![filter, owned("rc.verbose=0"), cat3("rc.report.", self.modifier.as_str(), ".sort=TYPE-,entry+"), self.modifier.clone()];
        assert(args.deep_view() =~= family_report_call(args.deep_view()[0], self.modifier@).args);
        task_command(args, Io::Default, Io::Inherit, Io::Default, false)
    }

    fn mothers_query(&self) -> (g: String)
        ensures
            g@ == mothers_filter(self.filter.deep_view()),
    {
        cat("((", join_strings(&self.filter, " ").as_str()).concat(") and +MOTHER)")
    }

    /// Takes the next step.
    pub fn step(&mut self, event: Event) -> (e: Effect)
        requires
            event_kind(&event) == old(self).awaits(),
            old(self).consistent(),
        ensures
            final(self).consistent(),
            final(self).modifier == old(self).modifier,
            final(self).filter == old(self).filter,
            final(self).awaits() == reply_kind(&e),
            old(self).state is Ready ==> if old(self).modifier@ != "all"@ {
                &&& e matches Effect::QueryModifierFilter(m) && m@ == old(self).modifier@
                &&& final(self).state is AwaitModifier
            } else {
                &&& e matches Effect::QueryUuids(g, false) && g@ == mothers_filter(old(self).filter.deep_view())
                &&& final(self).state matches ListMotherState::AwaitMothers(mf) && mf@.len() == 0
            },
            old(self).state is AwaitModifier ==> match event {
                Event::Text(Err(err)) => e matches Effect::Finish(Err(x)) && x == err,
                Event::Text(Ok(mf)) => {
                    &&& e matches Effect::QueryUuids(g, false) && g@ == mothers_filter(old(self).filter.deep_view())
                    &&& final(self).state matches ListMotherState::AwaitMothers(mf2) && mf2@ == mf@
                },
                _ => true,
            },
            old(self).state matches ListMotherState::AwaitMothers(mf) ==> match event {
                Event::Uuids(Err(err)) => e matches Effect::Finish(Err(x)) && x == err,
                Event::Uuids(Ok(us)) => old(self).count_next(mf@, us.deep_view(), 0, 0, e, final(self).state),
                _ => true,
            },
            old(self).state matches ListMotherState::AwaitCount(mf, us, k, total) ==> match event {
                Event::Count(Err(err)) => e matches Effect::Finish(Err(x)) && x == err,
                Event::Count(Ok(n)) => if total + n > usize::MAX {
                    e matches Effect::Fail(m) && m@ == overflow_text()
                } else {
                    &&& e matches Effect::Run(c) && c@ == family_report_call(family_filter(us.deep_view()[k as int], mf@), old(self).modifier@)
                    &&& final(self).state matches ListMotherState::MotherShown(mf2, us2, k2, t2)
                        && mf2@ == mf@ && us2.deep_view() == us.deep_view() && k2 == k && t2 == total + n
                },
                _ => true,
            },
            old(self).state matches ListMotherState::MotherShown(mf, us, k, total) ==>
                old(self).count_next(mf@, us.deep_view(), (k + 1) as nat, total as nat, e, final(self).state),
            old(self).state matches ListMotherState::AwaitOtherCount(mf, total) ==> match event {
                Event::Count(Err(err)) => e matches Effect::Finish(Err(x)) && x == err,
                Event::Count(Ok(n)) => if total + n > usize::MAX {
                    e matches Effect::Fail(m) && m@ == overflow_text()
                } else {
                    &&& e matches Effect::Run(c) && c@ == family_report_call(others_filter(old(self).filter.deep_view(), mf@), old(self).modifier@)
                    &&& final(self).state matches ListMotherState::OthersShown(t2) && t2 == total + n
                },
                _ => true,
            },
            old(self).state matches ListMotherState::OthersShown(total) ==> {
                &&& e matches Effect::Print(lines) && lines.deep_view() == seq![Seq::<char>::empty()]
                &&& final(self).state matches ListMotherState::Spaced(t2) && t2 == total
            },
            old(self).state matches ListMotherState::Spaced(total) ==> {
                &&& e is TerminalWidth
                &&& final(self).state matches ListMotherState::AwaitWidth(t2) && t2 == total
            },
            old(self).state matches ListMotherState::AwaitWidth(total) ==> match event {
                Event::Width(w) => {
                    &&& e matches Effect::Print(lines) && lines.deep_view() == seq![rule(w)]
                    &&& final(self).state matches ListMotherState::Ruled(t2) && t2 == total
                },
                _ => true,
            },
            old(self).state matches ListMotherState::Ruled(total) ==> {
                &&& e matches Effect::Print(lines) && lines.deep_view() == seq![decimal(total as nat) + " tasks found"@]
                &&& final(self).state is Counted
            },
            old(self).state is Counted ==> e matches Effect::Finish(Ok(None)),
    {
        let mut state = ListMotherState::Over;
        std::mem::swap(&mut state, &mut self.state);
        match state {
            ListMotherState::Ready => {
                if self.modifier != String::from_str("all") {
                    self.state = ListMotherState::AwaitModifier;
                    Effect::QueryModifierFilter(self.modifier.clone())
                } else {
                    let g = self.mothers_query();
                    self.state = ListMotherState::AwaitMothers(String::new());
                    Effect::QueryUuids(g, false)
                }
            },
            ListMotherState::AwaitModifier => {
                match event {
                    Event::Text(Err(err)) => Effect::Finish(Err(err)),
                    Event::Text(Ok(mf)) => {
                        let g = self.mothers_query();
                        self.state = ListMotherState::AwaitMothers(mf);
                        Effect::QueryUuids(g, false)
                    },
                    _ => vstd::pervasive::unreached(),
                }
            },
            ListMotherState::AwaitMothers(mf) => {
                match event {
                    Event::Uuids(Err(err)) => Effect::Finish(Err(err)),
                    Event::Uuids(Ok(us)) => self.ask_count(mf, us, 0, 0),
                    _ => vstd::pervasive::unreached(),
                }
            },
            ListMotherState::AwaitCount(mf, us, k, total) => {
                match event {
                    Event::Count(Err(err)) => Effect::Finish(Err(err)),
                    Event::Count(Ok(n)) => {
                        if n > usize::MAX - total {
                            Effect::Fail(String::from_str("attempt to add with overflow"))
                        } else {
                            let u = us[k].as_str();
                            let g = cat3("((uuid:", u, " or MOTHER:").concat(u).concat(") ").concat(mf.as_str()).concat(")");
                            let c = self.report(g);
                            self.state = ListMotherState::MotherShown(mf, us, k, total + n);
                            Effect::Run(c)
                        }
                    },
                    _ => vstd::pervasive::unreached(),
                }
            },
            ListMotherState::MotherShown(mf, us, k, total) => {
                if k < us.len() {
                    self.ask_count(mf, us, k + 1, total)
                } else {
                    vstd::pervasive::unreached()
                }
            },
            ListMotherState::AwaitOtherCount(mf, total) => {
                match event {
                    Event::Count(Err(err)) => Effect::Finish(Err(err)),
                    Event::Count(Ok(n)) => {
                        if n > usize::MAX - total {
                            Effect::Fail(String::from_str("attempt to add with overflow"))
                        } else {
                            let g = cat("(((", join_strings(&self.filter, " ").as_str()).concat(") ").concat(mf.as_str())
                                .concat(") and MOTHER: and -MOTHER)");
                            let c = self.report(g);
                            self.state = ListMotherState::OthersShown(total + n);
                            Effect::Run(c)
                        }
                    },
                    _ => vstd::pervasive::unreached(),
                }
            },
            ListMotherState::OthersShown(total) => {
                self.state = ListMotherState::Spaced(total);
                print_line(String::new())
            },
            ListMotherState::Spaced(total) => {
                self.state = ListMotherState::AwaitWidth(total);
                Effect::TerminalWidth
            },
            ListMotherState::AwaitWidth(total) => {
                match event {
                    Event::Width(w) => {
                        let line = match w {
                            Some(width) => repeat_string("─", width as u64),
                            None => repeat_string("─", 30),
                        };
                        self.state = ListMotherState::Ruled(total);
                        print_line(line)
                    },
                    _ => vstd::pervasive::unreached(),
                }
            },
            ListMotherState::Ruled(total) => {
                let line = decimal_string(total as u64).concat(" tasks found");
                self.state = ListMotherState::Counted;
                print_line(line)
            },
            ListMotherState::Counted => Effect::Finish(Ok(None)),
            ListMotherState::Over => vstd::pervasive::unreached(),
        }
    }
}

} // verus!
