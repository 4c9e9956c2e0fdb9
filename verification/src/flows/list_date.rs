use vstd::prelude::*;
use crate::calendar::{
    date_le, date_on_or_before, date_string, date_text, following_day, is_last_date, is_last_day, is_sunday, naive_date_from_str,
    next_day, parse_date, valid_date, weekday_from_monday, CalDate,
};
use crate::command::{cat3, owned, task_call, task_command, CommandView, Io};
use crate::flow::{event_kind, unwrap_failure_prefix, unwrap_failure_with, missing_value, missing_value_text, print_line, reply_kind, DateRangeKind, Effect, Event, EventKind};
use crate::args::opt_text;
use crate::text::repeat;

verus! {

/// Where a listing by days stands; the dates are the day to list and the last.
pub enum ListDateState {
    Ready,
    AwaitRange,
    DayListed(CalDate, CalDate),
    WeekClosed(CalDate, CalDate),
    Over,
}

/// Listing tasks day by day over a period: one report per day of the tasks
/// whose `property` falls on it, with a blank separator after each Sunday.
pub struct TaskListDateFlow {
    pub property: String,
    pub modifier: String,
    pub date_args: Vec<String>,
    pub state: ListDateState,
}

/// The line printed after each Sunday.
pub open spec fn week_separator() -> Seq<char> {
    repeat(" "@, 28)
}

/// The report of the tasks whose `property` falls on `day` (the day after is `next`).
pub open spec fn day_report_call(property: Seq<char>, modifier: Seq<char>, day: Seq<char>, next: Seq<char>) -> CommandView {
    task_call(
        seq![
            "rc.verbose=0"@,
            "rc.report."@ + modifier + ".sort="@ + property,
            "("@ + property + ".after:"@ + day + " or "@ + property + ":"@ + day + ") and "@ + property + ".before:"@ + next,
            modifier,
        ],
        Io::Default,
        Io::Inherit,
        Io::Default,
        false,
    )
}

/// The period an option names, if it names one.
pub open spec fn range_kind(option: Seq<char>) -> Option<DateRangeKind> {
    if option == "-y"@ || option == "--year"@ {
        Some(DateRangeKind::Year)
    } else if option == "-m"@ || option == "--month"@ {
        Some(DateRangeKind::Month)
    } else if option == "-w"@ || option == "--week"@ {
        Some(DateRangeKind::Week)
    } else {
        None
    }
}

/// The date a text reads as, or the text of the parse error.
pub open spec fn read_date(s: Seq<char>) -> Result<CalDate, Seq<char>> {
    match naive_date_from_str(s) {
        Ok((y, m, d)) => Ok(CalDate { year: y as i32, month: m as u32, day: d as u32 }),
        Err(msg) => Err(msg),
    }
}

/// Begins a listing by days; `date_args` is either a first date, any word and
/// a last date, or an option (`-y`, `-m`, `-w` or their long forms) with an
/// optional argument.
pub fn task_list_date(property: &String, modifier: &String, date_args: &Vec<String>) -> (f: TaskListDateFlow)
    ensures
        f.property@ == property@,
        f.modifier@ == modifier@,
        f.date_args.deep_view() == date_args.deep_view(),
        f.state is Ready,
        f.consistent(),
{
    TaskListDateFlow {
        property: property.clone(),
        modifier: modifier.clone(),
        date_args: crate::args::copy_strings(date_args),
        state: ListDateState::Ready,
    }
}

fn range_kind_of(option: &String) -> (k: Option<DateRangeKind>)
    ensures
        k == range_kind(option@),
{
    if *option == String::from_str("-y") || *option == String::from_str("--year") {
        Some(DateRangeKind::Year)
    } else if *option == String::from_str("-m") || *option == String::from_str("--month") {
        Some(DateRangeKind::Month)
    } else if *option == String::from_str("-w") || *option == String::from_str("--week") {
        Some(DateRangeKind::Week)
    } else {
        None
    }
}

impl TaskListDateFlow {
    pub open spec fn awaits(&self) -> EventKind {
        match self.state {
            ListDateState::Ready => EventKind::Begin,
            ListDateState::AwaitRange => EventKind::Range,
            ListDateState::DayListed(_, _) => EventKind::Ack,
            ListDateState::WeekClosed(_, _) => EventKind::Ack,
            ListDateState::Over => EventKind::Nothing,
        }
    }

    pub fn awaiting(&self) -> (k: EventKind)
        ensures
            k == self.awaits(),
    {
        match self.state {
            ListDateState::Ready => EventKind::Begin,
            ListDateState::AwaitRange => EventKind::Range,
            ListDateState::DayListed(_, _) => EventKind::Ack,
            ListDateState::WeekClosed(_, _) => EventKind::Ack,
            ListDateState::Over => EventKind::Nothing,
        }
    }

    /// The listed day is a real one before chrono's last, and on or before the
    /// last of the period, which is a real day too.
    pub open spec fn consistent(&self) -> bool {
        match self.state {
            ListDateState::DayListed(d, l) => valid_date(d) && valid_date(l) && !is_last_date(d) && date_le(d, l),
            ListDateState::WeekClosed(d, l) => valid_date(d) && valid_date(l) && !is_last_date(d) && date_le(d, l),
            _ => true,
        }
    }

    /// The effect for the report of day `d` within a period ending on `l`.
    pub open spec fn day_effect(&self, d: CalDate, l: CalDate, e: Effect, s: ListDateState) -> bool {
        if !date_le(d, l) {
            e matches Effect::Finish(Ok(None))
        } else if is_last_date(d) {
            e matches Effect::Fail(m) && m@ == "`NaiveDate + TimeDelta` overflowed"@
        } else {
            &&& e matches Effect::Run(c) && c@ == day_report_call(self.property@, self.modifier@, date_text(d), date_text(next_day(d)))
            &&& s matches ListDateState::DayListed(d2, l2) && d2 == d && l2 == l
        }
    }

    fn list_day(&mut self, d: CalDate, l: CalDate) -> (e: Effect)
        requires
            valid_date(d),
            valid_date(l),
        ensures
            final(self).property == old(self).property,
            final(self).modifier == old(self).modifier,
            final(self).date_args == old(self).date_args,
            final(self).consistent(),
            final(self).awaits() == reply_kind(&e),
            old(self).day_effect(d, l, e, final(self).state),
    {
        if !date_on_or_before(d, l) {
            self.state = ListDateState::Over;
            Effect::Finish(Ok(None))
        } else if is_last_day(d) {
            self.state = ListDateState::Over;
            Effect::Fail(String::from_str("`NaiveDate + TimeDelta` overflowed"))
        } else {
            let day = date_string(d);
            let next = date_string(following_day(d));
            let p = self.property.as_str();
            let filter = cat3("(", p, ".after:").concat(day.as_str()).concat(" or ").concat(p).concat(":").concat(day.as_str())
                .concat(") and ").concat(p).concat(".before:").concat(next.as_str());
            let args = vec![
                owned("rc.verbose=0"),
                cat3("rc.report.", self.modifier.as_str(), ".sort=").concat(p),
                filter,
                self.modifier.clone(),
            ];
            assert(args.deep_view() =~= day_report_call(self.property@, self.modifier@, date_text(d), date_text(next_day(d))).args);
            self.state = ListDateState::DayListed(d, l);
            Effect::Run(task_command(args, Io::Default, Io::Inherit, Io::Default, false))
        }
    }

    /// One step of the listing: from this flow, on `event`, the effect `e`
    /// and the flow `next`.
    pub open spec fn steps_to(self, event: Event, e: Effect, next: TaskListDateFlow) -> bool {
        &&& next.consistent()
        &&& next.property == self.property
        &&& next.modifier == self.modifier
        &&& next.date_args == self.date_args
        &&& next.awaits() == reply_kind(&e)
        &&& self.state is Ready ==> {
            let args = self.date_args.deep_view();
            if args.len() > 3 {
                e matches Effect::Fail(m) && m@ == "You entered too many arguments to date_args!"@
            } else if args.len() == 3 {
                match (read_date(args[0]), read_date(args[2])) {
                    (Ok(a), Ok(b)) => self.day_effect(a, b, e, next.state),
                    (Err(msg), _) => e matches Effect::Fail(m) && m@ == unwrap_failure_prefix() + msg,
                    (Ok(_), Err(msg)) => e matches Effect::Fail(m) && m@ == unwrap_failure_prefix() + msg,
                }
            } else if args.len() == 0 {
                e matches Effect::Fail(m) && m@ == missing_value_text()
            } else {
                match range_kind(args[0]) {
                    Some(k) => {
                        &&& e is QueryDateRange
                        &&& e->QueryDateRange_0 == k
                        &&& (if args.len() == 2 {
                            e->QueryDateRange_1 matches Some(x) && x@ == args[1]
                        } else {
                            e->QueryDateRange_1 is None
                        })
                        &&& next.state is AwaitRange
                    },
                    None => e matches Effect::Fail(m) && m@ == "You entered an invalid option to date_args!"@,
                }
            }
        }
        &&& self.state is AwaitRange ==> match event {
            Event::Range(a, b) => self.day_effect(a, b, e, next.state),
            _ => true,
        }
        &&& self.state matches ListDateState::DayListed(d, l) ==> if weekday_from_monday(d) == 6 {
            &&& e matches Effect::Print(lines) && lines.deep_view() == seq![week_separator()]
            &&& next.state matches ListDateState::WeekClosed(d2, l2) && d2 == d && l2 == l
        } else {
            self.day_effect(next_day(d), l, e, next.state)
        }
        &&& self.state matches ListDateState::WeekClosed(d, l) ==> self.day_effect(next_day(d), l, e, next.state)
    }

    /// Takes the next step.
    pub fn step(&mut self, event: Event) -> (e: Effect)
        requires
            event_kind(&event) == old(self).awaits(),
            old(self).consistent(),
            event matches Event::Range(a, b) ==> valid_date(a) && valid_date(b),
        ensures
            old(self).steps_to(event, e, *final(self)),
    {
        let mut state = ListDateState::Over;
        std::mem::swap(&mut state, &mut self.state);
        match state {
            ListDateState::Ready => {
                let n = self.date_args.len();
                if n > 3 {
                    Effect::Fail(String::from_str("You entered too many arguments to date_args!"))
                } else if n == 3 {
                    match parse_date(self.date_args[0].as_str()) {
                        Err(m) => Effect::Fail(unwrap_failure_with(m.as_str())),
                        Ok(a) => match parse_date(self.date_args[2].as_str()) {
                            Err(m) => Effect::Fail(unwrap_failure_with(m.as_str())),
                            Ok(b) => {
                                assert(read_date(self.date_args.deep_view()[0]) == Ok::<CalDate, Seq<char>>(a));
                                assert(read_date(self.date_args.deep_view()[2]) == Ok::<CalDate, Seq<char>>(b));
                                self.list_day(a, b)
                            },
                        },
                    }
                } else if n == 0 {
                    Effect::Fail(missing_value())
                } else {
                    match range_kind_of(&self.date_args[0]) {
                        Some(k) => {
                            let arg = if n == 2 { Some(self.date_args[1].clone()) } else { None };
                            self.state = ListDateState::AwaitRange;
                            Effect::QueryDateRange(k, arg)
                        },
                        None => Effect::Fail(String::from_str("You entered an invalid option to date_args!")),
                    }
                }
            },
            ListDateState::AwaitRange => {
                match event {
                    Event::Range(a, b) => self.list_day(a, b),
                    _ => vstd::pervasive::unreached(),
                }
            },
            ListDateState::DayListed(d, l) => {
                if is_sunday(d) {
                    self.state = ListDateState::WeekClosed(d, l);
                    print_line(crate::text::repeat_string(" ", 28))
                } else {
                    self.list_day(following_day(d), l)
                }
            },
            ListDateState::WeekClosed(d, l) => self.list_day(following_day(d), l),
            ListDateState::Over => vstd::pervasive::unreached(),
        }
    }
}

/// Two effects that ask the same of the runner, as far as a listing gives them.
pub open spec fn same_effect(a: Effect, b: Effect) -> bool {
    match (a, b) {
        (Effect::Run(c), Effect::Run(d)) => c@ == d@,
        (Effect::Print(x), Effect::Print(y)) => x.deep_view() == y.deep_view(),
        (Effect::Fail(m), Effect::Fail(n)) => m@ == n@,
        (Effect::Finish(Ok(None)), Effect::Finish(Ok(None))) => true,
        (Effect::QueryDateRange(k, x), Effect::QueryDateRange(l, y)) => k == l && opt_text(x) == opt_text(y),
        _ => false,
    }
}

/// Date arguments that a listing reads alike: as many of them; for a range,
/// the same first and last dates; for an option, one that names the same
/// period (or none), with the same argument.
pub open spec fn args_alike(a: Seq<Seq<char>>, b: Seq<Seq<char>>) -> bool {
    &&& a.len() == b.len()
    &&& a.len() == 3 ==> a[0] == b[0] && a[2] == b[2]
    &&& (a.len() == 1 || a.len() == 2) ==> range_kind(a[0]) == range_kind(b[0])
    &&& a.len() == 2 ==> a[1] == b[1]
}

impl TaskListDateFlow {
    /// Two listings of the same property and report, at the same point, whose
    /// date arguments read alike.
    pub open spec fn alike(self, other: TaskListDateFlow) -> bool {
        &&& self.property@ == other.property@
        &&& self.modifier@ == other.modifier@
        &&& self.state == other.state
        &&& args_alike(self.date_args.deep_view(), other.date_args.deep_view())
    }
}

/// A whole run of a listing: answered by `events` in turn, it gives `effects`,
/// one for each event.
pub open spec fn runs(f: TaskListDateFlow, events: Seq<Event>, effects: Seq<Effect>) -> bool
    decreases events.len(),
{
    if events.len() == 0 {
        effects.len() == 0
    } else {
        &&& effects.len() == events.len()
        &&& event_kind(&events[0]) == f.awaits()
        &&& exists|g: TaskListDateFlow| #[trigger] f.steps_to(events[0], effects[0], g) && runs(g, events.drop_first(), effects.drop_first())
    }
}

/// Two listings that read their arguments alike, answered by the same event,
/// ask the same of the runner and stay alike.
pub proof fn law_alike_listings_step_alike(
    f1: TaskListDateFlow,
    f2: TaskListDateFlow,
    event: Event,
    e1: Effect,
    e2: Effect,
    g1: TaskListDateFlow,
    g2: TaskListDateFlow,
)
    requires
        f1.alike(f2),
        event_kind(&event) == f1.awaits(),
        f1.steps_to(event, e1, g1),
        f2.steps_to(event, e2, g2),
    ensures
        same_effect(e1, e2),
        g1.alike(g2),
{
}

/// Two listings that read their arguments alike, answered by the same events,
/// ask the same of the runner at every step.
pub proof fn law_alike_listings_run_alike(
    f1: TaskListDateFlow,
    f2: TaskListDateFlow,
    events: Seq<Event>,
    effects1: Seq<Effect>,
    effects2: Seq<Effect>,
)
    requires
        f1.alike(f2),
        runs(f1, events, effects1),
        runs(f2, events, effects2),
    ensures
        effects1.len() == effects2.len(),
        forall|i: int| 0 <= i < effects1.len() ==> same_effect(#[trigger] effects1[i], effects2[i]),
    decreases events.len(),
{
    if events.len() > 0 {
        let g1 = choose|g: TaskListDateFlow| #[trigger] f1.steps_to(events[0], effects1[0], g) && runs(g, events.drop_first(), effects1.drop_first());
        let g2 = choose|g: TaskListDateFlow| #[trigger] f2.steps_to(events[0], effects2[0], g) && runs(g, events.drop_first(), effects2.drop_first());
        law_alike_listings_step_alike(f1, f2, events[0], effects1[0], effects2[0], g1, g2);
        law_alike_listings_run_alike(g1, g2, events.drop_first(), effects1.drop_first(), effects2.drop_first());
        assert forall|i: int| 0 <= i < effects1.len() implies same_effect(#[trigger] effects1[i], effects2[i]) by {
            if i > 0 {
                assert(effects1[i] == effects1.drop_first()[i - 1]);
                assert(effects2[i] == effects2.drop_first()[i - 1]);
            }
        }
    }
}

/// The word between the two dates of a range is not read: two listings of the
/// same property and report, whose three date arguments differ only in the
/// middle one, answered by the same events, ask the same of the runner.
pub proof fn law_middle_word_is_ignored(
    f1: TaskListDateFlow,
    f2: TaskListDateFlow,
    events: Seq<Event>,
    effects1: Seq<Effect>,
    effects2: Seq<Effect>,
)
    requires
        f1.state is Ready,
        f2.state is Ready,
        f1.property@ == f2.property@,
        f1.modifier@ == f2.modifier@,
        f1.date_args.len() == 3,
        f2.date_args.len() == 3,
        f1.date_args.deep_view()[0] == f2.date_args.deep_view()[0],
        f1.date_args.deep_view()[2] == f2.date_args.deep_view()[2],
        runs(f1, events, effects1),
        runs(f2, events, effects2),
    ensures
        effects1.len() == effects2.len(),
        forall|i: int| 0 <= i < effects1.len() ==> same_effect(#[trigger] effects1[i], effects2[i]),
{
    assert(f1.alike(f2));
    law_alike_listings_run_alike(f1, f2, events, effects1, effects2);
}

/// The short and the long spelling of one period option (`-y` and `--year`,
/// `-m` and `--month`, `-w` and `--week`).
pub open spec fn spellings_of_one_option(a: Seq<char>, b: Seq<char>) -> bool {
    ||| (a == "-y"@ || a == "--year"@) && (b == "-y"@ || b == "--year"@)
    ||| (a == "-m"@ || a == "--month"@) && (b == "-m"@ || b == "--month"@)
    ||| (a == "-w"@ || a == "--week"@) && (b == "-w"@ || b == "--week"@)
}

/// The short and the long spelling of an option are one: two listings of the
/// same property and report, one given an option and the other its other
/// spelling, with the same argument if any, answered by the same events, ask
/// the same of the runner.
pub proof fn law_option_spellings_are_one(
    f1: TaskListDateFlow,
    f2: TaskListDateFlow,
    events: Seq<Event>,
    effects1: Seq<Effect>,
    effects2: Seq<Effect>,
)
    requires
        f1.state is Ready,
        f2.state is Ready,
        f1.property@ == f2.property@,
        f1.modifier@ == f2.modifier@,
        1 <= f1.date_args.len() <= 2,
        f2.date_args.len() == f1.date_args.len(),
        spellings_of_one_option(f1.date_args.deep_view()[0], f2.date_args.deep_view()[0]),
        f1.date_args.len() == 2 ==> f1.date_args.deep_view()[1] == f2.date_args.deep_view()[1],
        runs(f1, events, effects1),
        runs(f2, events, effects2),
    ensures
        effects1.len() == effects2.len(),
        forall|i: int| 0 <= i < effects1.len() ==> same_effect(#[trigger] effects1[i], effects2[i]),
{
    reveal_strlit("-y");
    reveal_strlit("--year");
    reveal_strlit("-m");
    reveal_strlit("--month");
    reveal_strlit("-w");
    reveal_strlit("--week");
    assert("-m"@[1] != "-y"@[1] && "-w"@[1] != "-y"@[1] && "-w"@[1] != "-m"@[1]);
    assert("--week"@[2] != "--year"@[2]);
    assert(range_kind(f1.date_args.deep_view()[0]) == range_kind(f2.date_args.deep_view()[0]));
    assert(f1.alike(f2));
    law_alike_listings_run_alike(f1, f2, events, effects1, effects2);
}

} // verus!
