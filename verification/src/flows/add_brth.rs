use vstd::prelude::*;
use crate::calendar::{date_string, date_text, next_occurrence, next_occurrence_of, parse_rfc3339_date, rfc3339_date, valid_date, CalDate};
use crate::command::{cat, cat3, owned};
use crate::flow::{event_kind, reply_kind, unwrap_failure_prefix, unwrap_failure_with, AddRequest, Effect, Event, EventKind};
use crate::text::{i32_string, signed_decimal};

verus! {

/// Where creating a birthday stands.
pub enum AddBrthState {
    Ready,
    AwaitAdd,
    Over,
}

/// Creating a yearly all-day event for someone's birthday, due on its next
/// occurrence.
pub struct TaskAddBrthFlow {
    pub birthday_person: String,
    pub date: String,
    pub current_year: i32,
    pub today: CalDate,
    pub state: AddBrthState,
}

/// The timestamp read for a birthday given as month and day.
pub open spec fn birthday_stamp(year: i32, date: Seq<char>) -> Seq<char> {
    signed_decimal(year as int) + "-"@ + date + "T23:59:59Z"@
}

/// The day the event is due: the birthday this year if it is not past, else a
/// year later; empty where that day does not exist.
pub open spec fn due_text(today: CalDate, birthday: CalDate) -> Seq<char> {
    match next_occurrence_of(today, birthday) {
        Some(d) => date_text(d),
        None => Seq::empty(),
    }
}

/// The extra arguments of the birthday event, due on `due`.
pub open spec fn birthday_args(due: Seq<char>) -> Seq<Seq<char>> {
    seq!["WT:AllDay!"@, "recur:yearly"@, "GOAL:"@ + due + "T00:00:00"@, "due:"@ + due + "T23:59:59"@]
}

/// Begins creating a birthday for `birthday_person` on `date` (month and day,
/// `MM-DD`), given the current year and day.
pub fn task_add_brth(birthday_person: &String, date: &String, current_year: i32, today: CalDate) -> (f: TaskAddBrthFlow)
    ensures
        f.birthday_person@ == birthday_person@,
        f.date@ == date@,
        f.current_year == current_year,
        f.today == today,
        f.state is Ready,
{
    TaskAddBrthFlow {
        birthday_person: birthday_person.clone(),
        date: date.clone(),
        current_year,
        today,
        state: AddBrthState::Ready,
    }
}

impl TaskAddBrthFlow {
    pub open spec fn awaits(&self) -> EventKind {
        match self.state {
            AddBrthState::Ready => EventKind::Begin,
            AddBrthState::AwaitAdd => EventKind::Added,
            AddBrthState::Over => EventKind::Nothing,
        }
    }

    pub fn awaiting(&self) -> (k: EventKind)
        ensures
            k == self.awaits(),
    {
        match self.state {
            AddBrthState::Ready => EventKind::Begin,
            AddBrthState::AwaitAdd => EventKind::Added,
            AddBrthState::Over => EventKind::Nothing,
        }
    }

    /// Takes the next step. The event is created when the birthday reads as a
    /// date in the current year; else the program stops.
    pub fn step(&mut self, event: Event) -> (e: Effect)
        requires
            event_kind(&event) == old(self).awaits(),
            valid_date(old(self).today),
        ensures
            final(self).birthday_person == old(self).birthday_person,
            final(self).date == old(self).date,
            final(self).current_year == old(self).current_year,
            final(self).today == old(self).today,
            final(self).awaits() == reply_kind(&e),
            old(self).state is Ready ==> match rfc3339_date(birthday_stamp(old(self).current_year, old(self).date@)) {
                Err(msg) => e matches Effect::Fail(m) && m@ == unwrap_failure_prefix() + msg,
                Ok((y, m, d)) => {
                    let b = CalDate { year: y as i32, month: m as u32, day: d as u32 };
                    &&& e matches Effect::Add(r)
                    &&& r.description@ == old(self).birthday_person@ + "'s Birthday"@
                    &&& r.project@ == "Social.Events"@
                    &&& r.style@ == "Dionysian"@
                    &&& r.ty@ == "Event"@
                    &&& r.other_args matches Some(o) && o.deep_view() == birthday_args(due_text(old(self).today, b))
                    &&& r.skip_confirmation
                    &&& final(self).state is AwaitAdd
                },
            },
            old(self).state is AwaitAdd ==> match event {
                Event::Added(Ok(u)) => e matches Effect::Finish(Ok(Some(v))) && v@ == u@,
                Event::Added(Err(err)) => e matches Effect::Finish(Err(x)) && x == err,
                _ => true,
            },
    {
        match self.state {
            AddBrthState::Ready => {
                let stamp = i32_string(self.current_year).concat("-").concat(self.date.as_str()).concat("T23:59:59Z");
                match parse_rfc3339_date(stamp.as_str()) {
                    Err(msg) => {
                        self.state = AddBrthState::Over;
                        Effect::Fail(unwrap_failure_with(msg.as_str()))
                    },
                    Ok(b) => {
                        let due = match next_occurrence(self.today, b) {
                            Some(n) => date_string(n),
                            None => String::new(),
                        };
                        let others = vec![
                            owned("WT:AllDay!"),
                            owned("recur:yearly"),
                            cat3("GOAL:", due.as_str(), "T00:00:00"),
                            cat3("due:", due.as_str(), "T23:59:59"),
                        ];
                        assert(others.deep_view() =~= birthday_args(due@));
                        let r = AddRequest {
                            description: cat(self.birthday_person.as_str(), "'s Birthday"),
                            project: String::from_str("Social.Events"),
                            style: String::from_str("Dionysian"),
                            ty: String::from_str("Event"),
                            other_args: Some(others),
                            skip_confirmation: true,
                        };
                        self.state = AddBrthState::AwaitAdd;
                        Effect::Add(r)
                    },
                }
            },
            AddBrthState::AwaitAdd => {
                self.state = AddBrthState::Over;
                match event {
                    Event::Added(Ok(u)) => Effect::Finish(Ok(Some(u))),
                    Event::Added(Err(err)) => Effect::Finish(Err(err)),
                    _ => vstd::pervasive::unreached(),
                }
            },
            AddBrthState::Over => vstd::pervasive::unreached(),
        }
    }
}

} // verus!
