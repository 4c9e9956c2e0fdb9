use vstd::prelude::*;
use crate::args::{copy_opt_string, modify_args, modify_arg_list, opt_text};
use crate::command::{cat, cat3, owned, plain_task_call, plain_task_command};
use crate::flow::{event_kind, missing_value, missing_value_text, reply_kind, unwrap_failure, unwrap_failure_text, AddRequest, Effect, Event, EventKind};
use crate::text::{decimal, decimal_string, lemma_prefixed_decimal_injective};

verus! {

/// Where creating a sequence stands. Each state after the mother's creation
/// holds the mother's identifier and the number of the current episode; the
/// later ones also the identifier of the episode just created and, while it is
/// being linked forward, that of the one before.
pub enum AddSeqState {
    Ready,
    AwaitMother,
    AwaitLastSeason(String, usize),
    AwaitFirst(String, usize),
    BackLinked(String, usize, String),
    AwaitNext(String, usize, String),
    ForwardPending(String, usize, String, String),
    Linked(String, usize, String),
    Over,
}

/// Creating a sequence: a mother task, then one subtask per episode (or
/// chapter) from `initial_number` to `last_number`, each linked to the one
/// before it, and the first to the last episode of the previous season.
pub struct TaskAddSeqFlow {
    pub seq_type: String,
    pub style: String,
    pub description: String,
    pub project: String,
    pub tag: String,
    pub initial_number: usize,
    pub last_number: usize,
    pub season: Option<String>,
    pub last_season_id: Option<String>,
    pub state: AddSeqState,
}

/// The description of the mother task.
pub open spec fn mother_title(description: Seq<char>, season: Option<Seq<char>>) -> Seq<char> {
    match season {
        Some(s) => description + " (Season "@ + s + ")"@,
        None => description,
    }
}

/// The description of episode `i`.
pub open spec fn episode_title(seq_type: Seq<char>, season: Option<Seq<char>>, i: nat) -> Seq<char> {
    if seq_type == "Book"@ {
        "Chapter "@ + decimal(i)
    } else {
        match season {
            Some(s) => "S"@ + s + "E"@ + decimal(i),
            None => "E"@ + decimal(i),
        }
    }
}

/// The items of a book are its chapters: item `i` is "Chapter " and the
/// decimal of `i`, whatever season is given. Those of any other sequence are
/// episodes: "S", the season, "E" and the decimal of `i`, or "E" and the
/// decimal without a season.
pub proof fn law_book_items_are_chapters(seq_type: Seq<char>, season: Option<Seq<char>>, i: nat)
    ensures
        seq_type == "Book"@ ==> episode_title(seq_type, season, i) == "Chapter "@ + decimal(i),
        seq_type != "Book"@ ==> episode_title(seq_type, season, i) == match season {
            Some(s) => "S"@ + s + "E"@ + decimal(i),
            None => "E"@ + decimal(i),
        },
{
}

/// Different episodes of a sequence get different descriptions.
pub proof fn law_episode_titles_distinct(seq_type: Seq<char>, season: Option<Seq<char>>, i: nat, j: nat)
    requires
        i != j,
    ensures
        episode_title(seq_type, season, i) != episode_title(seq_type, season, j),
{
    if episode_title(seq_type, season, i) == episode_title(seq_type, season, j) {
        if seq_type == "Book"@ {
            lemma_prefixed_decimal_injective("Chapter "@, i, j);
        } else {
            match season {
                Some(s) => {
                    assert("S"@ + s + "E"@ + decimal(i) == ("S"@ + s + "E"@) + decimal(i));
                    assert("S"@ + s + "E"@ + decimal(j) == ("S"@ + s + "E"@) + decimal(j));
                    lemma_prefixed_decimal_injective("S"@ + s + "E"@, i, j);
                },
                None => lemma_prefixed_decimal_injective("E"@, i, j),
            }
        }
    }
}

/// The tags of every task of the sequence, after `+Sequence`.
pub open spec fn sequence_tags(seq_type: Seq<char>, tag: Seq<char>) -> Seq<Seq<char>> {
    seq!["+ST_"@ + tag, "+"@ + seq_type]
}

/// The arguments of the subtask creation for an episode.
pub open spec fn episode_args(mother: Seq<char>, title: Seq<char>, style: Seq<char>, seq_type: Seq<char>, tag: Seq<char>) -> Seq<Seq<char>> {
    seq![mother, title, style, "+ST_"@ + tag, "+"@ + seq_type, "+Sequence"@]
}

/// Begins creating a sequence.
pub fn task_add_seq(
    seq_type: &String,
    style: &String,
    description: &String,
    project: &String,
    tag: &String,
    initial_number: &usize,
    last_number: &usize,
    season: &Option<String>,
    last_season_id: &Option<String>,
) -> (f: TaskAddSeqFlow)
    ensures
        f.seq_type@ == seq_type@,
        f.style@ == style@,
        f.description@ == description@,
        f.project@ == project@,
        f.tag@ == tag@,
        f.initial_number == *initial_number,
        f.last_number == *last_number,
        opt_text(f.season) == opt_text(*season),
        opt_text(f.last_season_id) == opt_text(*last_season_id),
        f.state is Ready,
        f.consistent(),
{
    TaskAddSeqFlow {
        seq_type: seq_type.clone(),
        style: style.clone(),
        description: description.clone(),
        project: project.clone(),
        tag: tag.clone(),
        initial_number: *initial_number,
        last_number: *last_number,
        season: copy_opt_string(season),
        last_season_id: copy_opt_string(last_season_id),
        state: AddSeqState::Ready,
    }
}

impl TaskAddSeqFlow {
    pub open spec fn awaits(&self) -> EventKind {
        match self.state {
            AddSeqState::Ready => EventKind::Begin,
            AddSeqState::AwaitMother => EventKind::Added,
            AddSeqState::AwaitLastSeason(_, _) => EventKind::Tasks,
            AddSeqState::AwaitFirst(_, _) => EventKind::Added,
            AddSeqState::BackLinked(_, _, _) => EventKind::Ack,
            AddSeqState::AwaitNext(_, _, _) => EventKind::Added,
            AddSeqState::ForwardPending(_, _, _, _) => EventKind::Ack,
            AddSeqState::Linked(_, _, _) => EventKind::Ack,
            AddSeqState::Over => EventKind::Nothing,
        }
    }

    pub fn awaiting(&self) -> (k: EventKind)
        ensures
            k == self.awaits(),
    {
        match self.state {
            AddSeqState::Ready => EventKind::Begin,
            AddSeqState::AwaitMother => EventKind::Added,
            AddSeqState::AwaitLastSeason(_, _) => EventKind::Tasks,
            AddSeqState::AwaitFirst(_, _) => EventKind::Added,
            AddSeqState::BackLinked(_, _, _) => EventKind::Ack,
            AddSeqState::AwaitNext(_, _, _) => EventKind::Added,
            AddSeqState::ForwardPending(_, _, _, _) => EventKind::Ack,
            AddSeqState::Linked(_, _, _) => EventKind::Ack,
            AddSeqState::Over => EventKind::Nothing,
        }
    }

    /// The episode number a state is at, if any.
    pub open spec fn episode(&self) -> Option<nat> {
        match self.state {
            AddSeqState::AwaitLastSeason(_, i) => Some(i as nat),
            AddSeqState::AwaitFirst(_, i) => Some(i as nat),
            AddSeqState::BackLinked(_, i, _) => Some(i as nat),
            AddSeqState::AwaitNext(_, i, _) => Some(i as nat),
            AddSeqState::ForwardPending(_, i, _, _) => Some(i as nat),
            AddSeqState::Linked(_, i, _) => Some(i as nat),
            _ => None,
        }
    }

    /// Episode numbers stay within the range; the first episode is the one
    /// linked to the previous season, the others to the episode before.
    pub open spec fn consistent(&self) -> bool {
        &&& self.episode() matches Some(i) ==> self.initial_number <= i <= self.last_number
        &&& self.state is AwaitLastSeason ==> self.last_season_id is Some
        &&& self.state is BackLinked ==> self.last_season_id is Some
        &&& (self.state is AwaitLastSeason || self.state is AwaitFirst || self.state is BackLinked) ==> self.episode() == Some(self.initial_number as nat)
        &&& (self.state is AwaitNext || self.state is ForwardPending) ==> self.episode() != Some(self.initial_number as nat)
    }

    /// The description of episode `i`.
    pub open spec fn title(&self, i: nat) -> Seq<char> {
        episode_title(self.seq_type@, opt_text(self.season), i)
    }

    /// The subtask arguments of episode `i` under mother `m`.
    pub open spec fn args_of(&self, m: Seq<char>, i: nat) -> Seq<Seq<char>> {
        episode_args(m, self.title(i), self.style@, self.seq_type@, self.tag@)
    }

    fn title_of(&self, i: usize) -> (t: String)
        ensures
            t@ == self.title(i as nat),
    {
        if self.seq_type == String::from_str("Book") {
            cat("Chapter ", decimal_string(i as u64).as_str())
        } else {
            match &self.season {
                Some(s) => cat3("S", s.as_str(), "E").concat(decimal_string(i as u64).as_str()),
                None => cat("E", decimal_string(i as u64).as_str()),
            }
        }
    }

    fn episode_arg_list(&self, m: &String, i: usize) -> (v: Vec<String>)
        ensures
            v.deep_view() == self.args_of(m@, i as nat),
    {
        let v = vec![
            m.clone(),
            self.title_of(i),
            self.style.clone(),
            cat("+ST_", self.tag.as_str()),
            cat("+", self.seq_type.as_str()),
            owned("+Sequence"),
        ];
        assert(v.deep_view() =~= self.args_of(m@, i as nat));
        v
    }

    /// The effect that starts episode `i` after `prev`.
    fn begin_episode(&mut self, m: String, i: usize, prev: String) -> (e: Effect)
        requires
            old(self).initial_number <= i <= old(self).last_number,
        ensures
            final(self).seq_type == old(self).seq_type,
            final(self).style == old(self).style,
            final(self).description == old(self).description,
            final(self).project == old(self).project,
            final(self).tag == old(self).tag,
            final(self).initial_number == old(self).initial_number,
            final(self).last_number == old(self).last_number,
            final(self).season == old(self).season,
            final(self).last_season_id == old(self).last_season_id,
            final(self).consistent(),
            final(self).awaits() == reply_kind(&e),
            if i == old(self).initial_number {
                match old(self).last_season_id {
                    Some(l) => {
                        &&& e matches Effect::QueryTasks(g, true) && g@ == l@
                        &&& final(self).state matches AddSeqState::AwaitLastSeason(m2, i2) && m2@ == m@ && i2 == i
                    },
                    None => {
                        &&& e matches Effect::AddSub(m2, a, true) && m2@ == m@ && a.deep_view() == old(self).args_of(m@, i as nat)
                        &&& final(self).state matches AddSeqState::AwaitFirst(m3, i2) && m3@ == m@ && i2 == i
                    },
                }
            } else if prev@.len() == 0 {
                e matches Effect::Fail(t) && t@ == "previous_task_uuid is empty!"@
            } else {
                &&& e matches Effect::AddSub(m2, a, true) && m2@ == m@ && a.deep_view() == old(self).args_of(m@, i as nat)
                &&& final(self).state matches AddSeqState::AwaitNext(m3, i2, p) && m3@ == m@ && i2 == i && p@ == prev@
            },
    {
        if i == self.initial_number {
            match &self.last_season_id {
                Some(l) => {
                    let q = l.clone();
                    self.state = AddSeqState::AwaitLastSeason(m, i);
                    Effect::QueryTasks(q, true)
                },
                None => {
                    let a = self.episode_arg_list(&m, i);
                    let m2 = m.clone();
                    self.state = AddSeqState::AwaitFirst(m, i);
                    Effect::AddSub(m2, a, true)
                },
            }
        } else if prev.as_str().unicode_len() == 0 {
            self.state = AddSeqState::Over;
            Effect::Fail(String::from_str("previous_task_uuid is empty!"))
        } else {
            let a = self.episode_arg_list(&m, i);
            let m2 = m.clone();
            self.state = AddSeqState::AwaitNext(m, i, prev);
            Effect::AddSub(m2, a, true)
        }
    }

    /// Takes the next step.
    pub fn step(&mut self, event: Event) -> (e: Effect)
        requires
            event_kind(&event) == old(self).awaits(),
            old(self).consistent(),
        ensures
            final(self).consistent(),
            final(self).seq_type == old(self).seq_type,
            final(self).style == old(self).style,
            final(self).description == old(self).description,
            final(self).project == old(self).project,
            final(self).tag == old(self).tag,
            final(self).initial_number == old(self).initial_number,
            final(self).last_number == old(self).last_number,
            final(self).season == old(self).season,
            final(self).last_season_id == old(self).last_season_id,
            final(self).awaits() == reply_kind(&e),
            old(self).state is Ready ==> {
                &&& e matches Effect::Add(r)
                &&& r.description@ == mother_title(old(self).description@, opt_text(old(self).season))
                &&& r.project@ == old(self).project@
                &&& r.style@ == old(self).style@
                &&& r.ty@ == "Objective"@
                &&& r.other_args matches Some(o) && o.deep_view() == seq!["+Sequence"@] + sequence_tags(old(self).seq_type@, old(self).tag@)
                &&& r.skip_confirmation
                &&& final(self).state is AwaitMother
            },
            old(self).state is AwaitMother ==> match event {
                Event::Added(Err(err)) => e matches Effect::Finish(Err(x)) && x == err,
                Event::Added(Ok(m)) => if old(self).initial_number > old(self).last_number {
                    e matches Effect::Finish(Ok(None))
                } else {
                    match old(self).last_season_id {
                        Some(l) => {
                            &&& e matches Effect::QueryTasks(g, true) && g@ == l@
                            &&& final(self).state matches AddSeqState::AwaitLastSeason(m2, i) && m2@ == m@ && i == old(self).initial_number
                        },
                        None => {
                            &&& e matches Effect::AddSub(m2, a, true) && m2@ == m@ && a.deep_view() == old(self).args_of(m@, old(self).initial_number as nat)
                            &&& final(self).state matches AddSeqState::AwaitFirst(m3, i) && m3@ == m@ && i == old(self).initial_number
                        },
                    }
                },
                _ => true,
            },
            old(self).state matches AddSeqState::AwaitLastSeason(m, i) ==> match event {
                Event::Tasks(Err(err)) => e matches Effect::Fail(t) && t@ == unwrap_failure_text(err),
                Event::Tasks(Ok(ts)) => if ts@.len() == 0 {
                    e matches Effect::Fail(t) && t@ == missing_value_text()
                } else {
                    &&& e matches Effect::AddSub(m2, a, true) && m2@ == m@
                        && a.deep_view() == old(self).args_of(m@, i as nat).push("SEQ_PREVIOUS:"@ + ts@[0].uuid@)
                    &&& final(self).state matches AddSeqState::AwaitFirst(m3, i2) && m3@ == m@ && i2 == i
                },
                _ => true,
            },
            old(self).state matches AddSeqState::AwaitFirst(m, i) ==> match event {
                Event::Added(Err(err)) => e matches Effect::Fail(t) && t@ == unwrap_failure_text(err),
                Event::Added(Ok(c)) => match old(self).last_season_id {
                    Some(l) => {
                        &&& e matches Effect::Run(k) && k@ == plain_task_call(modify_args(l@, "SEQ_PREVIOUS:"@ + c@))
                        &&& final(self).state matches AddSeqState::BackLinked(m2, i2, c2) && m2@ == m@ && i2 == i && c2@ == c@
                    },
                    None => {
                        &&& e matches Effect::Run(k) && k@ == plain_task_call(modify_args(m@, "SEQ_CURRENT:"@ + c@))
                        &&& final(self).state matches AddSeqState::Linked(m2, i2, c2) && m2@ == m@ && i2 == i && c2@ == c@
                    },
                },
                _ => true,
            },
            old(self).state matches AddSeqState::BackLinked(m, i, c) ==> {
                &&& e matches Effect::Run(k) && k@ == plain_task_call(modify_args(m@, "SEQ_CURRENT:"@ + c@))
                &&& final(self).state matches AddSeqState::Linked(m2, i2, c2) && m2@ == m@ && i2 == i && c2@ == c@
            },
            old(self).state matches AddSeqState::AwaitNext(m, i, prev) ==> match event {
                Event::Added(Err(err)) => e matches Effect::Fail(t) && t@ == unwrap_failure_text(err),
                Event::Added(Ok(c)) => {
                    &&& e matches Effect::Run(k) && k@ == plain_task_call(modify_args(c@, "SEQ_PREVIOUS:"@ + prev@))
                    &&& final(self).state matches AddSeqState::ForwardPending(m2, i2, p2, c2) && m2@ == m@ && i2 == i && p2@ == prev@ && c2@ == c@
                },
                _ => true,
            },
            old(self).state matches AddSeqState::ForwardPending(m, i, prev, c) ==> {
                &&& e matches Effect::Run(k) && k@ == plain_task_call(modify_args(prev@, "SEQ_NEXT:"@ + c@))
                &&& final(self).state matches AddSeqState::Linked(m2, i2, c2) && m2@ == m@ && i2 == i && c2@ == c@
            },
            old(self).state matches AddSeqState::Linked(m, i, c) ==> if i == old(self).last_number {
                e matches Effect::Finish(Ok(None))
            } else if c@.len() == 0 {
                e matches Effect::Fail(t) && t@ == "previous_task_uuid is empty!"@
            } else {
                &&& e matches Effect::AddSub(m2, a, true) && m2@ == m@ && a.deep_view() == old(self).args_of(m@, (i + 1) as nat)
                &&& final(self).state matches AddSeqState::AwaitNext(m3, i2, p) && m3@ == m@ && i2 == i + 1 && p@ == c@
            },
    {
        let mut state = AddSeqState::Over;
        std::mem::swap(&mut state, &mut self.state);
        match state {
            AddSeqState::Ready => {
                let title = match &self.season {
                    Some(s) => self.description.clone().concat(" (Season ").concat(s.as_str()).concat(")"),
                    None => self.description.clone(),
                };
                let others = vec![owned("+Sequence"), cat("+ST_", self.tag.as_str()), cat("+", self.seq_type.as_str())];
                assert(others.deep_view() =~= seq!["+Sequence"@] + sequence_tags(self.seq_type@, self.tag@));
                let r = AddRequest {
                    description: title,
                    project: self.project.clone(),
                    style: self.style.clone(),
                    ty: String::from_str("Objective"),
                    other_args: Some(others),
                    skip_confirmation: true,
                };
                self.state = AddSeqState::AwaitMother;
                Effect::Add(r)
            },
            AddSeqState::AwaitMother => {
                match event {
                    Event::Added(Err(err)) => Effect::Finish(Err(err)),
                    Event::Added(Ok(m)) => {
                        if self.initial_number > self.last_number {
                            Effect::Finish(Ok(None))
                        } else {
                            let i = self.initial_number;
                            self.begin_episode(m, i, String::new())
                        }
                    },
                    _ => vstd::pervasive::unreached(),
                }
            },
            AddSeqState::AwaitLastSeason(m, i) => {
                match event {
                    Event::Tasks(Err(err)) => Effect::Fail(unwrap_failure(&err)),
                    Event::Tasks(Ok(ts)) => {
                        if ts.len() == 0 {
                            Effect::Fail(missing_value())
                        } else {
                            let mut a = self.episode_arg_list(&m, i);
                            a.push(cat("SEQ_PREVIOUS:", ts[0].uuid.as_str()));
                            let m2 = m.clone();
                            self.state = AddSeqState::AwaitFirst(m, i);
                            Effect::AddSub(m2, a, true)
                        }
                    },
                    _ => vstd::pervasive::unreached(),
                }
            },
            AddSeqState::AwaitFirst(m, i) => {
                match event {
                    Event::Added(Err(err)) => Effect::Fail(unwrap_failure(&err)),
                    Event::Added(Ok(c)) => {
                        match &self.last_season_id {
                            Some(l) => {
                                let k = plain_task_command(modify_arg_list(l.as_str(), cat("SEQ_PREVIOUS:", c.as_str())));
                                self.state = AddSeqState::BackLinked(m, i, c);
                                Effect::Run(k)
                            },
                            None => {
                                let k = plain_task_command(modify_arg_list(m.as_str(), cat("SEQ_CURRENT:", c.as_str())));
                                self.state = AddSeqState::Linked(m, i, c);
                                Effect::Run(k)
                            },
                        }
                    },
                    _ => vstd::pervasive::unreached(),
                }
            },
            AddSeqState::BackLinked(m, i, c) => {
                let k = plain_task_command(modify_arg_list(m.as_str(), cat("SEQ_CURRENT:", c.as_str())));
                self.state = AddSeqState::Linked(m, i, c);
                Effect::Run(k)
            },
            AddSeqState::AwaitNext(m, i, prev) => {
                match event {
                    Event::Added(Err(err)) => Effect::Fail(unwrap_failure(&err)),
                    Event::Added(Ok(c)) => {
                        let k = plain_task_command(modify_arg_list(c.as_str(), cat("SEQ_PREVIOUS:", prev.as_str())));
                        self.state = AddSeqState::ForwardPending(m, i, prev, c);
                        Effect::Run(k)
                    },
                    _ => vstd::pervasive::unreached(),
                }
            },
            AddSeqState::ForwardPending(m, i, prev, c) => {
                let k = plain_task_command(modify_arg_list(prev.as_str(), cat("SEQ_NEXT:", c.as_str())));
                self.state = AddSeqState::Linked(m, i, c);
                Effect::Run(k)
            },
            AddSeqState::Linked(m, i, c) => {
                if i == self.last_number {
                    Effect::Finish(Ok(None))
                } else {
                    self.begin_episode(m, i + 1, c)
                }
            },
            AddSeqState::Over => vstd::pervasive::unreached(),
        }
    }
}

} // verus!
