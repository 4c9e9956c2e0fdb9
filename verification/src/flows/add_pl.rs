use vstd::prelude::*;
use crate::command::{cat3, owned};
use crate::flow::{event_kind, reply_kind, AddRequest, Effect, Event, EventKind};
use crate::text::{decimal, decimal_string};

verus! {

/// Where creating a playlist stands: the mother's identifier and how many of
/// its three subtasks were asked for.
pub enum AddPlState {
    Ready,
    AwaitMother,
    AwaitSub(String, u8),
    Over,
}

/// Creating a playlist: a mother task and its subtasks for the cover, the
/// description and the songs.
pub struct TaskAddPlFlow {
    pub playlist_name: String,
    pub length: u16,
    pub state: AddPlState,
}

/// The arguments of the playlist's subtask number `k` (1 to 3).
pub open spec fn playlist_sub_args(k: int, length: u16) -> Seq<Seq<char>> {
    if k == 1 {
        seq!["Cover"@, "Dionysian"@]
    } else if k == 2 {
        seq!["Description"@, "Dionysian"@]
    } else {
        seq!["Songs ("@ + decimal(length as nat) + ")"@, "Dionysian"@]
    }
}

/// Begins creating a playlist of `length` songs.
pub fn task_add_pl(playlist_name: &String, length: &u16) -> (f: TaskAddPlFlow)
    ensures
        f.playlist_name@ == playlist_name@,
        f.length == *length,
        f.state is Ready,
        f.consistent(),
{
    TaskAddPlFlow { playlist_name: playlist_name.clone(), length: *length, state: AddPlState::Ready }
}

impl TaskAddPlFlow {
    pub open spec fn awaits(&self) -> EventKind {
        match self.state {
            AddPlState::Ready => EventKind::Begin,
            AddPlState::AwaitMother => EventKind::Added,
            AddPlState::AwaitSub(_, _) => EventKind::Added,
            AddPlState::Over => EventKind::Nothing,
        }
    }

    pub fn awaiting(&self) -> (k: EventKind)
        ensures
            k == self.awaits(),
    {
        match self.state {
            AddPlState::Ready => EventKind::Begin,
            AddPlState::AwaitMother => EventKind::Added,
            AddPlState::AwaitSub(_, _) => EventKind::Added,
            AddPlState::Over => EventKind::Nothing,
        }
    }

    pub open spec fn consistent(&self) -> bool {
        self.state matches AddPlState::AwaitSub(_, k) ==> 1 <= k <= 3
    }

    fn sub_args(&self, k: u8) -> (v: Vec<String>)
        requires
            1 <= k <= 3,
        ensures
            v.deep_view() == playlist_sub_args(k as int, self.length),
    {
        let v = if k == 1 {
            vec![owned("Cover"), owned("Dionysian")]
        } else if k == 2 {
            vec![owned("Description"), owned("Dionysian")]
        } else {
            vec![cat3("Songs (", decimal_string(self.length as u64).as_str(), ")"), owned("Dionysian")]
        };
        assert(v.deep_view() =~= playlist_sub_args(k as int, self.length));
        v
    }

    /// Takes the next step: the mother task, then the three subtasks under it,
    /// stopping at the first failure, and the mother's identifier at the end.
    pub fn step(&mut self, event: Event) -> (e: Effect)
        requires
            event_kind(&event) == old(self).awaits(),
            old(self).consistent(),
        ensures
            final(self).consistent(),
            final(self).playlist_name == old(self).playlist_name,
            final(self).length == old(self).length,
            final(self).awaits() == reply_kind(&e),
            old(self).state is Ready ==> {
                &&& e matches Effect::Add(r)
                &&& r.description@ == old(self).playlist_name@
                &&& r.project@ == "Music.Playlist"@
                &&& r.style@ == "Dionysian"@
                &&& r.ty@ == "Objective"@
                &&& r.other_args is None
                &&& r.skip_confirmation
                &&& final(self).state is AwaitMother
            },
            old(self).state is AwaitMother ==> match event {
                Event::Added(Err(err)) => e matches Effect::Finish(Err(x)) && x == err,
                Event::Added(Ok(m)) => {
                    &&& e matches Effect::AddSub(m2, a, true) && m2@ == m@ && a.deep_view() == playlist_sub_args(1, old(self).length)
                    &&& final(self).state matches AddPlState::AwaitSub(m3, 1) && m3@ == m@
                },
                _ => true,
            },
            old(self).state matches AddPlState::AwaitSub(m, k) ==> match event {
                Event::Added(Err(err)) => e matches Effect::Finish(Err(x)) && x == err,
                Event::Added(Ok(_)) => if k < 3 {
                    &&& e matches Effect::AddSub(m2, a, true) && m2@ == m@ && a.deep_view() == playlist_sub_args(k + 1, old(self).length)
                    &&& final(self).state matches AddPlState::AwaitSub(m3, k2) && m3@ == m@ && k2 == k + 1
                } else {
                    e matches Effect::Finish(Ok(Some(r))) && r@ == m@
                },
                _ => true,
            },
    {
        let mut state = AddPlState::Over;
        std::mem::swap(&mut state, &mut self.state);
        match state {
            AddPlState::Ready => {
                self.state = AddPlState::AwaitMother;
                Effect::Add(AddRequest {
                    description: self.playlist_name.clone(),
                    project: String::from_str("Music.Playlist"),
                    style: String::from_str("Dionysian"),
                    ty: String::from_str("Objective"),
                    other_args: None,
                    skip_confirmation: true,
                })
            },
            AddPlState::AwaitMother => {
                match event {
                    Event::Added(Err(err)) => Effect::Finish(Err(err)),
                    Event::Added(Ok(m)) => {
                        let a = self.sub_args(1);
                        let m2 = m.clone();
                        self.state = AddPlState::AwaitSub(m, 1);
                        Effect::AddSub(m2, a, true)
                    },
                    _ => vstd::pervasive::unreached(),
                }
            },
            AddPlState::AwaitSub(m, k) => {
                match event {
                    Event::Added(Err(err)) => Effect::Finish(Err(err)),
                    Event::Added(Ok(_)) => {
                        if k < 3 {
                            let a = self.sub_args(k + 1);
                            let m2 = m.clone();
                            self.state = AddPlState::AwaitSub(m, k + 1);
                            Effect::AddSub(m2, a, true)
                        } else {
                            Effect::Finish(Ok(Some(m)))
                        }
                    },
                    _ => vstd::pervasive::unreached(),
                }
            },
            AddPlState::Over => vstd::pervasive::unreached(),
        }
    }
}

} // verus!
