use fypm::calendar::CalDate;
use fypm::flow::{Effect, Event, EventKind};
use fypm::flows::add_brth::task_add_brth;
use fypm::flows::add_pl::task_add_pl;
use fypm::flows::add_seq::task_add_seq;
use fypm::flows::add_sub::task_add_sub;
use fypm::model::{FypmError, FypmErrorKind, TaskRecord};

fn s(x: &str) -> String {
    x.to_string()
}

fn strs(v: &[&str]) -> Vec<String> {
    v.iter().map(|x| x.to_string()).collect()
}

fn run_args(e: Effect) -> Vec<String> {
    match e {
        Effect::Run(c) => {
            assert_eq!(c.program, "task");
            c.args
        }
        other => panic!("expected a run, got {:?}", other),
    }
}

fn add_sub(e: Effect) -> (String, Vec<String>, bool) {
    match e {
        Effect::AddSub(m, a, skip) => (m, a, skip),
        other => panic!("expected a subtask, got {:?}", other),
    }
}

fn mother(project: Option<&str>) -> TaskRecord {
    TaskRecord { uuid: s("mom-uuid"), description: s("Mom"), project: project.map(s) }
}

#[test]
fn add_sub_attaches_an_existing_task() {
    let mut f = task_add_sub(&s("12"), &strs(&["34"]), &false);
    match f.step(Event::Begin) {
        Effect::QueryTasks(g, true) => assert_eq!(g, "12"),
        other => panic!("{:?}", other),
    }
    match f.step(Event::Tasks(Ok(vec![mother(None)]))) {
        Effect::QueryUuids(g, true) => assert_eq!(g, "34"),
        other => panic!("{:?}", other),
    }
    assert_eq!(run_args(f.step(Event::Uuids(Ok(strs(&["sub-u"]))))), strs(&["sub-u", "modify", "TYPE:SubTask"]));
    assert_eq!(run_args(f.step(Event::Ack)), strs(&["12", "modify", "STATE:Info", "+MOTHER"]));
    match f.step(Event::Ack) {
        Effect::Print(l) => assert_eq!(l, strs(&["Mother task setted."])),
        other => panic!("{:?}", other),
    }
    assert_eq!(run_args(f.step(Event::Ack)), strs(&["34", "modify", "MOTHER:mom-uuid"]));
    match f.step(Event::Ack) {
        Effect::Print(l) => assert_eq!(l, strs(&["Subtask added to its MOTHER 'Mom'!"])),
        other => panic!("{:?}", other),
    }
    match f.step(Event::Ack) {
        Effect::Finish(Ok(Some(u))) => assert_eq!(u, "34"),
        other => panic!("{:?}", other),
    }
}

#[test]
fn add_sub_creates_a_new_task_in_mothers_project() {
    let mut f = task_add_sub(&s("12"), &strs(&["Write", "Apollonian", "+x", "due:today"]), &true);
    f.step(Event::Begin);
    match f.step(Event::Tasks(Ok(vec![mother(Some("Work"))]))) {
        Effect::Add(r) => {
            assert_eq!(r.description, "Write");
            assert_eq!(r.project, "Work");
            assert_eq!(r.style, "Apollonian");
            assert_eq!(r.ty, "SubTask");
            assert_eq!(r.other_args, Some(strs(&["+x", "due:today"])));
            assert!(r.skip_confirmation);
        }
        other => panic!("{:?}", other),
    }
    assert_eq!(run_args(f.step(Event::Added(Ok(s("new-u"))))), strs(&["12", "modify", "STATE:Info", "+MOTHER"]));
    f.step(Event::Ack);
    assert_eq!(run_args(f.step(Event::Ack)), strs(&["new-u", "modify", "MOTHER:mom-uuid"]));
}

#[test]
fn add_sub_with_two_arguments_passes_no_extras() {
    let mut f = task_add_sub(&s("12"), &strs(&["Write", "Apollonian"]), &true);
    f.step(Event::Begin);
    match f.step(Event::Tasks(Ok(vec![mother(Some("Work"))]))) {
        Effect::Add(r) => assert_eq!(r.other_args, Some(vec![])),
        other => panic!("{:?}", other),
    }
}

#[test]
fn add_sub_refuses_mother_without_project() {
    let mut f = task_add_sub(&s("12"), &strs(&["Write", "Apollonian"]), &true);
    f.step(Event::Begin);
    match f.step(Event::Tasks(Ok(vec![mother(None)]))) {
        Effect::Fail(m) => assert_eq!(m, "The specified mother doesn't have a project setted... Are you writing this stuff right?"),
        other => panic!("{:?}", other),
    }
}

#[test]
fn add_sub_refuses_no_arguments() {
    let mut f = task_add_sub(&s("12"), &vec![], &true);
    f.step(Event::Begin);
    match f.step(Event::Tasks(Ok(vec![mother(None)]))) {
        Effect::Fail(m) => assert_eq!(m, "You specified a wrong number of arguments! You don't know how to read documentation, do you? :P"),
        other => panic!("{:?}", other),
    }
}

#[test]
fn add_sub_missing_mother_stops() {
    let mut f = task_add_sub(&s("12"), &strs(&["a"]), &true);
    f.step(Event::Begin);
    match f.step(Event::Tasks(Ok(vec![]))) {
        Effect::Fail(m) => assert_eq!(m, "called `Option::unwrap()` on a `None` value"),
        other => panic!("{:?}", other),
    }
}

#[test]
fn add_seq_links_episodes_in_order() {
    let mut f = task_add_seq(&s("Series"), &s("Dionysian"), &s("Show"), &s("Fun"), &s("show"), &1, &3, &Some(s("2")), &None);
    match f.step(Event::Begin) {
        Effect::Add(r) => {
            assert_eq!(r.description, "Show (Season 2)");
            assert_eq!(r.project, "Fun");
            assert_eq!(r.style, "Dionysian");
            assert_eq!(r.ty, "Objective");
            assert_eq!(r.other_args, Some(strs(&["+Sequence", "+ST_show", "+Series"])));
            assert!(r.skip_confirmation);
        }
        other => panic!("{:?}", other),
    }
    let (m, a, skip) = add_sub(f.step(Event::Added(Ok(s("M")))));
    assert_eq!(m, "M");
    assert!(skip);
    assert_eq!(a, strs(&["M", "S2E1", "Dionysian", "+ST_show", "+Series", "+Sequence"]));
    assert_eq!(run_args(f.step(Event::Added(Ok(s("E1"))))), strs(&["M", "modify", "SEQ_CURRENT:E1"]));
    let (_, a, _) = add_sub(f.step(Event::Ack));
    assert_eq!(a, strs(&["M", "S2E2", "Dionysian", "+ST_show", "+Series", "+Sequence"]));
    assert_eq!(run_args(f.step(Event::Added(Ok(s("E2"))))), strs(&["E2", "modify", "SEQ_PREVIOUS:E1"]));
    assert_eq!(run_args(f.step(Event::Ack)), strs(&["E1", "modify", "SEQ_NEXT:E2"]));
    let (_, a, _) = add_sub(f.step(Event::Ack));
    assert_eq!(a[1], "S2E3");
    assert_eq!(run_args(f.step(Event::Added(Ok(s("E3"))))), strs(&["E3", "modify", "SEQ_PREVIOUS:E2"]));
    assert_eq!(run_args(f.step(Event::Ack)), strs(&["E2", "modify", "SEQ_NEXT:E3"]));
    assert!(matches!(f.step(Event::Ack), Effect::Finish(Ok(None))));
    assert_eq!(f.awaiting(), EventKind::Nothing);
}

#[test]
fn add_seq_links_first_episode_to_last_season() {
    let mut f = task_add_seq(&s("Book"), &s("Apollonian"), &s("Tome"), &s("Read"), &s("tome"), &10, &10, &None, &Some(s("77")));
    match f.step(Event::Begin) {
        Effect::Add(r) => assert_eq!(r.description, "Tome"),
        other => panic!("{:?}", other),
    }
    match f.step(Event::Added(Ok(s("M")))) {
        Effect::QueryTasks(g, true) => assert_eq!(g, "77"),
        other => panic!("{:?}", other),
    }
    let prev = TaskRecord { uuid: s("LAST"), description: s("x"), project: None };
    let (_, a, _) = add_sub(f.step(Event::Tasks(Ok(vec![prev]))));
    assert_eq!(a, strs(&["M", "Chapter 10", "Apollonian", "+ST_tome", "+Book", "+Sequence", "SEQ_PREVIOUS:LAST"]));
    assert_eq!(run_args(f.step(Event::Added(Ok(s("C10"))))), strs(&["77", "modify", "SEQ_PREVIOUS:C10"]));
    assert_eq!(run_args(f.step(Event::Ack)), strs(&["M", "modify", "SEQ_CURRENT:C10"]));
    assert!(matches!(f.step(Event::Ack), Effect::Finish(Ok(None))));
}

#[test]
fn add_seq_with_empty_range_creates_only_the_mother() {
    let mut f = task_add_seq(&s("Series"), &s("D"), &s("Show"), &s("Fun"), &s("t"), &5, &4, &None, &None);
    f.step(Event::Begin);
    assert!(matches!(f.step(Event::Added(Ok(s("M")))), Effect::Finish(Ok(None))));
}

#[test]
fn add_seq_refuses_an_empty_previous_episode() {
    let mut f = task_add_seq(&s("Series"), &s("D"), &s("Show"), &s("Fun"), &s("t"), &1, &2, &None, &None);
    f.step(Event::Begin);
    let (_, a, _) = add_sub(f.step(Event::Added(Ok(s("M")))));
    assert_eq!(a[1], "E1");
    f.step(Event::Added(Ok(s(""))));
    match f.step(Event::Ack) {
        Effect::Fail(m) => assert_eq!(m, "previous_task_uuid is empty!"),
        other => panic!("{:?}", other),
    }
}

#[test]
fn add_seq_stops_when_a_subtask_fails() {
    let mut f = task_add_seq(&s("Series"), &s("D"), &s("Show"), &s("Fun"), &s("t"), &1, &2, &None, &None);
    f.step(Event::Begin);
    f.step(Event::Added(Ok(s("M"))));
    let e = f.step(Event::Added(Err(FypmError { message: s("bad"), kind: FypmErrorKind::Aborted })));
    match e {
        Effect::Fail(m) => assert_eq!(m, "called `Result::unwrap()` on an `Err` value: FypmError { message: \"bad\", kind: Aborted }"),
        other => panic!("{:?}", other),
    }
}

#[test]
fn add_pl_creates_mother_and_three_parts() {
    let mut f = task_add_pl(&s("Summer"), &12);
    match f.step(Event::Begin) {
        Effect::Add(r) => {
            assert_eq!(r.description, "Summer");
            assert_eq!(r.project, "Music.Playlist");
            assert_eq!(r.style, "Dionysian");
            assert_eq!(r.ty, "Objective");
            assert_eq!(r.other_args, None);
            assert!(r.skip_confirmation);
        }
        other => panic!("{:?}", other),
    }
    assert_eq!(add_sub(f.step(Event::Added(Ok(s("PL"))))), (s("PL"), strs(&["Cover", "Dionysian"]), true));
    assert_eq!(add_sub(f.step(Event::Added(Ok(s("a"))))), (s("PL"), strs(&["Description", "Dionysian"]), true));
    assert_eq!(add_sub(f.step(Event::Added(Ok(s("b"))))), (s("PL"), strs(&["Songs (12)", "Dionysian"]), true));
    match f.step(Event::Added(Ok(s("c")))) {
        Effect::Finish(Ok(Some(u))) => assert_eq!(u, "PL"),
        other => panic!("{:?}", other),
    }
}

#[test]
fn add_pl_stops_at_first_failure() {
    let mut f = task_add_pl(&s("Summer"), &3);
    f.step(Event::Begin);
    match f.step(Event::Added(Err(FypmError { message: s("Aborted"), kind: FypmErrorKind::Aborted }))) {
        Effect::Finish(Err(e)) => assert_eq!(e.kind, FypmErrorKind::Aborted),
        other => panic!("{:?}", other),
    }
}

fn brth_args(today: CalDate, year: i32, date: &str) -> Vec<String> {
    let mut f = task_add_brth(&s("Ana"), &s(date), year, today);
    match f.step(Event::Begin) {
        Effect::Add(r) => {
            assert_eq!(r.description, "Ana's Birthday");
            assert_eq!(r.project, "Social.Events");
            assert_eq!(r.style, "Dionysian");
            assert_eq!(r.ty, "Event");
            assert!(r.skip_confirmation);
            r.other_args.unwrap()
        }
        other => panic!("{:?}", other),
    }
}

#[test]
fn add_brth_this_year_when_not_past() {
    let today = CalDate { year: 2024, month: 3, day: 1 };
    assert_eq!(
        brth_args(today, 2024, "05-10"),
        strs(&["WT:AllDay!", "recur:yearly", "GOAL:2024-05-10T00:00:00", "due:2024-05-10T23:59:59"])
    );
}

#[test]
fn add_brth_next_year_when_past() {
    let today = CalDate { year: 2024, month: 6, day: 1 };
    assert_eq!(brth_args(today, 2024, "05-10")[2], "GOAL:2025-05-10T00:00:00");
}

#[test]
fn add_brth_leap_day_past_gives_empty_date() {
    let today = CalDate { year: 2024, month: 3, day: 1 };
    assert_eq!(brth_args(today, 2024, "02-29"), strs(&["WT:AllDay!", "recur:yearly", "GOAL:T00:00:00", "due:T23:59:59"]));
}

#[test]
fn add_brth_unreadable_date_stops() {
    let today = CalDate { year: 2023, month: 3, day: 1 };
    let mut f = task_add_brth(&s("Ana"), &s("02-29"), 2023, today);
    assert!(matches!(f.step(Event::Begin), Effect::Fail(_)));
}

#[test]
fn add_brth_garbled_date_names_the_parse_error() {
    let today = CalDate { year: 2023, month: 3, day: 1 };
    let mut f = task_add_brth(&s("Ana"), &s("xx"), 2023, today);
    match f.step(Event::Begin) {
        Effect::Fail(m) => assert_eq!(m, "called `Result::unwrap()` on an `Err` value: ParseError(TooShort)"),
        other => panic!("{:?}", other),
    }
}

#[test]
fn add_brth_returns_the_created_uuid() {
    let today = CalDate { year: 2024, month: 3, day: 1 };
    let mut f = task_add_brth(&s("Ana"), &s("05-10"), 2024, today);
    f.step(Event::Begin);
    match f.step(Event::Added(Ok(s("B")))) {
        Effect::Finish(Ok(Some(u))) => assert_eq!(u, "B"),
        other => panic!("{:?}", other),
    }
}
