use fypm::flow::{Effect, Event, EventKind};
use fypm::flows::done::task_done;
use fypm::flows::start::task_start;
use fypm::flows::stop::task_stop;
use fypm::model::{FypmError, FypmErrorKind, TaskRecord};

fn s(x: &str) -> String {
    x.to_string()
}

fn rec(uuid: &str) -> TaskRecord {
    TaskRecord { uuid: s(uuid), description: s("some task"), project: None }
}

fn run(e: &Effect) -> (String, Vec<String>) {
    match e {
        Effect::Run(c) => (c.program.clone(), c.args.clone()),
        other => panic!("expected a run, got {:?}", other),
    }
}

fn fail(e: Effect) -> String {
    match e {
        Effect::Fail(m) => m,
        other => panic!("expected a failure, got {:?}", other),
    }
}

fn err(kind: FypmErrorKind) -> FypmError {
    FypmError { message: s("no"), kind }
}

#[test]
fn stop_with_filter_stops_it() {
    let mut f = task_stop(&Some(s("12")), false, &s("ctl"));
    assert_eq!(run(&f.step(Event::Begin)), (s("task"), vec![s("12"), s("stop")]));
    assert!(matches!(f.step(Event::Ack), Effect::Finish(Ok(None))));
}

#[test]
fn stop_without_filter_stops_active_and_starts_control() {
    let mut f = task_stop(&None, true, &s("ctl"));
    assert!(matches!(f.step(Event::Begin), Effect::QueryActive));
    assert_eq!(run(&f.step(Event::Active(Ok(rec("u-1"))))), (s("task"), vec![s("u-1"), s("stop")]));
    match f.step(Event::Ack) {
        Effect::Start(g) => assert_eq!(g, "ctl"),
        other => panic!("{:?}", other),
    }
    assert!(matches!(f.step(Event::Done(Ok(()))), Effect::Finish(Ok(None))));
}

#[test]
fn stop_without_active_task_stops_the_program() {
    let mut f = task_stop(&None, false, &s("ctl"));
    f.step(Event::Begin);
    assert_eq!(
        fail(f.step(Event::Active(Err(err(FypmErrorKind::NoTasksFound))))),
        "called `Result::unwrap()` on an `Err` value: FypmError { message: \"no\", kind: NoTasksFound }"
    );
}

/// Steps a start of `filter` up to the hook, with `alias` as the expanded
/// filter, `found` as the task it selects and `target` as the task to start.
fn start_up_to_hook(filter: &str, alias: &str, found: &str, target: &str) -> fypm::flows::start::TaskStartFlow {
    let mut f = task_start(&s(filter));
    match f.step(Event::Begin) {
        Effect::ResolveAliases(g) => assert_eq!(g, filter),
        other => panic!("{:?}", other),
    }
    match f.step(Event::Resolved(s(alias))) {
        Effect::QueryTasks(g, true) => assert_eq!(g, alias),
        other => panic!("{:?}", other),
    }
    match f.step(Event::Tasks(Ok(vec![rec(found)]))) {
        Effect::CheckAllDay(t) => assert_eq!(t.uuid, found),
        other => panic!("{:?}", other),
    }
    match f.step(Event::Done(Ok(()))) {
        Effect::CheckDivisory(t) => assert_eq!(t.uuid, found),
        other => panic!("{:?}", other),
    }
    match f.step(Event::Done(Ok(()))) {
        Effect::StartTarget(t) => assert_eq!(t.uuid, found),
        other => panic!("{:?}", other),
    }
    assert_eq!(run(&f.step(Event::Text(Ok(s(target))))), (s("tascripts"), vec![s(target)]));
    f
}

#[test]
fn start_refuses_no_match() {
    let mut f = task_start(&s("proj:x"));
    f.step(Event::Begin);
    match f.step(Event::Resolved(s("project:x"))) {
        Effect::QueryTasks(g, true) => assert_eq!(g, "project:x"),
        other => panic!("{:?}", other),
    }
    assert_eq!(fail(f.step(Event::Tasks(Ok(vec![])))), "No task with filter \"project:x\" found!");
}

#[test]
fn start_refuses_many_matches() {
    let mut f = task_start(&s("proj:x"));
    f.step(Event::Begin);
    f.step(Event::Resolved(s("proj:x")));
    assert_eq!(fail(f.step(Event::Tasks(Ok(vec![rec("a"), rec("b")])))), "Too much tasks with filter \"proj:x\"!");
}

#[test]
fn start_stops_on_a_failed_lookup() {
    let mut f = task_start(&s("proj:x"));
    f.step(Event::Begin);
    f.step(Event::Resolved(s("proj:x")));
    assert_eq!(fail(f.step(Event::Tasks(Err(err(FypmErrorKind::CommandFailed))))), "called `Result::unwrap()` on an `Err` value: FypmError { message: \"no\", kind: CommandFailed }");
}

#[test]
fn start_failure_spells_the_error_as_debug_does() {
    let mut f = task_start(&s("7"));
    f.step(Event::Begin);
    f.step(Event::Resolved(s("7")));
    let e = FypmError { message: s("say \"hi\"\n"), kind: FypmErrorKind::TooMuchTasks };
    let expected = format!("called `Result::unwrap()` on an `Err` value: {:?}", e);
    assert_eq!(expected, "called `Result::unwrap()` on an `Err` value: FypmError { message: \"say \\\"hi\\\"\\n\", kind: TooMuchTasks }");
    assert_eq!(fail(f.step(Event::Tasks(Err(e)))), expected);
}

#[test]
fn start_refuses_a_whole_day_task() {
    let mut f = task_start(&s("7"));
    f.step(Event::Begin);
    f.step(Event::Resolved(s("7")));
    f.step(Event::Tasks(Ok(vec![rec("u7")])));
    assert_eq!(fail(f.step(Event::Done(Err(err(FypmErrorKind::CommandFailed))))), "called `Result::unwrap()` on an `Err` value: FypmError { message: \"no\", kind: CommandFailed }");
}

#[test]
fn start_refuses_a_divisory_task() {
    let mut f = task_start(&s("7"));
    f.step(Event::Begin);
    f.step(Event::Resolved(s("7")));
    f.step(Event::Tasks(Ok(vec![rec("u7")])));
    f.step(Event::Done(Ok(())));
    assert_eq!(fail(f.step(Event::Done(Err(err(FypmErrorKind::CommandFailed))))), "called `Result::unwrap()` on an `Err` value: FypmError { message: \"no\", kind: CommandFailed }");
}

#[test]
fn start_stops_when_no_target_is_found() {
    let mut f = task_start(&s("7"));
    f.step(Event::Begin);
    f.step(Event::Resolved(s("7")));
    f.step(Event::Tasks(Ok(vec![rec("u7")])));
    f.step(Event::Done(Ok(())));
    f.step(Event::Done(Ok(())));
    assert_eq!(fail(f.step(Event::Text(Err(err(FypmErrorKind::NoTasksFound))))), "called `Result::unwrap()` on an `Err` value: FypmError { message: \"no\", kind: NoTasksFound }");
}

#[test]
fn start_stops_the_active_task_first() {
    let mut f = start_up_to_hook("proj:x", "proj:x", "found-u", "new-u");
    assert!(matches!(f.step(Event::Ack), Effect::QueryActive));
    match f.step(Event::Active(Ok(rec("old-u")))) {
        Effect::RememberLastTask(u) => assert_eq!(u, "old-u"),
        other => panic!("{:?}", other),
    }
    match f.step(Event::Ack) {
        Effect::Print(l) => assert_eq!(l, vec![s("Stopping active task with uuid: old-u")]),
        other => panic!("{:?}", other),
    }
    assert_eq!(run(&f.step(Event::Ack)), (s("task"), vec![s("old-u"), s("stop")]));
    match f.step(Event::Ack) {
        Effect::Print(l) => assert_eq!(l, vec![s("Starting task with uuid: new-u")]),
        other => panic!("{:?}", other),
    }
    assert_eq!(run(&f.step(Event::Ack)), (s("task"), vec![s("new-u"), s("start")]));
    assert!(matches!(f.step(Event::Ack), Effect::Finish(Ok(None))));
    assert_eq!(f.awaiting(), EventKind::Nothing);
}

#[test]
fn start_with_nothing_active_just_starts() {
    let mut f = start_up_to_hook("7", "7", "u7", "next-of-u7");
    f.step(Event::Ack);
    match f.step(Event::Active(Err(err(FypmErrorKind::NoTasksFound)))) {
        Effect::Print(l) => assert_eq!(l, vec![s("Starting task with uuid: next-of-u7")]),
        other => panic!("{:?}", other),
    }
    assert_eq!(run(&f.step(Event::Ack)), (s("task"), vec![s("next-of-u7"), s("start")]));
    assert!(matches!(f.step(Event::Ack), Effect::Finish(Ok(None))));
}

#[test]
fn start_with_many_active_stops_the_program() {
    let mut f = start_up_to_hook("7", "7", "u7", "u7");
    f.step(Event::Ack);
    assert_eq!(fail(f.step(Event::Active(Err(err(FypmErrorKind::TooMuchTasks))))), "There are more than one task active! Fix it >:(.");
}

#[test]
fn start_with_other_error_names_it() {
    let mut f = start_up_to_hook("7", "7", "u7", "u7");
    f.step(Event::Ack);
    assert_eq!(fail(f.step(Event::Active(Err(err(FypmErrorKind::CommandFailed))))), "Unexpected error: CommandFailed");
}

#[test]
fn done_starts_control_task_when_active_is_among_done() {
    let mut f = task_done(&Some(s("+work")), &None, &s("ctl"));
    match f.step(Event::Begin) {
        Effect::QueryTasks(g, false) => assert_eq!(g, "+work"),
        other => panic!("{:?}", other),
    }
    assert!(matches!(f.step(Event::Tasks(Ok(vec![rec("a"), rec("b")]))), Effect::QueryActive));
    match f.step(Event::Active(Ok(rec("b")))) {
        Effect::Start(g) => assert_eq!(g, "ctl"),
        other => panic!("{:?}", other),
    }
    match f.step(Event::Done(Ok(()))) {
        Effect::Run(c) => {
            assert_eq!(c.args, vec![s("rc.recurrence.confirmation=0"), s("+work"), s("done")]);
            assert_eq!(c.stdin, fypm::command::Io::Inherit);
            assert_eq!(c.stdout, fypm::command::Io::Inherit);
            assert_eq!(c.stderr, fypm::command::Io::Inherit);
        }
        other => panic!("{:?}", other),
    }
    assert!(matches!(f.step(Event::Ack), Effect::Finish(Ok(None))));
}

#[test]
fn done_leaves_active_task_alone_when_not_among_done() {
    let mut f = task_done(&Some(s("+work")), &None, &s("ctl"));
    f.step(Event::Begin);
    f.step(Event::Tasks(Ok(vec![rec("a")])));
    assert_eq!(run(&f.step(Event::Active(Ok(rec("z"))))).1, vec![s("rc.recurrence.confirmation=0"), s("+work"), s("done")]);
}

#[test]
fn done_with_next_task_starts_it() {
    let mut f = task_done(&Some(s("+work")), &Some(s("next")), &s("ctl"));
    f.step(Event::Begin);
    match f.step(Event::Tasks(Ok(vec![]))) {
        Effect::Start(g) => assert_eq!(g, "next"),
        other => panic!("{:?}", other),
    }
    match f.step(Event::Done(Err(err(FypmErrorKind::NoTasksFound)))) {
        Effect::Finish(Err(e)) => assert_eq!(e.kind, FypmErrorKind::NoTasksFound),
        other => panic!("{:?}", other),
    }
}

#[test]
fn done_without_filter_completes_the_active_task() {
    let mut f = task_done(&None, &None, &s("ctl"));
    assert!(matches!(f.step(Event::Begin), Effect::QueryActive));
    match f.step(Event::Active(Ok(rec("cur")))) {
        Effect::Start(g) => assert_eq!(g, "ctl"),
        other => panic!("{:?}", other),
    }
    match f.step(Event::Done(Ok(()))) {
        Effect::Run(c) => {
            assert_eq!(c.args, vec![s("rc.confirmation=0"), s("rc.recurrence.confirmation=0"), s("cur"), s("done")]);
            assert_eq!(c.stdin, fypm::command::Io::Default);
            assert_eq!(c.stdout, fypm::command::Io::Inherit);
        }
        other => panic!("{:?}", other),
    }
}

#[test]
fn done_propagates_query_errors() {
    let mut f = task_done(&Some(s("x")), &None, &s("ctl"));
    f.step(Event::Begin);
    match f.step(Event::Tasks(Err(err(FypmErrorKind::CommandFailed)))) {
        Effect::Finish(Err(e)) => assert_eq!(e.kind, FypmErrorKind::CommandFailed),
        other => panic!("{:?}", other),
    }
}
