use fypm::flow::{Effect, Event, EventKind, ProcessOutput};
use fypm::flows::add::task_add;
use fypm::model::FypmErrorKind;

fn s(x: &str) -> String {
    x.to_string()
}

fn captured_args(e: &Effect) -> Vec<String> {
    match e {
        Effect::Capture(c) => {
            assert_eq!(c.program, "task");
            assert!(!c.answer_all);
            c.args.clone()
        }
        other => panic!("expected a captured call, got {:?}", other),
    }
}

fn printed(e: &Effect) -> Vec<String> {
    match e {
        Effect::Print(lines) => lines.clone(),
        other => panic!("expected printing, got {:?}", other),
    }
}

fn ok_output(stdout: &str) -> Event {
    Event::Output(Ok(ProcessOutput { success: true, stdout: s(stdout), stderr: s("") }))
}

#[test]
fn add_builds_the_task_add_call() {
    let others = Some(vec![s("+Sequence"), s("due:tomorrow")]);
    let mut f = task_add(&s("Read"), &s("Books"), &s("Apollonian"), &s("Objective"), &others, &true);
    assert_eq!(f.awaiting(), EventKind::Begin);
    let e = f.step(Event::Begin);
    assert_eq!(
        captured_args(&e),
        vec!["rc.verbose=new-uuid", "add", "Read", "project:Books", "STYLE:Apollonian", "TYPE:Objective", "+Sequence", "due:tomorrow"]
    );
    assert_eq!(f.awaiting(), EventKind::Output);
}

#[test]
fn add_asks_before_creating_and_aborts_on_no() {
    let mut f = task_add(&s("Read"), &s("Books"), &s("Apollonian"), &s("Objective"), &None, &false);
    let e = f.step(Event::Begin);
    assert_eq!(
        printed(&e),
        vec![
            "These are the args:",
            "      description: Read",
            "      project: Books",
            "      STYLE: Apollonian",
            "      TYPE: Objective, ",
            "      others: ",
        ]
    );
    match f.step(Event::Ack) {
        Effect::Confirm(q) => assert_eq!(q, "Do you want to continue?"),
        other => panic!("{:?}", other),
    }
    match f.step(Event::Confirmed(false)) {
        Effect::Finish(Err(err)) => {
            assert_eq!(err.kind, FypmErrorKind::Aborted);
            assert_eq!(err.message, "Aborted");
        }
        other => panic!("{:?}", other),
    }
    assert_eq!(f.awaiting(), EventKind::Nothing);
}

#[test]
fn add_summary_joins_other_arguments() {
    let others = Some(vec![s("+a"), s("+b")]);
    let mut f = task_add(&s("D"), &s("P"), &s("S"), &s("T"), &others, &false);
    let lines = printed(&f.step(Event::Begin));
    assert_eq!(lines[5], "      others: +a +b");
    f.step(Event::Ack);
    let e = f.step(Event::Confirmed(true));
    assert_eq!(captured_args(&e), vec!["rc.verbose=new-uuid", "add", "D", "project:P", "STYLE:S", "TYPE:T", "+a", "+b"]);
}

#[test]
fn add_reports_the_created_uuid() {
    let mut f = task_add(&s("D"), &s("P"), &s("S"), &s("T"), &None, &true);
    f.step(Event::Begin);
    let e = f.step(ok_output("Created task 42.\nCreated task 5f0b1c2d-0000-4a4a-9b9b-abcdefabcdef.\n"));
    assert_eq!(printed(&e), vec!["Created task with uuid: 5f0b1c2d-0000-4a4a-9b9b-abcdefabcdef!"]);
    match f.step(Event::Ack) {
        Effect::Finish(Ok(Some(u))) => assert_eq!(u, "5f0b1c2d-0000-4a4a-9b9b-abcdefabcdef"),
        other => panic!("{:?}", other),
    }
}

#[test]
fn add_without_uuid_in_output_stops() {
    let mut f = task_add(&s("D"), &s("P"), &s("S"), &s("T"), &None, &true);
    f.step(Event::Begin);
    let e = f.step(ok_output("nothing here"));
    assert_eq!(printed(&e), vec!["No created tasks!"]);
    match f.step(Event::Ack) {
        Effect::Fail(m) => assert_eq!(m, "nothing here"),
        other => panic!("{:?}", other),
    }
}

#[test]
fn add_failing_process_stops_with_its_stderr() {
    let mut f = task_add(&s("D"), &s("P"), &s("S"), &s("T"), &None, &true);
    f.step(Event::Begin);
    let e = f.step(Event::Output(Ok(ProcessOutput { success: false, stdout: s(""), stderr: s("boom") })));
    match e {
        Effect::Fail(m) => assert_eq!(m, "An error occurred trying to create a task: boom"),
        other => panic!("{:?}", other),
    }
}

#[test]
fn add_unlaunchable_process_stops() {
    let mut f = task_add(&s("D"), &s("P"), &s("S"), &s("T"), &None, &true);
    f.step(Event::Begin);
    match f.step(Event::Output(Err(s("No such file")))) {
        Effect::Fail(m) => assert_eq!(m, "An error occurred trying to create a task: No such file"),
        other => panic!("{:?}", other),
    }
}
