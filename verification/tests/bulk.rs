use fypm::command::{Io, TaskCommand};
use fypm::flow::{Effect, Event};
use fypm::flows::bulk::{task_abandon, task_schedule, task_und, task_unschedule};
use fypm::model::{TaAbandonTags, TaskRecord};

fn s(x: &str) -> String {
    x.to_string()
}

fn strs(v: &[&str]) -> Vec<String> {
    v.iter().map(|x| x.to_string()).collect()
}

fn recs(n: usize) -> Vec<TaskRecord> {
    (0..n).map(|i| TaskRecord { uuid: format!("u{}", i), description: s("d"), project: None }).collect()
}

fn run(e: Effect) -> TaskCommand {
    match e {
        Effect::Run(c) => c,
        other => panic!("expected a run, got {:?}", other),
    }
}

#[test]
fn abandon_without_annotation_is_refused() {
    let mut f = task_abandon(&TaAbandonTags::Abandoned, &s("3"), &None);
    match f.step(Event::Begin) {
        Effect::Fail(m) => assert_eq!(m, "You must specify an annotation when mark a task as NoControl or Abandoned!"),
        other => panic!("{:?}", other),
    }
    let mut g = task_abandon(&TaAbandonTags::NoControl, &s("3"), &None);
    assert!(matches!(g.step(Event::Begin), Effect::Fail(_)));
}

#[test]
fn abandon_tags_annotates_and_deletes() {
    let mut f = task_abandon(&TaAbandonTags::Abandoned, &s("+old"), &Some(s("no time")));
    match f.step(Event::Begin) {
        Effect::QueryTasks(g, false) => assert_eq!(g, "+old"),
        other => panic!("{:?}", other),
    }
    match f.step(Event::Tasks(Ok(recs(3)))) {
        Effect::ConfirmTasks(t) => assert_eq!(t.len(), 3),
        other => panic!("{:?}", other),
    }
    match f.step(Event::Selection(Ok(true))) {
        Effect::Annotate(g, a) => {
            assert_eq!(g, "+old");
            assert_eq!(a, "no time");
        }
        other => panic!("{:?}", other),
    }
    let m = run(f.step(Event::Done(Ok(()))));
    assert_eq!(m.args, strs(&["rc.verbose=0", "rc.recurrence.confirmation=0", "rc.confirmation=0", "+old", "modify", "+Abandoned"]));
    assert!(m.answer_all);
    assert_eq!(m.stderr, Io::Inherit);
    assert_eq!(m.stdout, Io::Default);
    let d = run(f.step(Event::Ack));
    assert_eq!(d.args, strs(&["rc.verbose=0", "rc.confirmation=0", "rc.recurrence.confirmation=0", "+old", "delete"]));
    assert!(d.answer_all);
    assert_eq!(d.stdout, Io::Inherit);
    assert_eq!(d.stderr, Io::Inherit);
    assert!(matches!(f.step(Event::Ack), Effect::Finish(Ok(None))));
}

#[test]
fn archive_needs_no_annotation_and_few_tasks_need_no_answer() {
    let mut f = task_abandon(&TaAbandonTags::Archived, &s("+p"), &None);
    f.step(Event::Begin);
    f.step(Event::Tasks(Ok(recs(2))));
    let m = run(f.step(Event::Selection(Ok(true))));
    assert_eq!(m.args.last().unwrap(), "+Archived");
    assert!(!m.answer_all);
}

#[test]
fn declined_selection_aborts() {
    let mut f = task_abandon(&TaAbandonTags::Failed, &s("+p"), &None);
    f.step(Event::Begin);
    f.step(Event::Tasks(Ok(recs(1))));
    match f.step(Event::Selection(Ok(false))) {
        Effect::Print(l) => assert_eq!(l, strs(&["Aborting..."])),
        other => panic!("{:?}", other),
    }
    assert!(matches!(f.step(Event::Ack), Effect::Finish(Ok(None))));
}

#[test]
fn schedule_sets_alarm_due_and_worktime() {
    let mut f = task_schedule(&s("12"), &s("today"), &Some(s("friday")), &Some(s("Work!")));
    f.step(Event::Begin);
    f.step(Event::Tasks(Ok(recs(1))));
    let m = run(f.step(Event::Selection(Ok(true))));
    assert_eq!(
        m.args,
        strs(&["rc.verbose=0", "rc.recurrence.confirmation=0", "rc.confirmation=0", "12", "modify", "ALARM:today", "due:friday", "WT:Work!"])
    );
    assert_eq!(m.stdout, Io::Inherit);
    assert_eq!(m.stderr, Io::Inherit);
    assert!(!m.answer_all);
}

#[test]
fn schedule_keeps_current_alarm() {
    let mut f = task_schedule(&s("12"), &s("cur"), &None, &None);
    f.step(Event::Begin);
    f.step(Event::Tasks(Ok(recs(5))));
    let m = run(f.step(Event::Selection(Ok(true))));
    assert_eq!(m.args, strs(&["rc.verbose=0", "rc.recurrence.confirmation=0", "rc.confirmation=0", "12", "modify"]));
    assert!(m.answer_all);
}

#[test]
fn unschedule_clears_unless_kept() {
    let mut f = task_unschedule(&s("12"), &false, &true, &false);
    f.step(Event::Begin);
    f.step(Event::Tasks(Ok(recs(1))));
    let m = run(f.step(Event::Selection(Ok(true))));
    assert_eq!(m.args, strs(&["rc.verbose=0", "rc.recurrence.confirmation=0", "rc.confirmation=0", "12", "modify", "ALARM:", "WT:NonSched!"]));
}

#[test]
fn und_restores_archived_or_failed() {
    let mut f = task_und(&s("9"), &true);
    f.step(Event::Begin);
    f.step(Event::Tasks(Ok(recs(1))));
    let m = run(f.step(Event::Selection(Ok(true))));
    assert_eq!(m.args, strs(&["rc.verbose=0", "rc.confirmation=0", "rc.recurrence.confirmation=0", "9", "modify", "status:pending", "-Archived"]));
    assert_eq!(m.stdout, Io::Default);
    assert_eq!(m.stderr, Io::Inherit);
    let mut g = task_und(&s("9"), &false);
    g.step(Event::Begin);
    g.step(Event::Tasks(Ok(recs(4))));
    let m = run(g.step(Event::Selection(Ok(true))));
    assert_eq!(
        m.args,
        strs(&["rc.verbose=0", "rc.confirmation=0", "rc.recurrence.confirmation=0", "9", "modify", "status:pending", "-Failed", "-Abandoned", "-NoControl"])
    );
    assert!(m.answer_all);
}
