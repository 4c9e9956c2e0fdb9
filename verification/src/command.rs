use vstd::prelude::*;

verus! {

/// How a child process's standard stream is wired.
#[derive(Clone, Copy, Debug, PartialEq, Eq, Structural)]
pub enum Io {
    /// Whatever the launching call does by default.
    Default,
    /// Inherited from this process.
    Inherit,
}

/// A process to launch: `program` with `args`, its streams, and whether the
/// word `all` is typed into its standard input (to answer a bulk prompt).
#[derive(Debug)]
pub struct TaskCommand {
    pub program: String,
    pub args: Vec<String>,
    pub stdin: Io,
    pub stdout: Io,
    pub stderr: Io,
    pub answer_all: bool,
}

/// The mathematical content of a [`TaskCommand`].
pub struct CommandView {
    pub program: Seq<char>,
    pub args: Seq<Seq<char>>,
    pub stdin: Io,
    pub stdout: Io,
    pub stderr: Io,
    pub answer_all: bool,
}

impl View for TaskCommand {
    type V = CommandView;

    open spec fn view(&self) -> CommandView {
        CommandView {
            program: self.program@,
            args: self.args.deep_view(),
            stdin: self.stdin,
            stdout: self.stdout,
            stderr: self.stderr,
            answer_all: self.answer_all,
        }
    }
}

/// A `task` invocation with the given arguments and streams.
pub open spec fn task_call(args: Seq<Seq<char>>, stdin: Io, stdout: Io, stderr: Io, answer_all: bool) -> CommandView {
    CommandView { program: "task"@, args, stdin, stdout, stderr, answer_all }
}

/// A `task` invocation whose output is collected (all streams left as they are).
pub open spec fn plain_task_call(args: Seq<Seq<char>>) -> CommandView {
    task_call(args, Io::Default, Io::Default, Io::Default, false)
}

/// Builds a `task` invocation.
pub fn task_command(args: Vec<String>, stdin: Io, stdout: Io, stderr: Io, answer_all: bool) -> (c: TaskCommand)
    ensures
        c@ == task_call(args.deep_view(), stdin, stdout, stderr, answer_all),
{
    TaskCommand { program: String::from_str("task"), args, stdin, stdout, stderr, answer_all }
}

/// Builds a `task` invocation whose output is collected.
pub fn plain_task_command(args: Vec<String>) -> (c: TaskCommand)
    ensures
        c@ == plain_task_call(args.deep_view()),
{
    task_command(args, Io::Default, Io::Default, Io::Default, false)
}

/// Appends copies of `extra` to `v`.
pub fn append_strings(v: &mut Vec<String>, extra: &Vec<String>)
    ensures
        final(v).deep_view() == old(v).deep_view() + extra.deep_view(),
{
    let ghost start = v.deep_view();
    let mut i: usize = 0;
    while i < extra.len()
        invariant
            i <= extra.len(),
            v.deep_view() == start + extra.deep_view().subrange(0, i as int),
        decreases extra.len() - i,
    {
        let s = extra[i].clone();
        let ghost before = v.deep_view();
        v.push(s);
        assert(v.deep_view() =~= before.push(extra.deep_view()[i as int]));
        assert(extra.deep_view().subrange(0, i + 1) =~= extra.deep_view().subrange(0, i as int).push(extra.deep_view()[i as int]));
        i = i + 1;
        assert(v.deep_view() =~= start + extra.deep_view().subrange(0, i as int));
    }
    assert(extra.deep_view().subrange(0, i as int) =~= extra.deep_view());
}

/// A fresh string holding `s`.
pub fn owned(s: &str) -> (r: String)
    ensures
        r@ == s@,
{
    String::from_str(s)
}

/// `a` followed by `b`.
pub fn cat(a: &str, b: &str) -> (r: String)
    ensures
        r@ == a@ + b@,
{
    String::from_str(a).concat(b)
}

/// `a`, `b` and `c` in that order.
pub fn cat3(a: &str, b: &str, c: &str) -> (r: String)
    ensures
        r@ == a@ + b@ + c@,
{
    String::from_str(a).concat(b).concat(c)
}

} // verus!

verus! {

/// The two-element argument list `[a, b]`.
pub fn pair_args(a: &str, b: &str) -> (v: Vec<String>)
    ensures
        v.deep_view() == seq![a@, b@],
{
    let v = vec![owned(a), owned(b)];
    assert(v.deep_view() =~= seq![a@, b@]);
    v
}

/// The call of the user's `tascripts` hook on a filter.
pub open spec fn scripts_call(filter: Seq<char>) -> CommandView {
    CommandView {
        program: "tascripts"@,
        args: seq![filter],
        stdin: Io::Default,
        stdout: Io::Default,
        stderr: Io::Default,
        answer_all: false,
    }
}

/// The call of the user's `tascripts` hook on a filter.
pub fn scripts_command(filter: &str) -> (c: TaskCommand)
    ensures
        c@ == scripts_call(filter@),
{
    let args = vec![owned(filter)];
    assert(args.deep_view() =~= seq![filter@]);
    TaskCommand {
        program: String::from_str("tascripts"),
        args,
        stdin: Io::Default,
        stdout: Io::Default,
        stderr: Io::Default,
        answer_all: false,
    }
}

/// `task <filter> stop`.
pub open spec fn stop_call(filter: Seq<char>) -> CommandView {
    plain_task_call(seq![filter, "stop"@])
}

/// `task <filter> stop`.
pub fn stop_command(filter: &str) -> (c: TaskCommand)
    ensures
        c@ == stop_call(filter@),
{
    plain_task_command(pair_args(filter, "stop"))
}

/// `task <filter> start`.
pub open spec fn start_call(filter: Seq<char>) -> CommandView {
    plain_task_call(seq![filter, "start"@])
}

/// `task <filter> start`.
pub fn start_command(filter: &str) -> (c: TaskCommand)
    ensures
        c@ == start_call(filter@),
{
    plain_task_command(pair_args(filter, "start"))
}

} // verus!
