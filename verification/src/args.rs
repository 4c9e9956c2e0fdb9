use vstd::prelude::*;
use crate::command::{append_strings, cat, owned};
use crate::text::{join, join_strings};

verus! {

/// The strings an optional list holds (none when absent).
pub open spec fn opt_strings(o: Option<Vec<String>>) -> Seq<Seq<char>> {
    match o {
        Some(v) => v.deep_view(),
        None => Seq::empty(),
    }
}

/// The text an optional string holds, if any.
pub open spec fn opt_text(o: Option<String>) -> Option<Seq<char>> {
    match o {
        Some(s) => Some(s@),
        None => None,
    }
}

/// A copy of an optional string.
pub fn copy_opt_string(o: &Option<String>) -> (r: Option<String>)
    ensures
        opt_text(r) == opt_text(*o),
{
    match o {
        Some(s) => Some(s.clone()),
        None => None,
    }
}

/// A copy of a list of strings.
pub fn copy_strings(v: &Vec<String>) -> (r: Vec<String>)
    ensures
        r.deep_view() == v.deep_view(),
{
    let mut r: Vec<String> = Vec::new();
    append_strings(&mut r, v);
    assert(r.deep_view() =~= v.deep_view());
    r
}

/// A copy of an optional list of strings.
pub fn copy_opt_strings(o: &Option<Vec<String>>) -> (r: Option<Vec<String>>)
    ensures
        r is Some <==> o is Some,
        opt_strings(r) == opt_strings(*o),
{
    match o {
        Some(v) => Some(copy_strings(v)),
        None => None,
    }
}

/// The arguments of `task` that create a task.
pub open spec fn add_args(desc: Seq<char>, project: Seq<char>, style: Seq<char>, ty: Seq<char>, others: Seq<Seq<char>>) -> Seq<Seq<char>> {
    seq!["rc.verbose=new-uuid"@, "add"@, desc, "project:"@ + project, "STYLE:"@ + style, "TYPE:"@ + ty] + others
}

/// The arguments of `task` that create a task.
pub fn task_add_args(description: &String, project: &String, style: &String, ty: &String, other_args: &Option<Vec<String>>) -> (v: Vec<String>)
    ensures
        v.deep_view() == add_args(description@, project@, style@, ty@, opt_strings(*other_args)),
{
    let mut v: Vec<String> = Vec::new();
    v.push(owned("rc.verbose=new-uuid"));
    v.push(owned("add"));
    v.push(description.clone());
    v.push(cat("project:", project.as_str()));
    v.push(cat("STYLE:", style.as_str()));
    v.push(cat("TYPE:", ty.as_str()));
    assert(v.deep_view() =~= seq!["rc.verbose=new-uuid"@, "add"@, description@, "project:"@ + project@, "STYLE:"@ + style@, "TYPE:"@ + ty@]);
    match other_args {
        Some(o) => { append_strings(&mut v, o); }
        None => { assert(v.deep_view() =~= v.deep_view() + Seq::<Seq<char>>::empty()); }
    }
    v
}

/// The lines shown before a task is created, for the user to confirm.
pub open spec fn add_summary(desc: Seq<char>, project: Seq<char>, style: Seq<char>, ty: Seq<char>, others: Seq<Seq<char>>) -> Seq<Seq<char>> {
    seq![
        "These are the args:"@,
        "      description: "@ + desc,
        "      project: "@ + project,
        "      STYLE: "@ + style,
        "      TYPE: "@ + ty + ", "@,
        "      others: "@ + join(others, " "@),
    ]
}

/// The lines shown before a task is created, for the user to confirm.
pub fn task_add_summary(description: &String, project: &String, style: &String, ty: &String, other_args: &Option<Vec<String>>) -> (v: Vec<String>)
    ensures
        v.deep_view() == add_summary(description@, project@, style@, ty@, opt_strings(*other_args)),
{
    let others = match other_args {
        Some(o) => join_strings(o, " "),
        None => {
            let empty: Vec<String> = Vec::new();
            assert(empty.deep_view() =~= Seq::<Seq<char>>::empty());
            join_strings(&empty, " ")
        }
    };
    let mut v: Vec<String> = Vec::new();
    v.push(owned("These are the args:"));
    v.push(cat("      description: ", description.as_str()));
    v.push(cat("      project: ", project.as_str()));
    v.push(cat("      STYLE: ", style.as_str()));
    v.push(cat("      TYPE: ", ty.as_str()).concat(", "));
    v.push(cat("      others: ", others.as_str()));
    assert(v.deep_view() =~= add_summary(description@, project@, style@, ty@, opt_strings(*other_args)));
    v
}

} // verus!

verus! {

/// The strings of `v` from position `from` on.
pub fn copy_from(v: &Vec<String>, from: usize) -> (r: Vec<String>)
    requires
        from <= v.len(),
    ensures
        r.deep_view() == v.deep_view().subrange(from as int, v.len() as int),
{
    let mut r: Vec<String> = Vec::new();
    let mut i: usize = from;
    while i < v.len()
        invariant
            from <= i <= v.len(),
            r.deep_view() == v.deep_view().subrange(from as int, i as int),
        decreases v.len() - i,
    {
        let ghost before = r.deep_view();
        r.push(v[i].clone());
        assert(r.deep_view() =~= before.push(v.deep_view()[i as int]));
        assert(v.deep_view().subrange(from as int, i + 1) =~= v.deep_view().subrange(from as int, i as int).push(v.deep_view()[i as int]));
        i = i + 1;
    }
    r
}

/// The argument list `[target, "modify", change]`.
pub open spec fn modify_args(target: Seq<char>, change: Seq<char>) -> Seq<Seq<char>> {
    seq![target, "modify"@, change]
}

/// The argument list `[target, "modify", change]`.
pub fn modify_arg_list(target: &str, change: String) -> (v: Vec<String>)
    ensures
        v.deep_view() == modify_args(target@, change@),
{
    let v = vec![owned(target), owned("modify"), change];
    assert(v.deep_view() =~= modify_args(target@, change@));
    v
}

} // verus!
