use vstd::prelude::*;
use crate::category::{
    add_category, folded_of, lower_of, register_outcome, views_of, Category,
};
use crate::render::{
    added_message, added_message_spec, category_added_message, category_list_lines,
    category_listing, decimal_of, done_message, line_of, list_lines, not_found_message,
    removed_message,
};
use crate::todo::{add_todo, has_id, mark_done, max_id, remove_todo, with_added, without_id, Todo};

verus! {

/// What one command leaves for the caller to carry out: whether the
/// collection it worked on must be written back, the lines for standard
/// output and for standard error, and whether it succeeded (exit status 0).
#[derive(Debug, PartialEq, Eq)]
pub struct Outcome {
    pub save: bool,
    pub out: Vec<String>,
    pub err: Vec<String>,
    pub success: bool,
}

/// `add`: appends an open record under the next identifier and confirms it.
/// Fails, writing nothing, only when no identifier is left.
pub fn run_add(todos: &mut Vec<Todo>, text: String, category: Option<Category>) -> (r: Outcome)
    ensures
        r.success == (max_id(old(todos)@) < u32::MAX),
        r.save == r.success,
        r.success ==> {
            &&& final(todos)@ == with_added(old(todos)@, text, category)
            &&& views_of(r.out@) == seq![
                added_message_spec((max_id(old(todos)@) + 1) as u32, text@, category),
            ]
            &&& r.err@.len() == 0
        },
        !r.success ==> final(todos)@ == old(todos)@ && r.out@.len() == 0 && views_of(r.err@)
            == seq!["No identifier is left for a new todo."@],
{
    let ghost t = text;
    let ghost c = category;
    let message_text = text.clone();
    let tag = match &category {
        Some(c) => Some(c.duplicate()),
        None => None,
    };
    let mut out: Vec<String> = Vec::new();
    let mut err: Vec<String> = Vec::new();
    match add_todo(todos, text, category) {
        Some(id) => {
            out.push(added_message(id, message_text.as_str(), &tag));
            assert(views_of(out@) =~= seq![added_message_spec(id, t@, c)]);
            Outcome { save: true, out, err, success: true }
        },
        None => {
            err.push(String::from_str("No identifier is left for a new todo."));
            assert(views_of(err@) =~= seq!["No identifier is left for a new todo."@]);
            Outcome { save: false, out, err, success: false }
        },
    }
}

/// `list`: one line per record, or `No todos.`; always succeeds.
pub fn run_list(todos: &[Todo]) -> (r: Outcome)
    ensures
        r.success && !r.save && r.err@.len() == 0,
        todos@.len() == 0 ==> views_of(r.out@) == seq!["No todos."@],
        todos@.len() > 0 ==> views_of(r.out@) == todos@.map_values(|t: Todo| line_of(t)),
{
    let out = list_lines(todos);
    if todos.len() == 0 {
        assert(views_of(out@) =~= seq!["No todos."@]);
    } else {
        assert(views_of(out@) =~= todos@.map_values(|t: Todo| line_of(t)));
    }
    Outcome { save: false, out, err: Vec::new(), success: true }
}

/// `done`: marks the record with identifier `id` as completed. When there is
/// none, nothing changes, nothing is written and the command fails.
pub fn run_done(todos: &mut Vec<Todo>, id: u32) -> (r: Outcome)
    ensures
        r.success == has_id(old(todos)@, id),
        r.save == r.success,
        r.success ==> views_of(r.out@) == seq!["Marked #"@ + decimal_of(id as nat) + " as done."@]
            && r.err@.len() == 0,
        !r.success ==> {
            &&& final(todos)@ == old(todos)@
            &&& r.out@.len() == 0
            &&& views_of(r.err@) == seq!["Todo #"@ + decimal_of(id as nat) + " not found."@]
        },
        r.success ==> exists|i: int|
            crate::todo::is_first_with_id(old(todos)@, id, i) && final(todos)@ == old(
                todos,
            )@.update(i, crate::todo::completed(old(todos)@[i])),
{
    let mut out: Vec<String> = Vec::new();
    let mut err: Vec<String> = Vec::new();
    if mark_done(todos, id) {
        out.push(done_message(id));
        assert(views_of(out@) =~= seq!["Marked #"@ + decimal_of(id as nat) + " as done."@]);
        Outcome { save: true, out, err, success: true }
    } else {
        err.push(not_found_message(id));
        assert(views_of(err@) =~= seq!["Todo #"@ + decimal_of(id as nat) + " not found."@]);
        Outcome { save: false, out, err, success: false }
    }
}

/// `remove`: drops the record with identifier `id`. When there is none,
/// nothing changes, nothing is written and the command fails.
pub fn run_remove(todos: &mut Vec<Todo>, id: u32) -> (r: Outcome)
    ensures
        r.success == has_id(old(todos)@, id),
        r.save == r.success,
        final(todos)@ == without_id(old(todos)@, id),
        r.success ==> views_of(r.out@) == seq!["Removed #"@ + decimal_of(id as nat) + "."@]
            && r.err@.len() == 0,
        !r.success ==> {
            &&& final(todos)@ == old(todos)@
            &&& r.out@.len() == 0
            &&& views_of(r.err@) == seq!["Todo #"@ + decimal_of(id as nat) + " not found."@]
        },
{
    let mut out: Vec<String> = Vec::new();
    let mut err: Vec<String> = Vec::new();
    if remove_todo(todos, id) {
        out.push(removed_message(id));
        assert(views_of(out@) =~= seq!["Removed #"@ + decimal_of(id as nat) + "."@]);
        Outcome { save: true, out, err, success: true }
    } else {
        err.push(not_found_message(id));
        assert(views_of(err@) =~= seq!["Todo #"@ + decimal_of(id as nat) + " not found."@]);
        Outcome { save: false, out, err, success: false }
    }
}

/// `category add`: registers `name` unless it collides, ignoring case, with a
/// built-in or a registered name; a refused name changes nothing and is not
/// written.
pub fn run_category_add(cats: &mut Vec<String>, name: String) -> (r: Outcome)
    ensures
        r.success == register_outcome(lower_of(name@), folded_of(old(cats)@)) is Ok,
        r.save == r.success,
        r.success ==> {
            &&& final(cats)@ == old(cats)@.push(name)
            &&& views_of(r.out@) == seq!["Added category: "@ + name@]
            &&& r.err@.len() == 0
        },
        !r.success ==> {
            &&& final(cats)@ == old(cats)@
            &&& r.out@.len() == 0
            &&& register_outcome(lower_of(name@), folded_of(old(cats)@)) matches Err(e)
                && views_of(r.err@) == seq![e.message_spec(name@)]
        },
{
    let ghost given = name@;
    let shown = name.clone();
    let mut out: Vec<String> = Vec::new();
    let mut err: Vec<String> = Vec::new();
    match add_category(cats, name) {
        Ok(()) => {
            out.push(category_added_message(shown.as_str()));
            assert(views_of(out@) =~= seq!["Added category: "@ + given]);
            Outcome { save: true, out, err, success: true }
        },
        Err(e) => {
            err.push(e.message(shown.as_str()));
            assert(views_of(err@) =~= seq![e.message_spec(given)]);
            Outcome { save: false, out, err, success: false }
        },
    }
}

/// `category list`: the built-ins, then the registered names; always succeeds.
pub fn run_category_list(cats: &[String]) -> (r: Outcome)
    ensures
        r.success && !r.save && r.err@.len() == 0,
        views_of(r.out@) == category_listing(cats@),
{
    let out = category_list_lines(cats);
    assert(views_of(out@) =~= out@.map_values(|s: String| s@));
    Outcome { save: false, out, err: Vec::new(), success: true }
}

} // verus!
