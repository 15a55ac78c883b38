use vstd::prelude::*;
use vstd::string::{StrSliceExecFns, StringExecFns};

verus! {

/// The path of `file` inside directory `dir`: `file` itself when `dir` is
/// empty, and no separator doubled when `dir` ends with one.
pub open spec fn join_under(dir: Seq<char>, file: Seq<char>) -> Seq<char> {
    if dir.len() == 0 {
        file
    } else if dir.last() == '/' {
        dir + file
    } else {
        dir + "/"@ + file
    }
}

fn join(dir: &str, file: &str) -> (r: String)
    ensures
        r@ == join_under(dir@, file@),
{
    let n = dir.unicode_len();
    if n == 0 {
        String::from_str(file)
    } else if dir.get_char(n - 1) == '/' {
        String::from_str(dir).concat(file)
    } else {
        String::from_str(dir).concat("/").concat(file)
    }
}

/// Where the todo records are stored, under the directory `home`.
pub fn todos_path(home: &str) -> (r: String)
    ensures
        r@ == join_under(home@, ".todos.json"@),
{
    join(home, ".todos.json")
}

/// Where the registered category names are stored, under the directory `home`.
pub fn categories_path(home: &str) -> (r: String)
    ensures
        r@ == join_under(home@, ".todo_categories.json"@),
{
    join(home, ".todo_categories.json")
}

} // verus!
