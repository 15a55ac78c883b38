use vstd::prelude::*;
use vstd::string::StringExecFns;
use crate::category::Category;
use crate::todo::Todo;

verus! {

/// The decimal digits, in order of value.
pub open spec fn digits() -> Seq<char> {
    "0123456789"@
}

/// The decimal form of `n`, without leading zeros.
pub open spec fn decimal_of(n: nat) -> Seq<char>
    decreases n,
{
    if n < 10 {
        seq![digits()[n as int]]
    } else {
        decimal_of(n / 10).push(digits()[(n % 10) as int])
    }
}

/// Relies on the `Display` impl of `u32` (through `to_string`): it writes the
/// value in decimal, without sign or leading zeros.
#[verifier::external_body]
fn decimal(n: u32) -> (r: String)
    ensures
        r@ == decimal_of(n as nat),
{
    n.to_string()
}

/// The completion marker of a listed record.
pub open spec fn mark_of(done: bool) -> Seq<char> {
    if done {
        "x"@
    } else {
        " "@
    }
}

/// The category tag of a listed record: empty when untagged.
pub open spec fn label_of(category: Option<Category>) -> Seq<char> {
    match category {
        Some(c) => " ["@ + c.name_spec() + "]"@,
        None => Seq::empty(),
    }
}

/// The line that lists one record: `[x] #3 [work]: text`.
pub open spec fn line_of(t: Todo) -> Seq<char> {
    "["@ + mark_of(t.done) + "] #"@ + decimal_of(t.id as nat) + label_of(t.category) + ": "@
        + t.text@
}

fn label(category: &Option<Category>) -> (r: String)
    ensures
        r@ == label_of(*category),
{
    match category {
        Some(c) => String::from_str(" [").concat(c.name().as_str()).concat("]"),
        None => String::new(),
    }
}

/// The line that lists `t`.
pub fn todo_line(t: &Todo) -> (r: String)
    ensures
        r@ == line_of(*t),
{
    let mark = if t.done {
        "x"
    } else {
        " "
    };
    String::from_str("[").concat(mark).concat("] #").concat(decimal(t.id).as_str()).concat(
        label(&t.category).as_str(),
    ).concat(": ").concat(t.text.as_str())
}

/// The listing of a collection: one line per record in stored order, or the
/// single line `No todos.` when it is empty.
pub fn list_lines(todos: &[Todo]) -> (r: Vec<String>)
    ensures
        todos@.len() == 0 ==> r@.len() == 1 && r@[0]@ == "No todos."@,
        todos@.len() > 0 ==> r@.len() == todos@.len() && forall|i: int|
            0 <= i < todos@.len() ==> #[trigger] r@[i]@ == line_of(todos@[i]),
{
    let mut r: Vec<String> = Vec::new();
    if todos.len() == 0 {
        r.push(String::from_str("No todos."));
        return r;
    }
    let mut i: usize = 0;
    while i < todos.len()
        invariant
            0 <= i <= todos.len(),
            r@.len() == i,
            forall|j: int| 0 <= j < i ==> #[trigger] r@[j]@ == line_of(todos@[j]),
        decreases todos.len() - i,
    {
        r.push(todo_line(&todos[i]));
        i = i + 1;
    }
    r
}

/// The confirmation of an added record: `Added todo #3 [work]: text`.
pub open spec fn added_message_spec(id: u32, text: Seq<char>, category: Option<Category>) -> Seq<
    char,
> {
    "Added todo #"@ + decimal_of(id as nat) + label_of(category) + ": "@ + text
}

pub fn added_message(id: u32, text: &str, category: &Option<Category>) -> (r: String)
    ensures
        r@ == added_message_spec(id, text@, *category),
{
    String::from_str("Added todo #").concat(decimal(id).as_str()).concat(
        label(category).as_str(),
    ).concat(": ").concat(text)
}

/// `Marked #3 as done.`
pub fn done_message(id: u32) -> (r: String)
    ensures
        r@ == "Marked #"@ + decimal_of(id as nat) + " as done."@,
{
    String::from_str("Marked #").concat(decimal(id).as_str()).concat(" as done.")
}

/// `Removed #3.`
pub fn removed_message(id: u32) -> (r: String)
    ensures
        r@ == "Removed #"@ + decimal_of(id as nat) + "."@,
{
    String::from_str("Removed #").concat(decimal(id).as_str()).concat(".")
}

/// `Todo #3 not found.`
pub fn not_found_message(id: u32) -> (r: String)
    ensures
        r@ == "Todo #"@ + decimal_of(id as nat) + " not found."@,
{
    String::from_str("Todo #").concat(decimal(id).as_str()).concat(" not found.")
}

/// `Added category: name`
pub fn category_added_message(name: &str) -> (r: String)
    ensures
        r@ == "Added category: "@ + name@,
{
    String::from_str("Added category: ").concat(name)
}

/// The names of the built-in categories, in listing order.
pub open spec fn builtin_names() -> Seq<Seq<char>> {
    seq!["work"@, "personal"@, "shopping"@, "health"@]
}

/// The listing of categories: the built-ins under `Built-in:`, then, when any
/// are registered, the custom names in stored order under `Custom:`, each
/// name indented by two spaces.
pub open spec fn category_listing(cats: Seq<String>) -> Seq<Seq<char>> {
    let builtins = seq!["Built-in:"@] + builtin_names().map_values(|n: Seq<char>| "  "@ + n);
    if cats.len() == 0 {
        builtins
    } else {
        builtins + seq!["Custom:"@] + cats.map_values(|c: String| "  "@ + c@)
    }
}

pub fn category_list_lines(cats: &[String]) -> (r: Vec<String>)
    ensures
        r@.map_values(|s: String| s@) == category_listing(cats@),
{
    let mut r: Vec<String> = Vec::new();
    r.push(String::from_str("Built-in:"));
    r.push(String::from_str("  work"));
    r.push(String::from_str("  personal"));
    r.push(String::from_str("  shopping"));
    r.push(String::from_str("  health"));
    proof {
        reveal_strlit("  work");
        reveal_strlit("  personal");
        reveal_strlit("  shopping");
        reveal_strlit("  health");
        reveal_strlit("  ");
        reveal_strlit("work");
        reveal_strlit("personal");
        reveal_strlit("shopping");
        reveal_strlit("health");
    }
    let ghost head = r@;
    assert("  "@ + "work"@ =~= "  work"@);
    assert("  "@ + "personal"@ =~= "  personal"@);
    assert("  "@ + "shopping"@ =~= "  shopping"@);
    assert("  "@ + "health"@ =~= "  health"@);
    assert(builtin_names().map_values(|n: Seq<char>| "  "@ + n)[0] == "  work"@);
    assert(head.map_values(|s: String| s@) =~= category_listing(Seq::empty()));
    if cats.len() == 0 {
        return r;
    }
    r.push(String::from_str("Custom:"));
    let mut i: usize = 0;
    while i < cats.len()
        invariant
            0 <= i <= cats.len(),
            r@.len() == 6 + i,
            r@.subrange(0, 5) == head,
            r@[5]@ == "Custom:"@,
            forall|j: int| 0 <= j < i ==> #[trigger] r@[6 + j]@ == "  "@ + cats@[j]@,
        decreases cats.len() - i,
    {
        r.push(String::from_str("  ").concat(cats[i].as_str()));
        i = i + 1;
        assert(r@.subrange(0, 5) =~= head);
    }
    assert forall|k: int| 0 <= k < r@.len() implies r@.map_values(|s: String| s@)[k]
        == category_listing(cats@)[k] by {
        if k < 5 {
            assert(r@[k] == head[k]);
            assert(head.map_values(|s: String| s@)[k] == category_listing(Seq::empty())[k]);
        } else if k >= 6 {
            assert(r@[6 + (k - 6)]@ == "  "@ + cats@[k - 6]@);
        }
    }
    assert(r@.map_values(|s: String| s@) =~= category_listing(cats@));
    r
}

} // verus!
