use vstd::prelude::*;
use crate::category::Category;

verus! {

/// One todo record.
#[derive(Debug, Clone, PartialEq, Eq)]
pub struct Todo {
    pub id: u32,
    pub text: String,
    pub done: bool,
    pub category: Option<Category>,
}

/// The largest identifier in `s`, or 0 when `s` is empty.
pub open spec fn max_id(s: Seq<Todo>) -> nat
    decreases s.len(),
{
    if s.len() == 0 {
        0
    } else {
        let m = max_id(s.drop_last());
        if s.last().id as nat > m {
            s.last().id as nat
        } else {
            m
        }
    }
}

/// Whether some record of `s` has identifier `id`.
pub open spec fn has_id(s: Seq<Todo>, id: u32) -> bool {
    exists|i: int| 0 <= i < s.len() && s[i].id == id
}

/// `i` is the first position of `s` that holds identifier `id`.
pub open spec fn is_first_with_id(s: Seq<Todo>, id: u32, i: int) -> bool {
    &&& 0 <= i < s.len()
    &&& s[i].id == id
    &&& forall|j: int| 0 <= j < i ==> s[j].id != id
}

/// `t` marked as completed.
pub open spec fn completed(t: Todo) -> Todo {
    Todo { id: t.id, text: t.text, done: true, category: t.category }
}

/// `s` without the records whose identifier is `id`, in the same order.
pub open spec fn without_id(s: Seq<Todo>, id: u32) -> Seq<Todo>
    decreases s.len(),
{
    if s.len() == 0 {
        s
    } else if s.last().id == id {
        without_id(s.drop_last(), id)
    } else {
        without_id(s.drop_last(), id).push(s.last())
    }
}

/// `s` with a new open record appended under the next identifier.
pub open spec fn with_added(s: Seq<Todo>, text: String, category: Option<Category>) -> Seq<Todo> {
    s.push(Todo { id: (max_id(s) + 1) as u32, text, done: false, category })
}

/// Every identifier is a `u32`, so the largest one is too.
pub proof fn lemma_max_id_bound(s: Seq<Todo>)
    ensures
        max_id(s) <= u32::MAX,
        forall|i: int| 0 <= i < s.len() ==> s[i].id <= max_id(s),
    decreases s.len(),
{
    if s.len() > 0 {
        lemma_max_id_bound(s.drop_last());
        assert forall|i: int| 0 <= i < s.len() implies s[i].id <= max_id(s) by {
            if i < s.len() - 1 {
                assert(s[i] == s.drop_last()[i]);
            }
        }
    }
}

/// The identifier a new record gets: one more than the largest in `todos`,
/// or 1 when `todos` is empty.
pub fn next_id(todos: &[Todo]) -> (r: u32)
    requires
        max_id(todos@) < u32::MAX,
    ensures
        r == max_id(todos@) + 1,
{
    let mut m: u32 = 0;
    let mut i: usize = 0;
    while i < todos.len()
        invariant
            0 <= i <= todos.len(),
            m == max_id(todos@.subrange(0, i as int)),
        decreases todos.len() - i,
    {
        assert(todos@.subrange(0, i + 1).drop_last() =~= todos@.subrange(0, i as int));
        if todos[i].id > m {
            m = todos[i].id;
        }
        i = i + 1;
    }
    assert(todos@.subrange(0, i as int) =~= todos@);
    m + 1
}

/// Appends an open record with text `text` and tag `category` under the next
/// identifier, and returns that identifier. When the largest identifier is
/// already `u32::MAX` there is no next one: nothing changes and the result is
/// `None`.
pub fn add_todo(todos: &mut Vec<Todo>, text: String, category: Option<Category>) -> (r: Option<u32>)
    ensures
        max_id(old(todos)@) < u32::MAX ==> {
            &&& r == Some((max_id(old(todos)@) + 1) as u32)
            &&& final(todos)@ == with_added(old(todos)@, text, category)
        },
        max_id(old(todos)@) >= u32::MAX ==> r is None && final(todos)@ == old(todos)@,
{
    proof {
        lemma_max_id_bound(todos@);
    }
    let mut i: usize = 0;
    while i < todos.len()
        invariant
            0 <= i <= todos.len(),
            forall|j: int| 0 <= j < i ==> todos@[j].id != u32::MAX,
        decreases todos.len() - i,
    {
        if todos[i].id == u32::MAX {
            proof {
                lemma_max_id_bound(todos@);
            }
            return None;
        }
        i = i + 1;
    }
    proof {
        lemma_max_id_below(todos@);
    }
    let id = next_id(todos.as_slice());
    todos.push(Todo { id, text, done: false, category });
    Some(id)
}

/// When no record holds `u32::MAX`, neither does the largest identifier.
proof fn lemma_max_id_below(s: Seq<Todo>)
    requires
        forall|j: int| 0 <= j < s.len() ==> s[j].id != u32::MAX,
    ensures
        max_id(s) < u32::MAX,
    decreases s.len(),
{
    if s.len() > 0 {
        lemma_max_id_below(s.drop_last());
    }
}

/// Marks the first record with identifier `id` as completed. Returns whether
/// there was one; when there was none, nothing changes.
pub fn mark_done(todos: &mut Vec<Todo>, id: u32) -> (r: bool)
    ensures
        r == has_id(old(todos)@, id),
        !r ==> final(todos)@ == old(todos)@,
        r ==> exists|i: int|
            is_first_with_id(old(todos)@, id, i) && final(todos)@ == old(todos)@.update(
                i,
                completed(old(todos)@[i]),
            ),
{
    let ghost start = todos@;
    let mut i: usize = 0;
    while i < todos.len()
        invariant
            0 <= i <= todos.len(),
            todos@ == start,
            start == old(todos)@,
            forall|j: int| 0 <= j < i ==> todos@[j].id != id,
        decreases todos.len() - i,
    {
        if todos[i].id == id {
            let ghost before = todos@;
            todos[i].done = true;
            assert(todos@ =~= before.update(i as int, completed(before[i as int])));
            assert(is_first_with_id(before, id, i as int));
            return true;
        }
        i = i + 1;
    }
    assert(!has_id(start, id));
    false
}

/// Removing an identifier that no record holds changes nothing.
pub proof fn lemma_without_absent(s: Seq<Todo>, id: u32)
    requires
        !has_id(s, id),
    ensures
        without_id(s, id) == s,
    decreases s.len(),
{
    if s.len() > 0 {
        assert(!has_id(s.drop_last(), id)) by {
            if has_id(s.drop_last(), id) {
                let i = choose|i: int| 0 <= i < s.len() - 1 && s.drop_last()[i].id == id;
                assert(s[i].id == id);
            }
        }
        lemma_without_absent(s.drop_last(), id);
        assert(s.drop_last().push(s.last()) =~= s);
    }
}

/// Removes every record with identifier `id`, keeping the order of the rest.
/// Returns whether there was one; when there was none, nothing changes.
pub fn remove_todo(todos: &mut Vec<Todo>, id: u32) -> (r: bool)
    ensures
        r == has_id(old(todos)@, id),
        final(todos)@ == without_id(old(todos)@, id),
        !r ==> final(todos)@ == old(todos)@,
{
    let ghost start = todos@;
    let ghost n = start.len();
    let mut stack: Vec<Todo> = Vec::new();
    while todos.len() > 0
        invariant
            n == start.len(),
            todos@.len() + stack@.len() == n,
            todos@ == start.subrange(0, todos@.len() as int),
            forall|k: int| 0 <= k < stack@.len() ==> stack@[k] == start[n - 1 - k],
        decreases todos.len(),
    {
        let ghost before = todos@;
        let t = todos.pop().unwrap();
        assert(todos@ =~= start.subrange(0, todos@.len() as int));
        assert(t == start[todos@.len() as int]);
        stack.push(t);
    }
    let mut kept: Vec<Todo> = Vec::new();
    let mut found = false;
    while stack.len() > 0
        invariant
            n == start.len(),
            stack@.len() <= n,
            forall|k: int| 0 <= k < stack@.len() ==> stack@[k] == start[n - 1 - k],
            kept@ == without_id(start.subrange(0, n - stack@.len()), id),
            found == has_id(start.subrange(0, n - stack@.len()), id),
        decreases stack.len(),
    {
        let ghost done_len = n - stack@.len();
        let t = stack.pop().unwrap();
        assert(t == start[done_len]);
        let ghost prefix = start.subrange(0, done_len + 1);
        assert(prefix.drop_last() =~= start.subrange(0, done_len));
        assert(has_id(prefix, id) == (has_id(prefix.drop_last(), id) || t.id == id)) by {
            if t.id == id {
                assert(prefix[done_len].id == id);
            }
            if has_id(prefix, id) && t.id != id {
                let i = choose|i: int| 0 <= i < prefix.len() && prefix[i].id == id;
                assert(prefix.drop_last()[i].id == id);
            }
            if has_id(prefix.drop_last(), id) {
                let i = choose|i: int| 0 <= i < prefix.len() - 1 && prefix.drop_last()[i].id == id;
                assert(prefix[i].id == id);
            }
        }
        if t.id == id {
            found = true;
        } else {
            kept.push(t);
        }
    }
    assert(start.subrange(0, n as int) =~= start);
    if found {
        *todos = kept;
    } else {
        proof {
            lemma_without_absent(start, id);
        }
        *todos = kept;
    }
    found
}

/// The records made by adding `entries` (text and tag) in order to an empty
/// collection.
pub open spec fn added_from_empty(entries: Seq<(String, Option<Category>)>) -> Seq<Todo>
    decreases entries.len(),
{
    if entries.len() == 0 {
        Seq::empty()
    } else {
        with_added(added_from_empty(entries.drop_last()), entries.last().0, entries.last().1)
    }
}

/// Adding N records to an empty collection gives them the identifiers 1 to N
/// in order.
pub proof fn sequential_ids(entries: Seq<(String, Option<Category>)>)
    requires
        entries.len() < u32::MAX,
    ensures
        added_from_empty(entries).len() == entries.len(),
        max_id(added_from_empty(entries)) == entries.len(),
        forall|i: int|
            0 <= i < entries.len() ==> #[trigger] added_from_empty(entries)[i].id == i + 1,
    decreases entries.len(),
{
    if entries.len() > 0 {
        let prev = entries.drop_last();
        sequential_ids(prev);
        let s = added_from_empty(entries);
        assert(s.drop_last() =~= added_from_empty(prev));
        assert forall|i: int| 0 <= i < entries.len() implies #[trigger] s[i].id == i + 1 by {
            if i < entries.len() - 1 {
                assert(s[i] == added_from_empty(prev)[i]);
            }
        }
    }
}

/// After adding N records to an empty collection, removing the one with the
/// largest identifier N and adding another gives the new one identifier N
/// again: the next identifier is always the current largest plus one.
pub proof fn next_after_removing_max(
    entries: Seq<(String, Option<Category>)>,
    text: String,
    category: Option<Category>,
)
    requires
        1 <= entries.len() < u32::MAX,
    ensures
        max_id(without_id(added_from_empty(entries), entries.len() as u32)) == entries.len() - 1,
        with_added(
            without_id(added_from_empty(entries), entries.len() as u32),
            text,
            category,
        ).last().id == entries.len(),
{
    let n = entries.len() as u32;
    let s = added_from_empty(entries);
    let prev = entries.drop_last();
    sequential_ids(entries);
    sequential_ids(prev);
    assert(s.drop_last() =~= added_from_empty(prev));
    assert(!has_id(s.drop_last(), n)) by {
        if has_id(s.drop_last(), n) {
            let i = choose|i: int| 0 <= i < s.len() - 1 && s.drop_last()[i].id == n;
            assert(added_from_empty(prev)[i].id == i + 1);
        }
    }
    lemma_without_absent(s.drop_last(), n);
    assert(s.last().id == n) by {
        assert(s[s.len() - 1].id == s.len());
    }
}

} // verus!
