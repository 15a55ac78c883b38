use vstd::prelude::*;
use vstd::string::StringExecFns;

verus! {

/// The tag of a todo: one of four built-in categories, or a user-registered
/// name kept in the casing it was registered with.
#[derive(Debug, Clone, PartialEq, Eq)]
pub enum Category {
    Work,
    Personal,
    Shopping,
    Health,
    Custom(String),
}

/// What `str::to_lowercase` makes of a sequence of characters.
pub uninterp spec fn lower_of(s: Seq<char>) -> Seq<char>;

/// Relies on `str::to_lowercase`: the lowercase form of a string depends on
/// its characters alone.
#[verifier::external_body]
fn lowercase(s: &str) -> (r: String)
    ensures
        r@ == lower_of(s@),
{
    s.to_lowercase()
}

/// The built-in category whose lowercase name is `lower`, if any.
pub open spec fn builtin_of(lower: Seq<char>) -> Option<Category> {
    if lower == "work"@ {
        Some(Category::Work)
    } else if lower == "personal"@ {
        Some(Category::Personal)
    } else if lower == "shopping"@ {
        Some(Category::Shopping)
    } else if lower == "health"@ {
        Some(Category::Health)
    } else {
        None
    }
}

/// The lowercase forms of a list of names, in order.
pub open spec fn folded_of(names: Seq<String>) -> Seq<Seq<char>> {
    names.map_values(|c: String| lower_of(c@))
}

/// The views of a list of strings, in order.
pub open spec fn views_of(names: Seq<String>) -> Seq<Seq<char>> {
    names.map_values(|c: String| c@)
}

/// The first position at which `keys` holds `key`.
pub open spec fn first_index(key: Seq<char>, keys: Seq<Seq<char>>) -> Option<int>
    decreases keys.len(),
{
    if keys.len() == 0 {
        None
    } else {
        match first_index(key, keys.drop_last()) {
            Some(i) => Some(i),
            None => if keys.last() == key {
                Some(keys.len() - 1)
            } else {
                None
            },
        }
    }
}

/// The category that a name whose lowercase form is `lower` stands for, given
/// the registered names `custom` and their lowercase forms `folded`.
pub open spec fn resolve(lower: Seq<char>, custom: Seq<String>, folded: Seq<Seq<char>>) -> Option<
    Category,
> {
    match builtin_of(lower) {
        Some(c) => Some(c),
        None => match first_index(lower, folded) {
            Some(i) => Some(Category::Custom(custom[i])),
            None => None,
        },
    }
}

/// The message given for a name that is no category.
pub open spec fn unknown_message(name: Seq<char>) -> Seq<char> {
    "Unknown category: "@ + name
}

impl Category {
    /// The display form: the fixed lowercase spelling of a built-in, or the
    /// registered name of a custom category.
    pub open spec fn name_spec(&self) -> Seq<char> {
        match self {
            Category::Work => "work"@,
            Category::Personal => "personal"@,
            Category::Shopping => "shopping"@,
            Category::Health => "health"@,
            Category::Custom(name) => name@,
        }
    }

    pub fn name(&self) -> (r: String)
        ensures
            r@ == self.name_spec(),
            self matches Category::Custom(n) ==> r == n,
    {
        match self {
            Category::Work => String::from_str("work"),
            Category::Personal => String::from_str("personal"),
            Category::Shopping => String::from_str("shopping"),
            Category::Health => String::from_str("health"),
            Category::Custom(name) => name.clone(),
        }
    }

    /// A copy of this category.
    pub fn duplicate(&self) -> (r: Category)
        ensures
            r == *self,
    {
        match self {
            Category::Work => Category::Work,
            Category::Personal => Category::Personal,
            Category::Shopping => Category::Shopping,
            Category::Health => Category::Health,
            Category::Custom(name) => Category::Custom(name.clone()),
        }
    }
}

/// The category stored under `name`: the built-in spelled exactly so, or
/// else the custom category of that name.
pub open spec fn from_name_spec(name: String) -> Category {
    match builtin_of(name@) {
        Some(c) => c,
        None => Category::Custom(name),
    }
}

/// Reads a category back from the name it is stored under.
pub fn from_name(name: String) -> (r: Category)
    ensures
        r == from_name_spec(name),
{
    match builtin_category(name.as_str()) {
        Some(c) => c,
        None => Category::Custom(name),
    }
}

/// A category reads back from the name it is stored under, for every
/// category but a custom one spelled exactly as a built-in (which
/// registration refuses).
pub proof fn stored_name_round_trip(c: Category, stored: String)
    requires
        stored@ == c.name_spec(),
        c matches Category::Custom(n) ==> stored == n && builtin_of(n@) is None,
    ensures
        from_name_spec(stored) == c,
{
    reveal_strlit("work");
    reveal_strlit("personal");
    reveal_strlit("shopping");
    reveal_strlit("health");
    assert("work"@.len() == 4 && "personal"@.len() == 8 && "shopping"@.len() == 8
        && "health"@.len() == 6);
    assert("personal"@[0] != "shopping"@[0]);
}

fn same_text(a: &str, b: &str) -> (r: bool)
    ensures
        r == (a@ == b@),
{
    let a = String::from_str(a);
    let b = String::from_str(b);
    a == b
}

/// The built-in category whose lowercase name is `lower`.
pub fn builtin_category(lower: &str) -> (r: Option<Category>)
    ensures
        r == builtin_of(lower@),
{
    if same_text(lower, "work") {
        Some(Category::Work)
    } else if same_text(lower, "personal") {
        Some(Category::Personal)
    } else if same_text(lower, "shopping") {
        Some(Category::Shopping)
    } else if same_text(lower, "health") {
        Some(Category::Health)
    } else {
        None
    }
}


/// The first position at which `folded` holds `lower`.
pub fn find_folded(lower: &str, folded: &[String]) -> (r: Option<usize>)
    ensures
        r matches Some(i) ==> i < folded.len() && first_index(lower@, views_of(folded@)) == Some(
            i as int,
        ),
        r is None ==> first_index(lower@, views_of(folded@)) is None,
{
    let ghost keys = views_of(folded@);
    let mut i: usize = 0;
    while i < folded.len()
        invariant
            0 <= i <= folded.len(),
            keys == views_of(folded@),
            first_index(lower@, keys.subrange(0, i as int)) is None,
        decreases folded.len() - i,
    {
        assert(keys.subrange(0, i + 1).drop_last() =~= keys.subrange(0, i as int));
        let c: &String = &folded[i];
        if same_text(c.as_str(), lower) {
            proof {
                lemma_first_index_prefix(lower@, keys, i as int + 1);
            }
            return Some(i);
        }
        i = i + 1;
    }
    assert(keys.subrange(0, i as int) =~= keys);
    None
}

/// A first match within a prefix is the first match of the whole sequence.
proof fn lemma_first_index_prefix(key: Seq<char>, keys: Seq<Seq<char>>, n: int)
    requires
        0 <= n <= keys.len(),
        first_index(key, keys.subrange(0, n)) is Some,
    ensures
        first_index(key, keys) == first_index(key, keys.subrange(0, n)),
    decreases keys.len() - n,
{
    if n < keys.len() {
        assert(keys.subrange(0, n + 1).drop_last() =~= keys.subrange(0, n));
        lemma_first_index_prefix(key, keys, n + 1);
    } else {
        assert(keys.subrange(0, n) =~= keys);
    }
}

/// The lowercase forms of `names`, in order.
fn fold_all(names: &[String]) -> (r: Vec<String>)
    ensures
        views_of(r@) == folded_of(names@),
{
    let mut r: Vec<String> = Vec::new();
    let mut i: usize = 0;
    while i < names.len()
        invariant
            0 <= i <= names.len(),
            r@.len() == i,
            views_of(r@) =~= folded_of(names@.subrange(0, i as int)),
        decreases names.len() - i,
    {
        let ghost prev = r@;
        let l = lowercase(names[i].as_str());
        r.push(l);
        assert forall|j: int| 0 <= j < r@.len() implies views_of(r@)[j] == folded_of(
            names@.subrange(0, i + 1),
        )[j] by {
            if j < i {
                assert(views_of(prev)[j] == folded_of(names@.subrange(0, i as int))[j]);
            }
        }
        i = i + 1;
        assert(views_of(r@) =~= folded_of(names@.subrange(0, i as int)));
    }
    assert(names@.subrange(0, i as int) =~= names@);
    r
}

/// Resolves a category name, given its lowercase form `lower`, the registered
/// names `custom` and their lowercase forms `folded`. A registered name
/// resolves to the casing it was registered with.
pub fn parse_category_folded(name: &str, lower: &str, custom: &[String], folded: &[String]) -> (r:
    Result<Category, String>)
    requires
        custom.len() == folded.len(),
    ensures
        match resolve(lower@, custom@, views_of(folded@)) {
            Some(c) => r == Ok::<Category, String>(c),
            None => r matches Err(e) && e@ == unknown_message(name@),
        },
{
    match builtin_category(lower) {
        Some(c) => Ok(c),
        None => match find_folded(lower, folded) {
            Some(i) => Ok(Category::Custom(custom[i].clone())),
            None => Err(String::from_str("Unknown category: ").concat(name)),
        },
    }
}

/// Resolves a category name against the built-ins and the registered names
/// `custom`, ignoring case.
pub fn parse_category(name: &str, custom: &[String]) -> (r: Result<Category, String>)
    ensures
        match resolve(lower_of(name@), custom@, folded_of(custom@)) {
            Some(c) => r == Ok::<Category, String>(c),
            None => r matches Err(e) && e@ == unknown_message(name@),
        },
{
    let lower = lowercase(name);
    let folded = fold_all(custom);
    parse_category_folded(name, lower.as_str(), custom, folded.as_slice())
}

/// Why a name cannot be registered as a custom category.
#[derive(Debug, PartialEq, Eq, Structural)]
pub enum RegisterError {
    /// The name is a built-in category, in some casing.
    BuiltIn,
    /// The name is already registered, in some casing.
    Duplicate,
}

/// The outcome of registering `name` (lowercase form `lower`) on top of the
/// registered names whose lowercase forms are `folded`.
pub open spec fn register_outcome(lower: Seq<char>, folded: Seq<Seq<char>>) -> Result<
    (),
    RegisterError,
> {
    if builtin_of(lower) is Some {
        Err(RegisterError::BuiltIn)
    } else if first_index(lower, folded) is Some {
        Err(RegisterError::Duplicate)
    } else {
        Ok(())
    }
}

impl RegisterError {
    pub open spec fn message_spec(&self, name: Seq<char>) -> Seq<char> {
        match self {
            RegisterError::BuiltIn => "'"@ + name + "' is a built-in category."@,
            RegisterError::Duplicate => "Category '"@ + name + "' already exists."@,
        }
    }

    /// The message that reports this refusal of `name`.
    pub fn message(&self, name: &str) -> (r: String)
        ensures
            r@ == self.message_spec(name@),
    {
        match self {
            RegisterError::BuiltIn => String::from_str("'").concat(name).concat(
                "' is a built-in category.",
            ),
            RegisterError::Duplicate => String::from_str("Category '").concat(name).concat(
                "' already exists.",
            ),
        }
    }
}

/// Registers `name` (lowercase form `lower`) in `cats`, whose lowercase forms
/// are `folded`, unless it collides with a built-in or a registered name.
pub fn register_folded(cats: &mut Vec<String>, folded: &[String], name: String, lower: &str) -> (r:
    Result<(), RegisterError>)
    ensures
        r == register_outcome(lower@, views_of(folded@)),
        r is Ok ==> final(cats)@ == old(cats)@.push(name),
        r is Err ==> final(cats)@ == old(cats)@,
{
    if builtin_category(lower).is_some() {
        return Err(RegisterError::BuiltIn);
    }
    if find_folded(lower, folded).is_some() {
        return Err(RegisterError::Duplicate);
    }
    cats.push(name);
    Ok(())
}

/// Registers `name` as a custom category, in the casing given, unless it
/// matches a built-in or an already registered name, ignoring case.
pub fn add_category(cats: &mut Vec<String>, name: String) -> (r: Result<(), RegisterError>)
    ensures
        r == register_outcome(lower_of(name@), folded_of(old(cats)@)),
        r is Ok ==> final(cats)@ == old(cats)@.push(name),
        r is Err ==> final(cats)@ == old(cats)@,
{
    let lower = lowercase(name.as_str());
    let folded = fold_all(cats.as_slice());
    register_folded(cats, folded.as_slice(), name, lower.as_str())
}

/// A name whose lowercase form is that of a built-in can never be
/// registered, whatever names are registered already.
pub proof fn builtin_never_registers(lower: Seq<char>, folded: Seq<Seq<char>>)
    requires
        builtin_of(lower) is Some,
    ensures
        register_outcome(lower, folded) == Err::<(), RegisterError>(RegisterError::BuiltIn),
{
}

/// Once a name is registered, any name with the same lowercase form resolves
/// to the custom category in the registered casing, and that category
/// displays as the registered name.
pub proof fn registered_name_resolves(cats: Seq<String>, name: String, query: Seq<char>)
    requires
        register_outcome(lower_of(name@), folded_of(cats)) is Ok,
        lower_of(query) == lower_of(name@),
    ensures
        resolve(lower_of(query), cats.push(name), folded_of(cats.push(name))) == Some(
            Category::Custom(name),
        ),
        Category::Custom(name).name_spec() == name@,
{
    let all = cats.push(name);
    assert(folded_of(all).drop_last() =~= folded_of(cats));
    assert(folded_of(all).last() == lower_of(name@));
}

} // verus!
