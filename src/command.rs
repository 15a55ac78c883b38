use vstd::prelude::*;
use vstd::string::StringExecFns;
use crate::category::views_of;

verus! {

/// What one invocation asks for.
#[derive(Debug, PartialEq, Eq)]
pub enum Command {
    /// Add a record with `text`, tagged with the category named `category`.
    Add { category: Option<String>, text: String },
    List,
    Done(u32),
    Remove(u32),
    CategoryAdd(String),
    CategoryList,
}

/// Why the arguments name no command.
#[derive(Debug, PartialEq, Eq)]
pub enum UsageError {
    /// No command at all.
    Missing,
    /// `add` without text.
    AddText,
    /// `add --cat` without a category and text.
    AddCategory,
    /// `done` without an identifier.
    DoneId,
    /// `remove` without an identifier.
    RemoveId,
    /// An identifier that is no `u32`.
    InvalidId(String),
    /// `category` without a subcommand.
    CategorySub,
    /// `category add` without a name.
    CategoryName,
    /// `category` with another subcommand than `add` or `list`.
    UnknownSubcommand(String),
    /// An unknown command.
    UnknownCommand(String),
}

/// Whether `c` is an ASCII decimal digit.
pub open spec fn is_digit(c: char) -> bool {
    '0' <= c && c <= '9'
}

/// The value of a string of decimal digits.
pub open spec fn digits_value(s: Seq<char>) -> nat
    decreases s.len(),
{
    if s.len() == 0 {
        0
    } else {
        digits_value(s.drop_last()) * 10 + ((s.last() as u32) - ('0' as u32)) as nat
    }
}

/// What `u32`'s `from_str` accepts: an optional `+`, then one or more
/// decimal digits whose value fits in a `u32`.
pub open spec fn parsed_u32(s: Seq<char>) -> Option<u32> {
    let d = if s.len() > 0 && s[0] == '+' {
        s.drop_first()
    } else {
        s
    };
    if d.len() > 0 && (forall|i: int| 0 <= i < d.len() ==> is_digit(#[trigger] d[i]))
        && digits_value(d) <= u32::MAX {
        Some(digits_value(d) as u32)
    } else {
        None
    }
}

/// Relies on `str::parse::<u32>` (`u32`'s `FromStr`): it accepts exactly an
/// optional `+` followed by ASCII digits whose value fits in a `u32`.
#[verifier::external_body]
fn parse_u32(s: &str) -> (r: Option<u32>)
    ensures
        r == parsed_u32(s@),
{
    s.parse::<u32>().ok()
}

/// The words of `words` separated by single spaces.
pub open spec fn joined(words: Seq<Seq<char>>) -> Seq<char>
    decreases words.len(),
{
    if words.len() == 0 {
        Seq::empty()
    } else if words.len() == 1 {
        words[0]
    } else {
        joined(words.drop_last()) + " "@ + words.last()
    }
}

/// `args[from..]` joined by single spaces.
pub fn join_from(args: &[String], from: usize) -> (r: String)
    requires
        from <= args.len(),
    ensures
        r@ == joined(views_of(args@).subrange(from as int, args@.len() as int)),
{
    let ghost all = views_of(args@);
    let mut r = String::new();
    let mut i: usize = from;
    while i < args.len()
        invariant
            from <= i <= args.len(),
            all == views_of(args@),
            r@ == joined(all.subrange(from as int, i as int)),
        decreases args.len() - i,
    {
        let ghost prev = all.subrange(from as int, i as int);
        let ghost next = all.subrange(from as int, i + 1);
        assert(next.drop_last() =~= prev);
        if i > from {
            r = r.concat(" ");
        }
        r = r.concat(args[i].as_str());
        proof {
            if i == from {
                assert(r@ =~= next[0]);
            }
        }
        i = i + 1;
    }
    r
}

fn is(s: &String, word: &str) -> (r: bool)
    ensures
        r == (s@ == word@),
{
    *s == String::from_str(word)
}

/// The command that `args` (the arguments after the program name) ask for.
pub open spec fn command_ok(args: Seq<Seq<char>>, r: Result<Command, UsageError>) -> bool {
    if args.len() == 0 {
        r == Err::<Command, UsageError>(UsageError::Missing)
    } else if args[0] == "add"@ {
        if args.len() < 2 {
            r == Err::<Command, UsageError>(UsageError::AddText)
        } else if args[1] == "--cat"@ {
            if args.len() < 4 {
                r == Err::<Command, UsageError>(UsageError::AddCategory)
            } else {
                r matches Ok(Command::Add { category: Some(c), text }) && c@ == args[2] && text@
                    == joined(args.subrange(3, args.len() as int))
            }
        } else {
            r matches Ok(Command::Add { category: None, text }) && text@ == joined(
                args.subrange(1, args.len() as int),
            )
        }
    } else if args[0] == "list"@ {
        r == Ok::<Command, UsageError>(Command::List)
    } else if args[0] == "done"@ || args[0] == "remove"@ {
        if args.len() < 2 {
            r == Err::<Command, UsageError>(
                if args[0] == "done"@ {
                    UsageError::DoneId
                } else {
                    UsageError::RemoveId
                },
            )
        } else {
            match parsed_u32(args[1]) {
                Some(id) => r == Ok::<Command, UsageError>(
                    if args[0] == "done"@ {
                        Command::Done(id)
                    } else {
                        Command::Remove(id)
                    },
                ),
                None => r matches Err(UsageError::InvalidId(s)) && s@ == args[1],
            }
        }
    } else if args[0] == "category"@ {
        if args.len() < 2 {
            r == Err::<Command, UsageError>(UsageError::CategorySub)
        } else if args[1] == "add"@ {
            if args.len() < 3 {
                r == Err::<Command, UsageError>(UsageError::CategoryName)
            } else {
                r matches Ok(Command::CategoryAdd(name)) && name@ == args[2]
            }
        } else if args[1] == "list"@ {
            r == Ok::<Command, UsageError>(Command::CategoryList)
        } else {
            r matches Err(UsageError::UnknownSubcommand(s)) && s@ == args[1]
        }
    } else {
        r matches Err(UsageError::UnknownCommand(s)) && s@ == args[0]
    }
}

/// Reads the command from the arguments that follow the program name.
pub fn parse_command(args: &[String]) -> (r: Result<Command, UsageError>)
    ensures
        command_ok(views_of(args@), r),
{
    if args.len() == 0 {
        return Err(UsageError::Missing);
    }
    let cmd = &args[0];
    if is(cmd, "add") {
        if args.len() < 2 {
            Err(UsageError::AddText)
        } else if is(&args[1], "--cat") {
            if args.len() < 4 {
                Err(UsageError::AddCategory)
            } else {
                Ok(Command::Add { category: Some(args[2].clone()), text: join_from(args, 3) })
            }
        } else {
            Ok(Command::Add { category: None, text: join_from(args, 1) })
        }
    } else if is(cmd, "list") {
        Ok(Command::List)
    } else if is(cmd, "done") || is(cmd, "remove") {
        let done = is(cmd, "done");
        if args.len() < 2 {
            if done {
                Err(UsageError::DoneId)
            } else {
                Err(UsageError::RemoveId)
            }
        } else {
            match parse_u32(args[1].as_str()) {
                Some(id) => if done {
                    Ok(Command::Done(id))
                } else {
                    Ok(Command::Remove(id))
                },
                None => Err(UsageError::InvalidId(args[1].clone())),
            }
        }
    } else if is(cmd, "category") {
        if args.len() < 2 {
            Err(UsageError::CategorySub)
        } else if is(&args[1], "add") {
            if args.len() < 3 {
                Err(UsageError::CategoryName)
            } else {
                Ok(Command::CategoryAdd(args[2].clone()))
            }
        } else if is(&args[1], "list") {
            Ok(Command::CategoryList)
        } else {
            Err(UsageError::UnknownSubcommand(args[1].clone()))
        }
    } else {
        Err(UsageError::UnknownCommand(cmd.clone()))
    }
}

impl UsageError {
    /// The message that reports this error (the full usage is shown besides
    /// for a missing or unknown command).
    pub fn message(&self) -> (r: String)
        ensures
            r@ == match self {
                UsageError::Missing => "Usage: todo <command> [args]"@,
                UsageError::AddText => "Usage: todo add [--cat <category>] <text>"@,
                UsageError::AddCategory => "Usage: todo add --cat <category> <text>"@,
                UsageError::DoneId => "Usage: todo done <id>"@,
                UsageError::RemoveId => "Usage: todo remove <id>"@,
                UsageError::InvalidId(s) => "Invalid id: "@ + s@,
                UsageError::CategorySub => "Usage: todo category <add|list>"@,
                UsageError::CategoryName => "Usage: todo category add <name>"@,
                UsageError::UnknownSubcommand(s) => "Unknown subcommand: category "@ + s@,
                UsageError::UnknownCommand(s) => "Unknown command: "@ + s@,
            },
    {
        match self {
            UsageError::Missing => String::from_str("Usage: todo <command> [args]"),
            UsageError::AddText => String::from_str("Usage: todo add [--cat <category>] <text>"),
            UsageError::AddCategory => String::from_str("Usage: todo add --cat <category> <text>"),
            UsageError::DoneId => String::from_str("Usage: todo done <id>"),
            UsageError::RemoveId => String::from_str("Usage: todo remove <id>"),
            UsageError::InvalidId(s) => String::from_str("Invalid id: ").concat(s.as_str()),
            UsageError::CategorySub => String::from_str("Usage: todo category <add|list>"),
            UsageError::CategoryName => String::from_str("Usage: todo category add <name>"),
            UsageError::UnknownSubcommand(s) => String::from_str(
                "Unknown subcommand: category ",
            ).concat(s.as_str()),
            UsageError::UnknownCommand(s) => String::from_str("Unknown command: ").concat(
                s.as_str(),
            ),
        }
    }
}

} // verus!
