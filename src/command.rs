//! The command grammar of the interactive shell and of the command line:
//! `search <query> [limit]`, `show <id>`, `download <id> [index]`,
//! `list <what>`, `setdir <path>`, `info`, `help`, `quit`, with short forms.
use crate::client::same_text;
use crate::text::{join2, lower_of, to_lower};
use vstd::prelude::*;

verus! {

broadcast use vstd::string::group_string_axioms;

/// The words of a text, as `str::split_whitespace` separates them.
pub uninterp spec fn words_of(s: Seq<char>) -> Seq<Seq<char>>;

/// Relies on `str::split_whitespace`: the words of the text, in order; the
/// result depends on the text alone.
#[verifier::external_body]
fn split_words(s: &str) -> (r: Vec<String>)
    ensures
        r@.map_values(|w: String| w@) == words_of(s@),
{
    s.split_whitespace().map(|w| w.to_string()).collect()
}

/// An ASCII decimal digit.
pub open spec fn is_digit(c: char) -> bool {
    '0' <= c <= '9'
}

/// At least one character, all of them ASCII digits.
pub open spec fn all_digits(s: Seq<char>) -> bool {
    s.len() > 0 && forall|i: int| 0 <= i < s.len() ==> is_digit(#[trigger] s[i])
}

/// The number that a run of ASCII digits writes.
pub open spec fn digits_value(s: Seq<char>) -> nat
    decreases s.len(),
{
    if s.len() == 0 {
        0
    } else {
        digits_value(s.drop_last()) * 10 + ((s.last() as u32) - 48) as nat
    }
}

/// The integer a text writes: an optional `+` or `-` sign, then digits only.
pub open spec fn signed_value(s: Seq<char>) -> Option<int> {
    if s.len() > 0 && s[0] == '-' && all_digits(s.drop_first()) {
        Some(-(digits_value(s.drop_first()) as int))
    } else if s.len() > 0 && s[0] == '+' && all_digits(s.drop_first()) {
        Some(digits_value(s.drop_first()) as int)
    } else if all_digits(s) {
        Some(digits_value(s) as int)
    } else {
        None
    }
}

/// The `i32` a text writes, if it writes one in range.
pub open spec fn i32_of(s: Seq<char>) -> Option<i32> {
    match signed_value(s) {
        Some(v) => if i32::MIN <= v <= i32::MAX { Some(v as i32) } else { None },
        None => None,
    }
}

/// The `usize` a text writes: an optional `+` sign, then digits only, in range.
pub open spec fn usize_of(s: Seq<char>) -> Option<usize> {
    if s.len() > 0 && s[0] == '-' {
        None
    } else {
        match signed_value(s) {
            Some(v) => if 0 <= v <= usize::MAX { Some(v as usize) } else { None },
            None => None,
        }
    }
}

/// Relies on `i32::from_str`: an optional `+` or `-` sign followed by ASCII
/// digits only, whose value fits, gives that value; anything else fails.
#[verifier::external_body]
fn parse_i32(s: &str) -> (r: Option<i32>)
    ensures
        r == i32_of(s@),
{
    s.parse::<i32>().ok()
}

/// Relies on `usize::from_str`: an optional `+` sign followed by ASCII digits
/// only, whose value fits, gives that value; anything else fails.
#[verifier::external_body]
fn parse_usize(s: &str) -> (r: Option<usize>)
    ensures
        r == usize_of(s@),
{
    s.parse::<usize>().ok()
}

/// A command of the shell.
#[derive(Debug, Clone, PartialEq, Eq)]
pub enum ReplCommand {
    Search { query: String, limit: Option<i32> },
    Show { dataset_id: String },
    Download { dataset_id: String, resource_index: Option<usize> },
    List { what: String },
    SetDir { path: String },
    Info,
    Help,
    Quit,
}

/// What a command holds, as text.
pub enum CommandView {
    Search { query: Seq<char>, limit: Option<i32> },
    Show { dataset_id: Seq<char> },
    Download { dataset_id: Seq<char>, resource_index: Option<usize> },
    List { what: Seq<char> },
    SetDir { path: Seq<char> },
    Info,
    Help,
    Quit,
}

/// The text of a command.
pub open spec fn command_view(c: ReplCommand) -> CommandView {
    match c {
        ReplCommand::Search { query, limit } => CommandView::Search { query: query@, limit },
        ReplCommand::Show { dataset_id } => CommandView::Show { dataset_id: dataset_id@ },
        ReplCommand::Download { dataset_id, resource_index } => CommandView::Download {
            dataset_id: dataset_id@,
            resource_index,
        },
        ReplCommand::List { what } => CommandView::List { what: what@ },
        ReplCommand::SetDir { path } => CommandView::SetDir { path: path@ },
        ReplCommand::Info => CommandView::Info,
        ReplCommand::Help => CommandView::Help,
        ReplCommand::Quit => CommandView::Quit,
    }
}

/// The text of a parse result.
pub open spec fn parsed_view(r: Result<ReplCommand, String>) -> Result<CommandView, Seq<char>> {
    match r {
        Ok(c) => Ok(command_view(c)),
        Err(e) => Err(e@),
    }
}

/// Words joined by single spaces.
pub open spec fn joined_words(v: Seq<Seq<char>>) -> Seq<char>
    decreases v.len(),
{
    if v.len() == 0 {
        seq![]
    } else if v.len() == 1 {
        v[0]
    } else {
        joined_words(v.drop_last()) + " "@ + v.last()
    }
}

/// The command that words make, or why they make none. The first word,
/// in any case, names the command; the number of words must fit it.
pub open spec fn command_of(ws: Seq<Seq<char>>) -> Result<CommandView, Seq<char>> {
    if ws.len() == 0 {
        Err("Empty command"@)
    } else {
        let c = lower_of(ws[0]);
        if c == "search"@ || c == "s"@ {
            if ws.len() < 2 {
                Err("Usage: search <query> [limit]"@)
            } else {
                Ok(
                    CommandView::Search {
                        query: joined_words(ws.subrange(1, ws.len() as int)),
                        limit: if ws.len() > 2 { i32_of(ws.last()) } else { None },
                    },
                )
            }
        } else if c == "show"@ || c == "describe"@ || c == "d"@ {
            if ws.len() != 2 {
                Err("Usage: show <dataset_id>"@)
            } else {
                Ok(CommandView::Show { dataset_id: ws[1] })
            }
        } else if c == "download"@ || c == "dl"@ {
            if ws.len() < 2 || ws.len() > 3 {
                Err("Usage: download <dataset_id> [resource_index]"@)
            } else {
                Ok(
                    CommandView::Download {
                        dataset_id: ws[1],
                        resource_index: if ws.len() == 3 { usize_of(ws[2]) } else { None },
                    },
                )
            }
        } else if c == "list"@ || c == "ls"@ {
            if ws.len() != 2 {
                Err("Usage: list <organizations|orgs>"@)
            } else {
                Ok(CommandView::List { what: ws[1] })
            }
        } else if c == "setdir"@ || c == "cd"@ {
            if ws.len() != 2 {
                Err("Usage: setdir <path>"@)
            } else {
                Ok(CommandView::SetDir { path: ws[1] })
            }
        } else if c == "info"@ || c == "status"@ {
            Ok(CommandView::Info)
        } else if c == "help"@ || c == "h"@ || c == "?"@ {
            Ok(CommandView::Help)
        } else if c == "quit"@ || c == "exit"@ || c == "q"@ {
            Ok(CommandView::Quit)
        } else {
            Err("Unknown command: "@ + ws[0])
        }
    }
}

/// Words joined by single spaces.
fn join_words(v: &Vec<String>, from: usize) -> (r: String)
    requires
        from <= v@.len(),
    ensures
        r@ == joined_words(v@.map_values(|w: String| w@).subrange(from as int, v@.len() as int)),
{
    let ghost all = v@.map_values(|w: String| w@);
    let mut out = String::new();
    let mut i: usize = from;
    while i < v.len()
        invariant
            from <= i <= v@.len(),
            all == v@.map_values(|w: String| w@),
            out@ == joined_words(all.subrange(from as int, i as int)),
        decreases v@.len() - i,
    {
        assert(all.subrange(from as int, i + 1).drop_last() =~= all.subrange(from as int, i as int));
        if i > from {
            out.append(" ");
        }
        out.append(v[i].as_str());
        assert(out@ =~= joined_words(all.subrange(from as int, i + 1)));
        i = i + 1;
    }
    out
}

/// Whether the text is one of two words.
fn is_either(s: &str, a: &str, b: &str) -> (r: bool)
    ensures
        r == (s@ == a@ || s@ == b@),
{
    same_text(s, a) || same_text(s, b)
}

impl ReplCommand {
    /// The command that words make, or a message saying why they make none.
    pub fn from_words(ws: &Vec<String>) -> (r: Result<ReplCommand, String>)
        ensures
            parsed_view(r) == command_of(ws@.map_values(|w: String| w@)),
    {
        let ghost v = ws@.map_values(|w: String| w@);
        let n = ws.len();
        if n == 0 {
            return Err("Empty command".to_string());
        }
        assert(v[0] == ws@[0]@);
        let lower = to_lower(ws[0].as_str());
        let c = lower.as_str();
        if is_either(c, "search", "s") {
            if n < 2 {
                return Err("Usage: search <query> [limit]".to_string());
            }
            let query = join_words(ws, 1);
            let limit = if n > 2 {
                assert(v.last() == ws@[n - 1]@);
                parse_i32(ws[n - 1].as_str())
            } else {
                None
            };
            Ok(ReplCommand::Search { query, limit })
        } else if same_text(c, "show") || same_text(c, "describe") || same_text(c, "d") {
            if n != 2 {
                return Err("Usage: show <dataset_id>".to_string());
            }
            assert(v[1] == ws@[1]@);
            Ok(ReplCommand::Show { dataset_id: ws[1].clone() })
        } else if is_either(c, "download", "dl") {
            if n < 2 || n > 3 {
                return Err("Usage: download <dataset_id> [resource_index]".to_string());
            }
            assert(v[1] == ws@[1]@);
            let resource_index = if n == 3 {
                assert(v[2] == ws@[2]@);
                parse_usize(ws[2].as_str())
            } else {
                None
            };
            Ok(ReplCommand::Download { dataset_id: ws[1].clone(), resource_index })
        } else if is_either(c, "list", "ls") {
            if n != 2 {
                return Err("Usage: list <organizations|orgs>".to_string());
            }
            assert(v[1] == ws@[1]@);
            Ok(ReplCommand::List { what: ws[1].clone() })
        } else if is_either(c, "setdir", "cd") {
            if n != 2 {
                return Err("Usage: setdir <path>".to_string());
            }
            assert(v[1] == ws@[1]@);
            Ok(ReplCommand::SetDir { path: ws[1].clone() })
        } else if is_either(c, "info", "status") {
            Ok(ReplCommand::Info)
        } else if same_text(c, "help") || same_text(c, "h") || same_text(c, "?") {
            Ok(ReplCommand::Help)
        } else if same_text(c, "quit") || same_text(c, "exit") || same_text(c, "q") {
            Ok(ReplCommand::Quit)
        } else {
            Err(join2("Unknown command: ", ws[0].as_str()))
        }
    }

    /// The command a line holds, or a message saying why it holds none.
    pub fn parse(line: &str) -> (r: Result<ReplCommand, String>)
        ensures
            parsed_view(r) == command_of(words_of(line@)),
    {
        let ws = split_words(line);
        ReplCommand::from_words(&ws)
    }
}

impl std::str::FromStr for ReplCommand {
    type Err = String;

    fn from_str(s: &str) -> Result<ReplCommand, String> {
        ReplCommand::parse(s)
    }
}

/// Which resources a `download` command takes from a dataset's downloadable ones.
#[derive(Debug, Clone, Copy, PartialEq, Eq, Structural)]
pub enum ResourceChoice {
    /// The dataset has no downloadable resource.
    NoResources,
    /// All of them.
    All,
    /// The one at this index.
    One(usize),
    /// The index is past the last one.
    OutOfRange { index: usize, last: usize },
}

/// Which of `count` downloadable resources a `download` command with an
/// optional index takes.
pub open spec fn resource_choice_of(count: usize, index: Option<usize>) -> ResourceChoice {
    if count == 0 {
        ResourceChoice::NoResources
    } else {
        match index {
            None => ResourceChoice::All,
            Some(i) => if i < count {
                ResourceChoice::One(i)
            } else {
                ResourceChoice::OutOfRange { index: i, last: (count - 1) as usize }
            },
        }
    }
}

/// Which of `count` downloadable resources a `download` command with an
/// optional index takes.
pub fn choose_resources(count: usize, index: Option<usize>) -> (r: ResourceChoice)
    ensures
        r == resource_choice_of(count, index),
{
    if count == 0 {
        ResourceChoice::NoResources
    } else {
        match index {
            None => ResourceChoice::All,
            Some(i) => if i < count {
                ResourceChoice::One(i)
            } else {
                ResourceChoice::OutOfRange { index: i, last: count - 1 }
            },
        }
    }
}

/// Whether a `list` command names the organizations (`organizations` or
/// `orgs`, in any case).
pub fn lists_organizations(what: &str) -> (r: bool)
    ensures
        r == (lower_of(what@) == "organizations"@ || lower_of(what@) == "orgs"@),
{
    let l = to_lower(what);
    is_either(l.as_str(), "organizations", "orgs")
}

} // verus!
