//! The command line: an optional path to the applications file.
use vstd::prelude::*;

verus! {

/// Why the command line was refused.
#[derive(Debug)]
pub enum CliError {
    /// `-f` or `--file` (the argument carried) came without a path after it.
    MissingPath(String),
    /// The first argument starts with `-` but is no known flag.
    UnknownArgument(String),
}

impl CliError {
    /// The message that explains the refusal.
    pub open spec fn spec_message(&self) -> Seq<char> {
        match self {
            CliError::MissingPath(arg) => "Expected file path after "@ + arg@,
            CliError::UnknownArgument(arg) => "Unknown argument: "@ + arg@,
        }
    }

    /// The message that explains the refusal.
    pub fn message(&self) -> (r: String)
        ensures
            r@ == self.spec_message(),
    {
        match self {
            CliError::MissingPath(arg) => {
                let mut text = String::from_str("Expected file path after ");
                text.append(arg.as_str());
                text
            },
            CliError::UnknownArgument(arg) => {
                let mut text = String::from_str("Unknown argument: ");
                text.append(arg.as_str());
                text
            },
        }
    }
}

/// `-f` or `--file`.
pub open spec fn is_file_flag(s: Seq<char>) -> bool {
    s == "-f"@ || s == "--file"@
}

/// The text starts with a dash.
pub open spec fn starts_with_dash(s: Seq<char>) -> bool {
    s.len() > 0 && s[0] == '-'
}

/// Whether two texts are equal, character by character.
fn text_equals(s: &str, t: &str) -> (r: bool)
    ensures
        r == (s@ == t@),
{
    let n = s.unicode_len();
    if n != t.unicode_len() {
        return false;
    }
    let mut i: usize = 0;
    while i < n
        invariant
            n == s@.len(),
            n == t@.len(),
            i <= n,
            forall|j: int| 0 <= j < i ==> s@[j] == t@[j],
        decreases n - i,
    {
        if s.get_char(i) != t.get_char(i) {
            return false;
        }
        i = i + 1;
    }
    assert(s@ =~= t@);
    true
}

/// Reads the file path from the arguments that follow the program's name:
/// `-f PATH`, `--file PATH` or a bare `PATH` as the first argument; nothing
/// when there are no arguments. Arguments after the first that matters are
/// ignored.
pub fn parse_cli_file(args: &Vec<String>) -> (r: Result<Option<String>, CliError>)
    ensures
        args@.len() == 0 ==> r matches Ok(None),
        args@.len() > 0 && is_file_flag(args@[0]@) && args@.len() > 1 ==> (r matches Ok(Some(p))
            && p@ == args@[1]@),
        args@.len() == 1 && is_file_flag(args@[0]@) ==> (r matches Err(CliError::MissingPath(a))
            && a@ == args@[0]@),
        args@.len() > 0 && !is_file_flag(args@[0]@) && !starts_with_dash(args@[0]@) ==> (r matches Ok(
            Some(p),
        ) && p@ == args@[0]@),
        args@.len() > 0 && !is_file_flag(args@[0]@) && starts_with_dash(args@[0]@) ==> (r matches Err(
            CliError::UnknownArgument(a),
        ) && a@ == args@[0]@),
{
    if args.len() == 0 {
        return Ok(None);
    }
    let arg = args[0].as_str();
    if text_equals(arg, "-f") || text_equals(arg, "--file") {
        if args.len() > 1 {
            Ok(Some(args[1].clone()))
        } else {
            Err(CliError::MissingPath(args[0].clone()))
        }
    } else if arg.unicode_len() > 0 && arg.get_char(0) == '-' {
        Err(CliError::UnknownArgument(args[0].clone()))
    } else {
        Ok(Some(args[0].clone()))
    }
}

} // verus!
