//! The configuration builder: from a raw argument list to a validated
//! configuration, a help request, or a descriptive error.

use vstd::prelude::*;

use crate::text::str_eq;
use vstd::string::StringExecFns;

verus! {

/// Where the lines to search come from: a named file, or standard input when
/// no file argument was given.
pub enum InputSource {
    FilePath(String),
    StandardInput,
}

/// A validated run configuration, built once from the process arguments and
/// immutable thereafter.
pub struct Config {
    pub query: String,
    pub ignore_case: bool,
    pub input: InputSource,
}

/// Why no configuration could be built from the argument list.
pub enum BuildError {
    /// The arguments ran out before any query token was found.
    MissingQueryPattern,
    /// `-e` was the last token, so no query followed it.
    MissingQueryAfterFlag,
}

/// Outcome of a successful build: a request for the usage text, or a
/// configuration ready to run.
pub enum Built {
    Usage,
    Ready(Config),
}

/// What parsing an argument list yields, described at the ghost level.
pub ghost enum ParseOutcome {
    Usage,
    MissingQueryPattern,
    MissingQueryAfterFlag,
    Accepted { query: Seq<char>, ignore_case: bool, file: Option<Seq<char>> },
}

/// The parse result once `query` has been chosen with `ignore_case` seen so
/// far: the token at `j`, if any, is the input file path; later tokens are
/// ignored.
pub open spec fn accepted_from(
    args: Seq<String>,
    j: int,
    query: Seq<char>,
    ignore_case: bool,
) -> ParseOutcome {
    ParseOutcome::Accepted {
        query,
        ignore_case,
        file: if j < args.len() {
            Some(args[j]@)
        } else {
            None
        },
    }
}

/// Parsing from token `i` on, flags consumed left to right: `-i` sets the
/// case flag, `-h` asks for the usage text, `-e` takes the next token
/// verbatim as the query, and any other token is the query itself.
pub open spec fn parse_from(args: Seq<String>, i: int, ignore_case: bool) -> ParseOutcome
    decreases args.len() - i,
{
    if i < 0 || i >= args.len() {
        ParseOutcome::MissingQueryPattern
    } else if args[i]@ == "-i"@ {
        parse_from(args, i + 1, true)
    } else if args[i]@ == "-h"@ {
        ParseOutcome::Usage
    } else if args[i]@ == "-e"@ {
        if i + 1 < args.len() {
            accepted_from(args, i + 2, args[i + 1]@, ignore_case)
        } else {
            ParseOutcome::MissingQueryAfterFlag
        }
    } else {
        accepted_from(args, i + 1, args[i]@, ignore_case)
    }
}

/// What building from the whole argument list decides; `args[0]` is the
/// program name and is skipped.
pub open spec fn spec_build(args: Seq<String>) -> ParseOutcome {
    parse_from(args, 1, false)
}

/// The built input source carries the file path the parse chose, or stands
/// for standard input when the parse chose none.
pub open spec fn input_matches(input: InputSource, file: Option<Seq<char>>) -> bool {
    match file {
        Some(path) => input matches InputSource::FilePath(p) && p@ == path,
        None => input is StandardInput,
    }
}

/// The built result carries the parsed query and file, with the case flag
/// ORed with the environment override.
pub open spec fn accepted_config(
    result: Result<Built, BuildError>,
    query: Seq<char>,
    ignore_case: bool,
    file: Option<Seq<char>>,
    env_ignore_case: bool,
) -> bool {
    &&& result matches Ok(Built::Ready(c))
    &&& c.query@ == query
    &&& c.ignore_case == (ignore_case || env_ignore_case)
    &&& input_matches(c.input, file)
}

impl Config {
    /// Parse the whole argument list (`args[0]` is the program name).
    /// `env_ignore_case` says whether the `IGNORE_CASE` environment variable
    /// is set; it is ORed with the `-i` flag. Opening the chosen file is the
    /// caller's task: only the path is recorded here.
    pub fn build(args: &Vec<String>, env_ignore_case: bool) -> (result: Result<Built, BuildError>)
        ensures
            spec_build(args@) is Usage ==> result matches Ok(Built::Usage),
            spec_build(args@) is MissingQueryPattern ==> result matches Err(
                BuildError::MissingQueryPattern,
            ),
            spec_build(args@) is MissingQueryAfterFlag ==> result matches Err(
                BuildError::MissingQueryAfterFlag,
            ),
            spec_build(args@) matches ParseOutcome::Accepted { query, ignore_case, file }
                ==> accepted_config(result, query, ignore_case, file, env_ignore_case),
    {
        let mut ignore_case = false;
        let mut i: usize = 1;
        loop
            invariant
                parse_from(args@, i as int, ignore_case) == spec_build(args@),
            decreases args@.len() - i,
        {
            if i >= args.len() {
                return Err(BuildError::MissingQueryPattern);
            }
            if str_eq(args[i].as_str(), "-i") {
                ignore_case = true;
                i += 1;
            } else if str_eq(args[i].as_str(), "-h") {
                return Ok(Built::Usage);
            } else if str_eq(args[i].as_str(), "-e") {
                if i + 1 < args.len() {
                    let query = args[i + 1].clone();
                    return Ok(Built::Ready(finish(args, i + 2, query, ignore_case, env_ignore_case)));
                } else {
                    return Err(BuildError::MissingQueryAfterFlag);
                }
            } else {
                let query = args[i].clone();
                return Ok(Built::Ready(finish(args, i + 1, query, ignore_case, env_ignore_case)));
            }
        }
    }
}

/// Record the chosen query and the input source: the token at `j`, if any,
/// is the file path; otherwise standard input.
fn finish(
    args: &Vec<String>,
    j: usize,
    query: String,
    ignore_case: bool,
    env_ignore_case: bool,
) -> (c: Config)
    ensures
        c.query@ == query@,
        c.ignore_case == (ignore_case || env_ignore_case),
        input_matches(
            c.input,
            if j < args@.len() {
                Some(args@[j as int]@)
            } else {
                None
            },
        ),
{
    let input = if j < args.len() {
        InputSource::FilePath(args[j].clone())
    } else {
        InputSource::StandardInput
    };
    Config { query, ignore_case: ignore_case || env_ignore_case, input }
}

impl BuildError {
    /// The human-readable message printed for this error.
    pub fn message(&self) -> (s: String)
        ensures
            self is MissingQueryPattern ==> s@ == "Need search pattern"@,
            self is MissingQueryAfterFlag ==> s@ == "Need query string after -e"@,
    {
        match self {
            BuildError::MissingQueryPattern => String::from_str("Need search pattern"),
            BuildError::MissingQueryAfterFlag => String::from_str("Need query string after -e"),
        }
    }
}

/// The usage text printed when `-h` is given.
pub open spec fn spec_usage() -> Seq<char> {
    "Usage: minigrep [-i] [-e] pattern [file]"@
}

/// The usage text as an owned string.
pub fn usage() -> (s: String)
    ensures
        s@ == spec_usage(),
{
    String::from_str("Usage: minigrep [-i] [-e] pattern [file]")
}

} // verus!
