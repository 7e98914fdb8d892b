//! The line filter: which lines of a sequence contain a query, in order.

use vstd::prelude::*;

use crate::config::Config;
use crate::text::{chars_of, contains_chars, is_substring, lower_of, lowercase};

verus! {

/// Whether `line` matches `query`: a literal substring test, on the
/// lowercased texts when `ignore_case` is set.
pub open spec fn line_match(query: Seq<char>, line: Seq<char>, ignore_case: bool) -> bool {
    if ignore_case {
        is_substring(lower_of(query), lower_of(line))
    } else {
        is_substring(query, line)
    }
}

/// The sub-sequence of `lines` whose elements match `query`, in input order.
pub open spec fn filter_matching(
    query: Seq<char>,
    lines: Seq<String>,
    ignore_case: bool,
) -> Seq<String>
    decreases lines.len(),
{
    if lines.len() == 0 {
        Seq::empty()
    } else {
        let rest = filter_matching(query, lines.drop_last(), ignore_case);
        if line_match(query, lines.last()@, ignore_case) {
            rest.push(lines.last())
        } else {
            rest
        }
    }
}

/// Case-sensitive search: every line of `lines` that contains `query`,
/// in input order.
pub fn search(query: &str, lines: &Vec<String>) -> (found: Vec<String>)
    ensures
        found@ == filter_matching(query@, lines@, false),
{
    let q = chars_of(query);
    let mut found: Vec<String> = Vec::new();
    let mut i: usize = 0;
    while i < lines.len()
        invariant
            i <= lines@.len(),
            q@ == query@,
            found@ == filter_matching(query@, lines@.subrange(0, i as int), false),
        decreases lines@.len() - i,
    {
        let line_chars = chars_of(lines[i].as_str());
        if contains_chars(&line_chars, &q) {
            found.push(lines[i].clone());
        }
        proof {
            assert(lines@.subrange(0, (i + 1) as int).drop_last() =~= lines@.subrange(
                0,
                i as int,
            ));
        }
        i += 1;
    }
    proof {
        assert(lines@.subrange(0, lines@.len() as int) =~= lines@);
    }
    found
}

/// Case-insensitive search: the query is lowered once, every line as it is
/// tested; a line is kept when its lowered text contains the lowered query.
pub fn search_case_insensitive(query: &str, lines: &Vec<String>) -> (found: Vec<String>)
    ensures
        found@ == filter_matching(query@, lines@, true),
{
    let lowered_query = lowercase(query);
    let q = chars_of(lowered_query.as_str());
    let mut found: Vec<String> = Vec::new();
    let mut i: usize = 0;
    while i < lines.len()
        invariant
            i <= lines@.len(),
            q@ == lower_of(query@),
            found@ == filter_matching(query@, lines@.subrange(0, i as int), true),
        decreases lines@.len() - i,
    {
        let lowered_line = lowercase(lines[i].as_str());
        let line_chars = chars_of(lowered_line.as_str());
        if contains_chars(&line_chars, &q) {
            found.push(lines[i].clone());
        }
        proof {
            assert(lines@.subrange(0, (i + 1) as int).drop_last() =~= lines@.subrange(
                0,
                i as int,
            ));
        }
        i += 1;
    }
    proof {
        assert(lines@.subrange(0, lines@.len() as int) =~= lines@);
    }
    found
}

/// Dispatches to the filter that the configuration's case mode calls for.
/// The caller prints the returned lines; nothing is printed here.
pub fn run(config: &Config, lines: &Vec<String>) -> (found: Vec<String>)
    ensures
        found@ == filter_matching(config.query@, lines@, config.ignore_case),
{
    if config.ignore_case {
        search_case_insensitive(config.query.as_str(), lines)
    } else {
        search(config.query.as_str(), lines)
    }
}

} // verus!
