//! Laws of the line filter, proved once and for all inputs.

use vstd::prelude::*;

use crate::matcher::{filter_matching, line_match};

verus! {

/// Every line the filter keeps matches the query.
pub proof fn lemma_filter_all_match(query: Seq<char>, lines: Seq<String>, ignore_case: bool)
    ensures
        forall|k: int|
            0 <= k < filter_matching(query, lines, ignore_case).len() ==> line_match(
                query,
                #[trigger] filter_matching(query, lines, ignore_case)[k]@,
                ignore_case,
            ),
    decreases lines.len(),
{
    if lines.len() > 0 {
        lemma_filter_all_match(query, lines.drop_last(), ignore_case);
        let kept = filter_matching(query, lines, ignore_case);
        let rest = filter_matching(query, lines.drop_last(), ignore_case);
        assert forall|k: int| 0 <= k < kept.len() implies line_match(
            query,
            kept[k]@,
            ignore_case,
        ) by {
            if line_match(query, lines.last()@, ignore_case) {
                assert(kept == rest.push(lines.last()));
                if k < rest.len() {
                    assert(kept[k] == rest[k]);
                } else {
                    assert(kept[k] == lines.last());
                }
            } else {
                assert(kept == rest);
            }
        }
    }
}

/// Filtering a sequence whose lines all match returns it unchanged.
pub proof fn lemma_filter_all_matching_identity(
    query: Seq<char>,
    lines: Seq<String>,
    ignore_case: bool,
)
    requires
        forall|k: int| 0 <= k < lines.len() ==> line_match(
            query,
            #[trigger] lines[k]@,
            ignore_case,
        ),
    ensures
        filter_matching(query, lines, ignore_case) == lines,
    decreases lines.len(),
{
    if lines.len() == 0 {
        assert(filter_matching(query, lines, ignore_case) =~= lines);
    } else {
        assert forall|k: int| 0 <= k < lines.drop_last().len() implies line_match(
            query,
            #[trigger] lines.drop_last()[k]@,
            ignore_case,
        ) by {
            assert(lines.drop_last()[k] == lines[k]);
        }
        lemma_filter_all_matching_identity(query, lines.drop_last(), ignore_case);
        assert(line_match(query, lines[lines.len() - 1]@, ignore_case));
        assert(filter_matching(query, lines, ignore_case) =~= lines);
    }
}

/// Idempotence: filtering an already-filtered result with the same query and
/// case mode returns it unchanged.
pub proof fn lemma_filter_idempotent(query: Seq<char>, lines: Seq<String>, ignore_case: bool)
    ensures
        filter_matching(query, filter_matching(query, lines, ignore_case), ignore_case)
            == filter_matching(query, lines, ignore_case),
{
    lemma_filter_all_match(query, lines, ignore_case);
    lemma_filter_all_matching_identity(
        query,
        filter_matching(query, lines, ignore_case),
        ignore_case,
    );
}

/// Case-insensitive filtering keeps at least as many lines as case-sensitive
/// filtering with the same query, provided lowercasing preserves each
/// case-sensitive match. That proviso holds of everyday text; Unicode
/// lowercasing is context dependent, so on exotic inputs a match can be lost
/// by folding both sides.
pub proof fn lemma_case_insensitive_superset(query: Seq<char>, lines: Seq<String>)
    requires
        forall|k: int|
            0 <= k < lines.len() && line_match(query, #[trigger] lines[k]@, false) ==> line_match(
                query,
                lines[k]@,
                true,
            ),
    ensures
        filter_matching(query, lines, false).len() <= filter_matching(query, lines, true).len(),
    decreases lines.len(),
{
    if lines.len() > 0 {
        assert forall|k: int|
            0 <= k < lines.drop_last().len() && line_match(
                query,
                #[trigger] lines.drop_last()[k]@,
                false,
            ) implies line_match(query, lines.drop_last()[k]@, true) by {
            assert(lines.drop_last()[k] == lines[k]);
        }
        lemma_case_insensitive_superset(query, lines.drop_last());
        assert(lines[lines.len() - 1] == lines.last());
    }
}

} // verus!
