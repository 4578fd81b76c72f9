//! The ingestion step: classify a file by its path, parse its whole contents,
//! and run the idempotent upsert — all of one file inside one conceptual
//! transaction. A file that fails to parse changes nothing and counts zero
//! new hands; the caller decides what to log and whom to notify.

use vstd::prelude::*;

use crate::parser::parse_hands;
use crate::prim::find_sub;
use crate::store::{spec_insert_hands, spec_insert_summary, Store, StoreV};
use crate::summary_parser::TournamentSummary;
use crate::text::str_to_chars;

verus! {

/// Whether a path names a tournament-summary file: it contains the word
/// `summary`.
pub open spec fn spec_is_summary_path(path: Seq<char>) -> bool {
    find_sub(path, 0, "summary"@) is Some
}

/// Classifies a file by its path.
pub fn is_summary_path(path: &str) -> (r: bool)
    ensures
        r == spec_is_summary_path(path@),
{
    let v = str_to_chars(path);
    match crate::prim::find_pattern(v.as_slice(), 0, "summary") {
        Some(_) => true,
        None => false,
    }
}

/// What one file does to the store: a summary file inserts its summary when
/// it parses (counting zero new hands either way); a hand-history file
/// inserts its hands when it parses; a file that fails to parse changes
/// nothing.
pub open spec fn spec_ingest(store: StoreV, path: Seq<char>, contents: Seq<char>) -> (StoreV,
    int) {
    if spec_is_summary_path(path) {
        match crate::summary_parser::spec_parse_tournament_summary(contents, 0) {
            Some((_, ts)) => (spec_insert_summary(store, ts).0, 0int),
            None => (store, 0int),
        }
    } else {
        match crate::parser::spec_parse_hands(contents, 0) {
            Some((_, hands)) => spec_insert_hands(store, hands),
            None => (store, 0int),
        }
    }
}

/// Ingests one file's contents into the store and returns the number of
/// newly inserted hands. A parse failure leaves the store unchanged —
/// previously committed hands are retained — and an empty hand-history file
/// inserts nothing.
pub fn ingest_file(store: &mut Store, path: &str, contents: &str) -> (r: usize)
    ensures
        (final(store)@, r as int) == spec_ingest(old(store)@, path@, contents@),
{
    if is_summary_path(path) {
        match TournamentSummary::parse(contents) {
            Ok((_, summary)) => {
                let _ = store.insert_summary(summary);
                0
            },
            Err(_) => 0,
        }
    } else {
        match parse_hands(contents) {
            Ok((_, hands)) => store.insert_hands(&hands),
            Err(_) => 0,
        }
    }
}

} // verus!
