use crate::source_type::SurelloSourceType;
use vstd::prelude::*;

verus! {

/// One immutable record of a file that was loaded: the pair of its path and
/// source type is the key under which the load is remembered.
#[derive(Debug, Clone, PartialEq, Eq)]
pub struct SurelloHistoryEntry {
    pub source_path: String,
    pub source_type: SurelloSourceType,
    pub execution_datetime_utc: String,
    pub execution_result: String,
}

/// Whether `e` records the file `p` loaded as `t`.
pub open spec fn has_key(e: SurelloHistoryEntry, p: Seq<char>, t: SurelloSourceType) -> bool {
    e.source_path@ == p && e.source_type == t
}

/// Whether the history `h` holds an entry for the file `p` loaded as `t`.
pub open spec fn was_executed(h: Seq<SurelloHistoryEntry>, p: Seq<char>, t: SurelloSourceType) -> bool {
    exists|i: int| 0 <= i < h.len() && #[trigger] has_key(h[i], p, t)
}

/// Looks up the first entry of `history` for the file `path` loaded as
/// `source_type`.
pub fn find_previous(history: &Vec<SurelloHistoryEntry>, path: &str, source_type: SurelloSourceType) -> (r:
    Option<usize>)
    ensures
        match r {
            Some(i) => i < history@.len() && has_key(history@[i as int], path@, source_type)
                && forall|j: int| 0 <= j < i ==> !#[trigger] has_key(history@[j], path@, source_type),
            None => !was_executed(history@, path@, source_type),
        },
{
    let wanted = String::from_str(path);
    let mut i: usize = 0;
    while i < history.len()
        invariant
            wanted@ == path@,
            i <= history@.len(),
            forall|j: int| 0 <= j < i ==> !#[trigger] has_key(history@[j], path@, source_type),
        decreases history@.len() - i,
    {
        if history[i].source_type == source_type && history[i].source_path == wanted {
            return Some(i);
        }
        i = i + 1;
    }
    None
}

/// The entry that records a load of `path` as `source_type`, made at `at`
/// with the outcome `result`.
pub fn history_entry(path: &str, source_type: SurelloSourceType, at: String, result: &str) -> (r:
    SurelloHistoryEntry)
    ensures
        r.source_path@ == path@,
        r.source_type == source_type,
        r.execution_datetime_utc == at,
        r.execution_result@ == result@,
{
    SurelloHistoryEntry {
        source_path: String::from_str(path),
        source_type,
        execution_datetime_utc: at,
        execution_result: String::from_str(result),
    }
}

/// Relies on chrono's `Utc::now` and `DateTime::to_rfc3339`: the current UTC
/// time in RFC 3339 form. Nothing is stated of it, as it depends on the clock.
#[verifier::external_body]
pub(crate) fn utc_now_rfc3339() -> String {
    chrono::Utc::now().to_rfc3339()
}

} // verus!
