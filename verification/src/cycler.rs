//! The one-shot cycle command's decision: advance the persisted level to
//! the next entry of the vocabulary's cyclic order.

use vstd::prelude::*;
use crate::level::{PowerLevel, spec_next_level, spec_parse_level, parse_level, default_level};

verus! {

/// The level the persisted one denotes for cycling purposes: a text outside
/// the vocabulary counts as the vocabulary's first entry.
pub open spec fn spec_cycle_base(s: Seq<char>) -> PowerLevel {
    match spec_parse_level(s) {
        Some(l) => l,
        None => PowerLevel::Fix,
    }
}

/// The level the cycle command persists, given what reading the state file
/// yielded: the cyclic successor of the recognized level, the successor of
/// the vocabulary's first entry when the text is unrecognized, and the
/// default level when the file could not be read at all.
pub fn cycle_target(read: Option<&str>) -> (next: PowerLevel)
    ensures
        read matches Some(s) ==> next == spec_next_level(spec_cycle_base(s@)),
        read is None ==> next == PowerLevel::Mid,
{
    match read {
        None => default_level(),
        Some(s) => {
            let base = match parse_level(s) {
                Some(l) => l,
                None => PowerLevel::Fix,
            };
            base.next()
        },
    }
}

} // verus!
