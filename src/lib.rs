use vstd::prelude::*;

pub mod eligibility;
pub mod identity;
pub mod ranking;
pub mod relay;
pub mod tally;
pub mod text;

verus! {

/// Number of candidates kept by the shortlist.
pub const SHORTLIST_LEN: usize = 20;

} // verus!
