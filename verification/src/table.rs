//! What the tables need of a row besides its cells.
use vstd::prelude::*;

verus! {

/// How a row is shown: the style that the table picks for it.
#[derive(Debug, Clone, Copy, PartialEq, Eq)]
pub enum Tone {
    Normal,
    Healthy,
    Unhealthy,
}

/// Rows that a text filter picks.
pub trait Filter {
    /// Whether the filter picks the row.
    spec fn picks(&self, filter: Seq<char>) -> bool;

    fn matches(&self, filter: &str) -> (b: bool)
        ensures
            b == self.picks(filter@),
    ;
}

} // verus!
