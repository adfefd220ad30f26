//! The order of the levels by severity, as `<` and `<=` see it: a level is
//! less than another if it is the more severe of the two.

use std::cmp::Ordering;
use vstd::prelude::*;
use vstd::std_specs::cmp::PartialOrdIs;
use vstd::std_specs::cmp::PartialOrdSpecImpl;

use crate::level::Level;

verus! {

impl PartialOrd for Level {
    fn partial_cmp(&self, other: &Level) -> (r: Option<Ordering>) {
        let mine: u8 = self.ordinal();
        let theirs: u8 = other.ordinal();
        if mine < theirs {
            Some(Ordering::Less)
        } else if mine > theirs {
            Some(Ordering::Greater)
        } else {
            Some(Ordering::Equal)
        }
    }
}

impl PartialOrdSpecImpl for Level {
    open spec fn obeys_partial_cmp_spec() -> bool {
        true
    }

    open spec fn partial_cmp_spec(&self, other: &Level) -> Option<Ordering> {
        if self.rank() < other.rank() {
            Some(Ordering::Less)
        } else if self.rank() > other.rank() {
            Some(Ordering::Greater)
        } else {
            Some(Ordering::Equal)
        }
    }
}

/// Severity orders the levels totally: of two levels one is at least as
/// severe as the other, two that are each at least as severe as the other are
/// one level, and the relation is transitive.
pub proof fn lemma_severity_is_a_total_order(a: Level, b: Level, c: Level)
    ensures
        a.at_least(b) || b.at_least(a),
        a.at_least(b) && b.at_least(a) ==> a == b,
        a.at_least(b) && b.at_least(c) ==> a.at_least(c),
        a.at_least(b) <==> a.is_le(&b),
        a.at_least(b) && a != b <==> a.is_lt(&b),
{
}

} // verus!
