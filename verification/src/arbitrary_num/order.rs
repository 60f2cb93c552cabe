//! The order of exact numbers.
use core::cmp::Ordering;
use vstd::prelude::*;

use crate::arbitrary_num::ArbitaryNum;

verus! {

impl PartialOrd for ArbitaryNum {
    fn partial_cmp(&self, other: &ArbitaryNum) -> (r: Option<Ordering>) {
        if self.is_below(other) {
            Some(Ordering::Less)
        } else if other.is_below(self) {
            Some(Ordering::Greater)
        } else {
            Some(Ordering::Equal)
        }
    }
}

impl vstd::std_specs::cmp::PartialOrdSpecImpl for ArbitaryNum {
    open spec fn obeys_partial_cmp_spec() -> bool {
        true
    }

    /// Numbers are ordered as the rationals they denote.
    open spec fn partial_cmp_spec(&self, other: &ArbitaryNum) -> Option<Ordering> {
        if self@ < other@ {
            Some(Ordering::Less)
        } else if other@ < self@ {
            Some(Ordering::Greater)
        } else {
            Some(Ordering::Equal)
        }
    }
}

} // verus!
