//! The order of field elements by their canonical representatives.

use crate::field::CamlBn382Fq;
use core::cmp::Ordering;
use vstd::prelude::*;

verus! {

impl PartialOrd for CamlBn382Fq {
    /// Compares two elements by their canonical representatives.
    fn partial_cmp(&self, other: &Self) -> (r: Option<Ordering>) {
        if self.below(other) {
            Some(Ordering::Less)
        } else if other.below(self) {
            Some(Ordering::Greater)
        } else {
            Some(Ordering::Equal)
        }
    }
}

impl vstd::std_specs::cmp::PartialOrdSpecImpl for CamlBn382Fq {
    open spec fn obeys_partial_cmp_spec() -> bool {
        true
    }

    open spec fn partial_cmp_spec(&self, other: &Self) -> Option<Ordering> {
        if self@ < other@ {
            Some(Ordering::Less)
        } else if self@ > other@ {
            Some(Ordering::Greater)
        } else {
            Some(Ordering::Equal)
        }
    }
}

} // verus!
