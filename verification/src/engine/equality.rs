//! When two engines count as equal.
use crate::engine::CollectionEngine;
use vstd::prelude::*;
use vstd::std_specs::cmp::PartialEqSpecImpl;

verus! {

/// Two engines are equal when they were built from configurations that say
/// the same, wherever each of them stands in its work.
impl PartialEq for CollectionEngine {
    fn eq(&self, other: &Self) -> (r: bool) {
        self.config().same_as(other.config())
    }
}

impl PartialEqSpecImpl for CollectionEngine {
    open spec fn obeys_eq_spec() -> bool {
        true
    }

    open spec fn eq_spec(&self, other: &Self) -> bool {
        self@.config.agrees(&other@.config)
    }
}

} // verus!
