//! What a scanner is.
use crate::models::Dependency;
use vstd::prelude::*;

verus! {

/// Something that finds dependencies of the host.
pub trait DependencyScanner {
    /// Whether a scan of this scanner may come to `found`. A scanner that
    /// says nothing of itself may find anything.
    open spec fn may_find(&self, found: Seq<Dependency>) -> bool {
        true
    }

    fn scan(&self) -> (found: Vec<Dependency>)
        ensures
            self.may_find(found@),
    ;
}

} // verus!
