//! The scanning agent: a set of scanners that are run one after the other.
use crate::models::{Config, Dependency};
use crate::traits::DependencyScanner;
use vstd::prelude::*;

verus! {

/// Runs its scanners and collects what they find.
pub struct Agent {
    config: Option<Config>,
    scanners: Vec<Box<dyn DependencyScanner>>,
}

/// The finds of all scanners as one run: those of the first scanner, then
/// those of the second, and so on.
pub fn gather(found: Vec<Vec<Dependency>>) -> (all: Vec<Dependency>)
    ensures
        all@ == found@.map_values(|part: Vec<Dependency>| part@).flatten(),
{
    let ghost parts = found@.map_values(|part: Vec<Dependency>| part@);
    let mut all: Vec<Dependency> = Vec::new();
    let mut i: usize = 0;
    while i < found.len()
        invariant
            i <= found.len(),
            parts == found@.map_values(|part: Vec<Dependency>| part@),
            all@ == parts.take(i as int).flatten(),
        decreases found.len() - i,
    {
        let part = &found[i];
        let ghost before = all@;
        let mut k: usize = 0;
        while k < part.len()
            invariant
                k <= part.len(),
                all@ == before + part@.take(k as int),
            decreases part.len() - k,
        {
            all.push(Dependency { host: part[k].host.clone(), port: part[k].port });
            k += 1;
        }
        proof {
            assert(parts.take(i + 1) =~= parts.take(i as int).push(parts[i as int]));
            parts.take(i as int).lemma_flatten_push(parts[i as int]);
        }
        i += 1;
    }
    assert(parts.take(i as int) =~= parts);
    all
}

impl Agent {
    /// The scanners, in the order in which they run.
    pub closed spec fn scanners(&self) -> Seq<Box<dyn DependencyScanner>> {
        self.scanners@
    }

    /// The settings that the agent was given.
    pub closed spec fn config(&self) -> Option<Config> {
        self.config
    }

    pub fn new(scanners: Vec<Box<dyn DependencyScanner>>, config: Option<Config>) -> (agent: Self)
        ensures
            agent.scanners() == scanners@,
            agent.config() == config,
    {
        Self { scanners, config }
    }

    /// Runs the scanners in the order in which they were added, and hands
    /// back what they found, the finds of the first scanner first.
    pub fn scan(&self) -> (all: Vec<Dependency>)
        ensures
            exists|parts: Seq<Seq<Dependency>>|
                #![auto]
                self.may_find(parts) && all@ == parts.flatten(),
    {
        let mut found: Vec<Vec<Dependency>> = Vec::new();
        let mut i: usize = 0;
        while i < self.scanners.len()
            invariant
                i <= self.scanners.len(),
                found@.len() == i,
                forall|j: int|
                    0 <= j < i ==> (#[trigger] self.scanners@[j]).may_find(found@[j]@),
            decreases self.scanners.len() - i,
        {
            let part = self.scanners[i].scan();
            found.push(part);
            i += 1;
        }
        let ghost parts = found@.map_values(|part: Vec<Dependency>| part@);
        let all = gather(found);
        assert(self.may_find(parts));
        all
    }

    /// Adds a scanner after those that are there.
    pub fn add_scanner(&mut self, scanner: Box<dyn DependencyScanner>)
        ensures
            final(self).scanners() == old(self).scanners().push(scanner),
            final(self).config() == old(self).config(),
    {
        self.scanners.push(scanner);
    }

    /// Whether `parts` holds, for each scanner in its order, something that
    /// a scan of that scanner may come to.
    pub open spec fn may_find(&self, parts: Seq<Seq<Dependency>>) -> bool {
        &&& parts.len() == self.scanners().len()
        &&& forall|i: int|
            0 <= i < parts.len() ==> (#[trigger] self.scanners()[i]).may_find(parts[i])
    }
}

} // verus!
