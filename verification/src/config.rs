//! The configuration that the engine is built from.
use crate::json::{
    distinct, distinct_keys, has_distinct_keys, members_view, same_members, Member,
};
use crate::text::same_text;
use vstd::prelude::*;

verus! {

/// Where results are sent.
#[derive(Debug, Clone, PartialEq, Eq)]
pub struct ServerConfig {
    pub url: String,
    /// Seconds after which a request to the server is given up.
    pub timeout: u64,
}

/// Settings of the agent as a whole.
#[derive(Debug, Clone, PartialEq, Eq)]
pub struct AgentConfig {
    /// Base directories, searched in this order for a module's executable.
    pub module_paths: Vec<String>,
    pub log_level: String,
    /// Seconds between two runs of a module that names no interval of its own.
    pub default_interval: u64,
}

/// Settings of one module.
#[derive(Debug, Clone, PartialEq, Eq)]
pub struct ModuleConfig {
    pub description: Option<String>,
    /// Seconds between two runs; `None` takes the agent's default.
    pub interval: Option<u64>,
    /// Arguments handed to the module, as the members of one JSON object.
    pub args: Option<Vec<Member>>,
}

/// A module under its name.
#[derive(Debug, Clone, PartialEq, Eq)]
pub struct ModuleEntry {
    pub name: String,
    pub module: ModuleConfig,
}

/// The whole configuration. Modules are kept in a fixed order, which is the
/// order in which a tick looks at them.
#[derive(Debug, Clone, PartialEq, Eq)]
pub struct Config {
    pub server: ServerConfig,
    pub agent: AgentConfig,
    pub modules: Vec<ModuleEntry>,
}

impl Config {
    /// Seconds between two runs of module `index`.
    pub open spec fn spec_interval(&self, index: int) -> u64 {
        match self.modules@[index].module.interval {
            Some(seconds) => seconds,
            None => self.agent.default_interval,
        }
    }

    /// Seconds between two runs of module `index`: its own interval, or the
    /// agent's default where it names none.
    pub fn interval(&self, index: usize) -> (seconds: u64)
        requires
            index < self.modules@.len(),
        ensures
            seconds == self.spec_interval(index as int),
    {
        match self.modules[index].module.interval {
            Some(seconds) => seconds,
            None => self.agent.default_interval,
        }
    }
}

/// Whether two optional texts are the same.
pub open spec fn same_option(a: Option<String>, b: Option<String>) -> bool {
    match (a, b) {
        (Some(x), Some(y)) => x@ == y@,
        (None, None) => true,
        _ => false,
    }
}

/// Whether two runs of texts are the same.
pub open spec fn same_texts(a: Seq<String>, b: Seq<String>) -> bool {
    a.len() == b.len() && forall|i: int| 0 <= i < a.len() ==> (#[trigger] a[i])@ == b[i]@
}

impl ModuleEntry {
    /// Whether two entries name the same module with the same settings.
    pub open spec fn agrees(&self, other: &ModuleEntry) -> bool {
        &&& self.name@ == other.name@
        &&& same_option(self.module.description, other.module.description)
        &&& self.module.interval == other.module.interval
        &&& match (self.module.args, other.module.args) {
            (Some(x), Some(y)) => members_view(x@) == members_view(y@),
            (None, None) => true,
            _ => false,
        }
    }

    /// Computes `agrees`.
    pub fn same_as(&self, other: &ModuleEntry) -> (r: bool)
        ensures
            r == self.agrees(other),
    {
        if !same_text(self.name.as_str(), other.name.as_str()) {
            return false;
        }
        let descriptions = match (&self.module.description, &other.module.description) {
            (Some(x), Some(y)) => same_text(x.as_str(), y.as_str()),
            (None, None) => true,
            _ => false,
        };
        let intervals = match (self.module.interval, other.module.interval) {
            (Some(x), Some(y)) => x == y,
            (None, None) => true,
            _ => false,
        };
        let args = match (&self.module.args, &other.module.args) {
            (Some(x), Some(y)) => same_members(x, y),
            (None, None) => true,
            _ => false,
        };
        descriptions && intervals && args
    }
}

impl Config {
    /// Whether two configurations say the same: the same server, the same
    /// settings of the agent, and the same modules in the same order.
    pub open spec fn agrees(&self, other: &Config) -> bool {
        &&& self.server.url@ == other.server.url@
        &&& self.server.timeout == other.server.timeout
        &&& same_texts(self.agent.module_paths@, other.agent.module_paths@)
        &&& self.agent.log_level@ == other.agent.log_level@
        &&& self.agent.default_interval == other.agent.default_interval
        &&& self.modules@.len() == other.modules@.len()
        &&& forall|i: int|
            0 <= i < self.modules@.len() ==> (#[trigger] self.modules@[i]).agrees(
                &other.modules@[i],
            )
    }

    /// Computes `agrees`.
    pub fn same_as(&self, other: &Config) -> (r: bool)
        ensures
            r == self.agrees(other),
    {
        if !same_text(self.server.url.as_str(), other.server.url.as_str())
            || self.server.timeout != other.server.timeout || !same_text(
            self.agent.log_level.as_str(),
            other.agent.log_level.as_str(),
        ) || self.agent.default_interval != other.agent.default_interval
            || self.agent.module_paths.len() != other.agent.module_paths.len()
            || self.modules.len() != other.modules.len() {
            return false;
        }
        let mut i: usize = 0;
        while i < self.agent.module_paths.len()
            invariant
                i <= self.agent.module_paths.len(),
                self.agent.module_paths.len() == other.agent.module_paths.len(),
                forall|j: int|
                    0 <= j < i ==> (#[trigger] self.agent.module_paths@[j])@
                        == other.agent.module_paths@[j]@,
            decreases self.agent.module_paths.len() - i,
        {
            if !same_text(
                self.agent.module_paths[i].as_str(),
                other.agent.module_paths[i].as_str(),
            ) {
                return false;
            }
            i += 1;
        }
        let mut k: usize = 0;
        while k < self.modules.len()
            invariant
                k <= self.modules.len(),
                self.modules.len() == other.modules.len(),
                same_texts(self.agent.module_paths@, other.agent.module_paths@),
                forall|j: int|
                    0 <= j < k ==> (#[trigger] self.modules@[j]).agrees(&other.modules@[j]),
            decreases self.modules.len() - k,
        {
            if !self.modules[k].same_as(&other.modules[k]) {
                return false;
            }
            k += 1;
        }
        true
    }
}

impl Config {
    /// The names of the modules, in their order.
    pub open spec fn names(&self) -> Seq<Seq<char>> {
        Seq::new(self.modules@.len(), |i: int| self.modules@[i].name@)
    }

    /// Whether the configuration is one that a configuration document can
    /// spell: every module has a name of its own, and no name stands twice
    /// among the arguments of a module.
    pub open spec fn well_formed(&self) -> bool {
        &&& distinct(self.names())
        &&& forall|i: int|
            0 <= i < self.modules@.len() ==> match (#[trigger] self.modules@[i]).module.args {
                Some(args) => distinct_keys(members_view(args@)),
                None => true,
            }
    }

    /// Computes `well_formed`.
    pub fn is_well_formed(&self) -> (r: bool)
        ensures
            r == self.well_formed(),
    {
        let ghost names = self.names();
        let mut j: usize = 0;
        while j < self.modules.len()
            invariant
                j <= self.modules.len(),
                names == self.names(),
                forall|a: int, b: int| 0 <= a < b < j ==> names[a] != names[b],
                forall|i: int|
                    0 <= i < j ==> match (#[trigger] self.modules@[i]).module.args {
                        Some(args) => distinct_keys(members_view(args@)),
                        None => true,
                    },
            decreases self.modules.len() - j,
        {
            let args_fine = match &self.modules[j].module.args {
                Some(args) => has_distinct_keys(args),
                None => true,
            };
            if !args_fine {
                return false;
            }
            let mut i: usize = 0;
            while i < j
                invariant
                    i <= j < self.modules.len(),
                    names == self.names(),
                    forall|a: int| 0 <= a < i ==> names[a] != names[j as int],
                decreases j - i,
            {
                if same_text(self.modules[i].name.as_str(), self.modules[j].name.as_str()) {
                    assert(names[i as int] == names[j as int]);
                    return false;
                }
                i += 1;
            }
            j += 1;
        }
        true
    }
}

} // verus!
