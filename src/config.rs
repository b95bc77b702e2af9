//! The configuration model: an ordered set of plugins, each with its declared
//! version, source, optional flag and post-install commands.

use vstd::prelude::*;
use crate::text::same_text;

verus! {

/// The views of a sequence of strings.
pub open spec fn texts(v: Seq<String>) -> Seq<Seq<char>> {
    v.map_values(|s: String| s@)
}

/// What is declared for one plugin.
pub struct PluginSpec {
    /// Version constraint: exact, `latest`, `stable`, or a range.
    pub version: String,
    /// `official`, a named alias, or a URL.
    pub source: String,
    pub optional: bool,
    /// Shell commands run in order after installation.
    pub post_install: Vec<String>,
}

/// One named plugin of a configuration.
pub struct PluginEntry {
    pub name: String,
    pub spec: PluginSpec,
}

/// Why a configuration could not be had.
pub enum ConfigError {
    /// The configuration file does not exist.
    NotFound,
    /// The file's contents do not decode into a configuration.
    Parse(String),
}

/// A configuration: plugins in declaration order, names unique.
pub struct Config {
    pub plugins: Vec<PluginEntry>,
}

impl Config {
    /// Names of the plugins, in order.
    pub open spec fn names(&self) -> Seq<Seq<char>> {
        self.plugins@.map_values(|e: PluginEntry| e.name@)
    }

    /// No two plugins share a name.
    pub open spec fn wf(&self) -> bool {
        forall|i: int, j: int|
            0 <= i < self.plugins@.len() && 0 <= j < self.plugins@.len() && i != j
                ==> self.plugins@[i].name@ != self.plugins@[j].name@
    }

    /// `name` is declared at position `k`.
    pub open spec fn declared_at(&self, name: Seq<char>, k: int) -> bool {
        0 <= k < self.plugins@.len() && self.plugins@[k].name@ == name
    }

    /// `name` is declared somewhere.
    pub open spec fn declares(&self, name: Seq<char>) -> bool {
        exists|k: int| self.declared_at(name, k)
    }

    /// A configuration without plugins.
    pub fn new() -> (c: Config)
        ensures
            c.wf(),
            c.plugins@.len() == 0,
    {
        Config { plugins: Vec::new() }
    }

    /// Position of the plugin called `name`, if it is declared.
    pub fn position(&self, name: &str) -> (r: Option<usize>)
        requires
            self.wf(),
        ensures
            r matches Some(k) ==> self.declared_at(name@, k as int),
            r is None <==> !self.declares(name@),
    {
        let mut i: usize = 0;
        while i < self.plugins.len()
            invariant
                i <= self.plugins@.len(),
                forall|k: int| 0 <= k < i ==> !self.declared_at(name@, k),
            decreases self.plugins@.len() - i,
        {
            if same_text(self.plugins[i].name.as_str(), name) {
                assert(self.declared_at(name@, i as int));
                return Some(i);
            }
            i = i + 1;
        }
        None
    }

    /// Declares plugin `name`. A name declared before keeps its position and
    /// takes the new declaration; a new name goes last.
    pub fn insert(&mut self, name: String, spec: PluginSpec)
        requires
            old(self).wf(),
        ensures
            final(self).wf(),
            old(self).declares(name@) ==> exists|k: int|
                #![trigger old(self).plugins@[k]]
                old(self).declared_at(name@, k) && final(self).plugins@.len()
                    == old(self).plugins@.len() && final(self).plugins@[k].name@ == name@
                    && final(self).plugins@[k].spec == spec && forall|i: int|
                    0 <= i < old(self).plugins@.len() && i != k ==> final(self).plugins@[i]
                        == old(self).plugins@[i],
            !old(self).declares(name@) ==> final(self).plugins@ == old(self).plugins@.push(
                PluginEntry { name, spec },
            ),
    {
        let ghost before = self.plugins@;
        match self.position(name.as_str()) {
            Some(k) => {
                self.plugins.set(k, PluginEntry { name, spec });
                assert(self.declared_at(name@, k as int));
                assert forall|i: int| 0 <= i < before.len() implies #[trigger] self.plugins@[i].name@
                    == before[i].name@ by {}
            },
            None => {
                self.plugins.push(PluginEntry { name, spec });
                assert forall|i: int| 0 <= i < before.len() implies before[i].name@
                    != self.plugins@[before.len() as int].name@ by {
                    assert(!old(self).declared_at(name@, i));
                }
            },
        }
    }
}

} // verus!
