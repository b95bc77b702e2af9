//! Installation: which plugins are selected, what is to be done for each,
//! and the per-plugin reconciliation driver. The driver decides; the caller
//! runs each external action it asks for and reports back how it went.

use vstd::prelude::*;
use crate::config::{texts, Config, ConfigError, PluginEntry};
use crate::source::{get_plugin_source, plugin_source};
use crate::text::{contains, occurs_in};
use crate::version::{resolve_version, resolved_version};

verus! {

/// `s` is the selection of `filter` in `c`: every plugin in order when there
/// is no filter, else the one plugin of that name, or none.
pub open spec fn is_selection(c: &Config, filter: Option<&str>, s: Seq<usize>) -> bool {
    match filter {
        None => s.len() == c.plugins@.len() && forall|i: int| 0 <= i < s.len() ==> s[i] == i,
        Some(n) => if c.declares(n@) {
            s.len() == 1 && c.declared_at(n@, s[0] as int)
        } else {
            s.len() == 0
        },
    }
}

/// Positions of the plugins to install: all of them, or the one named by
/// `filter`. A name that is not declared selects nothing.
pub fn select(config: &Config, filter: Option<&str>) -> (r: Vec<usize>)
    requires
        config.wf(),
    ensures
        is_selection(config, filter, r@),
{
    match filter {
        Some(name) => {
            let mut r: Vec<usize> = Vec::new();
            match config.position(name) {
                Some(k) => {
                    r.push(k);
                },
                None => {},
            }
            r
        },
        None => {
            let mut r: Vec<usize> = Vec::new();
            let n = config.plugins.len();
            while r.len() < n
                invariant
                    n == config.plugins@.len(),
                    r@.len() <= n,
                    forall|i: int| 0 <= i < r@.len() ==> r@[i] == i,
                decreases n - r@.len(),
            {
                let i = r.len();
                r.push(i);
            }
            r
        },
    }
}

/// What is to be done for one plugin, with its source and version resolved.
pub struct Job {
    pub name: String,
    /// Repository URL the plugin is added from.
    pub url: String,
    /// Version token handed to the installer.
    pub version: String,
    /// Version constraint as declared.
    pub declared: String,
    pub post_install: Vec<String>,
}

/// `j` is the job for entry `e`.
pub open spec fn job_for(e: PluginEntry, j: Job) -> bool {
    &&& j.name@ == e.name@
    &&& j.url@ == plugin_source(e.name@, e.spec.source@)
    &&& j.version@ == resolved_version(e.spec.version@)
    &&& j.declared@ == e.spec.version@
    &&& texts(j.post_install@) == texts(e.spec.post_install@)
}

/// A copy of a list of strings.
fn copy_texts(v: &Vec<String>) -> (r: Vec<String>)
    ensures
        texts(r@) == texts(v@),
{
    let mut r: Vec<String> = Vec::new();
    let mut i: usize = 0;
    while i < v.len()
        invariant
            i <= v@.len(),
            r@.len() == i,
            forall|k: int| 0 <= k < i ==> r@[k]@ == v@[k]@,
        decreases v@.len() - i,
    {
        r.push(v[i].clone());
        i = i + 1;
    }
    assert(texts(r@) =~= texts(v@));
    r
}

/// The job for one entry.
pub fn job_of(e: &PluginEntry) -> (j: Job)
    ensures
        job_for(*e, j),
{
    Job {
        name: e.name.clone(),
        url: get_plugin_source(e.name.as_str(), e.spec.source.as_str()),
        version: resolve_version(e.spec.version.as_str()),
        declared: e.spec.version.clone(),
        post_install: copy_texts(&e.spec.post_install),
    }
}

/// The jobs for the plugins at positions `sel`, in that order.
pub fn plan(config: &Config, sel: &Vec<usize>) -> (r: Vec<Job>)
    requires
        forall|i: int| 0 <= i < sel@.len() ==> sel@[i] < config.plugins@.len(),
    ensures
        r@.len() == sel@.len(),
        forall|i: int| 0 <= i < sel@.len() ==> job_for(config.plugins@[sel@[i] as int], #[trigger] r@[i]),
{
    let mut r: Vec<Job> = Vec::new();
    let mut i: usize = 0;
    while i < sel.len()
        invariant
            forall|i: int| 0 <= i < sel@.len() ==> sel@[i] < config.plugins@.len(),
            i <= sel@.len(),
            r@.len() == i,
            forall|k: int| 0 <= k < i ==> job_for(config.plugins@[sel@[k] as int], #[trigger] r@[k]),
        decreases sel@.len() - i,
    {
        r.push(job_of(&config.plugins[sel[i]]));
        i = i + 1;
    }
    r
}

/// Where the driver stands with the current plugin.
#[derive(Clone, Copy, Debug, PartialEq, Eq, Structural)]
pub enum Phase {
    /// The plugin is to be added to the version manager.
    Register,
    /// The resolved version is to be installed.
    Install,
    /// The installed version is to be made the global one.
    Activate,
    /// The post-install command at this position is to be run.
    PostInstall(usize),
}

/// How the work on one plugin ended.
#[derive(Clone, Copy, Debug, PartialEq, Eq, Structural)]
pub enum Outcome {
    /// Installed and activated; its post-install commands were run.
    Installed,
    /// The plugin could not be added to the version manager.
    AddFailed,
    /// The version could not be installed.
    InstallFailed,
}

/// How an external action went: whether it exited with success, and what it
/// wrote to standard error.
pub struct Event {
    pub success: bool,
    pub stderr: String,
}

/// The next external action.
pub enum Action {
    /// Add plugin `name` from repository `url`.
    AddPlugin { name: String, url: String },
    /// Install `version` of plugin `name`.
    InstallVersion { name: String, version: String },
    /// Make `version` the global version of plugin `name`.
    SetGlobal { name: String, version: String },
    /// Run `command` through a shell.
    RunShell { command: String },
    /// Every plugin has been dealt with.
    Done,
}

/// A failed registration that only says the plugin is there already.
pub open spec fn registered(ev: Event) -> bool {
    ev.success || occurs_in("already added"@, ev.stderr@)
}

/// The driver over a list of jobs, worked through one at a time in order.
pub struct Reconciler {
    pub jobs: Vec<Job>,
    /// Position of the plugin being worked on.
    pub current: usize,
    pub phase: Phase,
    /// How each plugin before `current` ended.
    pub outcomes: Vec<Outcome>,
}

impl Reconciler {
    /// Number of post-install commands of the current plugin.
    pub open spec fn commands(&self) -> nat {
        self.jobs@[self.current as int].post_install@.len()
    }

    /// One outcome for each plugin left behind, and a phase that fits the
    /// current plugin.
    pub open spec fn wf(&self) -> bool {
        &&& self.current <= self.jobs@.len()
        &&& self.outcomes@.len() == self.current
        &&& self.current == self.jobs@.len() ==> self.phase == Phase::Register
        &&& self.phase matches Phase::PostInstall(k) ==> k < self.commands()
    }

    /// Every plugin has been dealt with.
    pub open spec fn finished(&self) -> bool {
        self.current == self.jobs@.len()
    }

    /// The driver's position after event `ev`: the plugin worked on, the
    /// phase, and the outcome recorded when that plugin is left.
    pub open spec fn next(&self, ev: Event) -> (usize, Phase, Option<Outcome>) {
        let c = self.current;
        let leave = |o: Outcome| ((c + 1) as usize, Phase::Register, Some(o));
        match self.phase {
            Phase::Register => if registered(ev) {
                (c, Phase::Install, None)
            } else {
                leave(Outcome::AddFailed)
            },
            Phase::Install => if ev.success {
                (c, Phase::Activate, None)
            } else {
                leave(Outcome::InstallFailed)
            },
            Phase::Activate => if self.commands() > 0 {
                (c, Phase::PostInstall(0), None)
            } else {
                leave(Outcome::Installed)
            },
            Phase::PostInstall(k) => if k + 1 < self.commands() {
                (c, Phase::PostInstall((k + 1) as usize), None)
            } else {
                leave(Outcome::Installed)
            },
        }
    }

    /// `a` is the action asked for in the current state.
    pub open spec fn asks(&self, a: Action) -> bool {
        if self.finished() {
            a is Done
        } else {
            let j = self.jobs@[self.current as int];
            match self.phase {
                Phase::Register => a matches Action::AddPlugin { name, url } && name@ == j.name@
                    && url@ == j.url@,
                Phase::Install => a matches Action::InstallVersion { name, version } && name@
                    == j.name@ && version@ == j.version@,
                Phase::Activate => a matches Action::SetGlobal { name, version } && name@
                    == j.name@ && version@ == j.version@,
                Phase::PostInstall(k) => a matches Action::RunShell { command } && command@
                    == j.post_install@[k as int]@,
            }
        }
    }

    /// A driver at the start of `jobs`.
    pub fn new(jobs: Vec<Job>) -> (r: Reconciler)
        ensures
            r.wf(),
            r.jobs == jobs,
            r.current == 0,
            r.phase == Phase::Register,
            r.outcomes@.len() == 0,
    {
        Reconciler { jobs, current: 0, phase: Phase::Register, outcomes: Vec::new() }
    }

    /// The external action to perform now.
    pub fn action(&self) -> (a: Action)
        requires
            self.wf(),
        ensures
            self.asks(a),
    {
        if self.current == self.jobs.len() {
            return Action::Done;
        }
        let j = &self.jobs[self.current];
        match self.phase {
            Phase::Register => Action::AddPlugin { name: j.name.clone(), url: j.url.clone() },
            Phase::Install => Action::InstallVersion {
                name: j.name.clone(),
                version: j.version.clone(),
            },
            Phase::Activate => Action::SetGlobal { name: j.name.clone(), version: j.version.clone() },
            Phase::PostInstall(k) => Action::RunShell { command: j.post_install[k].clone() },
        }
    }

    /// Takes in how the last action went. A failed registration, unless it
    /// only says the plugin is there already, and a failed installation end
    /// the work on that plugin; activation and post-install commands are
    /// best effort, whatever their result.
    pub fn step(&mut self, ev: &Event)
        requires
            old(self).wf(),
            !old(self).finished(),
        ensures
            final(self).wf(),
            final(self).jobs == old(self).jobs,
            final(self).current == old(self).next(*ev).0,
            final(self).phase == old(self).next(*ev).1,
            old(self).next(*ev).2 is None ==> final(self).outcomes@ == old(self).outcomes@,
            old(self).next(*ev).2 matches Some(o) ==> final(self).outcomes@ == old(
                self,
            ).outcomes@.push(o),
    {
        let n = self.jobs[self.current].post_install.len();
        match self.phase {
            Phase::Register => {
                if ev.success || contains(ev.stderr.as_str(), "already added") {
                    self.phase = Phase::Install;
                } else {
                    self.leave(Outcome::AddFailed);
                }
            },
            Phase::Install => {
                if ev.success {
                    self.phase = Phase::Activate;
                } else {
                    self.leave(Outcome::InstallFailed);
                }
            },
            Phase::Activate => {
                if n > 0 {
                    self.phase = Phase::PostInstall(0);
                } else {
                    self.leave(Outcome::Installed);
                }
            },
            Phase::PostInstall(k) => {
                if k + 1 < n {
                    self.phase = Phase::PostInstall(k + 1);
                } else {
                    self.leave(Outcome::Installed);
                }
            },
        }
    }

    /// Records how the current plugin ended and moves to the next one.
    fn leave(&mut self, o: Outcome)
        requires
            old(self).wf(),
            !old(self).finished(),
        ensures
            final(self).wf(),
            final(self).jobs == old(self).jobs,
            final(self).current == old(self).current + 1,
            final(self).phase == Phase::Register,
            final(self).outcomes@ == old(self).outcomes@.push(o),
    {
        let n = self.jobs.len();
        assert(self.current < n);
        self.outcomes.push(o);
        self.current = self.current + 1;
        self.phase = Phase::Register;
    }
}

/// `jobs` are the jobs for the plugins at positions `sel` of `c`, in order.
pub open spec fn plans(c: &Config, sel: Seq<usize>, jobs: Seq<Job>) -> bool {
    &&& jobs.len() == sel.len()
    &&& forall|i: int| 0 <= i < sel.len() ==> job_for(c.plugins@[sel[i] as int], #[trigger] jobs[i])
}

/// `r` is what an install command comes to on configuration `c` with
/// selection `sel`.
pub open spec fn decided(c: &Config, sel: Seq<usize>, dry_run: bool, r: Result<
    InstallPlan,
    ConfigError,
>) -> bool {
    if sel.len() == 0 {
        r matches Ok(InstallPlan::NothingToDo)
    } else {
        match r {
            Ok(InstallPlan::DryRun(jobs)) => dry_run && plans(c, sel, jobs@),
            Ok(InstallPlan::Live(d)) => {
                &&& !dry_run
                &&& plans(c, sel, d.jobs@)
                &&& d.wf()
                &&& d.current == 0
                &&& d.phase == Phase::Register
            },
            _ => false,
        }
    }
}

/// What an install command comes to.
pub enum InstallPlan {
    /// There is no configuration file: only advice is printed.
    NoConfig,
    /// No plugin is selected.
    NothingToDo,
    /// A dry run: the jobs are shown, nothing is run.
    DryRun(Vec<Job>),
    /// The driver that works through the jobs.
    Live(Reconciler),
}

/// Decides an install command on the loaded configuration: a missing file is
/// only reported, a file that did not decode is an error, and otherwise the
/// selected plugins are shown (dry run) or handed to a fresh driver.
pub fn run(config: Result<Config, ConfigError>, plugin: Option<&str>, dry_run: bool) -> (r: Result<
    InstallPlan,
    ConfigError,
>)
    requires
        config matches Ok(c) ==> c.wf(),
    ensures
        config matches Err(ConfigError::NotFound) ==> r matches Ok(InstallPlan::NoConfig),
        config matches Err(ConfigError::Parse(m)) ==> r matches Err(ConfigError::Parse(e)) && e@
            == m@,
        config matches Ok(c) ==> exists|sel: Seq<usize>|
            #![trigger is_selection(&c, plugin, sel)]
            is_selection(&c, plugin, sel) && decided(&c, sel, dry_run, r),
        dry_run && plugin is None && config is Ok && config->Ok_0.plugins@.len() > 0 ==> (r is Ok
            && r->Ok_0 is DryRun && r->Ok_0->DryRun_0@.len() == config->Ok_0.plugins@.len()),
{
    match config {
        Err(ConfigError::NotFound) => Ok(InstallPlan::NoConfig),
        Err(ConfigError::Parse(m)) => Err(ConfigError::Parse(m)),
        Ok(c) => {
            let sel = select(&c, plugin);
            if sel.len() == 0 {
                return Ok(InstallPlan::NothingToDo);
            }
            let jobs = plan(&c, &sel);
            if dry_run {
                Ok(InstallPlan::DryRun(jobs))
            } else {
                Ok(InstallPlan::Live(Reconciler::new(jobs)))
            }
        },
    }
}

} // verus!
