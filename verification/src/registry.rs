//! The component registry.
//!
//! A component names a unit of deployable source: where to fetch it from,
//! the commands to run right after a fetch, and the commands that run it.
//! A `ComponentManager` holds an ordered registry of components together
//! with the resolved filesystem roots. The registry is plain data; the
//! caller loads or persists it and hands it to the pipeline read-only.

use vstd::prelude::*;

verus! {

/// The two filesystem roots of one invocation, resolved once at startup
/// by the caller: `main` is the working root that the module trees live
/// under, `exec_path` is the location of the running executable.
pub struct PathConfig {
    pub main: String,
    pub exec_path: String,
}

impl PathConfig {
    /// A configuration from the two resolved roots.
    pub fn new(main: String, exec_path: String) -> (r: PathConfig)
        ensures
            r.main == main,
            r.exec_path == exec_path,
    {
        PathConfig { main, exec_path }
    }
}

/// One component: a unique name (its directory key and log tag), the
/// location its source is pulled from, the commands that run it, and the
/// commands run once after each fetch.
pub struct Component {
    pub name: String,
    pub pull_url: String,
    pub run: Vec<String>,
    pub run_after_update: Vec<String>,
}

impl Component {
    /// A component from its four fields.
    pub fn new(
        name: String,
        pull_url: String,
        run: Vec<String>,
        run_after_update: Vec<String>,
    ) -> (r: Component)
        ensures
            r.name == name,
            r.pull_url == pull_url,
            r.run == run,
            r.run_after_update == run_after_update,
    {
        Component { name, pull_url, run, run_after_update }
    }
}

/// The names of a registry, in registry order.
pub open spec fn names_of(components: Seq<Component>) -> Seq<Seq<char>> {
    components.map_values(|c: Component| c.name@)
}

/// No two components share a name. The directory layout keys each
/// component by its name, so this is the registry's invariant; a registry
/// that violates it keys several components to one directory (last one
/// wins) and loses the per-component isolation guarantees.
pub open spec fn unique_names(components: Seq<Component>) -> bool {
    forall|i: int, j: int|
        0 <= i < j < components.len() ==> components[i].name@ != components[j].name@
}

/// An ordered registry of components plus the resolved roots.
pub struct ComponentManager {
    pub components: Vec<Component>,
    pub paths: PathConfig,
}

impl ComponentManager {
    /// A manager from an explicit registry.
    pub fn new(components: Vec<Component>, paths: PathConfig) -> (r: ComponentManager)
        ensures
            r.components == components,
            r.paths == paths,
    {
        ComponentManager { components, paths }
    }

    /// The built-in single-entry registry, used when no persisted registry
    /// exists: one component that pulls the manager itself and runs its
    /// bundled script, with no post-fetch commands.
    pub fn new_default(paths: PathConfig) -> (r: ComponentManager)
        ensures
            r.paths == paths,
            r.components@.len() == 1,
            r.components@[0].name@ == "YACSMS"@,
            r.components@[0].pull_url@ == "https://github.com/xypine/yacs_manager.git"@,
            r.components@[0].run@.len() == 1,
            r.components@[0].run@[0]@ == "sh runme.sh"@,
            r.components@[0].run_after_update@.len() == 0,
    {
        let run: Vec<String> = vec![String::from_str("sh runme.sh")];
        let run_after_update: Vec<String> = Vec::new();
        let component = Component {
            name: String::from_str("YACSMS"),
            pull_url: String::from_str("https://github.com/xypine/yacs_manager.git"),
            run,
            run_after_update,
        };
        let components: Vec<Component> = vec![component];
        ComponentManager { components, paths }
    }

    /// Number of components in the registry.
    pub fn len(&self) -> (n: usize)
        ensures
            n == self.components@.len(),
    {
        self.components.len()
    }
}

} // verus!
