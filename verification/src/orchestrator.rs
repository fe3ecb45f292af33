//! The orchestrator of the two pipeline operations.
//!
//! An update fetches every component's source into the staging tree,
//! sequentially, then runs each component's post-fetch commands, one
//! concurrent task per component. A run promotes the staging tree to the
//! live tree, then runs each component's run commands the same way. The
//! orchestrator decides everything here — which directories to rebuild,
//! which fetches to perform, which task works where — as explicit plans
//! with exact contracts; the caller carries the plans out, joins every
//! task before returning, and brings the observed outcomes back to be
//! aggregated into per-component reports.

use vstd::prelude::*;

use crate::paths::{
    component_dir, component_dir_spec, live_root, live_root_spec, staging_root, staging_root_spec,
};
use crate::registry::{Component, ComponentManager};
use crate::runner::ExecutionResult;

verus! {

/// One fetch order: retrieve the source of `name` from `url` into the
/// subdirectory `name` of `parent` (the staging root), replacing any
/// prior copy.
pub struct FetchSpec {
    pub name: String,
    pub url: String,
    pub parent: String,
}

/// What one fetch produced: success, or a descriptive failure. A failure
/// is recorded and surfaced in the report; it never aborts the fetches
/// of the remaining components.
pub enum FetchOutcome {
    Fetched,
    FetchFailed { message: String },
}

/// One concurrent task: run `commands` in order inside `workdir`, the
/// subdirectory owned by the component `name`, echoing child output when
/// `visible` is set.
pub struct TaskSpec {
    pub name: String,
    pub commands: Vec<String>,
    pub workdir: String,
    pub visible: bool,
}

/// The one fatal precondition of the pipeline: a run was asked for while
/// no staging tree exists, meaning no update ever succeeded before it.
#[derive(Debug)]
pub enum PipelineError {
    StagingMissing,
}

/// The plan of one update: delete and recreate `staging_root`, perform
/// the fetches one after another, then start all tasks concurrently and
/// join them.
pub struct UpdatePlan {
    pub staging_root: String,
    pub fetches: Vec<FetchSpec>,
    pub tasks: Vec<TaskSpec>,
}

/// The plan of one run: delete `live_root`, copy `staging_root` to
/// `live_root` wholesale, then start all tasks concurrently and join
/// them.
pub struct RunPlan {
    pub staging_root: String,
    pub live_root: String,
    pub tasks: Vec<TaskSpec>,
}

/// One component's line in the update report: its fetch outcome and the
/// results of its post-fetch commands, independent of every sibling.
pub struct UpdateEntry {
    pub name: String,
    pub fetch: FetchOutcome,
    pub results: Vec<ExecutionResult>,
}

/// One component's line in the run report.
pub struct RunEntry {
    pub name: String,
    pub results: Vec<ExecutionResult>,
}

/// `f` is the fetch order for component `c` under the staging root `root`.
pub open spec fn fetch_spec_ok(f: FetchSpec, c: Component, root: Seq<char>) -> bool {
    &&& f.name@ == c.name@
    &&& f.url@ == c.pull_url@
    &&& f.parent@ == root
}

/// `t` is the post-fetch task of component `c`: its post-fetch commands,
/// rooted at the component's own staging subdirectory, with output shown.
pub open spec fn update_task_ok(t: TaskSpec, c: Component, root: Seq<char>) -> bool {
    &&& t.name@ == c.name@
    &&& t.commands@ == c.run_after_update@
    &&& t.workdir@ == component_dir_spec(root, c.name@)
    &&& t.visible == true
}

/// `t` is the run task of component `c`: its run commands, rooted at the
/// component's own live subdirectory, with output shown iff `visible`.
pub open spec fn run_task_ok(t: TaskSpec, c: Component, root: Seq<char>, visible: bool) -> bool {
    &&& t.name@ == c.name@
    &&& t.commands@ == c.run@
    &&& t.workdir@ == component_dir_spec(root, c.name@)
    &&& t.visible == visible
}

/// An element-for-element copy of `v`.
fn clone_strings(v: &Vec<String>) -> (r: Vec<String>)
    ensures
        r@ == v@,
{
    let mut r: Vec<String> = Vec::new();
    let mut i: usize = 0;
    while i < v.len()
        invariant
            i <= v@.len(),
            r@ =~= v@.subrange(0, i as int),
        decreases v@.len() - i,
    {
        r.push(v[i].clone());
        i = i + 1;
    }
    proof {
        assert(r@ =~= v@);
    }
    r
}

impl ComponentManager {
    /// The plan of an update of this registry: one fetch per component,
    /// in registry order, into the staging root, and one concurrent
    /// post-fetch task per component — exactly as many tasks as the
    /// registry has components, whatever the fetches will produce.
    pub fn update_plan(&self) -> (p: UpdatePlan)
        ensures
            p.staging_root@ == staging_root_spec(self.paths.main@),
            p.fetches@.len() == self.components@.len(),
            forall|i: int|
                0 <= i < self.components@.len() ==> fetch_spec_ok(
                    p.fetches@[i],
                    self.components@[i],
                    staging_root_spec(self.paths.main@),
                ),
            p.tasks@.len() == self.components@.len(),
            forall|i: int|
                0 <= i < self.components@.len() ==> update_task_ok(
                    p.tasks@[i],
                    self.components@[i],
                    staging_root_spec(self.paths.main@),
                ),
    {
        let root = staging_root(self.paths.main.as_str());
        let mut fetches: Vec<FetchSpec> = Vec::new();
        let mut tasks: Vec<TaskSpec> = Vec::new();
        let n = self.components.len();
        let mut i: usize = 0;
        while i < n
            invariant
                n == self.components@.len(),
                i <= n,
                root@ == staging_root_spec(self.paths.main@),
                fetches@.len() == i,
                tasks@.len() == i,
                forall|j: int|
                    0 <= j < i ==> fetch_spec_ok(fetches@[j], self.components@[j], root@),
                forall|j: int| 0 <= j < i ==> update_task_ok(tasks@[j], self.components@[j], root@),
            decreases n - i,
        {
            let c = &self.components[i];
            fetches.push(
                FetchSpec { name: c.name.clone(), url: c.pull_url.clone(), parent: root.clone() },
            );
            let workdir = component_dir(root.as_str(), c.name.as_str());
            tasks.push(
                TaskSpec {
                    name: c.name.clone(),
                    commands: clone_strings(&c.run_after_update),
                    workdir,
                    visible: true,
                },
            );
            i = i + 1;
        }
        UpdatePlan { staging_root: root, fetches, tasks }
    }

    /// The plan of a run. Promotion requires a staging tree: when the
    /// caller found none — no update ever ran — the plan is refused with
    /// the one fatal error of the pipeline and nothing is promoted.
    /// Otherwise the plan replaces the live tree by the staging tree and
    /// starts one run task per component, exactly as many as the registry
    /// has components.
    pub fn run_plan(&self, staging_exists: bool, visible: bool) -> (r: Result<
        RunPlan,
        PipelineError,
    >)
        ensures
            r is Ok <==> staging_exists,
            !staging_exists ==> r == Err::<RunPlan, PipelineError>(PipelineError::StagingMissing),
            staging_exists ==> {
                let p = r->Ok_0;
                &&& p.staging_root@ == staging_root_spec(self.paths.main@)
                &&& p.live_root@ == live_root_spec(self.paths.main@)
                &&& p.tasks@.len() == self.components@.len()
                &&& forall|i: int|
                    0 <= i < self.components@.len() ==> run_task_ok(
                        p.tasks@[i],
                        self.components@[i],
                        live_root_spec(self.paths.main@),
                        visible,
                    )
            },
    {
        if !staging_exists {
            return Err(PipelineError::StagingMissing);
        }
        let staging = staging_root(self.paths.main.as_str());
        let live = live_root(self.paths.main.as_str());
        let mut tasks: Vec<TaskSpec> = Vec::new();
        let n = self.components.len();
        let mut i: usize = 0;
        while i < n
            invariant
                n == self.components@.len(),
                i <= n,
                live@ == live_root_spec(self.paths.main@),
                tasks@.len() == i,
                forall|j: int|
                    0 <= j < i ==> run_task_ok(tasks@[j], self.components@[j], live@, visible),
            decreases n - i,
        {
            let c = &self.components[i];
            let workdir = component_dir(live.as_str(), c.name.as_str());
            tasks.push(
                TaskSpec {
                    name: c.name.clone(),
                    commands: clone_strings(&c.run),
                    workdir,
                    visible,
                },
            );
            i = i + 1;
        }
        Ok(RunPlan { staging_root: staging, live_root: live, tasks })
    }

    /// The update report: one entry per component, in registry order,
    /// pairing the component with its own fetch outcome and its own
    /// post-fetch results. Every component reports, and an entry depends
    /// on nothing but that component's own outcomes.
    pub fn update_report(&self, fetches: Vec<FetchOutcome>, runs: Vec<Vec<ExecutionResult>>) -> (r:
        Vec<UpdateEntry>)
        requires
            fetches@.len() == self.components@.len(),
            runs@.len() == self.components@.len(),
        ensures
            r@.len() == self.components@.len(),
            forall|i: int|
                0 <= i < r@.len() ==> {
                    &&& r@[i].name@ == self.components@[i].name@
                    &&& r@[i].fetch == fetches@[i]
                    &&& r@[i].results == runs@[i]
                },
    {
        let ghost all_fetches = fetches@;
        let ghost all_runs = runs@;
        let mut fetches = fetches;
        let mut runs = runs;
        let mut r: Vec<UpdateEntry> = Vec::new();
        let n = self.components.len();
        let mut i: usize = 0;
        while i < n
            invariant
                n == self.components@.len(),
                i <= n,
                all_fetches.len() == n,
                all_runs.len() == n,
                fetches@ =~= all_fetches.subrange(i as int, n as int),
                runs@ =~= all_runs.subrange(i as int, n as int),
                r@.len() == i,
                forall|j: int|
                    0 <= j < i ==> {
                        &&& r@[j].name@ == self.components@[j].name@
                        &&& r@[j].fetch == all_fetches[j]
                        &&& r@[j].results == all_runs[j]
                    },
            decreases n - i,
        {
            let fetch = fetches.remove(0);
            let results = runs.remove(0);
            let name = self.components[i].name.clone();
            r.push(UpdateEntry { name, fetch, results });
            proof {
                assert(fetches@ =~= all_fetches.subrange(i + 1, n as int));
                assert(runs@ =~= all_runs.subrange(i + 1, n as int));
            }
            i = i + 1;
        }
        r
    }

    /// The run report: one entry per component, in registry order, with
    /// that component's own run results.
    pub fn run_report(&self, runs: Vec<Vec<ExecutionResult>>) -> (r: Vec<RunEntry>)
        requires
            runs@.len() == self.components@.len(),
        ensures
            r@.len() == self.components@.len(),
            forall|i: int|
                #![trigger r@[i]]
                0 <= i < r@.len() ==> {
                    &&& r@[i].name@ == self.components@[i].name@
                    &&& r@[i].results == runs@[i]
                },
    {
        let ghost all_runs = runs@;
        let mut runs = runs;
        let mut r: Vec<RunEntry> = Vec::new();
        let n = self.components.len();
        let mut i: usize = 0;
        while i < n
            invariant
                n == self.components@.len(),
                i <= n,
                all_runs.len() == n,
                runs@ =~= all_runs.subrange(i as int, n as int),
                r@.len() == i,
                forall|j: int|
                    #![trigger r@[j]]
                    0 <= j < i ==> {
                        &&& r@[j].name@ == self.components@[j].name@
                        &&& r@[j].results == all_runs[j]
                    },
            decreases n - i,
        {
            let results = runs.remove(0);
            let name = self.components[i].name.clone();
            r.push(RunEntry { name, results });
            proof {
                assert(runs@ =~= all_runs.subrange(i + 1, n as int));
            }
            i = i + 1;
        }
        r
    }

    /// The staged component names implied by the fetch outcomes of one
    /// update, in registry order: exactly the components whose fetch
    /// succeeded have a directory in the fresh staging tree.
    pub fn staged_component_names(&self, fetches: &Vec<FetchOutcome>) -> (v: Vec<String>)
        requires
            fetches@.len() == self.components@.len(),
        ensures
            string_views(v@) == crate::model::staged_prefix(
                self.components@,
                fetch_ok_seq(fetches@),
                self.components@.len() as int,
            ),
            forall|n: Seq<char>|
                #![trigger string_views(v@).contains(n)]
                string_views(v@).contains(n) <==> crate::model::staged_names(
                    self.components@,
                    fetch_ok_seq(fetches@),
                ).contains(n),
    {
        let mut v: Vec<String> = Vec::new();
        let n = self.components.len();
        let mut i: usize = 0;
        while i < n
            invariant
                n == self.components@.len(),
                fetches@.len() == n,
                i <= n,
                string_views(v@) =~= crate::model::staged_prefix(
                    self.components@,
                    fetch_ok_seq(fetches@),
                    i as int,
                ),
            decreases n - i,
        {
            let staged = match &fetches[i] {
                FetchOutcome::Fetched => true,
                FetchOutcome::FetchFailed { .. } => false,
            };
            let ghost old_v = v@;
            if staged {
                v.push(self.components[i].name.clone());
            }
            proof {
                assert(fetch_ok_seq(fetches@)[i as int] == staged);
                if staged {
                    assert(string_views(v@) =~= string_views(old_v).push(
                        self.components@[i as int].name@,
                    ));
                }
                assert(string_views(v@) =~= crate::model::staged_prefix(
                    self.components@,
                    fetch_ok_seq(fetches@),
                    i + 1,
                ));
            }
            i = i + 1;
        }
        proof {
            assert forall|m: Seq<char>|
                #![trigger string_views(v@).contains(m)]
                string_views(v@).contains(m) <==> crate::model::staged_names(
                    self.components@,
                    fetch_ok_seq(fetches@),
                ).contains(m) by {
                crate::model::lemma_staged_prefix_contains(
                    self.components@,
                    fetch_ok_seq(fetches@),
                    n as int,
                    m,
                );
            }
        }
        v
    }
}

/// The concurrent fan-out is free of path contention: in a registry
/// without duplicate names, no two tasks of one plan share a working
/// directory, so the tasks touch disjoint parts of the filesystem and
/// need no locks. This holds of the update tasks and the run tasks
/// alike, since both root every task at its own component's directory.
pub proof fn lemma_tasks_workdirs_distinct(
    tasks: Seq<TaskSpec>,
    components: Seq<Component>,
    root: Seq<char>,
)
    requires
        crate::registry::unique_names(components),
        tasks.len() == components.len(),
        forall|i: int|
            0 <= i < tasks.len() ==> (#[trigger] tasks[i].workdir@) == component_dir_spec(
                root,
                components[i].name@,
            ),
    ensures
        forall|i: int, j: int|
            0 <= i < j < tasks.len() ==> tasks[i].workdir@ != tasks[j].workdir@,
{
    assert forall|i: int, j: int|
        0 <= i < j < tasks.len() implies tasks[i].workdir@ != tasks[j].workdir@ by {
        crate::paths::lemma_component_dirs_disjoint(
            root,
            components[i].name@,
            components[j].name@,
        );
    }
}

/// The views of a sequence of strings, in order.
pub open spec fn string_views(v: Seq<String>) -> Seq<Seq<char>> {
    v.map_values(|s: String| s@)
}

/// The success of each fetch outcome, in order.
pub open spec fn fetch_ok_seq(fetches: Seq<FetchOutcome>) -> Seq<bool> {
    fetches.map_values(|f: FetchOutcome| f is Fetched)
}

} // verus!
