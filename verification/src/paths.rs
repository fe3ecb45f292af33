//! Directory layout of the pipeline.
//!
//! All paths are built from a main root by joining fixed directory names
//! and component names with `/`. Staging and live trees are disjoint, and
//! within each tree every component owns the subdirectory named after it,
//! so concurrent per-component tasks never touch the same path.

use vstd::prelude::*;

verus! {

/// `a` joined with `b` by a single path separator.
pub open spec fn join_spec(a: Seq<char>, b: Seq<char>) -> Seq<char> {
    a + seq!['/'] + b
}

/// Directory under the main root that holds both pipeline trees.
pub open spec fn module_dir_spec() -> Seq<char> {
    "yacs_modules"@
}

/// Name of the staging tree inside the module directory.
pub open spec fn staging_dir_spec() -> Seq<char> {
    "source"@
}

/// Name of the live tree inside the module directory.
pub open spec fn live_dir_spec() -> Seq<char> {
    "live"@
}

/// Root of the staging tree: `<main>/yacs_modules/source`.
pub open spec fn staging_root_spec(main: Seq<char>) -> Seq<char> {
    join_spec(join_spec(main, module_dir_spec()), staging_dir_spec())
}

/// Root of the live tree: `<main>/yacs_modules/live`.
pub open spec fn live_root_spec(main: Seq<char>) -> Seq<char> {
    join_spec(join_spec(main, module_dir_spec()), live_dir_spec())
}

/// Subdirectory of `root` owned by the component called `name`.
pub open spec fn component_dir_spec(root: Seq<char>, name: Seq<char>) -> Seq<char> {
    join_spec(root, name)
}

/// Joins two path fragments with `/`.
pub fn join_path(a: &str, b: &str) -> (r: String)
    ensures
        r@ == join_spec(a@, b@),
{
    proof {
        reveal_strlit("/");
    }
    let mut s = a.to_owned();
    s.append("/");
    s.append(b);
    proof {
        assert(s@ =~= join_spec(a@, b@));
    }
    s
}

/// Root of the staging tree under `main`, as an owned path.
pub fn staging_root(main: &str) -> (r: String)
    ensures
        r@ == staging_root_spec(main@),
{
    let base = join_path(main, "yacs_modules");
    join_path(base.as_str(), "source")
}

/// Root of the live tree under `main`, as an owned path.
pub fn live_root(main: &str) -> (r: String)
    ensures
        r@ == live_root_spec(main@),
{
    let base = join_path(main, "yacs_modules");
    join_path(base.as_str(), "live")
}

/// Subdirectory of `root` owned by the component called `name`.
pub fn component_dir(root: &str, name: &str) -> (r: String)
    ensures
        r@ == component_dir_spec(root@, name@),
{
    join_path(root, name)
}

/// Distinct component names own distinct subdirectories of the same root:
/// the per-component partition of the filesystem is genuine, so tasks of
/// different components never operate on the same directory.
pub proof fn lemma_component_dirs_disjoint(root: Seq<char>, n1: Seq<char>, n2: Seq<char>)
    requires
        n1 != n2,
    ensures
        component_dir_spec(root, n1) != component_dir_spec(root, n2),
{
    if component_dir_spec(root, n1) == component_dir_spec(root, n2) {
        let d1 = component_dir_spec(root, n1);
        let d2 = component_dir_spec(root, n2);
        assert(d1.len() == root.len() + 1 + n1.len());
        assert(d2.len() == root.len() + 1 + n2.len());
        assert(n1.len() == n2.len());
        assert forall|i: int| 0 <= i < n1.len() implies n1[i] == n2[i] by {
            assert(d1[root.len() + 1 + i] == n1[i]);
            assert(d2[root.len() + 1 + i] == n2[i]);
        }
        assert(n1 =~= n2);
    }
}

/// The staging root and the live root of one main root are distinct trees.
pub proof fn lemma_staging_live_disjoint(main: Seq<char>)
    ensures
        staging_root_spec(main) != live_root_spec(main),
{
    reveal_strlit("source");
    reveal_strlit("live");
    assert(staging_dir_spec().len() == 6);
    assert(live_dir_spec().len() == 4);
    assert(staging_root_spec(main).len() != live_root_spec(main).len());
}

} // verus!
