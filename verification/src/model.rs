//! Abstract model of the pipeline's on-disk state.
//!
//! The two trees are modelled by the sets of component names whose
//! subdirectories they hold; a tree whose root is absent is `None`. The
//! two operations of the pipeline act on this model: an update rebuilds
//! the staging tree from the registry and the fetch outcomes, a run
//! promotes the staging tree to the live tree. The laws of the pipeline
//! — the fatal precondition of a run, layout idempotence, and
//! per-component isolation — are stated and proved here.

use vstd::prelude::*;

use crate::orchestrator::PipelineError;
use crate::registry::{names_of, unique_names, Component};

verus! {

/// Disk state of the pipeline: the component names staged and live, or
/// `None` where the tree's root itself does not exist.
pub struct DiskModel {
    pub staging: Option<Set<Seq<char>>>,
    pub live: Option<Set<Seq<char>>>,
}

/// The names an update stages: component `i` of the registry ends up in
/// the staging tree exactly when its fetch succeeded (`ok[i]`).
pub open spec fn staged_names(components: Seq<Component>, ok: Seq<bool>) -> Set<Seq<char>> {
    Set::new(
        |n: Seq<char>|
            exists|i: int| 0 <= i < components.len() && components[i].name@ == n && ok[i],
    )
}

/// Effect of an update on the disk: the staging tree is deleted and
/// rebuilt from scratch, so it ends up holding exactly the successfully
/// fetched components of the current registry; the live tree is
/// untouched.
pub open spec fn apply_update(d: DiskModel, components: Seq<Component>, ok: Seq<bool>) -> DiskModel {
    DiskModel { staging: Some(staged_names(components, ok)), live: d.live }
}

/// Effect of a run on the disk: without a staging tree the precondition
/// fails and the disk is left as it was; otherwise the live tree is
/// replaced by a whole copy of the staging tree.
pub open spec fn apply_run(d: DiskModel) -> Result<DiskModel, PipelineError> {
    match d.staging {
        None => Err(PipelineError::StagingMissing),
        Some(s) => Ok(DiskModel { staging: d.staging, live: Some(s) }),
    }
}

/// The staged names of the first `i` components, in registry order: the
/// name of each whose fetch succeeded. This is the sequence form of
/// `staged_names`, built the way an update builds the staging tree.
pub open spec fn staged_prefix(components: Seq<Component>, ok: Seq<bool>, i: int) -> Seq<Seq<char>>
    decreases i,
{
    if i <= 0 {
        Seq::empty()
    } else if ok[i - 1] {
        staged_prefix(components, ok, i - 1).push(components[i - 1].name@)
    } else {
        staged_prefix(components, ok, i - 1)
    }
}

/// A name stands in `staged_prefix(components, ok, i)` exactly when one
/// of the first `i` components carries it and was fetched successfully.
pub proof fn lemma_staged_prefix_contains(
    components: Seq<Component>,
    ok: Seq<bool>,
    i: int,
    m: Seq<char>,
)
    requires
        0 <= i <= components.len(),
    ensures
        staged_prefix(components, ok, i).contains(m) <==> (exists|j: int|
            0 <= j < i && components[j].name@ == m && ok[j]),
    decreases i,
{
    if i > 0 {
        lemma_staged_prefix_contains(components, ok, i - 1, m);
        let prev = staged_prefix(components, ok, i - 1);
        let cur = staged_prefix(components, ok, i);
        if cur.contains(m) {
            let k = choose|k: int| 0 <= k < cur.len() && cur[k] == m;
            if k < prev.len() {
                assert(prev[k] == m);
                assert(prev.contains(m));
                let j = choose|j: int| 0 <= j < i - 1 && components[j].name@ == m && ok[j];
                assert(0 <= j < i && components[j].name@ == m && ok[j]);
            } else {
                assert(ok[i - 1] && components[i - 1].name@ == m);
            }
        }
        if exists|j: int| 0 <= j < i && components[j].name@ == m && ok[j] {
            let j = choose|j: int| 0 <= j < i && components[j].name@ == m && ok[j];
            if j < i - 1 {
                assert(0 <= j < i - 1 && components[j].name@ == m && ok[j]);
                assert(prev.contains(m));
                let k = choose|k: int| 0 <= k < prev.len() && prev[k] == m;
                assert(cur[k] == m);
                assert(cur.contains(m));
            } else {
                assert(ok[i - 1]);
                assert(cur[cur.len() - 1] == m);
                assert(cur.contains(m));
            }
        }
    }
}

/// A run without any preceding update fails with the precondition error
/// and promotes nothing: the error case returns no new disk state, so
/// the live tree stays exactly as it was.
pub proof fn lemma_run_without_update_fails(d: DiskModel)
    requires
        d.staging is None,
    ensures
        apply_run(d) == Err::<DiskModel, PipelineError>(PipelineError::StagingMissing),
{
}

/// A run with a staged tree succeeds and promotes it wholesale: the live
/// tree becomes the staging tree, which itself is untouched.
pub proof fn lemma_run_promotes(d: DiskModel)
    requires
        d.staging is Some,
    ensures
        apply_run(d) is Ok,
        apply_run(d)->Ok_0.live == d.staging,
        apply_run(d)->Ok_0.staging == d.staging,
{
}

/// An update never touches the live tree. Together with the promotion
/// lemma this is the live tree's invariant: it is absent, or a whole
/// copy of the staging tree left by some past update — never a partial
/// overwrite.
pub proof fn lemma_update_preserves_live(d: DiskModel, components: Seq<Component>, ok: Seq<bool>)
    ensures
        apply_update(d, components, ok).live == d.live,
{
}

/// The staging tree after an update depends only on the registry and the
/// fetch outcomes, never on what was staged before: stale component
/// directories of an earlier registry cannot survive an update.
pub proof fn lemma_update_ignores_prior_state(
    d1: DiskModel,
    d2: DiskModel,
    components: Seq<Component>,
    ok: Seq<bool>,
)
    ensures
        apply_update(d1, components, ok).staging == apply_update(d2, components, ok).staging,
{
}

/// Layout idempotence: updating twice with the same registry and the
/// same fetch outcomes leaves the disk exactly where one update left it.
pub proof fn lemma_update_idempotent(d: DiskModel, components: Seq<Component>, ok: Seq<bool>)
    ensures
        apply_update(apply_update(d, components, ok), components, ok) == apply_update(
            d,
            components,
            ok,
        ),
{
}

/// When every fetch succeeds, the staging tree holds exactly the names
/// of the current registry — no more, no fewer.
pub proof fn lemma_update_complete(components: Seq<Component>, ok: Seq<bool>)
    requires
        ok.len() == components.len(),
        forall|i: int| 0 <= i < ok.len() ==> ok[i],
    ensures
        staged_names(components, ok) =~= names_of(components).to_set(),
{
    assert forall|n: Seq<char>| staged_names(components, ok).contains(n) implies names_of(
        components,
    ).to_set().contains(n) by {
        let i = choose|i: int|
            0 <= i < components.len() && components[i].name@ == n && ok[i];
        assert(names_of(components)[i] == n);
    }
    assert forall|n: Seq<char>| names_of(components).to_set().contains(n) implies staged_names(
        components,
        ok,
    ).contains(n) by {
        let i = choose|i: int| 0 <= i < names_of(components).len() && names_of(components)[i] == n;
        assert(components[i].name@ == n && ok[i]);
    }
}

/// In a registry without duplicate names, whether a component's name is
/// staged after an update is decided by its own fetch outcome alone.
pub proof fn lemma_staged_iff_fetched(components: Seq<Component>, ok: Seq<bool>, j: int)
    requires
        unique_names(components),
        ok.len() == components.len(),
        0 <= j < components.len(),
    ensures
        staged_names(components, ok).contains(components[j].name@) <==> ok[j],
{
    if staged_names(components, ok).contains(components[j].name@) {
        let i = choose|i: int|
            0 <= i < components.len() && components[i].name@ == components[j].name@ && ok[i];
        assert(i == j);
    }
}

/// Isolation of fetch failures: one component's staging outcome is
/// unchanged under any change of the other components' fetch outcomes —
/// in particular, a fetch failure of a sibling cannot evict a component
/// that fetched successfully.
pub proof fn lemma_fetch_isolation(
    components: Seq<Component>,
    ok1: Seq<bool>,
    ok2: Seq<bool>,
    j: int,
)
    requires
        unique_names(components),
        ok1.len() == components.len(),
        ok2.len() == components.len(),
        0 <= j < components.len(),
        ok1[j] == ok2[j],
    ensures
        staged_names(components, ok1).contains(components[j].name@) <==> staged_names(
            components,
            ok2,
        ).contains(components[j].name@),
{
    lemma_staged_iff_fetched(components, ok1, j);
    lemma_staged_iff_fetched(components, ok2, j);
}

} // verus!
