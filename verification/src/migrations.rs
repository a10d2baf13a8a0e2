//! Which schema migrations a database still needs: every migration of the
//! catalog whose version is not yet recorded, in catalog order, each once.
use vstd::prelude::*;

verus! {

/// For each migration of `catalog`, whether it still has to run.
pub open spec fn plan_for(catalog: Seq<i64>, applied: Seq<i64>) -> Seq<bool> {
    Seq::new(catalog.len(), |i: int| !applied.contains(catalog[i]))
}

fn is_recorded(applied: &Vec<i64>, version: i64) -> (r: bool)
    ensures
        r == applied@.contains(version),
{
    let mut i: usize = 0;
    while i < applied.len()
        invariant
            i <= applied@.len(),
            forall|j: int| 0 <= j < i ==> applied@[j] != version,
        decreases applied@.len() - i,
    {
        if applied[i] == version {
            return true;
        }
        i = i + 1;
    }
    false
}

/// The migration plan: entry `i` says whether `catalog[i]` must run, which
/// it must exactly when its version is not among the `applied` ones.
pub fn migration_plan(catalog: &Vec<i64>, applied: &Vec<i64>) -> (r: Vec<bool>)
    ensures
        r@ == plan_for(catalog@, applied@),
{
    let mut plan: Vec<bool> = Vec::new();
    let mut i: usize = 0;
    while i < catalog.len()
        invariant
            i <= catalog@.len(),
            plan@.len() == i,
            forall|j: int| 0 <= j < i ==> plan@[j] == !applied@.contains(#[trigger] catalog@[j]),
        decreases catalog@.len() - i,
    {
        let pending = !is_recorded(applied, catalog[i]);
        plan.push(pending);
        i = i + 1;
    }
    assert(plan@ =~= plan_for(catalog@, applied@));
    plan
}

/// The plan has one entry per migration of the catalog, and a migration runs
/// exactly when its version is not recorded: every unrecorded one runs, no
/// recorded one does.
pub proof fn lemma_plan_runs_exactly_the_unrecorded(catalog: Seq<i64>, applied: Seq<i64>, i: int)
    requires
        0 <= i < catalog.len(),
    ensures
        plan_for(catalog, applied).len() == catalog.len(),
        plan_for(catalog, applied)[i] <==> !(exists|j: int|
            0 <= j < applied.len() && #[trigger] applied[j] == catalog[i]),
{
}

/// Migrating is idempotent: once a run has recorded the versions it applied
/// beside those recorded before, a second run applies nothing — and no run
/// applies a version that is already recorded.
pub proof fn lemma_a_second_run_applies_nothing(
    catalog: Seq<i64>,
    applied: Seq<i64>,
    after: Seq<i64>,
)
    requires
        forall|v: i64|
            #![trigger after.contains(v)]
            after.contains(v) <==> (applied.contains(v) || exists|i: int|
                0 <= i < catalog.len() && plan_for(catalog, applied)[i] && #[trigger] catalog[i]
                    == v),
    ensures
        forall|i: int| 0 <= i < catalog.len() ==> !#[trigger] plan_for(catalog, after)[i],
        forall|i: int|
            0 <= i < catalog.len() && #[trigger] plan_for(catalog, applied)[i] ==> !applied.contains(
                catalog[i],
            ),
{
    assert forall|i: int| 0 <= i < catalog.len() implies !#[trigger] plan_for(catalog, after)[i] by {
        let v = catalog[i];
        if !applied.contains(v) {
            assert(plan_for(catalog, applied)[i]);
        }
        assert(after.contains(v));
    }
}

} // verus!
