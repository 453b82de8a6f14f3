use vstd::prelude::*;
use crate::body::BodySet;
use crate::constraint_set::{BilateralConstraint, ConstraintSet};
use crate::dim::Dim;
use crate::impulse::{impulse_index_of, ImpulseIndex};
use crate::revolute_constraint::{
    helper_rows, last_impulse, plan_rows, RevoluteConstraint, VelocityHelper,
};

verus! {

/// The helpers of an emission append, together, exactly the
/// `SPATIAL_DIM - 1` rows that `num_velocity_constraints` declares; each
/// helper's block of impulse ids starts where the previous one ends, the
/// linear block holds linear slots only and the angular block angular slots
/// only.
pub proof fn lemma_velocity_plan_fills_declared_rows<N>(j: RevoluteConstraint<N>)
    requires
        j.wf(),
    ensures
        plan_rows(j.dim(), j.velocity_plan()) == j.dim().spatial_dof() - 1,
        forall|i: int|
            1 <= i < j.velocity_plan().len() ==> #[trigger] j.velocity_plan()[i].1 == j.velocity_plan()[i
                - 1].1 + helper_rows(j.dim(), j.velocity_plan()[i - 1].0),
        forall|i: int, id: nat|
            #![trigger j.velocity_plan()[i], impulse_index_of(j.dim(), id)]
            0 <= i < j.velocity_plan().len() && j.velocity_plan()[i].1 <= id
                < j.velocity_plan()[i].1 + helper_rows(j.dim(), j.velocity_plan()[i].0) ==> match
                impulse_index_of(j.dim(), id) {
                Some(ImpulseIndex::Linear(_)) => j.velocity_plan()[i].0
                    == VelocityHelper::CancelRelativeLinearVelocity,
                Some(ImpulseIndex::Angular(_)) => j.velocity_plan()[i].0
                    == VelocityHelper::RestrictRelativeAngularVelocityToAxis,
                None => false,
            },
{
    let plan = j.velocity_plan();
    let empty = Seq::<(VelocityHelper, usize)>::empty();
    assert(plan_rows(j.dim(), empty) == 0);
    if j.dim() == Dim::Three {
        assert(plan.drop_last().drop_last() =~= empty);
        assert(plan.drop_last().last() == plan[0]);
        assert(plan_rows(j.dim(), plan.drop_last()) == 3);
    } else {
        assert(plan.drop_last() =~= empty);
    }
}

/// The position-constraint generator yields a constraint for exactly the
/// indices below the count that `num_position_constraints` reports for an
/// active joint, and the count is zero for an inactive one.
pub proof fn lemma_position_generator_ends_at_count<N>(j: RevoluteConstraint<N>, bodies: BodySet)
    requires
        j.wf(),
        j.bodies_in(&bodies),
    ensures
        j.active_in(&bodies) ==> forall|i: nat|
            (#[trigger] j.position_helper(i)) is Some <==> i < j.position_count(
                j.active_in(&bodies),
            ),
        !j.active_in(&bodies) ==> j.position_count(j.active_in(&bodies)) == 0,
{
}

/// The last row of `rows` with a given id determines what that id's slot holds.
pub proof fn lemma_last_row_wins<N>(rows: Seq<BilateralConstraint<N>>, j: int, default: N)
    requires
        0 <= j < rows.len(),
        forall|m: int| j < m < rows.len() ==> (#[trigger] rows[m]).impulse_id != rows[j].impulse_id,
    ensures
        last_impulse(rows, rows[j].impulse_id as nat, default) == rows[j].impulse,
    decreases rows.len(),
{
    if j < rows.len() - 1 {
        assert(rows[rows.len() - 1].impulse_id != rows[j].impulse_id);
        let shorter = rows.drop_last();
        assert forall|m: int| j < m < shorter.len() implies (#[trigger] shorter[m]).impulse_id
            != shorter[j].impulse_id by {
            assert(shorter[m] == rows[m]);
        }
        lemma_last_row_wins(shorter, j, default);
    }
}

/// A slot that no row of `rows` names keeps its value.
pub proof fn lemma_unnamed_id_keeps_default<N>(
    rows: Seq<BilateralConstraint<N>>,
    id: nat,
    default: N,
)
    requires
        forall|m: int| 0 <= m < rows.len() ==> (#[trigger] rows[m]).impulse_id != id,
    ensures
        last_impulse(rows, id, default) == default,
    decreases rows.len(),
{
    if rows.len() > 0 {
        let shorter = rows.drop_last();
        assert forall|m: int| 0 <= m < shorter.len() implies (#[trigger] shorter[m]).impulse_id
            != id by {
            assert(shorter[m] == rows[m]);
        }
        lemma_unnamed_id_keeps_default(shorter, id, default);
    }
}

/// Once the impulses are cached, the impulse of each owned row that no
/// later owned row overrides sits in the slot its id names: the linear slot
/// `id` for an id below `DIM`, the angular slot `id - DIM` otherwise.
pub proof fn lemma_cached_row_reaches_its_slot<N>(
    before: RevoluteConstraint<N>,
    after: RevoluteConstraint<N>,
    c: ConstraintSet<N>,
    j: int,
)
    requires
        before.wf(),
        before.owned_ids_valid(&c),
        after.caches(&before, &c),
        0 <= j < before.owned_rows(&c).len(),
        forall|m: int|
            j < m < before.owned_rows(&c).len() ==> (#[trigger] before.owned_rows(&c)[m]).impulse_id
                != before.owned_rows(&c)[j].impulse_id,
    ensures
        ({
            let row = before.owned_rows(&c)[j];
            match impulse_index_of(before.dim(), row.impulse_id as nat) {
                Some(ImpulseIndex::Linear(k)) => after.lin_impulses_view()[k as int] == row.impulse,
                Some(ImpulseIndex::Angular(k)) => after.ang_impulses_view()[k as int]
                    == row.impulse,
                None => false,
            }
        }),
{
    let rows = before.owned_rows(&c);
    let row = rows[j];
    let lin = before.dim().linear_dof();
    lemma_last_row_wins(rows, j, before.lin_impulses_view()[row.impulse_id as int]);
    if row.impulse_id >= lin {
        let k = row.impulse_id - lin;
        assert(after.ang_impulses_view()[k as int] == last_impulse(
            rows,
            (lin + k) as nat,
            before.ang_impulses_view()[k as int],
        ));
        lemma_last_row_wins(rows, j, before.ang_impulses_view()[k as int]);
    }
}

/// Once the impulses are cached, a slot whose id no owned row carries keeps
/// the impulse it held.
pub proof fn lemma_unnamed_slot_is_kept<N>(
    before: RevoluteConstraint<N>,
    after: RevoluteConstraint<N>,
    c: ConstraintSet<N>,
    id: nat,
)
    requires
        before.wf(),
        after.caches(&before, &c),
        id < before.dim().spatial_dof(),
        forall|m: int|
            0 <= m < before.owned_rows(&c).len() ==> (#[trigger] before.owned_rows(
                &c,
            )[m]).impulse_id != id,
    ensures
        match impulse_index_of(before.dim(), id) {
            Some(ImpulseIndex::Linear(k)) => after.lin_impulses_view()[k as int]
                == before.lin_impulses_view()[k as int],
            Some(ImpulseIndex::Angular(k)) => after.ang_impulses_view()[k as int]
                == before.ang_impulses_view()[k as int],
            None => false,
        },
{
    let rows = before.owned_rows(&c);
    let lin = before.dim().linear_dof();
    if id < lin {
        lemma_unnamed_id_keeps_default(rows, id, before.lin_impulses_view()[id as int]);
    } else {
        let k = id - lin;
        assert(after.ang_impulses_view()[k as int] == last_impulse(
            rows,
            (lin + k) as nat,
            before.ang_impulses_view()[k as int],
        ));
        lemma_unnamed_id_keeps_default(rows, id, before.ang_impulses_view()[k as int]);
    }
}

} // verus!
