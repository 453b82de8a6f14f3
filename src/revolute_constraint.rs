use vstd::prelude::*;
use core::ops::Range;
use crate::body::{BodyHandle, BodySet};
use crate::constraint_set::{BilateralConstraint, ConstraintMark, ConstraintSet};
use crate::dim::Dim;
use crate::impulse::ImpulseIndex;

verus! {

/// A point given by its coordinates in a body part's local frame.
#[derive(Debug)]
pub struct Point<N> {
    pub coords: Vec<N>,
}

/// A unit direction given by its coordinates in a body part's local frame.
#[derive(Debug)]
pub struct Axis<N> {
    pub coords: Vec<N>,
}

/// The shape of a hinge: in the plane rotation is the only angular freedom,
/// in space each body carries the local axis about which rotation stays free.
pub enum HingeFrame<N> {
    Planar,
    Spatial { axis1: Axis<N>, axis2: Axis<N> },
}

/// The impulse of the last row of `rows` whose impulse id is `id`, or
/// `default` where no row has that id: what a slot holds once the rows have
/// been cached in order.
pub open spec fn last_impulse<N>(rows: Seq<BilateralConstraint<N>>, id: nat, default: N) -> N
    decreases rows.len(),
{
    if rows.len() == 0 {
        default
    } else if rows.last().impulse_id == id {
        rows.last().impulse
    } else {
        last_impulse(rows.drop_last(), id, default)
    }
}

/// Appending a row changes only the slot that the row's id names.
pub proof fn lemma_last_impulse_push<N>(
    rows: Seq<BilateralConstraint<N>>,
    row: BilateralConstraint<N>,
    id: nat,
    default: N,
)
    ensures
        last_impulse(rows.push(row), id, default) == (if row.impulse_id == id {
            row.impulse
        } else {
            last_impulse(rows, id, default)
        }),
{
    assert(rows.push(row).drop_last() =~= rows);
}

/// A velocity-level constraint helper of the solver.
#[derive(Clone, Copy, Debug, PartialEq, Eq, Structural)]
pub enum VelocityHelper {
    /// Cancels the relative linear velocity of the two anchors: one row per
    /// linear degree of freedom.
    CancelRelativeLinearVelocity,
    /// Restricts the relative angular velocity to the first body's world
    /// axis: one row per angular degree of freedom but one.
    RestrictRelativeAngularVelocityToAxis,
}

/// Number of rows that `helper` appends to the constraint set.
pub open spec fn helper_rows(dim: Dim, helper: VelocityHelper) -> nat {
    match helper {
        VelocityHelper::CancelRelativeLinearVelocity => dim.linear_dof(),
        VelocityHelper::RestrictRelativeAngularVelocityToAxis => (dim.angular_dof() - 1) as nat,
    }
}

/// Number of rows that the helpers of `plan` append, together.
pub open spec fn plan_rows(dim: Dim, plan: Seq<(VelocityHelper, usize)>) -> nat
    decreases plan.len(),
{
    if plan.len() == 0 {
        0
    } else {
        plan_rows(dim, plan.drop_last()) + helper_rows(dim, plan.last().0)
    }
}

/// One helper call of a velocity-constraint emission: which helper, the
/// impulse id of its first row, and the impulses that warm-start its rows.
pub struct VelocityRequest<N> {
    pub helper: VelocityHelper,
    pub impulse_offset: usize,
    pub warm_start: Vec<N>,
}

/// A position-level constraint helper of the solver.
#[derive(Clone, Copy, Debug, PartialEq, Eq, Structural)]
pub enum PositionHelper {
    /// Drives the two world anchors together.
    CancelRelativeTranslation,
    /// Drives the two world axes parallel.
    AlignAxis,
}

/// A constraint that removes all relative motion between two body parts but
/// one rotation: about the shared anchor in the plane, about the shared axis
/// in space.
pub struct RevoluteConstraint<N> {
    b1: BodyHandle,
    b2: BodyHandle,
    anchor1: Point<N>,
    anchor2: Point<N>,
    frame: HingeFrame<N>,
    lin_impulses: Vec<N>,
    ang_impulses: Vec<N>,
    bilateral_ground_rng: Range<usize>,
    bilateral_rng: Range<usize>,
}

/// A vector of `n` copies of `v`.
fn filled<N: Copy>(n: usize, v: N) -> (r: Vec<N>)
    ensures
        r@ == Seq::new(n as nat, |i: int| v),
{
    let mut r: Vec<N> = Vec::new();
    let mut i: usize = 0;
    while i < n
        invariant
            i <= n,
            r@ == Seq::new(i as nat, |k: int| v),
        decreases n - i,
    {
        r.push(v);
        i = i + 1;
        assert(r@ =~= Seq::new(i as nat, |k: int| v));
    }
    r
}

/// A copy of `v`, element by element.
fn copied<N: Copy>(v: &Vec<N>) -> (r: Vec<N>)
    ensures
        r@ == v@,
{
    let mut r: Vec<N> = Vec::new();
    let mut i: usize = 0;
    while i < v.len()
        invariant
            i <= v.len(),
            r@ == v@.subrange(0, i as int),
        decreases v.len() - i,
    {
        r.push(v[i]);
        i = i + 1;
        assert(r@ =~= v@.subrange(0, i as int));
    }
    assert(v@.subrange(0, v@.len() as int) =~= v@);
    r
}

impl<N> RevoluteConstraint<N> {
    /// The first connected body.
    pub closed spec fn body1(&self) -> BodyHandle {
        self.b1
    }

    /// The second connected body.
    pub closed spec fn body2(&self) -> BodyHandle {
        self.b2
    }

    /// The local anchor on the first body.
    pub closed spec fn local_anchor1(&self) -> Seq<N> {
        self.anchor1.coords@
    }

    /// The local anchor on the second body.
    pub closed spec fn local_anchor2(&self) -> Seq<N> {
        self.anchor2.coords@
    }

    /// The local axes, in space; `None` in the plane.
    pub closed spec fn local_axes(&self) -> Option<(Seq<N>, Seq<N>)> {
        match self.frame {
            HingeFrame::Planar => None,
            HingeFrame::Spatial { axis1, axis2 } => Some((axis1.coords@, axis2.coords@)),
        }
    }

    /// The dimension the joint was built for.
    pub open spec fn dim(&self) -> Dim {
        if self.local_axes() is Some {
            Dim::Three
        } else {
            Dim::Two
        }
    }

    /// The cached linear impulses, one per linear degree of freedom.
    pub closed spec fn lin_impulses_view(&self) -> Seq<N> {
        self.lin_impulses@
    }

    /// The cached angular impulses, one per angular degree of freedom.
    pub closed spec fn ang_impulses_view(&self) -> Seq<N> {
        self.ang_impulses@
    }

    /// The ground rows that the last emission appended.
    pub closed spec fn ground_range(&self) -> Range<usize> {
        self.bilateral_ground_rng
    }

    /// The paired rows that the last emission appended.
    pub closed spec fn paired_range(&self) -> Range<usize> {
        self.bilateral_rng
    }

    /// Well-formedness: the anchors, axes and impulse blocks have the sizes
    /// that the dimension gives, and both ranges are ordered.
    pub open spec fn wf(&self) -> bool {
        &&& self.local_anchor1().len() == self.dim().linear_dof()
        &&& self.local_anchor2().len() == self.dim().linear_dof()
        &&& (self.local_axes() matches Some((a1, a2)) ==> a1.len() == 3 && a2.len() == 3)
        &&& self.lin_impulses_view().len() == self.dim().linear_dof()
        &&& self.ang_impulses_view().len() == self.dim().angular_dof()
        &&& self.ground_range().start <= self.ground_range().end
        &&& self.paired_range().start <= self.paired_range().end
    }

    /// The two joints agree on everything but the cached impulses.
    pub open spec fn same_layout(&self, other: &Self) -> bool {
        &&& self.body1() == other.body1()
        &&& self.body2() == other.body2()
        &&& self.local_anchor1() == other.local_anchor1()
        &&& self.local_anchor2() == other.local_anchor2()
        &&& self.local_axes() == other.local_axes()
        &&& self.ground_range() == other.ground_range()
        &&& self.paired_range() == other.paired_range()
    }

    /// Both recorded ranges lie inside the row lists of `c`.
    pub open spec fn ranges_within(&self, c: &ConstraintSet<N>) -> bool {
        &&& self.ground_range().end <= c.velocity.bilateral_ground@.len()
        &&& self.paired_range().end <= c.velocity.bilateral@.len()
    }

    /// The rows of `c` that this joint owns: its ground rows, then its paired rows.
    pub open spec fn owned_rows(&self, c: &ConstraintSet<N>) -> Seq<BilateralConstraint<N>> {
        c.velocity.bilateral_ground@.subrange(
            self.ground_range().start as int,
            self.ground_range().end as int,
        ) + c.velocity.bilateral@.subrange(
            self.paired_range().start as int,
            self.paired_range().end as int,
        )
    }

    /// Every owned row of `c` carries an impulse id that names one of the joint's slots.
    pub open spec fn owned_ids_valid(&self, c: &ConstraintSet<N>) -> bool {
        forall|j: int|
            0 <= j < self.owned_rows(c).len() ==> (#[trigger] self.owned_rows(c)[j]).impulse_id
                < self.dim().spatial_dof()
    }

    /// `self` is `before` with the owned rows of `c` cached in order: each
    /// linear slot `k` holds the impulse of the last row with id `k`, each
    /// angular slot `k` that of the last row with id `DIM + k`, and a slot
    /// that no row names keeps its value.
    pub open spec fn caches(&self, before: &Self, c: &ConstraintSet<N>) -> bool {
        let rows = before.owned_rows(c);
        &&& self.same_layout(before)
        &&& self.lin_impulses_view().len() == before.lin_impulses_view().len()
        &&& self.ang_impulses_view().len() == before.ang_impulses_view().len()
        &&& forall|k: int|
            0 <= k < self.lin_impulses_view().len() ==> #[trigger] self.lin_impulses_view()[k]
                == last_impulse(rows, k as nat, before.lin_impulses_view()[k])
        &&& forall|k: int|
            0 <= k < self.ang_impulses_view().len() ==> #[trigger] self.ang_impulses_view()[k]
                == last_impulse(
                rows,
                (before.dim().linear_dof() + k) as nat,
                before.ang_impulses_view()[k],
            )
    }
}

impl<N: Copy> RevoluteConstraint<N> {
    /// A spatial revolute constraint that keeps `anchor1` on `b1` at
    /// `anchor2` on `b2` and `axis1` aligned with `axis2`, all given in the
    /// local frames of their bodies. The impulse caches start at `zero`, the
    /// zero of the impulse scalar, and no rows are owned yet.
    pub fn new(
        b1: BodyHandle,
        b2: BodyHandle,
        anchor1: Point<N>,
        axis1: Axis<N>,
        anchor2: Point<N>,
        axis2: Axis<N>,
        zero: N,
    ) -> (r: Self)
        requires
            anchor1.coords@.len() == 3,
            anchor2.coords@.len() == 3,
            axis1.coords@.len() == 3,
            axis2.coords@.len() == 3,
        ensures
            r.wf(),
            r.dim() == Dim::Three,
            r.body1() == b1,
            r.body2() == b2,
            r.local_anchor1() == anchor1.coords@,
            r.local_anchor2() == anchor2.coords@,
            r.local_axes() == Some((axis1.coords@, axis2.coords@)),
            r.lin_impulses_view() == Seq::new(3, |i: int| zero),
            r.ang_impulses_view() == Seq::new(3, |i: int| zero),
            r.ground_range() == (Range { start: 0usize, end: 0usize }),
            r.paired_range() == (Range { start: 0usize, end: 0usize }),
    {
        RevoluteConstraint {
            b1,
            b2,
            anchor1,
            anchor2,
            frame: HingeFrame::Spatial { axis1, axis2 },
            lin_impulses: filled(3, zero),
            ang_impulses: filled(3, zero),
            bilateral_ground_rng: Range { start: 0, end: 0 },
            bilateral_rng: Range { start: 0, end: 0 },
        }
    }

    /// A planar revolute constraint that keeps `anchor1` on `b1` at
    /// `anchor2` on `b2`, both given in the local frames of their bodies.
    /// The impulse caches start at `zero` and no rows are owned yet.
    pub fn new_planar(
        b1: BodyHandle,
        b2: BodyHandle,
        anchor1: Point<N>,
        anchor2: Point<N>,
        zero: N,
    ) -> (r: Self)
        requires
            anchor1.coords@.len() == 2,
            anchor2.coords@.len() == 2,
        ensures
            r.wf(),
            r.dim() == Dim::Two,
            r.body1() == b1,
            r.body2() == b2,
            r.local_anchor1() == anchor1.coords@,
            r.local_anchor2() == anchor2.coords@,
            r.local_axes() is None,
            r.lin_impulses_view() == Seq::new(2, |i: int| zero),
            r.ang_impulses_view() == Seq::new(1, |i: int| zero),
            r.ground_range() == (Range { start: 0usize, end: 0usize }),
            r.paired_range() == (Range { start: 0usize, end: 0usize }),
    {
        RevoluteConstraint {
            b1,
            b2,
            anchor1,
            anchor2,
            frame: HingeFrame::Planar,
            lin_impulses: filled(2, zero),
            ang_impulses: filled(1, zero),
            bilateral_ground_rng: Range { start: 0, end: 0 },
            bilateral_rng: Range { start: 0, end: 0 },
        }
    }

    /// The dimension the joint was built for.
    pub fn dimension(&self) -> (r: Dim)
        ensures
            r == self.dim(),
    {
        match self.frame {
            HingeFrame::Planar => Dim::Two,
            HingeFrame::Spatial { .. } => Dim::Three,
        }
    }

    /// Stores the impulse of `c` in the slot that its id names.
    fn store_impulse(&mut self, c: &BilateralConstraint<N>)
        requires
            old(self).wf(),
            c.impulse_id < old(self).dim().spatial_dof(),
        ensures
            final(self).wf(),
            final(self).same_layout(old(self)),
            final(self).lin_impulses_view().len() == old(self).lin_impulses_view().len(),
            final(self).ang_impulses_view().len() == old(self).ang_impulses_view().len(),
            forall|k: int|
                0 <= k < final(self).lin_impulses_view().len() ==> #[trigger] final(self).lin_impulses_view()[k] == if c.impulse_id == k {
                    c.impulse
                } else {
                    old(self).lin_impulses_view()[k]
                },
            forall|k: int|
                0 <= k < final(self).ang_impulses_view().len() ==> #[trigger] final(self).ang_impulses_view()[k] == if c.impulse_id == old(self).dim().linear_dof() + k {
                    c.impulse
                } else {
                    old(self).ang_impulses_view()[k]
                },
    {
        let dim = self.dimension();
        match ImpulseIndex::from_id(dim, c.impulse_id) {
            Some(ImpulseIndex::Linear(k)) => {
                self.lin_impulses.set(k, c.impulse);
            },
            Some(ImpulseIndex::Angular(k)) => {
                self.ang_impulses.set(k, c.impulse);
            },
            None => {},
        }
    }

    /// Reads back the impulses that the solver accumulated on the rows this
    /// joint owns, ground rows first, and caches each in the linear or
    /// angular slot that its impulse id names, for warm starting the next
    /// step. Later rows with the same id overwrite earlier ones.
    pub fn cache_impulses(&mut self, constraints: &ConstraintSet<N>)
        requires
            old(self).wf(),
            old(self).ranges_within(constraints),
            old(self).owned_ids_valid(constraints),
        ensures
            final(self).wf(),
            final(self).caches(old(self), constraints),
    {
        let ghost before = *self;
        let ghost ground = constraints.velocity.bilateral_ground@;
        let ghost paired = constraints.velocity.bilateral@;
        let ghost rows = before.owned_rows(constraints);
        let ghost lin_len = before.dim().linear_dof();
        let ghost n_ground = (before.ground_range().end - before.ground_range().start) as int;
        let g_start = self.bilateral_ground_rng.start;
        let g_end = self.bilateral_ground_rng.end;
        let mut i = g_start;
        while i < g_end
            invariant
                g_start <= i <= g_end,
                g_start == before.ground_range().start,
                g_end == before.ground_range().end,
                g_end <= constraints.velocity.bilateral_ground@.len(),
                ground == constraints.velocity.bilateral_ground@,
                paired == constraints.velocity.bilateral@,
                rows == before.owned_rows(constraints),
                before.wf(),
                before.owned_ids_valid(constraints),
                before.ranges_within(constraints),
                lin_len == before.dim().linear_dof(),
                n_ground == g_end - g_start,
                self.wf(),
                self.same_layout(&before),
                self.lin_impulses_view().len() == before.lin_impulses_view().len(),
                self.ang_impulses_view().len() == before.ang_impulses_view().len(),
                forall|k: int|
                    0 <= k < self.lin_impulses_view().len() ==> #[trigger] self.lin_impulses_view()[k]
                        == last_impulse(
                        ground.subrange(g_start as int, i as int),
                        k as nat,
                        before.lin_impulses_view()[k],
                    ),
                forall|k: int|
                    0 <= k < self.ang_impulses_view().len() ==> #[trigger] self.ang_impulses_view()[k]
                        == last_impulse(
                        ground.subrange(g_start as int, i as int),
                        (lin_len + k) as nat,
                        before.ang_impulses_view()[k],
                    ),
            decreases g_end - i,
        {
            let c = &constraints.velocity.bilateral_ground[i];
            assert(rows[i - g_start] == *c);
            self.store_impulse(c);
            let ghost prefix = ground.subrange(g_start as int, i as int);
            assert(ground.subrange(g_start as int, i + 1) =~= prefix.push(*c));
            assert forall|id: nat, d: N|
                last_impulse(#[trigger] prefix.push(*c), id, d) == (if c.impulse_id == id {
                    c.impulse
                } else {
                    last_impulse(prefix, id, d)
                }) by {
                lemma_last_impulse_push(prefix, *c, id, d);
            }
            i = i + 1;
        }
        assert(ground.subrange(g_start as int, g_end as int) + paired.subrange(
            before.paired_range().start as int,
            before.paired_range().start as int,
        ) =~= ground.subrange(g_start as int, g_end as int));
        let p_start = self.bilateral_rng.start;
        let p_end = self.bilateral_rng.end;
        let mut j = p_start;
        while j < p_end
            invariant
                p_start <= j <= p_end,
                p_start == before.paired_range().start,
                p_end == before.paired_range().end,
                p_end <= constraints.velocity.bilateral@.len(),
                ground == constraints.velocity.bilateral_ground@,
                paired == constraints.velocity.bilateral@,
                rows == before.owned_rows(constraints),
                before.wf(),
                before.owned_ids_valid(constraints),
                before.ranges_within(constraints),
                lin_len == before.dim().linear_dof(),
                n_ground == before.ground_range().end - before.ground_range().start,
                self.wf(),
                self.same_layout(&before),
                self.lin_impulses_view().len() == before.lin_impulses_view().len(),
                self.ang_impulses_view().len() == before.ang_impulses_view().len(),
                forall|k: int|
                    0 <= k < self.lin_impulses_view().len() ==> #[trigger] self.lin_impulses_view()[k]
                        == last_impulse(
                        ground.subrange(
                            before.ground_range().start as int,
                            before.ground_range().end as int,
                        ) + paired.subrange(p_start as int, j as int),
                        k as nat,
                        before.lin_impulses_view()[k],
                    ),
                forall|k: int|
                    0 <= k < self.ang_impulses_view().len() ==> #[trigger] self.ang_impulses_view()[k]
                        == last_impulse(
                        ground.subrange(
                            before.ground_range().start as int,
                            before.ground_range().end as int,
                        ) + paired.subrange(p_start as int, j as int),
                        (lin_len + k) as nat,
                        before.ang_impulses_view()[k],
                    ),
            decreases p_end - j,
        {
            let c = &constraints.velocity.bilateral[j];
            assert(rows[n_ground + (j - p_start)] == *c);
            self.store_impulse(c);
            let ghost prefix = ground.subrange(
                before.ground_range().start as int,
                before.ground_range().end as int,
            ) + paired.subrange(p_start as int, j as int);
            assert(ground.subrange(
                before.ground_range().start as int,
                before.ground_range().end as int,
            ) + paired.subrange(p_start as int, j + 1) =~= prefix.push(*c));
            assert forall|id: nat, d: N|
                last_impulse(#[trigger] prefix.push(*c), id, d) == (if c.impulse_id == id {
                    c.impulse
                } else {
                    last_impulse(prefix, id, d)
                }) by {
                lemma_last_impulse_push(prefix, *c, id, d);
            }
            j = j + 1;
        }
    }
}

impl<N> RevoluteConstraint<N> {
    /// The helpers of a velocity-constraint emission, in order, each with the
    /// impulse id of its first row: the linear block first, at id 0, then in
    /// space the angular block, at id `DIM`.
    pub open spec fn velocity_plan(&self) -> Seq<(VelocityHelper, usize)> {
        if self.dim() == Dim::Three {
            seq![
                (VelocityHelper::CancelRelativeLinearVelocity, 0usize),
                (VelocityHelper::RestrictRelativeAngularVelocityToAxis, 3usize),
            ]
        } else {
            seq![(VelocityHelper::CancelRelativeLinearVelocity, 0usize)]
        }
    }

    /// The impulses that warm-start the rows of `helper`.
    pub open spec fn warm_start_of(&self, helper: VelocityHelper) -> Seq<N> {
        match helper {
            VelocityHelper::CancelRelativeLinearVelocity => self.lin_impulses_view(),
            VelocityHelper::RestrictRelativeAngularVelocityToAxis => self.ang_impulses_view(),
        }
    }

    /// The joint is active when at least one of its bodies is.
    pub open spec fn active_in(&self, bodies: &BodySet) -> bool {
        bodies@[self.body1().0 as int] || bodies@[self.body2().0 as int]
    }

    /// Both bodies of the joint belong to `bodies`.
    pub open spec fn bodies_in(&self, bodies: &BodySet) -> bool {
        bodies.contains(self.body1()) && bodies.contains(self.body2())
    }

    /// Number of position constraints: none while inactive, else the anchor
    /// constraint, and in space the axis constraint too.
    pub open spec fn position_count(&self, active: bool) -> nat {
        if !active {
            0
        } else if self.dim() == Dim::Three {
            2
        } else {
            1
        }
    }

    /// The helper that produces position constraint `i`, if there is one.
    pub open spec fn position_helper(&self, i: nat) -> Option<PositionHelper> {
        if i == 0 {
            Some(PositionHelper::CancelRelativeTranslation)
        } else if i == 1 && self.dim() == Dim::Three {
            Some(PositionHelper::AlignAxis)
        } else {
            None
        }
    }
}

impl<N: Copy> RevoluteConstraint<N> {
    /// Number of velocity rows the joint emits: every degree of freedom of a
    /// body but the free rotation.
    pub fn num_velocity_constraints(&self) -> (r: usize)
        ensures
            r == self.dim().spatial_dof() - 1,
    {
        self.dimension().spatial_dim() - 1
    }

    /// The two connected bodies.
    pub fn anchors(&self) -> (r: (BodyHandle, BodyHandle))
        ensures
            r == (self.body1(), self.body2()),
    {
        (self.b1, self.b2)
    }

    /// The helper calls of one velocity-constraint emission, in the order in
    /// which they must run: the cancellation of relative linear velocity,
    /// warm-started with the linear impulses, then in space the restriction
    /// of relative angular velocity to the axis, warm-started with the
    /// angular impulses and with ids offset by `DIM`.
    pub fn velocity_requests(&self) -> (r: Vec<VelocityRequest<N>>)
        requires
            self.wf(),
        ensures
            r@.len() == self.velocity_plan().len(),
            forall|i: int|
                0 <= i < r@.len() ==> (#[trigger] r@[i]).helper == self.velocity_plan()[i].0
                    && r@[i].impulse_offset == self.velocity_plan()[i].1
                    && r@[i].warm_start@ == self.warm_start_of(r@[i].helper),
    {
        let mut r: Vec<VelocityRequest<N>> = Vec::new();
        r.push(
            VelocityRequest {
                helper: VelocityHelper::CancelRelativeLinearVelocity,
                impulse_offset: 0,
                warm_start: copied(&self.lin_impulses),
            },
        );
        match self.frame {
            HingeFrame::Planar => {},
            HingeFrame::Spatial { .. } => {
                r.push(
                    VelocityRequest {
                        helper: VelocityHelper::RestrictRelativeAngularVelocityToAxis,
                        impulse_offset: Dim::Three.linear_dim(),
                        warm_start: copied(&self.ang_impulses),
                    },
                );
            },
        }
        r
    }

    /// Records the rows appended to `constraints` since `mark` was taken,
    /// once the helpers of [`RevoluteConstraint::velocity_requests`] have run,
    /// as the rows this joint owns for the step.
    pub fn velocity_constraints(&mut self, mark: ConstraintMark, constraints: &ConstraintSet<N>)
        requires
            old(self).wf(),
            mark.ground <= constraints.velocity.bilateral_ground@.len(),
            mark.paired <= constraints.velocity.bilateral@.len(),
        ensures
            final(self).wf(),
            final(self).body1() == old(self).body1(),
            final(self).body2() == old(self).body2(),
            final(self).local_anchor1() == old(self).local_anchor1(),
            final(self).local_anchor2() == old(self).local_anchor2(),
            final(self).local_axes() == old(self).local_axes(),
            final(self).lin_impulses_view() == old(self).lin_impulses_view(),
            final(self).ang_impulses_view() == old(self).ang_impulses_view(),
            final(self).ground_range() == (Range {
                start: mark.ground,
                end: constraints.velocity.bilateral_ground@.len() as usize,
            }),
            final(self).paired_range() == (Range {
                start: mark.paired,
                end: constraints.velocity.bilateral@.len() as usize,
            }),
            final(self).ranges_within(constraints),
    {
        self.bilateral_ground_rng = Range {
            start: mark.ground,
            end: constraints.velocity.bilateral_ground.len(),
        };
        self.bilateral_rng = Range { start: mark.paired, end: constraints.velocity.bilateral.len() };
    }

    /// Whether the joint takes part in position correction: at least one of
    /// its bodies is active.
    pub fn is_active(&self, bodies: &BodySet) -> (r: bool)
        requires
            self.bodies_in(bodies),
        ensures
            r == self.active_in(bodies),
    {
        bodies.is_active(self.b1) || bodies.is_active(self.b2)
    }

    /// Number of position constraints the joint needs now: 0 while inactive,
    /// else 1 in the plane (anchors) and 2 in space (anchors and axes).
    pub fn num_position_constraints(&self, bodies: &BodySet) -> (r: usize)
        requires
            self.bodies_in(bodies),
        ensures
            r == self.position_count(self.active_in(bodies)),
    {
        if self.is_active(bodies) {
            match self.frame {
                HingeFrame::Planar => 1,
                HingeFrame::Spatial { .. } => 2,
            }
        } else {
            0
        }
    }

    /// The helper that produces position constraint `i`: the anchor
    /// constraint for 0, in space the axis constraint for 1, and none past
    /// the last, which ends the generator for this pass.
    pub fn position_constraint(&self, i: usize) -> (r: Option<PositionHelper>)
        ensures
            r == self.position_helper(i as nat),
    {
        if i == 0 {
            return Some(PositionHelper::CancelRelativeTranslation);
        }
        match self.frame {
            HingeFrame::Spatial { .. } => {
                if i == 1 {
                    return Some(PositionHelper::AlignAxis);
                }
            },
            HingeFrame::Planar => {},
        }
        None
    }
}

impl<N> RevoluteConstraint<N> {
    /// The local anchor on the first body.
    pub fn anchor1(&self) -> (r: &Point<N>)
        ensures
            r.coords@ == self.local_anchor1(),
    {
        &self.anchor1
    }

    /// The local anchor on the second body.
    pub fn anchor2(&self) -> (r: &Point<N>)
        ensures
            r.coords@ == self.local_anchor2(),
    {
        &self.anchor2
    }

    /// The local axes of both bodies, in space; `None` in the plane.
    pub fn axes(&self) -> (r: Option<(&Axis<N>, &Axis<N>)>)
        ensures
            match r {
                Some((a1, a2)) => self.local_axes() == Some((a1.coords@, a2.coords@)),
                None => self.local_axes() is None,
            },
    {
        match &self.frame {
            HingeFrame::Planar => None,
            HingeFrame::Spatial { axis1, axis2 } => Some((axis1, axis2)),
        }
    }

    /// The cached linear impulses.
    pub fn lin_impulses(&self) -> (r: &Vec<N>)
        ensures
            r@ == self.lin_impulses_view(),
    {
        &self.lin_impulses
    }

    /// The cached angular impulses.
    pub fn ang_impulses(&self) -> (r: &Vec<N>)
        ensures
            r@ == self.ang_impulses_view(),
    {
        &self.ang_impulses
    }

    /// The ground rows owned since the last emission.
    pub fn bilateral_ground_rng(&self) -> (r: Range<usize>)
        ensures
            r == self.ground_range(),
    {
        Range { start: self.bilateral_ground_rng.start, end: self.bilateral_ground_rng.end }
    }

    /// The paired rows owned since the last emission.
    pub fn bilateral_rng(&self) -> (r: Range<usize>)
        ensures
            r == self.paired_range(),
    {
        Range { start: self.bilateral_rng.start, end: self.bilateral_rng.end }
    }
}

} // verus!
