use vstd::prelude::*;

verus! {

/// One bilateral velocity row of the shared constraint set, as a joint reads
/// it back after the solver's sweeps: the id of the joint's impulse slot that
/// the row was created for, and the impulse the solver accumulated on it.
#[derive(Clone, Copy, Debug)]
pub struct BilateralConstraint<N> {
    pub impulse_id: usize,
    pub impulse: N,
}

/// The bilateral velocity rows of one step: rows against the ground (one side
/// fixed), and rows between two dynamic bodies.
pub struct VelocityConstraints<N> {
    pub bilateral_ground: Vec<BilateralConstraint<N>>,
    pub bilateral: Vec<BilateralConstraint<N>>,
}

/// The constraint set shared by every joint of a solve.
pub struct ConstraintSet<N> {
    pub velocity: VelocityConstraints<N>,
}

/// The lengths of both row lists of a [`ConstraintSet`] at some moment.
#[derive(Clone, Copy, Debug, PartialEq, Eq, Structural)]
pub struct ConstraintMark {
    pub ground: usize,
    pub paired: usize,
}

impl<N> ConstraintSet<N> {
    /// An empty constraint set.
    pub fn new() -> (r: ConstraintSet<N>)
        ensures
            r.velocity.bilateral_ground@.len() == 0,
            r.velocity.bilateral@.len() == 0,
    {
        ConstraintSet {
            velocity: VelocityConstraints { bilateral_ground: Vec::new(), bilateral: Vec::new() },
        }
    }

    /// The current lengths of the ground and paired row lists.
    pub fn mark(&self) -> (r: ConstraintMark)
        ensures
            r.ground == self.velocity.bilateral_ground@.len(),
            r.paired == self.velocity.bilateral@.len(),
    {
        ConstraintMark {
            ground: self.velocity.bilateral_ground.len(),
            paired: self.velocity.bilateral.len(),
        }
    }
}

} // verus!
