//! A revolute (hinge) joint for a rigid-body constraint solver.
//!
//! The joint contributes bilateral rows to a shared velocity-constraint set,
//! reads the solved impulses back for warm starting, and drives a nonlinear
//! position-correction pass. The numerical work (Jacobians, world transforms)
//! is done by the solver's constraint helpers; this crate decides which
//! helpers run, with which impulse ids and warm-start values, which rows of
//! the shared set the joint owns, and where each solved impulse is cached.

mod body;
mod constraint_set;
mod dim;
mod impulse;
mod laws;
mod revolute_constraint;

pub use body::{BodyHandle, BodySet};
pub use constraint_set::{BilateralConstraint, ConstraintMark, ConstraintSet, VelocityConstraints};
pub use dim::Dim;
pub use laws::{
    lemma_cached_row_reaches_its_slot, lemma_last_row_wins, lemma_position_generator_ends_at_count,
    lemma_unnamed_id_keeps_default, lemma_unnamed_slot_is_kept,
    lemma_velocity_plan_fills_declared_rows,
};
pub use impulse::{impulse_index_of, ImpulseIndex};
pub use revolute_constraint::{
    helper_rows, last_impulse, lemma_last_impulse_push, plan_rows, Axis, HingeFrame, Point,
    PositionHelper, RevoluteConstraint, VelocityHelper, VelocityRequest,
};
