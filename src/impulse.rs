use vstd::prelude::*;
use crate::dim::Dim;

verus! {

/// Where a joint caches the impulse of a row: a slot of its linear block or
/// of its angular block.
#[derive(Clone, Copy, Debug, PartialEq, Eq, Structural)]
pub enum ImpulseIndex {
    Linear(usize),
    Angular(usize),
}

/// The slot that impulse id `id` names: ids below the linear dimension are
/// linear slots, the following ones angular slots, and the rest none.
pub open spec fn impulse_index_of(dim: Dim, id: nat) -> Option<ImpulseIndex> {
    if id < dim.linear_dof() {
        Some(ImpulseIndex::Linear(id as usize))
    } else if id < dim.spatial_dof() {
        Some(ImpulseIndex::Angular((id - dim.linear_dof()) as usize))
    } else {
        None
    }
}

impl ImpulseIndex {
    /// The slot named by impulse id `id` in dimension `dim`, if there is one.
    pub fn from_id(dim: Dim, id: usize) -> (r: Option<ImpulseIndex>)
        ensures
            r == impulse_index_of(dim, id as nat),
    {
        let lin = dim.linear_dim();
        if id < lin {
            Some(ImpulseIndex::Linear(id))
        } else if id < dim.spatial_dim() {
            Some(ImpulseIndex::Angular(id - lin))
        } else {
            None
        }
    }

    /// The impulse id of this slot: the inverse of [`ImpulseIndex::from_id`].
    pub fn to_id(self, dim: Dim) -> (r: usize)
        requires
            match self {
                ImpulseIndex::Linear(k) => k < dim.linear_dof(),
                ImpulseIndex::Angular(k) => k < dim.angular_dof(),
            },
        ensures
            impulse_index_of(dim, r as nat) == Some(self),
    {
        match self {
            ImpulseIndex::Linear(k) => k,
            ImpulseIndex::Angular(k) => dim.linear_dim() + k,
        }
    }
}

} // verus!
