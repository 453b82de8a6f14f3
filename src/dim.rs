use vstd::prelude::*;

verus! {

/// The dimensionality of the simulated space, chosen once when a joint is built.
#[derive(Clone, Copy, Debug, PartialEq, Eq, Structural)]
pub enum Dim {
    /// Planar dynamics: two linear and one angular degree of freedom per body.
    Two,
    /// Spatial dynamics: three linear and three angular degrees of freedom per body.
    Three,
}

impl Dim {
    /// Number of linear degrees of freedom of a body.
    pub open spec fn linear_dof(self) -> nat {
        match self {
            Dim::Two => 2,
            Dim::Three => 3,
        }
    }

    /// Number of angular degrees of freedom of a body.
    pub open spec fn angular_dof(self) -> nat {
        match self {
            Dim::Two => 1,
            Dim::Three => 3,
        }
    }

    /// Number of degrees of freedom of a body, linear and angular together.
    pub open spec fn spatial_dof(self) -> nat {
        self.linear_dof() + self.angular_dof()
    }

    /// The linear dimension (`DIM`): also the first impulse id of the angular block.
    pub fn linear_dim(self) -> (r: usize)
        ensures
            r == self.linear_dof(),
    {
        match self {
            Dim::Two => 2,
            Dim::Three => 3,
        }
    }

    /// The angular dimension.
    pub fn angular_dim(self) -> (r: usize)
        ensures
            r == self.angular_dof(),
    {
        match self {
            Dim::Two => 1,
            Dim::Three => 3,
        }
    }

    /// The spatial dimension (`SPATIAL_DIM`): linear plus angular.
    pub fn spatial_dim(self) -> (r: usize)
        ensures
            r == self.spatial_dof(),
    {
        self.linear_dim() + self.angular_dim()
    }
}

} // verus!
