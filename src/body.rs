use vstd::prelude::*;

verus! {

/// A non-owning reference to a body part stored in a [`BodySet`].
#[derive(Clone, Copy, Debug, PartialEq, Eq, Structural)]
pub struct BodyHandle(pub usize);

/// What a joint reads of the bodies it connects: whether each one is active
/// (awake and dynamic), indexed by its handle.
pub struct BodySet {
    active: Vec<bool>,
}

impl View for BodySet {
    type V = Seq<bool>;

    closed spec fn view(&self) -> Seq<bool> {
        self.active@
    }
}

impl BodySet {
    /// A body set whose body `i` is active exactly when `active[i]` holds.
    pub fn new(active: Vec<bool>) -> (r: BodySet)
        ensures
            r@ == active@,
    {
        BodySet { active }
    }

    /// Whether `h` names a body of this set.
    pub open spec fn contains(&self, h: BodyHandle) -> bool {
        h.0 < self@.len()
    }

    /// Number of bodies in the set.
    pub fn len(&self) -> (r: usize)
        ensures
            r == self@.len(),
    {
        self.active.len()
    }

    /// Whether the body named by `h` is active.
    pub fn is_active(&self, h: BodyHandle) -> (r: bool)
        requires
            self.contains(h),
        ensures
            r == self@[h.0 as int],
    {
        self.active[h.0]
    }
}

} // verus!
