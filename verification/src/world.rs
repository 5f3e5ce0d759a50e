use vstd::prelude::*;

verus! {

/// One of the two mutually exclusive global modes. The mode selects which
/// ability slot of the actor is active.
#[derive(Debug, Copy, Clone, PartialEq, Eq, Structural)]
pub enum WorldType {
    Light,
    Dark,
}

impl WorldType {
    /// The other world.
    pub open spec fn spec_inverse(self) -> WorldType {
        match self {
            WorldType::Light => WorldType::Dark,
            WorldType::Dark => WorldType::Light,
        }
    }

    /// Returns the other world.
    #[verifier::when_used_as_spec(spec_inverse)]
    pub fn inverse(self) -> (res: WorldType)
        ensures
            res == self.spec_inverse(),
    {
        match self {
            WorldType::Light => WorldType::Dark,
            WorldType::Dark => WorldType::Light,
        }
    }

    /// Switching worlds twice returns to the world one started in.
    pub proof fn lemma_inverse_involutive(self)
        ensures
            self.inverse().inverse() == self,
            self.inverse() != self,
    {
    }
}

} // verus!
