use vstd::prelude::*;

verus! {

/// Statistical assumption about how the propagation model combines its
/// confidence percentiles: loss for a single message, accidental
/// reception, continuous mobile service, or broadcast service.
#[derive(Clone, Copy, Debug, PartialEq, Eq, Structural)]
pub enum ModeVariability {
    SingleMessage,
    Accidental,
    Mobile,
    Broadcast,
}

impl ModeVariability {
    /// The numeric variability-mode code the propagation model expects.
    pub open spec fn spec_code(self) -> u8 {
        match self {
            ModeVariability::SingleMessage => 0,
            ModeVariability::Accidental => 1,
            ModeVariability::Mobile => 2,
            ModeVariability::Broadcast => 3,
        }
    }

    /// Converts the variability mode to the propagation model's numeric code.
    pub fn code(self) -> (r: u8)
        ensures
            r == self.spec_code(),
    {
        match self {
            ModeVariability::SingleMessage => 0,
            ModeVariability::Accidental => 1,
            ModeVariability::Mobile => 2,
            ModeVariability::Broadcast => 3,
        }
    }
}

} // verus!
