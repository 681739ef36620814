use vstd::prelude::*;

verus! {

/// Antenna electromagnetic field orientation, affecting ground
/// reflection behavior in the propagation model.
#[derive(Clone, Copy, Debug, PartialEq, Eq, Structural)]
pub enum Polarization {
    Horizontal,
    Vertical,
}

impl Polarization {
    /// The numeric polarization code the propagation model expects.
    pub open spec fn spec_code(self) -> u8 {
        match self {
            Polarization::Horizontal => 0,
            Polarization::Vertical => 1,
        }
    }

    /// Converts the polarization to the propagation model's numeric code.
    pub fn code(self) -> (r: u8)
        ensures
            r == self.spec_code(),
    {
        match self {
            Polarization::Horizontal => 0,
            Polarization::Vertical => 1,
        }
    }
}

} // verus!
