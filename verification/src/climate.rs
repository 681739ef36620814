use vstd::prelude::*;

verus! {

/// Atmospheric/ground category affecting the propagation model's radio
/// refractivity statistics.
#[derive(Clone, Copy, Debug, PartialEq, Eq, Structural)]
pub enum Climate {
    Equatorial,
    ContinentalSubtropical,
    MaritimeSubtropical,
    Desert,
    ContinentalTemperate,
    MaritimeTemperateOverLand,
    MaritimeTemperateOverSea,
}

impl Climate {
    /// The numeric radio-climate code the propagation model expects.
    pub open spec fn spec_code(self) -> u8 {
        match self {
            Climate::Equatorial => 1,
            Climate::ContinentalSubtropical => 2,
            Climate::MaritimeSubtropical => 3,
            Climate::Desert => 4,
            Climate::ContinentalTemperate => 5,
            Climate::MaritimeTemperateOverLand => 6,
            Climate::MaritimeTemperateOverSea => 7,
        }
    }

    /// Converts the climate to the propagation model's numeric code.
    pub fn code(self) -> (r: u8)
        ensures
            r == self.spec_code(),
    {
        match self {
            Climate::Equatorial => 1,
            Climate::ContinentalSubtropical => 2,
            Climate::MaritimeSubtropical => 3,
            Climate::Desert => 4,
            Climate::ContinentalTemperate => 5,
            Climate::MaritimeTemperateOverLand => 6,
            Climate::MaritimeTemperateOverSea => 7,
        }
    }
}

} // verus!
