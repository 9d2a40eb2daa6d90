//! The colours of the single status light.
use vstd::prelude::*;

verus! {

/// A colour of the status light; the last one written stays shown.
#[derive(Clone, Copy, Debug, PartialEq, Eq, Structural)]
pub enum IndicatorColor {
    Off,
    Red,
    Green,
    Blue,
    Yellow,
}

/// The red, green and blue intensities that show a colour.
pub open spec fn rgb_of(c: IndicatorColor) -> (u8, u8, u8) {
    match c {
        IndicatorColor::Yellow => (150, 50, 5),
        IndicatorColor::Red => (150, 0, 0),
        IndicatorColor::Green => (0, 60, 0),
        IndicatorColor::Blue => (0, 0, 30),
        IndicatorColor::Off => (0, 0, 0),
    }
}

impl IndicatorColor {
    /// The red, green and blue intensities written to the light for this colour.
    pub fn rgb(&self) -> (r: (u8, u8, u8))
        ensures
            r == rgb_of(*self),
    {
        match self {
            IndicatorColor::Yellow => (150, 50, 5),
            IndicatorColor::Red => (150, 0, 0),
            IndicatorColor::Green => (0, 60, 0),
            IndicatorColor::Blue => (0, 0, 30),
            IndicatorColor::Off => (0, 0, 0),
        }
    }
}

} // verus!
