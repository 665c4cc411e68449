use vstd::prelude::*;

verus! {

/// The physical quantity that a unit measures. Quantities of different
/// dimensions cannot be mixed.
#[derive(Debug, Clone, Copy, PartialEq, Eq, Structural)]
pub enum Dimension {
    Length,
    Mass,
    Time,
    Amount,
    Temperature,
    Frequency,
    AreaDensity,
    Density,
    Velocity,
    Acceleration,
    Jerk,
    Snap,
    Crackle,
    Pop,
    Size,
    BitRate,
    Percent,
    Fraction,
    Degree,
    Radian,
    Dimension,
}

} // verus!
