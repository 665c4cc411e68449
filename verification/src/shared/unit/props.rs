use super::dimensions::Dimension;
use vstd::prelude::*;

verus! {

/// A real number in IEEE 754 binary64 form, kept as its 64 bits: two numbers
/// are the same number exactly when their bits are the same.
#[derive(Debug, Clone, Copy, PartialEq, Eq, Structural)]
pub struct Real {
    pub bits: u64,
}

/// The bits of 1.
pub const ONE: u64 = 0x3FF0_0000_0000_0000;

/// The bits of 0.
pub const ZERO: u64 = 0;

/// How a value in a unit is taken to the base unit of its dimension.
#[derive(Debug, Clone, Copy, PartialEq, Eq, Structural)]
pub enum CalcMode {
    /// The value times the scale, plus the offset.
    Linear,
    /// Equal steps of the value are equal ratios of the result, between the
    /// offset at 0 and the scale at 100.
    Exponential,
}

/// The dimensions that a unit is made of.
#[derive(Debug, Clone, Copy)]
pub enum Formula {
    /// A quantity without dimension.
    Dimensionless,
    /// One dimension.
    Simple(Dimension),
    /// A quotient of products of dimensions.
    Complex { num: &'static [Dimension], den: &'static [Dimension] },
}

/// A formula with its lists of dimensions as sequences.
#[verifier::ext_equal]
pub enum FormulaView {
    Dimensionless,
    Simple(Dimension),
    Complex { num: Seq<Dimension>, den: Seq<Dimension> },
}

impl View for Formula {
    type V = FormulaView;

    open spec fn view(&self) -> FormulaView {
        match *self {
            Formula::Dimensionless => FormulaView::Dimensionless,
            Formula::Simple(d) => FormulaView::Simple(d),
            Formula::Complex { num, den } => FormulaView::Complex { num: num@, den: den@ },
        }
    }
}

/// How a unit converts, and what it is made of.
#[derive(Debug, Clone, Copy)]
pub struct UnitProps {
    pub scale: Real,
    pub offset: Real,
    pub mode: CalcMode,
    pub formula: Formula,
}

/// The properties of a unit with the lists of dimensions as sequences.
#[verifier::ext_equal]
pub struct UnitPropsView {
    pub scale: Real,
    pub offset: Real,
    pub mode: CalcMode,
    pub formula: FormulaView,
}

impl View for UnitProps {
    type V = UnitPropsView;

    open spec fn view(&self) -> UnitPropsView {
        UnitPropsView {
            scale: self.scale,
            offset: self.offset,
            mode: self.mode,
            formula: self.formula@,
        }
    }
}

impl UnitPropsView {
    /// The properties of a unit that is its dimension's base unit: scale 1,
    /// offset 0, linear, without formula.
    pub open spec fn standard() -> UnitPropsView {
        UnitPropsView {
            scale: Real { bits: ONE },
            offset: Real { bits: ZERO },
            mode: CalcMode::Linear,
            formula: FormulaView::Dimensionless,
        }
    }
}

impl UnitProps {
    /// The properties of a unit that is its dimension's base unit.
    pub fn standard() -> (p: Self)
        ensures
            p@ == UnitPropsView::standard(),
    {
        UnitProps {
            scale: Real { bits: ONE },
            offset: Real { bits: ZERO },
            mode: CalcMode::Linear,
            formula: Formula::Dimensionless,
        }
    }
}

} // verus!
