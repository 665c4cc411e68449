use super::dimensions::Dimension;
use super::props::{UnitProps, UnitPropsView};
use vstd::prelude::*;

verus! {

/// The family of prefixes that may stand before a unit symbol.
#[derive(Debug, Clone, Copy, PartialEq, Eq, Hash, Structural)]
pub enum PrefixGroup {
    SI,
    /// The prefixes of temperature scales.
    Thermal,
    Metric,
    /// No prefix may stand before the symbol.
    NoPrefix,
    Digital,
}

impl PrefixGroup {
    /// The pattern of the group's prefixes, as a piece of a regular
    /// expression; empty for a group without prefixes.
    pub open spec fn pattern(self) -> Seq<char> {
        match self {
            PrefixGroup::SI => "(?:da|[QRYZEPTGMkhdcm\u{03BC}npfazyrq])"@,
            PrefixGroup::Thermal => "(?:deg|\u{00B0})"@,
            PrefixGroup::NoPrefix => ""@,
            PrefixGroup::Metric => ""@,
            PrefixGroup::Digital => ""@,
        }
    }

    pub fn regex_pattern(&self) -> (p: &'static str)
        ensures
            p@ == self.pattern(),
    {
        match self {
            PrefixGroup::SI => "(?:da|[QRYZEPTGMkhdcm\u{03BC}npfazyrq])",
            PrefixGroup::Thermal => "(?:deg|\u{00B0})",
            PrefixGroup::NoPrefix => "",
            PrefixGroup::Metric => "",
            PrefixGroup::Digital => "",
        }
    }
}

/// A unit of the catalog.
#[derive(Debug, Clone, Copy)]
pub struct UnitDef {
    pub symbol: &'static str,
    pub dimension: Dimension,
    /// The symbols above and below the stroke, for a unit that is a quotient.
    pub parts: Option<(&'static str, &'static str)>,
    pub props: UnitProps,
    pub numerator_group: PrefixGroup,
    pub denominator_group: PrefixGroup,
}

/// A unit with its texts as sequences of characters.
#[verifier::ext_equal]
pub struct UnitDefView {
    pub symbol: Seq<char>,
    pub dimension: Dimension,
    pub parts: Option<(Seq<char>, Seq<char>)>,
    pub props: UnitPropsView,
    pub numerator_group: PrefixGroup,
    pub denominator_group: PrefixGroup,
}

impl View for UnitDef {
    type V = UnitDefView;

    open spec fn view(&self) -> UnitDefView {
        UnitDefView {
            symbol: self.symbol@,
            dimension: self.dimension,
            parts: match self.parts {
                Some((above, below)) => Some((above@, below@)),
                None => None,
            },
            props: self.props@,
            numerator_group: self.numerator_group,
            denominator_group: self.denominator_group,
        }
    }
}

impl UnitDef {
    pub fn new(
        symbol: &'static str,
        dimension: Dimension,
        parts: Option<(&'static str, &'static str)>,
        n_grp: PrefixGroup,
        d_grp: PrefixGroup,
        props: UnitProps,
    ) -> (d: Self)
        ensures
            d == (UnitDef {
                symbol,
                dimension,
                parts,
                props,
                numerator_group: n_grp,
                denominator_group: d_grp,
            }),
    {
        Self { symbol, dimension, parts, numerator_group: n_grp, denominator_group: d_grp, props }
    }

    pub fn get_props(&self) -> (p: &UnitProps)
        ensures
            *p == self.props,
    {
        &self.props
    }
}

} // verus!
