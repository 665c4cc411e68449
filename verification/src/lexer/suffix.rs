use crate::text::range_is;
use crate::lexer::token_type::TokenType;
use vstd::prelude::*;

verus! {

/// The symbols of a frequency.
pub open spec fn is_frequency_symbol(s: Seq<char>) -> bool {
    s == "Hz"@ || s == "kHz"@ || s == "MHz"@ || s == "GHz"@ || s == "THz"@
}

/// The symbols of an amount of data.
pub open spec fn is_size_symbol(s: Seq<char>) -> bool {
    s == "b"@ || s == "B"@ || s == "Kb"@ || s == "MB"@ || s == "GB"@ || s == "TB"@
}

/// The symbols of an angle.
pub open spec fn is_degree_symbol(s: Seq<char>) -> bool {
    s == "deg"@ || s == "rad"@ || s == "\u{00B0}"@
}

/// The symbols of a length.
pub open spec fn is_length_symbol(s: Seq<char>) -> bool {
    s == "\u{00B5}m"@ || s == "\u{03BC}m"@ || s == "nm"@ || s == "mm"@ || s == "cm"@ ||
    s == "m"@ || s == "km"@ || s == "Mm"@ || s == "ft"@ || s == "mi"@ || s == "em"@ ||
    s == "rem"@ || s == "pt"@ || s == "in"@ || s == "px"@ || s == "pc"@
}

/// The symbols of a time.
pub open spec fn is_time_symbol(s: Seq<char>) -> bool {
    s == "ns"@ || s == "\u{03BC}s"@ || s == "\u{00B5}s"@ || s == "ms"@ || s == "sec"@ ||
    s == "min"@ || s == "hour"@ || s == "day"@ || s == "week"@ || s == "month"@ || s == "year"@
}

/// The symbols of a count of dimensions.
pub open spec fn is_dimension_symbol(s: Seq<char>) -> bool {
    s == "D"@
}

/// The symbols of a weight.
pub open spec fn is_weight_symbol(s: Seq<char>) -> bool {
    s == "ng"@ || s == "\u{03BC}g"@ || s == "mg"@ || s == "g"@ || s == "kg"@ || s == "t"@ ||
    s == "kt"@ || s == "lb"@ || s == "oz"@
}

/// The symbols of a speed.
pub open spec fn is_speed_symbol(s: Seq<char>) -> bool {
    s == "m/s"@ || s == "m/h"@ || s == "km/s"@ || s == "km/h"@ || s == "fps"@ ||
    s == "ft/s"@ || s == "mph"@ || s == "mi/h"@ || s == "kn"@
}

/// The symbols of a temperature, under either spelling of the degree.
pub open spec fn is_temperature_symbol(s: Seq<char>) -> bool {
    s == "degC"@ || s == "degF"@ || s == "degN"@ || s == "degD"@ || s == "degL"@ ||
    s == "degW"@ || s == "degRa"@ || s == "degRo"@ || s == "degRe"@ || s == "degDa"@ ||
    s == "degH"@ || s == "K"@ || s == "\u{00B0}C"@ || s == "\u{00B0}F"@ || s == "\u{00B0}N"@ ||
    s == "\u{00B0}D"@ || s == "\u{00B0}L"@ || s == "\u{00B0}W"@ || s == "\u{00B0}Ra"@ ||
    s == "\u{00B0}Ro"@ || s == "\u{00B0}Re"@ || s == "\u{00B0}Da"@ || s == "\u{00B0}H"@
}

/// The symbols of a voltage.
pub open spec fn is_voltage_symbol(s: Seq<char>) -> bool {
    s == "V"@ || s == "mV"@ || s == "kV"@ || s == "MV"@
}

/// The symbols of an electric current.
pub open spec fn is_current_symbol(s: Seq<char>) -> bool {
    s == "A"@ || s == "mA"@ || s == "uA"@ || s == "\u{03BC}A"@ || s == "kA"@
}

/// The symbols of an electric charge.
pub open spec fn is_charge_symbol(s: Seq<char>) -> bool {
    s == "C"@ || s == "mC"@ || s == "uC"@ || s == "\u{03BC}C"@
}

/// The symbols of a resistance.
pub open spec fn is_resistance_symbol(s: Seq<char>) -> bool {
    s == "ohm"@ || s == "\u{03A9}"@ || s == "kohm"@ || s == "Mohm"@
}

/// The symbols of a conductance.
pub open spec fn is_conductance_symbol(s: Seq<char>) -> bool {
    s == "S"@ || s == "mS"@ || s == "uS"@ || s == "\u{03BC}S"@
}

/// The symbols of a capacitance.
pub open spec fn is_capacitance_symbol(s: Seq<char>) -> bool {
    s == "F"@ || s == "uF"@ || s == "\u{03BC}F"@ || s == "nF"@ || s == "pF"@
}

/// The symbols of a power.
pub open spec fn is_power_symbol(s: Seq<char>) -> bool {
    s == "W"@ || s == "mW"@ || s == "kW"@ || s == "MW"@ || s == "GW"@
}

/// The symbols of a pressure.
pub open spec fn is_pressure_symbol(s: Seq<char>) -> bool {
    s == "Pa"@ || s == "hPa"@ || s == "kPa"@ || s == "MPa"@ || s == "bar"@ || s == "mbar"@ ||
    s == "psi"@
}

/// The symbols of an energy.
pub open spec fn is_energy_symbol(s: Seq<char>) -> bool {
    s == "J"@ || s == "kJ"@ || s == "MJ"@ || s == "cal"@ || s == "kcal"@ || s == "Wh"@ ||
    s == "kWh"@
}

/// The kind of number that the unit symbol `s` makes, or `None` where `s` is
/// no unit symbol.
pub open spec fn unit_kind(s: Seq<char>) -> Option<TokenType> {
    if is_frequency_symbol(s) {
        Some(TokenType::UnitFrequency)
    } else if is_size_symbol(s) {
        Some(TokenType::UnitSize)
    } else if is_degree_symbol(s) {
        Some(TokenType::UnitDegree)
    } else if is_length_symbol(s) {
        Some(TokenType::UnitLength)
    } else if is_time_symbol(s) {
        Some(TokenType::UnitTime)
    } else if is_dimension_symbol(s) {
        Some(TokenType::UnitDimension)
    } else if is_weight_symbol(s) {
        Some(TokenType::UnitWeight)
    } else if is_speed_symbol(s) {
        Some(TokenType::UnitSpeed)
    } else if is_temperature_symbol(s) {
        Some(TokenType::UnitTemperature)
    } else if is_voltage_symbol(s) {
        Some(TokenType::UnitElectricVoltage)
    } else if is_current_symbol(s) {
        Some(TokenType::UnitElectricCurrent)
    } else if is_charge_symbol(s) {
        Some(TokenType::UnitElectricCharge)
    } else if is_resistance_symbol(s) {
        Some(TokenType::UnitElectricResistance)
    } else if is_conductance_symbol(s) {
        Some(TokenType::UnitElectricConductance)
    } else if is_capacitance_symbol(s) {
        Some(TokenType::UnitElectricCapacitance)
    } else if is_power_symbol(s) {
        Some(TokenType::UnitElectricPower)
    } else if is_pressure_symbol(s) {
        Some(TokenType::UnitPressure)
    } else if is_energy_symbol(s) {
        Some(TokenType::UnitEnergy)
    } else {
        None
    }
}

fn frequency_symbol_in(v: &Vec<char>, from: usize, to: usize) -> (b: bool)
    requires
        from <= to <= v.len(),
    ensures
        b == is_frequency_symbol(v@.subrange(from as int, to as int)),
{
    range_is(v, from, to, "Hz") || range_is(v, from, to, "kHz") ||
    range_is(v, from, to, "MHz") || range_is(v, from, to, "GHz") ||
    range_is(v, from, to, "THz")
}

fn size_symbol_in(v: &Vec<char>, from: usize, to: usize) -> (b: bool)
    requires
        from <= to <= v.len(),
    ensures
        b == is_size_symbol(v@.subrange(from as int, to as int)),
{
    range_is(v, from, to, "b") || range_is(v, from, to, "B") || range_is(v, from, to, "Kb") ||
    range_is(v, from, to, "MB") || range_is(v, from, to, "GB") || range_is(v, from, to, "TB")
}

fn degree_symbol_in(v: &Vec<char>, from: usize, to: usize) -> (b: bool)
    requires
        from <= to <= v.len(),
    ensures
        b == is_degree_symbol(v@.subrange(from as int, to as int)),
{
    range_is(v, from, to, "deg") || range_is(v, from, to, "rad") ||
    range_is(v, from, to, "\u{00B0}")
}

fn length_symbol_in(v: &Vec<char>, from: usize, to: usize) -> (b: bool)
    requires
        from <= to <= v.len(),
    ensures
        b == is_length_symbol(v@.subrange(from as int, to as int)),
{
    range_is(v, from, to, "\u{00B5}m") || range_is(v, from, to, "\u{03BC}m") ||
    range_is(v, from, to, "nm") || range_is(v, from, to, "mm") ||
    range_is(v, from, to, "cm") || range_is(v, from, to, "m") || range_is(v, from, to, "km") ||
    range_is(v, from, to, "Mm") || range_is(v, from, to, "ft") ||
    range_is(v, from, to, "mi") || range_is(v, from, to, "em") ||
    range_is(v, from, to, "rem") || range_is(v, from, to, "pt") ||
    range_is(v, from, to, "in") || range_is(v, from, to, "px") || range_is(v, from, to, "pc")
}

fn time_symbol_in(v: &Vec<char>, from: usize, to: usize) -> (b: bool)
    requires
        from <= to <= v.len(),
    ensures
        b == is_time_symbol(v@.subrange(from as int, to as int)),
{
    range_is(v, from, to, "ns") || range_is(v, from, to, "\u{03BC}s") ||
    range_is(v, from, to, "\u{00B5}s") || range_is(v, from, to, "ms") ||
    range_is(v, from, to, "sec") || range_is(v, from, to, "min") ||
    range_is(v, from, to, "hour") || range_is(v, from, to, "day") ||
    range_is(v, from, to, "week") || range_is(v, from, to, "month") ||
    range_is(v, from, to, "year")
}

fn dimension_symbol_in(v: &Vec<char>, from: usize, to: usize) -> (b: bool)
    requires
        from <= to <= v.len(),
    ensures
        b == is_dimension_symbol(v@.subrange(from as int, to as int)),
{
    range_is(v, from, to, "D")
}

fn weight_symbol_in(v: &Vec<char>, from: usize, to: usize) -> (b: bool)
    requires
        from <= to <= v.len(),
    ensures
        b == is_weight_symbol(v@.subrange(from as int, to as int)),
{
    range_is(v, from, to, "ng") || range_is(v, from, to, "\u{03BC}g") ||
    range_is(v, from, to, "mg") || range_is(v, from, to, "g") || range_is(v, from, to, "kg") ||
    range_is(v, from, to, "t") || range_is(v, from, to, "kt") || range_is(v, from, to, "lb") ||
    range_is(v, from, to, "oz")
}

fn speed_symbol_in(v: &Vec<char>, from: usize, to: usize) -> (b: bool)
    requires
        from <= to <= v.len(),
    ensures
        b == is_speed_symbol(v@.subrange(from as int, to as int)),
{
    range_is(v, from, to, "m/s") || range_is(v, from, to, "m/h") ||
    range_is(v, from, to, "km/s") || range_is(v, from, to, "km/h") ||
    range_is(v, from, to, "fps") || range_is(v, from, to, "ft/s") ||
    range_is(v, from, to, "mph") || range_is(v, from, to, "mi/h") ||
    range_is(v, from, to, "kn")
}

fn temperature_symbol_in(v: &Vec<char>, from: usize, to: usize) -> (b: bool)
    requires
        from <= to <= v.len(),
    ensures
        b == is_temperature_symbol(v@.subrange(from as int, to as int)),
{
    range_is(v, from, to, "degC") || range_is(v, from, to, "degF") ||
    range_is(v, from, to, "degN") || range_is(v, from, to, "degD") ||
    range_is(v, from, to, "degL") || range_is(v, from, to, "degW") ||
    range_is(v, from, to, "degRa") || range_is(v, from, to, "degRo") ||
    range_is(v, from, to, "degRe") || range_is(v, from, to, "degDa") ||
    range_is(v, from, to, "degH") || range_is(v, from, to, "K") ||
    range_is(v, from, to, "\u{00B0}C") || range_is(v, from, to, "\u{00B0}F") ||
    range_is(v, from, to, "\u{00B0}N") || range_is(v, from, to, "\u{00B0}D") ||
    range_is(v, from, to, "\u{00B0}L") || range_is(v, from, to, "\u{00B0}W") ||
    range_is(v, from, to, "\u{00B0}Ra") || range_is(v, from, to, "\u{00B0}Ro") ||
    range_is(v, from, to, "\u{00B0}Re") || range_is(v, from, to, "\u{00B0}Da") ||
    range_is(v, from, to, "\u{00B0}H")
}

fn voltage_symbol_in(v: &Vec<char>, from: usize, to: usize) -> (b: bool)
    requires
        from <= to <= v.len(),
    ensures
        b == is_voltage_symbol(v@.subrange(from as int, to as int)),
{
    range_is(v, from, to, "V") || range_is(v, from, to, "mV") || range_is(v, from, to, "kV") ||
    range_is(v, from, to, "MV")
}

fn current_symbol_in(v: &Vec<char>, from: usize, to: usize) -> (b: bool)
    requires
        from <= to <= v.len(),
    ensures
        b == is_current_symbol(v@.subrange(from as int, to as int)),
{
    range_is(v, from, to, "A") || range_is(v, from, to, "mA") || range_is(v, from, to, "uA") ||
    range_is(v, from, to, "\u{03BC}A") || range_is(v, from, to, "kA")
}

fn charge_symbol_in(v: &Vec<char>, from: usize, to: usize) -> (b: bool)
    requires
        from <= to <= v.len(),
    ensures
        b == is_charge_symbol(v@.subrange(from as int, to as int)),
{
    range_is(v, from, to, "C") || range_is(v, from, to, "mC") || range_is(v, from, to, "uC") ||
    range_is(v, from, to, "\u{03BC}C")
}

fn resistance_symbol_in(v: &Vec<char>, from: usize, to: usize) -> (b: bool)
    requires
        from <= to <= v.len(),
    ensures
        b == is_resistance_symbol(v@.subrange(from as int, to as int)),
{
    range_is(v, from, to, "ohm") || range_is(v, from, to, "\u{03A9}") ||
    range_is(v, from, to, "kohm") || range_is(v, from, to, "Mohm")
}

fn conductance_symbol_in(v: &Vec<char>, from: usize, to: usize) -> (b: bool)
    requires
        from <= to <= v.len(),
    ensures
        b == is_conductance_symbol(v@.subrange(from as int, to as int)),
{
    range_is(v, from, to, "S") || range_is(v, from, to, "mS") || range_is(v, from, to, "uS") ||
    range_is(v, from, to, "\u{03BC}S")
}

fn capacitance_symbol_in(v: &Vec<char>, from: usize, to: usize) -> (b: bool)
    requires
        from <= to <= v.len(),
    ensures
        b == is_capacitance_symbol(v@.subrange(from as int, to as int)),
{
    range_is(v, from, to, "F") || range_is(v, from, to, "uF") ||
    range_is(v, from, to, "\u{03BC}F") || range_is(v, from, to, "nF") ||
    range_is(v, from, to, "pF")
}

fn power_symbol_in(v: &Vec<char>, from: usize, to: usize) -> (b: bool)
    requires
        from <= to <= v.len(),
    ensures
        b == is_power_symbol(v@.subrange(from as int, to as int)),
{
    range_is(v, from, to, "W") || range_is(v, from, to, "mW") || range_is(v, from, to, "kW") ||
    range_is(v, from, to, "MW") || range_is(v, from, to, "GW")
}

fn pressure_symbol_in(v: &Vec<char>, from: usize, to: usize) -> (b: bool)
    requires
        from <= to <= v.len(),
    ensures
        b == is_pressure_symbol(v@.subrange(from as int, to as int)),
{
    range_is(v, from, to, "Pa") || range_is(v, from, to, "hPa") ||
    range_is(v, from, to, "kPa") || range_is(v, from, to, "MPa") ||
    range_is(v, from, to, "bar") || range_is(v, from, to, "mbar") ||
    range_is(v, from, to, "psi")
}

fn energy_symbol_in(v: &Vec<char>, from: usize, to: usize) -> (b: bool)
    requires
        from <= to <= v.len(),
    ensures
        b == is_energy_symbol(v@.subrange(from as int, to as int)),
{
    range_is(v, from, to, "J") || range_is(v, from, to, "kJ") || range_is(v, from, to, "MJ") ||
    range_is(v, from, to, "cal") || range_is(v, from, to, "kcal") ||
    range_is(v, from, to, "Wh") || range_is(v, from, to, "kWh")
}

/// The kind of number made by the unit symbol that the characters of `v`
/// from `from` up to `to` spell.
pub fn unit_kind_in(v: &Vec<char>, from: usize, to: usize) -> (r: Option<TokenType>)
    requires
        from <= to <= v.len(),
    ensures
        r == unit_kind(v@.subrange(from as int, to as int)),
{
    if frequency_symbol_in(v, from, to) {
        Some(TokenType::UnitFrequency)
    } else if size_symbol_in(v, from, to) {
        Some(TokenType::UnitSize)
    } else if degree_symbol_in(v, from, to) {
        Some(TokenType::UnitDegree)
    } else if length_symbol_in(v, from, to) {
        Some(TokenType::UnitLength)
    } else if time_symbol_in(v, from, to) {
        Some(TokenType::UnitTime)
    } else if dimension_symbol_in(v, from, to) {
        Some(TokenType::UnitDimension)
    } else if weight_symbol_in(v, from, to) {
        Some(TokenType::UnitWeight)
    } else if speed_symbol_in(v, from, to) {
        Some(TokenType::UnitSpeed)
    } else if temperature_symbol_in(v, from, to) {
        Some(TokenType::UnitTemperature)
    } else if voltage_symbol_in(v, from, to) {
        Some(TokenType::UnitElectricVoltage)
    } else if current_symbol_in(v, from, to) {
        Some(TokenType::UnitElectricCurrent)
    } else if charge_symbol_in(v, from, to) {
        Some(TokenType::UnitElectricCharge)
    } else if resistance_symbol_in(v, from, to) {
        Some(TokenType::UnitElectricResistance)
    } else if conductance_symbol_in(v, from, to) {
        Some(TokenType::UnitElectricConductance)
    } else if capacitance_symbol_in(v, from, to) {
        Some(TokenType::UnitElectricCapacitance)
    } else if power_symbol_in(v, from, to) {
        Some(TokenType::UnitElectricPower)
    } else if pressure_symbol_in(v, from, to) {
        Some(TokenType::UnitPressure)
    } else if energy_symbol_in(v, from, to) {
        Some(TokenType::UnitEnergy)
    } else {
        None
    }
}

/// Every unit symbol makes a number with a unit, never a bare number nor a
/// kind that frames the stream.
pub proof fn lemma_unit_kind(s: Seq<char>)
    ensures
        unit_kind(s) matches Some(kind) ==> kind.is_unit() && !kind.is_layout(),
{
}

} // verus!
