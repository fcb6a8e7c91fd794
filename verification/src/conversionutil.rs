//! Recognising unit names and choosing the conversion between two of them.
//!
//! Units are grouped into categories: length, mass, temperature, time and
//! volume. A conversion exists between two units of one category. Names are
//! matched without regard to letter case, by full name or abbreviation.

use vstd::prelude::*;
use crate::text::lowercase;
use crate::text::same_text;
use crate::text::to_lowercase;

verus! {

/// Why two unit names give no conversion.
#[derive(Debug, PartialEq, Eq)]
pub enum ConversionError {
    UnknownUnit(String),
    IncompatibleUnits(String, String),
}

/// A `ConversionError` as a mathematical value.
pub enum ConversionErrorView {
    UnknownUnit(Seq<char>),
    IncompatibleUnits(Seq<char>, Seq<char>),
}

impl View for ConversionError {
    type V = ConversionErrorView;

    open spec fn view(&self) -> ConversionErrorView {
        match self {
            ConversionError::UnknownUnit(unit) => ConversionErrorView::UnknownUnit(unit@),
            ConversionError::IncompatibleUnits(from, to) => ConversionErrorView::IncompatibleUnits(
                from@,
                to@,
            ),
        }
    }
}

/// The sentence that describes an error.
pub open spec fn message_of(error: ConversionErrorView) -> Seq<char> {
    match error {
        ConversionErrorView::UnknownUnit(unit) => "Unknown unit: "@ + unit,
        ConversionErrorView::IncompatibleUnits(from, to) => "Incompatible units: "@ + from
            + " -> "@ + to,
    }
}

impl ConversionError {
    /// The error as a sentence for the user.
    pub fn message(&self) -> (text: String)
        ensures
            text@ == message_of(self@),
    {
        match self {
            ConversionError::UnknownUnit(unit) => {
                let mut text = "Unknown unit: ".to_owned();
                text.append(unit.as_str());
                text
            },
            ConversionError::IncompatibleUnits(from, to) => {
                let mut text = "Incompatible units: ".to_owned();
                text.append(from.as_str());
                text.append(" -> ");
                text.append(to.as_str());
                text
            },
        }
    }
}

/// A unit of length.
#[derive(Debug, Clone, Copy, PartialEq, Eq, Structural)]
pub enum LengthUnit {
    Metre,
    Kilometre,
    Centimetre,
    Millimetre,
    Mile,
    Yard,
    Foot,
    Inch,
}

/// A unit of mass.
#[derive(Debug, Clone, Copy, PartialEq, Eq, Structural)]
pub enum MassUnit {
    Kilogram,
    Gram,
    Milligram,
    Pound,
    Ounce,
}

/// A unit of temperature.
#[derive(Debug, Clone, Copy, PartialEq, Eq, Structural)]
pub enum TemperatureUnit {
    Celsius,
    Fahrenheit,
    Kelvin,
}

/// A unit of time.
#[derive(Debug, Clone, Copy, PartialEq, Eq, Structural)]
pub enum TimeUnit {
    Second,
    Minute,
    Hour,
    Day,
}

/// A unit of volume.
#[derive(Debug, Clone, Copy, PartialEq, Eq, Structural)]
pub enum VolumeUnit {
    Litre,
    Millilitre,
    Gallon,
}

/// A conversion between two units of one category: from the first to the
/// second.
#[derive(Debug, Clone, Copy, PartialEq, Eq, Structural)]
pub enum Conversion {
    Length(LengthUnit, LengthUnit),
    Mass(MassUnit, MassUnit),
    Temperature(TemperatureUnit, TemperatureUnit),
    Time(TimeUnit, TimeUnit),
    Volume(VolumeUnit, VolumeUnit),
}

/// Both units where both are known; else the first name that is not.
pub open spec fn pair_or_unknown<U>(
    from_unit: Option<U>,
    to_unit: Option<U>,
    from: Seq<char>,
    to: Seq<char>,
) -> Result<(U, U), ConversionErrorView> {
    if from_unit is None {
        Err(ConversionErrorView::UnknownUnit(from))
    } else if to_unit is None {
        Err(ConversionErrorView::UnknownUnit(to))
    } else {
        Ok((from_unit->0, to_unit->0))
    }
}

/// A result of this library as a mathematical value.
pub open spec fn outcome<T>(result: Result<T, ConversionError>) -> Result<T, ConversionErrorView> {
    match result {
        Ok(value) => Ok(value),
        Err(error) => Err(error@),
    }
}

/// Both units where both were recognised; else the first name that was not.
fn pair_units<U>(
    from_unit: Option<U>,
    to_unit: Option<U>,
    from: &str,
    to: &str,
) -> (pair: Result<(U, U), ConversionError>)
    ensures
        outcome(pair) == pair_or_unknown(from_unit, to_unit, from@, to@),
{
    match from_unit {
        None => Err(ConversionError::UnknownUnit(from.to_owned())),
        Some(a) => match to_unit {
            None => Err(ConversionError::UnknownUnit(to.to_owned())),
            Some(b) => Ok((a, b)),
        },
    }
}

/// Whether `name` is one of two names.
fn is_one_of2(name: &str, a: &str, b: &str) -> (found: bool)
    ensures
        found == (name@ == a@ || name@ == b@),
{
    same_text(name, a) || same_text(name, b)
}

/// Whether `name` is one of three names.
fn is_one_of3(name: &str, a: &str, b: &str, c: &str) -> (found: bool)
    ensures
        found == (name@ == a@ || name@ == b@ || name@ == c@),
{
    is_one_of2(name, a, b) || same_text(name, c)
}

/// Whether `name` is one of four names.
fn is_one_of4(name: &str, a: &str, b: &str, c: &str, d: &str) -> (found: bool)
    ensures
        found == (name@ == a@ || name@ == b@ || name@ == c@ || name@ == d@),
{
    is_one_of3(name, a, b, c) || same_text(name, d)
}

/// The unit of length that a lower-case name stands for.
pub open spec fn length_unit(name: Seq<char>) -> Option<LengthUnit> {
    if name == "m"@ || name == "meter"@ || name == "meters"@ {
        Some(LengthUnit::Metre)
    } else if name == "km"@ || name == "kilometer"@ || name == "kilometers"@ {
        Some(LengthUnit::Kilometre)
    } else if name == "cm"@ || name == "centimeter"@ || name == "centimeters"@ {
        Some(LengthUnit::Centimetre)
    } else if name == "mm"@ || name == "millimeter"@ || name == "millimeters"@ {
        Some(LengthUnit::Millimetre)
    } else if name == "mi"@ || name == "mile"@ || name == "miles"@ {
        Some(LengthUnit::Mile)
    } else if name == "yd"@ || name == "yard"@ || name == "yards"@ {
        Some(LengthUnit::Yard)
    } else if name == "ft"@ || name == "foot"@ || name == "feet"@ {
        Some(LengthUnit::Foot)
    } else if name == "in"@ || name == "inch"@ || name == "inches"@ {
        Some(LengthUnit::Inch)
    } else {
        None
    }
}

/// The conversion between two names of length units, whatever their letter case.
pub open spec fn length_conversion(from: Seq<char>, to: Seq<char>) -> Result<
    (LengthUnit, LengthUnit),
    ConversionErrorView,
> {
    pair_or_unknown(length_unit(lowercase(from)), length_unit(lowercase(to)), from, to)
}

/// Recognises the name of a unit of length, whatever its letter case.
pub fn parse_length_unit(name: &str) -> (unit: Option<LengthUnit>)
    ensures
        unit == length_unit(lowercase(name@)),
{
    let lower = to_lowercase(name);
    let n = lower.as_str();
    if is_one_of3(n, "m", "meter", "meters") {
        Some(LengthUnit::Metre)
    } else if is_one_of3(n, "km", "kilometer", "kilometers") {
        Some(LengthUnit::Kilometre)
    } else if is_one_of3(n, "cm", "centimeter", "centimeters") {
        Some(LengthUnit::Centimetre)
    } else if is_one_of3(n, "mm", "millimeter", "millimeters") {
        Some(LengthUnit::Millimetre)
    } else if is_one_of3(n, "mi", "mile", "miles") {
        Some(LengthUnit::Mile)
    } else if is_one_of3(n, "yd", "yard", "yards") {
        Some(LengthUnit::Yard)
    } else if is_one_of3(n, "ft", "foot", "feet") {
        Some(LengthUnit::Foot)
    } else if is_one_of3(n, "in", "inch", "inches") {
        Some(LengthUnit::Inch)
    } else {
        None
    }
}

/// The two units of length named by `from` and `to`; else the first of the two
/// names that is no unit of length.
pub fn try_length_conversion(from: &str, to: &str) -> (pair: Result<
    (LengthUnit, LengthUnit),
    ConversionError,
>)
    ensures
        outcome(pair) == length_conversion(from@, to@),
{
    pair_units(parse_length_unit(from), parse_length_unit(to), from, to)
}

/// The unit of mass that a lower-case name stands for.
pub open spec fn mass_unit(name: Seq<char>) -> Option<MassUnit> {
    if name == "kg"@ || name == "kilogram"@ || name == "kilograms"@ {
        Some(MassUnit::Kilogram)
    } else if name == "g"@ || name == "gram"@ || name == "grams"@ {
        Some(MassUnit::Gram)
    } else if name == "mg"@ || name == "milligram"@ || name == "milligrams"@ {
        Some(MassUnit::Milligram)
    } else if name == "lb"@ || name == "pound"@ || name == "pounds"@ {
        Some(MassUnit::Pound)
    } else if name == "oz"@ || name == "ounce"@ || name == "ounces"@ {
        Some(MassUnit::Ounce)
    } else {
        None
    }
}

/// The conversion between two names of mass units, whatever their letter case.
pub open spec fn mass_conversion(from: Seq<char>, to: Seq<char>) -> Result<
    (MassUnit, MassUnit),
    ConversionErrorView,
> {
    pair_or_unknown(mass_unit(lowercase(from)), mass_unit(lowercase(to)), from, to)
}

/// Recognises the name of a unit of mass, whatever its letter case.
pub fn parse_mass_unit(name: &str) -> (unit: Option<MassUnit>)
    ensures
        unit == mass_unit(lowercase(name@)),
{
    let lower = to_lowercase(name);
    let n = lower.as_str();
    if is_one_of3(n, "kg", "kilogram", "kilograms") {
        Some(MassUnit::Kilogram)
    } else if is_one_of3(n, "g", "gram", "grams") {
        Some(MassUnit::Gram)
    } else if is_one_of3(n, "mg", "milligram", "milligrams") {
        Some(MassUnit::Milligram)
    } else if is_one_of3(n, "lb", "pound", "pounds") {
        Some(MassUnit::Pound)
    } else if is_one_of3(n, "oz", "ounce", "ounces") {
        Some(MassUnit::Ounce)
    } else {
        None
    }
}

/// The two units of mass named by `from` and `to`; else the first of the two
/// names that is no unit of mass.
pub fn try_mass_conversion(from: &str, to: &str) -> (pair: Result<
    (MassUnit, MassUnit),
    ConversionError,
>)
    ensures
        outcome(pair) == mass_conversion(from@, to@),
{
    pair_units(parse_mass_unit(from), parse_mass_unit(to), from, to)
}

/// The unit of temperature that a lower-case name stands for.
pub open spec fn temperature_unit(name: Seq<char>) -> Option<TemperatureUnit> {
    if name == "c"@ || name == "celsius"@ {
        Some(TemperatureUnit::Celsius)
    } else if name == "f"@ || name == "fahrenheit"@ {
        Some(TemperatureUnit::Fahrenheit)
    } else if name == "k"@ || name == "kelvin"@ {
        Some(TemperatureUnit::Kelvin)
    } else {
        None
    }
}

/// The conversion between two names of temperature units, whatever their letter case.
pub open spec fn temperature_conversion(from: Seq<char>, to: Seq<char>) -> Result<
    (TemperatureUnit, TemperatureUnit),
    ConversionErrorView,
> {
    pair_or_unknown(temperature_unit(lowercase(from)), temperature_unit(lowercase(to)), from, to)
}

/// Recognises the name of a unit of temperature, whatever its letter case.
pub fn parse_temperature_unit(name: &str) -> (unit: Option<TemperatureUnit>)
    ensures
        unit == temperature_unit(lowercase(name@)),
{
    let lower = to_lowercase(name);
    let n = lower.as_str();
    if is_one_of2(n, "c", "celsius") {
        Some(TemperatureUnit::Celsius)
    } else if is_one_of2(n, "f", "fahrenheit") {
        Some(TemperatureUnit::Fahrenheit)
    } else if is_one_of2(n, "k", "kelvin") {
        Some(TemperatureUnit::Kelvin)
    } else {
        None
    }
}

/// The two units of temperature named by `from` and `to`; else the first of the two
/// names that is no unit of temperature.
pub fn try_temperature_conversion(from: &str, to: &str) -> (pair: Result<
    (TemperatureUnit, TemperatureUnit),
    ConversionError,
>)
    ensures
        outcome(pair) == temperature_conversion(from@, to@),
{
    pair_units(parse_temperature_unit(from), parse_temperature_unit(to), from, to)
}

/// The unit of time that a lower-case name stands for.
pub open spec fn time_unit(name: Seq<char>) -> Option<TimeUnit> {
    if name == "s"@ || name == "sec"@ || name == "second"@ || name == "seconds"@ {
        Some(TimeUnit::Second)
    } else if name == "min"@ || name == "minute"@ || name == "minutes"@ {
        Some(TimeUnit::Minute)
    } else if name == "h"@ || name == "hr"@ || name == "hour"@ || name == "hours"@ {
        Some(TimeUnit::Hour)
    } else if name == "d"@ || name == "day"@ || name == "days"@ {
        Some(TimeUnit::Day)
    } else {
        None
    }
}

/// The conversion between two names of time units, whatever their letter case.
pub open spec fn time_conversion(from: Seq<char>, to: Seq<char>) -> Result<
    (TimeUnit, TimeUnit),
    ConversionErrorView,
> {
    pair_or_unknown(time_unit(lowercase(from)), time_unit(lowercase(to)), from, to)
}

/// Recognises the name of a unit of time, whatever its letter case.
pub fn parse_time_unit(name: &str) -> (unit: Option<TimeUnit>)
    ensures
        unit == time_unit(lowercase(name@)),
{
    let lower = to_lowercase(name);
    let n = lower.as_str();
    if is_one_of4(n, "s", "sec", "second", "seconds") {
        Some(TimeUnit::Second)
    } else if is_one_of3(n, "min", "minute", "minutes") {
        Some(TimeUnit::Minute)
    } else if is_one_of4(n, "h", "hr", "hour", "hours") {
        Some(TimeUnit::Hour)
    } else if is_one_of3(n, "d", "day", "days") {
        Some(TimeUnit::Day)
    } else {
        None
    }
}

/// The two units of time named by `from` and `to`; else the first of the two
/// names that is no unit of time.
pub fn try_time_conversion(from: &str, to: &str) -> (pair: Result<
    (TimeUnit, TimeUnit),
    ConversionError,
>)
    ensures
        outcome(pair) == time_conversion(from@, to@),
{
    pair_units(parse_time_unit(from), parse_time_unit(to), from, to)
}

/// The unit of volume that a lower-case name stands for.
pub open spec fn volume_unit(name: Seq<char>) -> Option<VolumeUnit> {
    if name == "l"@ || name == "liter"@ || name == "liters"@ {
        Some(VolumeUnit::Litre)
    } else if name == "ml"@ || name == "milliliter"@ || name == "milliliters"@ {
        Some(VolumeUnit::Millilitre)
    } else if name == "gal"@ || name == "gallon"@ || name == "gallons"@ {
        Some(VolumeUnit::Gallon)
    } else {
        None
    }
}

/// The conversion between two names of volume units, whatever their letter case.
pub open spec fn volume_conversion(from: Seq<char>, to: Seq<char>) -> Result<
    (VolumeUnit, VolumeUnit),
    ConversionErrorView,
> {
    pair_or_unknown(volume_unit(lowercase(from)), volume_unit(lowercase(to)), from, to)
}

/// Recognises the name of a unit of volume, whatever its letter case.
pub fn parse_volume_unit(name: &str) -> (unit: Option<VolumeUnit>)
    ensures
        unit == volume_unit(lowercase(name@)),
{
    let lower = to_lowercase(name);
    let n = lower.as_str();
    if is_one_of3(n, "l", "liter", "liters") {
        Some(VolumeUnit::Litre)
    } else if is_one_of3(n, "ml", "milliliter", "milliliters") {
        Some(VolumeUnit::Millilitre)
    } else if is_one_of3(n, "gal", "gallon", "gallons") {
        Some(VolumeUnit::Gallon)
    } else {
        None
    }
}

/// The two units of volume named by `from` and `to`; else the first of the two
/// names that is no unit of volume.
pub fn try_volume_conversion(from: &str, to: &str) -> (pair: Result<
    (VolumeUnit, VolumeUnit),
    ConversionError,
>)
    ensures
        outcome(pair) == volume_conversion(from@, to@),
{
    pair_units(parse_volume_unit(from), parse_volume_unit(to), from, to)
}

/// The conversion from `current_unit` to `desired_unit`: that of the first
/// category, in the order length, mass, temperature, time, volume, which knows
/// both names.
pub open spec fn conversion_of(current_unit: Seq<char>, desired_unit: Seq<char>) -> Result<
    Conversion,
    ConversionErrorView,
> {
    if length_conversion(current_unit, desired_unit) is Ok {
        let pair = length_conversion(current_unit, desired_unit)->Ok_0;
        Ok(Conversion::Length(pair.0, pair.1))
    } else if mass_conversion(current_unit, desired_unit) is Ok {
        let pair = mass_conversion(current_unit, desired_unit)->Ok_0;
        Ok(Conversion::Mass(pair.0, pair.1))
    } else if temperature_conversion(current_unit, desired_unit) is Ok {
        let pair = temperature_conversion(current_unit, desired_unit)->Ok_0;
        Ok(Conversion::Temperature(pair.0, pair.1))
    } else if time_conversion(current_unit, desired_unit) is Ok {
        let pair = time_conversion(current_unit, desired_unit)->Ok_0;
        Ok(Conversion::Time(pair.0, pair.1))
    } else if volume_conversion(current_unit, desired_unit) is Ok {
        let pair = volume_conversion(current_unit, desired_unit)->Ok_0;
        Ok(Conversion::Volume(pair.0, pair.1))
    } else {
        Err(ConversionErrorView::IncompatibleUnits(current_unit, desired_unit))
    }
}

/// Chooses the conversion between two unit names, trying each category in
/// turn and stopping at the first that knows both. Where none does, the two
/// names are reported as incompatible.
pub fn convert(current_unit: &str, desired_unit: &str) -> (plan: Result<Conversion, ConversionError>)
    ensures
        outcome(plan) == conversion_of(current_unit@, desired_unit@),
{
    if let Ok(pair) = try_length_conversion(current_unit, desired_unit) {
        return Ok(Conversion::Length(pair.0, pair.1));
    }
    if let Ok(pair) = try_mass_conversion(current_unit, desired_unit) {
        return Ok(Conversion::Mass(pair.0, pair.1));
    }
    if let Ok(pair) = try_temperature_conversion(current_unit, desired_unit) {
        return Ok(Conversion::Temperature(pair.0, pair.1));
    }
    if let Ok(pair) = try_time_conversion(current_unit, desired_unit) {
        return Ok(Conversion::Time(pair.0, pair.1));
    }
    if let Ok(pair) = try_volume_conversion(current_unit, desired_unit) {
        return Ok(Conversion::Volume(pair.0, pair.1));
    }
    Err(ConversionError::IncompatibleUnits(current_unit.to_owned(), desired_unit.to_owned()))
}

} // verus!
