use automata::conversionutil::convert;
use automata::conversionutil::parse_length_unit;
use automata::conversionutil::parse_mass_unit;
use automata::conversionutil::parse_temperature_unit;
use automata::conversionutil::parse_time_unit;
use automata::conversionutil::parse_volume_unit;
use automata::conversionutil::try_length_conversion;
use automata::conversionutil::try_mass_conversion;
use automata::conversionutil::try_temperature_conversion;
use automata::conversionutil::try_time_conversion;
use automata::conversionutil::try_volume_conversion;
use automata::conversionutil::Conversion;
use automata::conversionutil::ConversionError;
use automata::conversionutil::LengthUnit;
use automata::conversionutil::MassUnit;
use automata::conversionutil::TemperatureUnit;
use automata::conversionutil::TimeUnit;
use automata::conversionutil::VolumeUnit;

#[test]
fn length_units_by_every_name() {
    for name in ["m", "meter", "meters"] {
        assert_eq!(parse_length_unit(name), Some(LengthUnit::Metre));
    }
    for name in ["km", "kilometer", "kilometers"] {
        assert_eq!(parse_length_unit(name), Some(LengthUnit::Kilometre));
    }
    for name in ["cm", "centimeter", "centimeters"] {
        assert_eq!(parse_length_unit(name), Some(LengthUnit::Centimetre));
    }
    for name in ["mm", "millimeter", "millimeters"] {
        assert_eq!(parse_length_unit(name), Some(LengthUnit::Millimetre));
    }
    for name in ["mi", "mile", "miles"] {
        assert_eq!(parse_length_unit(name), Some(LengthUnit::Mile));
    }
    for name in ["yd", "yard", "yards"] {
        assert_eq!(parse_length_unit(name), Some(LengthUnit::Yard));
    }
    for name in ["ft", "foot", "feet"] {
        assert_eq!(parse_length_unit(name), Some(LengthUnit::Foot));
    }
    for name in ["in", "inch", "inches"] {
        assert_eq!(parse_length_unit(name), Some(LengthUnit::Inch));
    }
    assert_eq!(parse_length_unit("kg"), None);
    assert_eq!(parse_length_unit(""), None);
}

#[test]
fn mass_units_by_every_name() {
    for name in ["kg", "kilogram", "kilograms"] {
        assert_eq!(parse_mass_unit(name), Some(MassUnit::Kilogram));
    }
    for name in ["g", "gram", "grams"] {
        assert_eq!(parse_mass_unit(name), Some(MassUnit::Gram));
    }
    for name in ["mg", "milligram", "milligrams"] {
        assert_eq!(parse_mass_unit(name), Some(MassUnit::Milligram));
    }
    for name in ["lb", "pound", "pounds"] {
        assert_eq!(parse_mass_unit(name), Some(MassUnit::Pound));
    }
    for name in ["oz", "ounce", "ounces"] {
        assert_eq!(parse_mass_unit(name), Some(MassUnit::Ounce));
    }
    assert_eq!(parse_mass_unit("km"), None);
}

#[test]
fn temperature_units_by_every_name() {
    for name in ["c", "celsius"] {
        assert_eq!(parse_temperature_unit(name), Some(TemperatureUnit::Celsius));
    }
    for name in ["f", "fahrenheit"] {
        assert_eq!(parse_temperature_unit(name), Some(TemperatureUnit::Fahrenheit));
    }
    for name in ["k", "kelvin"] {
        assert_eq!(parse_temperature_unit(name), Some(TemperatureUnit::Kelvin));
    }
    assert_eq!(parse_temperature_unit("s"), None);
}

#[test]
fn time_units_by_every_name() {
    for name in ["s", "sec", "second", "seconds"] {
        assert_eq!(parse_time_unit(name), Some(TimeUnit::Second));
    }
    for name in ["min", "minute", "minutes"] {
        assert_eq!(parse_time_unit(name), Some(TimeUnit::Minute));
    }
    for name in ["h", "hr", "hour", "hours"] {
        assert_eq!(parse_time_unit(name), Some(TimeUnit::Hour));
    }
    for name in ["d", "day", "days"] {
        assert_eq!(parse_time_unit(name), Some(TimeUnit::Day));
    }
    assert_eq!(parse_time_unit("l"), None);
}

#[test]
fn volume_units_by_every_name() {
    for name in ["l", "liter", "liters"] {
        assert_eq!(parse_volume_unit(name), Some(VolumeUnit::Litre));
    }
    for name in ["ml", "milliliter", "milliliters"] {
        assert_eq!(parse_volume_unit(name), Some(VolumeUnit::Millilitre));
    }
    for name in ["gal", "gallon", "gallons"] {
        assert_eq!(parse_volume_unit(name), Some(VolumeUnit::Gallon));
    }
    assert_eq!(parse_volume_unit("m"), None);
}

#[test]
fn unit_names_ignore_letter_case() {
    assert_eq!(parse_length_unit("KM"), Some(LengthUnit::Kilometre));
    assert_eq!(parse_length_unit("Miles"), Some(LengthUnit::Mile));
    assert_eq!(parse_mass_unit("Kg"), Some(MassUnit::Kilogram));
    assert_eq!(parse_temperature_unit("Celsius"), Some(TemperatureUnit::Celsius));
    assert_eq!(parse_time_unit("HOURS"), Some(TimeUnit::Hour));
    assert_eq!(parse_volume_unit("GAL"), Some(VolumeUnit::Gallon));
}

#[test]
fn try_conversion_names_the_first_unknown_unit() {
    assert_eq!(
        try_length_conversion("km", "mi"),
        Ok((LengthUnit::Kilometre, LengthUnit::Mile))
    );
    assert_eq!(
        try_length_conversion("xx", "km"),
        Err(ConversionError::UnknownUnit("xx".to_string()))
    );
    assert_eq!(
        try_length_conversion("km", "kg"),
        Err(ConversionError::UnknownUnit("kg".to_string()))
    );
    assert_eq!(
        try_length_conversion("aa", "bb"),
        Err(ConversionError::UnknownUnit("aa".to_string()))
    );
}

#[test]
fn try_conversion_in_each_category() {
    assert_eq!(try_mass_conversion("lb", "kg"), Ok((MassUnit::Pound, MassUnit::Kilogram)));
    assert_eq!(
        try_mass_conversion("lb", "km"),
        Err(ConversionError::UnknownUnit("km".to_string()))
    );
    assert_eq!(
        try_temperature_conversion("c", "f"),
        Ok((TemperatureUnit::Celsius, TemperatureUnit::Fahrenheit))
    );
    assert_eq!(
        try_temperature_conversion("m", "f"),
        Err(ConversionError::UnknownUnit("m".to_string()))
    );
    assert_eq!(try_time_conversion("h", "min"), Ok((TimeUnit::Hour, TimeUnit::Minute)));
    assert_eq!(
        try_time_conversion("h", "km"),
        Err(ConversionError::UnknownUnit("km".to_string()))
    );
    assert_eq!(
        try_volume_conversion("gal", "l"),
        Ok((VolumeUnit::Gallon, VolumeUnit::Litre))
    );
    assert_eq!(
        try_volume_conversion("x", "l"),
        Err(ConversionError::UnknownUnit("x".to_string()))
    );
}

#[test]
fn convert_picks_the_category_of_both_units() {
    assert_eq!(
        convert("km", "mi"),
        Ok(Conversion::Length(LengthUnit::Kilometre, LengthUnit::Mile))
    );
    assert_eq!(
        convert("KM", "Mi"),
        Ok(Conversion::Length(LengthUnit::Kilometre, LengthUnit::Mile))
    );
    assert_eq!(convert("g", "oz"), Ok(Conversion::Mass(MassUnit::Gram, MassUnit::Ounce)));
    assert_eq!(
        convert("kelvin", "c"),
        Ok(Conversion::Temperature(TemperatureUnit::Kelvin, TemperatureUnit::Celsius))
    );
    assert_eq!(convert("days", "s"), Ok(Conversion::Time(TimeUnit::Day, TimeUnit::Second)));
    assert_eq!(
        convert("ml", "gallons"),
        Ok(Conversion::Volume(VolumeUnit::Millilitre, VolumeUnit::Gallon))
    );
    assert_eq!(convert("m", "m"), Ok(Conversion::Length(LengthUnit::Metre, LengthUnit::Metre)));
}

#[test]
fn convert_rejects_units_of_different_categories() {
    assert_eq!(
        convert("km", "kg"),
        Err(ConversionError::IncompatibleUnits("km".to_string(), "kg".to_string()))
    );
    assert_eq!(
        convert("foo", "bar"),
        Err(ConversionError::IncompatibleUnits("foo".to_string(), "bar".to_string()))
    );
    assert_eq!(
        convert("", ""),
        Err(ConversionError::IncompatibleUnits(String::new(), String::new()))
    );
}

#[test]
fn conversion_error_messages() {
    assert_eq!(
        ConversionError::UnknownUnit("furlong".to_string()).message(),
        "Unknown unit: furlong"
    );
    assert_eq!(
        ConversionError::IncompatibleUnits("km".to_string(), "kg".to_string()).message(),
        "Incompatible units: km -> kg"
    );
}
