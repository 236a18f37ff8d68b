use unit_conversion::{
    ForceUnit, LengthUnit, MassUnit, PressureUnit, TemperatureUnit, TimeUnit, UnitOfMeasure,
    VelocityUnit,
};

fn parses_own_spellings<U: UnitOfMeasure + PartialEq + std::fmt::Debug>() {
    for u in U::all_units() {
        assert_eq!(U::from_str(&u.abbr()), Some(u));
        assert_eq!(U::from_str(&u.name()), Some(u));
        assert_eq!(U::from_str(&u.name_and_abbr()), Some(u));
    }
}

fn forms_are_distinct<U: UnitOfMeasure>() {
    let mut all: Vec<String> = Vec::new();
    all.extend(U::all_abbrs());
    all.extend(U::all_names());
    all.extend(U::all_names_and_abbrs());
    for i in 0..all.len() {
        for j in (i + 1)..all.len() {
            assert_ne!(all[i], all[j]);
        }
    }
}

#[test]
fn length_abbreviations_and_names() {
    assert_eq!(LengthUnit::Meters.abbr(), "m");
    assert_eq!(LengthUnit::Meters.name(), "Meters");
    assert_eq!(LengthUnit::NauticalMiles.abbr(), "nmi");
    assert_eq!(LengthUnit::StatuteMiles.name(), "Statute Miles");
    assert_eq!(LengthUnit::Meters.name_and_abbr(), "Meters (m)");
    assert_eq!(LengthUnit::NauticalMiles.name_and_abbr(), "Nautical Miles (nmi)");
}

#[test]
fn other_dimension_texts() {
    assert_eq!(MassUnit::PoundsMass.name_and_abbr(), "Pounds (lb)");
    assert_eq!(TimeUnit::Minutes.abbr(), "min");
    assert_eq!(TemperatureUnit::Celsius.name_and_abbr(), "Celsius (°C)");
    assert_eq!(VelocityUnit::KilometersPerHour.name_and_abbr(), "Kilometers per Hour (km/h)");
    assert_eq!(ForceUnit::PoundsForce.name(), "Pounds Force");
    assert_eq!(PressureUnit::PoundsPerSquareInch.name_and_abbr(), "Pounds per Square Inch (psi)");
}

#[test]
fn listings_follow_declaration_order() {
    assert_eq!(
        LengthUnit::all_names(),
        vec![
            "Millimeters", "Centimeters", "Meters", "Kilometers", "Inches", "Feet", "Yards",
            "Statute Miles", "Nautical Miles"
        ]
    );
    assert_eq!(
        PressureUnit::all_abbrs(),
        vec!["Pa", "kPa", "MPa", "bar", "psi", "atm", "Torr"]
    );
    assert_eq!(MassUnit::all_names_and_abbrs(), vec!["Kilograms (kg)", "Pounds (lb)"]);
    assert_eq!(
        TemperatureUnit::all_units(),
        vec![
            TemperatureUnit::Kelvin,
            TemperatureUnit::Celsius,
            TemperatureUnit::Fahrenheit,
            TemperatureUnit::Rankine
        ]
    );
    assert_eq!(TimeUnit::all_abbrs().len(), 6);
    assert_eq!(VelocityUnit::all_names().len(), 5);
    assert_eq!(ForceUnit::all_names_and_abbrs().len(), 3);
}

#[test]
fn default_units_are_the_base_units() {
    assert_eq!(LengthUnit::default(), LengthUnit::Meters);
    assert_eq!(MassUnit::default(), MassUnit::Kilograms);
    assert_eq!(TimeUnit::default(), TimeUnit::Seconds);
    assert_eq!(TemperatureUnit::default(), TemperatureUnit::Kelvin);
    assert_eq!(VelocityUnit::default(), VelocityUnit::MetersPerSecond);
    assert_eq!(ForceUnit::default(), ForceUnit::Newtons);
    assert_eq!(PressureUnit::default(), PressureUnit::Pascals);
}

#[test]
fn dimension_names() {
    assert_eq!(LengthUnit::dimension_name(), "Length");
    assert_eq!(MassUnit::dimension_name(), "Mass");
    assert_eq!(TimeUnit::dimension_name(), "Time");
    assert_eq!(TemperatureUnit::dimension_name(), "Temperature");
    assert_eq!(VelocityUnit::dimension_name(), "Speed");
    assert_eq!(ForceUnit::dimension_name(), "Force");
    assert_eq!(PressureUnit::dimension_name(), "Pressure");
}

#[test]
fn parse_accepts_all_three_forms() {
    assert_eq!(LengthUnit::from_str("m"), Some(LengthUnit::Meters));
    assert_eq!(LengthUnit::from_str("Meters"), Some(LengthUnit::Meters));
    assert_eq!(LengthUnit::from_str("Meters (m)"), Some(LengthUnit::Meters));
    assert_eq!(TemperatureUnit::from_str("°F"), Some(TemperatureUnit::Fahrenheit));
    assert_eq!(PressureUnit::from_str("Torrs (Torr)"), Some(PressureUnit::Torrs));
}

#[test]
fn parse_own_spellings_in_every_dimension() {
    parses_own_spellings::<LengthUnit>();
    parses_own_spellings::<MassUnit>();
    parses_own_spellings::<TimeUnit>();
    parses_own_spellings::<TemperatureUnit>();
    parses_own_spellings::<VelocityUnit>();
    parses_own_spellings::<ForceUnit>();
    parses_own_spellings::<PressureUnit>();
}

#[test]
fn parse_rejects_garbage_in_every_dimension() {
    assert_eq!(LengthUnit::from_str("not-a-unit"), None);
    assert_eq!(MassUnit::from_str("not-a-unit"), None);
    assert_eq!(TimeUnit::from_str("not-a-unit"), None);
    assert_eq!(TemperatureUnit::from_str("not-a-unit"), None);
    assert_eq!(VelocityUnit::from_str("not-a-unit"), None);
    assert_eq!(ForceUnit::from_str("not-a-unit"), None);
    assert_eq!(PressureUnit::from_str("not-a-unit"), None);
}

#[test]
fn parse_is_exact() {
    assert_eq!(LengthUnit::from_str(""), None);
    assert_eq!(LengthUnit::from_str("M"), None);
    assert_eq!(LengthUnit::from_str("meters"), None);
    assert_eq!(LengthUnit::from_str(" m"), None);
    assert_eq!(LengthUnit::from_str("Meters(m)"), None);
    assert_eq!(LengthUnit::from_str("Meters (km)"), None);
    assert_eq!(MassUnit::from_str("kg "), None);
    assert_eq!(TemperatureUnit::from_str("C"), None);
}

#[test]
fn spellings_are_unambiguous() {
    forms_are_distinct::<LengthUnit>();
    forms_are_distinct::<MassUnit>();
    forms_are_distinct::<TimeUnit>();
    forms_are_distinct::<TemperatureUnit>();
    forms_are_distinct::<VelocityUnit>();
    forms_are_distinct::<ForceUnit>();
    forms_are_distinct::<PressureUnit>();
}
