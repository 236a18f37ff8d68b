use unit_conversion::relation::{BaseRelation, Decimal};
use unit_conversion::{
    ForceUnit, LengthUnit, MassUnit, PressureUnit, TemperatureUnit, TimeUnit, UnitOfMeasure,
    VelocityUnit,
};

fn to_f64(d: Decimal) -> f64 {
    d.digits as f64 / 10f64.powi(d.places as i32)
}

/// Applies the tables in floating point: to the base unit through `from`,
/// then out of it through `to`.
fn convert<U: UnitOfMeasure + PartialEq>(value: f64, from: U, to: U) -> f64 {
    if from == to {
        return value;
    }
    let a = from.base_relation();
    let b = to.base_relation();
    let base = (value + to_f64(a.offset)) * to_f64(a.multiplier) / to_f64(a.divisor);
    base * to_f64(b.divisor) / to_f64(b.multiplier) - to_f64(b.offset)
}

fn close(actual: f64, expected: f64, tolerance: f64) -> bool {
    (actual - expected).abs() <= tolerance
}

fn round_trips<U: UnitOfMeasure + PartialEq>() {
    let samples = [0.0, 1.0, -40.0, 100.0, 12345.678, 1.0e-3];
    for a in U::all_units() {
        for b in U::all_units() {
            for v in samples {
                let back = convert(convert(v, a, b), b, a);
                assert!(close(back, v, 1e-9 * v.abs().max(1.0)), "{} -> {}", v, back);
            }
        }
    }
}

fn identity_is_exact<U: UnitOfMeasure + PartialEq>() {
    for a in U::all_units() {
        for v in [0.0, 0.1, -273.15, 1.0e300, 5.5e-300] {
            assert_eq!(convert(v, a, a), v);
        }
    }
}

fn base_relation_is_identity<U: UnitOfMeasure>() {
    let r = U::default().base_relation();
    assert_eq!(r, BaseRelation::scaled(Decimal::new(1, 0), Decimal::new(1, 0)));
    for v in [0.0, 2.5, -7.0, 1.0e10] {
        assert_eq!(convert_through_base(v, r), v);
    }
}

fn convert_through_base(v: f64, r: BaseRelation) -> f64 {
    let base = (v + to_f64(r.offset)) * to_f64(r.multiplier) / to_f64(r.divisor);
    base * to_f64(r.divisor) / to_f64(r.multiplier) - to_f64(r.offset)
}

#[test]
fn length_scenarios() {
    assert!(close(convert(100.0, LengthUnit::Meters, LengthUnit::Kilometers), 0.1, 1e-12));
    assert!(close(convert(100.0, LengthUnit::Meters, LengthUnit::Feet), 328.084, 1e-9));
    assert!(close(convert(100.0, LengthUnit::Meters, LengthUnit::Inches), 3937.0079, 1e-2));
    assert!(close(convert(10.0, LengthUnit::Meters, LengthUnit::Kilometers), 0.01, 1e-12));
    assert!(close(convert(1.0, LengthUnit::Kilometers, LengthUnit::Millimeters), 1.0e6, 1e-6));
}

#[test]
fn mass_scenarios() {
    assert!(close(convert(100.0, MassUnit::Kilograms, MassUnit::Kilograms), 100.0, 0.0));
    assert!(close(convert(100.0, MassUnit::Kilograms, MassUnit::PoundsMass), 220.462262, 1e-3));
    assert!(close(convert(220.462, MassUnit::PoundsMass, MassUnit::Kilograms), 100.0, 1e-9));
}

#[test]
fn temperature_scenarios() {
    assert_eq!(convert(0.0, TemperatureUnit::Celsius, TemperatureUnit::Kelvin), 273.15);
    assert!(close(convert(32.0, TemperatureUnit::Fahrenheit, TemperatureUnit::Kelvin), 273.15, 1e-9));
    assert!(close(convert(100.0, TemperatureUnit::Celsius, TemperatureUnit::Fahrenheit), 212.0, 1e-9));
    assert!(close(convert(-40.0, TemperatureUnit::Celsius, TemperatureUnit::Fahrenheit), -40.0, 1e-9));
    assert!(close(convert(491.67, TemperatureUnit::Rankine, TemperatureUnit::Kelvin), 273.15, 1e-9));
}

#[test]
fn speed_scenarios() {
    assert!(close(convert(1.0, VelocityUnit::MetersPerSecond, VelocityUnit::KilometersPerHour), 3.6, 1e-12));
    assert!(close(convert(1.0, VelocityUnit::MetersPerSecond, VelocityUnit::MilesPerHour), 2.23694, 1e-12));
}

#[test]
fn force_time_and_pressure_scenarios() {
    assert!(close(convert(1.0, ForceUnit::KilogramsForce, ForceUnit::Newtons), 9.80665, 1e-12));
    assert!(close(convert(2.0, TimeUnit::Hours, TimeUnit::Minutes), 120.0, 1e-9));
    assert!(close(convert(1.0, TimeUnit::Weeks, TimeUnit::Days), 7.0, 1e-12));
    assert!(close(convert(1.0, PressureUnit::Atmospheres, PressureUnit::Kilopascals), 101.325, 1e-9));
    assert!(close(convert(1.0, PressureUnit::Bars, PressureUnit::Pascals), 100000.0, 1e-6));
}

#[test]
fn relation_tables() {
    assert_eq!(
        LengthUnit::Inches.base_relation(),
        BaseRelation::scaled(Decimal::new(1, 0), Decimal::new(393701, 4))
    );
    assert_eq!(
        TemperatureUnit::Fahrenheit.base_relation(),
        BaseRelation::shifted(Decimal::new(45967, 2), Decimal::new(5, 0), Decimal::new(9, 0))
    );
    assert_eq!(
        TimeUnit::Years.base_relation(),
        BaseRelation::scaled(Decimal::new(31536000, 0), Decimal::new(1, 0))
    );
    assert_eq!(to_f64(Decimal::new(393701, 4)), 39.3701);
    assert_eq!(to_f64(Decimal::new(27315, 2)), 273.15);
}

#[test]
fn round_trip_in_every_dimension() {
    round_trips::<LengthUnit>();
    round_trips::<MassUnit>();
    round_trips::<TimeUnit>();
    round_trips::<TemperatureUnit>();
    round_trips::<VelocityUnit>();
    round_trips::<ForceUnit>();
    round_trips::<PressureUnit>();
}

#[test]
fn identity_conversion_is_exact() {
    identity_is_exact::<LengthUnit>();
    identity_is_exact::<MassUnit>();
    identity_is_exact::<TimeUnit>();
    identity_is_exact::<TemperatureUnit>();
    identity_is_exact::<VelocityUnit>();
    identity_is_exact::<ForceUnit>();
    identity_is_exact::<PressureUnit>();
}

#[test]
fn base_unit_passes_values_through() {
    base_relation_is_identity::<LengthUnit>();
    base_relation_is_identity::<MassUnit>();
    base_relation_is_identity::<TimeUnit>();
    base_relation_is_identity::<TemperatureUnit>();
    base_relation_is_identity::<VelocityUnit>();
    base_relation_is_identity::<ForceUnit>();
    base_relation_is_identity::<PressureUnit>();
}

#[test]
fn display_pieces_of_a_length_value() {
    let text = format!(
        "{} Value: {:.2} {}",
        LengthUnit::dimension_name(),
        10.0,
        LengthUnit::Meters.name_and_abbr()
    );
    assert_eq!(text, "Length Value: 10.00 Meters (m)");
}
