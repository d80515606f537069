use polybar_forecast::types::Unit::{Celsius, Fahrenheit, Kelvin};
use polybar_forecast::types::{Temperature, Unit};

#[test]
fn unit_converter() {
    assert_eq!(
        Temperature(0, Celsius).as_unit(Fahrenheit),
        Temperature(32, Fahrenheit)
    );

    assert_eq!(
        Temperature(-50, Celsius).as_unit(Kelvin),
        Temperature(223, Kelvin)
    );

    assert_eq!(
        Temperature(32, Fahrenheit).as_unit(Celsius),
        Temperature(0, Celsius)
    );

    assert_eq!(
        Temperature(-459, Fahrenheit).as_unit(Kelvin),
        Temperature(0, Kelvin)
    );

    assert_eq!(
        Temperature(223, Kelvin).as_unit(Celsius),
        Temperature(-50, Celsius)
    );

    // Kelvin to Fahrenheit subtracts the fixed offset 460.
    assert_eq!(
        Temperature(0, Kelvin).as_unit(Fahrenheit),
        Temperature(-460, Fahrenheit)
    );
}

#[test]
fn same_unit_is_identity() {
    for unit in [Unit::Celsius, Unit::Fahrenheit, Unit::Kelvin] {
        for v in [-32768i16, -273, -1, 0, 1, 37, 32767] {
            assert_eq!(Temperature(v, unit).as_unit(unit), Temperature(v, unit));
        }
    }
}

#[test]
fn zero_celsius_is_32_fahrenheit() {
    assert_eq!(
        Temperature(0, Unit::Celsius).as_unit(Unit::Fahrenheit),
        Temperature(32, Unit::Fahrenheit)
    );
}

#[test]
fn minus_50_celsius_is_223_kelvin() {
    assert_eq!(
        Temperature(-50, Unit::Celsius).as_unit(Unit::Kelvin),
        Temperature(223, Unit::Kelvin)
    );
}

#[test]
fn conversions_truncate_toward_zero() {
    // -7 * 9 = -63, -63 / 5 truncates to -12, then + 32.
    assert_eq!(Temperature(-7, Unit::Celsius).as_unit(Unit::Fahrenheit).0, 20);
    // 7 * 9 = 63, 63 / 5 truncates to 12, then + 32.
    assert_eq!(Temperature(7, Unit::Celsius).as_unit(Unit::Fahrenheit).0, 44);
    // (0 - 32) * 5 = -160, -160 / 9 truncates to -17.
    assert_eq!(Temperature(0, Unit::Fahrenheit).as_unit(Unit::Celsius).0, -17);
    // (100 + 460) * 5 = 2800, 2800 / 9 truncates to 311.
    assert_eq!(Temperature(100, Unit::Fahrenheit).as_unit(Unit::Kelvin).0, 311);
    // 300 * 9 = 2700, / 5 = 540, - 460.
    assert_eq!(Temperature(300, Unit::Kelvin).as_unit(Unit::Fahrenheit).0, 80);
    assert_eq!(Temperature(300, Unit::Kelvin).as_unit(Unit::Celsius).0, 27);
    assert_eq!(Temperature(20, Unit::Celsius).as_unit(Unit::Kelvin).0, 293);
}

#[test]
fn round_trip_may_lose_precision() {
    let f = Temperature(1, Unit::Celsius).as_unit(Unit::Fahrenheit);
    assert_eq!(f, Temperature(33, Unit::Fahrenheit));
    assert_eq!(f.as_unit(Unit::Celsius), Temperature(0, Unit::Celsius));
}

#[test]
fn displayable_range() {
    assert!(Temperature(20, Unit::Celsius).is_displayable());
    assert!(!Temperature(32767, Unit::Celsius).is_displayable());
    assert!(!Temperature(-32768, Unit::Kelvin).is_displayable());
}

#[test]
fn api_unit_names() {
    assert_eq!(Unit::Celsius.to_api(), "metric");
    assert_eq!(Unit::Fahrenheit.to_api(), "imperial");
    assert_eq!(Unit::Kelvin.to_api(), "kelvin");
}
