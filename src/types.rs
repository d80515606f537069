use vstd::prelude::*;

verus! {

/// Relies on reqwest's error type, carried unchanged as the cause of a failed request.
#[verifier::external_type_specification]
#[verifier::external_body]
pub struct ExReqwestError(reqwest::Error);

/// Relies on toml's deserialisation error type, carried unchanged as the cause of a bad configuration.
#[verifier::external_type_specification]
#[verifier::external_body]
pub struct ExTomlError(toml::de::Error);

/// Relies on handlebars' rendering error type, carried unchanged as the cause of a template failure.
#[verifier::external_type_specification]
#[verifier::external_body]
pub struct ExTemplateRenderError(handlebars::TemplateRenderError);

/// Settings of one run: the service key, the location and the display template.
#[derive(Debug, Clone)]
pub struct Configuration {
    pub api_key: String,
    pub city_id: String,
    pub display: String,
}

/// The temperature scales a reading can be shown in.
#[derive(Debug, Clone, Copy, PartialEq, Eq, Structural)]
pub enum Unit {
    Kelvin,
    Celsius,
    Fahrenheit,
}

/// A whole-degree temperature in a given unit.
#[derive(Debug, Clone, Copy, PartialEq, Eq, Structural)]
pub struct Temperature(pub i16, pub Unit);

/// Integer division that truncates toward zero.
pub open spec fn div_trunc(a: int, d: int) -> int
    recommends
        d > 0,
{
    if a >= 0 {
        a / d
    } else {
        -((-a) / d)
    }
}

/// The value of `v` degrees of unit `from`, expressed in unit `to`, with the
/// fixed offsets 273 and 460 and truncating division.
pub open spec fn converted_value(v: int, from: Unit, to: Unit) -> int {
    match (from, to) {
        (Unit::Kelvin, Unit::Celsius) => v - 273,
        (Unit::Kelvin, Unit::Fahrenheit) => div_trunc(v * 9, 5) - 460,
        (Unit::Celsius, Unit::Kelvin) => v + 273,
        (Unit::Celsius, Unit::Fahrenheit) => div_trunc(v * 9, 5) + 32,
        (Unit::Fahrenheit, Unit::Kelvin) => div_trunc((v + 460) * 5, 9),
        (Unit::Fahrenheit, Unit::Celsius) => div_trunc((v - 32) * 5, 9),
        _ => v,
    }
}

pub open spec fn fits_i16(x: int) -> bool {
    i16::MIN <= x <= i16::MAX
}

/// Whether `t` expressed in `unit` is still representable.
pub open spec fn convertible(t: Temperature, unit: Unit) -> bool {
    fits_i16(converted_value(t.0 as int, t.1, unit))
}

fn div_trunc_exec(a: i32, d: i32) -> (r: i32)
    requires
        d > 0,
        a > i32::MIN,
    ensures
        r as int == div_trunc(a as int, d as int),
{
    if a >= 0 {
        a / d
    } else {
        -((-a) / d)
    }
}

/// `t` expressed in `unit`, computed wide enough that nothing overflows.
fn converted_wide(t: Temperature, unit: Unit) -> (r: i32)
    ensures
        r as int == converted_value(t.0 as int, t.1, unit),
{
    let v = t.0 as i32;
    match (t.1, unit) {
        (Unit::Kelvin, Unit::Celsius) => v - 273,
        (Unit::Kelvin, Unit::Fahrenheit) => div_trunc_exec(v * 9, 5) - 460,
        (Unit::Celsius, Unit::Kelvin) => v + 273,
        (Unit::Celsius, Unit::Fahrenheit) => div_trunc_exec(v * 9, 5) + 32,
        (Unit::Fahrenheit, Unit::Kelvin) => div_trunc_exec((v + 460) * 5, 9),
        (Unit::Fahrenheit, Unit::Celsius) => div_trunc_exec((v - 32) * 5, 9),
        _ => v,
    }
}

/// Whether `t` can be expressed in every unit.
pub open spec fn displayable(t: Temperature) -> bool {
    convertible(t, Unit::Celsius) && convertible(t, Unit::Kelvin) && convertible(t, Unit::Fahrenheit)
}

impl Temperature {
    /// The same temperature expressed in `unit`.
    pub fn as_unit(self, unit: Unit) -> (r: Temperature)
        requires
            convertible(self, unit),
        ensures
            r.0 as int == converted_value(self.0 as int, self.1, unit),
            r.1 == unit,
    {
        Temperature(converted_wide(self, unit) as i16, unit)
    }

    /// Whether this temperature can be expressed in every unit.
    pub fn is_displayable(self) -> (r: bool)
        ensures
            r == displayable(self),
    {
        let c = converted_wide(self, Unit::Celsius);
        let k = converted_wide(self, Unit::Kelvin);
        let f = converted_wide(self, Unit::Fahrenheit);
        i16::MIN as i32 <= c && c <= i16::MAX as i32 && i16::MIN as i32 <= k && k <= i16::MAX as i32
            && i16::MIN as i32 <= f && f <= i16::MAX as i32
    }
}

/// The value that the weather service expects for `u` in its `units` parameter.
pub open spec fn api_name(u: Unit) -> Seq<char> {
    match u {
        Unit::Celsius => "metric"@,
        Unit::Fahrenheit => "imperial"@,
        Unit::Kelvin => "kelvin"@,
    }
}

impl Unit {
    pub fn to_api(&self) -> (r: &'static str)
        ensures
            r@ == api_name(*self),
    {
        match self {
            Unit::Celsius => "metric",
            Unit::Fahrenheit => "imperial",
            Unit::Kelvin => "kelvin",
        }
    }
}

/// Every way a run can fail.
#[derive(Debug)]
pub enum ForecastError {
    /// The request to the weather service failed.
    HttpError(reqwest::Error),
    /// The configuration file could not be decoded.
    InvalidConfigFile(toml::de::Error),
    /// The display template could not be rendered.
    InvalidTemplate(handlebars::TemplateRenderError),
    /// The configuration file could not be read.
    MissingConfigFile,
    /// The weather service answered with a body of the wrong shape.
    InvalidResponse,
}

/// Converting a temperature to its own unit is always possible and changes
/// nothing, for every unit; conversions between different units may lose
/// precision.
pub proof fn lemma_same_unit_identity(t: Temperature)
    ensures
        convertible(t, t.1),
        converted_value(t.0 as int, t.1, t.1) == t.0 as int,
{
}

} // verus!
