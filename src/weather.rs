use vstd::prelude::*;
use vstd::string::StrSliceExecFns;
use vstd::string::StringExecFns;

use crate::json::{at_path, child, member, path_view, Json, PathStep, Step};
use crate::types::{
    api_name, converted_value, displayable, Configuration, ForecastError, Temperature, Unit,
};

verus! {

/// Whether two strings hold the same characters.
fn same_text(a: &str, b: &str) -> (r: bool)
    ensures
        r == (a@ == b@),
{
    let n = a.unicode_len();
    if n != b.unicode_len() {
        return false;
    }
    let mut i: usize = 0;
    while i < n
        invariant
            n == a@.len(),
            n == b@.len(),
            i <= n,
            forall|j: int| 0 <= j < i ==> a@[j] == b@[j],
        decreases n - i,
    {
        if a.get_char(i) != b.get_char(i) {
            return false;
        }
        i = i + 1;
    }
    assert(a@ =~= b@);
    true
}

/// The glyph shown for a condition code of the weather service; codes it
/// does not know show the clear-sky glyph.
pub open spec fn icon_for(code: Seq<char>) -> char {
    if code == "01d"@ {
        '\u{f00d}'
    } else if code == "01n"@ {
        '\u{f02e}'
    } else if code == "02d"@ {
        '\u{f002}'
    } else if code == "02n"@ {
        '\u{f086}'
    } else if code == "03d"@ || code == "03n"@ {
        '\u{f041}'
    } else if code == "04d"@ || code == "04n"@ {
        '\u{f013}'
    } else if code == "09d"@ || code == "09n"@ {
        '\u{f018}'
    } else if code == "10d"@ {
        '\u{f008}'
    } else if code == "10n"@ {
        '\u{f036}'
    } else if code == "11d"@ {
        '\u{f005}'
    } else if code == "11n"@ {
        '\u{f025}'
    } else if code == "13d"@ {
        '\u{f00a}'
    } else if code == "13n"@ {
        '\u{f02a}'
    } else if code == "50d"@ {
        '\u{f003}'
    } else if code == "50n"@ {
        '\u{f04a}'
    } else {
        '\u{f00d}'
    }
}

/// The glyph for a condition code; defined for every string.
pub fn get_icon(code: &str) -> (r: char)
    ensures
        r == icon_for(code@),
{
    if same_text(code, "01d") {
        '\u{f00d}'
    } else if same_text(code, "01n") {
        '\u{f02e}'
    } else if same_text(code, "02d") {
        '\u{f002}'
    } else if same_text(code, "02n") {
        '\u{f086}'
    } else if same_text(code, "03d") || same_text(code, "03n") {
        '\u{f041}'
    } else if same_text(code, "04d") || same_text(code, "04n") {
        '\u{f013}'
    } else if same_text(code, "09d") || same_text(code, "09n") {
        '\u{f018}'
    } else if same_text(code, "10d") {
        '\u{f008}'
    } else if same_text(code, "10n") {
        '\u{f036}'
    } else if same_text(code, "11d") {
        '\u{f005}'
    } else if same_text(code, "11n") {
        '\u{f025}'
    } else if same_text(code, "13d") {
        '\u{f00a}'
    } else if same_text(code, "13n") {
        '\u{f02a}'
    } else if same_text(code, "50d") {
        '\u{f003}'
    } else if same_text(code, "50n") {
        '\u{f04a}'
    } else {
        '\u{f00d}'
    }
}

/// What one query of the weather service yields.
#[derive(Debug, Clone, Copy, PartialEq, Eq, Structural)]
pub struct WeatherInfo {
    pub icon: char,
    pub temperature: Temperature,
}

/// The two queries the weather service answers.
#[derive(Debug, Clone, Copy, PartialEq, Eq, Structural)]
pub enum QueryType {
    Current,
    Forecast,
}

/// Where the condition code stands within one weather record.
pub open spec fn icon_path() -> Seq<PathStep> {
    seq![PathStep::Key("weather"@), PathStep::Index(0), PathStep::Key("icon"@)]
}

/// Where the temperature stands within one weather record.
pub open spec fn temp_path() -> Seq<PathStep> {
    seq![PathStep::Key("main"@), PathStep::Key("temp"@)]
}

/// Where the weather record stands within the answer to a query: the current
/// answer is the record itself, the forecast holds it first in `list`.
pub open spec fn record_path(q: QueryType) -> Seq<PathStep> {
    match q {
        QueryType::Current => seq![],
        QueryType::Forecast => seq![PathStep::Key("list"@), PathStep::Index(0)],
    }
}

/// `n` brought into the range of `i16`.
pub open spec fn saturate(n: int) -> i16 {
    if n < i16::MIN {
        i16::MIN
    } else if n > i16::MAX {
        i16::MAX
    } else {
        n as i16
    }
}

/// The weather read from one record: a string code and a number are required.
pub open spec fn info_of_record(rec: Json) -> Option<WeatherInfo> {
    match (at_path(rec, icon_path()), at_path(rec, temp_path())) {
        (Some(Json::Str(code)), Some(Json::Number(n))) => Some(
            WeatherInfo { icon: icon_for(code@), temperature: Temperature(saturate(n as int), Unit::Celsius) },
        ),
        _ => None,
    }
}

/// The weather read from the answer to query `q`.
pub open spec fn parsed(response: Json, q: QueryType) -> Option<WeatherInfo> {
    match at_path(response, record_path(q)) {
        Some(rec) => info_of_record(rec),
        None => None,
    }
}

fn icon_steps() -> (r: Vec<Step>)
    ensures
        path_view(r@) == icon_path(),
{
    let r = vec![Step::Key(String::from_str("weather")), Step::Index(0), Step::Key(String::from_str("icon"))];
    assert(path_view(r@) =~= icon_path());
    r
}

fn temp_steps() -> (r: Vec<Step>)
    ensures
        path_view(r@) == temp_path(),
{
    let r = vec![Step::Key(String::from_str("main")), Step::Key(String::from_str("temp"))];
    assert(path_view(r@) =~= temp_path());
    r
}

fn record_steps(q: QueryType) -> (r: Vec<Step>)
    ensures
        path_view(r@) == record_path(q),
{
    let r = match q {
        QueryType::Current => Vec::new(),
        QueryType::Forecast => vec![Step::Key(String::from_str("list")), Step::Index(0)],
    };
    assert(path_view(r@) =~= record_path(q));
    r
}

fn saturate_exec(n: i64) -> (r: i16)
    ensures
        r == saturate(n as int),
{
    if n < i16::MIN as i64 {
        i16::MIN
    } else if n > i16::MAX as i64 {
        i16::MAX
    } else {
        n as i16
    }
}

fn info_of_record_exec(rec: &Json) -> (r: Option<WeatherInfo>)
    ensures
        r == info_of_record(*rec),
{
    let code = match rec.at(&icon_steps()) {
        Some(Json::Str(code)) => code,
        _ => return None,
    };
    let n = match rec.at(&temp_steps()) {
        Some(Json::Number(n)) => *n,
        _ => return None,
    };
    Some(WeatherInfo { icon: get_icon(code.as_str()), temperature: Temperature(saturate_exec(n), Unit::Celsius) })
}

/// An answer is rejected, whichever the query, where its weather record has no
/// `weather` member, where that member is an empty array, where the record's
/// `main.temp` is present but not a number, and where the whole answer is an
/// empty object.
pub proof fn lemma_malformed_answers_rejected(response: Json, q: QueryType)
    ensures
        (at_path(response, record_path(q)) matches Some(rec) && child(rec, PathStep::Key("weather"@))
            is None) ==> parsed(response, q) is None,
        (at_path(response, record_path(q)) matches Some(rec) && child(rec, PathStep::Key("weather"@))
            matches Some(Json::Array(xs)) && xs@.len() == 0) ==> parsed(response, q) is None,
        (at_path(response, record_path(q)) matches Some(rec) && at_path(rec, temp_path()) matches Some(
            t,
        ) && !(t is Number)) ==> parsed(response, q) is None,
        (response matches Json::Object(es) && es@.len() == 0) ==> parsed(response, q) is None,
{
    reveal_with_fuel(at_path, 4);
    if let Some(rec) = at_path(response, record_path(q)) {
        let ip = icon_path();
        assert(ip[0] == PathStep::Key("weather"@));
        assert(ip.drop_first()[0] == PathStep::Index(0));
        assert(ip.drop_first().drop_first().drop_first().len() == 0);
        let tp = temp_path();
        assert(tp.drop_first().drop_first().len() == 0);
    }
    if let Json::Object(es) = response {
        if es@.len() == 0 {
            assert(member(es@, "list"@) is None);
            assert(member(es@, "weather"@) is None);
            assert(member(es@, "main"@) is None);
        }
    }
}

/// The weather in the answer to query `q`, or `None` where the answer lacks
/// a field or holds one of the wrong kind.
pub fn parse_response(response: &Json, q: QueryType) -> (r: Option<WeatherInfo>)
    ensures
        r == parsed(*response, q),
{
    match response.at(&record_steps(q)) {
        Some(rec) => info_of_record_exec(rec),
        None => None,
    }
}

/// The weather in an answer to the current-conditions query: the code at
/// `weather[0].icon` and the temperature at `main.temp`.
pub fn parse_current(response: &Json) -> (r: Option<WeatherInfo>)
    ensures
        r == parsed(*response, QueryType::Current),
{
    parse_response(response, QueryType::Current)
}

/// The weather in an answer to the forecast query: the same fields, in the
/// first element of `list`.
pub fn parse_forecast(response: &Json) -> (r: Option<WeatherInfo>)
    ensures
        r == parsed(*response, QueryType::Forecast),
{
    parse_response(response, QueryType::Forecast)
}

/// The temperature `t` in unit `u`.
pub open spec fn in_unit(t: Temperature, u: Unit) -> int {
    converted_value(t.0 as int, t.1, u)
}

pub open spec fn rising_glyph() -> char {
    '\u{e8e5}'
}

pub open spec fn falling_glyph() -> char {
    '\u{e8e3}'
}

pub open spec fn steady_glyph() -> char {
    '\u{e8e4}'
}

/// The trend glyph from `current` to `forecast`, both in one unit.
pub open spec fn trend_of(current: int, forecast: int) -> char {
    if current < forecast {
        rising_glyph()
    } else if current > forecast {
        falling_glyph()
    } else {
        steady_glyph()
    }
}

/// The glyph for a change from `current` to `forecast` degrees: rising,
/// falling or steady.
pub fn trend(current: i16, forecast: i16) -> (r: char)
    ensures
        r == trend_of(current as int, forecast as int),
{
    if current < forecast {
        '\u{e8e5}'
    } else if current > forecast {
        '\u{e8e3}'
    } else {
        '\u{e8e4}'
    }
}

/// The fields that a display template can name.
#[derive(Debug, Clone, Copy, PartialEq, Eq, Structural)]
pub struct Output {
    pub temp_celsius: i16,
    pub temp_kelvin: i16,
    pub temp_fahrenheit: i16,
    pub temp_icon: char,
    pub trend: char,
    pub forecast_celsius: i16,
    pub forecast_kelvin: i16,
    pub forecast_fahrenheit: i16,
    pub forecast_icon: char,
}

/// The display record of a current and a forecast reading.
pub open spec fn record_of(current: WeatherInfo, forecast: WeatherInfo) -> Output {
    let c = current.temperature;
    let f = forecast.temperature;
    Output {
        temp_celsius: in_unit(c, Unit::Celsius) as i16,
        temp_kelvin: in_unit(c, Unit::Kelvin) as i16,
        temp_fahrenheit: in_unit(c, Unit::Fahrenheit) as i16,
        temp_icon: current.icon,
        trend: trend_of(in_unit(c, Unit::Celsius), in_unit(f, Unit::Celsius)),
        forecast_celsius: in_unit(f, Unit::Celsius) as i16,
        forecast_kelvin: in_unit(f, Unit::Kelvin) as i16,
        forecast_fahrenheit: in_unit(f, Unit::Fahrenheit) as i16,
        forecast_icon: forecast.icon,
    }
}

/// The numeric members of the record, by the names templates use.
pub open spec fn record_numbers(o: Output) -> Seq<(Seq<char>, i16)> {
    seq![
        ("temp_celsius"@, o.temp_celsius),
        ("temp_kelvin"@, o.temp_kelvin),
        ("temp_fahrenheit"@, o.temp_fahrenheit),
        ("forecast_celsius"@, o.forecast_celsius),
        ("forecast_kelvin"@, o.forecast_kelvin),
        ("forecast_fahrenheit"@, o.forecast_fahrenheit),
    ]
}

/// The glyph members of the record, by the names templates use.
pub open spec fn record_glyphs(o: Output) -> Seq<(Seq<char>, char)> {
    seq![("temp_icon"@, o.temp_icon), ("trend"@, o.trend), ("forecast_icon"@, o.forecast_icon)]
}

pub open spec fn number_members(v: Seq<(String, i16)>) -> Seq<(Seq<char>, i16)> {
    v.map_values(|p: (String, i16)| (p.0@, p.1))
}

pub open spec fn glyph_members(v: Seq<(String, char)>) -> Seq<(Seq<char>, char)> {
    v.map_values(|p: (String, char)| (p.0@, p.1))
}

/// What strict template rendering gives for `template` against an object
/// with the given members; `None` where it fails.
pub uninterp spec fn strict_render(
    template: Seq<char>,
    numbers: Seq<(Seq<char>, i16)>,
    glyphs: Seq<(Seq<char>, char)>,
) -> Option<Seq<char>>;

/// Relies on handlebars' `Registry::render_template`, with strict mode set by
/// `Registry::set_strict_mode`: it renders `template` against the object built
/// from the members (numbers as JSON integers, glyphs as one-character
/// strings), or fails, among other cases, where the template names a member
/// that is absent. The outcome depends on these arguments alone.
#[verifier::external_body]
fn render_strict(template: &str, numbers: &Vec<(String, i16)>, glyphs: &Vec<(String, char)>) -> (r:
    Result<String, handlebars::TemplateRenderError>)
    ensures
        match r {
            Ok(s) => strict_render(template@, number_members(numbers@), glyph_members(glyphs@)) == Some(s@),
            Err(_) => strict_render(template@, number_members(numbers@), glyph_members(glyphs@)) is None,
        },
{
    let mut data = serde_json::Map::new();
    for (k, v) in numbers.iter() {
        data.insert(k.clone(), serde_json::Value::from(*v));
    }
    for (k, c) in glyphs.iter() {
        data.insert(k.clone(), serde_json::Value::from(c.to_string()));
    }
    let mut reg = handlebars::Handlebars::new();
    reg.set_strict_mode(true);
    reg.render_template(template, &data)
}

impl Output {
    /// The display record of a current and a forecast reading: each
    /// temperature in all three units, both glyphs, and the trend between
    /// the two Celsius values.
    pub fn new(current: WeatherInfo, forecast: WeatherInfo) -> (r: Output)
        requires
            displayable(current.temperature),
            displayable(forecast.temperature),
        ensures
            r == record_of(current, forecast),
    {
        let c = current.temperature;
        let f = forecast.temperature;
        let cc = c.as_unit(Unit::Celsius).0;
        let fc = f.as_unit(Unit::Celsius).0;
        Output {
            temp_celsius: cc,
            temp_kelvin: c.as_unit(Unit::Kelvin).0,
            temp_fahrenheit: c.as_unit(Unit::Fahrenheit).0,
            temp_icon: current.icon,
            trend: trend(cc, fc),
            forecast_celsius: fc,
            forecast_kelvin: f.as_unit(Unit::Kelvin).0,
            forecast_fahrenheit: f.as_unit(Unit::Fahrenheit).0,
            forecast_icon: forecast.icon,
        }
    }

    /// The numeric members, named as templates name them.
    pub fn numeric_fields(&self) -> (r: Vec<(String, i16)>)
        ensures
            number_members(r@) == record_numbers(*self),
    {
        let r = vec![
            (String::from_str("temp_celsius"), self.temp_celsius),
            (String::from_str("temp_kelvin"), self.temp_kelvin),
            (String::from_str("temp_fahrenheit"), self.temp_fahrenheit),
            (String::from_str("forecast_celsius"), self.forecast_celsius),
            (String::from_str("forecast_kelvin"), self.forecast_kelvin),
            (String::from_str("forecast_fahrenheit"), self.forecast_fahrenheit),
        ];
        assert(number_members(r@) =~= record_numbers(*self));
        r
    }

    /// The glyph members, named as templates name them.
    pub fn glyph_fields(&self) -> (r: Vec<(String, char)>)
        ensures
            glyph_members(r@) == record_glyphs(*self),
    {
        let r = vec![
            (String::from_str("temp_icon"), self.temp_icon),
            (String::from_str("trend"), self.trend),
            (String::from_str("forecast_icon"), self.forecast_icon),
        ];
        assert(glyph_members(r@) =~= record_glyphs(*self));
        r
    }

    /// Renders `template` in strict mode against the display record of the
    /// two readings; a template that names an unknown field fails.
    pub fn render(template: &str, current: WeatherInfo, forecast: WeatherInfo) -> (r: Result<
        String,
        ForecastError,
    >)
        requires
            displayable(current.temperature),
            displayable(forecast.temperature),
        ensures
            ({
                let o = record_of(current, forecast);
                let out = strict_render(template@, record_numbers(o), record_glyphs(o));
                match r {
                    Ok(s) => out == Some(s@),
                    Err(e) => out is None && e is InvalidTemplate,
                }
            }),
    {
        let output = Output::new(current, forecast);
        let numbers = output.numeric_fields();
        let glyphs = output.glyph_fields();
        match render_strict(template, &numbers, &glyphs) {
            Ok(s) => Ok(s),
            Err(e) => Err(ForecastError::InvalidTemplate(e)),
        }
    }
}

/// The address the weather service answers query `q` at, up to its query string.
pub open spec fn endpoint(q: QueryType) -> Seq<char> {
    match q {
        QueryType::Current => "http://api.openweathermap.org/data/2.5/weather?"@,
        QueryType::Forecast => "http://api.openweathermap.org/data/2.5/forecast?"@,
    }
}

/// The encoding of a query string holding `key` with `value` alone; `None`
/// where the encoder refuses it.
pub uninterp spec fn query_pair(key: Seq<char>, value: Seq<char>) -> Option<Seq<char>>;

/// Relies on `serde_qs::to_string` on a map of one member: it encodes `key`
/// and `value` into a query string, or fails; the outcome depends on the two
/// strings alone.
#[verifier::external_body]
fn encode_pair(key: &str, value: &str) -> (r: Option<String>)
    ensures
        match r {
            Some(s) => query_pair(key@, value@) == Some(s@),
            None => query_pair(key@, value@) is None,
        },
{
    let mut member = std::collections::BTreeMap::new();
    member.insert(key, value);
    serde_qs::to_string(&member).ok()
}

/// Four encoded parameters joined into one query string.
pub open spec fn joined(a: Seq<char>, b: Seq<char>, c: Seq<char>, d: Seq<char>) -> Seq<char> {
    a + "&"@ + b + "&"@ + c + "&"@ + d
}

/// The query string for a configuration: its key, its location, Celsius
/// units and a single result.
pub open spec fn query_of(c: Configuration) -> Option<Seq<char>> {
    match (
        query_pair("APPID"@, c.api_key@),
        query_pair("id"@, c.city_id@),
        query_pair("units"@, api_name(Unit::Celsius)),
        query_pair("cnt"@, "1"@),
    ) {
        (Some(a), Some(b), Some(u), Some(n)) => Some(joined(a, b, u, n)),
        _ => None,
    }
}

/// The address of query `q` with the four encoded parameters, in order.
pub fn assemble_url(q: QueryType, app_id: &str, city_id: &str, units: &str, count: &str) -> (r:
    String)
    ensures
        r@ == endpoint(q) + joined(app_id@, city_id@, units@, count@),
{
    let mut url = match q {
        QueryType::Current => String::from_str("http://api.openweathermap.org/data/2.5/weather?"),
        QueryType::Forecast => String::from_str("http://api.openweathermap.org/data/2.5/forecast?"),
    };
    url.append(app_id);
    url.append("&");
    url.append(city_id);
    url.append("&");
    url.append(units);
    url.append("&");
    url.append(count);
    assert(url@ =~= endpoint(q) + joined(app_id@, city_id@, units@, count@));
    url
}

/// A client of the weather service for one configuration.
#[derive(Debug)]
pub struct OpenWeatherMap<'a> {
    config: &'a Configuration,
}

impl<'a> OpenWeatherMap<'a> {
    /// The configuration the client queries with.
    pub closed spec fn configuration(&self) -> Configuration {
        *self.config
    }

    /// A client that queries with `config`.
    pub fn new(config: &'a Configuration) -> (r: OpenWeatherMap<'a>)
        ensures
            r.configuration() == *config,
    {
        OpenWeatherMap { config }
    }

    /// The address to fetch for query `q`; `None` where a parameter cannot be
    /// encoded.
    pub fn request_url(&self, q: QueryType) -> (r: Option<String>)
        ensures
            match query_of(self.configuration()) {
                Some(qs) => r is Some && r->0@ == endpoint(q) + qs,
                None => r is None,
            },
    {
        let units = Unit::Celsius;
        let a = match encode_pair("APPID", self.config.api_key.as_str()) {
            Some(a) => a,
            None => return None,
        };
        let b = match encode_pair("id", self.config.city_id.as_str()) {
            Some(b) => b,
            None => return None,
        };
        let u = match encode_pair("units", units.to_api()) {
            Some(u) => u,
            None => return None,
        };
        let n = match encode_pair("cnt", "1") {
            Some(n) => n,
            None => return None,
        };
        Some(assemble_url(q, a.as_str(), b.as_str(), u.as_str(), n.as_str()))
    }

    /// The weather in the answer to query `q`; an answer of the wrong shape
    /// is an invalid response.
    pub fn read_answer(&self, q: QueryType, response: &Json) -> (r: Result<WeatherInfo, ForecastError>)
        ensures
            match parsed(*response, q) {
                Some(i) => r == Ok::<WeatherInfo, ForecastError>(i),
                None => r is Err && r->Err_0 is InvalidResponse,
            },
    {
        match parse_response(response, q) {
            Some(i) => Ok(i),
            None => Err(ForecastError::InvalidResponse),
        }
    }
}

/// The line shown for the two answers: both must hold a reading whose
/// temperature can be expressed in every unit, else the response is invalid;
/// then the configured template is rendered against their display record.
pub open spec fn forecast_outcome(
    template: Seq<char>,
    current: Json,
    forecast: Json,
) -> Option<Option<Seq<char>>> {
    match (parsed(current, QueryType::Current), parsed(forecast, QueryType::Forecast)) {
        (Some(c), Some(f)) => if displayable(c.temperature) && displayable(f.temperature) {
            let o = record_of(c, f);
            Some(strict_render(template, record_numbers(o), record_glyphs(o)))
        } else {
            None
        },
        _ => None,
    }
}

/// The status-bar line for the answers to the current and the forecast
/// query. `Err(InvalidResponse)` where an answer is unusable,
/// `Err(InvalidTemplate)` where the template does not render.
pub fn get_forecast(config: &Configuration, current: &Json, forecast: &Json) -> (r: Result<
    String,
    ForecastError,
>)
    ensures
        match forecast_outcome(config.display@, *current, *forecast) {
            None => r is Err && r->Err_0 is InvalidResponse,
            Some(None) => r is Err && r->Err_0 is InvalidTemplate,
            Some(Some(s)) => r is Ok && r->Ok_0@ == s,
        },
{
    let owm = OpenWeatherMap::new(config);
    let c = match owm.read_answer(QueryType::Current, current) {
        Ok(c) => c,
        Err(e) => return Err(e),
    };
    let f = match owm.read_answer(QueryType::Forecast, forecast) {
        Ok(f) => f,
        Err(e) => return Err(e),
    };
    if !c.temperature.is_displayable() || !f.temperature.is_displayable() {
        return Err(ForecastError::InvalidResponse);
    }
    Output::render(config.display.as_str(), c, f)
}

} // verus!
