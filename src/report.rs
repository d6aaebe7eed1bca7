//! From the service's answer to the four lines of the report.
use vstd::prelude::*;
use crate::codes::{condition_name, weather_name};
use crate::error::{Field, WeatherError};
use crate::json::{
    deref, field, find_field, first_element, first_of, json_parse, member, member_of, parse_json, Json,
};

verus! {

/// The four values of the current interval. The three measurements are kept
/// as the text that the response's numbers render to.
pub struct Reading {
    pub code: u64,
    pub temperature: String,
    pub humidity: String,
    pub wind_speed: String,
}

/// A reading as values: the code, and the text of each measurement.
pub struct ReadingView {
    pub code: u64,
    pub temperature: Seq<char>,
    pub humidity: Seq<char>,
    pub wind_speed: Seq<char>,
}

impl View for Reading {
    type V = ReadingView;

    open spec fn view(&self) -> ReadingView {
        ReadingView {
            code: self.code,
            temperature: self.temperature@,
            humidity: self.humidity@,
            wind_speed: self.wind_speed@,
        }
    }
}

/// The object at `data.timelines[0].intervals[0].values` of a response whose
/// top-level members are `root`.
pub open spec fn values_of(root: Seq<(String, Json)>) -> Option<Json> {
    member(
        first_element(
            member(first_element(member(field(root, "data"@), "timelines"@)), "intervals"@),
        ),
        "values"@,
    )
}

/// The text of `v`, where `v` is a number.
pub open spec fn number_text(v: Option<Json>) -> Option<Seq<char>> {
    match v {
        Some(Json::Number(n)) => Some(n.text@),
        _ => None,
    }
}

/// The value of `v`, where `v` is a number that is a non-negative integer
/// within `u64`.
pub open spec fn unsigned_value(v: Option<Json>) -> Option<u64> {
    match v {
        Some(Json::Number(n)) => n.unsigned,
        _ => None,
    }
}

/// The reading that a response with top-level members `root` carries, or the
/// first thing wrong with it.
pub open spec fn reading_of(root: Seq<(String, Json)>) -> Result<ReadingView, WeatherError> {
    let values = values_of(root);
    let code = unsigned_value(member(values, Field::WeatherCode.key_view()));
    let temperature = number_text(member(values, Field::Temperature.key_view()));
    let humidity = number_text(member(values, Field::Humidity.key_view()));
    let wind_speed = number_text(member(values, Field::WindSpeed.key_view()));
    if !(values matches Some(Json::Object(_))) {
        Err(WeatherError::MissingValues)
    } else if code is None {
        Err(WeatherError::BadField(Field::WeatherCode))
    } else if temperature is None {
        Err(WeatherError::BadField(Field::Temperature))
    } else if humidity is None {
        Err(WeatherError::BadField(Field::Humidity))
    } else if wind_speed is None {
        Err(WeatherError::BadField(Field::WindSpeed))
    } else {
        Ok(
            ReadingView {
                code: code.unwrap(),
                temperature: temperature.unwrap(),
                humidity: humidity.unwrap(),
                wind_speed: wind_speed.unwrap(),
            },
        )
    }
}

/// The four lines of the report, without a final line break.
pub open spec fn report_text(name: Seq<char>, r: ReadingView) -> Seq<char> {
    "weather: "@ + name + "\ntemperature: "@ + r.temperature + "\nhumidity: "@ + r.humidity
        + "\nwindspeed: "@ + r.wind_speed
}

/// The report for a response with top-level members `root`, or why there is
/// none.
pub open spec fn report_of(root: Seq<(String, Json)>) -> Result<Seq<char>, WeatherError> {
    match reading_of(root) {
        Err(e) => Err(e),
        Ok(r) => match condition_name(r.code) {
            Some(name) => Ok(report_text(name, r)),
            None => Err(WeatherError::UnknownCode(r.code)),
        },
    }
}

/// `r` is `s` with the text taken as its characters.
pub open spec fn same_outcome(r: Result<String, WeatherError>, s: Result<Seq<char>, WeatherError>) -> bool {
    match r {
        Ok(t) => s == Ok::<Seq<char>, WeatherError>(t@),
        Err(e) => s == Err::<Seq<char>, WeatherError>(e),
    }
}

/// The text of `v`, where `v` is a number.
fn number_of(v: Option<&Json>) -> (r: Option<String>)
    ensures
        r is Some <==> number_text(deref(v)) is Some,
        r matches Some(t) ==> number_text(deref(v)) == Some(t@),
{
    match v {
        Some(Json::Number(n)) => Some(n.text.clone()),
        _ => None,
    }
}

/// Reads the four values at `data.timelines[0].intervals[0].values`.
pub fn extract_reading(root: &Vec<(String, Json)>) -> (r: Result<Reading, WeatherError>)
    ensures
        match r {
            Ok(x) => reading_of(root@) == Ok::<ReadingView, WeatherError>(x@),
            Err(e) => reading_of(root@) == Err::<ReadingView, WeatherError>(e),
        },
{
    let data = find_field(root, &"data".to_owned());
    let timelines = member_of(data, &"timelines".to_owned());
    let intervals = member_of(first_of(timelines), &"intervals".to_owned());
    let values = member_of(first_of(intervals), &"values".to_owned());
    match values {
        Some(Json::Object(_)) => {},
        _ => {
            return Err(WeatherError::MissingValues);
        },
    }
    let code = match member_of(values, &Field::WeatherCode.key().to_owned()) {
        Some(Json::Number(n)) => n.unsigned,
        _ => None,
    };
    let code = match code {
        Some(c) => c,
        None => {
            return Err(WeatherError::BadField(Field::WeatherCode));
        },
    };
    let temperature = match number_of(member_of(values, &Field::Temperature.key().to_owned())) {
        Some(t) => t,
        None => {
            return Err(WeatherError::BadField(Field::Temperature));
        },
    };
    let humidity = match number_of(member_of(values, &Field::Humidity.key().to_owned())) {
        Some(t) => t,
        None => {
            return Err(WeatherError::BadField(Field::Humidity));
        },
    };
    let wind_speed = match number_of(member_of(values, &Field::WindSpeed.key().to_owned())) {
        Some(t) => t,
        None => {
            return Err(WeatherError::BadField(Field::WindSpeed));
        },
    };
    Ok(Reading { code, temperature, humidity, wind_speed })
}

/// Writes the four lines of the report for `reading`, under condition `name`.
pub fn format_report(name: &str, reading: &Reading) -> (r: String)
    ensures
        r@ == report_text(name@, reading@),
{
    let mut s = "weather: ".to_owned();
    s.append(name);
    s.append("\ntemperature: ");
    s.append(reading.temperature.as_str());
    s.append("\nhumidity: ");
    s.append(reading.humidity.as_str());
    s.append("\nwindspeed: ");
    s.append(reading.wind_speed.as_str());
    s
}

/// The report for a response whose top-level members are `root`.
pub fn report_for_object(root: &Vec<(String, Json)>) -> (r: Result<String, WeatherError>)
    ensures
        same_outcome(r, report_of(root@)),
{
    let reading = match extract_reading(root) {
        Ok(x) => x,
        Err(e) => {
            return Err(e);
        },
    };
    match weather_name(reading.code) {
        Some(name) => Ok(format_report(name, &reading)),
        None => Err(WeatherError::UnknownCode(reading.code)),
    }
}

/// Reads a response body as JSON and takes its top-level object apart.
pub fn parse_weather_data(weather_data: &str) -> (r: Result<Vec<(String, Json)>, WeatherError>)
    ensures
        match json_parse(weather_data@) {
            None => r matches Err(WeatherError::Parse(_)),
            Some(Json::Object(entries)) => r == Ok::<Vec<(String, Json)>, WeatherError>(entries),
            Some(_) => r matches Err(WeatherError::NotObject),
        },
{
    match parse_json(weather_data) {
        Ok(Json::Object(entries)) => Ok(entries),
        Ok(_) => Err(WeatherError::NotObject),
        Err(m) => Err(WeatherError::Parse(m)),
    }
}

/// The outcome of a run, given what fetching the response gave: its body, or
/// the transport's error message.
pub fn weather_report(fetched: Result<String, String>) -> (r: Result<String, WeatherError>)
    ensures
        match fetched {
            Err(m) => r matches Err(WeatherError::Network(e)) && e@ == m@,
            Ok(body) => match json_parse(body@) {
                None => r matches Err(WeatherError::Parse(_)),
                Some(Json::Object(entries)) => same_outcome(r, report_of(entries@)),
                Some(_) => r matches Err(WeatherError::NotObject),
            },
        },
{
    match fetched {
        Err(m) => Err(WeatherError::Network(m)),
        Ok(body) => match parse_weather_data(body.as_str()) {
            Ok(root) => report_for_object(&root),
            Err(e) => Err(e),
        },
    }
}

/// A response whose reading is complete but whose weather code is not in the
/// table yields the unknown-code failure, carrying that code, and no report.
pub proof fn lemma_unknown_code_is_reported(root: Seq<(String, Json)>)
    requires
        reading_of(root) is Ok,
        condition_name(reading_of(root)->Ok_0.code) is None,
    ensures
        report_of(root) == Err::<Seq<char>, WeatherError>(
            WeatherError::UnknownCode(reading_of(root)->Ok_0.code),
        ),
{
}

/// A response whose reading is complete and whose weather code is in the table
/// yields the four lines: the condition name, then temperature, humidity and
/// wind speed, each as the response's number text.
pub proof fn lemma_known_code_is_reported(root: Seq<(String, Json)>)
    requires
        reading_of(root) is Ok,
        condition_name(reading_of(root)->Ok_0.code) is Some,
    ensures
        report_of(root) == Ok::<Seq<char>, WeatherError>(
            "weather: "@ + condition_name(reading_of(root)->Ok_0.code).unwrap() + "\ntemperature: "@
                + reading_of(root)->Ok_0.temperature + "\nhumidity: "@
                + reading_of(root)->Ok_0.humidity + "\nwindspeed: "@
                + reading_of(root)->Ok_0.wind_speed,
        ),
{
}

} // verus!
