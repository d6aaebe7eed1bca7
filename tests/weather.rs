use weather_tool::codes::weather_name;
use weather_tool::error::{decimal_text, Field, WeatherError};
use weather_tool::json::{find_field, Json};
use weather_tool::report::{
    extract_reading, format_report, parse_weather_data, report_for_object, weather_report, Reading,
};
use weather_tool::request::request_url;

fn sample(code: &str, temperature: &str, humidity: &str, wind: &str) -> String {
    format!(
        "{{\"data\":{{\"timelines\":[{{\"timestep\":\"1m\",\"intervals\":[{{\"startTime\":\"2021-05-01T10:00:00Z\",\"values\":{{\"weatherCode\":{},\"temperature\":{},\"humidity\":{},\"windSpeed\":{}}}}}]}}]}}}}",
        code, temperature, humidity, wind
    )
}

#[test]
fn every_table_code_has_its_name() {
    let table: Vec<(u64, &str)> = vec![
        (4201, "Heavy Rain"),
        (4001, "Rain"),
        (4200, "Light Rain"),
        (6201, "Heavy Freezing Rain"),
        (6001, "Freezing Rain"),
        (6200, "Light Freezing Rain"),
        (6000, "Freezing Drizzle"),
        (4000, "Drizzle"),
        (7101, "Heavy Ice Pellets"),
        (7000, "Ice Pellets"),
        (7102, "Light Ice Pellets"),
        (5101, "Heavy Snow"),
        (5000, "Snow"),
        (5100, "Light Snow"),
        (5001, "Flurries"),
        (8000, "Thunderstorm"),
        (2100, "Light Fog"),
        (2000, "Fog"),
        (1001, "Cloudy"),
        (1102, "Mostly Cloudy"),
        (1101, "Partly Cloudy"),
        (1100, "Mostly Clear"),
        (1000, "Clear, Sunny"),
    ];
    assert_eq!(table.len(), 23);
    for (code, name) in table {
        assert_eq!(weather_name(code), Some(name));
    }
}

#[test]
fn codes_outside_the_table_have_no_name() {
    assert_eq!(weather_name(9999), None);
    assert_eq!(weather_name(0), None);
    assert_eq!(weather_name(4202), None);
    assert_eq!(weather_name(u64::MAX), None);
}

#[test]
fn sample_response_gives_four_lines() {
    let body = sample("4001", "12.5", "80", "3.2");
    let out = weather_report(Ok(body)).unwrap();
    assert_eq!(out, "weather: Rain\ntemperature: 12.5\nhumidity: 80\nwindspeed: 3.2");
    assert_eq!(out.lines().count(), 4);
}

#[test]
fn negative_temperature_keeps_its_text() {
    let body = sample("1000", "-7.25", "41", "0");
    let out = weather_report(Ok(body)).unwrap();
    assert_eq!(out, "weather: Clear, Sunny\ntemperature: -7.25\nhumidity: 41\nwindspeed: 0");
}

#[test]
fn array_body_is_not_an_object() {
    let r = weather_report(Ok("[]".to_string()));
    assert!(matches!(r, Err(WeatherError::NotObject)));
    assert!(matches!(parse_weather_data("[]"), Err(WeatherError::NotObject)));
}

#[test]
fn scalar_body_is_not_an_object() {
    assert!(matches!(weather_report(Ok("42".to_string())), Err(WeatherError::NotObject)));
    assert!(matches!(parse_weather_data("\"text\""), Err(WeatherError::NotObject)));
    assert!(matches!(parse_weather_data("null"), Err(WeatherError::NotObject)));
}

#[test]
fn malformed_json_is_a_parse_error() {
    let r = parse_weather_data("{not valid");
    assert!(matches!(r, Err(WeatherError::Parse(_))));
    let r = weather_report(Ok("{not valid".to_string()));
    match r {
        Err(e @ WeatherError::Parse(_)) => {
            assert!(e.message().starts_with("Problem parsing the weather data: "));
            assert!(e.message().len() > "Problem parsing the weather data: ".len());
        }
        _ => panic!("expected a parse error"),
    }
}

#[test]
fn empty_body_is_a_parse_error() {
    assert!(matches!(parse_weather_data(""), Err(WeatherError::Parse(_))));
}

#[test]
fn network_failure_is_reported() {
    let r = weather_report(Err("connection refused".to_string()));
    match r {
        Err(e @ WeatherError::Network(_)) => {
            assert_eq!(
                e.message(),
                "Problem getting the weather data from tomorrow.io: connection refused"
            );
        }
        _ => panic!("expected a network error"),
    }
}

#[test]
fn unknown_code_is_a_handled_error() {
    let body = sample("9999", "12.5", "80", "3.2");
    let r = weather_report(Ok(body));
    match r {
        Err(e @ WeatherError::UnknownCode(9999)) => {
            assert_eq!(e.message(), "Unrecognized weather code: 9999");
        }
        _ => panic!("expected an unknown-code error"),
    }
}

#[test]
fn missing_path_is_reported() {
    let r = weather_report(Ok("{}".to_string()));
    assert!(matches!(r, Err(WeatherError::MissingValues)));
    let r = weather_report(Ok("{\"data\":{\"timelines\":[]}}".to_string()));
    assert!(matches!(r, Err(WeatherError::MissingValues)));
    let r = weather_report(Ok("{\"data\":{\"timelines\":[{\"intervals\":[{\"values\":[]}]}]}}".to_string()));
    assert!(matches!(r, Err(WeatherError::MissingValues)));
    assert_eq!(
        WeatherError::MissingValues.message(),
        "Unexpected response shape: no data.timelines[0].intervals[0].values object"
    );
}

#[test]
fn code_must_be_a_non_negative_integer() {
    for code in ["-1", "4001.5", "\"4001\"", "null"] {
        let r = weather_report(Ok(sample(code, "1", "2", "3")));
        assert!(matches!(r, Err(WeatherError::BadField(Field::WeatherCode))), "{}", code);
    }
}

#[test]
fn measurements_must_be_numbers() {
    let r = weather_report(Ok(sample("1000", "\"warm\"", "2", "3")));
    assert!(matches!(r, Err(WeatherError::BadField(Field::Temperature))));
    let r = weather_report(Ok(sample("1000", "1", "true", "3")));
    assert!(matches!(r, Err(WeatherError::BadField(Field::Humidity))));
    let r = weather_report(Ok(sample("1000", "1", "2", "[3]")));
    assert!(matches!(r, Err(WeatherError::BadField(Field::WindSpeed))));
    assert_eq!(
        WeatherError::BadField(Field::WindSpeed).message(),
        "Unexpected response shape: member windSpeed is missing or of the wrong type"
    );
}

#[test]
fn missing_member_is_a_bad_field() {
    let body = "{\"data\":{\"timelines\":[{\"intervals\":[{\"values\":{\"weatherCode\":1000,\"temperature\":1,\"windSpeed\":3}}]}]}}";
    let r = weather_report(Ok(body.to_string()));
    assert!(matches!(r, Err(WeatherError::BadField(Field::Humidity))));
}

#[test]
fn reading_is_extracted_from_the_object() {
    let root = parse_weather_data(&sample("5100", "-0.5", "93", "11")).unwrap();
    let reading = extract_reading(&root).unwrap();
    assert_eq!(reading.code, 5100);
    assert_eq!(reading.temperature, "-0.5");
    assert_eq!(reading.humidity, "93");
    assert_eq!(reading.wind_speed, "11");
    assert_eq!(
        report_for_object(&root).unwrap(),
        "weather: Light Snow\ntemperature: -0.5\nhumidity: 93\nwindspeed: 11"
    );
}

#[test]
fn parsed_object_keeps_its_members() {
    let root = parse_weather_data("{\"b\":[1,2],\"a\":\"x\"}").unwrap();
    assert_eq!(root.len(), 2);
    match find_field(&root, &"a".to_string()) {
        Some(Json::Str(s)) => assert_eq!(s, "x"),
        _ => panic!("expected member a"),
    }
    match find_field(&root, &"b".to_string()) {
        Some(Json::Array(items)) => {
            assert_eq!(items.len(), 2);
            match &items[1] {
                Json::Number(n) => {
                    assert_eq!(n.text, "2");
                    assert_eq!(n.unsigned, Some(2));
                }
                _ => panic!("expected a number"),
            }
        }
        _ => panic!("expected member b"),
    }
    assert!(find_field(&root, &"c".to_string()).is_none());
}

#[test]
fn report_lines_are_in_order() {
    let reading = Reading {
        code: 8000,
        temperature: "30.1".to_string(),
        humidity: "55".to_string(),
        wind_speed: "9.75".to_string(),
    };
    assert_eq!(
        format_report("Thunderstorm", &reading),
        "weather: Thunderstorm\ntemperature: 30.1\nhumidity: 55\nwindspeed: 9.75"
    );
}

#[test]
fn url_embeds_arguments_verbatim() {
    assert_eq!(
        request_url("52.52", "13.405", "my-key"),
        "https://api.tomorrow.io/v4/timelines?location=52.52,13.405&fields=temperature&fields=humidity&fields=windSpeed&fields=weatherCode&timesteps=1m&units=metric&apikey=my-key"
    );
    assert_eq!(
        request_url("", "", ""),
        "https://api.tomorrow.io/v4/timelines?location=,&fields=temperature&fields=humidity&fields=windSpeed&fields=weatherCode&timesteps=1m&units=metric&apikey="
    );
}

#[test]
fn decimal_text_writes_digits() {
    assert_eq!(decimal_text(0), "0");
    assert_eq!(decimal_text(7), "7");
    assert_eq!(decimal_text(10), "10");
    assert_eq!(decimal_text(1234567890), "1234567890");
    assert_eq!(decimal_text(u64::MAX), u64::MAX.to_string());
}

#[test]
fn field_keys_match_the_response() {
    assert_eq!(Field::WeatherCode.key(), "weatherCode");
    assert_eq!(Field::Temperature.key(), "temperature");
    assert_eq!(Field::Humidity.key(), "humidity");
    assert_eq!(Field::WindSpeed.key(), "windSpeed");
}

#[test]
fn not_object_message_is_a_parse_message() {
    assert_eq!(
        WeatherError::NotObject.message(),
        "Problem parsing the weather data: Parsed data can not be converted into an object"
    );
}
