use weather_lookup::api_keys::ApiKeys;
use weather_lookup::arg_parser::{Config, Coords, Timeframe, Unit};
use weather_lookup::json::{Json, NotJson};
use weather_lookup::link::InvalidUrl;
use weather_lookup::weather_data::{
    endpoint, pad, query, read_response, table_row, url_builder, weather_table, DataShapeError,
    FetchError, WeatherObject,
};

fn settings(timeframe: Option<Timeframe>, unit: Option<Unit>) -> Config {
    Config {
        timeframe,
        unit,
        coords: Some(Coords { lat: "48.85".to_string(), lon: "2.35".to_string() }),
        keys: Some(ApiKeys { weather_key: "k1".to_string(), location_key: "k2".to_string() }),
    }
}

fn entry_text(i: usize) -> String {
    format!(
        "{{\"dt_txt\":\"2024-03-{:02} {:02}:00:00\",\"main\":{{\"temp\":{}.5,\"humidity\":40}},\"weather\":[{{\"id\":800,\"main\":\"Sky{}\"}}],\"wind\":{{\"speed\":{}.25,\"deg\":90}}}}",
        1 + i / 8,
        (i % 8) * 3,
        i,
        i,
        i
    )
}

fn entry_reading(i: usize) -> WeatherObject {
    WeatherObject {
        description: format!("Sky{}", i),
        temp: format!("{}.5", i),
        wind_speed: format!("{}.25", i),
        date: format!("03-{:02}", 1 + i / 8),
        time: format!("{:02}:00", (i % 8) * 3),
    }
}

fn forecast(n: usize) -> Json {
    let mut entries = Vec::new();
    for i in 0..n {
        entries.push(entry_text(i));
    }
    let text = format!("{{\"cod\":\"200\",\"cnt\":{},\"list\":[{}]}}", n, entries.join(","));
    Json::parse(&text).unwrap()
}

fn current_text() -> &'static str {
    "{\"coord\":{\"lon\":2.35,\"lat\":48.85},\"weather\":[{\"id\":803,\"main\":\"Clouds\",\"description\":\"broken clouds\"},{\"id\":500,\"main\":\"Rain\"}],\"main\":{\"temp\":21.5,\"pressure\":1014},\"wind\":{\"speed\":3.6,\"deg\":250},\"name\":\"Paris\"}"
}

fn current_reading() -> WeatherObject {
    WeatherObject {
        description: "Clouds".to_string(),
        temp: "21.5".to_string(),
        wind_speed: "3.6".to_string(),
        date: "Today".to_string(),
        time: "Now".to_string(),
    }
}

fn object(members: Vec<(&str, Json)>) -> Json {
    Json::Object(members.into_iter().map(|(k, v)| (k.to_string(), v)).collect())
}

fn entry(description: Json, temp: Json, speed: Json, stamp: Option<Json>) -> Json {
    let mut members = vec![
        ("weather", Json::Array(vec![object(vec![("main", description)])])),
        ("main", object(vec![("temp", temp)])),
        ("wind", object(vec![("speed", speed)])),
    ];
    if let Some(stamp) = stamp {
        members.push(("dt_txt", stamp));
    }
    object(members)
}

fn text(s: &str) -> Json {
    Json::Text(s.to_string())
}

fn number(s: &str) -> Json {
    Json::Number(s.to_string())
}

#[test]
fn endpoint_depends_on_the_timeframe() {
    assert_eq!(endpoint(&None), "https://api.openweathermap.org/data/2.5/weather");
    assert_eq!(
        endpoint(&Some(Timeframe::Current)),
        "https://api.openweathermap.org/data/2.5/weather"
    );
    assert_eq!(
        endpoint(&Some(Timeframe::Hourly)),
        "https://api.openweathermap.org/data/2.5/forecast"
    );
    assert_eq!(
        endpoint(&Some(Timeframe::Daily)),
        "https://api.openweathermap.org/data/2.5/forecast"
    );
}

#[test]
fn query_lists_the_parameters_in_order() {
    let pair = |k: &str, v: &str| (k.to_string(), v.to_string());
    assert_eq!(
        query(&settings(Some(Timeframe::Current), Some(Unit::F))),
        vec![pair("lat", "48.85"), pair("lon", "2.35"), pair("units", "imperial"), pair("appid", "k1")]
    );
    assert_eq!(
        query(&settings(Some(Timeframe::Hourly), Some(Unit::C))),
        vec![
            pair("lat", "48.85"),
            pair("lon", "2.35"),
            pair("units", "metric"),
            pair("appid", "k1"),
            pair("cnt", "8"),
        ]
    );
    assert_eq!(
        query(&settings(Some(Timeframe::Daily), None)),
        vec![
            pair("lat", "48.85"),
            pair("lon", "2.35"),
            pair("units", "metric"),
            pair("appid", "k1"),
            pair("cnt", "32"),
        ]
    );
}

#[test]
fn current_weather_url() {
    assert_eq!(
        url_builder(&settings(Some(Timeframe::Current), Some(Unit::C))),
        Ok("https://api.openweathermap.org/data/2.5/weather?lat=48.85&lon=2.35&units=metric&appid=k1"
            .to_string())
    );
    assert_eq!(
        url_builder(&settings(None, None)),
        Ok("https://api.openweathermap.org/data/2.5/weather?lat=48.85&lon=2.35&units=metric&appid=k1"
            .to_string())
    );
}

#[test]
fn hourly_url_asks_for_eight_entries() {
    assert_eq!(
        url_builder(&settings(Some(Timeframe::Hourly), Some(Unit::F))),
        Ok("https://api.openweathermap.org/data/2.5/forecast?lat=48.85&lon=2.35&units=imperial&appid=k1&cnt=8"
            .to_string())
    );
}

#[test]
fn daily_url_asks_for_thirty_two_entries() {
    assert_eq!(
        url_builder(&settings(Some(Timeframe::Daily), Some(Unit::C))),
        Ok("https://api.openweathermap.org/data/2.5/forecast?lat=48.85&lon=2.35&units=metric&appid=k1&cnt=32"
            .to_string())
    );
}

#[test]
fn url_encodes_what_the_settings_hold() {
    let mut config = settings(Some(Timeframe::Current), Some(Unit::C));
    config.coords = Some(Coords { lat: "-33.87".to_string(), lon: "151 21".to_string() });
    config.keys = Some(ApiKeys { weather_key: "a&b".to_string(), location_key: "".to_string() });
    let expected: Result<String, InvalidUrl> = Ok(
        "https://api.openweathermap.org/data/2.5/weather?lat=-33.87&lon=151+21&units=metric&appid=a%26b"
            .to_string(),
    );
    assert_eq!(url_builder(&config), expected);
}

#[test]
fn parse_reads_every_kind_of_value() {
    let json = Json::parse("{\"b\":[true,false,null],\"a\":{\"n\":1,\"s\":\"x\"}}").unwrap();
    assert_eq!(
        json,
        object(vec![
            ("a", object(vec![("n", number("1")), ("s", text("x"))])),
            ("b", Json::Array(vec![Json::Bool(true), Json::Bool(false), Json::Null])),
        ])
    );
    assert_eq!(Json::parse("[]"), Ok(Json::Array(vec![])));
    assert_eq!(Json::parse(" \"a\\\"b\\u00e9\" "), Ok(text("a\"b\u{e9}")));
}

#[test]
fn parse_holds_numbers_as_decimal_text() {
    assert_eq!(Json::parse("280"), Ok(number("280")));
    assert_eq!(Json::parse("280.50"), Ok(number("280.5")));
    assert_eq!(Json::parse("280.0"), Ok(number("280")));
    assert_eq!(Json::parse("-3.25"), Ok(number("-3.25")));
    assert_eq!(Json::parse("1e3"), Ok(number("1000")));
    assert_eq!(Json::parse("0.1"), Ok(number("0.1")));
}

#[test]
fn parse_rejects_what_is_no_document() {
    assert_eq!(Json::parse(""), Err(NotJson));
    assert_eq!(Json::parse("{"), Err(NotJson));
    assert_eq!(Json::parse("{\"a\":}"), Err(NotJson));
    assert_eq!(Json::parse("<html></html>"), Err(NotJson));
    assert_eq!(Json::parse("{} {}"), Err(NotJson));
}

#[test]
fn members_and_elements_are_found() {
    let json = object(vec![
        ("list", Json::Array(vec![number("1"), number("2")])),
        ("name", text("Paris")),
        ("name", text("shadowed")),
    ]);
    assert_eq!(json.get("name"), Some(&text("Paris")));
    assert_eq!(json.get("Name"), None);
    assert_eq!(json.get(""), None);
    assert_eq!(json.get("list").unwrap().at(1), Some(&number("2")));
    assert_eq!(json.get("list").unwrap().at(2), None);
    assert_eq!(json.at(0), None);
    assert_eq!(text("x").get("x"), None);
    assert_eq!(json.get("list").unwrap().as_array().map(|a| a.len()), Some(2));
    assert_eq!(json.as_array(), None);
    assert_eq!(text("x").as_text(), Some(&"x".to_string()));
    assert_eq!(number("1").as_text(), None);
    assert_eq!(number("1").as_number(), Some(&"1".to_string()));
    assert_eq!(text("1").as_number(), None);
}

#[test]
fn response_with_a_bad_status_is_refused() {
    assert_eq!(read_response(401, current_text()), Err(FetchError::Status(401)));
    assert_eq!(read_response(404, "not json"), Err(FetchError::Status(404)));
    assert_eq!(read_response(199, "{}"), Err(FetchError::Status(199)));
    assert_eq!(read_response(300, "{}"), Err(FetchError::Status(300)));
    assert_eq!(read_response(500, ""), Err(FetchError::Status(500)));
}

#[test]
fn response_with_a_bad_body_is_refused() {
    assert_eq!(read_response(200, "not json"), Err(FetchError::Body));
    assert_eq!(read_response(204, ""), Err(FetchError::Body));
}

#[test]
fn response_with_a_document_is_taken() {
    assert_eq!(read_response(200, "{\"cod\":200}"), Ok(object(vec![("cod", number("200"))])));
    assert_eq!(read_response(299, "[]"), Ok(Json::Array(vec![])));
}

#[test]
fn current_payload_gives_one_reading_for_today() {
    let payload = Json::parse(current_text()).unwrap();
    assert_eq!(WeatherObject::build(&payload), Ok(current_reading()));
    for timeframe in [Timeframe::Current, Timeframe::Hourly, Timeframe::Daily] {
        assert_eq!(WeatherObject::normalize(&payload, timeframe), Ok(vec![current_reading()]));
    }
    let payload = Json::parse(current_text()).unwrap();
    assert_eq!(
        WeatherObject::build_all(payload, settings(Some(Timeframe::Current), Some(Unit::C))),
        Ok(vec![current_reading()])
    );
    let payload = Json::parse(current_text()).unwrap();
    assert_eq!(WeatherObject::build_all(payload, Config::empty()), Ok(vec![current_reading()]));
}

#[test]
fn entry_with_a_timestamp_gives_its_date_and_time() {
    let data = entry(text("Rain"), number("7.25"), number("12"), Some(text("2024-11-05 21:00:00")));
    assert_eq!(
        WeatherObject::build(&data),
        Ok(WeatherObject {
            description: "Rain".to_string(),
            temp: "7.25".to_string(),
            wind_speed: "12".to_string(),
            date: "11-05".to_string(),
            time: "21:00".to_string(),
        })
    );
    let short = entry(text("Rain"), number("7.25"), number("12"), Some(text("2024-11-05 21:00")));
    assert_eq!(WeatherObject::build(&short).map(|r| (r.date, r.time)), Ok(("11-05".to_string(), "21:00".to_string())));
}

#[test]
fn timestamp_is_cut_by_characters() {
    let data = entry(text("x"), number("1"), number("2"), Some(text("\u{e9}\u{e9}\u{e9}\u{e9}-ab-cd \u{3b1}\u{3b2}:\u{3b3}\u{3b4}:00")));
    assert_eq!(
        WeatherObject::build(&data).map(|r| (r.date, r.time)),
        Ok(("ab-cd".to_string(), "\u{3b1}\u{3b2}:\u{3b3}\u{3b4}".to_string()))
    );
}

#[test]
fn entry_without_description_is_refused() {
    let no_text = entry(number("1"), number("1"), number("2"), None);
    assert_eq!(WeatherObject::build(&no_text), Err(DataShapeError::Description));
    let no_conditions = object(vec![
        ("weather", Json::Array(vec![])),
        ("main", object(vec![("temp", number("1"))])),
        ("wind", object(vec![("speed", number("2"))])),
    ]);
    assert_eq!(WeatherObject::build(&no_conditions), Err(DataShapeError::Description));
    assert_eq!(WeatherObject::build(&object(vec![])), Err(DataShapeError::Description));
    assert_eq!(WeatherObject::build(&Json::Null), Err(DataShapeError::Description));
}

#[test]
fn entry_without_temperature_is_refused() {
    let as_text = entry(text("Rain"), text("21.5"), number("2"), None);
    assert_eq!(WeatherObject::build(&as_text), Err(DataShapeError::Temperature));
    let missing = object(vec![
        ("weather", Json::Array(vec![object(vec![("main", text("Rain"))])])),
        ("main", object(vec![("pressure", number("1000"))])),
        ("wind", object(vec![("speed", number("2"))])),
    ]);
    assert_eq!(WeatherObject::build(&missing), Err(DataShapeError::Temperature));
    let null = entry(text("Rain"), Json::Null, Json::Null, Some(Json::Null));
    assert_eq!(WeatherObject::build(&null), Err(DataShapeError::Temperature));
}

#[test]
fn entry_without_wind_speed_is_refused() {
    let null = entry(text("Rain"), number("1"), Json::Null, Some(Json::Null));
    assert_eq!(WeatherObject::build(&null), Err(DataShapeError::WindSpeed));
    let missing = object(vec![
        ("weather", Json::Array(vec![object(vec![("main", text("Rain"))])])),
        ("main", object(vec![("temp", number("1"))])),
    ]);
    assert_eq!(WeatherObject::build(&missing), Err(DataShapeError::WindSpeed));
}

#[test]
fn entry_with_a_malformed_timestamp_is_refused() {
    let short = entry(text("Rain"), number("1"), number("2"), Some(text("2024-11-05 21:0")));
    assert_eq!(WeatherObject::build(&short), Err(DataShapeError::Timestamp));
    let empty = entry(text("Rain"), number("1"), number("2"), Some(text("")));
    assert_eq!(WeatherObject::build(&empty), Err(DataShapeError::Timestamp));
    let seconds = entry(text("Rain"), number("1"), number("2"), Some(number("1730840400")));
    assert_eq!(WeatherObject::build(&seconds), Err(DataShapeError::Timestamp));
    let null = entry(text("Rain"), number("1"), number("2"), Some(Json::Null));
    assert_eq!(WeatherObject::build(&null), Err(DataShapeError::Timestamp));
}

#[test]
fn daily_keeps_the_first_and_every_eighth_of_thirty_two() {
    let expected: Vec<WeatherObject> = [0usize, 7, 15, 23, 31].iter().map(|i| entry_reading(*i)).collect();
    assert_eq!(WeatherObject::normalize(&forecast(32), Timeframe::Daily), Ok(expected.clone()));
    assert_eq!(
        WeatherObject::build_all(forecast(32), settings(Some(Timeframe::Daily), Some(Unit::C))),
        Ok(expected)
    );
}

#[test]
fn hourly_keeps_all_thirty_two_in_order() {
    let expected: Vec<WeatherObject> = (0..32usize).map(entry_reading).collect();
    assert_eq!(WeatherObject::normalize(&forecast(32), Timeframe::Hourly), Ok(expected.clone()));
    assert_eq!(
        WeatherObject::build_all(forecast(32), settings(Some(Timeframe::Hourly), Some(Unit::C))),
        Ok(expected)
    );
}

#[test]
fn hourly_forecast_of_eight_entries() {
    let expected: Vec<WeatherObject> = (0..8usize).map(entry_reading).collect();
    assert_eq!(WeatherObject::normalize(&forecast(8), Timeframe::Hourly), Ok(expected));
}

#[test]
fn daily_sample_of_other_lengths() {
    let pick = |n: usize| -> Vec<String> {
        WeatherObject::normalize(&forecast(n), Timeframe::Daily)
            .unwrap()
            .into_iter()
            .map(|r| r.description)
            .collect()
    };
    assert_eq!(pick(0), Vec::<String>::new());
    assert_eq!(pick(1), vec!["Sky0"]);
    assert_eq!(pick(7), vec!["Sky0"]);
    assert_eq!(pick(8), vec!["Sky0", "Sky7"]);
    assert_eq!(pick(9), vec!["Sky0", "Sky7"]);
    assert_eq!(pick(16), vec!["Sky0", "Sky7", "Sky15"]);
    assert_eq!(pick(33), vec!["Sky0", "Sky7", "Sky15", "Sky23", "Sky31"]);
    assert_eq!(pick(40), vec!["Sky0", "Sky7", "Sky15", "Sky23", "Sky31", "Sky39"]);
}

#[test]
fn sample_daily_copies_the_kept_readings() {
    let all: Vec<WeatherObject> = (0..17usize).map(entry_reading).collect();
    assert_eq!(
        WeatherObject::sample_daily(&all),
        vec![entry_reading(0), entry_reading(7), entry_reading(15)]
    );
    assert_eq!(WeatherObject::sample_daily(&vec![]), vec![]);
    assert_eq!(entry_reading(3).duplicate(), entry_reading(3));
}

#[test]
fn empty_list_gives_no_reading() {
    let payload = object(vec![("list", Json::Array(vec![]))]);
    assert_eq!(WeatherObject::normalize(&payload, Timeframe::Hourly), Ok(vec![]));
    assert_eq!(WeatherObject::normalize(&payload, Timeframe::Daily), Ok(vec![]));
}

#[test]
fn current_with_a_list_reads_the_payload_itself() {
    assert_eq!(
        WeatherObject::normalize(&forecast(8), Timeframe::Current),
        Err(DataShapeError::Description)
    );
    let mut members = vec![("list".to_string(), Json::Array(vec![]))];
    if let Json::Object(own) = Json::parse(current_text()).unwrap() {
        members.extend(own);
    }
    assert_eq!(
        WeatherObject::normalize(&Json::Object(members), Timeframe::Current),
        Ok(vec![current_reading()])
    );
}

#[test]
fn list_that_is_no_array_is_refused() {
    for timeframe in [Timeframe::Current, Timeframe::Hourly, Timeframe::Daily] {
        let payload = object(vec![("list", text("none"))]);
        assert_eq!(WeatherObject::normalize(&payload, timeframe), Err(DataShapeError::List));
        let payload = object(vec![("list", Json::Null)]);
        assert_eq!(WeatherObject::normalize(&payload, timeframe), Err(DataShapeError::List));
    }
}

#[test]
fn first_unreadable_entry_decides_the_error() {
    let good = || entry(text("Rain"), number("1"), number("2"), Some(text("2024-11-05 21:00:00")));
    let no_wind = || entry(text("Rain"), number("1"), text("calm"), None);
    let no_temp = || entry(text("Rain"), Json::Null, number("2"), None);
    let list = vec![good(), no_wind(), no_temp()];
    assert_eq!(WeatherObject::build_list(&list), Err(DataShapeError::WindSpeed));
    let payload = object(vec![("list", Json::Array(vec![good(), good(), no_temp(), no_wind()]))]);
    assert_eq!(WeatherObject::normalize(&payload, Timeframe::Hourly), Err(DataShapeError::Temperature));
    assert_eq!(WeatherObject::normalize(&payload, Timeframe::Daily), Err(DataShapeError::Temperature));
}

#[test]
fn cells_are_filled_to_seven_characters() {
    assert_eq!(pad(""), "       ");
    assert_eq!(pad("Now"), "Now    ");
    assert_eq!(pad("Today"), "Today  ");
    assert_eq!(pad("1234567"), "1234567");
    assert_eq!(pad("Thunderstorm"), "Thunderstorm");
    assert_eq!(pad("\u{e9}t\u{e9}"), "\u{e9}t\u{e9}    ");
}

#[test]
fn row_lists_date_time_temperature_description_and_wind() {
    assert_eq!(table_row(&current_reading()), "| Today   | Now     | 21.5    | Clouds  | 3.6     |");
    assert_eq!(table_row(&entry_reading(9)), "| 03-02   | 03:00   | 9.5     | Sky9    | 9.25    |");
}

#[test]
fn table_frames_every_row() {
    let border = "+-------------------------------------------------+";
    assert_eq!(
        weather_table(&vec![]),
        vec![border, "|  Date   |  Time   |  Temp   | Weather |  Wind   |", border]
    );
    assert_eq!(
        weather_table(&vec![current_reading(), entry_reading(31)]),
        vec![
            border,
            "|  Date   |  Time   |  Temp   | Weather |  Wind   |",
            border,
            "| Today   | Now     | 21.5    | Clouds  | 3.6     |",
            border,
            "| 03-04   | 21:00   | 31.5    | Sky31   | 31.25   |",
            border,
        ]
    );
}

#[test]
fn payload_without_a_list_is_dated_today_whatever_its_timestamp() {
    let text = "{\"dt_txt\":\"2024-05-17 12:00:00\",\"weather\":[{\"main\":\"Clear\"}],\"main\":{\"temp\":21.5},\"wind\":{\"speed\":3.25}}";
    let expected = WeatherObject {
        description: "Clear".to_string(),
        temp: "21.5".to_string(),
        wind_speed: "3.25".to_string(),
        date: "Today".to_string(),
        time: "Now".to_string(),
    };
    for timeframe in [Timeframe::Current, Timeframe::Hourly, Timeframe::Daily] {
        let payload = Json::parse(text).unwrap();
        assert_eq!(WeatherObject::normalize(&payload, timeframe), Ok(vec![expected.clone()]));
        let payload = Json::parse(text).unwrap();
        assert_eq!(
            WeatherObject::build_all(payload, settings(Some(timeframe), Some(Unit::C))),
            Ok(vec![expected.clone()])
        );
    }
    let payload = Json::parse(text).unwrap();
    assert_eq!(WeatherObject::build_current(&payload), Ok(expected));
    assert_eq!(
        WeatherObject::build(&payload).map(|r| (r.date, r.time)),
        Ok(("05-17".to_string(), "12:00".to_string()))
    );
}

#[test]
fn malformed_timestamp_is_no_error_without_a_list() {
    for stamp in [text("soon"), text(""), number("1730840400"), Json::Null] {
        let payload = entry(text("Rain"), number("1"), number("2"), Some(stamp));
        assert_eq!(WeatherObject::build(&payload), Err(DataShapeError::Timestamp));
        assert_eq!(
            WeatherObject::normalize(&payload, Timeframe::Current),
            Ok(vec![WeatherObject {
                description: "Rain".to_string(),
                temp: "1".to_string(),
                wind_speed: "2".to_string(),
                date: "Today".to_string(),
                time: "Now".to_string(),
            }])
        );
    }
}

#[test]
fn current_reading_names_the_first_value_that_is_missing() {
    assert_eq!(WeatherObject::build_current(&object(vec![])), Err(DataShapeError::Description));
    let no_temp = entry(text("Rain"), Json::Null, Json::Null, None);
    assert_eq!(WeatherObject::build_current(&no_temp), Err(DataShapeError::Temperature));
    let no_wind = entry(text("Rain"), number("1"), text("calm"), None);
    assert_eq!(WeatherObject::build_current(&no_wind), Err(DataShapeError::WindSpeed));
    assert_eq!(
        WeatherObject::normalize(&no_wind, Timeframe::Daily),
        Err(DataShapeError::WindSpeed)
    );
}

#[test]
fn current_with_a_list_reads_the_timestamp_of_the_payload() {
    let mut members = vec![
        ("list".to_string(), Json::Array(vec![])),
        ("dt_txt".to_string(), text("2024-05-17 12:00:00")),
    ];
    if let Json::Object(own) = Json::parse(current_text()).unwrap() {
        members.extend(own);
    }
    assert_eq!(
        WeatherObject::normalize(&Json::Object(members), Timeframe::Current)
            .map(|readings| readings.into_iter().map(|r| (r.date, r.time)).collect::<Vec<_>>()),
        Ok(vec![("05-17".to_string(), "12:00".to_string())])
    );
}
