//! The forecast request and the readings that are taken from its response.

use vstd::prelude::*;
use vstd::string::*;
use crate::arg_parser::{unit_system, Config, ConfigView, Timeframe, Unit};
use crate::json::{document_of_text, Json, JsonView};
use crate::text::lines_view;
use crate::link::{assemble, params_view, url_with_params, plain_base, InvalidUrl};

verus! {

/// One weather reading. Temperature and wind speed are held as the decimal
/// text of the number that the response gave.
#[derive(Clone, Debug, PartialEq, Eq)]
pub struct WeatherObject {
    pub description: String,
    pub temp: String,
    pub wind_speed: String,
    pub date: String,
    pub time: String,
}

pub struct WeatherObjectView {
    pub description: Seq<char>,
    pub temp: Seq<char>,
    pub wind_speed: Seq<char>,
    pub date: Seq<char>,
    pub time: Seq<char>,
}

impl View for WeatherObject {
    type V = WeatherObjectView;

    open spec fn view(&self) -> WeatherObjectView {
        WeatherObjectView {
            description: self.description@,
            temp: self.temp@,
            wind_speed: self.wind_speed@,
            date: self.date@,
            time: self.time@,
        }
    }
}

/// Why a response could not be taken as a forecast.
#[derive(Clone, Copy, Debug, PartialEq, Eq, Structural)]
pub enum FetchError {
    /// The service answered with this status, which is no success.
    Status(u16),
    /// The body is no JSON document.
    Body,
}

/// What a payload lacks where a reading cannot be taken from it.
#[derive(Clone, Copy, Debug, PartialEq, Eq, Structural)]
pub enum DataShapeError {
    /// No text under `weather[0].main`.
    Description,
    /// No number under `main.temp`.
    Temperature,
    /// No number under `wind.speed`.
    WindSpeed,
    /// `dt_txt` is present and is no timestamp of the fixed format.
    Timestamp,
    /// `list` is present and is no array.
    List,
}

/// The endpoint for a timeframe: the forecast for `Hourly` and `Daily`, the
/// current weather else.
pub open spec fn forecast_endpoint(timeframe: Option<Timeframe>) -> Seq<char> {
    match timeframe {
        Some(Timeframe::Hourly) | Some(Timeframe::Daily) =>
            "https://api.openweathermap.org/data/2.5/forecast"@,
        _ => "https://api.openweathermap.org/data/2.5/weather"@,
    }
}

/// The number of three-hour entries asked for: 8 for a day of hours, 32 for
/// the days ahead, none for the current weather.
pub open spec fn entry_count(timeframe: Option<Timeframe>) -> Option<Seq<char>> {
    match timeframe {
        Some(Timeframe::Hourly) => Some("8"@),
        Some(Timeframe::Daily) => Some("32"@),
        _ => None,
    }
}

/// The unit system in the request: metric where no unit is set.
pub open spec fn unit_param(unit: Option<Unit>) -> Seq<char> {
    match unit {
        Some(unit) => unit_system(unit),
        None => "metric"@,
    }
}

/// The query of the forecast request.
pub open spec fn forecast_params(c: ConfigView) -> Seq<(Seq<char>, Seq<char>)>
    recommends
        c.coords is Some,
        c.keys is Some,
{
    let fixed = seq![
        ("lat"@, c.coords->0.lat),
        ("lon"@, c.coords->0.lon),
        ("units"@, unit_param(c.unit)),
        ("appid"@, c.keys->0.weather_key),
    ];
    match entry_count(c.timeframe) {
        Some(count) => fixed.push(("cnt"@, count)),
        None => fixed,
    }
}

/// The URL of the forecast request; `None` where it cannot be assembled.
pub open spec fn forecast_url(c: ConfigView) -> Option<Seq<char>>
    recommends
        c.coords is Some,
        c.keys is Some,
{
    url_with_params(forecast_endpoint(c.timeframe), forecast_params(c))
}

/// The endpoint that the request for `timeframe` goes to.
pub fn endpoint(timeframe: &Option<Timeframe>) -> (r: &'static str)
    ensures
        r@ == forecast_endpoint(*timeframe),
        plain_base(r@),
{
    proof {
        reveal_strlit("https://api.openweathermap.org/data/2.5/forecast");
        reveal_strlit("https://api.openweathermap.org/data/2.5/weather");
    }
    match timeframe {
        Some(Timeframe::Hourly) => "https://api.openweathermap.org/data/2.5/forecast",
        Some(Timeframe::Daily) => "https://api.openweathermap.org/data/2.5/forecast",
        _ => "https://api.openweathermap.org/data/2.5/weather",
    }
}

/// The query parameters of the forecast request, in order: latitude,
/// longitude, unit system, key, and for a forecast the number of entries.
pub fn query(config: &Config) -> (r: Vec<(String, String)>)
    requires
        config@.coords is Some,
        config@.keys is Some,
    ensures
        params_view(r@) == forecast_params(config@),
{
    let mut params: Vec<(String, String)> = Vec::new();
    let unit = match config.get_unit() {
        Some(unit) => unit.system(),
        None => "metric",
    };
    match (config.get_lat(), config.get_lon(), config.get_weather_key()) {
        (Some(lat), Some(lon), Some(key)) => {
            params.push((String::from_str("lat"), lat.clone()));
            params.push((String::from_str("lon"), lon.clone()));
            params.push((String::from_str("units"), String::from_str(unit)));
            params.push((String::from_str("appid"), key.clone()));
        },
        _ => {},
    }
    match config.get_timeframe() {
        Some(Timeframe::Hourly) => {
            params.push((String::from_str("cnt"), String::from_str("8")));
        },
        Some(Timeframe::Daily) => {
            params.push((String::from_str("cnt"), String::from_str("32")));
        },
        _ => {},
    }
    assert(params_view(params@) =~= forecast_params(config@));
    params
}

/// The URL of the forecast request for the settings.
pub fn url_builder(config: &Config) -> (r: Result<String, InvalidUrl>)
    requires
        config@.coords is Some,
        config@.keys is Some,
    ensures
        match r {
            Ok(text) => forecast_url(config@) == Some(text@),
            Err(_) => forecast_url(config@) is None,
        },
{
    let params = query(config);
    assemble(endpoint(config.get_timeframe()), &params)
}

/// Takes the response to the forecast request: a status that is no success
/// is an error whatever the body holds; else the body must be a JSON document.
pub fn read_response(status: u16, body: &str) -> (r: Result<Json, FetchError>)
    ensures
        match r {
            Ok(json) => crate::success_status(status) && document_of_text(body@) == Some(json@),
            Err(FetchError::Status(code)) => !crate::success_status(status) && code == status,
            Err(FetchError::Body) => crate::success_status(status) && document_of_text(body@)
                is None,
        },
{
    if !crate::status_is_success(status) {
        return Err(FetchError::Status(status));
    }
    match Json::parse(body) {
        Ok(json) => Ok(json),
        Err(_) => Err(FetchError::Body),
    }
}

/// Member `inner` of member `outer` of a document.
pub open spec fn nested(data: JsonView, outer: Seq<char>, inner: Seq<char>) -> Option<JsonView> {
    match data.member(outer) {
        Some(group) => group.member(inner),
        None => None,
    }
}

/// The description of an entry: the text under `main` in the first of its
/// `weather` conditions.
pub open spec fn description_of(data: JsonView) -> Option<Seq<char>> {
    match data.member("weather"@) {
        Some(conditions) => match conditions.element(0) {
            Some(first) => match first.member("main"@) {
                Some(main) => main.text(),
                None => None,
            },
            None => None,
        },
        None => None,
    }
}

/// The temperature of an entry: the number under `main.temp`.
pub open spec fn temperature_of(data: JsonView) -> Option<Seq<char>> {
    match nested(data, "main"@, "temp"@) {
        Some(temp) => temp.number(),
        None => None,
    }
}

/// The wind speed of an entry: the number under `wind.speed`.
pub open spec fn wind_speed_of(data: JsonView) -> Option<Seq<char>> {
    match nested(data, "wind"@, "speed"@) {
        Some(speed) => speed.number(),
        None => None,
    }
}

/// Date and time of an entry. Without a `dt_txt` member they are `Today` and
/// `Now`. A timestamp `YYYY-MM-DD hh:mm:ss` gives its sixth to tenth
/// character as the date (`MM-DD`) and its twelfth to sixteenth as the time
/// (`hh:mm`); anything else under `dt_txt` gives nothing.
pub open spec fn moment_of(data: JsonView) -> Option<(Seq<char>, Seq<char>)> {
    match data.member("dt_txt"@) {
        None => Some(("Today"@, "Now"@)),
        Some(stamp) => match stamp.text() {
            Some(text) => if text.len() >= 16 {
                Some((text.subrange(5, 10), text.subrange(11, 16)))
            } else {
                None
            },
            None => None,
        },
    }
}

/// The reading that an entry gives, or what the entry lacks: the first of
/// description, temperature, wind speed and timestamp that is not there.
pub open spec fn reading_of(data: JsonView) -> Result<WeatherObjectView, DataShapeError> {
    match (description_of(data), temperature_of(data), wind_speed_of(data), moment_of(data)) {
        (None, _, _, _) => Err(DataShapeError::Description),
        (Some(_), None, _, _) => Err(DataShapeError::Temperature),
        (Some(_), Some(_), None, _) => Err(DataShapeError::WindSpeed),
        (Some(_), Some(_), Some(_), None) => Err(DataShapeError::Timestamp),
        (Some(description), Some(temp), Some(wind_speed), Some(moment)) => Ok(
            WeatherObjectView { description, temp, wind_speed, date: moment.0, time: moment.1 },
        ),
    }
}

/// The reading that a payload of the current weather gives: it is dated
/// `Today` at `Now` whatever the payload holds under `dt_txt`. Where the
/// payload lacks description, temperature or wind speed, the first of them
/// that is not there.
pub open spec fn current_reading_of(data: JsonView) -> Result<WeatherObjectView, DataShapeError> {
    match (description_of(data), temperature_of(data), wind_speed_of(data)) {
        (None, _, _) => Err(DataShapeError::Description),
        (Some(_), None, _) => Err(DataShapeError::Temperature),
        (Some(_), Some(_), None) => Err(DataShapeError::WindSpeed),
        (Some(description), Some(temp), Some(wind_speed)) => Ok(
            WeatherObjectView { description, temp, wind_speed, date: "Today"@, time: "Now"@ },
        ),
    }
}

/// A result that holds one reading as a list of one.
pub open spec fn alone(reading: Result<WeatherObjectView, DataShapeError>) -> Result<
    Seq<WeatherObjectView>,
    DataShapeError,
> {
    match reading {
        Ok(reading) => Ok(seq![reading]),
        Err(e) => Err(e),
    }
}

/// Entry `n` gives no reading and every entry before it gives one.
pub open spec fn first_unreadable_at(entries: Seq<JsonView>, n: int) -> bool {
    &&& 0 <= n < entries.len()
    &&& reading_of(entries[n]) is Err
    &&& forall|i: int| 0 <= i < n ==> reading_of(#[trigger] entries[i]) is Ok
}

/// The readings of all entries in their order, or what the first entry that
/// gives none lacks.
pub open spec fn readings_of(entries: Seq<JsonView>) -> Result<
    Seq<WeatherObjectView>,
    DataShapeError,
> {
    if exists|n: int| first_unreadable_at(entries, n) {
        Err(reading_of(entries[choose|n: int| first_unreadable_at(entries, n)])->Err_0)
    } else {
        Ok(Seq::new(entries.len(), |i: int| reading_of(entries[i])->Ok_0))
    }
}

/// Whether the daily sample keeps the entry at index `i`: the first entry,
/// and every entry whose position, counted from one, is a multiple of 8.
pub open spec fn kept_daily(i: int) -> bool {
    i == 0 || (i + 1) % 8 == 0
}

/// The index of the `k`-th entry that the daily sample keeps.
pub open spec fn daily_index(k: int) -> int {
    if k == 0 {
        0
    } else {
        8 * k - 1
    }
}

/// How many of `n` entries the daily sample keeps.
pub open spec fn daily_count(n: nat) -> nat {
    if n == 0 {
        0
    } else {
        1 + n / 8
    }
}

/// The daily sample of a sequence: the entries at indices 0, 7, 15, 23, ...
/// in their order.
pub open spec fn daily_sample<T>(s: Seq<T>) -> Seq<T> {
    Seq::new(daily_count(s.len()), |k: int| s[daily_index(k)])
}

/// The views of a list of readings.
pub open spec fn readings_view(readings: Seq<WeatherObject>) -> Seq<WeatherObjectView> {
    Seq::new(readings.len(), |i: int| readings[i]@)
}

/// The views of a list of documents.
pub open spec fn entries_view(entries: Seq<Json>) -> Seq<JsonView> {
    Seq::new(entries.len(), |i: int| entries[i]@)
}

/// The readings that a payload gives for a timeframe. A payload without a
/// `list` member is the current weather: one reading, dated `Today` at `Now`.
/// With one, `list` must be an array: for `Current` the payload itself is
/// read as an entry, for `Hourly` every entry of the list, for `Daily` the
/// daily sample of the entries.
pub open spec fn normalized(data: JsonView, timeframe: Timeframe) -> Result<
    Seq<WeatherObjectView>,
    DataShapeError,
> {
    match data.member("list"@) {
        None => alone(current_reading_of(data)),
        Some(JsonView::Array(entries)) => match timeframe {
            Timeframe::Current => alone(reading_of(data)),
            Timeframe::Hourly => readings_of(entries),
            Timeframe::Daily => match readings_of(entries) {
                Ok(readings) => Ok(daily_sample(readings)),
                Err(e) => Err(e),
            },
        },
        Some(_) => Err(DataShapeError::List),
    }
}

/// The daily sample keeps exactly the indices that `kept_daily` names, each
/// once and in rising order.
pub proof fn lemma_daily_sample_keeps(n: nat)
    ensures
        forall|k: int|
            0 <= k < daily_count(n) ==> 0 <= #[trigger] daily_index(k) < n && kept_daily(
                daily_index(k),
            ),
        forall|i: int|
            0 <= i < n && #[trigger] kept_daily(i) ==> exists|k: int|
                0 <= k < daily_count(n) && daily_index(k) == i,
        forall|j: int, k: int|
            0 <= j < k < daily_count(n) ==> #[trigger] daily_index(j) < #[trigger] daily_index(k),
{
    assert forall|i: int| 0 <= i < n && #[trigger] kept_daily(i) implies exists|k: int|
        0 <= k < daily_count(n) && daily_index(k) == i by {
        if i == 0 {
            assert(daily_index(0) == 0);
        } else {
            let k = (i + 1) / 8;
            assert(daily_index(k) == i);
        }
    }
}

/// A list whose entries can all be read gives the reading of each entry, in
/// the order of the list.
pub proof fn lemma_readable_list(entries: Seq<JsonView>)
    requires
        forall|i: int| 0 <= i < entries.len() ==> reading_of(#[trigger] entries[i]) is Ok,
    ensures
        readings_of(entries) is Ok,
        readings_of(entries)->Ok_0.len() == entries.len(),
        forall|i: int|
            0 <= i < entries.len() ==> reading_of(entries[i]) == Ok::<
                WeatherObjectView,
                DataShapeError,
            >(#[trigger] readings_of(entries)->Ok_0[i]),
{
    assert forall|n: int| !first_unreadable_at(entries, n) by {
        if 0 <= n < entries.len() {
            assert(reading_of(entries[n]) is Ok);
        }
    }
}

/// Among the entries of an array there is at most one first unreadable one.
pub proof fn lemma_first_unreadable_unique(entries: Seq<JsonView>, m: int, n: int)
    requires
        first_unreadable_at(entries, m),
        first_unreadable_at(entries, n),
    ensures
        m == n,
{
    if m < n {
        assert(reading_of(entries[m]) is Ok);
    } else if n < m {
        assert(reading_of(entries[n]) is Ok);
    }
}

impl WeatherObject {
    /// A copy of this reading.
    pub fn duplicate(&self) -> (r: WeatherObject)
        ensures
            r@ == self@,
    {
        WeatherObject {
            description: self.description.clone(),
            temp: self.temp.clone(),
            wind_speed: self.wind_speed.clone(),
            date: self.date.clone(),
            time: self.time.clone(),
        }
    }

    /// Takes one reading from an entry of a forecast: its date and time are
    /// those of the entry's timestamp, or `Today` and `Now` where it has none.
    pub fn build(data: &Json) -> (r: Result<WeatherObject, DataShapeError>)
        ensures
            match r {
                Ok(reading) => reading_of(data@) == Ok::<WeatherObjectView, DataShapeError>(
                    reading@,
                ),
                Err(e) => reading_of(data@) == Err::<WeatherObjectView, DataShapeError>(e),
            },
    {
        let mut reading = match WeatherObject::build_current(data) {
            Ok(reading) => reading,
            Err(e) => {
                return Err(e);
            },
        };
        match data.get("dt_txt") {
            None => {},
            Some(stamp) => match stamp.as_text() {
                Some(text) => {
                    let text = text.as_str();
                    if text.unicode_len() < 16 {
                        return Err(DataShapeError::Timestamp);
                    }
                    reading.date = String::from_str(text.substring_char(5, 10));
                    reading.time = String::from_str(text.substring_char(11, 16));
                },
                None => {
                    return Err(DataShapeError::Timestamp);
                },
            },
        }
        Ok(reading)
    }

    /// Takes the reading of a payload of the current weather: it is dated
    /// `Today` at `Now`, and a timestamp in the payload is not looked at.
    pub fn build_current(data: &Json) -> (r: Result<WeatherObject, DataShapeError>)
        ensures
            match r {
                Ok(reading) => current_reading_of(data@) == Ok::<
                    WeatherObjectView,
                    DataShapeError,
                >(reading@),
                Err(e) => current_reading_of(data@) == Err::<WeatherObjectView, DataShapeError>(e),
            },
    {
        let description = match described(data) {
            Some(text) => text.clone(),
            None => {
                return Err(DataShapeError::Description);
            },
        };
        let temp = match measured(data, "main", "temp") {
            Some(text) => text.clone(),
            None => {
                return Err(DataShapeError::Temperature);
            },
        };
        let wind_speed = match measured(data, "wind", "speed") {
            Some(text) => text.clone(),
            None => {
                return Err(DataShapeError::WindSpeed);
            },
        };
        Ok(
            WeatherObject {
                description,
                temp,
                wind_speed,
                date: String::from_str("Today"),
                time: String::from_str("Now"),
            },
        )
    }

    /// Takes the readings of every entry of a forecast list, in order.
    pub fn build_list(entries: &Vec<Json>) -> (r: Result<Vec<WeatherObject>, DataShapeError>)
        ensures
            match r {
                Ok(readings) => readings_of(entries_view(entries@)) == Ok::<
                    Seq<WeatherObjectView>,
                    DataShapeError,
                >(readings_view(readings@)),
                Err(e) => readings_of(entries_view(entries@)) == Err::<
                    Seq<WeatherObjectView>,
                    DataShapeError,
                >(e),
            },
    {
        let ghost docs = entries_view(entries@);
        let mut readings: Vec<WeatherObject> = Vec::new();
        let mut i: usize = 0;
        while i < entries.len()
            invariant
                i <= entries.len(),
                docs == entries_view(entries@),
                readings.len() == i,
                forall|j: int|
                    0 <= j < i ==> reading_of(#[trigger] docs[j]) == Ok::<
                        WeatherObjectView,
                        DataShapeError,
                    >(readings[j]@),
            decreases entries.len() - i,
        {
            match WeatherObject::build(&entries[i]) {
                Ok(reading) => {
                    readings.push(reading);
                },
                Err(e) => {
                    proof {
                        assert(docs[i as int] == entries[i as int]@);
                        assert(first_unreadable_at(docs, i as int));
                        let n = choose|n: int| first_unreadable_at(docs, n);
                        lemma_first_unreadable_unique(docs, n, i as int);
                    }
                    return Err(e);
                },
            }
            i = i + 1;
        }
        proof {
            lemma_readable_list(docs);
            assert(readings_of(docs)->Ok_0 =~= readings_view(readings@));
        }
        Ok(readings)
    }

    /// The daily sample of a list of readings.
    pub fn sample_daily(readings: &Vec<WeatherObject>) -> (r: Vec<WeatherObject>)
        ensures
            readings_view(r@) == daily_sample(readings_view(readings@)),
    {
        let mut kept: Vec<WeatherObject> = Vec::new();
        let mut i: usize = 0;
        while i < readings.len()
            invariant
                i <= readings.len(),
                kept.len() == daily_count(i as nat),
                forall|k: int| 0 <= k < kept.len() ==> (#[trigger] kept[k])@ == readings[daily_index(k)]@,
            decreases readings.len() - i,
        {
            if i == 0 || (i + 1) % 8 == 0 {
                kept.push(readings[i].duplicate());
            }
            i = i + 1;
        }
        assert(readings_view(kept@) =~= daily_sample(readings_view(readings@)));
        kept
    }

    /// The readings that a payload gives for a timeframe.
    pub fn normalize(data: &Json, timeframe: Timeframe) -> (r: Result<
        Vec<WeatherObject>,
        DataShapeError,
    >)
        ensures
            match r {
                Ok(readings) => normalized(data@, timeframe) == Ok::<
                    Seq<WeatherObjectView>,
                    DataShapeError,
                >(readings_view(readings@)),
                Err(e) => normalized(data@, timeframe) == Err::<
                    Seq<WeatherObjectView>,
                    DataShapeError,
                >(e),
            },
    {
        let list = match data.get("list") {
            None => {
                return WeatherObject::single(WeatherObject::build_current(data));
            },
            Some(list) => list,
        };
        let entries = match list.as_array() {
            Some(entries) => entries,
            None => {
                return Err(DataShapeError::List);
            },
        };
        assert(list@ == JsonView::Array(entries_view(entries@)));
        match timeframe {
            Timeframe::Current => WeatherObject::single(WeatherObject::build(data)),
            Timeframe::Hourly => WeatherObject::build_list(entries),
            Timeframe::Daily => match WeatherObject::build_list(entries) {
                Ok(readings) => Ok(WeatherObject::sample_daily(&readings)),
                Err(e) => Err(e),
            },
        }
    }

    /// The readings that a payload gives for the timeframe of the settings;
    /// settings without a timeframe count as `Current`, as they do in the
    /// request.
    pub fn build_all(data: Json, config: Config) -> (r: Result<Vec<WeatherObject>, DataShapeError>)
        ensures
            match r {
                Ok(readings) => normalized(data@, timeframe_in_use(config.timeframe)) == Ok::<
                    Seq<WeatherObjectView>,
                    DataShapeError,
                >(readings_view(readings@)),
                Err(e) => normalized(data@, timeframe_in_use(config.timeframe)) == Err::<
                    Seq<WeatherObjectView>,
                    DataShapeError,
                >(e),
            },
    {
        match config.timeframe {
            Some(timeframe) => WeatherObject::normalize(&data, timeframe),
            None => WeatherObject::normalize(&data, Timeframe::Current),
        }
    }

    /// One reading as a list of one.
    fn single(reading: Result<WeatherObject, DataShapeError>) -> (r: Result<
        Vec<WeatherObject>,
        DataShapeError,
    >)
        ensures
            match r {
                Ok(readings) => reading is Ok && readings_view(readings@) == seq![reading->Ok_0@],
                Err(e) => reading == Err::<WeatherObject, DataShapeError>(e),
            },
    {
        match reading {
            Ok(reading) => {
                let mut readings: Vec<WeatherObject> = Vec::new();
                let ghost only = reading@;
                readings.push(reading);
                assert(readings_view(readings@) =~= seq![only]);
                Ok(readings)
            },
            Err(e) => Err(e),
        }
    }
}

/// The timeframe that is used where the settings may hold none.
pub open spec fn timeframe_in_use(timeframe: Option<Timeframe>) -> Timeframe {
    match timeframe {
        Some(timeframe) => timeframe,
        None => Timeframe::Current,
    }
}

/// The text under `main` in the first `weather` condition of an entry.
fn described(data: &Json) -> (r: Option<&String>)
    ensures
        match r {
            Some(text) => description_of(data@) == Some(text@),
            None => description_of(data@) is None,
        },
{
    match data.get("weather") {
        Some(conditions) => match conditions.at(0) {
            Some(first) => match first.get("main") {
                Some(main) => main.as_text(),
                None => None,
            },
            None => None,
        },
        None => None,
    }
}

/// The number under `outer.inner` of an entry.
fn measured<'a>(data: &'a Json, outer: &str, inner: &str) -> (r: Option<&'a String>)
    ensures
        match r {
            Some(text) => nested(data@, outer@, inner@) is Some && nested(
                data@,
                outer@,
                inner@,
            )->0.number() == Some(text@),
            None => nested(data@, outer@, inner@) is None || nested(
                data@,
                outer@,
                inner@,
            )->0.number() is None,
        },
{
    match data.get(outer) {
        Some(group) => match group.get(inner) {
            Some(value) => value.as_number(),
            None => None,
        },
        None => None,
    }
}

/// `n` spaces.
pub open spec fn spaces(n: nat) -> Seq<char> {
    Seq::new(n, |i: int| ' ')
}

/// A cell of the table: the text, filled with spaces on the right up to
/// seven characters; longer text stays as it is.
pub open spec fn padded(cell: Seq<char>) -> Seq<char> {
    if cell.len() >= 7 {
        cell
    } else {
        cell + spaces((7 - cell.len()) as nat)
    }
}

/// The border line of the table.
pub open spec fn border_line() -> Seq<char> {
    "+-------------------------------------------------+"@
}

/// The line that names the columns.
pub open spec fn header_line() -> Seq<char> {
    "|  Date   |  Time   |  Temp   | Weather |  Wind   |"@
}

/// The line of one reading: date, time, temperature, description, wind speed.
pub open spec fn row_of(reading: WeatherObjectView) -> Seq<char> {
    "| "@ + padded(reading.date) + " | "@ + padded(reading.time) + " | "@ + padded(reading.temp)
        + " | "@ + padded(reading.description) + " | "@ + padded(reading.wind_speed) + " |"@
}

/// The lines of the table: a border, the header, for each reading a border
/// and its row, and a closing border.
pub open spec fn table_of(readings: Seq<WeatherObjectView>) -> Seq<Seq<char>> {
    Seq::new(
        2 * readings.len() + 3,
        |i: int|
            if i == 1 {
                header_line()
            } else if i % 2 == 0 {
                border_line()
            } else {
                row_of(readings[(i - 3) / 2])
            },
    )
}

/// Fills a cell with spaces on the right up to seven characters.
pub fn pad(cell: &str) -> (r: String)
    ensures
        r@ == padded(cell@),
{
    let mut out = String::from_str(cell);
    let mut width: usize = cell.unicode_len();
    if width >= 7 {
        return out;
    }
    let ghost start = width;
    while width < 7
        invariant
            start == cell@.len(),
            start <= width <= 7,
            out@ == cell@ + spaces((width - start) as nat),
        decreases 7 - width,
    {
        proof {
            reveal_strlit(" ");
        }
        out.append(" ");
        width = width + 1;
        assert(out@ =~= cell@ + spaces((width - start) as nat));
    }
    out
}

/// The line of the table for one reading.
pub fn table_row(reading: &WeatherObject) -> (r: String)
    ensures
        r@ == row_of(reading@),
{
    let mut line = String::from_str("| ");
    line.append(pad(reading.date.as_str()).as_str());
    line.append(" | ");
    line.append(pad(reading.time.as_str()).as_str());
    line.append(" | ");
    line.append(pad(reading.temp.as_str()).as_str());
    line.append(" | ");
    line.append(pad(reading.description.as_str()).as_str());
    line.append(" | ");
    line.append(pad(reading.wind_speed.as_str()).as_str());
    line.append(" |");
    line
}

/// The lines of the table for a list of readings, in their order.
pub fn weather_table(weather_objects: &Vec<WeatherObject>) -> (r: Vec<String>)
    ensures
        lines_view(r@) == table_of(readings_view(weather_objects@)),
{
    let mut lines: Vec<String> = Vec::new();
    lines.push(String::from_str("+-------------------------------------------------+"));
    lines.push(String::from_str("|  Date   |  Time   |  Temp   | Weather |  Wind   |"));
    let mut i: usize = 0;
    while i < weather_objects.len()
        invariant
            i <= weather_objects.len(),
            lines.len() == 2 * i + 2,
            forall|j: int|
                0 <= j < lines.len() ==> (#[trigger] lines[j])@ == table_of(
                    readings_view(weather_objects@),
                )[j],
        decreases weather_objects.len() - i,
    {
        lines.push(String::from_str("+-------------------------------------------------+"));
        lines.push(table_row(&weather_objects[i]));
        i = i + 1;
    }
    lines.push(String::from_str("+-------------------------------------------------+"));
    assert(lines_view(lines@) =~= table_of(readings_view(weather_objects@)));
    lines
}

/// A payload without a `list` gives the same for every timeframe, whatever
/// it holds under `dt_txt`: exactly one reading, dated `Today` at `Now`,
/// where description, temperature and wind speed can be read from it, and an
/// error where one of them cannot.
pub proof fn lemma_current_payload_is_one_reading(data: JsonView, timeframe: Timeframe)
    requires
        data.member("list"@) is None,
    ensures
        normalized(data, timeframe) is Ok <==> description_of(data) is Some && temperature_of(
            data,
        ) is Some && wind_speed_of(data) is Some,
        normalized(data, timeframe) matches Ok(readings) ==> {
            &&& readings.len() == 1
            &&& readings[0].date == "Today"@
            &&& readings[0].time == "Now"@
            &&& Some(readings[0].description) == description_of(data)
            &&& Some(readings[0].temp) == temperature_of(data)
            &&& Some(readings[0].wind_speed) == wind_speed_of(data)
        },
{
}

/// Under `Hourly` a list whose entries can all be read gives one reading for
/// each entry, in the order of the list.
pub proof fn lemma_hourly_keeps_every_entry(data: JsonView, entries: Seq<JsonView>)
    requires
        data.member("list"@) == Some(JsonView::Array(entries)),
        forall|i: int| 0 <= i < entries.len() ==> reading_of(#[trigger] entries[i]) is Ok,
    ensures
        normalized(data, Timeframe::Hourly) is Ok,
        normalized(data, Timeframe::Hourly)->Ok_0.len() == entries.len(),
        forall|i: int|
            0 <= i < entries.len() ==> reading_of(entries[i]) == Ok::<
                WeatherObjectView,
                DataShapeError,
            >(#[trigger] normalized(data, Timeframe::Hourly)->Ok_0[i]),
{
    lemma_readable_list(entries);
}

/// Under `Daily` a list whose entries can all be read gives the readings of
/// the entries at the indices 0, 7, 15, 23, ... and no others, in the order
/// of the list.
pub proof fn lemma_daily_keeps_every_eighth(data: JsonView, entries: Seq<JsonView>)
    requires
        data.member("list"@) == Some(JsonView::Array(entries)),
        forall|i: int| 0 <= i < entries.len() ==> reading_of(#[trigger] entries[i]) is Ok,
    ensures
        normalized(data, Timeframe::Daily) is Ok,
        normalized(data, Timeframe::Daily)->Ok_0.len() == daily_count(entries.len()),
        forall|k: int|
            0 <= k < daily_count(entries.len()) ==> reading_of(entries[daily_index(k)]) == Ok::<
                WeatherObjectView,
                DataShapeError,
            >(#[trigger] normalized(data, Timeframe::Daily)->Ok_0[k]),
{
    lemma_readable_list(entries);
    lemma_daily_sample_keeps(entries.len());
    assert forall|k: int| 0 <= k < daily_count(entries.len()) implies reading_of(
        entries[daily_index(k)],
    ) == Ok::<WeatherObjectView, DataShapeError>(
        #[trigger] normalized(data, Timeframe::Daily)->Ok_0[k],
    ) by {
        assert(0 <= daily_index(k) < entries.len());
        assert(reading_of(entries[daily_index(k)]) is Ok);
    }
}

} // verus!
