//! The shape of a weather payload, every leaf of it optional, and the flat
//! record that one polling cycle logs.

use vstd::prelude::*;

verus! {

/// What a look at one leaf of the payload found.
#[derive(Debug, Clone, PartialEq, Eq)]
pub enum Probe<T> {
    /// The payload has nothing there.
    Missing,
    /// The payload has a value of another type there.
    Mistyped,
    /// The value that was found.
    Present(T),
}

impl<T: View> View for Probe<T> {
    type V = Probe<T::V>;

    open spec fn view(&self) -> Probe<T::V> {
        match self {
            Probe::Missing => Probe::Missing,
            Probe::Mistyped => Probe::Mistyped,
            Probe::Present(x) => Probe::Present(x@),
        }
    }
}

/// The value that a probe found, `fallback` where nothing was found.
pub open spec fn or_default<T>(p: Probe<T>, fallback: T) -> T {
    match p {
        Probe::Present(x) => x,
        _ => fallback,
    }
}

/// A measured quantity that may have a fraction, kept as the decimal text of
/// the number, always with a fraction part or an exponent. Nothing here
/// computes with it.
#[derive(Debug, Clone, PartialEq, Eq)]
pub struct Decimal {
    pub text: String,
}

impl View for Decimal {
    type V = Seq<char>;

    open spec fn view(&self) -> Seq<char> {
        self.text@
    }
}

/// The text of a quantity that was not reported.
pub open spec fn zero_text() -> Seq<char> {
    "0.0"@
}

/// Whether a character marks a number as more than a run of digits: the
/// point, or the letter before an exponent.
pub open spec fn is_mark(c: char) -> bool {
    c == '.' || c == 'e' || c == 'E'
}

/// Whether a number is written without a fraction part and without an
/// exponent.
pub open spec fn is_plain(numeral: Seq<char>) -> bool {
    forall|i: int| 0 <= i < numeral.len() ==> !is_mark(#[trigger] numeral[i])
}

/// A number as a quantity is kept: as it is written, with `.0` after it
/// where it is written plain.
pub open spec fn as_quantity(numeral: Seq<char>) -> Seq<char> {
    if is_plain(numeral) {
        numeral + ".0"@
    } else {
        numeral
    }
}

impl Decimal {
    /// The quantity zero, which stands for a reading that was not reported.
    pub fn zero() -> (d: Decimal)
        ensures
            d@ == zero_text(),
    {
        Decimal { text: String::from_str("0.0") }
    }

    /// The quantity that a number stands for, from the number as written.
    pub fn from_numeral(numeral: String) -> (d: Decimal)
        ensures
            d@ == as_quantity(numeral@),
    {
        let len = numeral.as_str().unicode_len();
        let mut i: usize = 0;
        while i < len
            invariant
                i <= len,
                len == numeral@.len(),
                forall|k: int| 0 <= k < i ==> !is_mark(#[trigger] numeral@[k]),
            decreases len - i,
        {
            let c = numeral.as_str().get_char(i);
            if c == '.' || c == 'e' || c == 'E' {
                return Decimal { text: numeral };
            }
            i += 1;
        }
        Decimal { text: numeral.concat(".0") }
    }
}

/// Where the city lies.
#[derive(Debug, Clone, PartialEq, Eq)]
pub struct Coord {
    /// Longitude, in degrees.
    pub lon: Probe<Decimal>,
    /// Latitude, in degrees.
    pub lat: Probe<Decimal>,
}

pub struct CoordView {
    pub lon: Probe<Seq<char>>,
    pub lat: Probe<Seq<char>>,
}

impl View for Coord {
    type V = CoordView;

    open spec fn view(&self) -> CoordView {
        CoordView { lon: self.lon@, lat: self.lat@ }
    }
}

/// One weather condition of the payload's list.
#[derive(Debug, Clone, PartialEq, Eq)]
pub struct Weather {
    /// Condition id.
    pub id: Probe<i64>,
    /// Group of the condition (rain, snow, ...).
    pub main: Probe<String>,
    /// The condition within its group, in the language asked for.
    pub description: Probe<String>,
    /// Icon id.
    pub icon: Probe<String>,
}

pub struct WeatherView {
    pub id: Probe<i64>,
    pub main: Probe<Seq<char>>,
    pub description: Probe<Seq<char>>,
    pub icon: Probe<Seq<char>>,
}

impl View for Weather {
    type V = WeatherView;

    open spec fn view(&self) -> WeatherView {
        WeatherView {
            id: self.id@,
            main: self.main@,
            description: self.description@,
            icon: self.icon@,
        }
    }
}

impl WeatherView {
    /// A condition of which nothing is known.
    pub open spec fn unknown() -> WeatherView {
        WeatherView {
            id: Probe::Missing,
            main: Probe::Missing,
            description: Probe::Missing,
            icon: Probe::Missing,
        }
    }
}

impl Weather {
    /// A condition of which nothing is known.
    pub fn unknown() -> (w: Weather)
        ensures
            w@ == WeatherView::unknown(),
    {
        Weather {
            id: Probe::Missing,
            main: Probe::Missing,
            description: Probe::Missing,
            icon: Probe::Missing,
        }
    }
}

/// Temperature, pressure and humidity.
#[derive(Debug, Clone, PartialEq, Eq)]
pub struct Main {
    /// Temperature, in degrees Celsius.
    pub temp: Probe<Decimal>,
    /// Temperature as a person feels it.
    pub feels_like: Probe<Decimal>,
    /// Lowest temperature observed at the moment.
    pub temp_min: Probe<Decimal>,
    /// Highest temperature observed at the moment.
    pub temp_max: Probe<Decimal>,
    /// Atmospheric pressure, in hPa.
    pub pressure: Probe<i64>,
    /// Atmospheric pressure at sea level, in hPa.
    pub sea_level: Probe<i64>,
    /// Atmospheric pressure at ground level, in hPa.
    pub grnd_level: Probe<i64>,
    /// Humidity, in percent.
    pub humidity: Probe<i64>,
}

pub struct MainView {
    pub temp: Probe<Seq<char>>,
    pub feels_like: Probe<Seq<char>>,
    pub temp_min: Probe<Seq<char>>,
    pub temp_max: Probe<Seq<char>>,
    pub pressure: Probe<i64>,
    pub sea_level: Probe<i64>,
    pub grnd_level: Probe<i64>,
    pub humidity: Probe<i64>,
}

impl View for Main {
    type V = MainView;

    open spec fn view(&self) -> MainView {
        MainView {
            temp: self.temp@,
            feels_like: self.feels_like@,
            temp_min: self.temp_min@,
            temp_max: self.temp_max@,
            pressure: self.pressure@,
            sea_level: self.sea_level@,
            grnd_level: self.grnd_level@,
            humidity: self.humidity@,
        }
    }
}

/// Wind.
#[derive(Debug, Clone, PartialEq, Eq)]
pub struct Wind {
    /// Speed, in metres per second.
    pub speed: Probe<Decimal>,
    /// Direction, in degrees.
    pub deg: Probe<i64>,
    /// Gust speed, in metres per second.
    pub gust: Probe<Decimal>,
}

pub struct WindView {
    pub speed: Probe<Seq<char>>,
    pub deg: Probe<i64>,
    pub gust: Probe<Seq<char>>,
}

impl View for Wind {
    type V = WindView;

    open spec fn view(&self) -> WindView {
        WindView { speed: self.speed@, deg: self.deg@, gust: self.gust@ }
    }
}

/// Cloud cover.
#[derive(Debug, Clone, PartialEq, Eq)]
pub struct Clouds {
    /// Cloudiness, in percent.
    pub all: Probe<i64>,
}

pub struct CloudsView {
    pub all: Probe<i64>,
}

impl View for Clouds {
    type V = CloudsView;

    open spec fn view(&self) -> CloudsView {
        CloudsView { all: self.all@ }
    }
}

/// Rain or snow that fell, in millimetres.
#[derive(Debug, Clone, PartialEq, Eq)]
pub struct Precipitation {
    /// Over the last hour.
    pub h1: Probe<Decimal>,
    /// Over the last three hours.
    pub h3: Probe<Decimal>,
}

pub struct PrecipitationView {
    pub h1: Probe<Seq<char>>,
    pub h3: Probe<Seq<char>>,
}

impl View for Precipitation {
    type V = PrecipitationView;

    open spec fn view(&self) -> PrecipitationView {
        PrecipitationView { h1: self.h1@, h3: self.h3@ }
    }
}

/// Country, sun times and the service's internal parameters.
#[derive(Debug, Clone, PartialEq, Eq)]
pub struct Sys {
    /// Internal parameter.
    pub sys_type: Probe<i64>,
    /// Internal parameter.
    pub id: Probe<i64>,
    /// Internal parameter.
    pub message: Probe<Decimal>,
    /// Country code (GB, JP, ...).
    pub country: Probe<String>,
    /// Sunrise, Unix seconds, UTC.
    pub sunrise: Probe<i64>,
    /// Sunset, Unix seconds, UTC.
    pub sunset: Probe<i64>,
}

pub struct SysView {
    pub sys_type: Probe<i64>,
    pub id: Probe<i64>,
    pub message: Probe<Seq<char>>,
    pub country: Probe<Seq<char>>,
    pub sunrise: Probe<i64>,
    pub sunset: Probe<i64>,
}

impl View for Sys {
    type V = SysView;

    open spec fn view(&self) -> SysView {
        SysView {
            sys_type: self.sys_type@,
            id: self.id@,
            message: self.message@,
            country: self.country@,
            sunrise: self.sunrise@,
            sunset: self.sunset@,
        }
    }
}

/// One answer of the weather service, read leniently: whatever is missing or
/// of another type is recorded as such, leaf by leaf.
#[derive(Debug, Clone, PartialEq, Eq)]
pub struct OpenWeatherResponse {
    pub coord: Coord,
    /// The conditions, in the payload's order.
    pub weather: Probe<Vec<Weather>>,
    /// Internal parameter.
    pub base: Probe<String>,
    pub main: Main,
    /// Visibility, in metres.
    pub visibility: Probe<i64>,
    pub wind: Wind,
    pub clouds: Clouds,
    pub rain: Precipitation,
    pub snow: Precipitation,
    /// Time of the measurement, Unix seconds, UTC.
    pub dt: Probe<i64>,
    pub sys: Sys,
    /// Shift from UTC, in seconds.
    pub timezone: Probe<i64>,
    /// City id.
    pub id: Probe<i64>,
    /// City name.
    pub name: Probe<String>,
    /// Status code of the answer.
    pub cod: Probe<i64>,
}

pub struct ResponseView {
    pub coord: CoordView,
    pub weather: Probe<Seq<WeatherView>>,
    pub base: Probe<Seq<char>>,
    pub main: MainView,
    pub visibility: Probe<i64>,
    pub wind: WindView,
    pub clouds: CloudsView,
    pub rain: PrecipitationView,
    pub snow: PrecipitationView,
    pub dt: Probe<i64>,
    pub sys: SysView,
    pub timezone: Probe<i64>,
    pub id: Probe<i64>,
    pub name: Probe<Seq<char>>,
    pub cod: Probe<i64>,
}

/// The conditions of a list, each by its view.
pub open spec fn conditions_of(list: Seq<Weather>) -> Seq<WeatherView> {
    list.map_values(|w: Weather| w@)
}

/// What a look at the list of conditions found, each condition by its view.
pub open spec fn conditions_view(list: Probe<Vec<Weather>>) -> Probe<Seq<WeatherView>> {
    match list {
        Probe::Missing => Probe::Missing,
        Probe::Mistyped => Probe::Mistyped,
        Probe::Present(items) => Probe::Present(conditions_of(items@)),
    }
}

impl View for OpenWeatherResponse {
    type V = ResponseView;

    open spec fn view(&self) -> ResponseView {
        ResponseView {
            coord: self.coord@,
            weather: conditions_view(self.weather),
            base: self.base@,
            main: self.main@,
            visibility: self.visibility@,
            wind: self.wind@,
            clouds: self.clouds@,
            rain: self.rain@,
            snow: self.snow@,
            dt: self.dt@,
            sys: self.sys@,
            timezone: self.timezone@,
            id: self.id@,
            name: self.name@,
            cod: self.cod@,
        }
    }
}

/// The record of one polling cycle: one row of the log.
#[derive(Debug, Clone, PartialEq, Eq)]
pub struct OpenWeaterToTsv {
    pub lon: Decimal,
    pub lat: Decimal,
    pub weather_to_id: i64,
    pub weather_to_main: String,
    pub description: String,
    pub icon: String,
    pub base: String,
    pub temp: Decimal,
    pub feels_like: Decimal,
    pub temp_min: Decimal,
    pub temp_max: Decimal,
    pub pressure: i64,
    pub sea_level: i64,
    pub grnd_level: i64,
    pub humidity: i64,
    pub visibility: i64,
    pub speed: Decimal,
    pub deg: i64,
    pub gust: Decimal,
    pub all: i64,
    pub rain_1h: Decimal,
    pub rain_3h: Decimal,
    pub snow_h1: Decimal,
    pub snow_h3: Decimal,
    pub dt: i64,
    pub sys_type: i64,
    pub sys_to_id: i64,
    pub message: Decimal,
    pub country: String,
    /// Sunrise on the local clock, `HH:MM:SS`; empty where none was reported.
    pub sunrise: String,
    /// Sunset on the local clock, `HH:MM:SS`; empty where none was reported.
    pub sunset: String,
    pub timezone: i64,
    pub id: i64,
    pub name: String,
    pub cod: i64,
}

pub struct RecordView {
    pub lon: Seq<char>,
    pub lat: Seq<char>,
    pub weather_to_id: i64,
    pub weather_to_main: Seq<char>,
    pub description: Seq<char>,
    pub icon: Seq<char>,
    pub base: Seq<char>,
    pub temp: Seq<char>,
    pub feels_like: Seq<char>,
    pub temp_min: Seq<char>,
    pub temp_max: Seq<char>,
    pub pressure: i64,
    pub sea_level: i64,
    pub grnd_level: i64,
    pub humidity: i64,
    pub visibility: i64,
    pub speed: Seq<char>,
    pub deg: i64,
    pub gust: Seq<char>,
    pub all: i64,
    pub rain_1h: Seq<char>,
    pub rain_3h: Seq<char>,
    pub snow_h1: Seq<char>,
    pub snow_h3: Seq<char>,
    pub dt: i64,
    pub sys_type: i64,
    pub sys_to_id: i64,
    pub message: Seq<char>,
    pub country: Seq<char>,
    pub sunrise: Seq<char>,
    pub sunset: Seq<char>,
    pub timezone: i64,
    pub id: i64,
    pub name: Seq<char>,
    pub cod: i64,
}

impl View for OpenWeaterToTsv {
    type V = RecordView;

    open spec fn view(&self) -> RecordView {
        RecordView {
            lon: self.lon@,
            lat: self.lat@,
            weather_to_id: self.weather_to_id,
            weather_to_main: self.weather_to_main@,
            description: self.description@,
            icon: self.icon@,
            base: self.base@,
            temp: self.temp@,
            feels_like: self.feels_like@,
            temp_min: self.temp_min@,
            temp_max: self.temp_max@,
            pressure: self.pressure,
            sea_level: self.sea_level,
            grnd_level: self.grnd_level,
            humidity: self.humidity,
            visibility: self.visibility,
            speed: self.speed@,
            deg: self.deg,
            gust: self.gust@,
            all: self.all,
            rain_1h: self.rain_1h@,
            rain_3h: self.rain_3h@,
            snow_h1: self.snow_h1@,
            snow_h3: self.snow_h3@,
            dt: self.dt,
            sys_type: self.sys_type,
            sys_to_id: self.sys_to_id,
            message: self.message@,
            country: self.country@,
            sunrise: self.sunrise@,
            sunset: self.sunset@,
            timezone: self.timezone,
            id: self.id,
            name: self.name@,
            cod: self.cod,
        }
    }
}

impl RecordView {
    /// The record of a payload that reports nothing: every number zero, every
    /// text empty.
    pub open spec fn blank() -> RecordView {
        RecordView {
            lon: zero_text(),
            lat: zero_text(),
            weather_to_id: 0,
            weather_to_main: Seq::empty(),
            description: Seq::empty(),
            icon: Seq::empty(),
            base: Seq::empty(),
            temp: zero_text(),
            feels_like: zero_text(),
            temp_min: zero_text(),
            temp_max: zero_text(),
            pressure: 0,
            sea_level: 0,
            grnd_level: 0,
            humidity: 0,
            visibility: 0,
            speed: zero_text(),
            deg: 0,
            gust: zero_text(),
            all: 0,
            rain_1h: zero_text(),
            rain_3h: zero_text(),
            snow_h1: zero_text(),
            snow_h3: zero_text(),
            dt: 0,
            sys_type: 0,
            sys_to_id: 0,
            message: zero_text(),
            country: Seq::empty(),
            sunrise: Seq::empty(),
            sunset: Seq::empty(),
            timezone: 0,
            id: 0,
            name: Seq::empty(),
            cod: 0,
        }
    }
}

impl OpenWeaterToTsv {
    /// A record with every field at its default.
    pub fn new() -> (record: OpenWeaterToTsv)
        ensures
            record@ == RecordView::blank(),
    {
        OpenWeaterToTsv {
            lon: Decimal::zero(),
            lat: Decimal::zero(),
            weather_to_id: 0,
            weather_to_main: String::new(),
            description: String::new(),
            icon: String::new(),
            base: String::new(),
            temp: Decimal::zero(),
            feels_like: Decimal::zero(),
            temp_min: Decimal::zero(),
            temp_max: Decimal::zero(),
            pressure: 0,
            sea_level: 0,
            grnd_level: 0,
            humidity: 0,
            visibility: 0,
            speed: Decimal::zero(),
            deg: 0,
            gust: Decimal::zero(),
            all: 0,
            rain_1h: Decimal::zero(),
            rain_3h: Decimal::zero(),
            snow_h1: Decimal::zero(),
            snow_h3: Decimal::zero(),
            dt: 0,
            sys_type: 0,
            sys_to_id: 0,
            message: Decimal::zero(),
            country: String::new(),
            sunrise: String::new(),
            sunset: String::new(),
            timezone: 0,
            id: 0,
            name: String::new(),
            cod: 0,
        }
    }
}

} // verus!
