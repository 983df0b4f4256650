//! From what a payload reports to the record that is logged for it.
//!
//! The leaves are taken in a fixed reading order. A leaf that is missing
//! leaves its field at the default; the first leaf that cannot be taken ends
//! the extraction with its fault.

use crate::api::{
    Coord, CoordView, Decimal, Main, MainView, OpenWeaterToTsv, OpenWeatherResponse,
    Precipitation, PrecipitationView, Probe, RecordView, ResponseView, Sys, SysView, Weather,
    WeatherView, Wind, WindView, conditions_view, or_default, zero_text,
};
use crate::clock::{clock_text, has_date, local_clock, local_shift, shift_in_range};
use crate::decode::{condition_of, decode, response_of};
use crate::json::{Node, child, child_of, int_of, node_of};
use vstd::prelude::*;

verus! {

/// The leaves of a payload that the record draws on, in reading order.
#[derive(Debug, Clone, Copy, PartialEq, Eq)]
pub enum Field {
    Cod,
    Lat,
    Lon,
    /// The list of conditions itself.
    Weather,
    WeatherId,
    WeatherMain,
    Description,
    Icon,
    Base,
    Temp,
    FeelsLike,
    TempMin,
    TempMax,
    Pressure,
    SeaLevel,
    GrndLevel,
    Humidity,
    Visibility,
    Speed,
    Deg,
    Gust,
    CloudsAll,
    Rain1h,
    Rain3h,
    Snow1h,
    Snow3h,
    Dt,
    SysType,
    SysId,
    Message,
    Country,
    Sunrise,
    Sunset,
    Timezone,
    Id,
    Name,
}

/// Why a payload gives no record.
#[derive(Debug, Clone, Copy, PartialEq, Eq)]
pub enum ExtractError {
    /// The payload carries a status code other than 200.
    Status(i64),
    /// The leaf is there, with a value of another type.
    Mistyped(Field),
    /// The leaf is an instant for which there is no local time.
    NoLocalTime(Field),
}

/// The status code that a payload must carry if it carries one.
pub const STATUS_OK: i64 = 200;

/// The fault of a leaf that is only read.
pub open spec fn fault_of<T>(p: Probe<T>, field: Field) -> Option<ExtractError> {
    if p is Mistyped {
        Some(ExtractError::Mistyped(field))
    } else {
        None
    }
}

/// The fault of the status code.
pub open spec fn status_fault(cod: Probe<i64>) -> Option<ExtractError> {
    match cod {
        Probe::Missing => None,
        Probe::Mistyped => Some(ExtractError::Mistyped(Field::Cod)),
        Probe::Present(c) => if c != 200 {
            Some(ExtractError::Status(c))
        } else {
            None
        },
    }
}

/// The fault of an instant that is put on the local clock, where `shift` is
/// the local offset at that instant, if there is one.
pub open spec fn clock_fault(instant: Probe<i64>, shift: Option<i32>, field: Field) -> Option<
    ExtractError,
> {
    match instant {
        Probe::Missing => None,
        Probe::Mistyped => Some(ExtractError::Mistyped(field)),
        Probe::Present(_) => if shift is None {
            Some(ExtractError::NoLocalTime(field))
        } else {
            None
        },
    }
}

/// The local clock text of an instant, empty where none was reported.
pub open spec fn clock_or_empty(instant: Probe<i64>, shift: Option<i32>) -> Seq<char> {
    match (instant, shift) {
        (Probe::Present(t), Some(s)) => local_clock(t, s),
        _ => Seq::empty(),
    }
}

/// Of two faults in reading order, the one that is met first.
pub open spec fn earlier(first: Option<ExtractError>, next: Option<ExtractError>) -> Option<
    ExtractError,
> {
    if first is Some {
        first
    } else {
        next
    }
}

/// The condition that is logged: the last of the list, and a condition of
/// which nothing is known where there is no list or an empty one.
pub open spec fn chosen(list: Probe<Seq<WeatherView>>) -> WeatherView {
    match list {
        Probe::Present(items) => if items.len() > 0 {
            items.last()
        } else {
            WeatherView::unknown()
        },
        _ => WeatherView::unknown(),
    }
}

/// The first fault among the coordinates.
pub open spec fn coord_fault(c: CoordView) -> Option<ExtractError> {
    earlier(fault_of(c.lat, Field::Lat), fault_of(c.lon, Field::Lon))
}

/// The first fault among the list of conditions and the leaves of the
/// condition that is logged.
pub open spec fn condition_fault(list: Probe<Seq<WeatherView>>) -> Option<ExtractError> {
    let w = chosen(list);
    let f = fault_of(list, Field::Weather);
    let f = earlier(f, fault_of(w.id, Field::WeatherId));
    let f = earlier(f, fault_of(w.main, Field::WeatherMain));
    let f = earlier(f, fault_of(w.description, Field::Description));
    earlier(f, fault_of(w.icon, Field::Icon))
}

/// The first fault among temperature, pressure and humidity.
pub open spec fn main_fault(m: MainView) -> Option<ExtractError> {
    let f = fault_of(m.temp, Field::Temp);
    let f = earlier(f, fault_of(m.feels_like, Field::FeelsLike));
    let f = earlier(f, fault_of(m.temp_min, Field::TempMin));
    let f = earlier(f, fault_of(m.temp_max, Field::TempMax));
    let f = earlier(f, fault_of(m.pressure, Field::Pressure));
    let f = earlier(f, fault_of(m.sea_level, Field::SeaLevel));
    let f = earlier(f, fault_of(m.grnd_level, Field::GrndLevel));
    earlier(f, fault_of(m.humidity, Field::Humidity))
}

/// The first fault among the wind readings.
pub open spec fn wind_fault(w: WindView) -> Option<ExtractError> {
    let f = fault_of(w.speed, Field::Speed);
    let f = earlier(f, fault_of(w.deg, Field::Deg));
    earlier(f, fault_of(w.gust, Field::Gust))
}

/// The first fault among the amounts of rain.
pub open spec fn rain_fault(p: PrecipitationView) -> Option<ExtractError> {
    earlier(fault_of(p.h1, Field::Rain1h), fault_of(p.h3, Field::Rain3h))
}

/// The first fault among the amounts of snow.
pub open spec fn snow_fault(p: PrecipitationView) -> Option<ExtractError> {
    earlier(fault_of(p.h1, Field::Snow1h), fault_of(p.h3, Field::Snow3h))
}

/// The first fault among the leaves of the section `sys`. `up` and `down` are
/// the local offsets at sunrise and at sunset.
pub open spec fn sys_fault(s: SysView, up: Option<i32>, down: Option<i32>) -> Option<
    ExtractError,
> {
    let f = fault_of(s.sys_type, Field::SysType);
    let f = earlier(f, fault_of(s.id, Field::SysId));
    let f = earlier(f, fault_of(s.message, Field::Message));
    let f = earlier(f, fault_of(s.country, Field::Country));
    let f = earlier(f, clock_fault(s.sunrise, up, Field::Sunrise));
    earlier(f, clock_fault(s.sunset, down, Field::Sunset))
}

/// The first fault of a payload in reading order, if it has one. `up` and
/// `down` are the local offsets at sunrise and at sunset.
pub open spec fn first_fault(r: ResponseView, up: Option<i32>, down: Option<i32>) -> Option<
    ExtractError,
> {
    let f = status_fault(r.cod);
    let f = earlier(f, coord_fault(r.coord));
    let f = earlier(f, condition_fault(r.weather));
    let f = earlier(f, fault_of(r.base, Field::Base));
    let f = earlier(f, main_fault(r.main));
    let f = earlier(f, fault_of(r.visibility, Field::Visibility));
    let f = earlier(f, wind_fault(r.wind));
    let f = earlier(f, fault_of(r.clouds.all, Field::CloudsAll));
    let f = earlier(f, rain_fault(r.rain));
    let f = earlier(f, snow_fault(r.snow));
    let f = earlier(f, fault_of(r.dt, Field::Dt));
    let f = earlier(f, sys_fault(r.sys, up, down));
    let f = earlier(f, fault_of(r.timezone, Field::Timezone));
    let f = earlier(f, fault_of(r.id, Field::Id));
    earlier(f, fault_of(r.name, Field::Name))
}

/// The record of a payload without fault: each field holds what its leaf
/// reports, or its default where the leaf is missing.
pub open spec fn filled(r: ResponseView, up: Option<i32>, down: Option<i32>) -> RecordView {
    let w = chosen(r.weather);
    RecordView {
        lon: or_default(r.coord.lon, zero_text()),
        lat: or_default(r.coord.lat, zero_text()),
        weather_to_id: or_default(w.id, 0i64),
        weather_to_main: or_default(w.main, Seq::empty()),
        description: or_default(w.description, Seq::empty()),
        icon: or_default(w.icon, Seq::empty()),
        base: or_default(r.base, Seq::empty()),
        temp: or_default(r.main.temp, zero_text()),
        feels_like: or_default(r.main.feels_like, zero_text()),
        temp_min: or_default(r.main.temp_min, zero_text()),
        temp_max: or_default(r.main.temp_max, zero_text()),
        pressure: or_default(r.main.pressure, 0i64),
        sea_level: or_default(r.main.sea_level, 0i64),
        grnd_level: or_default(r.main.grnd_level, 0i64),
        humidity: or_default(r.main.humidity, 0i64),
        visibility: or_default(r.visibility, 0i64),
        speed: or_default(r.wind.speed, zero_text()),
        deg: or_default(r.wind.deg, 0i64),
        gust: or_default(r.wind.gust, zero_text()),
        all: or_default(r.clouds.all, 0i64),
        rain_1h: or_default(r.rain.h1, zero_text()),
        rain_3h: or_default(r.rain.h3, zero_text()),
        snow_h1: or_default(r.snow.h1, zero_text()),
        snow_h3: or_default(r.snow.h3, zero_text()),
        dt: or_default(r.dt, 0i64),
        sys_type: or_default(r.sys.sys_type, 0i64),
        sys_to_id: or_default(r.sys.id, 0i64),
        message: or_default(r.sys.message, zero_text()),
        country: or_default(r.sys.country, Seq::empty()),
        sunrise: clock_or_empty(r.sys.sunrise, up),
        sunset: clock_or_empty(r.sys.sunset, down),
        timezone: or_default(r.timezone, 0i64),
        id: or_default(r.id, 0i64),
        name: or_default(r.name, Seq::empty()),
        cod: or_default(r.cod, 0i64),
    }
}

/// What the extraction of a payload gives: its first fault, or its record.
pub open spec fn record_of(r: ResponseView, up: Option<i32>, down: Option<i32>) -> Result<
    RecordView,
    ExtractError,
> {
    match first_fault(r, up, down) {
        Some(fault) => Err(fault),
        None => Ok(filled(r, up, down)),
    }
}

/// Whether an outcome is the expected one: the same fault, or a record with
/// the expected content.
pub open spec fn agrees(
    outcome: Result<OpenWeaterToTsv, ExtractError>,
    expected: Result<RecordView, ExtractError>,
) -> bool {
    match outcome {
        Ok(record) => expected == Ok::<RecordView, ExtractError>(record@),
        Err(fault) => expected == Err::<RecordView, ExtractError>(fault),
    }
}

/// The element of the list `weather` that the condition is read from: the
/// last one, if the payload has such a list and it is not empty.
pub open spec fn logged_item(root: Node) -> Option<Node> {
    match child(root, "weather"@) {
        Some(Node::List(items)) => if items.len() > 0 {
            Some(items.last())
        } else {
            None
        },
        _ => None,
    }
}

/// Every field whose leaf the payload lacks holds its default: zero for a
/// number, the empty text for a string and for a sun time. The leaves of the
/// condition are looked for in the last element of the list `weather`.
pub proof fn absent_leaves_keep_defaults(
    root: Node,
    up: Option<i32>,
    down: Option<i32>,
    record: RecordView,
)
    requires
        record_of(response_of(root), up, down) == Ok::<RecordView, ExtractError>(record),
    ensures
        child_of(child(root, "coord"@), "lon"@) is None ==> record.lon == zero_text(),
        child_of(child(root, "coord"@), "lat"@) is None ==> record.lat == zero_text(),
        child_of(logged_item(root), "id"@) is None ==> record.weather_to_id == 0,
        child_of(logged_item(root), "main"@) is None ==> record.weather_to_main == Seq::<
            char,
        >::empty(),
        child_of(logged_item(root), "description"@) is None ==> record.description == Seq::<
            char,
        >::empty(),
        child_of(logged_item(root), "icon"@) is None ==> record.icon == Seq::<char>::empty(),
        child(root, "base"@) is None ==> record.base == Seq::<char>::empty(),
        child_of(child(root, "main"@), "temp"@) is None ==> record.temp == zero_text(),
        child_of(child(root, "main"@), "feels_like"@) is None ==> record.feels_like
            == zero_text(),
        child_of(child(root, "main"@), "temp_min"@) is None ==> record.temp_min == zero_text(),
        child_of(child(root, "main"@), "temp_max"@) is None ==> record.temp_max == zero_text(),
        child_of(child(root, "main"@), "pressure"@) is None ==> record.pressure == 0,
        child_of(child(root, "main"@), "sea_level"@) is None ==> record.sea_level == 0,
        child_of(child(root, "main"@), "grnd_level"@) is None ==> record.grnd_level == 0,
        child_of(child(root, "main"@), "humidity"@) is None ==> record.humidity == 0,
        child(root, "visibility"@) is None ==> record.visibility == 0,
        child_of(child(root, "wind"@), "speed"@) is None ==> record.speed == zero_text(),
        child_of(child(root, "wind"@), "deg"@) is None ==> record.deg == 0,
        child_of(child(root, "wind"@), "gust"@) is None ==> record.gust == zero_text(),
        child_of(child(root, "clouds"@), "all"@) is None ==> record.all == 0,
        child_of(child(root, "rain"@), "h1"@) is None ==> record.rain_1h == zero_text(),
        child_of(child(root, "rain"@), "h3"@) is None ==> record.rain_3h == zero_text(),
        child_of(child(root, "snow"@), "h1"@) is None ==> record.snow_h1 == zero_text(),
        child_of(child(root, "snow"@), "h3"@) is None ==> record.snow_h3 == zero_text(),
        child(root, "dt"@) is None ==> record.dt == 0,
        child_of(child(root, "sys"@), "type"@) is None ==> record.sys_type == 0,
        child_of(child(root, "sys"@), "id"@) is None ==> record.sys_to_id == 0,
        child_of(child(root, "sys"@), "message"@) is None ==> record.message == zero_text(),
        child_of(child(root, "sys"@), "country"@) is None ==> record.country == Seq::<
            char,
        >::empty(),
        child_of(child(root, "sys"@), "sunrise"@) is None ==> record.sunrise == Seq::<
            char,
        >::empty(),
        child_of(child(root, "sys"@), "sunset"@) is None ==> record.sunset == Seq::<
            char,
        >::empty(),
        child(root, "timezone"@) is None ==> record.timezone == 0,
        child(root, "id"@) is None ==> record.id == 0,
        child(root, "name"@) is None ==> record.name == Seq::<char>::empty(),
        child(root, "cod"@) is None ==> record.cod == 0,
{
    let list = response_of(root).weather;
    assert(chosen(list) == match logged_item(root) {
        Some(item) => condition_of(item),
        None => WeatherView::unknown(),
    });
}

/// A payload that reports nothing at all gives the record with every field
/// at its default.
pub proof fn empty_payload_gives_blank_record(root: Node, up: Option<i32>, down: Option<i32>)
    requires
        root == Node::Object(Map::<Seq<char>, Node>::empty()),
    ensures
        record_of(response_of(root), up, down) == Ok::<RecordView, ExtractError>(
            RecordView::blank(),
        ),
{
}

/// Where the list `weather` has more than one element, the condition fields
/// of the record are those of the last element.
pub proof fn last_condition_is_logged(
    root: Node,
    items: Seq<Node>,
    up: Option<i32>,
    down: Option<i32>,
    record: RecordView,
)
    requires
        child(root, "weather"@) == Some(Node::List(items)),
        items.len() > 1,
        record_of(response_of(root), up, down) == Ok::<RecordView, ExtractError>(record),
    ensures
        record.weather_to_id == or_default(condition_of(items.last()).id, 0i64),
        record.weather_to_main == or_default(
            condition_of(items.last()).main,
            Seq::<char>::empty(),
        ),
        record.description == or_default(
            condition_of(items.last()).description,
            Seq::<char>::empty(),
        ),
        record.icon == or_default(condition_of(items.last()).icon, Seq::<char>::empty()),
{
    let list = response_of(root).weather;
    assert(chosen(list) == condition_of(items.last()));
}

/// A payload whose status code is an integer other than 200 gives no record,
/// whatever else it holds: the extraction ends with the status.
pub proof fn bad_status_gives_no_record(
    root: Node,
    code: i64,
    up: Option<i32>,
    down: Option<i32>,
)
    requires
        child(root, "cod"@) matches Some(node) && int_of(node) == Some(code),
        code != 200,
    ensures
        record_of(response_of(root), up, down) == Err::<RecordView, ExtractError>(
            ExtractError::Status(code),
        ),
{
}

fn take_status(cod: &Probe<i64>) -> (r: Result<i64, ExtractError>)
    ensures
        r == match status_fault(*cod) {
            Some(fault) => Err::<i64, ExtractError>(fault),
            None => Ok(or_default(*cod, 0i64)),
        },
{
    match cod {
        Probe::Missing => Ok(0),
        Probe::Mistyped => Err(ExtractError::Mistyped(Field::Cod)),
        Probe::Present(c) => if *c != STATUS_OK {
            Err(ExtractError::Status(*c))
        } else {
            Ok(*c)
        },
    }
}

fn take_int(p: &Probe<i64>, field: Field) -> (r: Result<i64, ExtractError>)
    ensures
        r == match fault_of(*p, field) {
            Some(fault) => Err::<i64, ExtractError>(fault),
            None => Ok(or_default(*p, 0i64)),
        },
{
    match p {
        Probe::Missing => Ok(0),
        Probe::Mistyped => Err(ExtractError::Mistyped(field)),
        Probe::Present(v) => Ok(*v),
    }
}

fn take_decimal(p: &Probe<Decimal>, field: Field) -> (r: Result<Decimal, ExtractError>)
    ensures
        match r {
            Ok(d) => fault_of(p@, field) is None && d@ == or_default(p@, zero_text()),
            Err(fault) => fault_of(p@, field) == Some(fault),
        },
{
    match p {
        Probe::Missing => Ok(Decimal::zero()),
        Probe::Mistyped => Err(ExtractError::Mistyped(field)),
        Probe::Present(d) => Ok(Decimal { text: d.text.clone() }),
    }
}

fn take_text(p: &Probe<String>, field: Field) -> (r: Result<String, ExtractError>)
    ensures
        match r {
            Ok(s) => fault_of(p@, field) is None && s@ == or_default(p@, Seq::<char>::empty()),
            Err(fault) => fault_of(p@, field) == Some(fault),
        },
{
    match p {
        Probe::Missing => Ok(String::new()),
        Probe::Mistyped => Err(ExtractError::Mistyped(field)),
        Probe::Present(s) => Ok(s.clone()),
    }
}

fn take_clock(instant: &Probe<i64>, shift: Option<i32>, field: Field) -> (r: Result<
    String,
    ExtractError,
>)
    ensures
        match r {
            Ok(s) => clock_fault(*instant, shift, field) is None && s@ == clock_or_empty(
                *instant,
                shift,
            ),
            Err(fault) => clock_fault(*instant, shift, field) == Some(fault),
        },
{
    match instant {
        Probe::Missing => Ok(String::new()),
        Probe::Mistyped => Err(ExtractError::Mistyped(field)),
        Probe::Present(t) => match shift {
            Some(s) => Ok(clock_text(*t, s)),
            None => Err(ExtractError::NoLocalTime(field)),
        },
    }
}

/// The condition that is logged: the last of the list.
pub fn select_condition(list: &Probe<Vec<Weather>>) -> (w: Option<&Weather>)
    ensures
        match w {
            Some(last) => list matches Probe::Present(items) && items@.len() > 0 && *last
                == items@.last(),
            None => !(list matches Probe::Present(items) && items@.len() > 0),
        },
{
    match list {
        Probe::Present(items) => if items.len() > 0 {
            Some(&items[items.len() - 1])
        } else {
            None
        },
        _ => None,
    }
}

fn fill_coord(record: &mut OpenWeaterToTsv, c: &Coord) -> (r: Result<(), ExtractError>)
    ensures
        match r {
            Ok(_) => coord_fault(c@) is None && final(record)@ == (RecordView {
                lat: or_default(c@.lat, zero_text()),
                lon: or_default(c@.lon, zero_text()),
                ..old(record)@
            }),
            Err(fault) => coord_fault(c@) == Some(fault),
        },
{
    record.lat = take_decimal(&c.lat, Field::Lat)?;
    record.lon = take_decimal(&c.lon, Field::Lon)?;
    Ok(())
}

fn fill_condition(record: &mut OpenWeaterToTsv, list: &Probe<Vec<Weather>>) -> (r: Result<
    (),
    ExtractError,
>)
    ensures
        match r {
            Ok(_) => condition_fault(conditions_view(*list)) is None && final(record)@ == (
            RecordView {
                weather_to_id: or_default(chosen(conditions_view(*list)).id, 0i64),
                weather_to_main: or_default(
                    chosen(conditions_view(*list)).main,
                    Seq::<char>::empty(),
                ),
                description: or_default(
                    chosen(conditions_view(*list)).description,
                    Seq::<char>::empty(),
                ),
                icon: or_default(chosen(conditions_view(*list)).icon, Seq::<char>::empty()),
                ..old(record)@
            }),
            Err(fault) => condition_fault(conditions_view(*list)) == Some(fault),
        },
{
    if let Probe::Mistyped = list {
        return Err(ExtractError::Mistyped(Field::Weather));
    }
    let unknown = Weather::unknown();
    let w: &Weather = match select_condition(list) {
        Some(last) => last,
        None => &unknown,
    };
    assert(w@ == chosen(conditions_view(*list)));
    record.weather_to_id = take_int(&w.id, Field::WeatherId)?;
    record.weather_to_main = take_text(&w.main, Field::WeatherMain)?;
    record.description = take_text(&w.description, Field::Description)?;
    record.icon = take_text(&w.icon, Field::Icon)?;
    Ok(())
}

fn fill_main(record: &mut OpenWeaterToTsv, m: &Main) -> (r: Result<(), ExtractError>)
    ensures
        match r {
            Ok(_) => main_fault(m@) is None && final(record)@ == (RecordView {
                temp: or_default(m@.temp, zero_text()),
                feels_like: or_default(m@.feels_like, zero_text()),
                temp_min: or_default(m@.temp_min, zero_text()),
                temp_max: or_default(m@.temp_max, zero_text()),
                pressure: or_default(m@.pressure, 0i64),
                sea_level: or_default(m@.sea_level, 0i64),
                grnd_level: or_default(m@.grnd_level, 0i64),
                humidity: or_default(m@.humidity, 0i64),
                ..old(record)@
            }),
            Err(fault) => main_fault(m@) == Some(fault),
        },
{
    record.temp = take_decimal(&m.temp, Field::Temp)?;
    record.feels_like = take_decimal(&m.feels_like, Field::FeelsLike)?;
    record.temp_min = take_decimal(&m.temp_min, Field::TempMin)?;
    record.temp_max = take_decimal(&m.temp_max, Field::TempMax)?;
    record.pressure = take_int(&m.pressure, Field::Pressure)?;
    record.sea_level = take_int(&m.sea_level, Field::SeaLevel)?;
    record.grnd_level = take_int(&m.grnd_level, Field::GrndLevel)?;
    record.humidity = take_int(&m.humidity, Field::Humidity)?;
    Ok(())
}

fn fill_wind(record: &mut OpenWeaterToTsv, w: &Wind) -> (r: Result<(), ExtractError>)
    ensures
        match r {
            Ok(_) => wind_fault(w@) is None && final(record)@ == (RecordView {
                speed: or_default(w@.speed, zero_text()),
                deg: or_default(w@.deg, 0i64),
                gust: or_default(w@.gust, zero_text()),
                ..old(record)@
            }),
            Err(fault) => wind_fault(w@) == Some(fault),
        },
{
    record.speed = take_decimal(&w.speed, Field::Speed)?;
    record.deg = take_int(&w.deg, Field::Deg)?;
    record.gust = take_decimal(&w.gust, Field::Gust)?;
    Ok(())
}

fn fill_rain(record: &mut OpenWeaterToTsv, p: &Precipitation) -> (r: Result<(), ExtractError>)
    ensures
        match r {
            Ok(_) => rain_fault(p@) is None && final(record)@ == (RecordView {
                rain_1h: or_default(p@.h1, zero_text()),
                rain_3h: or_default(p@.h3, zero_text()),
                ..old(record)@
            }),
            Err(fault) => rain_fault(p@) == Some(fault),
        },
{
    record.rain_1h = take_decimal(&p.h1, Field::Rain1h)?;
    record.rain_3h = take_decimal(&p.h3, Field::Rain3h)?;
    Ok(())
}

fn fill_snow(record: &mut OpenWeaterToTsv, p: &Precipitation) -> (r: Result<(), ExtractError>)
    ensures
        match r {
            Ok(_) => snow_fault(p@) is None && final(record)@ == (RecordView {
                snow_h1: or_default(p@.h1, zero_text()),
                snow_h3: or_default(p@.h3, zero_text()),
                ..old(record)@
            }),
            Err(fault) => snow_fault(p@) == Some(fault),
        },
{
    record.snow_h1 = take_decimal(&p.h1, Field::Snow1h)?;
    record.snow_h3 = take_decimal(&p.h3, Field::Snow3h)?;
    Ok(())
}

fn fill_sys(record: &mut OpenWeaterToTsv, s: &Sys, up: Option<i32>, down: Option<i32>) -> (r:
    Result<(), ExtractError>)
    ensures
        match r {
            Ok(_) => sys_fault(s@, up, down) is None && final(record)@ == (RecordView {
                sys_type: or_default(s@.sys_type, 0i64),
                sys_to_id: or_default(s@.id, 0i64),
                message: or_default(s@.message, zero_text()),
                country: or_default(s@.country, Seq::<char>::empty()),
                sunrise: clock_or_empty(s@.sunrise, up),
                sunset: clock_or_empty(s@.sunset, down),
                ..old(record)@
            }),
            Err(fault) => sys_fault(s@, up, down) == Some(fault),
        },
{
    record.sys_type = take_int(&s.sys_type, Field::SysType)?;
    record.sys_to_id = take_int(&s.id, Field::SysId)?;
    record.message = take_decimal(&s.message, Field::Message)?;
    record.country = take_text(&s.country, Field::Country)?;
    record.sunrise = take_clock(&s.sunrise, up, Field::Sunrise)?;
    record.sunset = take_clock(&s.sunset, down, Field::Sunset)?;
    Ok(())
}

impl OpenWeaterToTsv {
    /// The record of what a payload reports. `up` and `down` are the offsets
    /// of the local clock from UTC, in seconds, at the instants of sunrise and
    /// of sunset, `None` where there is no local time for the instant; they
    /// are looked at only where the payload reports the instant.
    pub fn from_response(response: &OpenWeatherResponse, up: Option<i32>, down: Option<i32>) -> (r:
        Result<OpenWeaterToTsv, ExtractError>)
        ensures
            agrees(r, record_of(response@, up, down)),
    {
        let mut record = OpenWeaterToTsv::new();
        record.cod = take_status(&response.cod)?;
        fill_coord(&mut record, &response.coord)?;
        fill_condition(&mut record, &response.weather)?;
        record.base = take_text(&response.base, Field::Base)?;
        fill_main(&mut record, &response.main)?;
        record.visibility = take_int(&response.visibility, Field::Visibility)?;
        fill_wind(&mut record, &response.wind)?;
        record.all = take_int(&response.clouds.all, Field::CloudsAll)?;
        fill_rain(&mut record, &response.rain)?;
        fill_snow(&mut record, &response.snow)?;
        record.dt = take_int(&response.dt, Field::Dt)?;
        fill_sys(&mut record, &response.sys, up, down)?;
        record.timezone = take_int(&response.timezone, Field::Timezone)?;
        record.id = take_int(&response.id, Field::Id)?;
        record.name = take_text(&response.name, Field::Name)?;
        Ok(record)
    }
}

/// The local offset at an instant that a payload reports: there is one
/// exactly where the payload reports an instant that has a date.
fn shift_at(instant: &Probe<i64>) -> (shift: Option<i32>)
    ensures
        shift_allowed(*instant, shift),
{
    match instant {
        Probe::Present(t) => local_shift(*t),
        _ => None,
    }
}

/// Whether `shift` can be the local offset at the instant that a payload
/// reports: there is one exactly where an instant is reported and has a date,
/// and it is one that a time zone can have.
pub open spec fn shift_allowed(instant: Probe<i64>, shift: Option<i32>) -> bool {
    &&& shift is Some <==> (instant matches Probe::Present(t) && has_date(t))
    &&& shift matches Some(s) ==> shift_in_range(s)
}

/// Extracts the record of a payload. The sun times are put on the clock of
/// the zone that the machine is set to, so the outcome is the one that
/// `record_of` gives for some pair of offsets that the instants of sunrise
/// and of sunset allow.
pub fn extract(doc: &serde_json::Value) -> (r: Result<OpenWeaterToTsv, ExtractError>)
    ensures
        exists|up: Option<i32>, down: Option<i32>|
            shift_allowed(response_of(node_of(*doc)).sys.sunrise, up) && shift_allowed(
                response_of(node_of(*doc)).sys.sunset,
                down,
            ) && #[trigger] agrees(r, record_of(response_of(node_of(*doc)), up, down)),
{
    let response = decode(doc);
    let up = shift_at(&response.sys.sunrise);
    let down = shift_at(&response.sys.sunset);
    let r = OpenWeaterToTsv::from_response(&response, up, down);
    assert(shift_allowed(response_of(node_of(*doc)).sys.sunrise, up) && shift_allowed(
        response_of(node_of(*doc)).sys.sunset,
        down,
    ) && agrees(r, record_of(response_of(node_of(*doc)), up, down)));
    r
}

} // verus!
