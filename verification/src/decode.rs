//! Reading a payload leniently: every leaf that the record draws on is looked
//! up, and what the look found is kept, whether a value, nothing, or a value of
//! another type. Nothing here fails.

use crate::api::{
    Clouds, CloudsView, Coord, CoordView, Decimal, Main, MainView, OpenWeatherResponse,
    Precipitation, PrecipitationView, Probe, ResponseView, Sys, SysView, Weather, WeatherView,
    Wind, WindView, as_quantity, conditions_of, conditions_view,
};
use crate::json::{
    Node, as_int, as_list, as_numeral, as_text, child, child_of, int_of, list_of, member, node_of,
    nodes_of, numeral_of, text_of,
};
use vstd::prelude::*;

verus! {

/// The node behind a value that may be missing.
pub open spec fn seen(holder: Option<&serde_json::Value>) -> Option<Node> {
    match holder {
        Some(v) => Some(node_of(*v)),
        None => None,
    }
}

/// A leaf read as an integer.
pub open spec fn int_probe(found: Option<Node>) -> Probe<i64> {
    match found {
        None => Probe::Missing,
        Some(node) => match int_of(node) {
            Some(i) => Probe::Present(i),
            None => Probe::Mistyped,
        },
    }
}

/// A leaf read as a quantity: a number of any kind.
pub open spec fn numeral_probe(found: Option<Node>) -> Probe<Seq<char>> {
    match found {
        None => Probe::Missing,
        Some(node) => match numeral_of(node) {
            Some(text) => Probe::Present(as_quantity(text)),
            None => Probe::Mistyped,
        },
    }
}

/// A leaf read as a string.
pub open spec fn text_probe(found: Option<Node>) -> Probe<Seq<char>> {
    match found {
        None => Probe::Missing,
        Some(node) => match text_of(node) {
            Some(text) => Probe::Present(text),
            None => Probe::Mistyped,
        },
    }
}

/// The coordinates under the section `coord`.
pub open spec fn coord_of(section: Option<Node>) -> CoordView {
    CoordView {
        lon: numeral_probe(child_of(section, "lon"@)),
        lat: numeral_probe(child_of(section, "lat"@)),
    }
}

/// One element of the list `weather`, read as a condition.
pub open spec fn condition_of(item: Node) -> WeatherView {
    WeatherView {
        id: int_probe(child(item, "id"@)),
        main: text_probe(child(item, "main"@)),
        description: text_probe(child(item, "description"@)),
        icon: text_probe(child(item, "icon"@)),
    }
}

/// The list `weather`: its elements in order, each read as a condition.
pub open spec fn conditions_probe(found: Option<Node>) -> Probe<Seq<WeatherView>> {
    match found {
        None => Probe::Missing,
        Some(node) => match list_of(node) {
            Some(items) => Probe::Present(items.map_values(|item: Node| condition_of(item))),
            None => Probe::Mistyped,
        },
    }
}

/// The readings under the section `main`.
pub open spec fn main_of(section: Option<Node>) -> MainView {
    MainView {
        temp: numeral_probe(child_of(section, "temp"@)),
        feels_like: numeral_probe(child_of(section, "feels_like"@)),
        temp_min: numeral_probe(child_of(section, "temp_min"@)),
        temp_max: numeral_probe(child_of(section, "temp_max"@)),
        pressure: int_probe(child_of(section, "pressure"@)),
        sea_level: int_probe(child_of(section, "sea_level"@)),
        grnd_level: int_probe(child_of(section, "grnd_level"@)),
        humidity: int_probe(child_of(section, "humidity"@)),
    }
}

/// The readings under the section `wind`.
pub open spec fn wind_of(section: Option<Node>) -> WindView {
    WindView {
        speed: numeral_probe(child_of(section, "speed"@)),
        deg: int_probe(child_of(section, "deg"@)),
        gust: numeral_probe(child_of(section, "gust"@)),
    }
}

/// The reading under the section `clouds`.
pub open spec fn clouds_of(section: Option<Node>) -> CloudsView {
    CloudsView { all: int_probe(child_of(section, "all"@)) }
}

/// The amounts under the section `rain` or `snow`.
pub open spec fn precipitation_of(section: Option<Node>) -> PrecipitationView {
    PrecipitationView {
        h1: numeral_probe(child_of(section, "h1"@)),
        h3: numeral_probe(child_of(section, "h3"@)),
    }
}

/// The leaves under the section `sys`.
pub open spec fn sys_of(section: Option<Node>) -> SysView {
    SysView {
        sys_type: int_probe(child_of(section, "type"@)),
        id: int_probe(child_of(section, "id"@)),
        message: numeral_probe(child_of(section, "message"@)),
        country: text_probe(child_of(section, "country"@)),
        sunrise: int_probe(child_of(section, "sunrise"@)),
        sunset: int_probe(child_of(section, "sunset"@)),
    }
}

/// What a payload reports, leaf by leaf.
pub open spec fn response_of(root: Node) -> ResponseView {
    ResponseView {
        coord: coord_of(child(root, "coord"@)),
        weather: conditions_probe(child(root, "weather"@)),
        base: text_probe(child(root, "base"@)),
        main: main_of(child(root, "main"@)),
        visibility: int_probe(child(root, "visibility"@)),
        wind: wind_of(child(root, "wind"@)),
        clouds: clouds_of(child(root, "clouds"@)),
        rain: precipitation_of(child(root, "rain"@)),
        snow: precipitation_of(child(root, "snow"@)),
        dt: int_probe(child(root, "dt"@)),
        sys: sys_of(child(root, "sys"@)),
        timezone: int_probe(child(root, "timezone"@)),
        id: int_probe(child(root, "id"@)),
        name: text_probe(child(root, "name"@)),
        cod: int_probe(child(root, "cod"@)),
    }
}

/// Looks for the member `key` of a value that may itself be missing.
fn find<'a>(holder: Option<&'a serde_json::Value>, key: &str) -> (found: Option<
    &'a serde_json::Value,
>)
    ensures
        seen(found) == child_of(seen(holder), key@),
{
    match holder {
        Some(v) => member(v, key),
        None => None,
    }
}

fn read_int(holder: Option<&serde_json::Value>, key: &str) -> (p: Probe<i64>)
    ensures
        p == int_probe(child_of(seen(holder), key@)),
{
    match find(holder, key) {
        None => Probe::Missing,
        Some(leaf) => match as_int(leaf) {
            Some(i) => Probe::Present(i),
            None => Probe::Mistyped,
        },
    }
}

fn read_decimal(holder: Option<&serde_json::Value>, key: &str) -> (p: Probe<Decimal>)
    ensures
        p@ == numeral_probe(child_of(seen(holder), key@)),
{
    match find(holder, key) {
        None => Probe::Missing,
        Some(leaf) => match as_numeral(leaf) {
            Some(text) => Probe::Present(Decimal::from_numeral(text)),
            None => Probe::Mistyped,
        },
    }
}

fn read_text(holder: Option<&serde_json::Value>, key: &str) -> (p: Probe<String>)
    ensures
        p@ == text_probe(child_of(seen(holder), key@)),
{
    match find(holder, key) {
        None => Probe::Missing,
        Some(leaf) => match as_text(leaf) {
            Some(text) => Probe::Present(String::from_str(text)),
            None => Probe::Mistyped,
        },
    }
}

fn read_condition(item: &serde_json::Value) -> (w: Weather)
    ensures
        w@ == condition_of(node_of(*item)),
{
    let holder = Some(item);
    Weather {
        id: read_int(holder, "id"),
        main: read_text(holder, "main"),
        description: read_text(holder, "description"),
        icon: read_text(holder, "icon"),
    }
}

fn read_conditions(found: Option<&serde_json::Value>) -> (p: Probe<Vec<Weather>>)
    ensures
        conditions_view(p) == conditions_probe(seen(found)),
{
    match found {
        None => Probe::Missing,
        Some(value) => match as_list(value) {
            None => Probe::Mistyped,
            Some(items) => {
                let mut list: Vec<Weather> = Vec::new();
                let mut i: usize = 0;
                while i < items.len()
                    invariant
                        i <= items.len(),
                        list@.len() == i,
                        forall|k: int|
                            0 <= k < i ==> (#[trigger] list@[k])@ == condition_of(
                                node_of(items@[k]),
                            ),
                    decreases items.len() - i,
                {
                    list.push(read_condition(&items[i]));
                    i += 1;
                }
                assert(conditions_of(list@) =~= nodes_of(items@).map_values(
                    |item: Node| condition_of(item),
                ));
                Probe::Present(list)
            },
        },
    }
}

/// Reads a payload, leaf by leaf.
pub fn decode(doc: &serde_json::Value) -> (response: OpenWeatherResponse)
    ensures
        response@ == response_of(node_of(*doc)),
{
    let root = Some(doc);
    let coord = find(root, "coord");
    let main = find(root, "main");
    let wind = find(root, "wind");
    let clouds = find(root, "clouds");
    let rain = find(root, "rain");
    let snow = find(root, "snow");
    let sys = find(root, "sys");
    OpenWeatherResponse {
        coord: Coord { lon: read_decimal(coord, "lon"), lat: read_decimal(coord, "lat") },
        weather: read_conditions(find(root, "weather")),
        base: read_text(root, "base"),
        main: Main {
            temp: read_decimal(main, "temp"),
            feels_like: read_decimal(main, "feels_like"),
            temp_min: read_decimal(main, "temp_min"),
            temp_max: read_decimal(main, "temp_max"),
            pressure: read_int(main, "pressure"),
            sea_level: read_int(main, "sea_level"),
            grnd_level: read_int(main, "grnd_level"),
            humidity: read_int(main, "humidity"),
        },
        visibility: read_int(root, "visibility"),
        wind: Wind {
            speed: read_decimal(wind, "speed"),
            deg: read_int(wind, "deg"),
            gust: read_decimal(wind, "gust"),
        },
        clouds: Clouds { all: read_int(clouds, "all") },
        rain: Precipitation { h1: read_decimal(rain, "h1"), h3: read_decimal(rain, "h3") },
        snow: Precipitation { h1: read_decimal(snow, "h1"), h3: read_decimal(snow, "h3") },
        dt: read_int(root, "dt"),
        sys: Sys {
            sys_type: read_int(sys, "type"),
            id: read_int(sys, "id"),
            message: read_decimal(sys, "message"),
            country: read_text(sys, "country"),
            sunrise: read_int(sys, "sunrise"),
            sunset: read_int(sys, "sunset"),
        },
        timezone: read_int(root, "timezone"),
        id: read_int(root, "id"),
        name: read_text(root, "name"),
        cod: read_int(root, "cod"),
    }
}

} // verus!
