use weatherlog::api::{Decimal, OpenWeaterToTsv, OpenWeatherResponse, Probe, Weather};
use weatherlog::clock::{FIRST_INSTANT, LAST_INSTANT};
use weatherlog::cycle::{run_cycle, CycleError};
use weatherlog::decode::decode;
use weatherlog::extract::{extract, select_condition, ExtractError, Field};

const FULL: &str = r#"{
  "coord": {"lon": 135.5022, "lat": 34.6937},
  "weather": [{"id": 803, "main": "Clouds", "description": "曇りがち", "icon": "04d"}],
  "base": "stations",
  "main": {"temp": 18.4, "feels_like": 17.9, "temp_min": 16.1, "temp_max": 20,
           "pressure": 1015, "sea_level": 1016, "grnd_level": 1012, "humidity": 63},
  "visibility": 10000,
  "wind": {"speed": 3.6, "deg": 250, "gust": 5.25},
  "clouds": {"all": 75},
  "rain": {"h1": 0.25, "h3": 1.5},
  "snow": {"h1": 0, "h3": 0.125},
  "dt": 1600000000,
  "sys": {"type": 1, "id": 8032, "message": 0.0043, "country": "JP",
          "sunrise": 1599943000, "sunset": 1599988000},
  "timezone": 32400,
  "id": 1853909,
  "name": "Osaka",
  "cod": 200
}"#;

fn value(text: &str) -> serde_json::Value {
    serde_json::from_str(text).unwrap()
}

fn response(text: &str) -> OpenWeatherResponse {
    decode(&value(text))
}

fn record(text: &str) -> Result<OpenWeaterToTsv, ExtractError> {
    OpenWeaterToTsv::from_response(&response(text), Some(0), Some(0))
}

fn number(d: &Decimal) -> f64 {
    d.text.parse().unwrap()
}

fn is_clock(text: &str) -> bool {
    let b = text.as_bytes();
    b.len() == 8
        && b[2] == b':'
        && b[5] == b':'
        && [0usize, 1, 3, 4, 6, 7].iter().all(|&i| b[i].is_ascii_digit())
        && &text[0..2] < "24"
        && &text[3..5] < "60"
        && &text[6..8] < "60"
}

#[test]
fn new_record_has_every_field_at_its_default() {
    let r = OpenWeaterToTsv::new();
    assert_eq!(number(&r.lon), 0.0);
    assert_eq!(number(&r.lat), 0.0);
    assert_eq!(r.lon.text, "0.0");
    assert_eq!(r.weather_to_id, 0);
    assert_eq!(r.weather_to_main, "");
    assert_eq!(r.description, "");
    assert_eq!(r.icon, "");
    assert_eq!(r.base, "");
    assert_eq!(number(&r.temp), 0.0);
    assert_eq!(number(&r.feels_like), 0.0);
    assert_eq!(number(&r.temp_min), 0.0);
    assert_eq!(number(&r.temp_max), 0.0);
    assert_eq!(r.pressure, 0);
    assert_eq!(r.sea_level, 0);
    assert_eq!(r.grnd_level, 0);
    assert_eq!(r.humidity, 0);
    assert_eq!(r.visibility, 0);
    assert_eq!(number(&r.speed), 0.0);
    assert_eq!(r.deg, 0);
    assert_eq!(number(&r.gust), 0.0);
    assert_eq!(r.all, 0);
    assert_eq!(number(&r.rain_1h), 0.0);
    assert_eq!(number(&r.rain_3h), 0.0);
    assert_eq!(number(&r.snow_h1), 0.0);
    assert_eq!(number(&r.snow_h3), 0.0);
    assert_eq!(r.dt, 0);
    assert_eq!(r.sys_type, 0);
    assert_eq!(r.sys_to_id, 0);
    assert_eq!(number(&r.message), 0.0);
    assert_eq!(r.country, "");
    assert_eq!(r.sunrise, "");
    assert_eq!(r.sunset, "");
    assert_eq!(r.timezone, 0);
    assert_eq!(r.id, 0);
    assert_eq!(r.name, "");
    assert_eq!(r.cod, 0);
}

#[test]
fn minimal_payload_sets_coordinates_and_status_only() {
    let got = extract(&value(r#"{"cod":200,"coord":{"lat":1.0,"lon":2.0}}"#)).unwrap();
    assert_eq!(number(&got.lat), 1.0);
    assert_eq!(number(&got.lon), 2.0);
    assert_eq!(got.cod, 200);
    let mut expected = OpenWeaterToTsv::new();
    expected.lat = Decimal { text: String::from("1.0") };
    expected.lon = Decimal { text: String::from("2.0") };
    expected.cod = 200;
    assert_eq!(got, expected);
}

#[test]
fn empty_object_gives_the_default_record() {
    assert_eq!(extract(&value("{}")), Ok(OpenWeaterToTsv::new()));
    assert_eq!(record("{}"), Ok(OpenWeaterToTsv::new()));
}

#[test]
fn payload_that_is_no_object_gives_the_default_record() {
    assert_eq!(extract(&value("[1, 2, 3]")), Ok(OpenWeaterToTsv::new()));
    assert_eq!(extract(&value("\"text\"")), Ok(OpenWeaterToTsv::new()));
    assert_eq!(extract(&value("null")), Ok(OpenWeaterToTsv::new()));
}

#[test]
fn missing_wind_leaves_speed_direction_and_gust_at_zero() {
    let got = record(r#"{"cod":200,"main":{"temp":3.5}}"#).unwrap();
    assert_eq!(number(&got.speed), 0.0);
    assert_eq!(got.deg, 0);
    assert_eq!(number(&got.gust), 0.0);
    assert_eq!(number(&got.temp), 3.5);
}

#[test]
fn missing_leaf_in_a_present_section_keeps_its_default() {
    let got = record(r#"{"wind":{"deg":90},"sys":{"country":"GB"},"main":{"humidity":40}}"#)
        .unwrap();
    assert_eq!(got.deg, 90);
    assert_eq!(number(&got.speed), 0.0);
    assert_eq!(number(&got.gust), 0.0);
    assert_eq!(got.country, "GB");
    assert_eq!(got.sys_type, 0);
    assert_eq!(got.sunrise, "");
    assert_eq!(got.humidity, 40);
    assert_eq!(got.pressure, 0);
    assert_eq!(got.cod, 0);
}

#[test]
fn section_that_is_no_object_counts_as_missing() {
    let got = record(r#"{"coord":5,"wind":"strong","main":[1,2],"sys":null}"#).unwrap();
    assert_eq!(got, OpenWeaterToTsv::new());
}

#[test]
fn condition_is_taken_from_the_last_entry() {
    let got = record(
        r#"{"weather":[
            {"id":500,"main":"Rain","description":"light rain","icon":"10d"},
            {"id":701,"main":"Mist","description":"mist","icon":"50d"},
            {"id":803,"main":"Clouds","description":"broken clouds","icon":"04n"}]}"#,
    )
    .unwrap();
    assert_eq!(got.weather_to_id, 803);
    assert_eq!(got.weather_to_main, "Clouds");
    assert_eq!(got.description, "broken clouds");
    assert_eq!(got.icon, "04n");
}

#[test]
fn last_entry_decides_even_where_it_reports_less() {
    let got = record(
        r#"{"weather":[
            {"id":500,"main":"Rain","description":"light rain","icon":"10d"},
            {"id":701}]}"#,
    )
    .unwrap();
    assert_eq!(got.weather_to_id, 701);
    assert_eq!(got.weather_to_main, "");
    assert_eq!(got.description, "");
    assert_eq!(got.icon, "");
}

#[test]
fn faults_in_entries_before_the_last_are_not_met() {
    let got = record(r#"{"weather":[{"id":"five hundred","main":7},{"id":701,"main":"Mist"}]}"#)
        .unwrap();
    assert_eq!(got.weather_to_id, 701);
    assert_eq!(got.weather_to_main, "Mist");
}

#[test]
fn empty_list_of_conditions_leaves_the_defaults() {
    let got = record(r#"{"weather":[]}"#).unwrap();
    assert_eq!(got, OpenWeaterToTsv::new());
}

#[test]
fn last_entry_that_is_no_object_leaves_the_defaults() {
    let got = record(r#"{"weather":[{"id":500,"main":"Rain"}, 12]}"#).unwrap();
    assert_eq!(got, OpenWeaterToTsv::new());
}

#[test]
fn list_of_conditions_of_another_type_is_a_fault() {
    assert_eq!(
        record(r#"{"weather":{"id":500}}"#),
        Err(ExtractError::Mistyped(Field::Weather))
    );
    assert_eq!(record(r#"{"weather":"rain"}"#), Err(ExtractError::Mistyped(Field::Weather)));
}

#[test]
fn select_condition_returns_the_last_of_the_list() {
    let first = Weather {
        id: Probe::Present(1),
        main: Probe::Missing,
        description: Probe::Missing,
        icon: Probe::Missing,
    };
    let second = Weather {
        id: Probe::Present(2),
        main: Probe::Present(String::from("Snow")),
        description: Probe::Mistyped,
        icon: Probe::Missing,
    };
    let list = Probe::Present(vec![first.clone(), second.clone()]);
    assert_eq!(select_condition(&list), Some(&second));
    assert_eq!(select_condition(&Probe::Present(vec![first.clone()])), Some(&first));
    assert_eq!(select_condition(&Probe::Present(vec![])), None);
    assert_eq!(select_condition(&Probe::Missing), None);
    assert_eq!(select_condition(&Probe::Mistyped), None);
}

#[test]
fn status_other_than_200_gives_no_record() {
    assert_eq!(record(r#"{"cod":404}"#), Err(ExtractError::Status(404)));
    assert_eq!(record(r#"{"cod":401,"coord":{"lat":1.0}}"#), Err(ExtractError::Status(401)));
    assert_eq!(record(r#"{"cod":0}"#), Err(ExtractError::Status(0)));
    assert_eq!(record(r#"{"cod":-200}"#), Err(ExtractError::Status(-200)));
    assert_eq!(extract(&value(r#"{"cod":500}"#)), Err(ExtractError::Status(500)));
}

#[test]
fn status_comes_before_every_other_fault() {
    assert_eq!(
        record(r#"{"coord":{"lat":"north"},"cod":404,"name":5}"#),
        Err(ExtractError::Status(404))
    );
}

#[test]
fn status_of_another_type_is_a_fault() {
    assert_eq!(record(r#"{"cod":"404"}"#), Err(ExtractError::Mistyped(Field::Cod)));
    assert_eq!(record(r#"{"cod":200.0}"#), Err(ExtractError::Mistyped(Field::Cod)));
    assert_eq!(record(r#"{"cod":null}"#), Err(ExtractError::Mistyped(Field::Cod)));
}

#[test]
fn first_fault_in_reading_order_is_reported() {
    assert_eq!(
        record(r#"{"name":5,"coord":{"lon":"east","lat":"north"}}"#),
        Err(ExtractError::Mistyped(Field::Lat))
    );
    assert_eq!(
        record(r#"{"name":5,"coord":{"lon":"east"}}"#),
        Err(ExtractError::Mistyped(Field::Lon))
    );
    assert_eq!(
        record(r#"{"name":5,"sys":{"sunset":"late"},"wind":{"gust":true}}"#),
        Err(ExtractError::Mistyped(Field::Gust))
    );
    assert_eq!(
        record(r#"{"name":5,"id":"x","timezone":"y"}"#),
        Err(ExtractError::Mistyped(Field::Timezone))
    );
}

#[test]
fn each_leaf_of_another_type_is_a_fault_of_its_own() {
    let cases: Vec<(&str, Field)> = vec![
        (r#"{"coord":{"lat":"x"}}"#, Field::Lat),
        (r#"{"coord":{"lon":[]}}"#, Field::Lon),
        (r#"{"weather":[{"id":1.5}]}"#, Field::WeatherId),
        (r#"{"weather":[{"main":1}]}"#, Field::WeatherMain),
        (r#"{"weather":[{"description":1}]}"#, Field::Description),
        (r#"{"weather":[{"icon":1}]}"#, Field::Icon),
        (r#"{"base":1}"#, Field::Base),
        (r#"{"main":{"temp":"warm"}}"#, Field::Temp),
        (r#"{"main":{"feels_like":"warm"}}"#, Field::FeelsLike),
        (r#"{"main":{"temp_min":null}}"#, Field::TempMin),
        (r#"{"main":{"temp_max":{}}}"#, Field::TempMax),
        (r#"{"main":{"pressure":1013.5}}"#, Field::Pressure),
        (r#"{"main":{"sea_level":"high"}}"#, Field::SeaLevel),
        (r#"{"main":{"grnd_level":1e3}}"#, Field::GrndLevel),
        (r#"{"main":{"humidity":"63"}}"#, Field::Humidity),
        (r#"{"visibility":true}"#, Field::Visibility),
        (r#"{"wind":{"speed":"fast"}}"#, Field::Speed),
        (r#"{"wind":{"deg":12.5}}"#, Field::Deg),
        (r#"{"wind":{"gust":"fast"}}"#, Field::Gust),
        (r#"{"clouds":{"all":"many"}}"#, Field::CloudsAll),
        (r#"{"rain":{"h1":"wet"}}"#, Field::Rain1h),
        (r#"{"rain":{"h3":"wet"}}"#, Field::Rain3h),
        (r#"{"snow":{"h1":"cold"}}"#, Field::Snow1h),
        (r#"{"snow":{"h3":"cold"}}"#, Field::Snow3h),
        (r#"{"dt":"now"}"#, Field::Dt),
        (r#"{"sys":{"type":"a"}}"#, Field::SysType),
        (r#"{"sys":{"id":"a"}}"#, Field::SysId),
        (r#"{"sys":{"message":"a"}}"#, Field::Message),
        (r#"{"sys":{"country":81}}"#, Field::Country),
        (r#"{"sys":{"sunrise":"dawn"}}"#, Field::Sunrise),
        (r#"{"sys":{"sunset":1.5}}"#, Field::Sunset),
        (r#"{"timezone":"JST"}"#, Field::Timezone),
        (r#"{"id":"osaka"}"#, Field::Id),
        (r#"{"name":1853909}"#, Field::Name),
    ];
    for (text, field) in cases {
        assert_eq!(record(text), Err(ExtractError::Mistyped(field)), "{}", text);
        assert_eq!(extract(&value(text)), Err(ExtractError::Mistyped(field)), "{}", text);
    }
}

#[test]
fn whole_number_is_wanted_where_the_field_is_whole() {
    assert_eq!(
        record(r#"{"main":{"pressure":1013.0}}"#),
        Err(ExtractError::Mistyped(Field::Pressure))
    );
    assert_eq!(
        record(r#"{"dt":9223372036854775808}"#),
        Err(ExtractError::Mistyped(Field::Dt))
    );
    assert_eq!(record(r#"{"dt":9223372036854775807}"#).unwrap().dt, i64::MAX);
    assert_eq!(record(r#"{"dt":-9223372036854775808}"#).unwrap().dt, i64::MIN);
    assert_eq!(record(r#"{"dt":-1}"#).unwrap().dt, -1);
}

#[test]
fn quantity_takes_any_number() {
    let got = record(
        r#"{"main":{"temp":20,"feels_like":-3,"temp_min":-0.5,"temp_max":1e2},
            "rain":{"h1":0.25},"wind":{"speed":18446744073709551615}}"#,
    )
    .unwrap();
    assert_eq!(number(&got.temp), 20.0);
    assert_eq!(got.temp.text, "20.0");
    assert_eq!(number(&got.feels_like), -3.0);
    assert_eq!(got.feels_like.text, "-3.0");
    assert_eq!(got.temp_min.text, "-0.5");
    assert_eq!(number(&got.temp_min), -0.5);
    assert_eq!(number(&got.temp_max), 100.0);
    assert_eq!(number(&got.rain_1h), 0.25);
    assert_eq!(number(&got.speed), 18446744073709551615u64 as f64);
}

#[test]
fn whole_and_fractional_spelling_give_the_same_quantity() {
    assert_eq!(record(r#"{"main":{"temp":20}}"#), record(r#"{"main":{"temp":20.0}}"#));
    assert_eq!(record(r#"{"wind":{"speed":0}}"#), Ok(OpenWeaterToTsv::new()));
    assert_eq!(record(r#"{"wind":{"speed":0.0}}"#), Ok(OpenWeaterToTsv::new()));
}

#[test]
fn quantity_is_kept_with_a_fraction_part_or_an_exponent() {
    let of = |text: &str| Decimal::from_numeral(String::from(text)).text;
    assert_eq!(of("20"), "20.0");
    assert_eq!(of("-7"), "-7.0");
    assert_eq!(of("0"), "0.0");
    assert_eq!(of("18.4"), "18.4");
    assert_eq!(of("1e21"), "1e21");
    assert_eq!(of("2.5E-7"), "2.5E-7");
    assert_eq!(of("-0.0"), "-0.0");
    assert_eq!(Decimal::zero().text, "0.0");
}

#[test]
fn sun_times_are_put_on_the_clock_under_the_given_offsets() {
    let r = response(FULL);
    let got = OpenWeaterToTsv::from_response(&r, Some(32_400), Some(32_400)).unwrap();
    assert_eq!(got.sunrise, "05:36:40");
    assert_eq!(got.sunset, "18:06:40");
    let utc = OpenWeaterToTsv::from_response(&r, Some(0), Some(-3_600)).unwrap();
    assert_eq!(utc.sunrise, "20:36:40");
    assert_eq!(utc.sunset, "08:06:40");
}

#[test]
fn instant_without_local_time_is_a_fault() {
    let r = response(FULL);
    assert_eq!(
        OpenWeaterToTsv::from_response(&r, None, Some(0)),
        Err(ExtractError::NoLocalTime(Field::Sunrise))
    );
    assert_eq!(
        OpenWeaterToTsv::from_response(&r, Some(0), None),
        Err(ExtractError::NoLocalTime(Field::Sunset))
    );
    assert_eq!(
        extract(&value(r#"{"sys":{"sunrise":9223372036854775807}}"#)),
        Err(ExtractError::NoLocalTime(Field::Sunrise))
    );
    assert_eq!(
        extract(&value(r#"{"sys":{"sunset":-9223372036854775808}}"#)),
        Err(ExtractError::NoLocalTime(Field::Sunset))
    );
}

#[test]
fn local_time_exists_from_the_first_to_the_last_date() {
    assert_eq!(FIRST_INSTANT, -8_334_601_228_800);
    assert_eq!(LAST_INSTANT, 8_210_266_876_799);
    let sunrise = |t: i64| extract(&value(&format!("{{\"sys\":{{\"sunrise\":{}}}}}", t)));
    let sunset = |t: i64| extract(&value(&format!("{{\"sys\":{{\"sunset\":{}}}}}", t)));
    for t in [FIRST_INSTANT, FIRST_INSTANT + 1, -1, 0, 1_600_000_000, LAST_INSTANT - 1, LAST_INSTANT]
    {
        let up = sunrise(t).unwrap();
        assert!(is_clock(&up.sunrise), "{}", up.sunrise);
        assert_eq!(up.sunset, "");
        let down = sunset(t).unwrap();
        assert!(is_clock(&down.sunset), "{}", down.sunset);
        assert_eq!(down.sunrise, "");
    }
    for t in [i64::MIN, FIRST_INSTANT - 86_400, FIRST_INSTANT - 1, LAST_INSTANT + 1, i64::MAX] {
        assert_eq!(sunrise(t), Err(ExtractError::NoLocalTime(Field::Sunrise)), "{}", t);
        assert_eq!(sunset(t), Err(ExtractError::NoLocalTime(Field::Sunset)), "{}", t);
    }
}

#[test]
fn offsets_are_not_looked_at_where_no_instant_is_reported() {
    let r = response(r#"{"cod":200}"#);
    let got = OpenWeaterToTsv::from_response(&r, None, None).unwrap();
    assert_eq!(got.sunrise, "");
    assert_eq!(got.sunset, "");
}

#[test]
fn extract_puts_sun_times_on_the_local_clock() {
    let got = extract(&value(FULL)).unwrap();
    assert!(is_clock(&got.sunrise), "{}", got.sunrise);
    assert!(is_clock(&got.sunset), "{}", got.sunset);
    let again = extract(&value(FULL)).unwrap();
    assert_eq!(got, again);
}

#[test]
fn full_payload_fills_every_field() {
    let got = OpenWeaterToTsv::from_response(&response(FULL), Some(32_400), Some(32_400)).unwrap();
    assert_eq!(number(&got.lon), 135.5022);
    assert_eq!(number(&got.lat), 34.6937);
    assert_eq!(got.weather_to_id, 803);
    assert_eq!(got.weather_to_main, "Clouds");
    assert_eq!(got.description, "曇りがち");
    assert_eq!(got.icon, "04d");
    assert_eq!(got.base, "stations");
    assert_eq!(number(&got.temp), 18.4);
    assert_eq!(number(&got.feels_like), 17.9);
    assert_eq!(number(&got.temp_min), 16.1);
    assert_eq!(number(&got.temp_max), 20.0);
    assert_eq!(got.pressure, 1015);
    assert_eq!(got.sea_level, 1016);
    assert_eq!(got.grnd_level, 1012);
    assert_eq!(got.humidity, 63);
    assert_eq!(got.visibility, 10000);
    assert_eq!(number(&got.speed), 3.6);
    assert_eq!(got.deg, 250);
    assert_eq!(number(&got.gust), 5.25);
    assert_eq!(got.all, 75);
    assert_eq!(number(&got.rain_1h), 0.25);
    assert_eq!(number(&got.rain_3h), 1.5);
    assert_eq!(number(&got.snow_h1), 0.0);
    assert_eq!(number(&got.snow_h3), 0.125);
    assert_eq!(got.dt, 1600000000);
    assert_eq!(got.sys_type, 1);
    assert_eq!(got.sys_to_id, 8032);
    assert_eq!(number(&got.message), 0.0043);
    assert_eq!(got.country, "JP");
    assert_eq!(got.sunrise, "05:36:40");
    assert_eq!(got.sunset, "18:06:40");
    assert_eq!(got.timezone, 32400);
    assert_eq!(got.id, 1853909);
    assert_eq!(got.name, "Osaka");
    assert_eq!(got.cod, 200);
}

#[test]
fn decode_keeps_what_each_leaf_holds() {
    let r = response(
        r#"{"coord":{"lon":2.5,"lat":"north"},"weather":[{"id":1},{"main":"Fog","icon":7}],
            "clouds":{"all":90},"base":null,"cod":"200","dt":12}"#,
    );
    assert_eq!(r.coord.lon, Probe::Present(Decimal { text: String::from("2.5") }));
    assert_eq!(r.coord.lat, Probe::Mistyped);
    assert_eq!(
        r.weather,
        Probe::Present(vec![
            Weather {
                id: Probe::Present(1),
                main: Probe::Missing,
                description: Probe::Missing,
                icon: Probe::Missing,
            },
            Weather {
                id: Probe::Missing,
                main: Probe::Present(String::from("Fog")),
                description: Probe::Missing,
                icon: Probe::Mistyped,
            },
        ])
    );
    assert_eq!(r.clouds.all, Probe::Present(90));
    assert_eq!(r.base, Probe::Mistyped);
    assert_eq!(r.cod, Probe::Mistyped);
    assert_eq!(r.dt, Probe::Present(12));
    assert_eq!(r.name, Probe::Missing);
    assert_eq!(r.main.temp, Probe::Missing);
    assert_eq!(r.wind.speed, Probe::Missing);
    assert_eq!(r.sys.sunrise, Probe::Missing);
    assert_eq!(r.rain.h1, Probe::Missing);
    assert_eq!(r.snow.h3, Probe::Missing);
    assert_eq!(r.visibility, Probe::Missing);
}

#[test]
fn body_that_is_not_json_ends_the_cycle_as_malformed() {
    assert!(matches!(run_cycle("{\"cod\":", true), Err(CycleError::Malformed(_))));
    assert!(matches!(run_cycle("", false), Err(CycleError::Malformed(_))));
    assert!(matches!(run_cycle("not json", false), Err(CycleError::Malformed(_))));
    match run_cycle("{\"cod\": 200,}", true) {
        Err(CycleError::Malformed(message)) => assert!(!message.is_empty()),
        other => panic!("{:?}", other),
    }
}
