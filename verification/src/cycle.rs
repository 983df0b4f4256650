//! One polling cycle between its edges: the request that is sent, and what
//! is done with the body that comes back.

use crate::api::{OpenWeaterToTsv, RecordView};
use crate::decode::response_of;
use crate::extract::{ExtractError, agrees, extract, record_of, shift_allowed};
use crate::json::{Node, child, fault_message, int_of, node_of, parse_outcome, parse_text};
use vstd::prelude::*;

verus! {

/// The key that is used where none is set.
pub const DEFAULT_API_KEY: &'static str = "4378163cb4675f5aeff249a30842c89e";

/// The address of the service that is used where none is set.
pub const DEFAULT_SERVER: &'static str = "https://api.openweathermap.org/data/2.5/weather";

/// The city that is asked about where none is set.
pub const DEFAULT_LOCATION: &'static str = "osaka";

/// What the program is set up with, fixed once at startup.
#[derive(Debug, Clone, PartialEq, Eq)]
pub struct Settings {
    pub api_key: String,
    pub server: String,
    pub location: String,
    /// Whether each record is written to the log.
    pub tsv_out: bool,
}

pub struct SettingsView {
    pub api_key: Seq<char>,
    pub server: Seq<char>,
    pub location: Seq<char>,
    pub tsv_out: bool,
}

impl View for Settings {
    type V = SettingsView;

    open spec fn view(&self) -> SettingsView {
        SettingsView {
            api_key: self.api_key@,
            server: self.server@,
            location: self.location@,
            tsv_out: self.tsv_out,
        }
    }
}

/// Why there are no settings.
#[derive(Debug, Clone, Copy, PartialEq, Eq)]
pub enum ConfigError {
    /// Nothing says whether the log is to be written.
    MissingTsvOut,
}

/// A value that is set, or the one that stands in for it.
pub open spec fn set_or(value: Option<String>, fallback: Seq<char>) -> Seq<char> {
    match value {
        Some(s) => s@,
        None => fallback,
    }
}

/// The settings that a set of values stands for, where `flag` is what is
/// set for the log: it is written exactly when the flag reads `1`.
pub open spec fn settings_of(
    api_key: Option<String>,
    server: Option<String>,
    location: Option<String>,
    flag: Seq<char>,
) -> SettingsView {
    SettingsView {
        api_key: set_or(api_key, DEFAULT_API_KEY@),
        server: set_or(server, DEFAULT_SERVER@),
        location: set_or(location, DEFAULT_LOCATION@),
        tsv_out: flag == "1"@,
    }
}

fn value_or(value: Option<String>, fallback: &str) -> (r: String)
    ensures
        r@ == set_or(value, fallback@),
{
    match value {
        Some(s) => s,
        None => String::from_str(fallback),
    }
}

/// Whether the log is to be written, by what is set for it.
pub fn reads_on(flag: &str) -> (on: bool)
    ensures
        on == (flag@ == "1"@),
{
    let given = String::from_str(flag);
    let one = String::from_str("1");
    given == one
}

impl Settings {
    /// The settings for the values found at startup, each `None` where it is
    /// not set. Key, address and city have defaults; the flag of the log has
    /// none.
    pub fn resolve(
        api_key: Option<String>,
        server: Option<String>,
        location: Option<String>,
        tsv_out: Option<String>,
    ) -> (r: Result<Settings, ConfigError>)
        ensures
            match r {
                Ok(settings) => tsv_out matches Some(flag) && settings@ == settings_of(
                    api_key,
                    server,
                    location,
                    flag@,
                ),
                Err(fault) => tsv_out is None && fault == ConfigError::MissingTsvOut,
            },
    {
        match tsv_out {
            None => Err(ConfigError::MissingTsvOut),
            Some(flag) => Ok(
                Settings {
                    api_key: value_or(api_key, DEFAULT_API_KEY),
                    server: value_or(server, DEFAULT_SERVER),
                    location: value_or(location, DEFAULT_LOCATION),
                    tsv_out: reads_on(flag.as_str()),
                },
            ),
        }
    }
}

/// Names and values, each by its view.
pub open spec fn pairs_of(pairs: Seq<(String, String)>) -> Seq<(Seq<char>, Seq<char>)> {
    pairs.map_values(|p: (String, String)| (p.0@, p.1@))
}

/// The query of a request: the city, metric units, Japanese, and the key.
pub open spec fn query_of(settings: SettingsView) -> Seq<(Seq<char>, Seq<char>)> {
    seq![
        ("q"@, settings.location),
        ("units"@, "metric"@),
        ("lang"@, "ja"@),
        ("appid"@, settings.api_key),
    ]
}

/// The query parameters of the request that one cycle sends.
pub fn query_parameters(settings: &Settings) -> (pairs: Vec<(String, String)>)
    ensures
        pairs_of(pairs@) == query_of(settings@),
{
    let mut pairs: Vec<(String, String)> = Vec::new();
    pairs.push((String::from_str("q"), settings.location.clone()));
    pairs.push((String::from_str("units"), String::from_str("metric")));
    pairs.push((String::from_str("lang"), String::from_str("ja")));
    pairs.push((String::from_str("appid"), settings.api_key.clone()));
    assert(pairs_of(pairs@) =~= query_of(settings@));
    pairs
}

/// Where the picture of an icon lies; no picture for the empty name.
pub open spec fn icon_path_of(icon: Seq<char>) -> Option<Seq<char>> {
    if icon.len() == 0 {
        None
    } else {
        Some("./assets/"@ + icon + ".png"@)
    }
}

/// Where the picture of an icon lies, `None` where there is no icon to show.
pub fn icon_path(icon: &str) -> (path: Option<String>)
    ensures
        match path {
            Some(p) => icon_path_of(icon@) == Some(p@),
            None => icon_path_of(icon@) is None,
        },
{
    if icon.is_empty() {
        None
    } else {
        let mut path = String::from_str("./assets/");
        path.append(icon);
        path.append(".png");
        Some(path)
    }
}

/// The file that a record is logged to, for the stamp of the moment.
pub open spec fn log_path_of(stamp: Seq<char>) -> Seq<char> {
    "./weatherlog/"@ + stamp + ".tsv"@
}

/// The file that a record is logged to. `stamp` is the local date and time
/// of the moment of writing.
pub fn log_path(stamp: &str) -> (path: String)
    ensures
        path@ == log_path_of(stamp@),
{
    let mut path = String::from_str("./weatherlog/");
    path.append(stamp);
    path.append(".tsv");
    path
}

/// What is left to do in a cycle once its payload is read.
#[derive(Debug, Clone, PartialEq, Eq)]
pub struct CycleOutput {
    /// The record of the cycle.
    pub record: OpenWeaterToTsv,
    /// The picture to show, if there is one.
    pub icon_path: Option<String>,
    /// Whether the record is written to the log.
    pub write_log: bool,
}

pub struct CycleView {
    pub record: RecordView,
    pub icon_path: Option<Seq<char>>,
    pub write_log: bool,
}

impl View for CycleOutput {
    type V = CycleView;

    open spec fn view(&self) -> CycleView {
        CycleView {
            record: self.record@,
            icon_path: match self.icon_path {
                Some(p) => Some(p@),
                None => None,
            },
            write_log: self.write_log,
        }
    }
}

/// What is left to do for a record.
pub open spec fn output_of(record: RecordView, write_log: bool) -> CycleView {
    CycleView { record, icon_path: icon_path_of(record.icon), write_log }
}

impl CycleOutput {
    /// What is left to do for a record: show its icon if it names one,
    /// write it if the log is on.
    pub fn of_record(record: OpenWeaterToTsv, write_log: bool) -> (output: CycleOutput)
        ensures
            output@ == output_of(record@, write_log),
    {
        let icon_path = icon_path(record.icon.as_str());
        CycleOutput { record, icon_path, write_log }
    }
}

/// Why a cycle ends without a record. Either way nothing is shown and
/// nothing is written.
#[derive(Debug, Clone, PartialEq, Eq)]
pub enum CycleError {
    /// The body is not JSON; the message says where it goes wrong.
    Malformed(String),
    /// The payload gives no record.
    Extract(ExtractError),
}

/// What a cycle comes to for a payload, under the local offsets `up` at
/// sunrise and `down` at sunset.
pub open spec fn cycle_of(root: Node, write_log: bool, up: Option<i32>, down: Option<i32>) -> Result<
    CycleView,
    ExtractError,
> {
    match record_of(response_of(root), up, down) {
        Ok(record) => Ok(output_of(record, write_log)),
        Err(fault) => Err(fault),
    }
}

/// Whether `up` and `down` can be the local offsets at the sunrise and the
/// sunset that a payload reports.
pub open spec fn shifts_allowed(root: Node, up: Option<i32>, down: Option<i32>) -> bool {
    shift_allowed(response_of(root).sys.sunrise, up) && shift_allowed(
        response_of(root).sys.sunset,
        down,
    )
}

/// Whether the outcome of a cycle on a payload is the expected one.
pub open spec fn cycle_agrees(
    outcome: Result<CycleOutput, CycleError>,
    expected: Result<CycleView, ExtractError>,
) -> bool {
    match outcome {
        Ok(output) => expected == Ok::<CycleView, ExtractError>(output@),
        Err(CycleError::Extract(fault)) => expected == Err::<CycleView, ExtractError>(fault),
        Err(CycleError::Malformed(_)) => false,
    }
}

/// What a cycle does with a payload: the record, with its icon and whether
/// it is written, or the fault that ends the cycle.
pub fn plan_cycle(doc: &serde_json::Value, write_log: bool) -> (r: Result<
    CycleOutput,
    CycleError,
>)
    ensures
        exists|up: Option<i32>, down: Option<i32>|
            shifts_allowed(node_of(*doc), up, down) && #[trigger] cycle_agrees(
                r,
                cycle_of(node_of(*doc), write_log, up, down),
            ),
{
    let extracted = extract(doc);
    let ghost (up, down) = choose|up: Option<i32>, down: Option<i32>|
        shifts_allowed(node_of(*doc), up, down) && #[trigger] agrees(
            extracted,
            record_of(response_of(node_of(*doc)), up, down),
        );
    let r = match extracted {
        Ok(record) => Ok(CycleOutput::of_record(record, write_log)),
        Err(fault) => Err(CycleError::Extract(fault)),
    };
    assert(shifts_allowed(node_of(*doc), up, down) && cycle_agrees(
        r,
        cycle_of(node_of(*doc), write_log, up, down),
    ));
    r
}

/// What a cycle does with the body of an answer. A body that is not JSON
/// ends the cycle as malformed; any other is planned as its payload is.
pub fn run_cycle(body: &str, write_log: bool) -> (r: Result<CycleOutput, CycleError>)
    ensures
        match parse_outcome(body@) {
            None => r matches Err(CycleError::Malformed(_)),
            Some(root) => exists|up: Option<i32>, down: Option<i32>|
                shifts_allowed(root, up, down) && #[trigger] cycle_agrees(
                    r,
                    cycle_of(root, write_log, up, down),
                ),
        },
{
    match parse_text(body) {
        Err(fault) => Err(CycleError::Malformed(fault_message(&fault))),
        Ok(doc) => plan_cycle(&doc, write_log),
    }
}

/// Whether a payload carries the integer `code` as its status code.
pub open spec fn has_status(root: Node, code: i64) -> bool {
    child(root, "cod"@) matches Some(node) && int_of(node) == Some(code)
}

/// A payload whose status code is an integer other than 200 ends the cycle
/// with that status: there is no record to show or to write.
pub proof fn bad_status_ends_cycle(
    root: Node,
    code: i64,
    write_log: bool,
    up: Option<i32>,
    down: Option<i32>,
)
    requires
        has_status(root, code),
        code != 200,
    ensures
        cycle_of(root, write_log, up, down) == Err::<CycleView, ExtractError>(
            ExtractError::Status(code),
        ),
{
}

} // verus!
