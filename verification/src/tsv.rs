//! The log: one record as a table of tab-separated values, a line of
//! column names above a line of values.

use crate::api::{OpenWeaterToTsv, RecordView};
use crate::numeral::{int_text, whole_text};
use vstd::prelude::*;

verus! {

/// The line that `csv` writes for one record of the given fields where the
/// delimiter is a tab, `None` where it writes none.
pub uninterp spec fn tsv_line_of(fields: Seq<Seq<char>>) -> Option<Seq<char>>;

/// Fields, each by its view.
pub open spec fn fields_of(fields: Seq<String>) -> Seq<Seq<char>> {
    fields.map_values(|f: String| f@)
}

/// `csv::Writer::write_record` on a writer that `csv::WriterBuilder` made with
/// the tab as delimiter, then `csv::Writer::into_inner`: the text of one
/// record, its fields quoted where `csv` finds it necessary, with the line
/// end after it. The text depends on the fields alone.
#[verifier::external_body]
pub(crate) fn tsv_line(fields: &Vec<String>) -> (line: Option<String>)
    ensures
        match line {
            Some(text) => tsv_line_of(fields_of(fields@)) == Some(text@),
            None => tsv_line_of(fields_of(fields@)) is None,
        },
{
    let mut writer = csv::WriterBuilder::new().delimiter(b'\t').from_writer(Vec::new());
    writer.write_record(fields).ok()?;
    let bytes = writer.into_inner().ok()?;
    String::from_utf8(bytes).ok()
}

/// The names of the columns, in the order of the record's fields.
pub open spec fn columns() -> Seq<Seq<char>> {
    seq![
        "lon"@,
        "lat"@,
        "weather_to_id"@,
        "weather_to_main"@,
        "description"@,
        "icon"@,
        "base"@,
        "temp"@,
        "feels_like"@,
        "temp_min"@,
        "temp_max"@,
        "pressure"@,
        "sea_level"@,
        "grnd_level"@,
        "humidity"@,
        "visibility"@,
        "speed"@,
        "deg"@,
        "gust"@,
        "all"@,
        "rain_1h"@,
        "rain_3h"@,
        "snow_h1"@,
        "snow_h3"@,
        "dt"@,
        "type"@,
        "sys_to_id"@,
        "message"@,
        "country"@,
        "sunrise"@,
        "sunset"@,
        "timezone"@,
        "id"@,
        "name"@,
        "cod"@,
    ]
}

/// The values of a record as text, in the order of its fields: a whole
/// number in decimal, a quantity as it is kept, a text as it is.
pub open spec fn cells_of(r: RecordView) -> Seq<Seq<char>> {
    seq![
        r.lon,
        r.lat,
        int_text(r.weather_to_id as int),
        r.weather_to_main,
        r.description,
        r.icon,
        r.base,
        r.temp,
        r.feels_like,
        r.temp_min,
        r.temp_max,
        int_text(r.pressure as int),
        int_text(r.sea_level as int),
        int_text(r.grnd_level as int),
        int_text(r.humidity as int),
        int_text(r.visibility as int),
        r.speed,
        int_text(r.deg as int),
        r.gust,
        int_text(r.all as int),
        r.rain_1h,
        r.rain_3h,
        r.snow_h1,
        r.snow_h3,
        int_text(r.dt as int),
        int_text(r.sys_type as int),
        int_text(r.sys_to_id as int),
        r.message,
        r.country,
        r.sunrise,
        r.sunset,
        int_text(r.timezone as int),
        int_text(r.id as int),
        r.name,
        int_text(r.cod as int),
    ]
}

/// The names of the columns.
pub fn column_names() -> (names: Vec<String>)
    ensures
        fields_of(names@) == columns(),
{
    let mut names: Vec<String> = Vec::new();
    names.push(String::from_str("lon"));
    names.push(String::from_str("lat"));
    names.push(String::from_str("weather_to_id"));
    names.push(String::from_str("weather_to_main"));
    names.push(String::from_str("description"));
    names.push(String::from_str("icon"));
    names.push(String::from_str("base"));
    names.push(String::from_str("temp"));
    names.push(String::from_str("feels_like"));
    names.push(String::from_str("temp_min"));
    names.push(String::from_str("temp_max"));
    names.push(String::from_str("pressure"));
    names.push(String::from_str("sea_level"));
    names.push(String::from_str("grnd_level"));
    names.push(String::from_str("humidity"));
    names.push(String::from_str("visibility"));
    names.push(String::from_str("speed"));
    names.push(String::from_str("deg"));
    names.push(String::from_str("gust"));
    names.push(String::from_str("all"));
    names.push(String::from_str("rain_1h"));
    names.push(String::from_str("rain_3h"));
    names.push(String::from_str("snow_h1"));
    names.push(String::from_str("snow_h3"));
    names.push(String::from_str("dt"));
    names.push(String::from_str("type"));
    names.push(String::from_str("sys_to_id"));
    names.push(String::from_str("message"));
    names.push(String::from_str("country"));
    names.push(String::from_str("sunrise"));
    names.push(String::from_str("sunset"));
    names.push(String::from_str("timezone"));
    names.push(String::from_str("id"));
    names.push(String::from_str("name"));
    names.push(String::from_str("cod"));
    assert(fields_of(names@) =~= columns());
    names
}

impl OpenWeaterToTsv {
    /// The values of the record as text, column by column.
    pub fn cells(&self) -> (cells: Vec<String>)
        ensures
            fields_of(cells@) == cells_of(self@),
    {
        let mut cells: Vec<String> = Vec::new();
        cells.push(self.lon.text.clone());
        cells.push(self.lat.text.clone());
        cells.push(whole_text(self.weather_to_id));
        cells.push(self.weather_to_main.clone());
        cells.push(self.description.clone());
        cells.push(self.icon.clone());
        cells.push(self.base.clone());
        cells.push(self.temp.text.clone());
        cells.push(self.feels_like.text.clone());
        cells.push(self.temp_min.text.clone());
        cells.push(self.temp_max.text.clone());
        cells.push(whole_text(self.pressure));
        cells.push(whole_text(self.sea_level));
        cells.push(whole_text(self.grnd_level));
        cells.push(whole_text(self.humidity));
        cells.push(whole_text(self.visibility));
        cells.push(self.speed.text.clone());
        cells.push(whole_text(self.deg));
        cells.push(self.gust.text.clone());
        cells.push(whole_text(self.all));
        cells.push(self.rain_1h.text.clone());
        cells.push(self.rain_3h.text.clone());
        cells.push(self.snow_h1.text.clone());
        cells.push(self.snow_h3.text.clone());
        cells.push(whole_text(self.dt));
        cells.push(whole_text(self.sys_type));
        cells.push(whole_text(self.sys_to_id));
        cells.push(self.message.text.clone());
        cells.push(self.country.clone());
        cells.push(self.sunrise.clone());
        cells.push(self.sunset.clone());
        cells.push(whole_text(self.timezone));
        cells.push(whole_text(self.id));
        cells.push(self.name.clone());
        cells.push(whole_text(self.cod));
        assert(fields_of(cells@) =~= cells_of(self@));
        cells
    }
}

/// The table of a record from its two lines: the names, then the values.
pub open spec fn table_of(names: Option<Seq<char>>, values: Option<Seq<char>>) -> Option<
    Seq<char>,
> {
    match (names, values) {
        (Some(head), Some(row)) => Some(head + row),
        _ => None,
    }
}

/// The log file of a record: the line of the column names and the line of
/// the record's values, as `csv` writes them with tabs between the fields.
/// `None` where `csv` writes no line for one of them.
pub fn to_tsv(record: &OpenWeaterToTsv) -> (table: Option<String>)
    ensures
        match table {
            Some(text) => table_of(tsv_line_of(columns()), tsv_line_of(cells_of(record@)))
                == Some(text@),
            None => table_of(tsv_line_of(columns()), tsv_line_of(cells_of(record@))) is None,
        },
{
    let names = column_names();
    let cells = record.cells();
    match (tsv_line(&names), tsv_line(&cells)) {
        (Some(head), Some(row)) => Some(head.concat(row.as_str())),
        _ => None,
    }
}

} // verus!
