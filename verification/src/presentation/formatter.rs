//! The weather report as the message that is sent: a header, the current
//! conditions, the day's summary, and the hourly forecast as a table.

use crate::domain::weather::hourly_views;
use crate::domain::{
    CurrentWeather, CurrentWeatherView, DailyForecast, DailyForecastView, HourlyForecast,
    HourlyForecastView, WeatherReport, WeatherReportView,
};
use crate::numeric::{push_signed_decimal, signed_decimal, signed_decimal_text};
use crate::text::{
    contains, lemma_contains_in_back, lemma_contains_in_front, lemma_contains_piece,
    lemma_contains_self, pad_left, pad_right, padded_left, padded_right, repeat, repeated,
};
use vstd::utf8::encode_utf8;
use vstd::prelude::*;
use vstd::string::StringExecFns;

verus! {

/// The width of the column that holds the hour.
pub const HOUR_WIDTH: usize = 7;

/// The width of the columns that hold the temperature and the chance of rain.
pub const NUMBER_WIDTH: usize = 4;

/// How many dashes the line under the table's header row has.
pub const SEPARATOR_WIDTH: usize = 50;

/// The header line, and the empty line after it.
pub open spec fn header_text(location: Seq<char>, date: Seq<char>) -> Seq<char> {
    "# :sunny: Weather "@ + location + " — "@ + date + "\n\n"@
}

/// The paragraph on the current conditions.
pub open spec fn current_text(current: CurrentWeatherView) -> Seq<char> {
    "## Currently\n**"@ + current.description + "** | **"@ + signed_decimal(
        current.temperature.celsius,
    ) + "°C** (ressenti "@ + signed_decimal(current.temperature.feels_like)
        + "°C)\nHumidité : "@ + signed_decimal(current.humidity) + "% · Vent : "@
        + signed_decimal(current.wind.speed_kmh) + " km/h "@ + current.wind.direction
        + "\nPrécipitations : "@ + current.precipitation_mm + " mm · UV : "@
        + signed_decimal(current.uv_index) + " · Pression : "@ + signed_decimal(
        current.pressure_hpa,
    ) + " hPa · Visibilité : "@ + signed_decimal(current.visibility_km) + " km\n\n"@
}

/// The paragraph on the day as a whole.
pub open spec fn daily_text(daily: DailyForecastView) -> Seq<char> {
    "## Day\n:arrow_down: **"@ + signed_decimal(daily.temp_min) + "°C** — :arrow_up: **"@
        + signed_decimal(daily.temp_max) + "°C** (moy. "@ + signed_decimal(daily.temp_avg)
        + "°C)\n:sunrise: "@ + daily.astronomy.sunrise + " · :city_sunset: "@
        + daily.astronomy.sunset + " · :crescent_moon: "@ + daily.astronomy.moon_phase
        + "\n\n"@
}

/// The line of dashes under the table's header row.
pub open spec fn separator_text() -> Seq<char> {
    repeated("-"@, SEPARATOR_WIDTH as nat)
}

/// What stands above the table's separator: the section's heading, the
/// opening of the code block, and the header row.
pub open spec fn table_top_text() -> Seq<char> {
    "## Hourly forecast\n```\n"@ + "Hour | Temp | Rain | Conditions\n"@
}

/// One row of the table: the hour left-aligned in its column, temperature
/// and chance of rain right-aligned in theirs, then the description.
pub open spec fn row_text(entry: HourlyForecastView) -> Seq<char> {
    pad_right(entry.hour, HOUR_WIDTH as nat) + " "@ + pad_left(
        signed_decimal(entry.temperature),
        NUMBER_WIDTH as nat,
    ) + "°C  "@ + pad_left(signed_decimal(entry.chance_of_rain), NUMBER_WIDTH as nat) + "%   "@
        + entry.description + "\n"@
}

/// The rows of the table, one for each entry, in the entries' order.
pub open spec fn rows_text(hourly: Seq<HourlyForecastView>) -> Seq<char>
    decreases hourly.len(),
{
    if hourly.len() == 0 {
        Seq::empty()
    } else {
        rows_text(hourly.drop_last()) + row_text(hourly.last())
    }
}

/// The whole message: header, current conditions, the day, and the table
/// inside its code block.
pub open spec fn report_text(report: WeatherReportView) -> Seq<char> {
    header_text(report.location, report.date) + current_text(report.current) + daily_text(
        report.daily,
    ) + table_top_text() + separator_text() + "\n"@ + rows_text(report.hourly) + "```"@
}

/// The header line for `location` and `date`, and the empty line after it.
fn header(location: &str, date: &str) -> (r: String)
    ensures
        r@ == header_text(location@, date@),
{
    let mut out = String::from_str("# :sunny: Weather ");
    out.append(location);
    out.append(" — ");
    out.append(date);
    out.append("\n\n");
    out
}

/// The paragraph on the current conditions.
fn current_block(current: &CurrentWeather) -> (r: String)
    ensures
        r@ == current_text(current@),
{
    let mut out = String::from_str("## Currently\n**");
    out.append(current.description.as_str());
    out.append("** | **");
    push_signed_decimal(&mut out, current.temperature.celsius as i64);
    out.append("°C** (ressenti ");
    push_signed_decimal(&mut out, current.temperature.feels_like as i64);
    out.append("°C)\nHumidité : ");
    push_signed_decimal(&mut out, current.humidity as i64);
    out.append("% · Vent : ");
    push_signed_decimal(&mut out, current.wind.speed_kmh as i64);
    out.append(" km/h ");
    out.append(current.wind.direction.as_str());
    out.append("\nPrécipitations : ");
    out.append(current.precipitation_mm.text.as_str());
    out.append(" mm · UV : ");
    push_signed_decimal(&mut out, current.uv_index as i64);
    out.append(" · Pression : ");
    push_signed_decimal(&mut out, current.pressure_hpa as i64);
    out.append(" hPa · Visibilité : ");
    push_signed_decimal(&mut out, current.visibility_km as i64);
    out.append(" km\n\n");
    out
}

/// The paragraph on the day as a whole.
fn daily_block(daily: &DailyForecast) -> (r: String)
    ensures
        r@ == daily_text(daily@),
{
    let mut out = String::from_str("## Day\n:arrow_down: **");
    push_signed_decimal(&mut out, daily.temp_min as i64);
    out.append("°C** — :arrow_up: **");
    push_signed_decimal(&mut out, daily.temp_max as i64);
    out.append("°C** (moy. ");
    push_signed_decimal(&mut out, daily.temp_avg as i64);
    out.append("°C)\n:sunrise: ");
    out.append(daily.astronomy.sunrise.as_str());
    out.append(" · :city_sunset: ");
    out.append(daily.astronomy.sunset.as_str());
    out.append(" · :crescent_moon: ");
    out.append(daily.astronomy.moon_phase.as_str());
    out.append("\n\n");
    out
}

/// The table's row for `entry`.
fn row(entry: &HourlyForecast) -> (r: String)
    ensures
        r@ == row_text(entry@),
{
    let temperature = signed_decimal_text(entry.temperature as i64);
    let rain = signed_decimal_text(entry.chance_of_rain as i64);
    let temperature_cell = padded_left(temperature.as_str(), NUMBER_WIDTH);
    let rain_cell = padded_left(rain.as_str(), NUMBER_WIDTH);
    let mut out = padded_right(entry.hour.as_str(), HOUR_WIDTH);
    out.append(" ");
    out.append(temperature_cell.as_str());
    out.append("°C  ");
    out.append(rain_cell.as_str());
    out.append("%   ");
    out.append(entry.description.as_str());
    out.append("\n");
    out
}

/// The table's rows for `hourly`, in its order.
fn rows(hourly: &Vec<HourlyForecast>) -> (r: String)
    ensures
        r@ == rows_text(hourly_views(hourly@)),
{
    let ghost views = hourly_views(hourly@);
    let mut out = String::new();
    let mut at: usize = 0;
    proof {
        assert(views.take(0) =~= Seq::<HourlyForecastView>::empty());
    }
    while at < hourly.len()
        invariant
            at <= hourly.len(),
            views == hourly_views(hourly@),
            out@ == rows_text(views.take(at as int)),
        decreases hourly.len() - at,
    {
        let line = row(&hourly[at]);
        out.append(line.as_str());
        proof {
            let longer = views.take(at + 1);
            assert(longer.drop_last() =~= views.take(at as int));
            assert(longer.last() == hourly@[at as int]@);
        }
        at = at + 1;
    }
    proof {
        assert(views.take(at as int) =~= views);
    }
    out
}

/// Formats a weather report into a Discord-friendly message.
pub fn format_weather_report(report: &WeatherReport) -> (r: String)
    ensures
        r@ == report_text(report@),
{
    let current = current_block(&report.current);
    let daily = daily_block(&report.daily);
    let separator = repeat("-", SEPARATOR_WIDTH);
    let table = rows(&report.hourly);
    let mut msg = header(report.location.as_str(), report.date.as_str());
    msg.append(current.as_str());
    msg.append(daily.as_str());
    msg.append("## Hourly forecast\n```\n");
    msg.append("Hour | Temp | Rain | Conditions\n");
    proof {
        let before = header_text(report@.location, report@.date) + current_text(report@.current)
            + daily_text(report@.daily);
        assert(before + "## Hourly forecast\n```\n"@ + "Hour | Temp | Rain | Conditions\n"@
            =~= before + table_top_text());
    }
    msg.append(separator.as_str());
    msg.append("\n");
    msg.append(table.as_str());
    msg.append("```");
    msg
}

/// Where the separator line begins in the text of `report`.
pub open spec fn separator_start(report: WeatherReportView) -> int {
    (header_text(report.location, report.date) + current_text(report.current) + daily_text(
        report.daily,
    ) + table_top_text()).len() as int
}

/// A character written `count` times is that many characters, each of them that one.
pub proof fn lemma_repeated_char(c: char, count: nat)
    ensures
        repeated(seq![c], count).len() == count,
        forall|i: int| 0 <= i < count ==> repeated(seq![c], count)[i] == c,
    decreases count,
{
    if count > 0 {
        lemma_repeated_char(c, (count - 1) as nat);
    }
}

/// The rows of a table hold the description of each entry.
pub proof fn lemma_rows_hold_descriptions(hourly: Seq<HourlyForecastView>, i: int)
    requires
        0 <= i < hourly.len(),
    ensures
        contains(rows_text(hourly), hourly[i].description),
    decreases hourly.len(),
{
    let front = rows_text(hourly.drop_last());
    let entry = hourly.last();
    if i == hourly.len() - 1 {
        let cells = pad_right(entry.hour, HOUR_WIDTH as nat) + " "@ + pad_left(
            signed_decimal(entry.temperature),
            NUMBER_WIDTH as nat,
        ) + "°C  "@ + pad_left(signed_decimal(entry.chance_of_rain), NUMBER_WIDTH as nat)
            + "%   "@;
        lemma_contains_piece(cells, entry.description, "\n"@);
        lemma_contains_in_back(front, row_text(entry), entry.description);
    } else {
        lemma_rows_hold_descriptions(hourly.drop_last(), i);
        lemma_contains_in_front(front, row_text(entry), hourly[i].description);
    }
}

/// The header line holds the location.
proof fn lemma_header_holds_location(location: Seq<char>, date: Seq<char>)
    ensures
        contains(header_text(location, date), location),
{
    let start = "# :sunny: Weather "@;
    lemma_contains_self(location);
    lemma_contains_in_back(start, location, location);
    lemma_contains_in_front(start + location, " — "@, location);
    lemma_contains_in_front(start + location + " — "@, date, location);
    lemma_contains_in_front(start + location + " — "@ + date, "\n\n"@, location);
}

/// The paragraph on the day holds sunrise and sunset.
proof fn lemma_daily_holds_sun(daily: DailyForecastView)
    ensures
        contains(daily_text(daily), daily.astronomy.sunrise),
        contains(daily_text(daily), daily.astronomy.sunset),
{
    let sunrise = daily.astronomy.sunrise;
    let sunset = daily.astronomy.sunset;
    let upto_sunrise = "## Day\n:arrow_down: **"@ + signed_decimal(daily.temp_min)
        + "°C** — :arrow_up: **"@ + signed_decimal(daily.temp_max) + "°C** (moy. "@
        + signed_decimal(daily.temp_avg) + "°C)\n:sunrise: "@;
    let upto_sunset = upto_sunrise + sunrise + " · :city_sunset: "@;
    let upto_moon = upto_sunset + sunset + " · :crescent_moon: "@;
    lemma_contains_self(sunrise);
    lemma_contains_in_back(upto_sunrise, sunrise, sunrise);
    lemma_contains_in_front(upto_sunrise + sunrise, " · :city_sunset: "@, sunrise);
    lemma_contains_in_front(upto_sunset, sunset, sunrise);
    lemma_contains_self(sunset);
    lemma_contains_in_back(upto_sunset, sunset, sunset);
    lemma_contains_in_front(upto_sunset + sunset, " · :crescent_moon: "@, sunrise);
    lemma_contains_in_front(upto_sunset + sunset, " · :crescent_moon: "@, sunset);
    lemma_contains_in_front(upto_moon, daily.astronomy.moon_phase, sunrise);
    lemma_contains_in_front(upto_moon, daily.astronomy.moon_phase, sunset);
    lemma_contains_in_front(upto_moon + daily.astronomy.moon_phase, "\n\n"@, sunrise);
    lemma_contains_in_front(upto_moon + daily.astronomy.moon_phase, "\n\n"@, sunset);
}

/// What occurs in one of the message's sections occurs in the message.
proof fn lemma_section_in_message(
    header: Seq<char>,
    current: Seq<char>,
    daily: Seq<char>,
    table_top: Seq<char>,
    separator: Seq<char>,
    rows: Seq<char>,
    needle: Seq<char>,
)
    requires
        contains(header, needle) || contains(daily, needle) || contains(rows, needle),
    ensures
        contains(
            header + current + daily + table_top + separator + "\n"@ + rows + "```"@,
            needle,
        ),
{
    let upto_daily = header + current;
    let upto_rows = upto_daily + daily + table_top + separator + "\n"@;
    if contains(header, needle) {
        lemma_contains_in_front(header, current, needle);
        lemma_contains_in_front(upto_daily, daily, needle);
    } else if contains(daily, needle) {
        lemma_contains_in_back(upto_daily, daily, needle);
    }
    if contains(header, needle) || contains(daily, needle) {
        lemma_contains_in_front(upto_daily + daily, table_top, needle);
        lemma_contains_in_front(upto_daily + daily + table_top, separator, needle);
        lemma_contains_in_front(upto_daily + daily + table_top + separator, "\n"@, needle);
        lemma_contains_in_front(upto_rows, rows, needle);
    } else {
        lemma_contains_in_back(upto_rows, rows, needle);
    }
    lemma_contains_in_front(upto_rows + rows, "```"@, needle);
}

/// The message of a report holds the report's location, its sunrise and its
/// sunset, and the description of each hourly entry, each of them character
/// for character as the report has it.
pub proof fn report_text_holds_its_parts(report: WeatherReportView)
    ensures
        contains(report_text(report), report.location),
        contains(report_text(report), report.daily.astronomy.sunrise),
        contains(report_text(report), report.daily.astronomy.sunset),
        forall|i: int|
            0 <= i < report.hourly.len() ==> contains(
                report_text(report),
                (#[trigger] report.hourly[i]).description,
            ),
{
    let header = header_text(report.location, report.date);
    let current = current_text(report.current);
    let daily = daily_text(report.daily);
    let rows = rows_text(report.hourly);
    lemma_header_holds_location(report.location, report.date);
    lemma_daily_holds_sun(report.daily);
    lemma_section_in_message(
        header,
        current,
        daily,
        table_top_text(),
        separator_text(),
        rows,
        report.location,
    );
    lemma_section_in_message(
        header,
        current,
        daily,
        table_top_text(),
        separator_text(),
        rows,
        report.daily.astronomy.sunrise,
    );
    lemma_section_in_message(
        header,
        current,
        daily,
        table_top_text(),
        separator_text(),
        rows,
        report.daily.astronomy.sunset,
    );
    assert forall|i: int| 0 <= i < report.hourly.len() implies contains(
        report_text(report),
        (#[trigger] report.hourly[i]).description,
    ) by {
        lemma_rows_hold_descriptions(report.hourly, i);
        lemma_section_in_message(
            header,
            current,
            daily,
            table_top_text(),
            separator_text(),
            rows,
            report.hourly[i].description,
        );
    }
}

/// Under the table's header row the message of a report has a line of its
/// own that is fifty dashes and nothing else, however many rows follow it,
/// and also where none does.
pub proof fn separator_is_fifty_dashes(report: WeatherReportView)
    ensures
        ({
            let out = report_text(report);
            let start = separator_start(report);
            &&& 0 < start
            &&& start + 50 < out.len()
            &&& out[start - 1] == '\n'
            &&& forall|i: int| start <= i < start + 50 ==> out[i] == '-'
            &&& out[start + 50] == '\n'
        }),
{
    let out = report_text(report);
    let before = header_text(report.location, report.date) + current_text(report.current)
        + daily_text(report.daily) + table_top_text();
    let after = rows_text(report.hourly) + "```"@;
    reveal_strlit("Hour | Temp | Rain | Conditions\n");
    reveal_strlit("-");
    reveal_strlit("\n");
    assert("-"@ =~= seq!['-']);
    lemma_repeated_char('-', 50);
    assert(table_top_text().last() == '\n');
    assert(before.last() == '\n');
    assert(out =~= before + separator_text() + "\n"@ + after);
}

/// Formatting is a function of the report alone: two messages that are each
/// the text of the same report are the same characters, and so the same bytes.
pub proof fn formatting_is_deterministic(report: WeatherReportView, first: String, second: String)
    requires
        first@ == report_text(report),
        second@ == report_text(report),
    ensures
        first@ == second@,
        encode_utf8(first@) == encode_utf8(second@),
{
}

} // verus!
