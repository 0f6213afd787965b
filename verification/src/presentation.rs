//! What the screen shows, computed as plain values: the table and detail
//! texts, the month grid of the date picker, which form field is active and
//! where popups go. Drawing them is left to the front end.
use crate::calendar::{
    day_number, first_day_number, last_day_number, CalendarDate, DateTime, MAX_SPAN_SECONDS,
};
use crate::models::{Application, ApplicationView};
use crate::state::AppMode;
use chrono::{Datelike, NaiveDate, NaiveTime, TimeDelta};
use ratatui::layout::{Constraint, Direction, Layout, Rect};
use vstd::prelude::*;

verus! {

/// A rectangle of terminal cells.
#[derive(Clone, Copy, Debug, PartialEq, Eq, Structural)]
pub struct Area {
    pub x: u16,
    pub y: u16,
    pub width: u16,
    pub height: u16,
}

/// The direction in which an area is cut into parts.
#[derive(Clone, Copy, Debug, PartialEq, Eq, Structural)]
pub enum Axis {
    Horizontal,
    Vertical,
}

/// One day of the date picker's month grid.
#[derive(Clone, Copy, Debug, PartialEq, Eq, Structural)]
pub struct CalendarCell {
    /// The day of the month.
    pub day: u32,
    /// The day lies in the month being shown.
    pub in_month: bool,
    /// The day is the picked one.
    pub is_selected: bool,
}

/// The number of days the month grid shows: six weeks.
pub const GRID_DAYS: usize = 42;

/// What `ratatui::layout::Layout::split` returns for `area` cut along `axis`
/// with one `Constraint::Percentage` per entry of `percentages`, where the
/// percentages add up to at most 100.
pub uninterp spec fn ratatui_split_percentages(area: Area, axis: Axis, percentages: Seq<u16>) -> Seq<Area>;

/// The sum of a list of percentages.
pub open spec fn percent_total(percentages: Seq<u16>) -> int
    decreases percentages.len(),
{
    if percentages.len() == 0 {
        0
    } else {
        percent_total(percentages.drop_last()) + percentages.last()
    }
}

/// `part` lies inside `area`: along `axis` between its two edges, across it
/// with the same position and extent.
pub open spec fn part_within(part: Area, area: Area, axis: Axis) -> bool {
    match axis {
        Axis::Vertical => {
            &&& part.x == area.x
            &&& part.width == area.width
            &&& area.y <= part.y
            &&& part.y + part.height <= area.y + area.height
        },
        Axis::Horizontal => {
            &&& part.y == area.y
            &&& part.height == area.height
            &&& area.x <= part.x
            &&& part.x + part.width <= area.x + area.width
        },
    }
}

/// The character of a decimal digit.
pub open spec fn digit_char(d: int) -> char {
    (d + 48) as char
}

/// The decimal digits of a natural number, without leading zeros.
pub open spec fn decimal_digits(n: nat) -> Seq<char>
    decreases n,
{
    if n < 10 {
        seq![digit_char(n as int)]
    } else {
        decimal_digits(n / 10).push(digit_char((n % 10) as int))
    }
}

/// An integer written in decimal, with a minus sign when negative.
pub open spec fn decimal_text(n: int) -> Seq<char> {
    if n < 0 {
        seq!['-'] + decimal_digits((-n) as nat)
    } else {
        decimal_digits(n as nat)
    }
}

/// `s` with zeros in front up to `width` characters.
pub open spec fn zero_padded(s: Seq<char>, width: nat) -> Seq<char> {
    if s.len() >= width {
        s
    } else {
        Seq::new((width - s.len()) as nat, |i: int| '0') + s
    }
}

/// A year as `%Y` writes it: four digits at least, and a sign outside
/// 0 to 9999.
pub open spec fn year_text(year: int) -> Seq<char> {
    if 0 <= year < 10000 {
        zero_padded(decimal_digits(year as nat), 4)
    } else if year < 0 {
        seq!['-'] + zero_padded(decimal_digits((-year) as nat), 4)
    } else {
        seq!['+'] + zero_padded(decimal_digits(year as nat), 4)
    }
}

/// A number below 100 as two digits.
pub open spec fn two_digits(v: int) -> Seq<char> {
    seq![digit_char(v / 10), digit_char(v % 10)]
}

/// A date and time written as `%Y-%m-%d %H:%M`.
pub open spec fn minutes_text(dt: DateTime) -> Seq<char> {
    year_text(dt.date.spec_year() as int) + seq!['-'] + two_digits(dt.date.spec_month() as int)
        + seq!['-'] + two_digits(dt.date.spec_day() as int) + seq![' '] + two_digits(
        dt.time.spec_hour() as int,
    ) + seq![':'] + two_digits(dt.time.spec_minute() as int)
}

/// The English name of a month, as `%B` writes it.
pub open spec fn month_name(month: int) -> Seq<char> {
    if month == 1 {
        "January"@
    } else if month == 2 {
        "February"@
    } else if month == 3 {
        "March"@
    } else if month == 4 {
        "April"@
    } else if month == 5 {
        "May"@
    } else if month == 6 {
        "June"@
    } else if month == 7 {
        "July"@
    } else if month == 8 {
        "August"@
    } else if month == 9 {
        "September"@
    } else if month == 10 {
        "October"@
    } else if month == 11 {
        "November"@
    } else {
        "December"@
    }
}

/// The day of the week of `date`, Monday 0 to Sunday 6 (1970-01-01 was a
/// Thursday).
pub open spec fn weekday_number(date: CalendarDate) -> int {
    (day_number(date) + 3) % 7
}

/// The fraction of a second as RFC 3339 text: nothing for whole seconds,
/// else a dot and three, six or nine digits, the fewest that are exact.
pub open spec fn fraction_text(nano: int) -> Seq<char> {
    if nano == 0 {
        seq![]
    } else if nano % 1_000_000 == 0 {
        seq!['.'] + zero_padded(decimal_digits((nano / 1_000_000) as nat), 3)
    } else if nano % 1000 == 0 {
        seq!['.'] + zero_padded(decimal_digits((nano / 1000) as nat), 6)
    } else {
        seq!['.'] + zero_padded(decimal_digits(nano as nat), 9)
    }
}

/// A UTC date and time as RFC 3339 text, `YYYY-MM-DDTHH:MM:SS`, the
/// fraction of the second where there is one, and `+00:00`; a leap second
/// is written as second 60.
pub open spec fn rfc3339_text(dt: DateTime) -> Seq<char> {
    let nano = dt.time.spec_nanosecond() as int;
    let leap = nano >= 1_000_000_000;
    let second = if leap {
        dt.time.spec_second() + 1
    } else {
        dt.time.spec_second() as int
    };
    let fraction = if leap {
        nano - 1_000_000_000
    } else {
        nano
    };
    year_text(dt.date.spec_year() as int) + seq!['-'] + two_digits(dt.date.spec_month() as int)
        + seq!['-'] + two_digits(dt.date.spec_day() as int) + seq!['T'] + two_digits(
        dt.time.spec_hour() as int,
    ) + seq![':'] + two_digits(dt.time.spec_minute() as int) + seq![':'] + two_digits(second)
        + fraction_text(fraction) + "+00:00"@
}

/// `ratatui::layout::Layout::split` (default flex, no margin, no spacing)
/// with percentage constraints: named, as the constraint solver decides the
/// result. When the percentages add up to at most 100 every part gets its
/// share and the rest goes to the trailing gap, so the result depends on the
/// arguments alone; larger sums leave ties that the solver breaks by the
/// order of hash maps, hence the precondition. It holds one area per
/// constraint, each inside `area` (the solver's required bounds on every
/// edge; the other dimension is copied from `area`).
#[verifier::external_body]
fn layout_split_percentages(area: Area, axis: Axis, percentages: &Vec<u16>) -> (r: Vec<Area>)
    requires
        percent_total(percentages@) <= 100,
    ensures
        r@ == ratatui_split_percentages(area, axis, percentages@),
        r@.len() == percentages@.len(),
        forall|i: int| 0 <= i < r@.len() ==> part_within(#[trigger] r@[i], area, axis),
{
    let direction = match axis {
        Axis::Horizontal => Direction::Horizontal,
        Axis::Vertical => Direction::Vertical,
    };
    let rect = Rect { x: area.x, y: area.y, width: area.width, height: area.height };
    let constraints = percentages.iter().map(|p| Constraint::Percentage(*p));
    let parts = Layout::default().direction(direction).constraints(constraints).split(rect);
    parts.iter().map(|r| Area { x: r.x, y: r.y, width: r.width, height: r.height }).collect()
}

/// `chrono::NaiveDateTime::format("%Y-%m-%d %H:%M")`: the year with at
/// least four digits (signed outside 0 to 9999), then the zero-padded month,
/// day, hour and minute; the date and time handed over are valid by their
/// invariants.
#[verifier::external_body]
fn format_minutes(dt: DateTime) -> (r: String)
    ensures
        r@ == minutes_text(dt),
{
    let d = NaiveDate::from_ymd_opt(dt.date.year, dt.date.month, dt.date.day).unwrap();
    let t = NaiveTime::from_hms_nano_opt(dt.time.hour, dt.time.minute, dt.time.second, dt.time.nano).unwrap();
    d.and_time(t).format("%Y-%m-%d %H:%M").to_string()
}

/// `chrono::NaiveDate::format("%B")`: the month's English name (the
/// crate's locale feature is off, so `%B` uses its built-in English names).
#[verifier::external_body]
fn format_month_name(date: CalendarDate) -> (r: String)
    ensures
        r@ == month_name(date.spec_month() as int),
{
    NaiveDate::from_ymd_opt(date.year, date.month, date.day).unwrap().format("%B").to_string()
}

/// `i64::to_string` (std): the number in decimal, with a minus sign when
/// negative.
#[verifier::external_body]
fn decimal_string(n: i64) -> (r: String)
    ensures
        r@ == decimal_text(n as int),
{
    n.to_string()
}

/// `chrono::DateTime::<Utc>::to_rfc3339` of the UTC date and time `dt`:
/// the year as `%Y` writes it, the zero-padded month, day, hour, minute and
/// second (a leap second as 60), the shortest exact fraction of three, six
/// or nine digits where the nanoseconds are not zero, and the offset
/// `+00:00`.
#[verifier::external_body]
fn format_rfc3339_utc(dt: DateTime) -> (r: String)
    ensures
        r@ == rfc3339_text(dt),
{
    let d = NaiveDate::from_ymd_opt(dt.date.year, dt.date.month, dt.date.day).unwrap();
    let t = NaiveTime::from_hms_nano_opt(dt.time.hour, dt.time.minute, dt.time.second, dt.time.nano).unwrap();
    d.and_time(t).and_utc().to_rfc3339()
}

/// `chrono::NaiveDate::weekday().num_days_from_monday()`: the day of the
/// week of the proleptic Gregorian calendar, Monday 0 to Sunday 6.
#[verifier::external_body]
fn weekday_from_monday(date: CalendarDate) -> (r: u32)
    ensures
        r == weekday_number(date),
{
    NaiveDate::from_ymd_opt(date.year, date.month, date.day).unwrap().weekday().num_days_from_monday()
}

/// `chrono::NaiveDate::checked_add_signed(TimeDelta::days(days))`: the
/// date `days` days after `date`, or `None` when that leaves the supported
/// range. `TimeDelta::days` panics on spans beyond `MAX_SPAN_SECONDS`
/// seconds, hence the bound.
#[verifier::external_body]
fn date_checked_add_days(date: CalendarDate, days: i64) -> (r: Option<CalendarDate>)
    requires
        -MAX_SPAN_SECONDS <= days * 86400 <= MAX_SPAN_SECONDS,
    ensures
        r is Some <==> first_day_number() <= day_number(date) + days <= last_day_number(),
        r matches Some(d) ==> day_number(d) == day_number(date) + days,
{
    let d = NaiveDate::from_ymd_opt(date.year, date.month, date.day).unwrap();
    match d.checked_add_signed(TimeDelta::days(days)) {
        Some(n) => Some(CalendarDate { year: n.year(), month: n.month(), day: n.day() }),
        None => None,
    }
}

/// The two side percentages that centre a part of `percent` percent.
pub open spec fn side_percent(percent: u16) -> u16 {
    ((100 - percent) / 2) as u16
}

/// The three percentages that put a part of `percent` percent in the middle.
pub open spec fn centering_percentages(percent: u16) -> Seq<u16> {
    seq![side_percent(percent), percent, side_percent(percent)]
}

/// The area of `percent_x` by `percent_y` percent in the middle of `r`.
pub open spec fn spec_centered_rect(percent_x: u16, percent_y: u16, r: Area) -> Area {
    let rows = ratatui_split_percentages(r, Axis::Vertical, centering_percentages(percent_y));
    ratatui_split_percentages(rows[1], Axis::Horizontal, centering_percentages(percent_x))[1]
}

/// The area of `percent_x` by `percent_y` percent in the middle of `r`, as
/// the layout engine cuts it.
pub fn centered_rect(percent_x: u16, percent_y: u16, r: Area) -> (area: Area)
    requires
        percent_x <= 100,
        percent_y <= 100,
    ensures
        area == spec_centered_rect(percent_x, percent_y, r),
        r.x <= area.x,
        area.x + area.width <= r.x + r.width,
        r.y <= area.y,
        area.y + area.height <= r.y + r.height,
{
    proof {
        reveal_with_fuel(percent_total, 4);
    }
    let side_y = (100 - percent_y) / 2;
    let rows = layout_split_percentages(r, Axis::Vertical, &vec![side_y, percent_y, side_y]);
    assert(part_within(rows@[1], r, Axis::Vertical));
    let side_x = (100 - percent_x) / 2;
    let columns = layout_split_percentages(rows[1], Axis::Horizontal, &vec![side_x, percent_x, side_x]);
    assert(centering_percentages(percent_y) =~= seq![side_y, percent_y, side_y]);
    assert(centering_percentages(percent_x) =~= seq![side_x, percent_x, side_x]);
    assert(part_within(columns@[1], rows@[1], Axis::Horizontal));
    columns[1]
}

/// The two halves of `area` cut along `axis`, as the layout engine cuts it.
pub fn split_halves(area: Area, axis: Axis) -> (r: (Area, Area))
    ensures
        r.0 == ratatui_split_percentages(area, axis, seq![50u16, 50u16])[0],
        r.1 == ratatui_split_percentages(area, axis, seq![50u16, 50u16])[1],
        part_within(r.0, area, axis),
        part_within(r.1, area, axis),
{
    proof {
        reveal_with_fuel(percent_total, 3);
    }
    let percentages: Vec<u16> = vec![50, 50];
    assert(percentages@ =~= seq![50u16, 50u16]);
    let parts = layout_split_percentages(area, axis, &percentages);
    (parts[0], parts[1])
}

/// The form takes keys in these modes.
pub open spec fn spec_is_editing(mode: AppMode) -> bool {
    mode == AppMode::Creating || mode == AppMode::Editing
}

/// Whether the form is being filled in, so that it is drawn highlighted.
pub fn is_editing(mode: AppMode) -> (r: bool)
    ensures
        r == spec_is_editing(mode),
{
    match mode {
        AppMode::Creating | AppMode::Editing => true,
        _ => false,
    }
}

/// Whether field `field_index` of the form is drawn as the active one.
pub fn is_active_field(is_editing: bool, selected_field: usize, field_index: usize) -> (r: bool)
    ensures
        r == (is_editing && selected_field == field_index),
{
    is_editing && selected_field == field_index
}

/// The interview date as shown, or a dash when there is none.
pub open spec fn interview_text(date: Option<DateTime>) -> Seq<char> {
    match date {
        Some(d) => minutes_text(d),
        None => "-"@,
    }
}

/// The cells of an application's row in the table: company, origin,
/// description, URL, status, interview and application date.
pub open spec fn spec_table_row(a: ApplicationView) -> Seq<Seq<char>> {
    seq![
        a.company_name,
        a.origin,
        a.description,
        a.url,
        a.application_status.spec_label(),
        interview_text(a.interview_date),
        minutes_text(a.application_date),
    ]
}

/// The labels of the detail popup's rows.
pub open spec fn detail_labels() -> Seq<Seq<char>> {
    seq!["Company"@, "Origin"@, "Description"@, "URL"@, "Status"@, "Interview"@, "Date"@]
}

/// The values of the detail popup's rows.
pub open spec fn spec_detail_values(a: ApplicationView) -> Seq<Seq<char>> {
    seq![
        a.company_name,
        a.origin,
        a.description,
        a.url,
        a.application_status.spec_label(),
        interview_text(a.interview_date),
        rfc3339_text(a.application_date),
    ]
}

fn interview_cell(date: Option<DateTime>) -> (r: String)
    ensures
        r@ == interview_text(date),
{
    match date {
        Some(d) => format_minutes(d),
        None => String::from_str("-"),
    }
}

/// The cells of an application's row in the table.
pub fn table_row(a: &Application) -> (r: Vec<String>)
    ensures
        r@.len() == 7,
        forall|i: int| 0 <= i < 7 ==> #[trigger] r@[i]@ == spec_table_row(a@)[i],
{
    let mut r: Vec<String> = Vec::new();
    r.push(a.company_name.clone());
    r.push(a.origin.clone());
    r.push(a.description.clone());
    r.push(a.url.clone());
    r.push(String::from_str(a.application_status.label()));
    r.push(interview_cell(a.interview_date));
    r.push(format_minutes(a.application_date));
    r
}

/// The rows of the detail popup: a label and a value each.
pub fn detail_rows(a: &Application) -> (r: Vec<(&'static str, String)>)
    ensures
        r@.len() == 7,
        forall|i: int|
            0 <= i < 7 ==> #[trigger] r@[i].0@ == detail_labels()[i] && r@[i].1@
                == spec_detail_values(a@)[i],
{
    let mut r: Vec<(&'static str, String)> = Vec::new();
    r.push(("Company", a.company_name.clone()));
    r.push(("Origin", a.origin.clone()));
    r.push(("Description", a.description.clone()));
    r.push(("URL", a.url.clone()));
    r.push(("Status", String::from_str(a.application_status.label())));
    r.push(("Interview", interview_cell(a.interview_date)));
    r.push(("Date", format_rfc3339_utc(a.application_date)));
    r
}

/// The heading of the date picker: month name and year.
pub open spec fn spec_month_title(date: CalendarDate) -> Seq<char> {
    month_name(date.spec_month() as int) + " "@ + decimal_text(date.spec_year() as int)
}

/// The heading of the date picker: month name and year.
pub fn month_title(date: CalendarDate) -> (r: String)
    ensures
        r@ == spec_month_title(date),
{
    let mut title = format_month_name(date);
    title.append(" ");
    let year = decimal_string(date.year() as i64);
    title.append(year.as_str());
    title
}

/// The line of the date picker that shows the picked date and time.
pub open spec fn spec_selected_line(dt: DateTime) -> Seq<char> {
    "Selected: "@ + minutes_text(dt)
}

/// The line of the date picker that shows the picked date and time.
pub fn selected_line(dt: DateTime) -> (r: String)
    ensures
        r@ == spec_selected_line(dt),
{
    let mut line = String::from_str("Selected: ");
    let text = format_minutes(dt);
    line.append(text.as_str());
    line
}

/// A day of the month right-aligned in two characters.
pub open spec fn spec_day_cell_text(day: nat) -> Seq<char> {
    if day < 10 {
        seq![' '] + decimal_digits(day)
    } else {
        decimal_digits(day)
    }
}

/// The text of a day in the month grid: the day right-aligned in two
/// characters.
pub fn day_cell_text(day: u32) -> (r: String)
    ensures
        r@ == spec_day_cell_text(day as nat),
{
    let digits = decimal_string(day as i64);
    assert(digits@ == decimal_digits(day as nat));
    if day < 10 {
        proof {
            reveal_strlit(" ");
        }
        let mut text = String::from_str(" ");
        text.append(digits.as_str());
        text
    } else {
        digits
    }
}

/// The grid cell for `date` when `selected` is the picked day.
pub open spec fn grid_cell(date: CalendarDate, selected: CalendarDate) -> CalendarCell {
    CalendarCell {
        day: date.spec_day(),
        in_month: date.spec_month() == selected.spec_month(),
        is_selected: date == selected,
    }
}

/// `cell` is the grid cell of the date with day number `n`.
pub open spec fn cell_shows_day(cell: CalendarCell, n: int, selected: CalendarDate) -> bool {
    exists|d: CalendarDate| d.is_valid() && day_number(d) == n && cell == grid_cell(d, selected)
}

/// The day number of the grid's first day: the Monday on or before the
/// first of the selected month.
pub open spec fn grid_start_number(selected: CalendarDate) -> int {
    let first = CalendarDate::spec_new(selected.spec_year(), selected.spec_month(), 1);
    day_number(first) - weekday_number(first)
}

/// The six weeks of the date picker's month grid, Monday first, row by row:
/// cell `k` shows the date whose day number is `k` after the grid's first
/// day. `None` when one of those days falls outside the supported range.
pub fn calendar_grid(selected: CalendarDate) -> (r: Option<Vec<CalendarCell>>)
    ensures
        r is Some <==> first_day_number() <= grid_start_number(selected) && grid_start_number(selected)
            + (GRID_DAYS - 1) <= last_day_number(),
        r matches Some(cells) ==> cells@.len() == GRID_DAYS && forall|k: int|
            0 <= k < GRID_DAYS ==> cell_shows_day(#[trigger] cells@[k], grid_start_number(selected) + k, selected),
{
    proof {
        use_type_invariant(&selected);
    }
    let first = match CalendarDate::from_ymd(selected.year(), selected.month(), 1) {
        Some(d) => d,
        None => {
            return None;
        },
    };
    let offset = weekday_from_monday(first);
    let start = match date_checked_add_days(first, -(offset as i64)) {
        Some(d) => d,
        None => {
            return None;
        },
    };
    let mut cells: Vec<CalendarCell> = Vec::new();
    let mut k: usize = 0;
    while k < GRID_DAYS
        invariant
            k <= GRID_DAYS,
            day_number(start) == grid_start_number(selected),
            first_day_number() <= day_number(start),
            k > 0 ==> day_number(start) + k - 1 <= last_day_number(),
            cells@.len() == k,
            forall|j: int|
                0 <= j < k ==> cell_shows_day(#[trigger] cells@[j], grid_start_number(selected) + j, selected),
        decreases GRID_DAYS - k,
    {
        let date = match date_checked_add_days(start, k as i64) {
            Some(d) => d,
            None => {
                return None;
            },
        };
        proof {
            use_type_invariant(&date);
        }
        let cell = CalendarCell {
            day: date.day(),
            in_month: date.month() == selected.month(),
            is_selected: date == selected,
        };
        assert(cell == grid_cell(date, selected));
        let ghost before = cells@;
        cells.push(cell);
        assert forall|j: int| 0 <= j < k + 1 implies cell_shows_day(
            #[trigger] cells@[j],
            grid_start_number(selected) + j,
            selected,
        ) by {
            if j < k {
                assert(cells@[j] == before[j]);
            } else {
                assert(date.is_valid() && day_number(date) == grid_start_number(selected) + j
                    && cells@[j] == grid_cell(date, selected));
            }
        }
        k = k + 1;
    }
    Some(cells)
}

} // verus!
