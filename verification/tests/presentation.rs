use ghosted::calendar::{CalendarDate, DateTime, TimeOfDay};
use ghosted::models::{Application, ApplicationStatus};
use ghosted::presentation::{
    calendar_grid, centered_rect, day_cell_text, detail_rows, is_active_field, is_editing, month_title,
    selected_line, split_halves, table_row, Area, Axis, GRID_DAYS,
};
use ghosted::state::AppMode;

fn date(year: i32, month: u32, day: u32) -> CalendarDate {
    CalendarDate::from_ymd(year, month, day).expect("valid date")
}

fn date_time(year: i32, month: u32, day: u32, hour: u32, minute: u32, second: u32) -> DateTime {
    DateTime::new(date(year, month, day), TimeOfDay::from_hms_nano(hour, minute, second, 0).expect("valid time"))
}

fn sample(interview: Option<DateTime>) -> Application {
    Application {
        company_name: "Acme".to_string(),
        description: "Rust role".to_string(),
        url: "https://example.com".to_string(),
        comments: "Interesting team".to_string(),
        application_status: ApplicationStatus::AwaitingRecruiter,
        origin: "Referral".to_string(),
        application_date: date_time(2024, 6, 1, 9, 30, 15),
        interview_date: interview,
    }
}

#[test]
fn table_row_shows_every_column() {
    let row = table_row(&sample(Some(date_time(2025, 4, 10, 11, 0, 0))));
    assert_eq!(
        row,
        vec![
            "Acme",
            "Referral",
            "Rust role",
            "https://example.com",
            "Awaiting recruiter",
            "2025-04-10 11:00",
            "2024-06-01 09:30",
        ]
    );
}

#[test]
fn table_row_shows_a_dash_without_interview() {
    let row = table_row(&sample(None));
    assert_eq!(row[5], "-");
}

#[test]
fn detail_rows_label_each_value() {
    let rows = detail_rows(&sample(None));
    let expected = vec![
        ("Company", "Acme"),
        ("Origin", "Referral"),
        ("Description", "Rust role"),
        ("URL", "https://example.com"),
        ("Status", "Awaiting recruiter"),
        ("Interview", "-"),
        ("Date", "2024-06-01T09:30:15+00:00"),
    ];
    assert_eq!(rows.len(), expected.len());
    for ((label, value), (el, ev)) in rows.iter().zip(expected) {
        assert_eq!(*label, el);
        assert_eq!(value, ev);
    }
}

#[test]
fn calendar_grid_starts_on_monday() {
    // April 2025 starts on a Tuesday, so the grid starts on Monday 31 March.
    let grid = calendar_grid(date(2025, 4, 10)).expect("grid");
    assert_eq!(grid.len(), GRID_DAYS);
    assert_eq!((grid[0].day, grid[0].in_month, grid[0].is_selected), (31, false, false));
    assert_eq!((grid[1].day, grid[1].in_month), (1, true));
    assert_eq!((grid[10].day, grid[10].in_month, grid[10].is_selected), (10, true, true));
    assert_eq!(grid.iter().filter(|c| c.is_selected).count(), 1);
    assert_eq!(grid.iter().filter(|c| c.in_month).count(), 30);
    assert_eq!((grid[41].day, grid[41].in_month), (11, false));
}

#[test]
fn calendar_grid_for_a_month_starting_on_monday() {
    // September 2025 starts on a Monday.
    let grid = calendar_grid(date(2025, 9, 30)).expect("grid");
    assert_eq!((grid[0].day, grid[0].in_month), (1, true));
    assert_eq!((grid[29].day, grid[29].is_selected), (30, true));
    assert_eq!((grid[30].day, grid[30].in_month), (1, false));
}

#[test]
fn calendar_grid_past_the_last_supported_day_is_refused() {
    assert!(calendar_grid(date(262142, 12, 1)).is_none());
    assert!(calendar_grid(date(262142, 10, 1)).is_some());
}

#[test]
fn centered_rect_takes_the_middle() {
    let r = centered_rect(50, 50, Area { x: 0, y: 0, width: 100, height: 100 });
    assert_eq!(r, Area { x: 25, y: 25, width: 50, height: 50 });
    let r = centered_rect(100, 100, Area { x: 3, y: 4, width: 20, height: 10 });
    assert_eq!(r, Area { x: 3, y: 4, width: 20, height: 10 });
    let r = centered_rect(40, 48, Area { x: 0, y: 0, width: 80, height: 25 });
    assert_eq!(r.width, 32);
    assert_eq!(r.x, 24);
}

#[test]
fn form_fields_highlight_only_while_editing() {
    assert!(is_editing(AppMode::Creating));
    assert!(is_editing(AppMode::Editing));
    assert!(!is_editing(AppMode::Normal));
    assert!(!is_editing(AppMode::PickingInterviewDate));
    assert!(is_active_field(true, 2, 2));
    assert!(!is_active_field(true, 2, 3));
    assert!(!is_active_field(false, 2, 2));
}

#[test]
fn years_outside_four_digits_are_signed() {
    let mut a = sample(Some(date_time(-5, 1, 2, 3, 4, 0)));
    a.application_date = date_time(12345, 11, 30, 23, 59, 59);
    let row = table_row(&a);
    assert_eq!(row[5], "-0005-01-02 03:04");
    assert_eq!(row[6], "+12345-11-30 23:59");
    let a = sample(Some(date_time(987, 1, 2, 3, 4, 0)));
    assert_eq!(table_row(&a)[5], "0987-01-02 03:04");
}

#[test]
fn month_title_and_selected_line() {
    assert_eq!(month_title(date(2025, 4, 10)), "April 2025");
    assert_eq!(month_title(date(-44, 3, 15)), "March -44");
    assert_eq!(month_title(date(7, 12, 1)), "December 7");
    assert_eq!(selected_line(date_time(2025, 4, 10, 11, 5, 30)), "Selected: 2025-04-10 11:05");
}

#[test]
fn calendar_grid_far_in_the_past() {
    // 1 March of year 0 (1 BCE) was a Wednesday in the proleptic Gregorian calendar.
    let grid = calendar_grid(date(0, 3, 1)).expect("grid");
    assert_eq!((grid[0].day, grid[0].in_month), (28, false));
    assert_eq!((grid[2].day, grid[2].in_month, grid[2].is_selected), (1, true, true));
}

#[test]
fn centered_rect_stays_inside() {
    let outer = Area { x: 7, y: 3, width: 61, height: 17 };
    for (px, py) in [(20, 30), (70, 70), (40, 48), (0, 0), (100, 1)] {
        let r = centered_rect(px, py, outer);
        assert!(outer.x <= r.x && r.x + r.width <= outer.x + outer.width);
        assert!(outer.y <= r.y && r.y + r.height <= outer.y + outer.height);
    }
}

fn date_text_with_nanos(second: u32, nano: u32) -> String {
    let mut app = sample(None);
    app.application_date =
        DateTime::new(date(2024, 6, 30), TimeOfDay::from_hms_nano(23, 59, second, nano).expect("valid time"));
    detail_rows(&app)[6].1.clone()
}

#[test]
fn rfc3339_date_shows_the_shortest_exact_fraction() {
    assert_eq!(date_text_with_nanos(15, 0), "2024-06-30T23:59:15+00:00");
    assert_eq!(date_text_with_nanos(15, 123_000_000), "2024-06-30T23:59:15.123+00:00");
    assert_eq!(date_text_with_nanos(15, 5_000), "2024-06-30T23:59:15.000005+00:00");
    assert_eq!(date_text_with_nanos(15, 1_500), "2024-06-30T23:59:15.000001500+00:00");
}

#[test]
fn rfc3339_date_writes_a_leap_second_as_sixty() {
    assert_eq!(date_text_with_nanos(59, 1_250_000_000), "2024-06-30T23:59:60.250+00:00");
    assert_eq!(date_text_with_nanos(59, 1_000_000_000), "2024-06-30T23:59:60+00:00");
}

#[test]
fn rfc3339_date_signs_years_outside_four_digits() {
    let mut app = sample(None);
    app.application_date = date_time(-1, 1, 2, 3, 4, 5);
    assert_eq!(detail_rows(&app)[6].1, "-0001-01-02T03:04:05+00:00");
    app.application_date = date_time(12345, 11, 12, 13, 14, 15);
    assert_eq!(detail_rows(&app)[6].1, "+12345-11-12T13:14:15+00:00");
}

#[test]
fn calendar_grid_numbers_consecutive_days() {
    // June 2024 starts on a Saturday: the grid runs from Monday 27 May to
    // Sunday 7 July.
    let grid = calendar_grid(date(2024, 6, 15)).expect("grid");
    let days: Vec<u32> = grid.iter().map(|c| c.day).collect();
    let mut expected: Vec<u32> = (27..=31).collect();
    expected.extend(1..=30);
    expected.extend(1..=7);
    assert_eq!(days, expected);
    assert!(!grid[4].in_month && grid[5].in_month && grid[34].in_month && !grid[35].in_month);
    let picked: Vec<usize> = (0..GRID_DAYS).filter(|&k| grid[k].is_selected).collect();
    assert_eq!(picked, vec![19]);
}

#[test]
fn calendar_grid_before_the_first_supported_day_is_refused() {
    // The first supported year starts on a Thursday, so its January grid
    // would begin before the first supported day.
    assert!(calendar_grid(date(-262143, 1, 5)).is_none());
    let grid = calendar_grid(date(-262143, 2, 5)).expect("grid");
    assert_eq!(grid[0].day, 26);
    assert!(!grid[0].in_month);
}

#[test]
fn day_cells_are_two_characters_wide() {
    assert_eq!(day_cell_text(1), " 1");
    assert_eq!(day_cell_text(9), " 9");
    assert_eq!(day_cell_text(10), "10");
    assert_eq!(day_cell_text(31), "31");
    assert_eq!(day_cell_text(0), " 0");
    assert_eq!(day_cell_text(123), "123");
}

#[test]
fn split_halves_cuts_in_the_middle() {
    let area = Area { x: 2, y: 3, width: 80, height: 10 };
    let (left, right) = split_halves(area, Axis::Horizontal);
    assert_eq!(left, Area { x: 2, y: 3, width: 40, height: 10 });
    assert_eq!(right, Area { x: 42, y: 3, width: 40, height: 10 });
    let (top, bottom) = split_halves(area, Axis::Vertical);
    assert_eq!(top, Area { x: 2, y: 3, width: 80, height: 5 });
    assert_eq!(bottom, Area { x: 2, y: 8, width: 80, height: 5 });
}
