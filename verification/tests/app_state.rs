use ghosted::app::App;
use ghosted::calendar::{CalendarDate, DateTime, TimeOfDay};
use ghosted::models::{Application, ApplicationStatus};
use ghosted::state::{AppMode, Key, KeyAction};

fn date_time(year: i32, month: u32, day: u32, hour: u32, minute: u32) -> DateTime {
    DateTime::new(
        CalendarDate::from_ymd(year, month, day).expect("valid date"),
        TimeOfDay::from_hms_nano(hour, minute, 0, 0).expect("valid time"),
    )
}

fn application(name: &str, interview: Option<DateTime>) -> Application {
    Application {
        company_name: name.to_string(),
        description: format!("{name} role"),
        url: format!("https://{name}.example"),
        comments: String::new(),
        application_status: ApplicationStatus::Applied,
        origin: "Referral".to_string(),
        application_date: date_time(2025, 1, 2, 9, 0),
        interview_date: interview,
    }
}

fn three_apps() -> App {
    App::new_at(
        vec![application("Acme", None), application("Globex", None), application("Initech", None)],
        date_time(2025, 3, 1, 12, 0),
    )
}

fn selected_name(app: &App) -> String {
    app.selected_item().map(|a| a.company_name.clone()).unwrap_or_default()
}

fn type_text(app: &mut App, text: &str) {
    for c in text.chars() {
        assert_eq!(app.handle_key(Key::Char(c)), KeyAction::Continue);
    }
}

#[test]
fn new_tracker_starts_on_the_list() {
    let now = date_time(2025, 3, 1, 12, 0);
    let app = App::new_at(vec![application("Acme", None)], now);
    assert_eq!(*app.mode(), AppMode::Normal);
    assert_eq!(selected_name(&app), "Acme");
    assert_eq!(app.table_selection(), Some(0));
    assert_eq!(app.status_list_selection(), None);
    assert_eq!(app.highlight_symbol(), "-> ");
    assert_eq!(app.interview_picker_date(), now);
    assert!(app.input().company_name.is_empty());
    assert_eq!(app.items().len(), 1);
}

#[test]
fn new_tracker_from_clock_starts_on_the_list() {
    let app = App::new(vec![]);
    assert_eq!(*app.mode(), AppMode::Normal);
    assert!(app.selected_item().is_none());
    assert_eq!(app.table_selection(), Some(0));
}

#[test]
fn next_and_previous_wrap_around() {
    let mut app = three_apps();
    app.previous();
    assert_eq!(selected_name(&app), "Initech");
    assert_eq!(app.table_selection(), Some(2));
    app.next();
    assert_eq!(selected_name(&app), "Acme");
    app.next();
    app.next();
    assert_eq!(selected_name(&app), "Initech");
    app.next();
    assert_eq!(selected_name(&app), "Acme");
    assert_eq!(app.table_selection(), Some(0));
}

#[test]
fn moving_down_then_up_returns_to_the_same_row() {
    let mut app = three_apps();
    app.next();
    for _ in 0..3 {
        let before = app.table_selection();
        app.next();
        app.previous();
        assert_eq!(app.table_selection(), before);
        app.previous();
        app.next();
        assert_eq!(app.table_selection(), before);
        app.next();
    }
}

#[test]
fn moving_on_an_empty_list_does_nothing() {
    let mut app = App::new_at(vec![], date_time(2025, 3, 1, 12, 0));
    app.next();
    app.previous();
    assert_eq!(app.table_selection(), Some(0));
    assert!(!app.delete());
    assert_eq!(app.handle_key(Key::Char('D')), KeyAction::Continue);
    assert_eq!(app.handle_key(Key::Char('d')), KeyAction::Continue);
    assert_eq!(*app.mode(), AppMode::Normal);
    assert_eq!(app.handle_key(Key::Char('e')), KeyAction::Continue);
    assert_eq!(*app.mode(), AppMode::Normal);
}

#[test]
fn deleting_the_last_row_selects_the_new_last_row() {
    let mut app = three_apps();
    app.previous();
    assert_eq!(app.handle_key(Key::Char('D')), KeyAction::Save);
    assert_eq!(app.items().len(), 2);
    assert_eq!(selected_name(&app), "Globex");
    assert_eq!(app.table_selection(), Some(1));
    app.previous();
    assert!(app.delete());
    assert_eq!(selected_name(&app), "Globex");
    assert!(app.delete());
    assert!(app.selected_item().is_none());
    assert_eq!(app.table_selection(), Some(0));
    assert!(!app.delete());
}

#[test]
fn deleting_a_middle_row_keeps_the_order() {
    let mut app = three_apps();
    app.next();
    assert!(app.delete());
    let names: Vec<&str> = app.items().iter().map(|a| a.company_name.as_str()).collect();
    assert_eq!(names, vec!["Acme", "Initech"]);
    assert_eq!(selected_name(&app), "Initech");
}

#[test]
fn q_quits_only_from_the_list() {
    let mut app = three_apps();
    assert_eq!(app.handle_key(Key::Char('a')), KeyAction::Continue);
    assert_eq!(app.handle_key(Key::Char('Q')), KeyAction::Continue);
    assert_eq!(app.input().company_name, "Q");
    assert_eq!(app.handle_key(Key::Esc), KeyAction::Continue);
    assert_eq!(app.handle_key(Key::Char('q')), KeyAction::Continue);
    assert_eq!(app.handle_key(Key::Char('Q')), KeyAction::Quit);
}

#[test]
fn creating_an_application_appends_and_selects_it() {
    let mut app = three_apps();
    assert_eq!(app.handle_key(Key::Char('a')), KeyAction::Continue);
    assert_eq!(*app.mode(), AppMode::Creating);
    type_text(&mut app, "Hooli");
    assert_eq!(app.handle_key(Key::Tab), KeyAction::Continue);
    type_text(&mut app, "Backendx");
    assert_eq!(app.handle_key(Key::Backspace), KeyAction::Continue);
    app.handle_key(Key::Tab);
    type_text(&mut app, "Friend");
    app.handle_key(Key::Tab);
    type_text(&mut app, "https://hooli.example");
    app.handle_key(Key::Tab);
    type_text(&mut app, "Good pay");
    app.handle_key(Key::Tab);
    assert_eq!(app.input().input_field, 0);
    assert_eq!(app.handle_key(Key::Enter), KeyAction::Save);
    assert_eq!(*app.mode(), AppMode::Normal);
    assert_eq!(app.items().len(), 4);
    let new = app.selected_item().unwrap();
    assert_eq!(new.company_name, "Hooli");
    assert_eq!(new.description, "Backend");
    assert_eq!(new.origin, "Friend");
    assert_eq!(new.url, "https://hooli.example");
    assert_eq!(new.comments, "Good pay");
    assert_eq!(new.interview_date, None);
    assert_eq!(new.application_status, ApplicationStatus::Applied);
    assert_eq!(app.table_selection(), Some(3));
}

#[test]
fn confirm_at_dates_the_new_application() {
    let mut app = three_apps();
    app.start_create();
    app.push_input_char('X');
    let now = date_time(2025, 6, 7, 8, 9);
    assert!(app.confirm_at(now));
    assert_eq!(app.items()[3].application_date, now);
    assert_eq!(app.items()[3].company_name, "X");
}

#[test]
fn editing_changes_only_the_selected_application() {
    let mut app = three_apps();
    app.next();
    app.handle_key(Key::Char('e'));
    assert_eq!(*app.mode(), AppMode::Editing);
    assert_eq!(app.input().company_name, "Globex");
    assert_eq!(app.input().input_field, 0);
    type_text(&mut app, " Corp");
    assert_eq!(app.handle_key(Key::Enter), KeyAction::Save);
    let names: Vec<&str> = app.items().iter().map(|a| a.company_name.as_str()).collect();
    assert_eq!(names, vec!["Acme", "Globex Corp", "Initech"]);
    assert_eq!(app.items()[1].application_date, date_time(2025, 1, 2, 9, 0));
}

#[test]
fn editing_without_changes_keeps_the_application() {
    let mut app = three_apps();
    app.next();
    let before = app.items()[1].clone();
    app.start_edit();
    assert!(app.confirm());
    let after = &app.items()[1];
    assert_eq!(after.company_name, before.company_name);
    assert_eq!(after.description, before.description);
    assert_eq!(after.url, before.url);
    assert_eq!(after.origin, before.origin);
    assert_eq!(after.comments, before.comments);
    assert_eq!(after.interview_date, before.interview_date);
    assert_eq!(*app.mode(), AppMode::Normal);
}

#[test]
fn cancelling_a_form_discards_it() {
    let mut app = three_apps();
    app.handle_key(Key::Char('e'));
    type_text(&mut app, "zzz");
    assert_eq!(app.handle_key(Key::Esc), KeyAction::Continue);
    assert_eq!(*app.mode(), AppMode::Normal);
    assert_eq!(app.items()[0].company_name, "Acme");
    assert!(app.input().company_name.is_empty());
    assert_eq!(app.input().input_field, 0);
}

#[test]
fn typing_then_backspace_restores_each_field() {
    let mut app = three_apps();
    app.start_edit();
    for field in 0..5 {
        let before_company = app.input().company_name.clone();
        let before_description = app.input().description.clone();
        let before_origin = app.input().origin.clone();
        let before_url = app.input().url.clone();
        let before_comments = app.input().comments.clone();
        app.push_input_char('é');
        app.backspace_input();
        assert_eq!(app.input().company_name, before_company);
        assert_eq!(app.input().description, before_description);
        assert_eq!(app.input().origin, before_origin);
        assert_eq!(app.input().url, before_url);
        assert_eq!(app.input().comments, before_comments);
        assert_eq!(app.input().input_field, field);
        app.next_input_field();
    }
}

#[test]
fn backspace_on_empty_field_keeps_it_empty() {
    let mut app = three_apps();
    app.start_create();
    app.backspace_input();
    assert!(app.input().company_name.is_empty());
    app.push_input_char('a');
    app.push_input_char('b');
    app.backspace_input();
    assert_eq!(app.input().company_name, "a");
}

#[test]
fn status_picker_sets_the_status() {
    let mut app = three_apps();
    app.next();
    assert_eq!(app.handle_key(Key::Char('s')), KeyAction::Continue);
    assert_eq!(*app.mode(), AppMode::UpdateStatus);
    assert_eq!(app.status_list_selection(), Some(0));
    app.handle_key(Key::Down);
    app.handle_key(Key::Down);
    assert_eq!(app.status_list_selection(), Some(2));
    assert_eq!(app.handle_key(Key::Enter), KeyAction::Save);
    assert_eq!(*app.mode(), AppMode::Normal);
    assert_eq!(app.items()[1].application_status, ApplicationStatus::Accepted);
    assert_eq!(app.items()[0].application_status, ApplicationStatus::Applied);
}

#[test]
fn status_picker_wraps_around() {
    let mut app = three_apps();
    app.update_status();
    app.previous_status();
    assert_eq!(app.status_list_selection(), Some(6));
    app.next_status();
    assert_eq!(app.status_list_selection(), Some(0));
    app.previous_status();
    assert!(app.confirm_status_update());
    assert_eq!(app.items()[0].application_status, ApplicationStatus::InterviewScheduled);
}

#[test]
fn status_picker_cancel_keeps_the_status() {
    let mut app = three_apps();
    app.handle_key(Key::Char('s'));
    app.handle_key(Key::Down);
    assert_eq!(app.handle_key(Key::Esc), KeyAction::Continue);
    assert_eq!(*app.mode(), AppMode::Normal);
    assert_eq!(app.items()[0].application_status, ApplicationStatus::Applied);
}

#[test]
fn status_confirm_outside_the_picker_changes_nothing() {
    let mut app = three_apps();
    assert!(app.confirm_status_update());
    assert_eq!(app.items()[0].application_status, ApplicationStatus::Applied);
}

#[test]
fn details_open_and_close() {
    let mut app = three_apps();
    app.handle_key(Key::Char('d'));
    assert_eq!(*app.mode(), AppMode::ViewingDetails);
    assert_eq!(app.handle_key(Key::Enter), KeyAction::Continue);
    assert_eq!(*app.mode(), AppMode::ViewingDetails);
    app.handle_key(Key::Esc);
    assert_eq!(*app.mode(), AppMode::Normal);
    app.open_details();
    app.close_details();
    assert_eq!(*app.mode(), AppMode::Normal);
}

#[test]
fn escape_returns_to_the_list_from_every_mode() {
    let mut app = three_apps();
    for key in ['a', 'e', 'd', 's', 'i'] {
        app.handle_key(Key::Char(key));
        assert_ne!(*app.mode(), AppMode::Normal);
        assert_eq!(app.handle_key(Key::Esc), KeyAction::Continue);
        assert_eq!(*app.mode(), AppMode::Normal);
    }
}

#[test]
fn interview_picker_opens_on_the_interview_date() {
    let interview = date_time(2025, 4, 10, 11, 0);
    let mut app = App::new_at(vec![application("Acme", Some(interview))], date_time(2025, 3, 1, 12, 0));
    app.handle_key(Key::Char('i'));
    assert_eq!(*app.mode(), AppMode::PickingInterviewDate);
    assert_eq!(app.interview_picker_date(), interview);
}

#[test]
fn interview_picker_opens_on_now_without_a_date() {
    let now = date_time(2030, 1, 1, 8, 0);
    let mut app = App::new_at(vec![application("Acme", None)], date_time(2025, 3, 1, 12, 0));
    app.open_interview_date_picker_at(now);
    assert_eq!(app.interview_picker_date(), now);
    app.close_interview_date_picker();
    assert_eq!(*app.mode(), AppMode::Normal);
    let mut empty = App::new_at(vec![], date_time(2025, 3, 1, 12, 0));
    empty.open_interview_date_picker_at(now);
    assert_eq!(*empty.mode(), AppMode::Normal);
    assert_eq!(empty.interview_picker_date(), date_time(2025, 3, 1, 12, 0));
}

#[test]
fn interview_picker_moves_and_saves() {
    let interview = date_time(2025, 4, 10, 11, 0);
    let mut app = App::new_at(vec![application("Acme", Some(interview))], date_time(2025, 3, 1, 12, 0));
    app.handle_key(Key::Char('i'));
    app.handle_key(Key::Right);
    assert_eq!(app.interview_picker_date(), date_time(2025, 4, 11, 11, 0));
    app.handle_key(Key::Down);
    assert_eq!(app.interview_picker_date(), date_time(2025, 4, 18, 11, 0));
    app.handle_key(Key::Up);
    app.handle_key(Key::Left);
    assert_eq!(app.interview_picker_date(), interview);
    app.handle_key(Key::Char('+'));
    assert_eq!(app.interview_picker_date(), date_time(2025, 4, 10, 12, 0));
    app.handle_key(Key::Char(']'));
    assert_eq!(app.interview_picker_date(), date_time(2025, 4, 10, 12, 15));
    app.handle_key(Key::Char('['));
    app.handle_key(Key::Char('-'));
    assert_eq!(app.interview_picker_date(), interview);
    app.handle_key(Key::PageDown);
    assert_eq!(app.interview_picker_date(), date_time(2025, 5, 10, 11, 0));
    app.handle_key(Key::PageUp);
    app.handle_key(Key::PageUp);
    assert_eq!(app.interview_picker_date(), date_time(2025, 3, 10, 11, 0));
    assert_eq!(app.handle_key(Key::Enter), KeyAction::Save);
    assert_eq!(*app.mode(), AppMode::Normal);
    assert_eq!(app.items()[0].interview_date, Some(date_time(2025, 3, 10, 11, 0)));
    assert_eq!(app.items()[0].application_status, ApplicationStatus::InterviewScheduled);
}

#[test]
fn interview_picker_crosses_midnight_and_years() {
    let mut app = App::new_at(vec![], date_time(2024, 12, 31, 23, 50));
    app.shift_interview_picker_minutes(15);
    assert_eq!(app.interview_picker_date(), date_time(2025, 1, 1, 0, 5));
    app.shift_interview_picker_days(-1);
    assert_eq!(app.interview_picker_date(), date_time(2024, 12, 31, 0, 5));
    app.shift_interview_picker_days(60);
    assert_eq!(app.interview_picker_date(), date_time(2025, 3, 1, 0, 5));
}

#[test]
fn interview_confirm_without_an_application_only_closes() {
    let mut app = App::new_at(vec![], date_time(2025, 3, 1, 12, 0));
    assert!(!app.confirm_interview_date());
    assert_eq!(*app.mode(), AppMode::Normal);
}

#[test]
fn month_shift_cuts_the_day_to_the_month() {
    let mut app = App::new_at(vec![], date_time(2024, 1, 31, 10, 30));
    app.shift_interview_picker_months(1);
    assert_eq!(app.interview_picker_date(), date_time(2024, 2, 29, 10, 30));
    app.shift_interview_picker_months(-1);
    assert_eq!(app.interview_picker_date(), date_time(2024, 1, 29, 10, 30));
    let mut app = App::new_at(vec![], date_time(2023, 3, 31, 10, 30));
    app.shift_interview_picker_months(-1);
    assert_eq!(app.interview_picker_date(), date_time(2023, 2, 28, 10, 30));
    app.shift_interview_picker_months(2);
    assert_eq!(app.interview_picker_date(), date_time(2023, 4, 28, 10, 30));
}

#[test]
fn month_shift_crosses_years() {
    let mut app = App::new_at(vec![], date_time(2024, 11, 15, 8, 0));
    app.shift_interview_picker_months(13);
    assert_eq!(app.interview_picker_date(), date_time(2025, 12, 15, 8, 0));
    app.shift_interview_picker_months(-25);
    assert_eq!(app.interview_picker_date(), date_time(2023, 11, 15, 8, 0));
    app.shift_interview_picker_months(-11);
    assert_eq!(app.interview_picker_date(), date_time(2022, 12, 15, 8, 0));
}

#[test]
fn month_shift_there_and_back_keeps_early_days() {
    for day in [1, 15, 28] {
        let start = date_time(2024, 5, day, 7, 45);
        let mut app = App::new_at(vec![], start);
        app.shift_interview_picker_months(-17);
        app.shift_interview_picker_months(17);
        assert_eq!(app.interview_picker_date(), start);
    }
}

#[test]
fn picker_stays_at_the_ends_of_the_calendar() {
    let last = date_time(262142, 12, 31, 23, 0);
    let mut app = App::new_at(vec![], last);
    app.shift_interview_picker_days(1);
    assert_eq!(app.interview_picker_date(), last);
    app.shift_interview_picker_months(1);
    assert_eq!(app.interview_picker_date(), last);
    app.shift_interview_picker_minutes(60);
    assert_eq!(app.interview_picker_date(), last);
    let first = date_time(-262143, 1, 1, 0, 0);
    let mut app = App::new_at(vec![], first);
    app.shift_interview_picker_days(-1);
    assert_eq!(app.interview_picker_date(), first);
    app.shift_interview_picker_months(-1);
    assert_eq!(app.interview_picker_date(), first);
}

#[test]
fn usage_line_follows_the_mode() {
    let mut app = three_apps();
    assert_eq!(
        app.usage(),
        "Main: ↑/↓ move | a add | e edit | d details | i interview | s status | D delete | Q quit"
    );
    app.start_create();
    assert_eq!(
        app.usage(),
        "Create: Tab next field | type to edit | Backspace delete | Enter save | Esc cancel"
    );
    app.cancel();
    app.start_edit();
    assert_eq!(app.usage(), "Edit: Tab next field | type to edit | Backspace delete | Enter save | Esc cancel");
    app.cancel();
    app.update_status();
    assert_eq!(app.usage(), "Status: ↑/↓ choose status | Enter save | Esc cancel");
    app.cancel_status_update();
    app.open_details();
    assert_eq!(app.usage(), "Details: Esc close");
    app.close_details();
    app.open_interview_date_picker();
    assert_eq!(
        app.usage(),
        "Interview: ←/→ day | ↑/↓ week | PgUp/PgDn month | +/- hour | [/ ] minute | Enter save | Esc cancel"
    );
}

#[test]
fn only_saving_keys_change_the_applications() {
    let keys = [
        Key::Char('a'), Key::Char('x'), Key::Tab, Key::Backspace, Key::Esc, Key::Down, Key::Up,
        Key::Char('e'), Key::Char('y'), Key::Enter, Key::Char('s'), Key::Down, Key::Enter,
        Key::Char('i'), Key::Right, Key::PageDown, Key::Enter, Key::Char('d'), Key::Esc,
        Key::Char('D'), Key::Other, Key::Left, Key::Right,
    ];
    let mut app = three_apps();
    for key in keys {
        let before: Vec<(String, ApplicationStatus, Option<DateTime>)> = app
            .items()
            .iter()
            .map(|a| (a.company_name.clone(), a.application_status, a.interview_date))
            .collect();
        let action = app.handle_key(key);
        let after: Vec<(String, ApplicationStatus, Option<DateTime>)> = app
            .items()
            .iter()
            .map(|a| (a.company_name.clone(), a.application_status, a.interview_date))
            .collect();
        if before != after {
            assert_eq!(action, KeyAction::Save);
        }
        assert_ne!(action, KeyAction::Quit);
    }
}

#[test]
fn moving_down_once_per_application_comes_back() {
    let mut app = three_apps();
    app.next();
    let start = app.table_selection();
    for _ in 0..app.items().len() {
        app.handle_key(Key::Down);
    }
    assert_eq!(app.table_selection(), start);
    assert_eq!(selected_name(&app), "Globex");
}

#[test]
fn picker_moves_keep_seconds_and_nanoseconds() {
    let time = TimeOfDay::from_hms_nano(23, 59, 30, 250_000_000).expect("valid time");
    let start = DateTime::new(CalendarDate::from_ymd(2024, 2, 28).expect("valid date"), time);
    let mut app = App::new_at(vec![], start);
    app.shift_interview_picker_days(1);
    let moved = app.interview_picker_date();
    assert_eq!(moved.date, CalendarDate::from_ymd(2024, 2, 29).expect("valid date"));
    assert_eq!(moved.time, time);
    app.shift_interview_picker_minutes(1);
    let moved = app.interview_picker_date();
    assert_eq!(moved.date, CalendarDate::from_ymd(2024, 3, 1).expect("valid date"));
    assert_eq!((moved.time.hour(), moved.time.minute(), moved.time.second(), moved.time.nanosecond()), (0, 0, 30, 250_000_000));
}

#[test]
fn picker_moves_leave_a_leap_second() {
    let leap = TimeOfDay::from_hms_nano(23, 59, 59, 1_500_000_000).expect("leap second");
    let start = DateTime::new(CalendarDate::from_ymd(2016, 12, 31).expect("valid date"), leap);
    let mut app = App::new_at(vec![], start);
    app.shift_interview_picker_minutes(0);
    assert_eq!(app.interview_picker_date(), start);
    app.shift_interview_picker_minutes(1);
    let moved = app.interview_picker_date();
    assert_eq!(moved.date, CalendarDate::from_ymd(2017, 1, 1).expect("valid date"));
    assert_eq!((moved.time.hour(), moved.time.minute(), moved.time.second(), moved.time.nanosecond()), (0, 0, 59, 500_000_000));
    let mut app = App::new_at(vec![], start);
    app.shift_interview_picker_days(-1);
    let moved = app.interview_picker_date();
    assert_eq!(moved.date, CalendarDate::from_ymd(2016, 12, 31).expect("valid date"));
    assert_eq!((moved.time.hour(), moved.time.minute(), moved.time.second(), moved.time.nanosecond()), (0, 0, 0, 500_000_000));
}
