//! The tracker's state machine: the list of applications, the form, the
//! status picker and the interview date picker, driven key by key.
use crate::calendar::{
    chrono_checked_add_seconds, clock_local_now, clock_utc_now, days_in_month, is_valid_ymd, moved_by_seconds,
    CalendarDate, DateTime, MAX_SPAN_SECONDS, MAX_YEAR, MIN_YEAR,
};
use crate::models::{
    views, Application, ApplicationStatus, InputApplication, STATUS_COUNT,
};
use crate::state::{picker_key_seconds, shifted_month, usage_text, AppMode, AppView, Key, KeyAction, FIELD_COUNT};
use vstd::prelude::*;

verus! {

/// `String::push` appends the character to the end of the string.
pub assume_specification[ String::push ](s: &mut String, ch: char)
    ensures
        final(s)@ == old(s)@.push(ch),
;

/// `String::pop` removes the last character and returns it, or returns
/// `None` and leaves the string alone when it is empty.
pub assume_specification[ String::pop ](s: &mut String) -> (r: Option<char>)
    ensures
        old(s)@.len() == 0 ==> r is None && final(s)@ == old(s)@,
        old(s)@.len() > 0 ==> r == Some(old(s)@.last()) && final(s)@ == old(s)@.drop_last(),
;

/// The tracker.
pub struct App {
    items: Vec<Application>,
    selected: usize,
    table_selection: Option<usize>,
    mode: AppMode,
    input: InputApplication,
    status_selection: Option<usize>,
    selected_application_state: usize,
    highlight_symbol: String,
    interview_picker_date: DateTime,
}

impl View for App {
    type V = AppView;

    closed spec fn view(&self) -> AppView {
        AppView {
            items: views(self.items@),
            selected: self.selected,
            table_selection: self.table_selection,
            mode: self.mode,
            input: self.input@,
            status_selection: self.status_selection,
            status_cursor: self.selected_application_state,
            highlight_symbol: self.highlight_symbol@,
            picker: self.interview_picker_date,
        }
    }
}

/// Year and month reached from a month count kept in a normal form.
proof fn lemma_month_normal_form(year: int, month: int, year0: int, total: int)
    requires
        1 <= month <= 12,
        year * 12 + month == year0 * 12 + total + 1,
    ensures
        year == year0 + total / 12,
        month == total % 12 + 1,
{
    vstd::arithmetic::div_mod::lemma_fundamental_div_mod_converse(total, 12, year - year0, month - 1);
}

impl App {
    /// The state is well formed (see `AppView::wf`).
    pub open spec fn wf(&self) -> bool {
        self@.wf()
    }

    /// A tracker over the loaded applications, with the date picker on `now`.
    pub fn new_at(items: Vec<Application>, now: DateTime) -> (app: App)
        ensures
            app.wf(),
            app@ == AppView::initial(views(items@), now),
    {
        let app = App {
            items,
            selected: 0,
            table_selection: Some(0),
            mode: AppMode::Normal,
            input: InputApplication::default(),
            status_selection: None,
            selected_application_state: 0,
            highlight_symbol: String::from_str("-> "),
            interview_picker_date: now,
        };
        assert(app.items@.len() == app.items.len());
        app
    }

    /// A tracker over the loaded applications, with the date picker on the
    /// local date and time.
    pub fn new(items: Vec<Application>) -> (app: App)
        ensures
            app.wf(),
            app@ == AppView::initial(views(items@), app@.picker),
    {
        let now = clock_local_now();
        App::new_at(items, now)
    }

    pub fn mode(&self) -> (r: &AppMode)
        ensures
            *r == self@.mode,
    {
        &self.mode
    }

    pub fn items(&self) -> (r: &[Application])
        ensures
            views(r@) == self@.items,
    {
        self.items.as_slice()
    }

    pub fn input(&self) -> (r: &InputApplication)
        ensures
            r@ == self@.input,
    {
        &self.input
    }

    /// The selected application, if there is one.
    pub fn selected_item(&self) -> (r: Option<&Application>)
        ensures
            r is Some <==> self@.has_selection(),
            r matches Some(a) ==> a@ == self@.items[self@.selected as int],
    {
        if self.selected < self.items.len() {
            Some(&self.items[self.selected])
        } else {
            None
        }
    }

    /// The row of the application table to highlight.
    pub fn table_selection(&self) -> (r: Option<usize>)
        ensures
            r == self@.table_selection,
    {
        self.table_selection
    }

    /// The row of the status list to highlight.
    pub fn status_list_selection(&self) -> (r: Option<usize>)
        ensures
            r == self@.status_selection,
    {
        self.status_selection
    }

    pub fn highlight_symbol(&self) -> (r: &str)
        ensures
            r@ == self@.highlight_symbol,
    {
        self.highlight_symbol.as_str()
    }

    pub fn interview_picker_date(&self) -> (r: DateTime)
        ensures
            r == self@.picker,
    {
        self.interview_picker_date
    }

    /// Selects the next application, wrapping around at the end.
    pub fn next(&mut self)
        requires
            old(self).wf(),
        ensures
            final(self).wf(),
            final(self)@ == old(self)@.next(),
    {
        if self.items.len() == 0 {
            return;
        }
        self.selected = (self.selected + 1) % self.items.len();
        self.table_selection = Some(self.selected);
    }

    /// Selects the previous application, wrapping around at the start.
    pub fn previous(&mut self)
        requires
            old(self).wf(),
        ensures
            final(self).wf(),
            final(self)@ == old(self)@.previous(),
    {
        if self.items.len() == 0 {
            return;
        }
        if self.selected == 0 {
            self.selected = self.items.len() - 1;
        } else {
            self.selected = self.selected - 1;
        }
        self.table_selection = Some(self.selected);
    }

    /// Deletes the selected application; the result says whether the
    /// applications must be written to storage.
    pub fn delete(&mut self) -> (save: bool)
        requires
            old(self).wf(),
        ensures
            final(self).wf(),
            final(self)@ == old(self)@.delete(),
            save == (old(self)@.items.len() > 0),
    {
        if self.items.len() == 0 {
            return false;
        }
        let ghost before = self.items@;
        self.items.remove(self.selected);
        proof {
            assert(views(self.items@) =~= views(before).remove(self.selected as int));
        }
        if self.selected >= self.items.len() && self.items.len() > 0 {
            self.selected = self.items.len() - 1;
        }
        self.table_selection = Some(self.selected);
        true
    }

    /// Opens an empty form for a new application.
    pub fn start_create(&mut self)
        requires
            old(self).wf(),
        ensures
            final(self).wf(),
            final(self)@ == old(self)@.start_create(),
    {
        self.mode = AppMode::Creating;
        self.input.clear();
    }

    /// Opens the form on the selected application.
    pub fn start_edit(&mut self)
        requires
            old(self).wf(),
        ensures
            final(self).wf(),
            final(self)@ == old(self)@.start_edit(),
    {
        if self.selected < self.items.len() {
            self.mode = AppMode::Editing;
            self.input = InputApplication::from(&self.items[self.selected]);
        }
    }

    pub fn open_details(&mut self)
        requires
            old(self).wf(),
        ensures
            final(self).wf(),
            final(self)@ == old(self)@.open_details(),
    {
        if self.items.len() > 0 {
            self.mode = AppMode::ViewingDetails;
        }
    }

    pub fn close_details(&mut self)
        requires
            old(self).wf(),
        ensures
            final(self).wf(),
            final(self)@ == old(self)@.with_mode(AppMode::Normal),
    {
        self.mode = AppMode::Normal;
    }

    /// Opens the date picker on the selected application's interview date,
    /// or on `now` when it has none.
    pub fn open_interview_date_picker_at(&mut self, now: DateTime)
        requires
            old(self).wf(),
        ensures
            final(self).wf(),
            final(self)@ == old(self)@.open_interview_date_picker(now),
    {
        if self.selected < self.items.len() {
            self.interview_picker_date = match self.items[self.selected].interview_date {
                Some(d) => d,
                None => now,
            };
            self.mode = AppMode::PickingInterviewDate;
        }
    }

    /// Opens the date picker on the selected application's interview date,
    /// or on the local date and time when it has none.
    pub fn open_interview_date_picker(&mut self)
        requires
            old(self).wf(),
        ensures
            final(self).wf(),
            final(self)@ == old(self)@.open_interview_date_picker(final(self)@.picker),
    {
        let now = if self.selected < self.items.len() && self.items[self.selected].interview_date.is_none() {
            clock_local_now()
        } else {
            self.interview_picker_date
        };
        self.open_interview_date_picker_at(now);
    }

    pub fn close_interview_date_picker(&mut self)
        requires
            old(self).wf(),
        ensures
            final(self).wf(),
            final(self)@ == old(self)@.with_mode(AppMode::Normal),
    {
        self.mode = AppMode::Normal;
    }

    /// Sets the selected application's interview to the picked date and
    /// marks it scheduled; the result says whether the applications must be
    /// written to storage.
    pub fn confirm_interview_date(&mut self) -> (save: bool)
        requires
            old(self).wf(),
        ensures
            final(self).wf(),
            final(self)@ == old(self)@.confirm_interview_date(),
            save == old(self)@.has_selection(),
    {
        let mut save = false;
        if self.selected < self.items.len() {
            let ghost before = self.items@;
            let picked = self.interview_picker_date;
            self.items[self.selected].interview_date = Some(picked);
            self.items[self.selected].application_status = ApplicationStatus::InterviewScheduled;
            proof {
                assert(views(self.items@) =~= views(before).update(
                    self.selected as int,
                    self@.items[self.selected as int],
                ));
            }
            save = true;
        }
        self.mode = AppMode::Normal;
        save
    }

    /// Saves the form, dating a new application with `now`; the
    /// applications must then be written to storage.
    pub fn confirm_at(&mut self, now: DateTime) -> (save: bool)
        requires
            old(self).wf(),
        ensures
            final(self).wf(),
            final(self)@ == old(self)@.confirm(now),
            save,
    {
        match self.mode {
            AppMode::Creating => {
                let ghost before = self.items@;
                let item = Application::from_input_at(self.input.clone(), now);
                self.items.push(item);
                proof {
                    assert(views(self.items@) =~= views(before).push(item@));
                }
                self.selected = self.items.len() - 1;
            },
            AppMode::Editing => {
                if self.selected < self.items.len() {
                    let ghost before = self.items@;
                    self.items[self.selected].update(&self.input);
                    proof {
                        assert(views(self.items@) =~= views(before).update(
                            self.selected as int,
                            self@.items[self.selected as int],
                        ));
                    }
                }
            },
            _ => {},
        }
        self.mode = AppMode::Normal;
        self.table_selection = Some(self.selected);
        true
    }

    /// Saves the form, dating a new application with the current UTC time;
    /// the applications must then be written to storage.
    pub fn confirm(&mut self) -> (save: bool)
        requires
            old(self).wf(),
        ensures
            final(self).wf(),
            final(self)@ == old(self)@.confirm(final(self)@.items.last().application_date),
            save,
    {
        let now = if self.mode == AppMode::Creating {
            clock_utc_now()
        } else {
            self.interview_picker_date
        };
        self.confirm_at(now)
    }

    /// Drops the form and goes back to the list.
    pub fn cancel(&mut self)
        requires
            old(self).wf(),
        ensures
            final(self).wf(),
            final(self)@ == old(self)@.cancel(),
    {
        self.input.clear();
        self.mode = AppMode::Normal;
    }

    /// The usage line for the current mode.
    pub fn usage(&self) -> (r: &'static str)
        ensures
            r@ == usage_text(self@.mode),
    {
        match self.mode {
            AppMode::Normal => {
                "Main: ↑/↓ move | a add | e edit | d details | i interview | s status | D delete | Q quit"
            },
            AppMode::Creating => {
                "Create: Tab next field | type to edit | Backspace delete | Enter save | Esc cancel"
            },
            AppMode::Editing => {
                "Edit: Tab next field | type to edit | Backspace delete | Enter save | Esc cancel"
            },
            AppMode::UpdateStatus => "Status: ↑/↓ choose status | Enter save | Esc cancel",
            AppMode::ViewingDetails => "Details: Esc close",
            AppMode::PickingInterviewDate => {
                "Interview: ←/→ day | ↑/↓ week | PgUp/PgDn month | +/- hour | [/ ] minute | Enter save | Esc cancel"
            },
        }
    }

    /// Opens the status picker on its first entry.
    pub fn update_status(&mut self)
        requires
            old(self).wf(),
        ensures
            final(self).wf(),
            final(self)@ == old(self)@.update_status(),
    {
        self.mode = AppMode::UpdateStatus;
        self.selected_application_state = 0;
        self.status_selection = Some(0);
    }

    pub fn cancel_status_update(&mut self)
        requires
            old(self).wf(),
        ensures
            final(self).wf(),
            final(self)@ == old(self)@.with_mode(AppMode::Normal),
    {
        self.mode = AppMode::Normal;
    }

    /// Moves the status picker down, wrapping around at the end.
    pub fn next_status(&mut self)
        requires
            old(self).wf(),
        ensures
            final(self).wf(),
            final(self)@ == old(self)@.next_status(),
    {
        self.selected_application_state = (self.selected_application_state + 1) % STATUS_COUNT;
        self.status_selection = Some(self.selected_application_state);
    }

    /// Moves the status picker up, wrapping around at the start.
    pub fn previous_status(&mut self)
        requires
            old(self).wf(),
        ensures
            final(self).wf(),
            final(self)@ == old(self)@.previous_status(),
    {
        if self.selected_application_state == 0 {
            self.selected_application_state = STATUS_COUNT - 1;
        } else {
            self.selected_application_state = self.selected_application_state - 1;
        }
        self.status_selection = Some(self.selected_application_state);
    }

    /// Gives the selected application the picked status; the applications
    /// must then be written to storage.
    pub fn confirm_status_update(&mut self) -> (save: bool)
        requires
            old(self).wf(),
        ensures
            final(self).wf(),
            final(self)@ == old(self)@.confirm_status_update(),
            save,
    {
        if self.mode == AppMode::UpdateStatus {
            if let Some(new_status) = ApplicationStatus::from_index(self.selected_application_state) {
                if self.selected < self.items.len() {
                    let ghost before = self.items@;
                    self.items[self.selected].application_status = new_status;
                    proof {
                        assert(views(self.items@) =~= views(before).update(
                            self.selected as int,
                            self@.items[self.selected as int],
                        ));
                    }
                }
            }
        }
        self.mode = AppMode::Normal;
        true
    }

    /// Moves the date picker by `days` days; it stays where it is when the
    /// result would leave the supported range.
    pub fn shift_interview_picker_days(&mut self, days: i64)
        requires
            old(self).wf(),
            -MAX_SPAN_SECONDS <= days * 86400 <= MAX_SPAN_SECONDS,
        ensures
            final(self).wf(),
            final(self)@ == old(self)@.shift_picker_seconds((days * 86400) as i64),
            moved_by_seconds(old(self)@.picker, final(self)@.picker, days * 86400),
    {
        let seconds = days * 86400;
        if let Some(d) = chrono_checked_add_seconds(self.interview_picker_date, seconds) {
            self.interview_picker_date = d;
        }
    }

    /// Moves the date picker by `minutes` minutes; it stays where it is when
    /// the result would leave the supported range.
    pub fn shift_interview_picker_minutes(&mut self, minutes: i64)
        requires
            old(self).wf(),
            -MAX_SPAN_SECONDS <= minutes * 60 <= MAX_SPAN_SECONDS,
        ensures
            final(self).wf(),
            final(self)@ == old(self)@.shift_picker_seconds((minutes * 60) as i64),
            moved_by_seconds(old(self)@.picker, final(self)@.picker, minutes * 60),
    {
        let seconds = minutes * 60;
        if let Some(d) = chrono_checked_add_seconds(self.interview_picker_date, seconds) {
            self.interview_picker_date = d;
        }
    }

    /// Moves the date picker by `months` months, keeping the time of day and
    /// cutting the day down to the length of the new month.
    pub fn shift_interview_picker_months(&mut self, months: i32)
        requires
            old(self).wf(),
            old(self)@.picker.date.spec_month() + months <= i32::MAX,
        ensures
            final(self).wf(),
            final(self)@ == old(self)@.shift_picker_months(months as int),
    {
        let date = self.interview_picker_date.date;
        let time = self.interview_picker_date.time;
        proof {
            use_type_invariant(&date);
        }
        let ghost y0 = date.spec_year() as int;
        let ghost m0 = date.spec_month() as int;
        let mut year: i32 = date.year();
        let mut month: i32 = date.month() as i32 + months;
        while month < 1
            invariant
                MIN_YEAR <= y0 <= MAX_YEAR,
                1 <= m0 <= 12,
                year * 12 + month == y0 * 12 + m0 + months,
                m0 + months <= month,
                month <= 12 || month == m0 + months,
            decreases 12 - month,
        {
            year = year - 1;
            month = month + 12;
        }
        while month > 12
            invariant
                MIN_YEAR <= y0 <= MAX_YEAR,
                1 <= m0 <= 12,
                year * 12 + month == y0 * 12 + m0 + months,
                1 <= month,
                month <= 12 || month <= m0 + months,
            decreases month,
        {
            year = year + 1;
            month = month - 12;
        }
        proof {
            lemma_month_normal_form(year as int, month as int, y0, m0 + months - 1);
        }
        let month_u32 = month as u32;
        let mut day: u32 = date.day();
        let ghost d0 = date.spec_day() as int;
        while CalendarDate::from_ymd(year, month_u32, day).is_none() && day > 1
            invariant
                1 <= day <= d0,
                forall|dd: int|
                    day < dd <= d0 ==> !is_valid_ymd(year as int, month_u32 as int, dd),
            decreases day,
        {
            day = day - 1;
        }
        proof {
            let dim = days_in_month(year as int, month as int);
            if MIN_YEAR <= year <= MAX_YEAR {
                assert(is_valid_ymd(year as int, month_u32 as int, 1));
                if d0 <= dim {
                    assert(is_valid_ymd(year as int, month_u32 as int, d0));
                    assert(day == d0);
                } else {
                    assert(is_valid_ymd(year as int, month_u32 as int, dim));
                    assert(day == dim);
                }
            }
        }
        if let Some(new_date) = CalendarDate::from_ymd(year, month_u32, day) {
            self.interview_picker_date = DateTime { date: new_date, time };
        }
    }

    /// Moves the form to its next field, wrapping around after the last.
    pub fn next_input_field(&mut self)
        requires
            old(self).wf(),
        ensures
            final(self).wf(),
            final(self)@ == old(self)@.next_input_field(),
    {
        self.input.input_field = (self.input.input_field + 1) % FIELD_COUNT;
    }

    /// Deletes the last character of the form's current field.
    pub fn backspace_input(&mut self)
        requires
            old(self).wf(),
        ensures
            final(self).wf(),
            final(self)@ == old(self)@.backspace_input(),
    {
        match self.input.input_field {
            0 => {
                self.input.company_name.pop();
            },
            1 => {
                self.input.description.pop();
            },
            2 => {
                self.input.origin.pop();
            },
            3 => {
                self.input.url.pop();
            },
            4 => {
                self.input.comments.pop();
            },
            _ => {},
        }
    }

    /// Types a character into the form's current field.
    pub fn push_input_char(&mut self, c: char)
        requires
            old(self).wf(),
        ensures
            final(self).wf(),
            final(self)@ == old(self)@.push_input_char(c),
    {
        match self.input.input_field {
            0 => self.input.company_name.push(c),
            1 => self.input.description.push(c),
            2 => self.input.origin.push(c),
            3 => self.input.url.push(c),
            4 => self.input.comments.push(c),
            _ => {},
        }
    }

    /// Handles one key press: the state moves as `AppView::on_key` says,
    /// with a newly created application dated with the current UTC time and
    /// an empty date picker opened on the local date and time; the result
    /// says what the caller must do next.
    pub fn handle_key(&mut self, key: Key) -> (action: KeyAction)
        requires
            old(self).wf(),
        ensures
            final(self).wf(),
            (final(self)@, action) == old(self)@.on_key(
                key,
                final(self)@.items.last().application_date,
                final(self)@.picker,
            ),
            old(self)@.mode == AppMode::PickingInterviewDate && picker_key_seconds(key) is Some
                ==> moved_by_seconds(old(self)@.picker, final(self)@.picker, picker_key_seconds(key).unwrap()),
    {
        proof {
            use_type_invariant(&self.interview_picker_date.date);
        }
        match self.mode {
            AppMode::Normal => match key {
                Key::Char('Q') => {
                    return KeyAction::Quit;
                },
                Key::Down => self.next(),
                Key::Up => self.previous(),
                Key::Char('a') => self.start_create(),
                Key::Char('e') => self.start_edit(),
                Key::Char('d') => self.open_details(),
                Key::Char('D') => {
                    if self.delete() {
                        return KeyAction::Save;
                    }
                },
                Key::Char('s') => self.update_status(),
                Key::Char('i') => self.open_interview_date_picker(),
                _ => {},
            },
            AppMode::Creating | AppMode::Editing => match key {
                Key::Esc => self.cancel(),
                Key::Enter => {
                    self.confirm();
                    return KeyAction::Save;
                },
                Key::Tab => self.next_input_field(),
                Key::Backspace => self.backspace_input(),
                Key::Char(c) => self.push_input_char(c),
                _ => {},
            },
            AppMode::UpdateStatus => match key {
                Key::Down => self.next_status(),
                Key::Up => self.previous_status(),
                Key::Esc => self.cancel_status_update(),
                Key::Enter => {
                    self.confirm_status_update();
                    return KeyAction::Save;
                },
                _ => {},
            },
            AppMode::ViewingDetails => match key {
                Key::Esc => self.close_details(),
                _ => {},
            },
            AppMode::PickingInterviewDate => match key {
                Key::Esc => self.close_interview_date_picker(),
                Key::Left => self.shift_interview_picker_days(-1),
                Key::Right => self.shift_interview_picker_days(1),
                Key::Up => self.shift_interview_picker_days(-7),
                Key::Down => self.shift_interview_picker_days(7),
                Key::PageUp => self.shift_interview_picker_months(-1),
                Key::PageDown => self.shift_interview_picker_months(1),
                Key::Char('+') => self.shift_interview_picker_minutes(60),
                Key::Char('-') => self.shift_interview_picker_minutes(-60),
                Key::Char(']') => self.shift_interview_picker_minutes(15),
                Key::Char('[') => self.shift_interview_picker_minutes(-15),
                Key::Enter => {
                    if self.confirm_interview_date() {
                        return KeyAction::Save;
                    }
                },
                _ => {},
            },
        }
        KeyAction::Continue
    }
}

} // verus!
