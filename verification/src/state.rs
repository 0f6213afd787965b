//! The tracker's state as a mathematical value, and what each user action
//! does to it.
use crate::calendar::{days_in_month, naive_checked_add_signed, CalendarDate, DateTime, MAX_YEAR, MIN_YEAR};
use crate::models::{empty_input, ApplicationStatus, ApplicationView, InputView, STATUS_COUNT};
use vstd::prelude::*;

verus! {

/// The number of text fields of the form.
pub const FIELD_COUNT: usize = 5;

/// What the tracker is showing and which keys it listens to.
#[derive(Clone, Copy, Debug, PartialEq, Eq, Structural)]
pub enum AppMode {
    Normal,
    Editing,
    Creating,
    UpdateStatus,
    ViewingDetails,
    PickingInterviewDate,
}

/// A key press, as far as the tracker tells keys apart.
#[derive(Clone, Copy, Debug, PartialEq, Eq, Structural)]
pub enum Key {
    Char(char),
    Up,
    Down,
    Left,
    Right,
    PageUp,
    PageDown,
    Enter,
    Esc,
    Tab,
    Backspace,
    Other,
}

/// What the caller must do after a key press.
#[derive(Clone, Copy, Debug, PartialEq, Eq, Structural)]
pub enum KeyAction {
    /// Nothing: draw the next frame.
    Continue,
    /// Write the applications to storage, then go on.
    Save,
    /// Leave the program.
    Quit,
}

/// The span, in seconds, by which a key moves the interview date picker:
/// a day either way with the left and right arrows, a week with the up and
/// down arrows, an hour with `+` and `-`, a quarter of an hour with `]` and
/// `[`; `None` for the other keys.
pub open spec fn picker_key_seconds(key: Key) -> Option<int> {
    match key {
        Key::Left => Some(-86400),
        Key::Right => Some(86400),
        Key::Up => Some(-604800),
        Key::Down => Some(604800),
        Key::Char(c) => if c == '+' {
            Some(3600)
        } else if c == '-' {
            Some(-3600)
        } else if c == ']' {
            Some(900)
        } else if c == '[' {
            Some(-900)
        } else {
            None
        },
        _ => None,
    }
}

/// The whole state of the tracker.
pub struct AppView {
    pub items: Seq<ApplicationView>,
    pub selected: usize,
    pub table_selection: Option<usize>,
    pub mode: AppMode,
    pub input: InputView,
    pub status_selection: Option<usize>,
    pub status_cursor: usize,
    pub highlight_symbol: Seq<char>,
    pub picker: DateTime,
}

/// The last character of the text removed, if there is one.
pub open spec fn pop_text(s: Seq<char>) -> Seq<char> {
    if s.len() == 0 {
        s
    } else {
        s.drop_last()
    }
}

/// Year and month reached by moving `months` months from `year`/`month`.
pub open spec fn shifted_month(year: int, month: int, months: int) -> (int, int) {
    let total = month - 1 + months;
    (year + total / 12, total % 12 + 1)
}

/// The usage line shown for each mode.
pub open spec fn usage_text(mode: AppMode) -> Seq<char> {
    match mode {
        AppMode::Normal =>
            "Main: ↑/↓ move | a add | e edit | d details | i interview | s status | D delete | Q quit"@,
        AppMode::Creating =>
            "Create: Tab next field | type to edit | Backspace delete | Enter save | Esc cancel"@,
        AppMode::Editing =>
            "Edit: Tab next field | type to edit | Backspace delete | Enter save | Esc cancel"@,
        AppMode::UpdateStatus => "Status: ↑/↓ choose status | Enter save | Esc cancel"@,
        AppMode::ViewingDetails => "Details: Esc close"@,
        AppMode::PickingInterviewDate =>
            "Interview: ←/→ day | ↑/↓ week | PgUp/PgDn month | +/- hour | [/ ] minute | Enter save | Esc cancel"@,
    }
}

impl AppView {
    /// The state the tracker starts in, with the loaded applications and the
    /// date picker on `now`.
    pub open spec fn initial(items: Seq<ApplicationView>, now: DateTime) -> AppView {
        AppView {
            items,
            selected: 0,
            table_selection: Some(0),
            mode: AppMode::Normal,
            input: empty_input(),
            status_selection: None,
            status_cursor: 0,
            highlight_symbol: "-> "@,
            picker: now,
        }
    }

    /// The list fits in memory; the selection points at an application, or
    /// at 0 when there is none,
    /// and the table highlights it; the status cursor stays in range and the
    /// status list highlights it once opened; the form's field is in range.
    pub open spec fn wf(self) -> bool {
        &&& self.items.len() <= usize::MAX
        &&& (self.selected < self.items.len() || self.selected == 0)
        &&& self.table_selection == Some(self.selected)
        &&& self.status_cursor < STATUS_COUNT
        &&& (self.status_selection == Some(self.status_cursor) || (self.status_selection
            is None && self.status_cursor == 0))
        &&& self.input.input_field < FIELD_COUNT
    }

    /// The selected application exists.
    pub open spec fn has_selection(self) -> bool {
        self.selected < self.items.len()
    }

    pub open spec fn with_mode(self, mode: AppMode) -> AppView {
        AppView { mode, ..self }
    }

    pub open spec fn next(self) -> AppView {
        if self.items.len() == 0 {
            self
        } else {
            let s = ((self.selected + 1) % (self.items.len() as int)) as usize;
            AppView { selected: s, table_selection: Some(s), ..self }
        }
    }

    pub open spec fn previous(self) -> AppView {
        if self.items.len() == 0 {
            self
        } else {
            let s = if self.selected == 0 {
                (self.items.len() - 1) as usize
            } else {
                (self.selected - 1) as usize
            };
            AppView { selected: s, table_selection: Some(s), ..self }
        }
    }

    pub open spec fn delete(self) -> AppView {
        if self.items.len() == 0 {
            self
        } else {
            let items = self.items.remove(self.selected as int);
            let s = if self.selected >= items.len() && items.len() > 0 {
                (items.len() - 1) as usize
            } else {
                self.selected
            };
            AppView { items, selected: s, table_selection: Some(s), ..self }
        }
    }

    pub open spec fn start_create(self) -> AppView {
        AppView { mode: AppMode::Creating, input: empty_input(), ..self }
    }

    pub open spec fn start_edit(self) -> AppView {
        if self.has_selection() {
            AppView {
                mode: AppMode::Editing,
                input: InputView::from_application(self.items[self.selected as int]),
                ..self
            }
        } else {
            self
        }
    }

    pub open spec fn open_details(self) -> AppView {
        if self.items.len() > 0 {
            self.with_mode(AppMode::ViewingDetails)
        } else {
            self
        }
    }

    /// Opens the date picker on the selected application's interview date,
    /// or on `now` when it has none.
    pub open spec fn open_interview_date_picker(self, now: DateTime) -> AppView {
        if self.has_selection() {
            let picker = match self.items[self.selected as int].interview_date {
                Some(d) => d,
                None => now,
            };
            AppView { picker, mode: AppMode::PickingInterviewDate, ..self }
        } else {
            self
        }
    }

    pub open spec fn confirm_interview_date(self) -> AppView {
        if self.has_selection() {
            let item = self.items[self.selected as int];
            let item = ApplicationView {
                interview_date: Some(self.picker),
                application_status: ApplicationStatus::InterviewScheduled,
                ..item
            };
            AppView {
                items: self.items.update(self.selected as int, item),
                mode: AppMode::Normal,
                ..self
            }
        } else {
            self.with_mode(AppMode::Normal)
        }
    }

    /// Saves the form: a new application dated `now` when creating, the
    /// selected one updated when editing.
    pub open spec fn confirm(self, now: DateTime) -> AppView {
        let s1 = if self.mode == AppMode::Creating {
            let items = self.items.push(ApplicationView::from_input(self.input, now));
            AppView { items, selected: (items.len() - 1) as usize, ..self }
        } else if self.mode == AppMode::Editing && self.has_selection() {
            let item = self.items[self.selected as int].updated(self.input);
            AppView { items: self.items.update(self.selected as int, item), ..self }
        } else {
            self
        };
        AppView { mode: AppMode::Normal, table_selection: Some(s1.selected), ..s1 }
    }

    pub open spec fn cancel(self) -> AppView {
        AppView { input: empty_input(), mode: AppMode::Normal, ..self }
    }

    pub open spec fn update_status(self) -> AppView {
        AppView {
            mode: AppMode::UpdateStatus,
            status_cursor: 0,
            status_selection: Some(0),
            ..self
        }
    }

    pub open spec fn next_status(self) -> AppView {
        let c = ((self.status_cursor + 1) % (STATUS_COUNT as int)) as usize;
        AppView { status_cursor: c, status_selection: Some(c), ..self }
    }

    pub open spec fn previous_status(self) -> AppView {
        let c = if self.status_cursor == 0 {
            (STATUS_COUNT - 1) as usize
        } else {
            (self.status_cursor - 1) as usize
        };
        AppView { status_cursor: c, status_selection: Some(c), ..self }
    }

    pub open spec fn confirm_status_update(self) -> AppView {
        if self.mode == AppMode::UpdateStatus && self.status_cursor < STATUS_COUNT
            && self.has_selection() {
            let item = ApplicationView {
                application_status: ApplicationStatus::nth(self.status_cursor as int),
                ..self.items[self.selected as int]
            };
            AppView {
                items: self.items.update(self.selected as int, item),
                mode: AppMode::Normal,
                ..self
            }
        } else {
            self.with_mode(AppMode::Normal)
        }
    }

    /// Moves the date picker by `seconds` seconds, or leaves it where it is
    /// when the result would leave the supported range.
    pub open spec fn shift_picker_seconds(self, seconds: i64) -> AppView {
        match naive_checked_add_signed(self.picker, seconds) {
            Some(d) => AppView { picker: d, ..self },
            None => self,
        }
    }

    /// Moves the date picker by `months` months, keeping the time of day and
    /// the day of the month, cut down to the month's length; it stays where
    /// it is when the year leaves the supported range.
    pub open spec fn shift_picker_months(self, months: int) -> AppView {
        let date = self.picker.date;
        let ym = shifted_month(date.spec_year() as int, date.spec_month() as int, months);
        let (year, month) = (ym.0, ym.1);
        let dim = days_in_month(year, month);
        let day = if date.spec_day() <= dim { date.spec_day() as int } else { dim };
        if MIN_YEAR <= year <= MAX_YEAR {
            AppView {
                picker: DateTime {
                    date: CalendarDate::spec_new(year as i32, month as u32, day as u32),
                    time: self.picker.time,
                },
                ..self
            }
        } else {
            self
        }
    }

    pub open spec fn next_input_field(self) -> AppView {
        AppView {
            input: InputView {
                input_field: ((self.input.input_field + 1) % (FIELD_COUNT as int)) as usize,
                ..self.input
            },
            ..self
        }
    }

    pub open spec fn backspace_input(self) -> AppView {
        let i = self.input;
        let input = if i.input_field == 0 {
            InputView { company_name: pop_text(i.company_name), ..i }
        } else if i.input_field == 1 {
            InputView { description: pop_text(i.description), ..i }
        } else if i.input_field == 2 {
            InputView { origin: pop_text(i.origin), ..i }
        } else if i.input_field == 3 {
            InputView { url: pop_text(i.url), ..i }
        } else if i.input_field == 4 {
            InputView { comments: pop_text(i.comments), ..i }
        } else {
            i
        };
        AppView { input, ..self }
    }

    pub open spec fn push_input_char(self, c: char) -> AppView {
        let i = self.input;
        let input = if i.input_field == 0 {
            InputView { company_name: i.company_name.push(c), ..i }
        } else if i.input_field == 1 {
            InputView { description: i.description.push(c), ..i }
        } else if i.input_field == 2 {
            InputView { origin: i.origin.push(c), ..i }
        } else if i.input_field == 3 {
            InputView { url: i.url.push(c), ..i }
        } else if i.input_field == 4 {
            InputView { comments: i.comments.push(c), ..i }
        } else {
            i
        };
        AppView { input, ..self }
    }

    /// What a key press does: the next state and the action owed, with
    /// `utc` the time a newly created application is dated with and `local`
    /// the date an empty date picker opens on.
    pub open spec fn on_key(self, key: Key, utc: DateTime, local: DateTime) -> (AppView, KeyAction) {
        match self.mode {
            AppMode::Normal => match key {
                Key::Char('Q') => (self, KeyAction::Quit),
                Key::Down => (self.next(), KeyAction::Continue),
                Key::Up => (self.previous(), KeyAction::Continue),
                Key::Char('a') => (self.start_create(), KeyAction::Continue),
                Key::Char('e') => (self.start_edit(), KeyAction::Continue),
                Key::Char('d') => (self.open_details(), KeyAction::Continue),
                Key::Char('D') => (
                    self.delete(),
                    if self.items.len() > 0 { KeyAction::Save } else { KeyAction::Continue },
                ),
                Key::Char('s') => (self.update_status(), KeyAction::Continue),
                Key::Char('i') => (self.open_interview_date_picker(local), KeyAction::Continue),
                _ => (self, KeyAction::Continue),
            },
            AppMode::Creating | AppMode::Editing => match key {
                Key::Esc => (self.cancel(), KeyAction::Continue),
                Key::Enter => (self.confirm(utc), KeyAction::Save),
                Key::Tab => (self.next_input_field(), KeyAction::Continue),
                Key::Backspace => (self.backspace_input(), KeyAction::Continue),
                Key::Char(c) => (self.push_input_char(c), KeyAction::Continue),
                _ => (self, KeyAction::Continue),
            },
            AppMode::UpdateStatus => match key {
                Key::Down => (self.next_status(), KeyAction::Continue),
                Key::Up => (self.previous_status(), KeyAction::Continue),
                Key::Esc => (self.with_mode(AppMode::Normal), KeyAction::Continue),
                Key::Enter => (self.confirm_status_update(), KeyAction::Save),
                _ => (self, KeyAction::Continue),
            },
            AppMode::ViewingDetails => match key {
                Key::Esc => (self.with_mode(AppMode::Normal), KeyAction::Continue),
                _ => (self, KeyAction::Continue),
            },
            AppMode::PickingInterviewDate => match key {
                Key::Esc => (self.with_mode(AppMode::Normal), KeyAction::Continue),
                Key::Left => (self.shift_picker_seconds(-86400i64), KeyAction::Continue),
                Key::Right => (self.shift_picker_seconds(86400i64), KeyAction::Continue),
                Key::Up => (self.shift_picker_seconds(-604800i64), KeyAction::Continue),
                Key::Down => (self.shift_picker_seconds(604800i64), KeyAction::Continue),
                Key::PageUp => (self.shift_picker_months(-1), KeyAction::Continue),
                Key::PageDown => (self.shift_picker_months(1), KeyAction::Continue),
                Key::Char('+') => (self.shift_picker_seconds(3600i64), KeyAction::Continue),
                Key::Char('-') => (self.shift_picker_seconds(-3600i64), KeyAction::Continue),
                Key::Char(']') => (self.shift_picker_seconds(900i64), KeyAction::Continue),
                Key::Char('[') => (self.shift_picker_seconds(-900i64), KeyAction::Continue),
                Key::Enter => (
                    self.confirm_interview_date(),
                    if self.has_selection() { KeyAction::Save } else { KeyAction::Continue },
                ),
                _ => (self, KeyAction::Continue),
            },
        }
    }
}

} // verus!
