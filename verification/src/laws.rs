//! Properties that hold across the tracker's actions.
use crate::calendar::{days_in_month, CalendarDate, DateTime, MAX_YEAR, MIN_YEAR};
use crate::models::{empty_input, ApplicationStatus, ApplicationView, InputView, STATUS_COUNT};
use crate::state::{shifted_month, AppMode, AppView, Key, KeyAction, FIELD_COUNT};
use vstd::arithmetic::div_mod::{
    lemma_add_mod_noop_right, lemma_fundamental_div_mod, lemma_fundamental_div_mod_converse,
    lemma_mod_pos_bound, lemma_mod_self_0, lemma_small_mod,
};
use vstd::prelude::*;

verus! {

/// Moving the selection down and then up again gives back the same state.
pub proof fn law_next_then_previous(s: AppView)
    requires
        s.wf(),
    ensures
        s.next().previous() == s,
{
    if s.items.len() > 0 {
        let len = s.items.len() as int;
        if s.selected + 1 < len {
            lemma_fundamental_div_mod_converse(s.selected + 1, len, 0, s.selected + 1);
            assert(s.next().selected == s.selected + 1);
        } else {
            lemma_fundamental_div_mod_converse(s.selected + 1, len, 1, 0);
            assert(s.next().selected == 0);
        }
        assert(s.next().previous().selected == s.selected);
    }
}

/// Moving the selection up and then down again gives back the same state.
pub proof fn law_previous_then_next(s: AppView)
    requires
        s.wf(),
    ensures
        s.previous().next() == s,
{
    if s.items.len() > 0 {
        let len = s.items.len() as int;
        let p = s.previous().selected as int;
        if p + 1 < len {
            lemma_fundamental_div_mod_converse(p + 1, len, 0, p + 1);
            assert(s.previous().next().selected == p + 1);
        } else {
            lemma_fundamental_div_mod_converse(p + 1, len, 1, 0);
            assert(s.previous().next().selected == 0);
        }
        assert(s.previous().next().selected == s.selected);
    }
}

/// Once the status list is open, moving its cursor down and then up again
/// gives back the same state.
pub proof fn law_next_status_then_previous(s: AppView)
    requires
        s.wf(),
        s.status_selection == Some(s.status_cursor),
    ensures
        s.next_status().previous_status() == s,
{
}

/// Typing a character and then deleting it gives back the same form.
pub proof fn law_type_then_backspace(s: AppView, c: char)
    requires
        s.wf(),
    ensures
        s.push_input_char(c).backspace_input() == s,
{
    let i = s.input;
    assert(i.company_name.push(c).drop_last() =~= i.company_name);
    assert(i.description.push(c).drop_last() =~= i.description);
    assert(i.origin.push(c).drop_last() =~= i.origin);
    assert(i.url.push(c).drop_last() =~= i.url);
    assert(i.comments.push(c).drop_last() =~= i.comments);
}

/// Updating an application from a form filled with that application
/// changes nothing.
pub proof fn law_update_from_own_form(a: ApplicationView)
    ensures
        a.updated(InputView::from_application(a)) == a,
{
}

/// Opening the editor on the selected application and saving without
/// changes leaves the applications as they were and returns to the list.
pub proof fn law_edit_without_changes(s: AppView, now: DateTime)
    requires
        s.wf(),
        s.has_selection(),
    ensures
        s.start_edit().confirm(now).items == s.items,
        s.start_edit().confirm(now).mode == AppMode::Normal,
{
    law_update_from_own_form(s.items[s.selected as int]);
    assert(s.start_edit().confirm(now).items =~= s.items);
}

/// Cancelling a form never changes the applications, and goes back to the
/// list with an empty form.
pub proof fn law_cancel_keeps_applications(s: AppView)
    ensures
        s.cancel().items == s.items,
        s.cancel().mode == AppMode::Normal,
        s.cancel().input == empty_input(),
{
}

/// Only `Q` on the list quits.
pub proof fn law_only_q_quits(s: AppView, key: Key, utc: DateTime, local: DateTime)
    ensures
        (s.on_key(key, utc, local).1 == KeyAction::Quit) <==> (s.mode == AppMode::Normal && key
            == Key::Char('Q')),
{
}

/// Every key press that changes the applications asks for them to be
/// saved.
pub proof fn law_changes_are_saved(s: AppView, key: Key, utc: DateTime, local: DateTime)
    requires
        s.wf(),
    ensures
        s.on_key(key, utc, local).0.items != s.items ==> s.on_key(key, utc, local).1
            == KeyAction::Save,
{
}

/// `Esc` goes back to the list from every other mode.
pub proof fn law_escape_returns_to_list(s: AppView, utc: DateTime, local: DateTime)
    requires
        s.mode != AppMode::Normal,
    ensures
        s.on_key(Key::Esc, utc, local).0.mode == AppMode::Normal,
        s.on_key(Key::Esc, utc, local).1 == KeyAction::Continue,
{
}

/// Moving the date picker by some months and back again gives back the same
/// date and time, when the day exists in every month (28 or less) and the
/// years passed through are supported.
pub proof fn law_month_shift_round_trip(s: AppView, months: int)
    requires
        s.picker.date.is_valid(),
        s.picker.date.spec_day() <= 28,
        MIN_YEAR <= shifted_month(
            s.picker.date.spec_year() as int,
            s.picker.date.spec_month() as int,
            months,
        ).0 <= MAX_YEAR,
    ensures
        s.shift_picker_months(months).shift_picker_months(-months) == s,
{
    let d = s.picker.date;
    let y = d.spec_year() as int;
    let m = d.spec_month() as int;
    let total1 = m - 1 + months;
    lemma_fundamental_div_mod(total1, 12);
    let q1 = total1 / 12;
    let m1 = total1 % 12 + 1;
    let total2 = m1 - 1 - months;
    assert(total2 == (m - 1) + (-q1) * 12) by (nonlinear_arith)
        requires
            total1 == 12 * q1 + (m1 - 1),
            total1 == m - 1 + months,
            total2 == m1 - 1 - months,
    ;
    lemma_fundamental_div_mod_converse(total2, 12, -q1, m - 1);
    let t = s.shift_picker_months(months);
    assert(t.picker.date == CalendarDate::spec_new((y + q1) as i32, m1 as u32, d.spec_day()));
    assert(t.shift_picker_months(-months).picker.date == d);
}

/// Moving the list selection keeps the state well formed.
proof fn lemma_moves_keep_wf(s: AppView)
    requires
        s.wf(),
    ensures
        s.next().wf(),
        s.previous().wf(),
        s.next_status().wf(),
        s.previous_status().wf(),
        s.next_input_field().wf(),
{
    if s.items.len() > 0 {
        lemma_mod_pos_bound(s.selected + 1, s.items.len() as int);
    }
    lemma_mod_pos_bound(s.status_cursor + 1, 7);
    lemma_mod_pos_bound(s.input.input_field + 1, 5);
}

/// The actions that change the applications keep the state well formed.
proof fn lemma_writes_keep_wf(s: AppView, now: DateTime)
    requires
        s.wf(),
        s.items.len() < usize::MAX,
    ensures
        s.delete().wf(),
        s.confirm(now).wf(),
        s.confirm_status_update().wf(),
        s.confirm_interview_date().wf(),
{
}

/// Every key press keeps the state well formed, as long as one more
/// application still fits in memory.
pub proof fn law_keys_keep_state_well_formed(s: AppView, key: Key, utc: DateTime, local: DateTime)
    requires
        s.wf(),
        s.items.len() < usize::MAX,
    ensures
        s.on_key(key, utc, local).0.wf(),
{
    lemma_moves_keep_wf(s);
    lemma_writes_keep_wf(s, utc);
}

/// The state after moving the selection down `n` times.
pub open spec fn next_times(s: AppView, n: nat) -> AppView
    decreases n,
{
    if n == 0 {
        s
    } else {
        next_times(s, (n - 1) as nat).next()
    }
}

proof fn lemma_next_times(s: AppView, n: nat)
    requires
        s.wf(),
        s.items.len() > 0,
    ensures
        next_times(s, n) == (AppView {
            selected: ((s.selected + n) % (s.items.len() as int)) as usize,
            table_selection: Some(((s.selected + n) % (s.items.len() as int)) as usize),
            ..s
        }),
    decreases n,
{
    let len = s.items.len() as int;
    if n == 0 {
        lemma_small_mod(s.selected as nat, len as nat);
    } else {
        lemma_next_times(s, (n - 1) as nat);
        let x = s.selected + n - 1;
        lemma_mod_pos_bound(x, len);
        lemma_add_mod_noop_right(1, x, len);
    }
}

/// Moving the selection down once per application comes back to the
/// state one started from.
pub proof fn law_next_cycles_through_the_list(s: AppView)
    requires
        s.wf(),
    ensures
        next_times(s, s.items.len()) == s,
{
    let len = s.items.len() as int;
    if len > 0 {
        lemma_next_times(s, s.items.len());
        lemma_add_mod_noop_right(s.selected as int, len, len);
        lemma_mod_self_0(len);
        lemma_small_mod(s.selected as nat, len as nat);
    }
}

/// `new` lies `months` whole months after `old`: counted in months from
/// year 0, its month is `months` further on; its day is the old day, cut
/// down to the length of the new month; its time of day is the old one.
pub open spec fn months_later(old: DateTime, new: DateTime, months: int) -> bool {
    let ny = new.date.spec_year() as int;
    let nm = new.date.spec_month() as int;
    let od = old.date.spec_day() as int;
    &&& 1 <= nm <= 12
    &&& ny * 12 + nm == old.date.spec_year() * 12 + old.date.spec_month() + months
    &&& new.date.spec_day() == (if od <= days_in_month(ny, nm) {
        od
    } else {
        days_in_month(ny, nm)
    })
    &&& new.time == old.time
}

/// The year `months` months after the picked date.
pub open spec fn target_year(d: DateTime, months: int) -> int {
    (d.date.spec_year() * 12 + d.date.spec_month() - 1 + months) / 12
}

/// Moving the date picker by whole months lands `months` months later, in
/// the target month, on the same day cut down to that month's length and at
/// the same time of day, and changes nothing else; the picker stays where it
/// is only when the target year is out of range.
pub proof fn law_month_shift_lands_in_the_target_month(s: AppView, months: int)
    requires
        s.picker.date.is_valid(),
    ensures
        MIN_YEAR <= target_year(s.picker, months) <= MAX_YEAR ==> {
            &&& months_later(s.picker, s.shift_picker_months(months).picker, months)
            &&& s.shift_picker_months(months) == (AppView {
                picker: s.shift_picker_months(months).picker,
                ..s
            })
        },
        !(MIN_YEAR <= target_year(s.picker, months) <= MAX_YEAR) ==> s.shift_picker_months(months)
            == s,
{
    let d = s.picker.date;
    let y = d.spec_year() as int;
    let m = d.spec_month() as int;
    let total = m - 1 + months;
    lemma_fundamental_div_mod(total, 12);
    let q = total / 12;
    let r = total % 12;
    assert(y * 12 + m - 1 + months == 12 * (y + q) + r);
    lemma_fundamental_div_mod_converse(y * 12 + m - 1 + months, 12, y + q, r);
    assert(target_year(s.picker, months) == y + q);
    assert(shifted_month(y, m, months) == (y + q, r + 1));
}

/// In the list, the down arrow selects the next application and the up
/// arrow the one before, wrapping around at the ends; nothing else changes.
pub proof fn law_arrow_keys_move_the_selection(s: AppView, utc: DateTime, local: DateTime)
    requires
        s.wf(),
        s.mode == AppMode::Normal,
        s.items.len() > 0,
    ensures
        s.on_key(Key::Down, utc, local) == ((AppView {
            selected: ((s.selected + 1) % (s.items.len() as int)) as usize,
            table_selection: Some(((s.selected + 1) % (s.items.len() as int)) as usize),
            ..s
        }), KeyAction::Continue),
        s.on_key(Key::Up, utc, local) == ((AppView {
            selected: ((s.selected + s.items.len() - 1) % (s.items.len() as int)) as usize,
            table_selection: Some(((s.selected + s.items.len() - 1) % (s.items.len() as int)) as usize),
            ..s
        }), KeyAction::Continue),
{
    let len = s.items.len() as int;
    if s.selected == 0 {
        lemma_small_mod((len - 1) as nat, len as nat);
    } else {
        lemma_fundamental_div_mod_converse(s.selected + len - 1, len, 1, s.selected - 1);
    }
}

/// Confirming a status in the status list sets the selected application's
/// status to the one under the cursor and changes nothing else of it, nor
/// any other application; the list comes back.
pub proof fn law_status_confirm_changes_only_the_status(s: AppView)
    requires
        s.wf(),
        s.mode == AppMode::UpdateStatus,
        s.has_selection(),
    ensures
        s.confirm_status_update().items.len() == s.items.len(),
        forall|j: int|
            0 <= j < s.items.len() && j != s.selected ==> #[trigger] s.confirm_status_update().items[j]
                == s.items[j],
        s.confirm_status_update().items[s.selected as int].application_status
            == ApplicationStatus::nth(s.status_cursor as int),
        s.confirm_status_update().items[s.selected as int].company_name
            == s.items[s.selected as int].company_name,
        s.confirm_status_update().items[s.selected as int].description
            == s.items[s.selected as int].description,
        s.confirm_status_update().items[s.selected as int].url == s.items[s.selected as int].url,
        s.confirm_status_update().items[s.selected as int].comments
            == s.items[s.selected as int].comments,
        s.confirm_status_update().items[s.selected as int].origin
            == s.items[s.selected as int].origin,
        s.confirm_status_update().items[s.selected as int].application_date
            == s.items[s.selected as int].application_date,
        s.confirm_status_update().items[s.selected as int].interview_date
            == s.items[s.selected as int].interview_date,
        s.confirm_status_update() == (AppView {
            items: s.confirm_status_update().items,
            mode: AppMode::Normal,
            ..s
        }),
{
}

/// Confirming the picked interview date writes it, with the status
/// "interview scheduled", into the selected application and changes nothing
/// else of it, nor any other application; without a selection the
/// applications stay as they are. Either way the list comes back.
pub proof fn law_interview_confirm_writes_the_selected_application(s: AppView)
    requires
        s.wf(),
    ensures
        s.confirm_interview_date().items.len() == s.items.len(),
        forall|j: int|
            0 <= j < s.items.len() && j != s.selected ==> #[trigger] s.confirm_interview_date().items[j]
                == s.items[j],
        !s.has_selection() ==> s.confirm_interview_date().items == s.items,
        s.has_selection() ==> {
            let before = s.items[s.selected as int];
            let after = s.confirm_interview_date().items[s.selected as int];
            &&& after.interview_date == Some(s.picker)
            &&& after.application_status == ApplicationStatus::InterviewScheduled
            &&& after.company_name == before.company_name
            &&& after.description == before.description
            &&& after.url == before.url
            &&& after.comments == before.comments
            &&& after.origin == before.origin
            &&& after.application_date == before.application_date
        },
        s.confirm_interview_date() == (AppView {
            items: s.confirm_interview_date().items,
            mode: AppMode::Normal,
            ..s
        }),
{
}

/// Deleting removes the selected application and keeps the others in
/// order; the selection keeps its index while that is still a row, moves to
/// the new last row when it fell off the end, and is 0 on an empty list.
pub proof fn law_delete_removes_the_selected_application(s: AppView)
    requires
        s.wf(),
        s.items.len() > 0,
    ensures
        s.delete().items.len() == s.items.len() - 1,
        forall|j: int| 0 <= j < s.selected ==> #[trigger] s.delete().items[j] == s.items[j],
        forall|j: int|
            s.selected <= j < s.items.len() - 1 ==> #[trigger] s.delete().items[j] == s.items[j + 1],
        s.selected < s.items.len() - 1 ==> s.delete().selected == s.selected,
        s.selected == s.items.len() - 1 && s.items.len() > 1 ==> s.delete().selected == s.items.len()
            - 2,
        s.items.len() == 1 ==> s.delete().selected == 0,
        s.delete().table_selection == Some(s.delete().selected),
        s.delete().mode == s.mode,
        s.delete().picker == s.picker,
        s.delete().input == s.input,
{
}

/// In the status list, the down arrow moves the cursor to the next status
/// and the up arrow to the one before, wrapping around at the ends; the
/// list highlights the cursor and nothing else changes.
pub proof fn law_status_keys_move_the_cursor(s: AppView, utc: DateTime, local: DateTime)
    requires
        s.wf(),
        s.mode == AppMode::UpdateStatus,
    ensures
        s.on_key(Key::Down, utc, local) == ((AppView {
            status_cursor: ((s.status_cursor + 1) % (STATUS_COUNT as int)) as usize,
            status_selection: Some(((s.status_cursor + 1) % (STATUS_COUNT as int)) as usize),
            ..s
        }), KeyAction::Continue),
        s.on_key(Key::Up, utc, local) == ((AppView {
            status_cursor: ((s.status_cursor + STATUS_COUNT - 1) % (STATUS_COUNT as int)) as usize,
            status_selection: Some(((s.status_cursor + STATUS_COUNT - 1) % (STATUS_COUNT as int)) as usize),
            ..s
        }), KeyAction::Continue),
{
}

/// Opening the status list puts its cursor on the first status.
pub proof fn law_status_list_opens_on_the_first_status(s: AppView, utc: DateTime, local: DateTime)
    requires
        s.wf(),
        s.mode == AppMode::Normal,
    ensures
        s.on_key(Key::Char('s'), utc, local) == ((AppView {
            mode: AppMode::UpdateStatus,
            status_cursor: 0,
            status_selection: Some(0),
            ..s
        }), KeyAction::Continue),
{
}

/// The text fields of the form in the order in which Tab visits them:
/// company, description, origin, URL, comments.
pub open spec fn form_field(v: InputView, k: int) -> Seq<char> {
    if k == 0 {
        v.company_name
    } else if k == 1 {
        v.description
    } else if k == 2 {
        v.origin
    } else if k == 3 {
        v.url
    } else {
        v.comments
    }
}

/// Typing a character appends it to the active field of the form and
/// changes no other field, nor anything else.
pub proof fn law_typing_appends_to_the_active_field(s: AppView, c: char)
    requires
        s.wf(),
    ensures
        forall|k: int|
            0 <= k < FIELD_COUNT ==> #[trigger] form_field(s.push_input_char(c).input, k) == if k
                == s.input.input_field {
                form_field(s.input, k).push(c)
            } else {
                form_field(s.input, k)
            },
        s.push_input_char(c).input.interview_date == s.input.interview_date,
        s.push_input_char(c).input.input_field == s.input.input_field,
        s.push_input_char(c) == (AppView { input: s.push_input_char(c).input, ..s }),
{
}

/// Backspace removes the last character of the active field of the form,
/// if it has one, and changes no other field, nor anything else.
pub proof fn law_backspace_removes_from_the_active_field(s: AppView)
    requires
        s.wf(),
    ensures
        forall|k: int|
            0 <= k < FIELD_COUNT ==> #[trigger] form_field(s.backspace_input().input, k) == if k
                == s.input.input_field && form_field(s.input, k).len() > 0 {
                form_field(s.input, k).drop_last()
            } else {
                form_field(s.input, k)
            },
        s.backspace_input().input.interview_date == s.input.interview_date,
        s.backspace_input().input.input_field == s.input.input_field,
        s.backspace_input() == (AppView { input: s.backspace_input().input, ..s }),
{
}

/// Tab makes the next field of the form active, from the last back to the
/// first, and keeps what was typed.
pub proof fn law_tab_moves_to_the_next_field(s: AppView)
    requires
        s.wf(),
    ensures
        s.next_input_field().input.input_field == (s.input.input_field + 1) % (FIELD_COUNT as int),
        forall|k: int| 0 <= k < FIELD_COUNT ==> #[trigger] form_field(s.next_input_field().input, k)
            == form_field(s.input, k),
        s.next_input_field().input.interview_date == s.input.interview_date,
        s.next_input_field() == (AppView { input: s.next_input_field().input, ..s }),
{
}

/// Starting to add an application opens an empty form on its first field.
pub proof fn law_create_starts_from_an_empty_form(s: AppView)
    requires
        s.wf(),
    ensures
        s.start_create().mode == AppMode::Creating,
        forall|k: int| 0 <= k < FIELD_COUNT ==> #[trigger] form_field(s.start_create().input, k).len()
            == 0,
        s.start_create().input.input_field == 0,
        s.start_create().input.interview_date is None,
        s.start_create().items == s.items,
        s.start_create().selected == s.selected,
{
}

/// Starting to edit fills the form with the selected application's texts
/// and interview date, on the first field; without a selection nothing
/// changes.
pub proof fn law_edit_starts_from_the_selected_application(s: AppView)
    requires
        s.wf(),
    ensures
        s.has_selection() ==> {
            let a = s.items[s.selected as int];
            let v = s.start_edit().input;
            &&& s.start_edit().mode == AppMode::Editing
            &&& v.company_name == a.company_name
            &&& v.description == a.description
            &&& v.origin == a.origin
            &&& v.url == a.url
            &&& v.comments == a.comments
            &&& v.interview_date == a.interview_date
            &&& v.input_field == 0
            &&& s.start_edit().items == s.items
            &&& s.start_edit().selected == s.selected
        },
        !s.has_selection() ==> s.start_edit() == s,
{
}

/// Saving the form while adding appends one application made from it,
/// marked applied and dated `now`, after all the others, and selects it.
pub proof fn law_create_appends_an_application(s: AppView, now: DateTime)
    requires
        s.wf(),
        s.mode == AppMode::Creating,
    ensures
        s.confirm(now).items.len() == s.items.len() + 1,
        forall|j: int| 0 <= j < s.items.len() ==> #[trigger] s.confirm(now).items[j] == s.items[j],
        ({
            let a = s.confirm(now).items[s.items.len() as int];
            &&& a.company_name == s.input.company_name
            &&& a.description == s.input.description
            &&& a.origin == s.input.origin
            &&& a.url == s.input.url
            &&& a.comments == s.input.comments
            &&& a.interview_date == s.input.interview_date
            &&& a.application_status == ApplicationStatus::Applied
            &&& a.application_date == now
        }),
        s.confirm(now).selected == s.items.len(),
        s.confirm(now).table_selection == Some(s.items.len() as usize),
        s.confirm(now).mode == AppMode::Normal,
{
}

/// Saving the form while editing writes its texts and interview date into
/// the selected application, keeping its status and application date, and
/// changes no other application nor the selection.
pub proof fn law_edit_updates_the_selected_application(s: AppView, now: DateTime)
    requires
        s.wf(),
        s.mode == AppMode::Editing,
    ensures
        s.confirm(now).items.len() == s.items.len(),
        forall|j: int|
            0 <= j < s.items.len() && j != s.selected ==> #[trigger] s.confirm(now).items[j]
                == s.items[j],
        s.has_selection() ==> {
            let before = s.items[s.selected as int];
            let a = s.confirm(now).items[s.selected as int];
            &&& a.company_name == s.input.company_name
            &&& a.description == s.input.description
            &&& a.origin == s.input.origin
            &&& a.url == s.input.url
            &&& a.comments == s.input.comments
            &&& a.interview_date == s.input.interview_date
            &&& a.application_status == before.application_status
            &&& a.application_date == before.application_date
        },
        !s.has_selection() ==> s.confirm(now).items == s.items,
        s.confirm(now).selected == s.selected,
        s.confirm(now).table_selection == Some(s.selected),
        s.confirm(now).mode == AppMode::Normal,
{
}

/// The date picker opens on the selected application's interview date, or
/// on `now` when it has none, and changes nothing else; without a selection
/// nothing changes.
pub proof fn law_picker_opens_on_the_interview_date(s: AppView, now: DateTime)
    requires
        s.wf(),
    ensures
        s.has_selection() && s.items[s.selected as int].interview_date is Some
            ==> s.open_interview_date_picker(now).picker == s.items[s.selected as int].interview_date.unwrap(),
        s.has_selection() && s.items[s.selected as int].interview_date is None
            ==> s.open_interview_date_picker(now).picker == now,
        s.has_selection() ==> s.open_interview_date_picker(now) == (AppView {
            picker: s.open_interview_date_picker(now).picker,
            mode: AppMode::PickingInterviewDate,
            ..s
        }),
        !s.has_selection() ==> s.open_interview_date_picker(now) == s,
{
}

} // verus!
