//! What holds of the planner across its operations.

use crate::app::{
    DateHeading, Effect, initial_state, kept_todos, lemma_visible_bounds, lemma_visible_push,
    lemma_visible_same_dates, other_focus, visible_indices, AppState, Focus, Key, Mode,
};
use crate::date::{Date, MAX_DAY, MIN_DAY};
use crate::items::{
    lemma_first_index_exists, law_toggle_flips_one_day, law_toggle_twice_keeps_checked_days, no_duplicate_dates, DailyView,
    SaveDataView, TodoView,
};
use crate::selection::{fits, law_down_then_up_returns, synced};
use crate::text::trimmed;
use vstd::prelude::*;

verus! {

/// The todos shown for a day are exactly the todos of that day, listed in
/// their order.
pub proof fn law_shown_todos_are_the_days_todos(todos: Seq<TodoView>, date: Date)
    requires
        todos.len() <= usize::MAX,
    ensures
        forall|k: int|
            0 <= k < visible_indices(todos, date).len() ==> {
                &&& (#[trigger] visible_indices(todos, date)[k]) < todos.len()
                &&& todos[visible_indices(todos, date)[k] as int].date == date
            },
        forall|i: int|
            0 <= i < todos.len() && (#[trigger] todos[i]).date == date ==> visible_indices(
                todos,
                date,
            ).contains(i as usize),
        forall|a: int, b: int|
            0 <= a < b < visible_indices(todos, date).len() ==> visible_indices(todos, date)[a]
                < visible_indices(todos, date)[b],
    decreases todos.len(),
{
    lemma_visible_bounds(todos, date);
    if todos.len() > 0 {
        let earlier = todos.drop_last();
        law_shown_todos_are_the_days_todos(earlier, date);
        lemma_visible_bounds(earlier, date);
        let v = visible_indices(todos, date);
        let e = visible_indices(earlier, date);
        assert forall|i: int| 0 <= i < todos.len() && (#[trigger] todos[i]).date == date implies v.contains(
            i as usize,
        ) by {
            if i < todos.len() - 1 {
                assert(earlier[i] == todos[i]);
                assert(e.contains(i as usize));
                let k = choose|k: int| 0 <= k < e.len() && e[k] == i as usize;
                assert(v[k] == e[k]);
            } else {
                assert(v[v.len() - 1] == i as usize);
            }
        }
        assert forall|a: int, b: int| 0 <= a < b < v.len() implies v[a] < v[b] by {
            if b < e.len() {
                assert(v[a] == e[a] && v[b] == e[b]);
            } else {
                assert(v[a] == e[a]);
                assert(e[a] < earlier.len());
            }
        }
    }
}

/// Opening the planner keeps exactly the todos of that day or later, in
/// their order, and no todo of an earlier day.
pub proof fn law_opening_drops_past_todos(data: SaveDataView, today: Date)
    ensures
        initial_state(data, today).todos == kept_todos(data.todos, today),
        forall|k: int|
            0 <= k < initial_state(data, today).todos.len() ==> (#[trigger] initial_state(
                data,
                today,
            ).todos[k]).date@ >= today@,
        forall|i: int|
            0 <= i < data.todos.len() && (#[trigger] data.todos[i]).date@ >= today@
                ==> initial_state(data, today).todos.contains(data.todos[i]),
{
    broadcast use vstd::seq_lib::group_filter_ensures;

    let kept = initial_state(data, today).todos;
    assert forall|k: int| 0 <= k < kept.len() implies (#[trigger] kept[k]).date@ >= today@ by {
        data.todos.lemma_filter_pred(|t: TodoView| t.date@ >= today@, k);
    }
    assert forall|i: int|
        0 <= i < data.todos.len() && (#[trigger] data.todos[i]).date@ >= today@ implies kept.contains(
        data.todos[i],
    ) by {
        data.todos.lemma_filter_contains(|t: TodoView| t.date@ >= today@, i);
    }
}

/// On a well-formed state whose focused list is not empty, moving the
/// selection down and then up (or up and then down) gives back the same
/// state.
pub proof fn law_down_then_up_restores(s: AppState)
    requires
        s.wf(),
        s.todos.len() <= usize::MAX,
        s.dailies.len() <= usize::MAX,
    ensures
        s.after_select_next().after_select_prev() == s,
        s.after_select_prev().after_select_next() == s,
{
    match s.focus {
        Focus::Dailies => {
            if s.dailies.len() > 0 {
                law_down_then_up_returns(s.daily_selected, s.dailies.len());
            }
        },
        Focus::Todos => {
            lemma_visible_bounds(s.todos, s.current_date);
            if s.visible().len() > 0 {
                law_down_then_up_returns(s.todo_selected, s.visible().len());
            }
        },
    }
}

/// In normal mode, Tab twice gives back the same state, and asks nothing of
/// the caller.
pub proof fn law_tab_twice_restores(s: AppState)
    requires
        s.mode == Mode::Normal,
    ensures
        s.after_key(Key::Tab).0.after_key(Key::Tab) == (s, Effect::Nothing),
{
    assert(other_focus(other_focus(s.focus)) == s.focus);
}

/// Toggling the selected todo twice gives back the same state.
pub proof fn law_toggle_todo_twice_restores(s: AppState)
    requires
        s.wf(),
        s.focus == Focus::Todos,
        s.todos.len() <= usize::MAX,
    ensures
        s.after_toggle_done().0.after_toggle_done().0 == s,
{
    lemma_visible_bounds(s.todos, s.current_date);
    if let Some(v) = s.todo_selected {
        let t1 = s.after_toggle_done().0;
        let r = s.visible()[v as int] as int;
        lemma_visible_same_dates(s.todos, t1.todos, s.current_date);
        assert(t1.visible() == s.visible());
        assert(t1.todos.update(r, s.todos[r]) =~= s.todos);
    }
}

/// Toggling the selected daily twice, where it lists no day twice, leaves it
/// checked off on exactly the days it was, and changes nothing else.
pub proof fn law_toggle_daily_twice_keeps_checked_days(s: AppState)
    requires
        s.wf(),
        s.focus == Focus::Dailies,
        s.daily_selected is Some,
        no_duplicate_dates(s.dailies[s.daily_selected->0 as int].done_dates),
    ensures
        ({
            let t2 = s.after_toggle_done().0.after_toggle_done().0;
            let i = s.daily_selected->0 as int;
            &&& t2.dailies.len() == s.dailies.len()
            &&& forall|j: int| 0 <= j < s.dailies.len() && j != i ==> t2.dailies[j] == s.dailies[j]
            &&& t2.dailies[i].id == s.dailies[i].id
            &&& t2.dailies[i].text == s.dailies[i].text
            &&& forall|y: Date|
                t2.dailies[i].done_dates.contains(y) == s.dailies[i].done_dates.contains(y)
            &&& t2.todos == s.todos
            &&& t2.current_date == s.current_date
            &&& t2.daily_selected == s.daily_selected
        }),
{
    let i = s.daily_selected->0 as int;
    law_toggle_twice_keeps_checked_days(s.dailies[i].done_dates, s.current_date);
}

/// Moving to the next day and back gives back the same state, except that the
/// todos selection is on the first todo of the day (if it has any).
pub proof fn law_next_day_then_prev_day_returns(s: AppState)
    requires
        s.wf(),
        s.current_date.days < MAX_DAY,
    ensures
        s.after_next_day().after_prev_day() == (AppState {
            todo_selected: synced(None, s.visible().len()),
            ..s
        }),
{
}

/// On the day the planner was opened, moving to the previous day changes
/// nothing: the view never goes before that day.
pub proof fn law_prev_day_stops_at_today(s: AppState)
    requires
        s.current_date == s.today,
        s.today.days > MIN_DAY,
    ensures
        s.after_prev_day() == s,
{
}

/// A todo added while the todos list has the focus is shown for the day being
/// viewed, sits at the end of the todos, and is the selected row.
pub proof fn law_added_todo_is_selected(s: AppState)
    requires
        s.focus == Focus::Todos,
        trimmed(s.input).len() > 0,
        s.todos.len() < usize::MAX,
    ensures
        ({
            let r = s.after_confirm_input().0;
            &&& r.todos == s.todos.push(
                TodoView { text: trimmed(s.input), done: false, date: s.current_date },
            )
            &&& r.todo_selected is Some
            &&& r.visible()[r.todo_selected->0 as int] == s.todos.len()
            &&& fits(r.todo_selected, r.visible().len())
        }),
{
    let t = TodoView { text: trimmed(s.input), done: false, date: s.current_date };
    lemma_visible_push(s.todos, t, s.current_date);
    lemma_visible_bounds(s.todos, s.current_date);
}

/// Every daily has an id below the next id, and no two dailies share one.
pub open spec fn ids_fresh(s: AppState) -> bool {
    &&& forall|i: int| 0 <= i < s.dailies.len() ==> (#[trigger] s.dailies[i]).id < s.next_daily_id
    &&& forall|i: int, j: int|
        0 <= i < j < s.dailies.len() ==> (#[trigger] s.dailies[i]).id != (#[trigger] s.dailies[j]).id
}

/// Whatever key is pressed, every daily keeps an id of its own, below the id
/// the next daily will get.
pub proof fn law_keys_keep_ids_fresh(s: AppState, key: Key)
    requires
        s.wf(),
        ids_fresh(s),
        !s.key_overflows(key),
    ensures
        ids_fresh(s.after_key(key).0),
{
    let r = s.after_key(key).0;
    if s.mode == Mode::Normal && s.focus == Focus::Dailies && s.daily_selected is Some {
        let i = s.daily_selected->0 as int;
        let d = s.after_delete_selected().0.dailies;
        assert(d =~= s.dailies.remove(i));
        assert forall|a: int, b: int| 0 <= a < b < d.len() implies (#[trigger] d[a]).id != (#[trigger] d[b]).id by {
            let a2 = if a < i { a } else { a + 1 };
            let b2 = if b < i { b } else { b + 1 };
            assert(d[a] == s.dailies[a2] && d[b] == s.dailies[b2]);
        }
        assert forall|a: int| 0 <= a < d.len() implies (#[trigger] d[a]).id < s.next_daily_id by {
            let a2 = if a < i { a } else { a + 1 };
            assert(d[a] == s.dailies[a2]);
        }
        let u = s.after_toggle_done().0.dailies;
        assert forall|a: int, b: int| 0 <= a < b < u.len() implies (#[trigger] u[a]).id != (#[trigger] u[b]).id by {
            assert(u[a].id == s.dailies[a].id && u[b].id == s.dailies[b].id);
        }
        assert forall|a: int| 0 <= a < u.len() implies (#[trigger] u[a]).id < s.next_daily_id by {
            assert(u[a].id == s.dailies[a].id);
        }
    }
    if s.mode == Mode::Insert && key == Key::Enter && s.focus == Focus::Dailies && trimmed(
        s.input,
    ).len() > 0 {
        let c = s.after_confirm_input().0;
        let n = s.dailies.len() as int;
        assert forall|a: int| 0 <= a < c.dailies.len() implies (#[trigger] c.dailies[a]).id < c.next_daily_id by {
            if a < n {
                assert(c.dailies[a] == s.dailies[a]);
            }
        }
        assert forall|a: int, b: int| 0 <= a < b < c.dailies.len() implies (#[trigger] c.dailies[a]).id != (#[trigger] c.dailies[b]).id by {
            assert(c.dailies[a] == s.dailies[a]);
            if b < n {
                assert(c.dailies[b] == s.dailies[b]);
            }
        }
    }
}

/// A key that does not ask for a save leaves the saved data (todos, dailies
/// and next daily id) exactly as it was: no change is ever left unsaved.
pub proof fn law_unsaved_keys_keep_saved_data(s: AppState, key: Key)
    ensures
        s.after_key(key).1 != Effect::Save ==> {
            let r = s.after_key(key).0;
            &&& r.todos == s.todos
            &&& r.dailies == s.dailies
            &&& r.next_daily_id == s.next_daily_id
        },
{
}

/// Every todo is of the day the planner was opened on or later.
pub open spec fn todos_from_today(s: AppState) -> bool {
    forall|i: int| 0 <= i < s.todos.len() ==> (#[trigger] s.todos[i]).date@ >= s.today@
}

/// A freshly opened planner holds no todo of an earlier day, and no key ever
/// adds one.
pub proof fn law_todos_stay_from_today(data: SaveDataView, today: Date, s: AppState, key: Key)
    requires
        s.wf(),
        todos_from_today(s),
        s.todos.len() <= usize::MAX,
    ensures
        todos_from_today(initial_state(data, today)),
        todos_from_today(s.after_key(key).0),
{
    law_opening_drops_past_todos(data, today);
    let r = s.after_key(key).0;
    if s.mode == Mode::Normal && s.focus == Focus::Todos {
        let d = s.after_delete_selected().0.todos;
        if let Some(v) = s.todo_selected {
            if v < s.visible().len() {
                let k = s.visible()[v as int] as int;
                lemma_visible_bounds(s.todos, s.current_date);
                assert(d =~= s.todos.remove(k));
                assert forall|i: int| 0 <= i < d.len() implies (#[trigger] d[i]).date@ >= s.today@ by {
                    if i < k {
                        assert(d[i] == s.todos[i]);
                    } else {
                        assert(d[i] == s.todos[i + 1]);
                    }
                }
            }
        }
        let u = s.after_toggle_done().0.todos;
        assert forall|i: int| 0 <= i < u.len() implies (#[trigger] u[i]).date@ >= s.today@ by {
            assert(u[i].date == s.todos[i].date);
        }
    }
}

proof fn lemma_filter_keeps_all(todos: Seq<TodoView>, today: Date)
    requires
        forall|i: int| 0 <= i < todos.len() ==> (#[trigger] todos[i]).date@ >= today@,
    ensures
        kept_todos(todos, today) == todos,
    decreases todos.len(),
{
    reveal(Seq::filter);
    if todos.len() > 0 {
        let earlier = todos.drop_last();
        assert forall|i: int| 0 <= i < earlier.len() implies (#[trigger] earlier[i]).date@ >= today@ by {
            assert(earlier[i] == todos[i]);
        }
        lemma_filter_keeps_all(earlier, today);
        assert(todos.last().date@ >= today@);
        assert(earlier.push(todos.last()) =~= todos);
    }
}

/// Reopening the planner on the same day from what it saved gives back the
/// same todos, dailies and next daily id.
pub proof fn law_reopening_restores_saved_lists(s: AppState)
    requires
        todos_from_today(s),
    ensures
        ({
            let saved = SaveDataView {
                todos: s.todos,
                dailies: s.dailies,
                next_daily_id: s.next_daily_id,
            };
            let r = initial_state(saved, s.today);
            &&& r.todos == s.todos
            &&& r.dailies == s.dailies
            &&& r.next_daily_id == s.next_daily_id
        }),
{
    lemma_filter_keeps_all(s.todos, s.today);
}

/// With row `i` of `n` dailies selected, moving down selects row `i + 1`, or
/// row 0 from the last row; moving up selects row `i - 1`, or the last row
/// from row 0. Nothing else changes.
pub proof fn law_dailies_selection_moves_one_row(s: AppState)
    requires
        s.wf(),
        s.focus == Focus::Dailies,
        s.daily_selected is Some,
        s.dailies.len() <= usize::MAX,
    ensures
        ({
            let i = s.daily_selected->0 as int;
            let n = s.dailies.len() as int;
            let down = s.after_select_next();
            let up = s.after_select_prev();
            &&& i + 1 < n ==> down == (AppState { daily_selected: Some((i + 1) as usize), ..s })
            &&& i + 1 == n ==> down == (AppState { daily_selected: Some(0), ..s })
            &&& i > 0 ==> up == (AppState { daily_selected: Some((i - 1) as usize), ..s })
            &&& i == 0 ==> up == (AppState { daily_selected: Some((n - 1) as usize), ..s })
        }),
{
    let i = s.daily_selected->0 as int;
    let n = s.dailies.len() as int;
    if i + 1 < n {
        assert((i + 1) % n == i + 1) by (nonlinear_arith)
            requires
                0 <= i + 1 < n,
        ;
    } else {
        assert((i + 1) % n == 0) by (nonlinear_arith)
            requires
                i + 1 == n,
                n > 0,
        ;
    }
}

/// With row `i` of the `n` todos shown for the day selected, moving down
/// selects row `i + 1`, or row 0 from the last row; moving up selects row
/// `i - 1`, or the last row from row 0. Nothing else changes.
pub proof fn law_todos_selection_moves_one_row(s: AppState)
    requires
        s.wf(),
        s.focus == Focus::Todos,
        s.todo_selected is Some,
        s.todos.len() <= usize::MAX,
    ensures
        ({
            let i = s.todo_selected->0 as int;
            let n = s.visible().len() as int;
            let down = s.after_select_next();
            let up = s.after_select_prev();
            &&& i + 1 < n ==> down == (AppState { todo_selected: Some((i + 1) as usize), ..s })
            &&& i + 1 == n ==> down == (AppState { todo_selected: Some(0), ..s })
            &&& i > 0 ==> up == (AppState { todo_selected: Some((i - 1) as usize), ..s })
            &&& i == 0 ==> up == (AppState { todo_selected: Some((n - 1) as usize), ..s })
        }),
{
    lemma_visible_bounds(s.todos, s.current_date);
    let i = s.todo_selected->0 as int;
    let n = s.visible().len() as int;
    if i + 1 < n {
        assert((i + 1) % n == i + 1) by (nonlinear_arith)
            requires
                0 <= i + 1 < n,
        ;
    } else {
        assert((i + 1) % n == 0) by (nonlinear_arith)
            requires
                i + 1 == n,
                n > 0,
        ;
    }
}

/// In normal mode each letter key acts exactly as the key it stands for:
/// `j` as Down, `k` as Up, space as Enter, `d` as Delete, `l` as Right and
/// `h` as Left; and Down, Up, Right and Left never ask for a save.
pub proof fn law_letter_keys_match_their_keys(s: AppState)
    requires
        s.mode == Mode::Normal,
    ensures
        s.after_key(Key::Char('j')) == s.after_key(Key::Down),
        s.after_key(Key::Char('k')) == s.after_key(Key::Up),
        s.after_key(Key::Char(' ')) == s.after_key(Key::Enter),
        s.after_key(Key::Char('d')) == s.after_key(Key::Delete),
        s.after_key(Key::Char('l')) == s.after_key(Key::Right),
        s.after_key(Key::Char('h')) == s.after_key(Key::Left),
        s.after_key(Key::Down).1 == Effect::Nothing,
        s.after_key(Key::Up).1 == Effect::Nothing,
        s.after_key(Key::Right).1 == Effect::Nothing,
        s.after_key(Key::Left).1 == Effect::Nothing,
{
}

/// In normal mode, Delete (and `d`) with a row selected makes the focused
/// list one row shorter, leaves the other list as it was, and asks for a
/// save.
pub proof fn law_delete_key_shortens_focused_list(s: AppState)
    requires
        s.wf(),
        s.mode == Mode::Normal,
        s.todos.len() <= usize::MAX,
    ensures
        s.focus == Focus::Dailies && s.daily_selected is Some ==> {
            let r = s.after_key(Key::Delete);
            &&& r.0.dailies.len() == s.dailies.len() - 1
            &&& r.0.todos == s.todos
            &&& r.1 == Effect::Save
        },
        s.focus == Focus::Todos && s.todo_selected is Some ==> {
            let r = s.after_key(Key::Delete);
            &&& r.0.todos.len() == s.todos.len() - 1
            &&& r.0.dailies == s.dailies
            &&& r.1 == Effect::Save
        },
        s.focus == Focus::Todos && s.todo_selected is Some ==> {
            let r = s.after_key(Key::Char('d'));
            &&& r.0.todos.len() == s.todos.len() - 1
            &&& r.1 == Effect::Save
        },
        s.focus == Focus::Dailies && s.daily_selected is Some ==> {
            let r = s.after_key(Key::Char('d'));
            &&& r.0.dailies.len() == s.dailies.len() - 1
            &&& r.1 == Effect::Save
        },
{
    lemma_visible_bounds(s.todos, s.current_date);
}

/// Deleting with daily row `i` selected removes exactly that daily: the rows
/// before it stay where they were, the rows after it move up by one, and the
/// todos are untouched.
pub proof fn law_delete_removes_selected_daily(s: AppState)
    requires
        s.wf(),
        s.focus == Focus::Dailies,
        s.daily_selected is Some,
    ensures
        ({
            let i = s.daily_selected->0 as int;
            let (r, changed) = s.after_delete_selected();
            &&& changed
            &&& r.dailies.len() == s.dailies.len() - 1
            &&& forall|j: int| 0 <= j < i ==> r.dailies[j] == s.dailies[j]
            &&& forall|j: int| i <= j < r.dailies.len() ==> r.dailies[j] == s.dailies[j + 1]
            &&& r.todos == s.todos
            &&& fits(r.daily_selected, r.dailies.len())
        }),
{
}

/// Deleting with a todo row selected removes exactly the todo shown in that
/// row: the todos before it stay where they were, those after it move up by
/// one, and the dailies are untouched.
pub proof fn law_delete_removes_selected_todo(s: AppState)
    requires
        s.wf(),
        s.focus == Focus::Todos,
        s.todo_selected is Some,
        s.todos.len() <= usize::MAX,
    ensures
        ({
            let k = s.visible()[s.todo_selected->0 as int] as int;
            let (r, changed) = s.after_delete_selected();
            &&& changed
            &&& 0 <= k < s.todos.len()
            &&& s.todos[k].date == s.current_date
            &&& r.todos.len() == s.todos.len() - 1
            &&& forall|j: int| 0 <= j < k ==> r.todos[j] == s.todos[j]
            &&& forall|j: int| k <= j < r.todos.len() ==> r.todos[j] == s.todos[j + 1]
            &&& r.dailies == s.dailies
        }),
{
    lemma_visible_bounds(s.todos, s.current_date);
}

/// Toggling the selected daily changes whether it is checked off on the day
/// being viewed and on no other day: an unchecked day is appended, a checked
/// one loses its first occurrence; every other daily and all todos stay as
/// they were. Where the daily lists no day twice, it is checked off on the
/// viewed day afterwards exactly when it was not before.
pub proof fn law_toggle_daily_acts_on_viewed_day(s: AppState)
    requires
        s.wf(),
        s.focus == Focus::Dailies,
        s.daily_selected is Some,
    ensures
        ({
            let i = s.daily_selected->0 as int;
            let (r, changed) = s.after_toggle_done();
            let before = s.dailies[i].done_dates;
            let after = r.dailies[i].done_dates;
            &&& changed
            &&& r.dailies.len() == s.dailies.len()
            &&& forall|j: int| 0 <= j < s.dailies.len() && j != i ==> r.dailies[j] == s.dailies[j]
            &&& r.dailies[i].id == s.dailies[i].id
            &&& r.dailies[i].text == s.dailies[i].text
            &&& !before.contains(s.current_date) ==> after == before.push(s.current_date)
            &&& before.contains(s.current_date) ==> after.len() == before.len() - 1
            &&& no_duplicate_dates(before) ==> {
                &&& after.contains(s.current_date) == !before.contains(s.current_date)
                &&& forall|y: Date| y != s.current_date ==> after.contains(y) == before.contains(y)
            }
            &&& r.todos == s.todos
        }),
{
    let i = s.daily_selected->0 as int;
    let before = s.dailies[i].done_dates;
    if before.contains(s.current_date) {
        lemma_first_index_exists(before, s.current_date);
    }
    if no_duplicate_dates(before) {
        law_toggle_flips_one_day(before, s.current_date);
    }
}

/// Toggling with a todo row selected flips the done flag of exactly the todo
/// shown in that row and changes nothing else.
pub proof fn law_toggle_todo_flips_selected_one(s: AppState)
    requires
        s.wf(),
        s.focus == Focus::Todos,
        s.todo_selected is Some,
        s.todos.len() <= usize::MAX,
    ensures
        ({
            let k = s.visible()[s.todo_selected->0 as int] as int;
            let (r, changed) = s.after_toggle_done();
            &&& changed
            &&& 0 <= k < s.todos.len()
            &&& s.todos[k].date == s.current_date
            &&& r.todos.len() == s.todos.len()
            &&& r.todos[k].done == !s.todos[k].done
            &&& r.todos[k].text == s.todos[k].text
            &&& r.todos[k].date == s.todos[k].date
            &&& forall|j: int| 0 <= j < s.todos.len() && j != k ==> r.todos[j] == s.todos[j]
            &&& r.dailies == s.dailies
        }),
{
    lemma_visible_bounds(s.todos, s.current_date);
}

/// A daily added from typed text goes at the end of the dailies with the next
/// id, the trimmed text, and no day checked off; it is the selected row, and
/// the next id goes up by one.
pub proof fn law_added_daily_is_new_and_unchecked(s: AppState)
    requires
        s.focus == Focus::Dailies,
        trimmed(s.input).len() > 0,
        s.next_daily_id < u64::MAX,
        s.dailies.len() < usize::MAX,
    ensures
        ({
            let (r, changed) = s.after_confirm_input();
            let n = s.dailies.len() as int;
            &&& changed
            &&& r.dailies.len() == n + 1
            &&& forall|j: int| 0 <= j < n ==> r.dailies[j] == s.dailies[j]
            &&& r.dailies[n].id == s.next_daily_id
            &&& r.dailies[n].text == trimmed(s.input)
            &&& r.dailies[n].done_dates.len() == 0
            &&& forall|y: Date| !r.dailies[n].done_dates.contains(y)
            &&& r.daily_selected == Some(n as usize)
            &&& r.next_daily_id == s.next_daily_id + 1
            &&& r.todos == s.todos
            &&& r.input.len() == 0
            &&& r.mode == Mode::Normal
        }),
{
}

/// Moving to the next day advances the viewed day by exactly one day (the
/// last day chrono can represent stays put), selects the first todo of the
/// new day if it has any, and changes nothing else.
pub proof fn law_next_day_advances_one_day(s: AppState)
    requires
        s.wf(),
    ensures
        ({
            let r = s.after_next_day();
            &&& s.current_date.days < MAX_DAY ==> r.current_date@ == s.current_date@ + 1
            &&& s.current_date.days == MAX_DAY ==> r.current_date == s.current_date
            &&& r.visible().len() == 0 ==> r.todo_selected is None
            &&& r.visible().len() > 0 ==> r.todo_selected == Some(0usize)
            &&& r == (AppState { current_date: r.current_date, todo_selected: r.todo_selected, ..s })
        }),
{
}

/// Moving to the previous day goes back exactly one day when that day is not
/// before the day the planner was opened on, selecting the first todo of that
/// day if it has any; otherwise nothing changes.
pub proof fn law_prev_day_goes_back_one_day(s: AppState)
    requires
        s.wf(),
        s.current_date.days > MIN_DAY,
    ensures
        ({
            let r = s.after_prev_day();
            &&& s.current_date@ - 1 >= s.today@ ==> {
                &&& r.current_date@ == s.current_date@ - 1
                &&& r.visible().len() == 0 ==> r.todo_selected is None
                &&& r.visible().len() > 0 ==> r.todo_selected == Some(0usize)
                &&& r == (AppState {
                    current_date: r.current_date,
                    todo_selected: r.todo_selected,
                    ..s
                })
            }
            &&& s.current_date@ - 1 < s.today@ ==> r == s
        }),
{
}

/// In insert mode a typed character is appended to the input, Backspace
/// erases the last character (if any), and Esc empties the input and returns
/// to normal mode; none of them asks for anything or touches anything else.
pub proof fn law_insert_mode_edits_input(s: AppState, c: char)
    requires
        s.mode == Mode::Insert,
    ensures
        s.after_key(Key::Char(c)) == (AppState { input: s.input.push(c), ..s }, Effect::Nothing),
        s.input.len() > 0 ==> s.after_key(Key::Backspace) == (
            AppState { input: s.input.subrange(0, s.input.len() - 1), ..s },
            Effect::Nothing,
        ),
        s.input.len() == 0 ==> s.after_key(Key::Backspace) == (s, Effect::Nothing),
        s.after_key(Key::Esc) == (
            AppState { input: Seq::empty(), mode: Mode::Normal, ..s },
            Effect::Nothing,
        ),
{
}

/// In normal mode `q` quits without changing anything, `a` and `i` start
/// typing without changing anything else, and Tab moves the focus to the
/// other list.
pub proof fn law_normal_mode_control_keys(s: AppState)
    requires
        s.mode == Mode::Normal,
    ensures
        s.after_key(Key::Char('q')) == (s, Effect::Quit),
        s.after_key(Key::Char('a')) == (AppState { mode: Mode::Insert, ..s }, Effect::Nothing),
        s.after_key(Key::Char('i')) == (AppState { mode: Mode::Insert, ..s }, Effect::Nothing),
        s.after_key(Key::Tab).0.focus != s.focus,
        s.after_key(Key::Tab) == (
            AppState { focus: s.after_key(Key::Tab).0.focus, ..s },
            Effect::Nothing,
        ),
{
}

/// A freshly opened planner views the day it was opened on, in normal mode,
/// with the dailies focused, nothing typed, and each list's first row
/// selected (nothing when the list is empty).
pub proof fn law_opening_selects_first_rows(data: SaveDataView, today: Date)
    ensures
        ({
            let r = initial_state(data, today);
            &&& r.current_date == today
            &&& r.today == today
            &&& r.mode == Mode::Normal
            &&& r.focus == Focus::Dailies
            &&& r.input.len() == 0
            &&& r.dailies == data.dailies
            &&& r.next_daily_id == data.next_daily_id
            &&& (r.daily_selected is None <==> data.dailies.len() == 0)
            &&& data.dailies.len() > 0 ==> r.daily_selected == Some(0usize)
            &&& (r.todo_selected is None <==> r.visible().len() == 0)
            &&& r.visible().len() > 0 ==> r.todo_selected == Some(0usize)
        }),
{
}

/// The header names the viewed day "today" exactly when it is the day the
/// planner was opened on, "tomorrow" when it is the day after, and otherwise
/// counts the days from the opening day forward.
pub proof fn law_heading_counts_days_ahead(s: AppState)
    requires
        s.wf(),
    ensures
        (s.heading() == DateHeading::Today) <==> s.current_date == s.today,
        (s.heading() == DateHeading::Tomorrow) <==> s.current_date@ == s.today@ + 1,
        s.heading() matches DateHeading::DaysAhead(n) ==> n >= 2 && n == s.current_date@
            - s.today@,
{
}

} // verus!
