//! The planner itself: two lists (dailies and the todos of the day being
//! viewed), which one has the focus, the selection in each, the day being
//! viewed, and the text being typed.

use crate::date::{day_after, day_before, Date};
use crate::items::{
    daily_views, todo_views, toggled_dates, Daily, DailyView, SaveData, SaveDataView, Todo,
    TodoView,
};
use crate::selection::{
    fits, move_down, move_up, moved_down, moved_up, sync_selection, synced,
};
use crate::text::{collect_string, trim_chars, trimmed};
use vstd::prelude::*;

verus! {

/// Which list the keys act on.
#[derive(Clone, Copy, Debug, PartialEq, Eq, Structural)]
pub enum Focus {
    Dailies,
    Todos,
}

/// Whether keys navigate (normal) or type into the input box (insert).
#[derive(Clone, Copy, Debug, PartialEq, Eq, Structural)]
pub enum Mode {
    Normal,
    Insert,
}

/// A key press, as the planner reads it.
#[derive(Clone, Copy, Debug, PartialEq, Eq, Structural)]
pub enum Key {
    Char(char),
    Tab,
    Enter,
    Esc,
    Backspace,
    Up,
    Down,
    Left,
    Right,
    Delete,
    Other,
}

/// What the caller should do after a key was handled.
#[derive(Clone, Copy, Debug, PartialEq, Eq, Structural)]
pub enum Effect {
    /// Nothing to write: the saved data did not change.
    Nothing,
    /// The saved data changed: write it.
    Save,
    /// Leave the planner.
    Quit,
}

/// How the header names the day being viewed, relative to the day the
/// planner was opened on.
#[derive(Clone, Copy, Debug, PartialEq, Eq, Structural)]
pub enum DateHeading {
    Today,
    Tomorrow,
    /// This many days after the day the planner was opened on.
    DaysAhead(i64),
}

/// The other list.
pub open spec fn other_focus(f: Focus) -> Focus {
    match f {
        Focus::Dailies => Focus::Todos,
        Focus::Todos => Focus::Dailies,
    }
}

/// A change that may touch the saved data, as the effect it asks for.
pub open spec fn with_save(r: (AppState, bool)) -> (AppState, Effect) {
    (r.0, if r.1 { Effect::Save } else { Effect::Nothing })
}

/// The planner's state.
pub struct App {
    todos: Vec<Todo>,
    dailies: Vec<Daily>,
    next_daily_id: u64,
    daily_selected: Option<usize>,
    todo_selected: Option<usize>,
    focus: Focus,
    mode: Mode,
    input: Vec<char>,
    current_date: Date,
    today: Date,
}

/// What the planner holds, as mathematical values.
pub struct AppState {
    pub todos: Seq<TodoView>,
    pub dailies: Seq<DailyView>,
    pub next_daily_id: u64,
    /// The selected row of the dailies list.
    pub daily_selected: Option<usize>,
    /// The selected row of the todos shown for the current day (a position
    /// among the visible todos, not among all todos).
    pub todo_selected: Option<usize>,
    pub focus: Focus,
    pub mode: Mode,
    pub input: Seq<char>,
    /// The day being viewed.
    pub current_date: Date,
    /// The day the planner was opened on; the view never goes before it.
    pub today: Date,
}

impl View for App {
    type V = AppState;

    closed spec fn view(&self) -> AppState {
        AppState {
            todos: todo_views(self.todos@),
            dailies: daily_views(self.dailies@),
            next_daily_id: self.next_daily_id,
            daily_selected: self.daily_selected,
            todo_selected: self.todo_selected,
            focus: self.focus,
            mode: self.mode,
            input: self.input@,
            current_date: self.current_date,
            today: self.today,
        }
    }
}

/// The positions, in order, of the todos that fall on `date`.
pub open spec fn visible_indices(todos: Seq<TodoView>, date: Date) -> Seq<usize>
    decreases todos.len(),
{
    if todos.len() == 0 {
        Seq::empty()
    } else {
        let earlier = visible_indices(todos.drop_last(), date);
        if todos.last().date == date {
            earlier.push((todos.len() - 1) as usize)
        } else {
            earlier
        }
    }
}

/// The todos kept when the planner opens on `today`: those of today or later,
/// in their order.
pub open spec fn kept_todos(todos: Seq<TodoView>, today: Date) -> Seq<TodoView> {
    todos.filter(|t: TodoView| t.date@ >= today@)
}

/// The state of a planner opened on `today` with the saved `data`.
pub open spec fn initial_state(data: SaveDataView, today: Date) -> AppState {
    let todos = kept_todos(data.todos, today);
    AppState {
        todos,
        dailies: data.dailies,
        next_daily_id: data.next_daily_id,
        daily_selected: synced(None, data.dailies.len()),
        todo_selected: synced(None, visible_indices(todos, today).len()),
        focus: Focus::Dailies,
        mode: Mode::Normal,
        input: Seq::empty(),
        current_date: today,
        today,
    }
}

impl AppState {
    /// The positions of the todos shown for the day being viewed.
    pub open spec fn visible(self) -> Seq<usize> {
        visible_indices(self.todos, self.current_date)
    }

    /// Both selections fit their lists, and the day being viewed is a day
    /// chrono can represent, not before the day the planner was opened on.
    pub open spec fn wf(self) -> bool {
        &&& fits(self.daily_selected, self.dailies.len())
        &&& fits(self.todo_selected, self.visible().len())
        &&& self.today.valid()
        &&& self.current_date.valid()
        &&& self.today@ <= self.current_date@
    }

    /// The dailies selection brought back inside the dailies list.
    pub open spec fn after_sync_dailies(self) -> AppState {
        AppState { daily_selected: synced(self.daily_selected, self.dailies.len()), ..self }
    }

    /// The todos selection brought back inside the visible todos.
    pub open spec fn after_sync_todos(self) -> AppState {
        AppState { todo_selected: synced(self.todo_selected, self.visible().len()), ..self }
    }

    /// The selection of the focused list moved one row down.
    pub open spec fn after_select_next(self) -> AppState {
        match self.focus {
            Focus::Dailies => AppState {
                daily_selected: moved_down(self.daily_selected, self.dailies.len()),
                ..self
            },
            Focus::Todos => AppState {
                todo_selected: moved_down(self.todo_selected, self.visible().len()),
                ..self
            },
        }
    }

    /// The selection of the focused list moved one row up.
    pub open spec fn after_select_prev(self) -> AppState {
        match self.focus {
            Focus::Dailies => AppState {
                daily_selected: moved_up(self.daily_selected, self.dailies.len()),
                ..self
            },
            Focus::Todos => AppState {
                todo_selected: moved_up(self.todo_selected, self.visible().len()),
                ..self
            },
        }
    }

    /// The selected daily toggled on the day being viewed, or the selected
    /// todo's done flag flipped; with whether anything changed.
    pub open spec fn after_toggle_done(self) -> (AppState, bool) {
        match self.focus {
            Focus::Dailies => match self.daily_selected {
                Some(i) => {
                    let d = self.dailies[i as int];
                    let toggled = DailyView {
                        id: d.id,
                        text: d.text,
                        done_dates: toggled_dates(d.done_dates, self.current_date),
                    };
                    (AppState { dailies: self.dailies.update(i as int, toggled), ..self }, true)
                },
                None => (self, false),
            },
            Focus::Todos => match self.todo_selected {
                Some(v) => if v < self.visible().len() {
                    let r = self.visible()[v as int] as int;
                    let t = self.todos[r];
                    let flipped = TodoView { text: t.text, done: !t.done, date: t.date };
                    (AppState { todos: self.todos.update(r, flipped), ..self }, true)
                } else {
                    (self, false)
                },
                None => (self, false),
            },
        }
    }

    /// The selected row of the focused list removed and the selection brought
    /// back inside the list; with whether anything changed.
    pub open spec fn after_delete_selected(self) -> (AppState, bool) {
        match self.focus {
            Focus::Dailies => match self.daily_selected {
                Some(i) => (
                    AppState { dailies: self.dailies.remove(i as int), ..self }.after_sync_dailies(),
                    true,
                ),
                None => (self, false),
            },
            Focus::Todos => match self.todo_selected {
                Some(v) => if v < self.visible().len() {
                    let r = self.visible()[v as int] as int;
                    (AppState { todos: self.todos.remove(r), ..self }.after_sync_todos(), true)
                } else {
                    (self, false)
                },
                None => (self, false),
            },
        }
    }

    /// Adding a daily from the typed text would push the next id past
    /// `u64::MAX`.
    pub open spec fn confirm_overflows(self) -> bool {
        &&& self.focus == Focus::Dailies
        &&& trimmed(self.input).len() > 0
        &&& self.next_daily_id == u64::MAX
    }

    /// The typed text, trimmed, added to the focused list (unless nothing but
    /// whitespace was typed) and selected there; the input cleared and normal
    /// mode back; with whether anything was added.
    pub open spec fn after_confirm_input(self) -> (AppState, bool) {
        let text = trimmed(self.input);
        let done = AppState { input: Seq::empty(), mode: Mode::Normal, ..self };
        if text.len() == 0 {
            (done, false)
        } else {
            match self.focus {
                Focus::Dailies => {
                    let daily = DailyView {
                        id: self.next_daily_id,
                        text,
                        done_dates: Seq::empty(),
                    };
                    (
                        AppState {
                            dailies: self.dailies.push(daily),
                            next_daily_id: (self.next_daily_id + 1) as u64,
                            daily_selected: Some(self.dailies.len() as usize),
                            ..done
                        },
                        true,
                    )
                },
                Focus::Todos => {
                    let todo = TodoView { text, done: false, date: self.current_date };
                    let todos = self.todos.push(todo);
                    let shown = visible_indices(todos, self.current_date).len();
                    (AppState { todos, todo_selected: Some((shown - 1) as usize), ..done }, true)
                },
            }
        }
    }

    /// The view moved to the next day, its first todo selected.
    pub open spec fn after_next_day(self) -> AppState {
        AppState {
            current_date: day_after(self.current_date),
            todo_selected: None,
            ..self
        }.after_sync_todos()
    }

    /// The view moved to the previous day, its first todo selected, unless
    /// that day is before the day the planner was opened on.
    pub open spec fn after_prev_day(self) -> AppState {
        let candidate = day_before(self.current_date);
        if candidate@ >= self.today@ {
            AppState { current_date: candidate, todo_selected: None, ..self }.after_sync_todos()
        } else {
            self
        }
    }

    /// Handling `key` would add a daily whose successor id overflows.
    pub open spec fn key_overflows(self, key: Key) -> bool {
        self.mode == Mode::Insert && key == Key::Enter && self.confirm_overflows()
    }

    /// The state after `key`, and what the caller should do.
    ///
    /// In normal mode: `q` quits; Tab switches the focused list; `a` or `i`
    /// starts typing; `j`/Down and `k`/Up move the selection; space/Enter
    /// toggles the selected row; `d`/Delete removes it; `l`/Right and
    /// `h`/Left change the day. In insert mode: Enter adds the typed text, Esc
    /// drops it, Backspace erases the last character, and other characters are
    /// typed.
    pub open spec fn after_key(self, key: Key) -> (AppState, Effect) {
        match self.mode {
            Mode::Normal => match key {
                Key::Char(c) => if c == 'q' {
                    (self, Effect::Quit)
                } else if c == 'a' || c == 'i' {
                    (AppState { mode: Mode::Insert, ..self }, Effect::Nothing)
                } else if c == 'j' {
                    (self.after_select_next(), Effect::Nothing)
                } else if c == 'k' {
                    (self.after_select_prev(), Effect::Nothing)
                } else if c == ' ' {
                    with_save(self.after_toggle_done())
                } else if c == 'd' {
                    with_save(self.after_delete_selected())
                } else if c == 'l' {
                    (self.after_next_day(), Effect::Nothing)
                } else if c == 'h' {
                    (self.after_prev_day(), Effect::Nothing)
                } else {
                    (self, Effect::Nothing)
                },
                Key::Tab => (AppState { focus: other_focus(self.focus), ..self }, Effect::Nothing),
                Key::Down => (self.after_select_next(), Effect::Nothing),
                Key::Up => (self.after_select_prev(), Effect::Nothing),
                Key::Enter => with_save(self.after_toggle_done()),
                Key::Delete => with_save(self.after_delete_selected()),
                Key::Right => (self.after_next_day(), Effect::Nothing),
                Key::Left => (self.after_prev_day(), Effect::Nothing),
                _ => (self, Effect::Nothing),
            },
            Mode::Insert => match key {
                Key::Enter => with_save(self.after_confirm_input()),
                Key::Esc => (
                    AppState { input: Seq::empty(), mode: Mode::Normal, ..self },
                    Effect::Nothing,
                ),
                Key::Backspace => (
                    AppState {
                        input: if self.input.len() > 0 {
                            self.input.drop_last()
                        } else {
                            self.input
                        },
                        ..self
                    },
                    Effect::Nothing,
                ),
                Key::Char(c) => (AppState { input: self.input.push(c), ..self }, Effect::Nothing),
                _ => (self, Effect::Nothing),
            },
        }
    }

    /// How the header names the day being viewed.
    pub open spec fn heading(self) -> DateHeading {
        if self.current_date == self.today {
            DateHeading::Today
        } else if self.current_date@ - self.today@ == 1 {
            DateHeading::Tomorrow
        } else {
            DateHeading::DaysAhead((self.current_date@ - self.today@) as i64)
        }
    }
}

pub(crate) proof fn lemma_visible_bounds(todos: Seq<TodoView>, date: Date)
    requires
        todos.len() <= usize::MAX,
    ensures
        visible_indices(todos, date).len() <= todos.len(),
        forall|k: int|
            0 <= k < visible_indices(todos, date).len() ==> {
                &&& (#[trigger] visible_indices(todos, date)[k]) < todos.len()
                &&& todos[visible_indices(todos, date)[k] as int].date == date
            },
    decreases todos.len(),
{
    if todos.len() > 0 {
        let earlier = todos.drop_last();
        lemma_visible_bounds(earlier, date);
        let v = visible_indices(todos, date);
        let e = visible_indices(earlier, date);
        assert forall|k: int| 0 <= k < v.len() implies {
            &&& (#[trigger] v[k]) < todos.len()
            &&& todos[v[k] as int].date == date
        } by {
            if k < e.len() {
                assert(v[k] == e[k]);
                assert(earlier[e[k] as int] == todos[e[k] as int]);
            }
        }
    }
}

pub(crate) proof fn lemma_visible_same_dates(a: Seq<TodoView>, b: Seq<TodoView>, date: Date)
    requires
        a.len() == b.len(),
        forall|i: int| 0 <= i < a.len() ==> (#[trigger] a[i]).date == b[i].date,
    ensures
        visible_indices(a, date) == visible_indices(b, date),
    decreases a.len(),
{
    if a.len() > 0 {
        lemma_visible_same_dates(a.drop_last(), b.drop_last(), date);
        assert(a.last().date == b.last().date);
    }
}

pub(crate) proof fn lemma_visible_push(todos: Seq<TodoView>, t: TodoView, date: Date)
    ensures
        visible_indices(todos.push(t), date) == (if t.date == date {
            visible_indices(todos, date).push(todos.len() as usize)
        } else {
            visible_indices(todos, date)
        }),
{
    assert(todos.push(t).drop_last() =~= todos);
}

impl App {
    /// The state is well formed (see `AppState::wf`).
    pub open spec fn wf(&self) -> bool {
        self@.wf()
    }

    /// Opens the planner on `today` with the saved `data`: todos of earlier
    /// days are dropped, the dailies list has the focus, and each list selects
    /// its first row (or nothing when it is empty).
    pub fn new(data: SaveData, today: Date) -> (r: App)
        requires
            today.valid(),
        ensures
            r@ == initial_state(data@, today),
            r.wf(),
    {
        let ghost views = todo_views(data.todos@);
        let mut todos: Vec<Todo> = Vec::new();
        let n = data.todos.len();
        let mut i: usize = 0;
        while i < n
            invariant
                n == data.todos@.len(),
                views == todo_views(data.todos@),
                i <= n,
                todo_views(todos@) == kept_todos(views.take(i as int), today),
            decreases n - i,
        {
            proof {
                reveal(Seq::filter);
                assert(views.take(i as int + 1).drop_last() =~= views.take(i as int));
                assert(views.take(i as int + 1).last() == views[i as int]);
            }
            let t = &data.todos[i];
            if t.date.days >= today.days {
                let c = t.copied();
                let ghost before = todos@;
                todos.push(c);
                assert(kept_todos(views.take(i as int + 1), today) == kept_todos(
                    views.take(i as int),
                    today,
                ).push(views[i as int]));
                assert(todo_views(todos@) =~= todo_views(before).push(views[i as int]));
            } else {
                assert(kept_todos(views.take(i as int + 1), today) == kept_todos(
                    views.take(i as int),
                    today,
                ));
            }
            i = i + 1;
        }
        assert(views.take(n as int) =~= views);
        let mut app = App {
            todos,
            dailies: data.dailies,
            next_daily_id: data.next_daily_id,
            daily_selected: None,
            todo_selected: None,
            focus: Focus::Dailies,
            mode: Mode::Normal,
            input: Vec::new(),
            current_date: today,
            today,
        };
        app.sync_daily_selection();
        app.sync_todo_selection();
        app
    }

    /// Brings the dailies selection back inside the dailies list.
    pub fn sync_daily_selection(&mut self)
        ensures
            final(self)@ == old(self)@.after_sync_dailies(),
            fits(final(self)@.daily_selected, final(self)@.dailies.len()),
    {
        let n = self.dailies.len();
        self.daily_selected = sync_selection(self.daily_selected, n);
    }

    /// The positions, in order, of the todos of the day being viewed.
    pub fn visible_todo_indices(&self) -> (r: Vec<usize>)
        ensures
            r@ == self@.visible(),
    {
        let ghost views = self@.todos;
        let mut r: Vec<usize> = Vec::new();
        let n = self.todos.len();
        let mut i: usize = 0;
        while i < n
            invariant
                n == self.todos@.len(),
                views == todo_views(self.todos@),
                i <= n,
                r@ == visible_indices(views.take(i as int), self.current_date),
            decreases n - i,
        {
            assert(views.take(i as int + 1).drop_last() =~= views.take(i as int));
            if self.todos[i].date == self.current_date {
                r.push(i);
            }
            i = i + 1;
        }
        assert(views.take(n as int) =~= views);
        r
    }

    /// Brings the todos selection back inside the todos of the day being
    /// viewed.
    pub fn sync_todo_selection(&mut self)
        ensures
            final(self)@ == old(self)@.after_sync_todos(),
            fits(final(self)@.todo_selected, final(self)@.visible().len()),
    {
        let n = self.visible_todo_indices().len();
        self.todo_selected = sync_selection(self.todo_selected, n);
    }

    /// Moves the selection of the focused list one row down, wrapping around.
    pub fn select_next(&mut self)
        requires
            old(self).wf(),
        ensures
            final(self)@ == old(self)@.after_select_next(),
            final(self).wf(),
    {
        match self.focus {
            Focus::Dailies => {
                let n = self.dailies.len();
                if n == 0 {
                    return;
                }
                self.daily_selected = move_down(self.daily_selected, n);
            },
            Focus::Todos => {
                let n = self.visible_todo_indices().len();
                if n == 0 {
                    return;
                }
                self.todo_selected = move_down(self.todo_selected, n);
            },
        }
    }

    /// Moves the selection of the focused list one row up, wrapping around.
    pub fn select_prev(&mut self)
        requires
            old(self).wf(),
        ensures
            final(self)@ == old(self)@.after_select_prev(),
            final(self).wf(),
    {
        match self.focus {
            Focus::Dailies => {
                let n = self.dailies.len();
                if n == 0 {
                    return;
                }
                self.daily_selected = move_up(self.daily_selected, n);
            },
            Focus::Todos => {
                let n = self.visible_todo_indices().len();
                if n == 0 {
                    return;
                }
                self.todo_selected = move_up(self.todo_selected, n);
            },
        }
    }

    /// Toggles the selected daily on the day being viewed, or flips the
    /// selected todo's done flag. Returns whether anything changed (and so
    /// needs saving).
    pub fn toggle_done(&mut self) -> (changed: bool)
        requires
            old(self).wf(),
        ensures
            (final(self)@, changed) == old(self)@.after_toggle_done(),
            final(self).wf(),
    {
        match self.focus {
            Focus::Dailies => {
                if let Some(i) = self.daily_selected {
                    let date = self.current_date;
                    let ghost before = self.dailies@;
                    let mut d = self.dailies.remove(i);
                    d.toggle_done(date);
                    self.dailies.insert(i, d);
                    proof {
                        assert(self.dailies@ =~= before.update(i as int, d));
                        assert(daily_views(self.dailies@) =~= daily_views(before).update(
                            i as int,
                            d@,
                        ));
                    }
                    return true;
                }
                false
            },
            Focus::Todos => {
                if let Some(vis_i) = self.todo_selected {
                    let indices = self.visible_todo_indices();
                    if vis_i < indices.len() {
                        let real_i = indices[vis_i];
                        let total = self.todos.len();
                        proof {
                            assert(self@.todos.len() == total);
                            lemma_visible_bounds(self@.todos, self.current_date);
                        }
                        let ghost before = self.todos@;
                        let mut t = self.todos.remove(real_i);
                        t.done = !t.done;
                        self.todos.insert(real_i, t);
                        proof {
                            assert(self.todos@ =~= before.update(real_i as int, t));
                            assert(todo_views(self.todos@) =~= todo_views(before).update(
                                real_i as int,
                                t@,
                            ));
                            lemma_visible_same_dates(
                                todo_views(before),
                                todo_views(self.todos@),
                                self.current_date,
                            );
                        }
                        return true;
                    }
                }
                false
            },
        }
    }

    /// Removes the selected row of the focused list and brings the selection
    /// back inside the list. Returns whether anything was removed (and so
    /// needs saving).
    pub fn delete_selected(&mut self) -> (changed: bool)
        requires
            old(self).wf(),
        ensures
            (final(self)@, changed) == old(self)@.after_delete_selected(),
            final(self).wf(),
    {
        match self.focus {
            Focus::Dailies => {
                if let Some(i) = self.daily_selected {
                    let ghost before = self.dailies@;
                    self.dailies.remove(i);
                    assert(daily_views(self.dailies@) =~= daily_views(before).remove(i as int));
                    self.sync_daily_selection();
                    return true;
                }
                false
            },
            Focus::Todos => {
                if let Some(vis_i) = self.todo_selected {
                    let indices = self.visible_todo_indices();
                    if vis_i < indices.len() {
                        let real_i = indices[vis_i];
                        let total = self.todos.len();
                        proof {
                            assert(self@.todos.len() == total);
                            lemma_visible_bounds(self@.todos, self.current_date);
                        }
                        let ghost before = self.todos@;
                        self.todos.remove(real_i);
                        assert(todo_views(self.todos@) =~= todo_views(before).remove(
                            real_i as int,
                        ));
                        self.sync_todo_selection();
                        return true;
                    }
                }
                false
            },
        }
    }

    /// Adds the typed text, trimmed, to the focused list and selects it,
    /// unless nothing but whitespace was typed; then clears the input and
    /// returns to normal mode. Returns whether anything was added (and so
    /// needs saving).
    pub fn confirm_input(&mut self) -> (changed: bool)
        requires
            old(self).wf(),
            !old(self)@.confirm_overflows(),
        ensures
            (final(self)@, changed) == old(self)@.after_confirm_input(),
            final(self).wf(),
    {
        let chars = trim_chars(&self.input);
        let mut changed = false;
        if chars.len() > 0 {
            let text = collect_string(&chars);
            match self.focus {
                Focus::Dailies => {
                    let id = self.next_daily_id;
                    self.next_daily_id = self.next_daily_id + 1;
                    let ghost before = self.dailies@;
                    let daily = Daily { id, text, done_dates: Vec::new() };
                    self.dailies.push(daily);
                    assert(daily_views(self.dailies@) =~= daily_views(before).push(daily@));
                    self.daily_selected = Some(self.dailies.len() - 1);
                },
                Focus::Todos => {
                    let ghost before = self.todos@;
                    let todo = Todo { text, done: false, date: self.current_date };
                    self.todos.push(todo);
                    assert(todo_views(self.todos@) =~= todo_views(before).push(todo@));
                    proof {
                        lemma_visible_push(todo_views(before), todo@, self.current_date);
                    }
                    let n = self.visible_todo_indices().len();
                    self.todo_selected = Some(n - 1);
                },
            }
            changed = true;
        }
        self.input.clear();
        self.mode = Mode::Normal;
        changed
    }

    /// Moves the view to the next day and selects its first todo.
    pub fn next_day(&mut self)
        requires
            old(self).wf(),
        ensures
            final(self)@ == old(self)@.after_next_day(),
            final(self).wf(),
    {
        self.current_date = self.current_date.succ().unwrap_or(self.current_date);
        self.todo_selected = None;
        self.sync_todo_selection();
    }

    /// Moves the view to the previous day and selects its first todo, unless
    /// that day is before the day the planner was opened on.
    pub fn prev_day(&mut self)
        requires
            old(self).wf(),
        ensures
            final(self)@ == old(self)@.after_prev_day(),
            final(self).wf(),
    {
        let candidate = self.current_date.pred().unwrap_or(self.current_date);
        if candidate.days >= self.today.days {
            self.current_date = candidate;
            self.todo_selected = None;
            self.sync_todo_selection();
        }
    }

    /// Handles one key press (see `AppState::after_key`) and says what the
    /// caller should do next.
    pub fn handle_key(&mut self, key: Key) -> (effect: Effect)
        requires
            old(self).wf(),
            !old(self)@.key_overflows(key),
        ensures
            (final(self)@, effect) == old(self)@.after_key(key),
            final(self).wf(),
    {
        match self.mode {
            Mode::Normal => match key {
                Key::Char(c) => {
                    if c == 'q' {
                        Effect::Quit
                    } else if c == 'a' || c == 'i' {
                        self.mode = Mode::Insert;
                        Effect::Nothing
                    } else if c == 'j' {
                        self.select_next();
                        Effect::Nothing
                    } else if c == 'k' {
                        self.select_prev();
                        Effect::Nothing
                    } else if c == ' ' {
                        save_if(self.toggle_done())
                    } else if c == 'd' {
                        save_if(self.delete_selected())
                    } else if c == 'l' {
                        self.next_day();
                        Effect::Nothing
                    } else if c == 'h' {
                        self.prev_day();
                        Effect::Nothing
                    } else {
                        Effect::Nothing
                    }
                },
                Key::Tab => {
                    self.focus =
                        match self.focus {
                            Focus::Dailies => Focus::Todos,
                            Focus::Todos => Focus::Dailies,
                        };
                    Effect::Nothing
                },
                Key::Down => {
                    self.select_next();
                    Effect::Nothing
                },
                Key::Up => {
                    self.select_prev();
                    Effect::Nothing
                },
                Key::Enter => save_if(self.toggle_done()),
                Key::Delete => save_if(self.delete_selected()),
                Key::Right => {
                    self.next_day();
                    Effect::Nothing
                },
                Key::Left => {
                    self.prev_day();
                    Effect::Nothing
                },
                _ => Effect::Nothing,
            },
            Mode::Insert => match key {
                Key::Enter => save_if(self.confirm_input()),
                Key::Esc => {
                    self.input.clear();
                    self.mode = Mode::Normal;
                    Effect::Nothing
                },
                Key::Backspace => {
                    self.input.pop();
                    Effect::Nothing
                },
                Key::Char(c) => {
                    self.input.push(c);
                    Effect::Nothing
                },
                _ => Effect::Nothing,
            },
        }
    }

    /// Handles one key press, unless it would add a daily whose successor id
    /// overflows `u64`: then the state is left as it was and `None` comes back.
    pub fn try_handle_key(&mut self, key: Key) -> (r: Option<Effect>)
        requires
            old(self).wf(),
        ensures
            final(self).wf(),
            old(self)@.key_overflows(key) ==> r is None && final(self)@ == old(self)@,
            !old(self)@.key_overflows(key) ==> r == Some(old(self)@.after_key(key).1)
                && final(self)@ == old(self)@.after_key(key).0,
    {
        if self.mode == Mode::Insert && key == Key::Enter && self.focus == Focus::Dailies
            && self.next_daily_id == u64::MAX {
            let chars = trim_chars(&self.input);
            if chars.len() > 0 {
                return None;
            }
        }
        Some(self.handle_key(key))
    }

    /// A snapshot of what is saved: the todos, the dailies and the next daily
    /// id.
    pub fn save_data(&self) -> (r: SaveData)
        ensures
            r@ == (SaveDataView {
                todos: self@.todos,
                dailies: self@.dailies,
                next_daily_id: self@.next_daily_id,
            }),
    {
        let mut todos: Vec<Todo> = Vec::new();
        let n = self.todos.len();
        let mut i: usize = 0;
        while i < n
            invariant
                n == self.todos@.len(),
                i <= n,
                todo_views(todos@) == todo_views(self.todos@).take(i as int),
            decreases n - i,
        {
            let ghost before = todos@;
            let t = self.todos[i].copied();
            todos.push(t);
            assert(todo_views(todos@) =~= todo_views(before).push(t@));
            assert(todo_views(self.todos@).take(i as int + 1) =~= todo_views(self.todos@).take(
                i as int,
            ).push(t@));
            i = i + 1;
        }
        assert(todo_views(self.todos@).take(n as int) =~= todo_views(self.todos@));
        let mut dailies: Vec<Daily> = Vec::new();
        let m = self.dailies.len();
        let mut j: usize = 0;
        while j < m
            invariant
                m == self.dailies@.len(),
                j <= m,
                daily_views(dailies@) == daily_views(self.dailies@).take(j as int),
            decreases m - j,
        {
            let ghost before = dailies@;
            let d = self.dailies[j].copied();
            dailies.push(d);
            assert(daily_views(dailies@) =~= daily_views(before).push(d@));
            assert(daily_views(self.dailies@).take(j as int + 1) =~= daily_views(
                self.dailies@,
            ).take(j as int).push(d@));
            j = j + 1;
        }
        assert(daily_views(self.dailies@).take(m as int) =~= daily_views(self.dailies@));
        SaveData { todos, dailies, next_daily_id: self.next_daily_id }
    }

    /// All todos, of every day.
    pub fn todos(&self) -> (r: &Vec<Todo>)
        ensures
            todo_views(r@) == self@.todos,
    {
        &self.todos
    }

    /// All dailies.
    pub fn dailies(&self) -> (r: &Vec<Daily>)
        ensures
            daily_views(r@) == self@.dailies,
    {
        &self.dailies
    }

    /// The id the next daily will get.
    pub fn next_daily_id(&self) -> (r: u64)
        ensures
            r == self@.next_daily_id,
    {
        self.next_daily_id
    }

    /// The selected row of the dailies list.
    pub fn daily_selected(&self) -> (r: Option<usize>)
        ensures
            r == self@.daily_selected,
    {
        self.daily_selected
    }

    /// The selected row among the todos shown for the day being viewed.
    pub fn todo_selected(&self) -> (r: Option<usize>)
        ensures
            r == self@.todo_selected,
    {
        self.todo_selected
    }

    /// The list the keys act on.
    pub fn focus(&self) -> (r: Focus)
        ensures
            r == self@.focus,
    {
        self.focus
    }

    /// Whether keys navigate or type.
    pub fn mode(&self) -> (r: Mode)
        ensures
            r == self@.mode,
    {
        self.mode
    }

    /// The text typed so far.
    pub fn input_text(&self) -> (r: String)
        ensures
            r@ == self@.input,
    {
        collect_string(&self.input)
    }

    /// The day being viewed.
    pub fn current_date(&self) -> (r: Date)
        ensures
            r == self@.current_date,
    {
        self.current_date
    }

    /// The day the planner was opened on.
    pub fn today(&self) -> (r: Date)
        ensures
            r == self@.today,
    {
        self.today
    }

    /// How the header names the day being viewed.
    pub fn heading(&self) -> (r: DateHeading)
        ensures
            r == self@.heading(),
    {
        if self.current_date == self.today {
            DateHeading::Today
        } else {
            let ahead: i64 = self.current_date.days as i64 - self.today.days as i64;
            if ahead == 1 {
                DateHeading::Tomorrow
            } else {
                DateHeading::DaysAhead(ahead)
            }
        }
    }
}

/// `Save` when something changed, `Nothing` otherwise.
fn save_if(changed: bool) -> (r: Effect)
    ensures
        r == (if changed { Effect::Save } else { Effect::Nothing }),
{
    if changed {
        Effect::Save
    } else {
        Effect::Nothing
    }
}

/// The name of a list, as the input box's title shows it while typing.
pub open spec fn focus_label_text(f: Focus) -> Seq<char> {
    match f {
        Focus::Dailies => "diária"@,
        Focus::Todos => "todo"@,
    }
}

/// The name of a list, as the input box's title shows it while typing.
pub fn focus_label(f: Focus) -> (r: &'static str)
    ensures
        r@ == focus_label_text(f),
{
    match f {
        Focus::Dailies => "diária",
        Focus::Todos => "todo",
    }
}

/// The key help shown at the bottom, by mode.
pub open spec fn help_line_text(m: Mode) -> Seq<char> {
    match m {
        Mode::Normal => "  tab: trocar painel  a/i: add  j/k: mover  space: toggle  d: delete  h/l: dia  q: sair"@,
        Mode::Insert => "  digitando... enter salva, esc cancela"@,
    }
}

/// The key help shown at the bottom, by mode.
pub fn help_line(m: Mode) -> (r: &'static str)
    ensures
        r@ == help_line_text(m),
{
    match m {
        Mode::Normal => "  tab: trocar painel  a/i: add  j/k: mover  space: toggle  d: delete  h/l: dia  q: sair",
        Mode::Insert => "  digitando... enter salva, esc cancela",
    }
}

} // verus!
