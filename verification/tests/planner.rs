use chrono::{Datelike, NaiveDate};
use todor::app::{focus_label, help_line, App, DateHeading, Effect, Focus, Key, Mode};
use todor::date::{weekday_pt, Date, Weekday, MAX_DAY, MIN_DAY};
use todor::items::{Daily, SaveData, Todo};
use todor::selection::{move_down, move_up, sync_selection};
use todor::text::trim_chars;

fn day(y: i32, m: u32, d: u32) -> Date {
    Date::from_days(NaiveDate::from_ymd_opt(y, m, d).unwrap().num_days_from_ce()).unwrap()
}

fn todo(text: &str, done: bool, date: Date) -> Todo {
    Todo { text: text.to_string(), done, date }
}

fn daily(id: u64, text: &str, dates: Vec<Date>) -> Daily {
    Daily { id, text: text.to_string(), done_dates: dates }
}

fn type_text(app: &mut App, text: &str) {
    for c in text.chars() {
        assert_eq!(app.handle_key(Key::Char(c)), Effect::Nothing);
    }
}

fn texts(todos: &Vec<Todo>) -> Vec<String> {
    todos.iter().map(|t| t.text.clone()).collect()
}

// ---- dates ----

#[test]
fn day_numbers_match_chrono() {
    assert_eq!(day(1, 1, 1).days(), 1);
    assert_eq!(day(2024, 1, 1).days(), 738_886);
    assert_eq!(Date::from_days(MIN_DAY).unwrap().days(), NaiveDate::MIN.num_days_from_ce());
    assert_eq!(Date::from_days(MAX_DAY).unwrap().days(), NaiveDate::MAX.num_days_from_ce());
    assert!(Date::from_days(MAX_DAY + 1).is_none());
    assert!(Date::from_days(MIN_DAY - 1).is_none());
}

#[test]
fn succ_and_pred_step_one_day() {
    assert_eq!(day(2024, 2, 28).succ(), Some(day(2024, 2, 29)));
    assert_eq!(day(2023, 12, 31).succ(), Some(day(2024, 1, 1)));
    assert_eq!(day(2024, 3, 1).pred(), Some(day(2024, 2, 29)));
    assert_eq!(Date::from_days(MAX_DAY).unwrap().succ(), None);
    assert_eq!(Date::from_days(MIN_DAY).unwrap().pred(), None);
}

#[test]
fn weekdays_follow_the_calendar() {
    assert_eq!(day(2024, 1, 1).weekday(), Weekday::Monday);
    assert_eq!(day(2024, 1, 7).weekday(), Weekday::Sunday);
    assert_eq!(day(1, 1, 1).weekday(), Weekday::Monday);
    assert_eq!(day(0, 12, 31).weekday(), Weekday::Sunday);
}

#[test]
fn weekday_names_in_portuguese() {
    let names: Vec<&str> = (1..=7).map(|d| weekday_pt(day(2024, 1, d))).collect();
    assert_eq!(
        names,
        vec![
            "segunda-feira",
            "terça-feira",
            "quarta-feira",
            "quinta-feira",
            "sexta-feira",
            "sábado",
            "domingo"
        ]
    );
}

// ---- text ----

#[test]
fn trim_drops_outer_whitespace_only() {
    let chars: Vec<char> = "  \t buy  milk \n".chars().collect();
    let t: String = trim_chars(&chars).into_iter().collect();
    assert_eq!(t, "buy  milk");
    let ideographic: Vec<char> = "\u{3000}x\u{3000}".chars().collect();
    assert_eq!(trim_chars(&ideographic), vec!['x']);
    let blank: Vec<char> = " \t ".chars().collect();
    assert!(trim_chars(&blank).is_empty());
    assert!(trim_chars(&Vec::new()).is_empty());
}

// ---- dailies ----

#[test]
fn daily_toggle_adds_then_removes_a_day() {
    let d1 = day(2024, 5, 1);
    let d2 = day(2024, 5, 2);
    let mut d = daily(0, "read", vec![d1]);
    assert!(d.is_done_on(d1));
    assert!(!d.is_done_on(d2));
    d.toggle_done(d2);
    assert_eq!(d.done_dates, vec![d1, d2]);
    assert!(d.is_done_on(d2));
    d.toggle_done(d2);
    assert_eq!(d.done_dates, vec![d1]);
    d.toggle_done(d1);
    assert!(d.done_dates.is_empty());
}

#[test]
fn daily_toggle_removes_first_occurrence() {
    let d1 = day(2024, 5, 1);
    let d2 = day(2024, 5, 2);
    let mut d = daily(3, "run", vec![d1, d2, d1]);
    d.toggle_done(d1);
    assert_eq!(d.done_dates, vec![d2, d1]);
    assert!(d.is_done_on(d1));
}

// ---- selection ----

#[test]
fn selection_sync_and_moves() {
    assert_eq!(sync_selection(Some(3), 0), None);
    assert_eq!(sync_selection(None, 4), Some(0));
    assert_eq!(sync_selection(Some(9), 4), Some(3));
    assert_eq!(sync_selection(Some(2), 4), Some(2));
    assert_eq!(move_down(Some(3), 4), Some(0));
    assert_eq!(move_down(Some(1), 4), Some(2));
    assert_eq!(move_down(None, 4), Some(0));
    assert_eq!(move_up(Some(0), 4), Some(3));
    assert_eq!(move_up(None, 4), Some(3));
    assert_eq!(move_up(Some(2), 4), Some(1));
    assert_eq!(move_down(None, 0), None);
}

// ---- the planner ----

fn sample(today: Date) -> App {
    let yesterday = today.pred().unwrap();
    let tomorrow = today.succ().unwrap();
    let data = SaveData {
        todos: vec![
            todo("old", false, yesterday),
            todo("a", false, today),
            todo("later", false, tomorrow),
            todo("b", true, today),
        ],
        dailies: vec![daily(0, "water", vec![]), daily(1, "walk", vec![today])],
        next_daily_id: 2,
    };
    App::new(data, today)
}

#[test]
fn opening_drops_past_todos_and_selects_first_rows() {
    let today = day(2024, 6, 10);
    let app = sample(today);
    assert_eq!(texts(app.todos()), vec!["a", "later", "b"]);
    assert_eq!(app.dailies().len(), 2);
    assert_eq!(app.daily_selected(), Some(0));
    assert_eq!(app.todo_selected(), Some(0));
    assert_eq!(app.focus(), Focus::Dailies);
    assert_eq!(app.mode(), Mode::Normal);
    assert_eq!(app.current_date(), today);
    assert_eq!(app.today(), today);
    assert_eq!(app.next_daily_id(), 2);
    assert_eq!(app.input_text(), "");
    assert_eq!(app.visible_todo_indices(), vec![0, 2]);
}

#[test]
fn opening_empty_data_selects_nothing() {
    let app = App::new(SaveData::empty(), day(2024, 6, 10));
    assert_eq!(app.daily_selected(), None);
    assert_eq!(app.todo_selected(), None);
    assert!(app.todos().is_empty());
    assert_eq!(app.next_daily_id(), 0);
}

#[test]
fn moving_wraps_around_the_focused_list() {
    let mut app = sample(day(2024, 6, 10));
    app.select_next();
    assert_eq!(app.daily_selected(), Some(1));
    app.select_next();
    assert_eq!(app.daily_selected(), Some(0));
    app.select_prev();
    assert_eq!(app.daily_selected(), Some(1));
    assert_eq!(app.handle_key(Key::Tab), Effect::Nothing);
    assert_eq!(app.focus(), Focus::Todos);
    app.select_prev();
    assert_eq!(app.todo_selected(), Some(1));
    app.select_next();
    assert_eq!(app.todo_selected(), Some(0));
    assert_eq!(app.daily_selected(), Some(1));
}

#[test]
fn toggling_a_daily_marks_the_viewed_day() {
    let today = day(2024, 6, 10);
    let mut app = sample(today);
    assert!(app.toggle_done());
    assert_eq!(app.dailies()[0].done_dates, vec![today]);
    app.select_next();
    assert!(app.toggle_done());
    assert!(app.dailies()[1].done_dates.is_empty());
}

#[test]
fn toggling_a_todo_flips_the_selected_visible_one() {
    let mut app = sample(day(2024, 6, 10));
    app.handle_key(Key::Tab);
    app.select_next();
    assert!(app.toggle_done());
    assert!(!app.todos()[2].done);
    assert!(!app.todos()[0].done);
    assert!(app.toggle_done());
    assert!(app.todos()[2].done);
}

#[test]
fn toggling_with_nothing_selected_changes_nothing() {
    let mut app = App::new(SaveData::empty(), day(2024, 6, 10));
    assert!(!app.toggle_done());
    assert!(!app.delete_selected());
    assert_eq!(app.handle_key(Key::Char(' ')), Effect::Nothing);
}

#[test]
fn deleting_removes_the_selected_row_and_resyncs() {
    let mut app = sample(day(2024, 6, 10));
    app.select_next();
    assert!(app.delete_selected());
    assert_eq!(app.dailies().len(), 1);
    assert_eq!(app.dailies()[0].text, "water");
    assert_eq!(app.daily_selected(), Some(0));
    assert!(app.delete_selected());
    assert_eq!(app.daily_selected(), None);
    app.handle_key(Key::Tab);
    app.select_next();
    assert!(app.delete_selected());
    assert_eq!(texts(app.todos()), vec!["a", "later"]);
    assert_eq!(app.todo_selected(), Some(0));
    assert_eq!(app.visible_todo_indices(), vec![0]);
}

#[test]
fn typing_and_confirming_adds_a_daily_with_the_next_id() {
    let mut app = sample(day(2024, 6, 10));
    assert_eq!(app.handle_key(Key::Char('a')), Effect::Nothing);
    assert_eq!(app.mode(), Mode::Insert);
    type_text(&mut app, "  stretch  ");
    assert_eq!(app.input_text(), "  stretch  ");
    assert_eq!(app.handle_key(Key::Enter), Effect::Save);
    assert_eq!(app.mode(), Mode::Normal);
    assert_eq!(app.input_text(), "");
    assert_eq!(app.dailies().len(), 3);
    assert_eq!(app.dailies()[2].text, "stretch");
    assert_eq!(app.dailies()[2].id, 2);
    assert_eq!(app.next_daily_id(), 3);
    assert_eq!(app.daily_selected(), Some(2));
}

#[test]
fn confirming_a_todo_pins_it_to_the_viewed_day_and_selects_it() {
    let today = day(2024, 6, 10);
    let mut app = sample(today);
    app.handle_key(Key::Tab);
    app.handle_key(Key::Char('i'));
    type_text(&mut app, "call mom");
    assert!(app.confirm_input());
    assert_eq!(texts(app.todos()), vec!["a", "later", "b", "call mom"]);
    assert_eq!(app.todos()[3].date, today);
    assert!(!app.todos()[3].done);
    assert_eq!(app.visible_todo_indices(), vec![0, 2, 3]);
    assert_eq!(app.todo_selected(), Some(2));
}

#[test]
fn blank_input_adds_nothing() {
    let mut app = sample(day(2024, 6, 10));
    app.handle_key(Key::Char('a'));
    type_text(&mut app, " \t ");
    assert_eq!(app.handle_key(Key::Enter), Effect::Nothing);
    assert_eq!(app.dailies().len(), 2);
    assert_eq!(app.next_daily_id(), 2);
    assert_eq!(app.mode(), Mode::Normal);
    assert_eq!(app.input_text(), "");
}

#[test]
fn escape_and_backspace_edit_the_input() {
    let mut app = sample(day(2024, 6, 10));
    app.handle_key(Key::Char('a'));
    type_text(&mut app, "abc");
    app.handle_key(Key::Backspace);
    assert_eq!(app.input_text(), "ab");
    app.handle_key(Key::Backspace);
    app.handle_key(Key::Backspace);
    app.handle_key(Key::Backspace);
    assert_eq!(app.input_text(), "");
    type_text(&mut app, "q");
    assert_eq!(app.mode(), Mode::Insert);
    assert_eq!(app.handle_key(Key::Esc), Effect::Nothing);
    assert_eq!(app.input_text(), "");
    assert_eq!(app.mode(), Mode::Normal);
    assert_eq!(app.dailies().len(), 2);
}

#[test]
fn q_quits_only_in_normal_mode() {
    let mut app = sample(day(2024, 6, 10));
    assert_eq!(app.handle_key(Key::Char('q')), Effect::Quit);
    assert_eq!(app.handle_key(Key::Char('x')), Effect::Nothing);
    assert_eq!(app.handle_key(Key::Other), Effect::Nothing);
}

#[test]
fn day_navigation_never_goes_before_today() {
    let today = day(2024, 6, 10);
    let mut app = sample(today);
    app.prev_day();
    assert_eq!(app.current_date(), today);
    assert_eq!(app.heading(), DateHeading::Today);
    app.handle_key(Key::Char('l'));
    assert_eq!(app.current_date(), day(2024, 6, 11));
    assert_eq!(app.heading(), DateHeading::Tomorrow);
    assert_eq!(app.visible_todo_indices(), vec![1]);
    assert_eq!(app.todo_selected(), Some(0));
    app.handle_key(Key::Right);
    assert_eq!(app.heading(), DateHeading::DaysAhead(2));
    assert_eq!(app.todo_selected(), None);
    app.handle_key(Key::Left);
    app.handle_key(Key::Char('h'));
    app.handle_key(Key::Char('h'));
    assert_eq!(app.current_date(), today);
    assert_eq!(app.todo_selected(), Some(0));
}

#[test]
fn next_day_stays_on_the_last_representable_day() {
    let last = Date::from_days(MAX_DAY).unwrap();
    let mut app = App::new(SaveData::empty(), last);
    app.next_day();
    assert_eq!(app.current_date(), last);
}

#[test]
fn adding_a_daily_past_the_last_id_is_refused() {
    let data = SaveData { todos: vec![], dailies: vec![], next_daily_id: u64::MAX };
    let mut app = App::new(data, day(2024, 6, 10));
    app.handle_key(Key::Char('a'));
    type_text(&mut app, "x");
    assert_eq!(app.try_handle_key(Key::Enter), None);
    assert_eq!(app.input_text(), "x");
    assert_eq!(app.mode(), Mode::Insert);
    app.handle_key(Key::Backspace);
    type_text(&mut app, " ");
    assert_eq!(app.try_handle_key(Key::Enter), Some(Effect::Nothing));
    assert_eq!(app.next_daily_id(), u64::MAX);
}

#[test]
fn save_data_copies_the_lists() {
    let today = day(2024, 6, 10);
    let app = sample(today);
    let saved = app.save_data();
    assert_eq!(texts(&saved.todos), vec!["a", "later", "b"]);
    assert_eq!(saved.dailies.len(), 2);
    assert_eq!(saved.dailies[1].text, "walk");
    assert_eq!(saved.dailies[1].done_dates, vec![today]);
    assert_eq!(saved.next_daily_id, 2);
    assert!(saved.todos[2].done);
}

#[test]
fn labels_and_help_follow_focus_and_mode() {
    assert_eq!(focus_label(Focus::Dailies), "diária");
    assert_eq!(focus_label(Focus::Todos), "todo");
    assert!(help_line(Mode::Normal).contains("q: sair"));
    assert_eq!(help_line(Mode::Insert), "  digitando... enter salva, esc cancela");
}

#[test]
fn tab_twice_returns_focus() {
    let mut app = sample(day(2024, 6, 10));
    app.handle_key(Key::Tab);
    app.handle_key(Key::Tab);
    assert_eq!(app.focus(), Focus::Dailies);
}
