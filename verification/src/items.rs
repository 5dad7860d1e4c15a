//! The planner's records: one-off todos, recurring dailies, and the saved
//! snapshot of both.

use crate::date::Date;
use vstd::prelude::*;

verus! {

/// A one-off task pinned to a day.
pub struct Todo {
    pub text: String,
    pub done: bool,
    pub date: Date,
}

/// What a todo holds, with its text as characters.
pub struct TodoView {
    pub text: Seq<char>,
    pub done: bool,
    pub date: Date,
}

impl View for Todo {
    type V = TodoView;

    open spec fn view(&self) -> TodoView {
        TodoView { text: self.text@, done: self.done, date: self.date }
    }
}

/// A recurring habit, checked off separately on each day.
pub struct Daily {
    pub id: u64,
    pub text: String,
    pub done_dates: Vec<Date>,
}

/// What a daily holds, with its text as characters and its days as a sequence.
pub struct DailyView {
    pub id: u64,
    pub text: Seq<char>,
    pub done_dates: Seq<Date>,
}

impl View for Daily {
    type V = DailyView;

    open spec fn view(&self) -> DailyView {
        DailyView { id: self.id, text: self.text@, done_dates: self.done_dates@ }
    }
}

/// The saved state of the planner: its todos, its dailies and the id the next
/// daily will get.
pub struct SaveData {
    pub todos: Vec<Todo>,
    pub dailies: Vec<Daily>,
    pub next_daily_id: u64,
}

/// What a saved state holds.
pub struct SaveDataView {
    pub todos: Seq<TodoView>,
    pub dailies: Seq<DailyView>,
    pub next_daily_id: u64,
}

/// The views of a sequence of todos.
pub open spec fn todo_views(s: Seq<Todo>) -> Seq<TodoView> {
    s.map_values(|t: Todo| t@)
}

/// The views of a sequence of dailies.
pub open spec fn daily_views(s: Seq<Daily>) -> Seq<DailyView> {
    s.map_values(|d: Daily| d@)
}

impl View for SaveData {
    type V = SaveDataView;

    open spec fn view(&self) -> SaveDataView {
        SaveDataView {
            todos: todo_views(self.todos@),
            dailies: daily_views(self.dailies@),
            next_daily_id: self.next_daily_id,
        }
    }
}

/// The first position of `x` in `s` (meaningful when `s` contains `x`).
pub open spec fn first_index_of(s: Seq<Date>, x: Date) -> int {
    choose|i: int| 0 <= i < s.len() && s[i] == x && forall|j: int| 0 <= j < i ==> s[j] != x
}

/// The days after toggling `x`: its first occurrence removed if it is there,
/// otherwise `x` appended.
pub open spec fn toggled_dates(s: Seq<Date>, x: Date) -> Seq<Date> {
    if s.contains(x) {
        s.remove(first_index_of(s, x))
    } else {
        s.push(x)
    }
}

/// No day occurs twice.
pub open spec fn no_duplicate_dates(s: Seq<Date>) -> bool {
    forall|i: int, j: int| 0 <= i < j < s.len() ==> s[i] != s[j]
}

impl Todo {
    /// A copy of this todo.
    pub fn copied(&self) -> (r: Todo)
        ensures
            r@ == self@,
    {
        Todo { text: self.text.clone(), done: self.done, date: self.date }
    }
}

impl Daily {
    /// Whether the daily was checked off on `date`.
    pub fn is_done_on(&self, date: Date) -> (r: bool)
        ensures
            r == self.done_dates@.contains(date),
    {
        let n = self.done_dates.len();
        let mut i: usize = 0;
        while i < n
            invariant
                n == self.done_dates@.len(),
                i <= n,
                forall|j: int| 0 <= j < i ==> self.done_dates@[j] != date,
            decreases n - i,
        {
            if self.done_dates[i] == date {
                return true;
            }
            i = i + 1;
        }
        false
    }

    /// Checks the daily off on `date`, or un-checks it if it was checked.
    pub fn toggle_done(&mut self, date: Date)
        ensures
            final(self)@ == (DailyView {
                done_dates: toggled_dates(old(self)@.done_dates, date),
                ..old(self)@
            }),
    {
        let n = self.done_dates.len();
        let mut i: usize = 0;
        while i < n
            invariant
                n == self.done_dates@.len(),
                self.done_dates@ == old(self).done_dates@,
                self.id == old(self).id,
                self.text == old(self).text,
                i <= n,
                forall|j: int| 0 <= j < i ==> self.done_dates@[j] != date,
            decreases n - i,
        {
            if self.done_dates[i] == date {
                proof {
                    let s = self.done_dates@;
                    assert(s.contains(date));
                    let k = first_index_of(s, date);
                    assert(k == i as int) by {
                        if k < i as int {
                            assert(s[k] != date);
                        }
                        if k > i as int {
                            assert(s[i as int] != date);
                        }
                    }
                }
                self.done_dates.remove(i);
                return;
            }
            i = i + 1;
        }
        self.done_dates.push(date);
    }

    /// A copy of this daily.
    pub fn copied(&self) -> (r: Daily)
        ensures
            r@ == self@,
    {
        let dates = self.done_dates.clone();
        assert(dates@ =~= self.done_dates@);
        Daily { id: self.id, text: self.text.clone(), done_dates: dates }
    }
}

impl SaveData {
    /// The state of a planner that has never been saved.
    pub fn empty() -> (r: SaveData)
        ensures
            r@.todos.len() == 0,
            r@.dailies.len() == 0,
            r.next_daily_id == 0,
    {
        SaveData { todos: Vec::new(), dailies: Vec::new(), next_daily_id: 0 }
    }
}

/// A day that occurs in `s` has a first position there.
pub proof fn lemma_first_index_exists(s: Seq<Date>, x: Date)
    requires
        s.contains(x),
    ensures
        0 <= first_index_of(s, x) < s.len(),
        s[first_index_of(s, x)] == x,
        forall|j: int| 0 <= j < first_index_of(s, x) ==> s[j] != x,
    decreases s.len(),
{
    let e = s.drop_last();
    if e.contains(x) {
        lemma_first_index_exists(e, x);
        let k = first_index_of(e, x);
        assert(s[k] == e[k]);
        assert forall|j: int| 0 <= j < k implies s[j] != x by {
            assert(e[j] == s[j]);
        }
    } else {
        let k = s.len() - 1;
        assert(s[k] == x) by {
            let j = choose|j: int| 0 <= j < s.len() && s[j] == x;
            if j < k {
                assert(e[j] == x);
            }
        }
        assert forall|j: int| 0 <= j < k implies s[j] != x by {
            assert(e[j] == s[j]);
        }
    }
}

/// Toggling a day that is not checked off, then toggling it again, gives back
/// exactly the days there were.
pub proof fn law_toggle_twice_restores_when_absent(s: Seq<Date>, x: Date)
    requires
        !s.contains(x),
    ensures
        toggled_dates(toggled_dates(s, x), x) == s,
{
    let t = s.push(x);
    assert(t[s.len() as int] == x);
    assert(t.contains(x));
    let k = first_index_of(t, x);
    assert(k == s.len()) by {
        if k < s.len() {
            assert(s[k] == t[k]);
        }
    }
    assert(t.remove(k) =~= s);
}

/// Where no day is listed twice, toggling a day flips whether it is checked
/// off, leaves every other day as it was, and still lists no day twice.
pub proof fn law_toggle_flips_one_day(s: Seq<Date>, x: Date)
    requires
        no_duplicate_dates(s),
    ensures
        toggled_dates(s, x).contains(x) == !s.contains(x),
        forall|y: Date| y != x ==> toggled_dates(s, x).contains(y) == s.contains(y),
        no_duplicate_dates(toggled_dates(s, x)),
{
    let t = toggled_dates(s, x);
    if s.contains(x) {
        let k = first_index_of(s, x);
        assert(0 <= k < s.len() && s[k] == x);
        assert forall|i: int| 0 <= i < t.len() implies t[i] != x by {
            if i < k {
                assert(t[i] == s[i]);
            } else {
                assert(t[i] == s[i + 1]);
            }
        }
        assert forall|y: Date| y != x implies t.contains(y) == s.contains(y) by {
            if s.contains(y) {
                let j = choose|j: int| 0 <= j < s.len() && s[j] == y;
                if j < k {
                    assert(t[j] == y);
                } else {
                    assert(j != k);
                    assert(t[j - 1] == y);
                }
            }
            if t.contains(y) {
                let j = choose|j: int| 0 <= j < t.len() && t[j] == y;
                if j < k {
                    assert(s[j] == y);
                } else {
                    assert(s[j + 1] == y);
                }
            }
        }
        assert forall|i: int, j: int| 0 <= i < j < t.len() implies t[i] != t[j] by {
            let i2 = if i < k { i } else { i + 1 };
            let j2 = if j < k { j } else { j + 1 };
            assert(t[i] == s[i2] && t[j] == s[j2]);
        }
    } else {
        assert(t[s.len() as int] == x);
        assert forall|y: Date| y != x implies t.contains(y) == s.contains(y) by {
            if s.contains(y) {
                let j = choose|j: int| 0 <= j < s.len() && s[j] == y;
                assert(t[j] == y);
            }
            if t.contains(y) {
                let j = choose|j: int| 0 <= j < t.len() && t[j] == y;
                assert(s[j] == y);
            }
        }
        assert forall|i: int, j: int| 0 <= i < j < t.len() implies t[i] != t[j] by {
            if j == s.len() {
                assert(t[i] == s[i]);
            }
        }
    }
}

/// Where no day is listed twice, toggling the same day twice leaves every day
/// checked off exactly as before.
pub proof fn law_toggle_twice_keeps_checked_days(s: Seq<Date>, x: Date)
    requires
        no_duplicate_dates(s),
    ensures
        forall|y: Date| toggled_dates(toggled_dates(s, x), x).contains(y) == s.contains(y),
{
    law_toggle_flips_one_day(s, x);
    law_toggle_flips_one_day(toggled_dates(s, x), x);
}

} // verus!
