//! The highlighted row of a list: none when the list is empty, otherwise a
//! position inside it.

use vstd::prelude::*;

verus! {

/// A selection fits a list of `n` rows: nothing is selected exactly when the
/// list is empty, and a selected row lies inside the list.
pub open spec fn fits(sel: Option<usize>, n: nat) -> bool {
    match sel {
        None => n == 0,
        Some(i) => i < n,
    }
}

/// The selection brought back inside a list of `n` rows: cleared on an empty
/// list, the first row when nothing was selected, the last row when the
/// selection lay past the end, otherwise unchanged.
pub open spec fn synced(sel: Option<usize>, n: nat) -> Option<usize> {
    if n == 0 {
        None
    } else {
        match sel {
            None => Some(0),
            Some(i) => if i >= n {
                Some((n - 1) as usize)
            } else {
                Some(i)
            },
        }
    }
}

/// The selection moved one row down, wrapping from the last row to the first
/// (the first row when nothing was selected); unchanged on an empty list.
pub open spec fn moved_down(sel: Option<usize>, n: nat) -> Option<usize> {
    if n == 0 {
        sel
    } else {
        match sel {
            None => Some(0),
            Some(i) => Some(((i + 1) % (n as int)) as usize),
        }
    }
}

/// The selection moved one row up, wrapping from the first row to the last
/// (the last row when nothing was selected); unchanged on an empty list.
pub open spec fn moved_up(sel: Option<usize>, n: nat) -> Option<usize> {
    if n == 0 {
        sel
    } else {
        match sel {
            None => Some((n - 1) as usize),
            Some(i) => if i == 0 {
                Some((n - 1) as usize)
            } else {
                Some((i - 1) as usize)
            },
        }
    }
}

/// Brings a selection back inside a list of `n` rows.
pub fn sync_selection(sel: Option<usize>, n: usize) -> (r: Option<usize>)
    ensures
        r == synced(sel, n as nat),
        fits(r, n as nat),
{
    if n == 0 {
        None
    } else {
        match sel {
            None => Some(0),
            Some(i) => if i >= n {
                Some(n - 1)
            } else {
                Some(i)
            },
        }
    }
}

/// Moves a selection one row down a list of `n` rows.
pub fn move_down(sel: Option<usize>, n: usize) -> (r: Option<usize>)
    requires
        sel matches Some(i) ==> i < n,
    ensures
        r == moved_down(sel, n as nat),
        n > 0 ==> fits(r, n as nat),
{
    if n == 0 {
        return sel;
    }
    match sel {
        None => Some(0),
        Some(i) => Some((i + 1) % n),
    }
}

/// Moves a selection one row up a list of `n` rows.
pub fn move_up(sel: Option<usize>, n: usize) -> (r: Option<usize>)
    requires
        sel matches Some(i) ==> i < n,
    ensures
        r == moved_up(sel, n as nat),
        n > 0 ==> fits(r, n as nat),
{
    if n == 0 {
        return sel;
    }
    match sel {
        None => Some(n - 1),
        Some(i) => if i == 0 {
            Some(n - 1)
        } else {
            Some(i - 1)
        },
    }
}

/// Syncing a selection that already fits its list leaves it unchanged.
pub proof fn law_sync_keeps_fitting_selection(sel: Option<usize>, n: nat)
    requires
        fits(sel, n),
    ensures
        synced(sel, n) == sel,
{
}

/// On a non-empty list, moving down and then up (or up and then down) returns
/// to the row that was selected.
pub proof fn law_down_then_up_returns(sel: Option<usize>, n: nat)
    requires
        n > 0,
        fits(sel, n),
        n <= usize::MAX,
    ensures
        moved_up(moved_down(sel, n), n) == sel,
        moved_down(moved_up(sel, n), n) == sel,
{
    let i = sel->0;
    if i + 1 < n {
        assert((i + 1) % (n as int) == i + 1) by (nonlinear_arith)
            requires
                0 <= i + 1 < n,
        ;
    } else {
        assert((i + 1) % (n as int) == 0) by (nonlinear_arith)
            requires
                i + 1 == n,
                n > 0,
        ;
    }
    if i == 0 {
        assert((n as int) % (n as int) == 0) by (nonlinear_arith)
            requires
                n > 0,
        ;
    } else {
        assert((i as int) % (n as int) == i as int) by (nonlinear_arith)
            requires
                0 <= i < n,
        ;
    }
}

} // verus!
