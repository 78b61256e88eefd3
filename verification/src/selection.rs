//! The cursor of a list: an index into it, or nothing when the list is empty.

use vstd::prelude::*;

verus! {

/// The cursor as a mathematical value.
pub open spec fn index_view(selected: Option<usize>) -> Option<nat> {
    match selected {
        Some(i) => Some(i as nat),
        None => None,
    }
}

/// A cursor fits a list of `len` items when it points into the list, and is
/// absent exactly when the list is empty.
pub open spec fn valid_index(selected: Option<nat>, len: nat) -> bool {
    match selected {
        Some(i) => i < len,
        None => len == 0,
    }
}

/// The cursor one step further down, from the last item back to the first.
/// An empty list leaves the cursor as it is.
pub open spec fn next_index(selected: Option<nat>, len: nat) -> Option<nat> {
    if len == 0 {
        selected
    } else {
        match selected {
            Some(i) => if i + 1 >= len {
                Some(0)
            } else {
                Some(i + 1)
            },
            None => Some(0),
        }
    }
}

/// The cursor one step further up, from the first item back to the last.
/// An empty list leaves the cursor as it is.
pub open spec fn previous_index(selected: Option<nat>, len: nat) -> Option<nat> {
    if len == 0 {
        selected
    } else {
        match selected {
            Some(i) => if i == 0 {
                Some((len - 1) as nat)
            } else {
                Some((i - 1) as nat)
            },
            None => Some(0),
        }
    }
}

/// The cursor after the list was replaced by one of `len` items: gone if the
/// new list is empty, on the last item if it pointed beyond it, on the first
/// item if there was none, and where it was otherwise.
pub open spec fn clamp_index(selected: Option<nat>, len: nat) -> Option<nat> {
    if len == 0 {
        None
    } else {
        match selected {
            Some(i) => if i >= len {
                Some((len - 1) as nat)
            } else {
                Some(i)
            },
            None => Some(0),
        }
    }
}

/// Whether a cursor fits a list of `len` items.
pub fn fits(selected: Option<usize>, len: usize) -> (valid: bool)
    ensures
        valid == valid_index(index_view(selected), len as nat),
{
    match selected {
        Some(i) => i < len,
        None => len == 0,
    }
}

/// Moves a cursor one step down a list of `len` items, wrapping at the end.
pub fn select_next(selected: Option<usize>, len: usize) -> (moved: Option<usize>)
    ensures
        index_view(moved) == next_index(index_view(selected), len as nat),
{
    if len == 0 {
        selected
    } else {
        match selected {
            Some(i) => if i >= len - 1 {
                Some(0)
            } else {
                Some(i + 1)
            },
            None => Some(0),
        }
    }
}

/// Moves a cursor one step up a list of `len` items, wrapping at the start.
pub fn select_previous(selected: Option<usize>, len: usize) -> (moved: Option<usize>)
    ensures
        index_view(moved) == previous_index(index_view(selected), len as nat),
{
    if len == 0 {
        selected
    } else {
        match selected {
            Some(i) => if i == 0 {
                Some(len - 1)
            } else {
                Some(i - 1)
            },
            None => Some(0),
        }
    }
}

/// Fits a cursor to a list that was replaced by one of `len` items.
pub fn clamp(selected: Option<usize>, len: usize) -> (clamped: Option<usize>)
    ensures
        index_view(clamped) == clamp_index(index_view(selected), len as nat),
{
    if len == 0 {
        None
    } else {
        match selected {
            Some(i) => if i >= len {
                Some(len - 1)
            } else {
                Some(i)
            },
            None => Some(0),
        }
    }
}

/// The cursor after `n` steps down a list of `len` items.
pub open spec fn next_index_times(selected: Option<nat>, len: nat, n: nat) -> Option<nat>
    decreases n,
{
    if n == 0 {
        selected
    } else {
        next_index(next_index_times(selected, len, (n - 1) as nat), len)
    }
}

/// Stepping down moves a cursor that fits its list forward by the number of
/// steps, counted round the list.
pub proof fn lemma_next_index_times(selected: Option<nat>, len: nat, n: nat)
    requires
        valid_index(selected, len),
        len > 0,
    ensures
        next_index_times(selected, len, n) == Some((selected->0 + n) % len),
    decreases n,
{
    let i = selected->0 as int;
    let l = len as int;
    let k = n as int;
    if n == 0 {
        assert(i % l == i) by (nonlinear_arith)
            requires
                0 <= i < l,
        ;
    } else {
        lemma_next_index_times(selected, len, (n - 1) as nat);
        let before = (i + k - 1) % l;
        assert(0 <= before < l) by (nonlinear_arith)
            requires
                l > 0,
                before == (i + k - 1) % l,
        ;
        assert((i + k) % l == if before + 1 >= l {
            0
        } else {
            before + 1
        }) by (nonlinear_arith)
            requires
                l > 0,
                before == (i + k - 1) % l,
                0 <= before < l,
        ;
    }
}

/// As many steps down as the list has items bring a cursor that fits the list
/// back to where it started.
pub proof fn lemma_next_index_cycle(selected: Option<nat>, len: nat)
    requires
        valid_index(selected, len),
    ensures
        next_index_times(selected, len, len) == selected,
{
    if len == 0 {
    } else {
        lemma_next_index_times(selected, len, len);
        let i = selected->0 as int;
        let l = len as int;
        assert((i + l) % l == i) by (nonlinear_arith)
            requires
                0 <= i < l,
        ;
    }
}

/// Every move and every fitting yields a cursor that fits the list.
pub proof fn lemma_moves_stay_valid(selected: Option<nat>, len: nat)
    ensures
        valid_index(clamp_index(selected, len), len),
        valid_index(selected, len) ==> clamp_index(selected, len) == selected,
        valid_index(selected, len) ==> valid_index(next_index(selected, len), len),
        valid_index(selected, len) ==> valid_index(previous_index(selected, len), len),
{
}

} // verus!
