//! Circular selection cursors over lists that may be empty.
use vstd::prelude::*;

verus! {

/// The selection after moving down a list of `len` items: from the last item, or
/// from no selection, to the first; on an empty list the selection stays.
pub open spec fn wrap_next(sel: Option<usize>, len: nat) -> Option<usize> {
    if len == 0 {
        sel
    } else {
        match sel {
            Some(i) => if i + 1 >= len {
                Some(0)
            } else {
                Some((i + 1) as usize)
            },
            None => Some(0),
        }
    }
}

/// The selection after moving up a list of `len` items: from the first item to
/// the last, from no selection to the first; on an empty list the selection stays.
pub open spec fn wrap_previous(sel: Option<usize>, len: nat) -> Option<usize> {
    if len == 0 {
        sel
    } else {
        match sel {
            Some(i) => if i == 0 {
                Some((len - 1) as usize)
            } else {
                Some((i - 1) as usize)
            },
            None => Some(0),
        }
    }
}

/// Whether `sel` is none or an index into a list of `len` items.
pub open spec fn in_range(sel: Option<usize>, len: nat) -> bool {
    match sel {
        Some(i) => i < len,
        None => true,
    }
}

/// The first item of a list of `len` items, if there is one.
pub open spec fn first_of(len: nat) -> Option<usize> {
    if len == 0 {
        None
    } else {
        Some(0)
    }
}

pub fn next_index(sel: Option<usize>, len: usize) -> (r: Option<usize>)
    ensures
        r == wrap_next(sel, len as nat),
{
    if len == 0 {
        return sel;
    }
    match sel {
        Some(i) => if i >= len - 1 {
            Some(0)
        } else {
            Some(i + 1)
        },
        None => Some(0),
    }
}

pub fn previous_index(sel: Option<usize>, len: usize) -> (r: Option<usize>)
    ensures
        r == wrap_previous(sel, len as nat),
{
    if len == 0 {
        return sel;
    }
    match sel {
        Some(i) => if i == 0 {
            Some(len - 1)
        } else {
            Some(i - 1)
        },
        None => Some(0),
    }
}

pub fn first_index(len: usize) -> (r: Option<usize>)
    ensures
        r == first_of(len as nat),
{
    if len == 0 {
        None
    } else {
        Some(0)
    }
}

/// Moving down from the last item of a non-empty list wraps to the first, moving
/// up from the first wraps to the last, both keep the selection within the list,
/// and on an empty list neither changes the selection.
pub proof fn lemma_cursor_wraps(sel: Option<usize>, len: usize)
    ensures
        len > 0 ==> wrap_next(Some((len - 1) as usize), len as nat) == Some(0usize),
        len > 0 ==> wrap_previous(Some(0usize), len as nat) == Some((len - 1) as usize),
        len > 0 && in_range(sel, len as nat) ==> in_range(wrap_next(sel, len as nat), len as nat)
            && in_range(wrap_previous(sel, len as nat), len as nat),
        len == 0 ==> wrap_next(sel, 0) == sel && wrap_previous(sel, 0) == sel,
{
}

} // verus!
