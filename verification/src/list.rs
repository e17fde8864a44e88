//! The stateful list: an ordered collection of entries, a cursor that may be
//! unselected, and a remembered exit point for re-entry after deselection.
//!
//! Cursor movement wraps circularly in both directions; navigating an empty
//! list is a benign no-op that leaves nothing selected. The cursor spec
//! functions (`next_cursor`, `prev_cursor`, `reselect_cursor`, `go_cursor`)
//! are the mathematical model every operation's contract is stated over.

use vstd::prelude::*;

use crate::utils::{Context, Location};

verus! {

/// A cursor as a mathematical value: the selected index, if any.
pub open spec fn opt_index(c: Option<usize>) -> Option<int> {
    match c {
        Some(i) => Some(i as int),
        None => None,
    }
}

/// Where `next` moves the cursor on a list of length `len`: nothing stays
/// nothing on an empty list, no selection becomes index 0, and a selection
/// advances by one, wrapping from the last index back to 0.
pub open spec fn next_cursor(cur: Option<int>, len: int) -> Option<int> {
    if len <= 0 {
        None
    } else {
        match cur {
            None => Some(0),
            Some(i) => if i >= len - 1 {
                Some(0)
            } else {
                Some(i + 1)
            },
        }
    }
}

/// Where `prev` moves the cursor: the mirror of `next_cursor`, wrapping from
/// index 0 back to the last index.
pub open spec fn prev_cursor(cur: Option<int>, len: int) -> Option<int> {
    if len <= 0 {
        None
    } else {
        match cur {
            None => Some(0),
            Some(i) => if i == 0 {
                Some(len - 1)
            } else {
                Some(i - 1)
            },
        }
    }
}

/// Where `reselect` puts the cursor, given the remembered exit point: the
/// exit point if it is still a valid index, index 0 otherwise, and no
/// selection at all on an empty list.
pub open spec fn reselect_cursor(exit: Option<int>, len: int) -> Option<int> {
    if len <= 0 {
        None
    } else {
        match exit {
            Some(e) => if 0 <= e < len {
                Some(e)
            } else {
                Some(0)
            },
            None => Some(0),
        }
    }
}

/// Where a navigation operation puts the cursor, by context. In the list
/// context the cursor moves plainly; in the default context it re-enters the
/// list at its exit point and then advances one step.
pub open spec fn go_cursor(
    c: Context,
    loc: Location,
    cur: Option<int>,
    exit: Option<int>,
    len: int,
) -> Option<int> {
    match c {
        Context::List => match loc {
            Location::Up => prev_cursor(cur, len),
            Location::Down => next_cursor(cur, len),
            Location::ExitPoint => reselect_cursor(exit, len),
        },
        Context::Default => match loc {
            Location::Up => prev_cursor(reselect_cursor(exit, len), len),
            Location::Down => next_cursor(reselect_cursor(exit, len), len),
            Location::ExitPoint => reselect_cursor(exit, len),
        },
    }
}

/// An ordered collection with an optional selection and a remembered exit
/// point. `cursor = None` means nothing is selected.
pub struct StatefulList<I> {
    pub cursor: Option<usize>,
    pub exit_point: Option<usize>,
    pub list: Vec<I>,
}

impl<I> StatefulList<I> {
    /// A selected cursor always points inside the list.
    pub open spec fn wf(self) -> bool {
        self.cursor matches Some(i) ==> (i as int) < self.list@.len()
    }

    pub fn with_items(items: Vec<I>) -> (r: Self)
        ensures
            r.cursor is None,
            r.exit_point is None,
            r.list == items,
            r.wf(),
    {
        StatefulList { cursor: None, exit_point: None, list: items }
    }

    /// Advance the selection by one, wrapping to the top; select index 0 when
    /// nothing was selected; do nothing on an empty list.
    pub fn next(&mut self)
        ensures
            final(self).list == old(self).list,
            final(self).exit_point == old(self).exit_point,
            opt_index(final(self).cursor) == next_cursor(
                opt_index(old(self).cursor),
                old(self).list@.len() as int,
            ),
            final(self).wf(),
    {
        if self.list.len() == 0 {
            self.cursor = None;
        } else {
            let next_index: usize = match self.cursor {
                Some(current_index) => {
                    if current_index >= self.list.len() - 1 {
                        0
                    } else {
                        current_index + 1
                    }
                },
                None => 0,
            };
            self.cursor = Some(next_index);
        }
    }

    /// Move the selection back by one, wrapping to the bottom; select index 0
    /// when nothing was selected; do nothing on an empty list.
    pub fn prev(&mut self)
        ensures
            final(self).list == old(self).list,
            final(self).exit_point == old(self).exit_point,
            opt_index(final(self).cursor) == prev_cursor(
                opt_index(old(self).cursor),
                old(self).list@.len() as int,
            ),
            old(self).wf() ==> final(self).wf(),
    {
        if self.list.len() == 0 {
            self.cursor = None;
        } else {
            let prev_index: usize = match self.cursor {
                Some(current_index) => {
                    if current_index == 0 {
                        self.list.len() - 1
                    } else {
                        current_index - 1
                    }
                },
                None => 0,
            };
            self.cursor = Some(prev_index);
        }
    }

    /// Remember the current selection as the exit point and deselect.
    /// Idempotent: when nothing is selected, the remembered exit point is
    /// kept, so a repeated call changes nothing.
    pub fn deselect(&mut self)
        ensures
            final(self).list == old(self).list,
            final(self).cursor is None,
            final(self).exit_point == (if old(self).cursor is Some {
                old(self).cursor
            } else {
                old(self).exit_point
            }),
            final(self).wf(),
    {
        if self.cursor.is_some() {
            self.exit_point = self.cursor;
        }
        self.cursor = None;
    }

    /// Restore the selection from the exit point, falling back to index 0
    /// when the exit point is missing or no longer a valid index; an empty
    /// list stays unselected.
    pub fn reselect(&mut self)
        ensures
            final(self).list == old(self).list,
            final(self).exit_point == old(self).exit_point,
            opt_index(final(self).cursor) == reselect_cursor(
                opt_index(old(self).exit_point),
                old(self).list@.len() as int,
            ),
            final(self).wf(),
    {
        if self.list.len() == 0 {
            self.cursor = None;
        } else {
            let entry_index: usize = match self.exit_point {
                Some(exit_point) => {
                    if exit_point >= self.list.len() {
                        0
                    } else {
                        exit_point
                    }
                },
                None => 0,
            };
            self.cursor = Some(entry_index);
        }
    }

    /// Re-enter the list at the exit point, then advance one step.
    pub fn reselect_next(&mut self)
        ensures
            final(self).list == old(self).list,
            final(self).exit_point == old(self).exit_point,
            opt_index(final(self).cursor) == next_cursor(
                reselect_cursor(opt_index(old(self).exit_point), old(self).list@.len() as int),
                old(self).list@.len() as int,
            ),
            final(self).wf(),
    {
        self.reselect();
        self.next();
    }

    /// Re-enter the list at the exit point, then move one step back.
    pub fn reselect_prev(&mut self)
        ensures
            final(self).list == old(self).list,
            final(self).exit_point == old(self).exit_point,
            opt_index(final(self).cursor) == prev_cursor(
                reselect_cursor(opt_index(old(self).exit_point), old(self).list@.len() as int),
                old(self).list@.len() as int,
            ),
            final(self).wf(),
    {
        self.reselect();
        self.prev();
    }

    /// Append an item at the end. The cursor and the exit point are
    /// untouched.
    pub fn push(&mut self, item: I)
        ensures
            final(self).cursor == old(self).cursor,
            final(self).exit_point == old(self).exit_point,
            final(self).list@ == old(self).list@.push(item),
            old(self).wf() ==> final(self).wf(),
    {
        self.list.push(item);
    }
}

/// On a non-empty list, `next` and `prev` are inverses of one another for
/// every valid selection: either order returns the cursor to where it was.
pub proof fn lemma_next_prev_inverse(cur: Option<int>, len: int)
    requires
        len >= 1,
        cur matches Some(i) && 0 <= i < len,
    ensures
        prev_cursor(next_cursor(cur, len), len) == cur,
        next_cursor(prev_cursor(cur, len), len) == cur,
{
}

/// How the cursor stands after `steps` repetitions of `next`.
pub open spec fn iterate_next(cur: Option<int>, len: int, steps: nat) -> Option<int>
    decreases steps,
{
    if steps == 0 {
        cur
    } else {
        iterate_next(next_cursor(cur, len), len, (steps - 1) as nat)
    }
}

proof fn lemma_next_reaches_zero(i: int, len: int)
    requires
        0 <= i < len,
    ensures
        iterate_next(Some(i), len, (len - i) as nat) == Some(0int),
    decreases len - i,
{
    if i == len - 1 {
        assert(next_cursor(Some(i), len) == Some(0int));
        assert(iterate_next(Some(i), len, 1) == iterate_next(Some(0int), len, 0));
    } else {
        assert(next_cursor(Some(i), len) == Some(i + 1));
        lemma_next_reaches_zero(i + 1, len);
        assert(iterate_next(Some(i), len, (len - i) as nat) == iterate_next(
            Some(i + 1),
            len,
            (len - i - 1) as nat,
        ));
    }
}

/// Full-cycle invariant: on a list of length `len >= 1`, repeating `next`
/// exactly `len` times from a selection at index 0 returns it to index 0.
pub proof fn lemma_next_full_cycle(len: int)
    requires
        len >= 1,
    ensures
        iterate_next(Some(0int), len, len as nat) == Some(0int),
{
    lemma_next_reaches_zero(0, len);
}

/// `deselect` followed immediately by `reselect` restores the prior cursor:
/// `deselect` saves the cursor as the exit point, and for any still-valid
/// saved index `reselect` selects exactly that index again.
pub proof fn lemma_deselect_reselect_restores(cur: Option<int>, len: int)
    requires
        cur matches Some(i) && 0 <= i < len,
    ensures
        reselect_cursor(cur, len) == cur,
{
}

/// A stale exit point is clamped: when the remembered index no longer lies
/// inside a non-empty list, `reselect` selects index 0 rather than an
/// out-of-range index.
pub proof fn lemma_reselect_clamps_stale_exit(e: int, len: int)
    requires
        len >= 1,
        e >= len,
    ensures
        reselect_cursor(Some(e), len) == Some(0int),
{
}

} // verus!
