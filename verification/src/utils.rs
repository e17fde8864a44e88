//! The context-sensitive input dispatcher and its data model.
//!
//! A [`Context`] decides how a [`Key`] press is read: the behavior table in
//! [`Context::processs_input`] maps each (context, key) pair either to an
//! [`Action`] or to nothing. The dispatcher is a pure classifier: it never
//! touches the list or the context itself.

use vstd::prelude::*;

verus! {

/// The key presses the dispatcher distinguishes. Any key outside this set is
/// reported as `Other` and is never mapped to an action.
#[derive(Clone, Copy, PartialEq, Eq, Debug)]
pub enum Key {
    Char(char),
    Left,
    Right,
    Up,
    Down,
    Esc,
    Other,
}

/// The active input-interpretation mode.
#[derive(Clone, Copy, PartialEq, Eq, Structural, Debug)]
pub enum Context {
    Default,
    List,
}

/// Where a navigation operation moves the cursor.
#[derive(Clone, Copy, PartialEq, Eq, Structural, Debug)]
pub enum Location {
    ExitPoint,
    Up,
    Down,
}

/// An operation targeted at the stateful list: move the cursor, or append a
/// new entry with the given title and description.
#[derive(Debug)]
pub enum Operation {
    Go(Location),
    New(String, String),
}

/// A high-level intent produced by interpreting a key event within a context.
#[derive(Debug)]
pub enum Action {
    Quit,
    ChangeContext(Context),
    ListSignal(Operation),
}

/// The scope of a signal: whether it is meant for the application as a whole
/// or for the component owning the active context.
#[derive(Clone, Copy, PartialEq, Eq, Structural, Debug)]
pub enum SType {
    TopLevel,
    Contextual,
}

/// An action paired with the scope it is addressed to.
pub struct Signal {
    pub stype: SType,
    pub action: Action,
}

/// The shape of a dispatched action, with the fixed placeholder strings of an
/// insertion left out. `dispatch_spec` states the whole behavior table over
/// this type; the dispatcher's `ensures` ties its result to it.
pub enum Intent {
    Quit,
    ChangeContext(Context),
    Go(Location),
    Insert,
}

/// The shape of an optional action: which variant it is, and every payload
/// except an insertion's strings.
pub open spec fn action_intent(r: Option<Action>) -> Option<Intent> {
    match r {
        None => None,
        Some(Action::Quit) => Some(Intent::Quit),
        Some(Action::ChangeContext(target)) => Some(Intent::ChangeContext(target)),
        Some(Action::ListSignal(Operation::Go(loc))) => Some(Intent::Go(loc)),
        Some(Action::ListSignal(Operation::New(_, _))) => Some(Intent::Insert),
    }
}

/// The full behavior table: what each context maps each key to.
pub open spec fn dispatch_spec(c: Context, k: Key) -> Option<Intent> {
    match c {
        Context::Default => match k {
            Key::Char(ch) => if ch == 'Q' || ch == 'q' {
                Some(Intent::Quit)
            } else if ch == 'l' {
                Some(Intent::ChangeContext(Context::List))
            } else {
                None
            },
            Key::Left => Some(Intent::Go(Location::ExitPoint)),
            Key::Up => Some(Intent::Go(Location::Up)),
            Key::Down => Some(Intent::Go(Location::Down)),
            _ => None,
        },
        Context::List => match k {
            Key::Char(ch) => if ch == 'Q' {
                Some(Intent::Quit)
            } else if ch == 'q' {
                Some(Intent::ChangeContext(Context::Default))
            } else if ch == 'N' || ch == 'n' {
                Some(Intent::Insert)
            } else {
                None
            },
            Key::Right | Key::Esc => Some(Intent::ChangeContext(Context::Default)),
            Key::Up => Some(Intent::Go(Location::Up)),
            Key::Down => Some(Intent::Go(Location::Down)),
            _ => None,
        },
    }
}

impl Context {
    /// The keys a context recognizes: exactly the rows of the behavior table.
    pub open spec fn in_behavior_table(self, k: Key) -> bool {
        match self {
            Context::Default => {
                ||| k == Key::Char('Q')
                ||| k == Key::Char('q')
                ||| k == Key::Char('l')
                ||| k == Key::Left
                ||| k == Key::Up
                ||| k == Key::Down
            },
            Context::List => {
                ||| k == Key::Char('Q')
                ||| k == Key::Char('q')
                ||| k == Key::Char('N')
                ||| k == Key::Char('n')
                ||| k == Key::Right
                ||| k == Key::Esc
                ||| k == Key::Up
                ||| k == Key::Down
            },
        }
    }

    /// Classify a key press under this context. Keys outside the behavior
    /// table yield `None`; an insertion carries the placeholder title and
    /// description.
    pub fn processs_input(&self, key: &Key) -> (r: Option<Action>)
        ensures
            action_intent(r) == dispatch_spec(*self, *key),
            r is Some <==> self.in_behavior_table(*key),
            r matches Some(Action::ListSignal(Operation::New(t, d))) ==> t@ == "title"@ && d@
                == "desc"@,
    {
        match self {
            Context::Default => match key {
                Key::Char(ch) => {
                    if *ch == 'Q' || *ch == 'q' {
                        Some(Action::Quit)
                    } else if *ch == 'l' {
                        Some(Action::ChangeContext(Context::List))
                    } else {
                        None
                    }
                },
                Key::Left => Some(Action::ListSignal(Operation::Go(Location::ExitPoint))),
                Key::Up => Some(Action::ListSignal(Operation::Go(Location::Up))),
                Key::Down => Some(Action::ListSignal(Operation::Go(Location::Down))),
                _ => None,
            },
            Context::List => match key {
                Key::Char(ch) => {
                    if *ch == 'Q' {
                        Some(Action::Quit)
                    } else if *ch == 'q' {
                        Some(Action::ChangeContext(Context::Default))
                    } else if *ch == 'N' || *ch == 'n' {
                        Some(
                            Action::ListSignal(
                                Operation::New("title".to_owned(), "desc".to_owned()),
                            ),
                        )
                    } else {
                        None
                    }
                },
                Key::Right | Key::Esc => Some(Action::ChangeContext(Context::Default)),
                Key::Up => Some(Action::ListSignal(Operation::Go(Location::Up))),
                Key::Down => Some(Action::ListSignal(Operation::Go(Location::Down))),
                _ => None,
            },
        }
    }
}

/// Keys outside the behavior table are never mapped to an action: for every
/// context and every such key the dispatch table yields nothing.
pub proof fn lemma_unrecognized_key_dispatches_none(c: Context, k: Key)
    requires
        !c.in_behavior_table(k),
    ensures
        dispatch_spec(c, k) is None,
{
}

} // verus!
