//! A keyboard-driven list-navigation core for a terminal user interface.
//!
//! The crate has two verified components: a context-sensitive dispatcher that
//! classifies key presses into high-level actions (`utils`), and a stateful
//! list with a circular cursor and a remembered exit point (`list`). The
//! top-level `App` ties them together: it owns the list, the notification
//! events, and the active context, and applies dispatched actions to them.

use vstd::prelude::*;

pub mod list;
pub mod utils;

use crate::list::{reselect_cursor, opt_index, go_cursor, StatefulList};
use crate::utils::{dispatch_spec, Action, Context, Intent, Key, Location, Operation};

verus! {

/// A list entry: a title and how often it has been used.
pub struct Entry {
    pub title: String,
    pub usage_count: usize,
}

fn entry(title: &str, usage_count: usize) -> (e: Entry)
    ensures
        e.title@ == title@,
        e.usage_count == usage_count,
{
    Entry { title: title.to_owned(), usage_count }
}

/// The application state: the selectable list, the rotating notification
/// events, and the context that decides how key presses are interpreted.
pub struct App {
    pub items: StatefulList<Entry>,
    pub events: Vec<(String, String)>,
    pub context: Context,
}

impl App {
    pub fn new() -> (r: App)
        ensures
            r.is_seed(),
    {
        App {
            items: StatefulList::with_items(seed_items()),
            events: seed_events(),
            context: Context::Default,
        }
    }

    /// The exact state every fresh application starts from.
    pub open spec fn is_seed(self) -> bool {
        &&& self.context == Context::Default
        &&& self.items.cursor is None
        &&& self.items.exit_point is None
        &&& self.items.list@.len() == 10
        &&& self.items.list@[0].title@ == "Item0"@ && self.items.list@[0].usage_count == 1
        &&& self.items.list@[1].title@ == "Item1"@ && self.items.list@[1].usage_count == 2
        &&& self.items.list@[2].title@ == "Item2"@ && self.items.list@[2].usage_count == 1
        &&& self.items.list@[3].title@ == "Item3"@ && self.items.list@[3].usage_count == 3
        &&& self.items.list@[4].title@ == "Item4"@ && self.items.list@[4].usage_count == 1
        &&& self.items.list@[5].title@ == "Item5"@ && self.items.list@[5].usage_count == 4
        &&& self.items.list@[6].title@ == "Item6"@ && self.items.list@[6].usage_count == 1
        &&& self.items.list@[7].title@ == "Item7"@ && self.items.list@[7].usage_count == 3
        &&& self.items.list@[8].title@ == "Item8"@ && self.items.list@[8].usage_count == 1
        &&& self.items.list@[9].title@ == "Item9"@ && self.items.list@[9].usage_count == 6
        &&& self.events@.len() == 4
        &&& self.events@[0].0@ == "Event1"@ && self.events@[0].1@ == "INFO"@
        &&& self.events@[1].0@ == "Event2"@ && self.events@[1].1@ == "INFO"@
        &&& self.events@[2].0@ == "Event3"@ && self.events@[2].1@ == "CRITICAL"@
        &&& self.events@[3].0@ == "Event4"@ && self.events@[3].1@ == "ERROR"@
    }
}

impl App {
    /// Interpret one key press under the active context and apply whatever
    /// action it dispatches to. Returns whether the application should
    /// terminate. A key outside the behavior table leaves the state
    /// untouched.
    pub fn handle_key(&mut self, key: &Key) -> (quit: bool)
        ensures
            final(self).events == old(self).events,
            (match dispatch_spec(old(self).context, *key) {
                None => !quit && *final(self) == *old(self),
                Some(Intent::Quit) => quit && *final(self) == *old(self),
                Some(Intent::ChangeContext(target)) => {
                    &&& !quit
                    &&& final(self).context == target
                    &&& final(self).items.list == old(self).items.list
                    &&& old(self).context is List ==> final(self).items.cursor is None
                        && final(self).items.exit_point == (if old(self).items.cursor is Some {
                        old(self).items.cursor
                    } else {
                        old(self).items.exit_point
                    })
                    &&& old(self).context is Default ==> final(self).items.exit_point == old(
                        self,
                    ).items.exit_point && opt_index(final(self).items.cursor) == reselect_cursor(
                        opt_index(old(self).items.exit_point),
                        old(self).items.list@.len() as int,
                    )
                },
                Some(Intent::Go(loc)) => {
                    &&& !quit
                    &&& final(self).context == old(self).context
                    &&& final(self).items.list == old(self).items.list
                    &&& final(self).items.exit_point == old(self).items.exit_point
                    &&& opt_index(final(self).items.cursor) == go_cursor(
                        old(self).context,
                        loc,
                        opt_index(old(self).items.cursor),
                        opt_index(old(self).items.exit_point),
                        old(self).items.list@.len() as int,
                    )
                },
                Some(Intent::Insert) => {
                    &&& !quit
                    &&& final(self).context == old(self).context
                    &&& final(self).items.cursor == old(self).items.cursor
                    &&& final(self).items.exit_point == old(self).items.exit_point
                    &&& final(self).items.list@.len() == old(self).items.list@.len() + 1
                    &&& forall|i: int|
                        0 <= i < old(self).items.list@.len()
                            ==> #[trigger] final(self).items.list@[i] == old(self).items.list@[i]
                    &&& final(self).items.list@.last().title@ == "title"@
                    &&& final(self).items.list@.last().usage_count == 1
                },
            }),
            old(self).items.wf() ==> final(self).items.wf(),
    {
        let action = self.context.processs_input(key);
        match action {
            Some(a) => a.perform(self),
            None => false,
        }
    }

    /// One periodic update step: rotate the notification queue by moving its
    /// front event to the back.
    pub fn on_tick(&mut self)
        requires
            old(self).events@.len() >= 1,
        ensures
            final(self).items == old(self).items,
            final(self).context == old(self).context,
            final(self).events@ == old(self).events@.remove(0).push(old(self).events@[0]),
    {
        let event = self.events.remove(0);
        self.events.push(event);
    }
}

impl Default for App {
    fn default() -> (r: App)
        ensures
            r.is_seed(),
    {
        App::new()
    }
}

impl Action {
    /// Apply this action to the application state. Returns whether the
    /// application should terminate.
    ///
    /// A change to the context already active, and an insertion while the
    /// list context is not active, are contract violations: the dispatcher
    /// never produces them, and they are ruled out here rather than handled.
    pub fn perform(&self, app: &mut App) -> (quit: bool)
        requires
            self matches Action::ChangeContext(target) ==> target != old(app).context,
            self matches Action::ListSignal(Operation::New(..)) ==> old(app).context is List,
        ensures
            quit == (self is Quit),
            final(app).events == old(app).events,
            self is Quit ==> *final(app) == *old(app),
            self matches Action::ChangeContext(target) ==> {
                &&& final(app).context == target
                &&& final(app).items.list == old(app).items.list
                &&& old(app).context is List ==> final(app).items.cursor is None
                    && final(app).items.exit_point == (if old(app).items.cursor is Some {
                    old(app).items.cursor
                } else {
                    old(app).items.exit_point
                })
                &&& old(app).context is Default ==> final(app).items.exit_point == old(
                    app,
                ).items.exit_point && opt_index(final(app).items.cursor) == reselect_cursor(
                    opt_index(old(app).items.exit_point),
                    old(app).items.list@.len() as int,
                )
            },
            self matches Action::ListSignal(Operation::Go(loc)) ==> {
                &&& final(app).context == old(app).context
                &&& final(app).items.list == old(app).items.list
                &&& final(app).items.exit_point == old(app).items.exit_point
                &&& opt_index(final(app).items.cursor) == go_cursor(
                    old(app).context,
                    *loc,
                    opt_index(old(app).items.cursor),
                    opt_index(old(app).items.exit_point),
                    old(app).items.list@.len() as int,
                )
            },
            self matches Action::ListSignal(Operation::New(title, desc)) ==> {
                &&& final(app).context == old(app).context
                &&& final(app).items.cursor == old(app).items.cursor
                &&& final(app).items.exit_point == old(app).items.exit_point
                &&& final(app).items.list@.len() == old(app).items.list@.len() + 1
                &&& forall|i: int|
                    0 <= i < old(app).items.list@.len() ==> #[trigger] final(app).items.list@[i]
                        == old(app).items.list@[i]
                &&& final(app).items.list@.last().title@ == title@
                &&& final(app).items.list@.last().usage_count == 1
            },
            old(app).items.wf() ==> final(app).items.wf(),
    {
        match self {
            Action::Quit => true,
            Action::ChangeContext(target) => {
                match app.context {
                    Context::List => {
                        app.context = *target;
                        app.items.deselect();
                    },
                    Context::Default => {
                        app.context = *target;
                        app.items.reselect();
                    },
                }
                false
            },
            Action::ListSignal(Operation::Go(loc)) => {
                match app.context {
                    Context::List => match loc {
                        Location::Up => app.items.prev(),
                        Location::Down => app.items.next(),
                        Location::ExitPoint => app.items.reselect(),
                    },
                    Context::Default => match loc {
                        Location::Up => app.items.reselect_prev(),
                        Location::Down => app.items.reselect_next(),
                        Location::ExitPoint => app.items.reselect(),
                    },
                }
                false
            },
            Action::ListSignal(Operation::New(title, _desc)) => {
                app.items.push(entry(title.as_str(), 1));
                false
            },
        }
    }
}

fn seed_items() -> (v: Vec<Entry>)
    ensures
        v@.len() == 10,
        v@[0].title@ == "Item0"@ && v@[0].usage_count == 1,
        v@[1].title@ == "Item1"@ && v@[1].usage_count == 2,
        v@[2].title@ == "Item2"@ && v@[2].usage_count == 1,
        v@[3].title@ == "Item3"@ && v@[3].usage_count == 3,
        v@[4].title@ == "Item4"@ && v@[4].usage_count == 1,
        v@[5].title@ == "Item5"@ && v@[5].usage_count == 4,
        v@[6].title@ == "Item6"@ && v@[6].usage_count == 1,
        v@[7].title@ == "Item7"@ && v@[7].usage_count == 3,
        v@[8].title@ == "Item8"@ && v@[8].usage_count == 1,
        v@[9].title@ == "Item9"@ && v@[9].usage_count == 6,
{
    let mut v: Vec<Entry> = Vec::new();
    v.push(entry("Item0", 1));
    v.push(entry("Item1", 2));
    v.push(entry("Item2", 1));
    v.push(entry("Item3", 3));
    v.push(entry("Item4", 1));
    v.push(entry("Item5", 4));
    v.push(entry("Item6", 1));
    v.push(entry("Item7", 3));
    v.push(entry("Item8", 1));
    v.push(entry("Item9", 6));
    v
}

fn seed_events() -> (v: Vec<(String, String)>)
    ensures
        v@.len() == 4,
        v@[0].0@ == "Event1"@ && v@[0].1@ == "INFO"@,
        v@[1].0@ == "Event2"@ && v@[1].1@ == "INFO"@,
        v@[2].0@ == "Event3"@ && v@[2].1@ == "CRITICAL"@,
        v@[3].0@ == "Event4"@ && v@[3].1@ == "ERROR"@,
{
    let mut v: Vec<(String, String)> = Vec::new();
    v.push(("Event1".to_owned(), "INFO".to_owned()));
    v.push(("Event2".to_owned(), "INFO".to_owned()));
    v.push(("Event3".to_owned(), "CRITICAL".to_owned()));
    v.push(("Event4".to_owned(), "ERROR".to_owned()));
    v
}

} // verus!
