//! The selectable entries and the menu that owns them: builders, the
//! verified key-handling methods, and the hand-over of the confirmed action.

use vstd::prelude::*;

use crate::nav::confirmed_of;
use crate::nav::highlight_of;
use crate::nav::spec_navigate;
use crate::nav::spec_step;
use crate::nav::state_wf;
use crate::nav::KeyEvent;
use crate::nav::NavState;

verus! {

/// One selectable entry: a label, an optional hint shown beside it, and a
/// deferred zero-argument action of type `A`, invoked at most once and only
/// after the session ended in confirmation.
pub struct MenuOption<A> {
    pub label: String,
    pub hint: Option<String>,
    pub action: A,
}

/// One interactive session: an optional title, the ordered options (order
/// fixes both display order and wrap-around adjacency), and the session
/// state, which starts at `Active(0)`.
pub struct Menu<A> {
    pub title: Option<String>,
    pub options: Vec<MenuOption<A>>,
    pub state: NavState,
}

impl<A> MenuOption<A> {
    /// Builds an entry with the given label and deferred action and no hint.
    /// The label is not validated: an empty label is legal and renders blank.
    pub fn new(label: &str, func: A) -> (r: MenuOption<A>)
        ensures
            r.label@ == label@,
            r.hint is None,
            r.action == func,
    {
        MenuOption { label: label.to_owned(), hint: None, action: func }
    }

    /// Attaches a hint to the entry; a pure, chainable transformation.
    pub fn hint(self, text: &str) -> (r: MenuOption<A>)
        ensures
            r.label == self.label,
            r.action == self.action,
            r.hint is Some && r.hint->0@ == text@,
    {
        MenuOption { label: self.label, hint: Some(text.to_owned()), action: self.action }
    }
}

impl<A> Menu<A> {
    /// The menu's invariant: the session state is well formed over the
    /// number of options. Construction establishes it and every key-handling
    /// method preserves it.
    pub open spec fn wf(&self) -> bool {
        state_wf(self.state, self.options@.len())
    }

    /// Builds a menu over the given options, in the given order, with no
    /// title and the cursor on the first option. An empty list is accepted:
    /// such a menu renders no rows and can only be cancelled, never
    /// confirmed.
    pub fn new(options: Vec<MenuOption<A>>) -> (r: Menu<A>)
        ensures
            r.options == options,
            r.title is None,
            r.state == NavState::Active(0),
            r.wf(),
    {
        Menu { title: None, options, state: NavState::Active(0) }
    }

    /// Attaches a title; a pure, chainable transformation.
    pub fn title(self, text: &str) -> (r: Menu<A>)
        ensures
            r.title is Some && r.title->0@ == text@,
            r.options == self.options,
            r.state == self.state,
    {
        Menu { title: Some(text.to_owned()), options: self.options, state: self.state }
    }

    /// Feeds one key event to the session; the new state is exactly the
    /// transition function applied to the old one.
    pub fn handle_key(&mut self, key: KeyEvent)
        requires
            old(self).wf(),
        ensures
            final(self).state == spec_step(old(self).state, key, old(self).options@.len()),
            final(self).options == old(self).options,
            final(self).title == old(self).title,
            final(self).wf(),
    {
        let n = self.options.len();
        match self.state {
            NavState::Active(i) => match key {
                KeyEvent::Up => {
                    if n == 0 {
                    } else if i == 0 {
                        self.state = NavState::Active(n - 1);
                    } else {
                        self.state = NavState::Active(i - 1);
                    }
                },
                KeyEvent::Down => {
                    if n == 0 {
                    } else if i + 1 == n {
                        self.state = NavState::Active(0);
                    } else {
                        self.state = NavState::Active(i + 1);
                    }
                },
                KeyEvent::Enter => {
                    if n != 0 {
                        self.state = NavState::Confirmed(i);
                    }
                },
                KeyEvent::Escape => {
                    self.state = NavState::Cancelled;
                },
                KeyEvent::Other => {},
            },
            NavState::Confirmed(_) => {},
            NavState::Cancelled => {},
        }
    }

    /// Ends the session as if cancelled. This is the policy for a key-read
    /// failure of the terminal: the loop terminates safely and no action is
    /// invoked.
    pub fn handle_read_failure(&mut self)
        ensures
            final(self).state == NavState::Cancelled,
            final(self).options == old(self).options,
            final(self).title == old(self).title,
            final(self).wf(),
    {
        self.state = NavState::Cancelled;
    }

    /// Feeds the key events in order, stopping early once the session
    /// reaches a terminal state, exactly as the interactive loop would.
    pub fn navigate(&mut self, keys: &Vec<KeyEvent>)
        requires
            old(self).wf(),
        ensures
            final(self).state == spec_navigate(old(self).state, keys@, old(self).options@.len()),
            final(self).options == old(self).options,
            final(self).title == old(self).title,
            final(self).wf(),
    {
        let ghost n = self.options@.len();
        let ghost goal = spec_navigate(self.state, keys@, n);
        let mut idx: usize = 0;
        proof {
            assert(keys@.skip(0) =~= keys@);
        }
        while idx < keys.len() && self.is_active()
            invariant
                idx <= keys@.len(),
                self.wf(),
                self.options == old(self).options,
                self.title == old(self).title,
                n == self.options@.len(),
                goal == spec_navigate(self.state, keys@.skip(idx as int), n),
            decreases keys@.len() - idx,
        {
            let key = keys[idx];
            proof {
                let rest = keys@.skip(idx as int);
                assert(rest[0] == keys@[idx as int]);
                assert(rest.drop_first() =~= keys@.skip(idx as int + 1));
            }
            self.handle_key(key);
            idx = idx + 1;
        }
        proof {
            if idx == keys@.len() {
                assert(keys@.skip(idx as int).len() == 0);
            } else {
                assert(!(self.state is Active));
                assert(spec_navigate(self.state, keys@.skip(idx as int), n) == self.state);
            }
        }
    }

    /// Whether the session is still taking input.
    pub fn is_active(&self) -> (b: bool)
        ensures
            b == (self.state is Active),
    {
        matches!(self.state, NavState::Active(_))
    }

    /// The row a renderer should highlight now: the active cursor, the
    /// confirmed index after confirmation, and no row after cancellation.
    pub fn highlight(&self) -> (r: Option<usize>)
        ensures
            r == highlight_of(self.state),
    {
        match self.state {
            NavState::Active(i) => Some(i),
            NavState::Confirmed(i) => Some(i),
            NavState::Cancelled => None,
        }
    }

    /// Hands out the confirmed option's action, consuming the menu: the
    /// result is the action owned by exactly the confirmed option, and it is
    /// `None` if and only if the session did not end in confirmation. Taking
    /// the action by value makes a second invocation impossible by
    /// construction.
    pub fn into_selected_action(self) -> (r: Option<A>)
        requires
            self.wf(),
        ensures
            r is Some <==> self.state is Confirmed,
            confirmed_of(self.state) is Some ==> r == Some(
                self.options@[confirmed_of(self.state)->0 as int].action,
            ),
    {
        match self.state {
            NavState::Confirmed(i) => {
                let mut options = self.options;
                let chosen = options.remove(i);
                Some(chosen.action)
            },
            _ => None,
        }
    }
}

} // verus!
