//! A stack of screens with a parallel history of screen identifiers.

use vstd::prelude::*;

verus! {

/// A screen that can be shown by a [`Navigator`].
///
/// The host application turns a screen into a view handle and hands both
/// the handle and the screen's identifier to the navigator.
pub trait Screen {
    /// A unique identifier for this screen, kept in the navigation history.
    fn id(&self) -> &'static str;

    /// Called when the screen is pushed onto the navigation stack.
    fn on_enter(&mut self) {
    }

    /// Called when the screen is popped from the navigation stack.
    fn on_exit(&mut self) {
    }
}

/// A navigation stack of view handles of type `V`, with the identifier of
/// each screen recorded in `history` at the same position.
pub struct Navigator<V> {
    stack: Vec<V>,
    history: Vec<&'static str>,
}

impl<V> Navigator<V> {
    /// The view handles, bottom of the stack first.
    pub closed spec fn screens(&self) -> Seq<V> {
        self.stack@
    }

    /// The screen identifiers, oldest first.
    pub closed spec fn ids(&self) -> Seq<&'static str> {
        self.history@
    }

    /// Each screen on the stack has its identifier at the same position.
    pub open spec fn wf(&self) -> bool {
        self.screens().len() == self.ids().len()
    }

    /// Creates an empty navigator.
    pub fn new() -> (r: Self)
        ensures
            r.screens() == Seq::<V>::empty(),
            r.ids() == Seq::<&'static str>::empty(),
            r.wf(),
    {
        Navigator { stack: Vec::new(), history: Vec::new() }
    }

    /// Pushes the view of a screen, recording its identifier.
    pub fn push(&mut self, view: V, screen_id: &'static str)
        requires
            old(self).wf(),
        ensures
            final(self).wf(),
            final(self).screens() == old(self).screens().push(view),
            final(self).ids() == old(self).ids().push(screen_id),
    {
        self.stack.push(view);
        self.history.push(screen_id);
    }

    /// Pops the top screen. Returns `false`, leaving the stack unchanged,
    /// when it holds one screen or none: the root screen stays.
    pub fn pop(&mut self) -> (popped: bool)
        requires
            old(self).wf(),
        ensures
            final(self).wf(),
            popped == (old(self).screens().len() > 1),
            popped ==> final(self).screens() == old(self).screens().drop_last(),
            popped ==> final(self).ids() == old(self).ids().drop_last(),
            !popped ==> final(self).screens() == old(self).screens(),
            !popped ==> final(self).ids() == old(self).ids(),
    {
        if self.stack.len() > 1 {
            self.stack.pop();
            self.history.pop();
            true
        } else {
            false
        }
    }

    /// Replaces the top screen. Returns `false`, leaving the stack
    /// unchanged, when the stack is empty.
    pub fn replace(&mut self, view: V, screen_id: &'static str) -> (replaced: bool)
        requires
            old(self).wf(),
        ensures
            final(self).wf(),
            replaced == (old(self).screens().len() > 0),
            replaced ==> final(self).screens() == old(self).screens().drop_last().push(view),
            replaced ==> final(self).ids() == old(self).ids().drop_last().push(screen_id),
            !replaced ==> final(self).screens() == old(self).screens(),
            !replaced ==> final(self).ids() == old(self).ids(),
    {
        if self.stack.is_empty() {
            false
        } else {
            self.stack.pop();
            self.history.pop();
            self.push(view, screen_id);
            true
        }
    }

    /// The view on top of the stack, if any.
    pub fn current(&self) -> (r: Option<&V>)
        ensures
            self.screens().len() == 0 ==> r.is_none(),
            self.screens().len() > 0 ==> r == Some(&self.screens().last()),
    {
        self.stack.as_slice().last()
    }

    /// The identifiers of the screens on the stack, oldest first.
    pub fn history(&self) -> (r: &[&'static str])
        ensures
            r@ == self.ids(),
    {
        self.history.as_slice()
    }

    /// Empties the stack and pushes a new root screen.
    pub fn clear_and_push(&mut self, view: V, screen_id: &'static str)
        ensures
            final(self).wf(),
            final(self).screens() == seq![view],
            final(self).ids() == seq![screen_id],
    {
        self.stack.clear();
        self.history.clear();
        self.push(view, screen_id);
    }

    /// Whether a screen above the root can be popped.
    pub fn can_go_back(&self) -> (r: bool)
        ensures
            r == (self.screens().len() > 1),
    {
        self.stack.len() > 1
    }

    /// The number of screens on the stack.
    pub fn len(&self) -> (r: usize)
        requires
            self.wf(),
        ensures
            r == self.screens().len(),
            r == self.ids().len(),
    {
        self.stack.len()
    }

    /// Whether the stack holds no screen.
    pub fn is_empty(&self) -> (r: bool)
        ensures
            r == (self.screens().len() == 0),
    {
        self.stack.is_empty()
    }
}

impl<V> Default for Navigator<V> {
    fn default() -> (r: Self)
        ensures
            r.screens() == Seq::<V>::empty(),
            r.ids() == Seq::<&'static str>::empty(),
            r.wf(),
    {
        Self::new()
    }
}

} // verus!
