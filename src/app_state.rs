//! The application's state: its screen navigator.

use vstd::prelude::*;

use crate::nav::Navigator;

verus! {

/// The application's state, holding the navigator of its screens.
pub struct AppState<V> {
    pub navigator: Navigator<V>,
}

impl<V> AppState<V> {
    /// A state whose navigator holds no screen.
    pub fn new() -> (r: Self)
        ensures
            r.navigator.screens().len() == 0,
            r.navigator.ids().len() == 0,
            r.navigator.wf(),
    {
        AppState { navigator: Navigator::new() }
    }
}

impl<V> Default for AppState<V> {
    fn default() -> (r: Self)
        ensures
            r.navigator.screens().len() == 0,
            r.navigator.ids().len() == 0,
            r.navigator.wf(),
    {
        AppState::new()
    }
}

} // verus!
