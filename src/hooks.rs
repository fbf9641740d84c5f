//! Reading and changing the router's location, and the small elements that
//! routing is built from: outlets, routers and navigation links.

use vstd::prelude::*;
use vstd::string::*;

use crate::route::Route;
use crate::state::{Location, RouteParams, RouterState};

verus! {

/// A fresh router state, at location `/`.
pub fn init() -> (r: RouterState)
    ensures
        r.location.pathname@ == seq!['/'],
        r.path_match is None,
        crate::state::param_entries(r.params) == crate::state::no_params(),
{
    RouterState::init()
}

/// Navigates to `path`: it becomes the current pathname.
pub fn use_navigate(state: &mut RouterState, path: String)
    ensures
        final(state).location.pathname == path,
        final(state).path_match == old(state).path_match,
        final(state).params == old(state).params,
{
    state.with_path(path);
}

/// The current location.
pub fn use_location(state: &RouterState) -> (r: &Location)
    ensures
        r == &state.location,
{
    &state.location
}

/// The route parameters recorded when the routes were last rendered.
pub fn use_params(state: &RouterState) -> (r: &RouteParams)
    ensures
        r == &state.params,
{
    &state.params
}

/// A route with no path, element, layout or children.
pub fn route<E, L>() -> (r: Route<E, L>)
    ensures
        r.basename@ == Seq::<char>::empty(),
        r.path is None,
        r.element is None,
        r.routes@.len() == 0,
        r.layout is None,
{
    Route::new()
}

/// A layout wraps what a matched child route renders.
pub trait Layout<X> {
    /// Hands the layout what goes into its outlet.
    fn outlet(&mut self, element: X);
}

/// The place in a layout where a matched child route's output goes; empty
/// when nothing is routed to it.
pub struct Outlet<X> {
    pub element: Option<X>,
}

impl<X> Outlet<X> {
    /// An empty outlet.
    pub fn new() -> (r: Self)
        ensures
            r.element is None,
    {
        Outlet { element: None }
    }

    /// An outlet holding `element`.
    pub fn holding(element: X) -> (r: Self)
        ensures
            r.element == Some(element),
    {
        Outlet { element: Some(element) }
    }
}

/// An empty outlet.
pub fn outlet<X>() -> (r: Outlet<X>)
    ensures
        r.element is None,
{
    Outlet::new()
}

/// A container for the elements of a routed application.
pub struct RouterRoot<C> {
    children: Vec<C>,
}

impl<C> RouterRoot<C> {
    /// A router with no child.
    pub fn new() -> (r: Self)
        ensures
            r.children()@.len() == 0,
    {
        RouterRoot { children: Vec::new() }
    }

    pub closed spec fn children(&self) -> Vec<C> {
        self.children
    }

    /// Appends `elements` to the children, in order.
    pub fn extend(&mut self, elements: Vec<C>)
        ensures
            final(self).children()@ == old(self).children()@ + elements@,
    {
        let mut rest = elements;
        self.children.append(&mut rest);
    }

    /// The children, in order.
    pub fn elements(&self) -> (r: &Vec<C>)
        ensures
            r == &self.children(),
    {
        &self.children
    }
}

/// A router with no child.
pub fn router<C>() -> (r: RouterRoot<C>)
    ensures
        r.children()@.len() == 0,
{
    RouterRoot::new()
}

/// A link that navigates to its destination when clicked.
pub struct NavLink {
    to: String,
}

impl NavLink {
    /// A link to the empty path.
    pub fn new() -> (r: Self)
        ensures
            r.destination() == Seq::<char>::empty(),
    {
        NavLink { to: String::new() }
    }

    pub closed spec fn destination(&self) -> Seq<char> {
        self.to@
    }

    /// Sets the destination.
    pub fn to(self, to: &str) -> (r: Self)
        ensures
            r.destination() == to@,
    {
        NavLink { to: String::from_str(to) }
    }

    /// What a click does: the destination becomes the current pathname.
    pub fn click(&self, state: &mut RouterState)
        ensures
            final(state).location.pathname@ == self.destination(),
            final(state).path_match == old(state).path_match,
            final(state).params == old(state).params,
    {
        use_navigate(state, self.to.clone());
    }
}

} // verus!
