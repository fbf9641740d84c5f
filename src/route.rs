//! Routes: path patterns with an element or a layout, nested under one
//! another, and what a route tree renders for a path.

use vstd::prelude::*;
use vstd::string::*;

use crate::matcher::{
    accepts, all_accepted, all_fit, build_table, lookup, match_table, params_fit, path_matches,
    strings_view, table_ok, RouteError,
};
use crate::state::{insert_all, param_entries, RouterState};
use crate::paths::{full_pattern, join_path, joined, lemma_trimmed_idempotent, pattern_path, trimmed};

verus! {

broadcast use vstd::std_specs::vec::axiom_vec_index_decreases;

/// A route: a path pattern, and either an element to render when it matches
/// or a layout whose outlet receives what the matching child renders.
///
/// `E` is the element factory; it is handed back, never called, so it is
/// only evaluated by whoever renders the matched route. `L` is the layout.
pub struct Route<E, L> {
    pub basename: String,
    pub path: Option<String>,
    pub element: Option<E>,
    pub routes: Vec<Route<E, L>>,
    pub layout: Option<L>,
}

/// What a route tree renders for a path: nothing, the element factory of
/// the matched route, or a layout with what goes into its outlet.
pub enum Rendered<E, L> {
    Empty,
    Element(E),
    Layout(L, Option<Box<Rendered<E, L>>>),
}

/// The characters of an optional string.
pub open spec fn opt_view(o: Option<String>) -> Option<Seq<char>> {
    match o {
        Some(s) => Some(s@),
        None => None,
    }
}

/// The patterns a route registers below `base`: its own when it has an
/// element, else those of its children below its own path.
pub open spec fn route_patterns<E, L>(r: Route<E, L>, base: Seq<char>) -> Seq<Seq<char>>
    decreases r, 0nat,
{
    let p = full_pattern(base, opt_view(r.path));
    if r.element.is_some() {
        seq![p]
    } else {
        list_patterns(r.routes, p, r.routes.len() as nat)
    }
}

/// The patterns of the first `n` routes of `rs`, in order, below `base`.
pub open spec fn list_patterns<E, L>(rs: Vec<Route<E, L>>, base: Seq<char>, n: nat) -> Seq<
    Seq<char>,
>
    decreases rs, n,
{
    if n == 0 || n > rs.len() {
        Seq::empty()
    } else {
        list_patterns(rs, base, (n - 1) as nat) + route_patterns(rs[n - 1], base)
    }
}

/// The index of the first route of `rs`, from `i` on, whose patterns below
/// `base` match `path`.
pub open spec fn first_match<E, L>(
    rs: Seq<Route<E, L>>,
    base: Seq<char>,
    path: Seq<char>,
    i: int,
) -> Option<int>
    decreases rs.len() - i,
{
    if i < 0 || i >= rs.len() {
        None
    } else if path_matches(route_patterns(rs[i], base), path) {
        Some(i)
    } else {
        first_match(rs, base, path, i + 1)
    }
}

/// Whether the search for a match among `rs`, from `i` on, builds only
/// tables that are accepted: each route it looks at has a table, and it
/// stops at the first route that matches `path`.
pub open spec fn search_ok<E, L>(
    rs: Seq<Route<E, L>>,
    base: Seq<char>,
    path: Seq<char>,
    i: int,
) -> bool
    decreases rs.len() - i,
{
    if i < 0 || i >= rs.len() {
        true
    } else {
        table_ok(route_patterns(rs[i], base)) && (path_matches(route_patterns(rs[i], base), path)
            || search_ok(rs, base, path, i + 1))
    }
}

/// Whether rendering `r` for `path` below `base` builds only tables that
/// are accepted: those of the children a layout searches, and those built
/// when the matching child renders in turn.
pub open spec fn render_ok<E, L>(r: Route<E, L>, base: Seq<char>, path: Seq<char>) -> bool
    decreases r,
{
    match r.element {
        Some(_) => true,
        None => match r.layout {
            Some(_) => {
                let b = joined(base, opt_view(r.path));
                search_ok(r.routes@, b, path, 0) && match first_match(r.routes@, b, path, 0) {
                    Some(i) => if 0 <= i < r.routes.len() {
                        render_ok(r.routes[i], b, path)
                    } else {
                        true
                    },
                    None => true,
                }
            },
            None => true,
        },
    }
}

/// What route `r` renders for `path` when placed below `base`.
pub open spec fn render_under<E, L>(r: Route<E, L>, base: Seq<char>, path: Seq<char>) -> Rendered<
    E,
    L,
>
    decreases r,
{
    match r.element {
        Some(e) => Rendered::Element(e),
        None => match r.layout {
            Some(l) => {
                let b = joined(base, opt_view(r.path));
                match first_match(r.routes@, b, path, 0) {
                    Some(i) => if 0 <= i < r.routes.len() {
                        Rendered::Layout(l, Some(Box::new(render_under(r.routes[i], b, path))))
                    } else {
                        Rendered::Layout(l, None)
                    },
                    None => Rendered::Layout(l, None),
                }
            },
            None => Rendered::Empty,
        },
    }
}

fn opt_str(o: &Option<String>) -> (r: Option<&str>)
    ensures
        r matches Some(s) ==> o matches Some(t) && s@ == t@,
        r is None ==> o is None,
{
    match o {
        Some(s) => Some(s.as_str()),
        None => None,
    }
}

impl<E, L> Route<E, L> {
    /// A route with no path, element, layout or children.
    pub fn new() -> (r: Self)
        ensures
            r.basename@ == Seq::<char>::empty(),
            r.path is None,
            r.element is None,
            r.routes@.len() == 0,
            r.layout is None,
    {
        Route {
            basename: String::new(),
            path: None,
            element: None,
            routes: Vec::new(),
            layout: None,
        }
    }

    /// Sets the base path the route's own path is joined onto.
    pub(crate) fn basename(self, basename: &str) -> (r: Self)
        ensures
            r.basename@ == basename@,
            r.path == self.path,
            r.element == self.element,
            r.routes == self.routes,
            r.layout == self.layout,
    {
        Route { basename: String::from_str(basename), ..self }
    }

    /// Sets the path to match against the current location.
    pub fn path(self, path: &str) -> (r: Self)
        ensures
            r.path matches Some(p) && p@ == path@,
            r.basename == self.basename,
            r.element == self.element,
            r.routes == self.routes,
            r.layout == self.layout,
    {
        Route { path: Some(String::from_str(path)), ..self }
    }

    /// Sets the element factory rendered when the route matches. A route
    /// cannot have both an element and a layout.
    pub fn element(self, element: E) -> (r: Self)
        requires
            self.layout is None,
        ensures
            r.element == Some(element),
            !(r.element is Some && r.layout is Some),
            r.basename == self.basename,
            r.path == self.path,
            r.routes == self.routes,
            r.layout == self.layout,
    {
        Route { element: Some(element), ..self }
    }

    /// Sets the layout rendered around the matching child. A route cannot
    /// have both an element and a layout.
    pub fn layout(self, layout: L) -> (r: Self)
        requires
            self.element is None,
        ensures
            r.layout == Some(layout),
            !(r.element is Some && r.layout is Some),
            r.basename == self.basename,
            r.path == self.path,
            r.element == self.element,
            r.routes == self.routes,
    {
        Route { layout: Some(layout), ..self }
    }

    /// Makes the route an index route: its path is empty. An index route
    /// cannot have a path of its own.
    pub fn index(self) -> (r: Self)
        requires
            self.path is None,
        ensures
            r.path matches Some(p) && p@ == Seq::<char>::empty(),
            r.basename == self.basename,
            r.element == self.element,
            r.routes == self.routes,
            r.layout == self.layout,
    {
        let empty = "";
        proof {
            reveal_strlit("");
        }
        self.path(empty)
    }

    /// Adds a child route.
    pub fn child(self, child: Route<E, L>) -> (r: Self)
        ensures
            r.routes@ == self.routes@.push(child),
            r.basename == self.basename,
            r.path == self.path,
            r.element == self.element,
            r.layout == self.layout,
    {
        let mut s = self;
        s.routes.push(child);
        s
    }

    /// Adds child routes, in order.
    pub fn children(self, children: Vec<Route<E, L>>) -> (r: Self)
        ensures
            r.routes@ == self.routes@ + children@,
            r.basename == self.basename,
            r.path == self.path,
            r.element == self.element,
            r.layout == self.layout,
    {
        let mut s = self;
        let mut rest = children;
        s.routes.append(&mut rest);
        s
    }

    /// Appends the patterns this route registers below `base` to `out`.
    fn collect_patterns(&self, base: &str, out: &mut Vec<String>)
        ensures
            strings_view(final(out)@) == strings_view(old(out)@) + route_patterns(*self, base@),
        decreases self,
    {
        let p = pattern_path(base, opt_str(&self.path));
        if self.element.is_some() {
            out.push(p);
            proof {
                assert(strings_view(final(out)@) =~= strings_view(old(out)@) + seq![p@]);
            }
            return ;
        }
        let n = self.routes.len();
        let mut i: usize = 0;
        while i < n
            invariant
                i <= n,
                n == self.routes@.len(),
                strings_view(out@) == strings_view(old(out)@) + list_patterns(
                    self.routes,
                    p@,
                    i as nat,
                ),
            decreases n - i,
        {
            let ghost before = out@;
            self.routes[i].collect_patterns(p.as_str(), out);
            proof {
                assert(strings_view(out@) =~= strings_view(old(out)@) + list_patterns(
                    self.routes,
                    p@,
                    (i + 1) as nat,
                ));
            }
            i = i + 1;
        }
    }

    /// The patterns this route registers below `base`, in a table.
    pub fn build_route_map(&self, base: &str) -> (r: Result<matchit::Router<()>, RouteError>)
        ensures
            r matches Err(RouteError::TooManyParameters) <==> !all_fit(
                route_patterns(*self, base@),
            ),
            r matches Err(RouteError::Rejected) <==> all_fit(route_patterns(*self, base@))
                && !all_accepted(route_patterns(*self, base@)),
            r matches Ok(t) ==> crate::matcher::table_patterns(t) == route_patterns(
                *self,
                base@,
            ),
            r is Ok <==> table_ok(route_patterns(*self, base@)),
    {
        let mut patterns: Vec<String> = Vec::new();
        self.collect_patterns(base, &mut patterns);
        build_table(&patterns)
    }

    /// Whether one of the patterns this route registers below `base`
    /// matches `path`.
    pub fn in_pattern(&self, base: &str, path: &str) -> (r: Result<bool, RouteError>)
        ensures
            r matches Err(RouteError::TooManyParameters) <==> !all_fit(
                route_patterns(*self, base@),
            ),
            r matches Err(RouteError::Rejected) <==> all_fit(route_patterns(*self, base@))
                && !all_accepted(route_patterns(*self, base@)),
            r is Ok <==> table_ok(route_patterns(*self, base@)),
            r matches Ok(b) ==> b == path_matches(route_patterns(*self, base@), path@),
    {
        let table = self.build_route_map(base)?;
        Ok(match_table(&table, path).is_ok())
    }


    /// The index of the first route of `routes`, from `start` on, whose
    /// patterns below `base` match `path`; `routes.len()` when none does.
    fn find_match(routes: &Vec<Route<E, L>>, start: usize, base: &str, path: &str) -> (r: Result<
        usize,
        RouteError,
    >)
        requires
            start <= routes@.len(),
            first_match(routes@, base@, path@, 0) == first_match(
                routes@,
                base@,
                path@,
                start as int,
            ),
        ensures
            r matches Ok(i) ==> i <= routes@.len() && (i < routes@.len() ==> first_match(
                routes@,
                base@,
                path@,
                0,
            ) == Some(i as int)) && (i == routes@.len() ==> first_match(routes@, base@, path@, 0)
                is None),
            r matches Err(RouteError::TooManyParameters) ==> exists|i: int|
                start <= i < routes@.len() && !all_fit(route_patterns(#[trigger] routes@[i], base@)),
            search_ok(routes@, base@, path@, start as int) ==> r is Ok,
    {
        let n = routes.len();
        let mut i: usize = start;
        while i < n
            invariant
                start <= i <= n,
                n == routes@.len(),
                first_match(routes@, base@, path@, 0) == first_match(
                    routes@,
                    base@,
                    path@,
                    i as int,
                ),
                search_ok(routes@, base@, path@, start as int) ==> search_ok(
                    routes@,
                    base@,
                    path@,
                    i as int,
                ),
            decreases n - i,
        {
            let hit = routes[i].in_pattern(base, path);
            match hit {
                Ok(true) => {
                    return Ok(i);
                },
                Ok(false) => {},
                Err(e) => {
                    return Err(e);
                },
            }
            i = i + 1;
        }
        Ok(n)
    }

    /// What this route renders for `path` below `base`: its element; or
    /// its layout, with what the first matching child renders in its
    /// outlet; or nothing.
    pub fn render_under(self, base: &str, path: &str) -> (r: Result<Rendered<E, L>, RouteError>)
        ensures
            r matches Ok(x) ==> x == render_under(self, base@, path@),
            r matches Err(RouteError::TooManyParameters) ==> !all_fit(
                route_patterns(self, base@),
            ),
            self.element matches Some(e) ==> r == Ok::<Rendered<E, L>, RouteError>(
                Rendered::Element(e),
            ),
            self.element is None && self.layout is None ==> r == Ok::<Rendered<E, L>, RouteError>(
                Rendered::Empty,
            ),
            render_ok(self, base@, path@) ==> r is Ok,
        decreases self,
    {
        let ghost whole = self;
        let Route { basename: _, path: own_path, element, routes, layout } = self;
        match element {
            Some(e) => {
                return Ok(Rendered::Element(e));
            },
            None => {},
        }
        match layout {
            None => Ok(Rendered::Empty),
            Some(l) => {
                let b = join_path(base, opt_str(&own_path));
                let ghost fp = full_pattern(base@, opt_view(whole.path));
                proof {
                    lemma_joined_trims_like_pattern(base@, opt_view(whole.path));
                }
                let found = Self::find_match(&routes, 0, b.as_str(), path);
                proof {
                    if found matches Err(RouteError::TooManyParameters) {
                        let k = choose|k: int|
                            0 <= k < routes@.len() && !all_fit(
                                route_patterns(#[trigger] routes@[k], b@),
                            );
                        lemma_patterns_follow_trim(routes@[k], b@, fp);
                        let ps = route_patterns(routes[k], fp);
                        let j = choose|j: int| 0 <= j < ps.len() && !params_fit(#[trigger] ps[j]);
                        lemma_list_patterns_contains(routes, fp, routes.len() as nat, k, j);
                    }
                }
                let i = found?;
                if i < routes.len() {
                    let mut routes = routes;
                    let child = routes.remove(i);
                    proof {
                        assert(child == whole.routes[i as int]);
                    }
                    let rendered = child.render_under(b.as_str(), path);
                    proof {
                        if rendered matches Err(RouteError::TooManyParameters) {
                            lemma_patterns_follow_trim(child, b@, fp);
                            let ps = route_patterns(child, fp);
                            let j = choose|j: int| 0 <= j < ps.len() && !params_fit(#[trigger] ps[j]);
                            lemma_list_patterns_contains(whole.routes, fp, whole.routes.len() as nat, i as int, j);
                        }
                    }
                    let inner = rendered?;
                    Ok(Rendered::Layout(l, Some(Box::new(inner))))
                } else {
                    Ok(Rendered::Layout(l, None))
                }
            },
        }
    }

    /// What this route renders for `path` below its own base path.
    pub fn render(self, path: &str) -> (r: Result<Rendered<E, L>, RouteError>)
        ensures
            r matches Ok(x) ==> x == render_under(self, self.basename@, path@),
            r matches Err(RouteError::TooManyParameters) ==> !all_fit(
                route_patterns(self, self.basename@),
            ),
            self.element matches Some(e) ==> r == Ok::<Rendered<E, L>, RouteError>(
                Rendered::Element(e),
            ),
            self.element is None && self.layout is None ==> r == Ok::<Rendered<E, L>, RouteError>(
                Rendered::Empty,
            ),
            render_ok(self, self.basename@, path@) ==> r is Ok,
    {
        let base = self.basename.clone();
        self.render_under(base.as_str(), path)
    }
}

/// What the routes `rs` below `base` render for `path`: nothing unless a
/// pattern of theirs matches it, and then what the first route that
/// matches renders.
pub open spec fn routes_render<E, L>(rs: Vec<Route<E, L>>, base: Seq<char>, path: Seq<char>) -> Rendered<
    E,
    L,
> {
    if path_matches(list_patterns(rs, base, rs.len() as nat), path) {
        match first_match(rs@, base, path, 0) {
            Some(i) => if 0 <= i < rs.len() {
                render_under(rs[i], base, path)
            } else {
                Rendered::Empty
            },
            None => Rendered::Empty,
        }
    } else {
        Rendered::Empty
    }
}

/// The route `first_match` finds lies in range and matches the path.
pub proof fn lemma_first_match_matches<E, L>(
    rs: Seq<Route<E, L>>,
    base: Seq<char>,
    path: Seq<char>,
    i: int,
)
    requires
        0 <= i,
    ensures
        first_match(rs, base, path, i) matches Some(k) ==> i <= k < rs.len() && path_matches(
            route_patterns(rs[k], base),
            path,
        ),
    decreases rs.len() - i,
{
    if i < rs.len() && !path_matches(route_patterns(rs[i], base), path) {
        lemma_first_match_matches(rs, base, path, i + 1);
    }
}

/// Rendering hands back an element factory only from a route whose pattern
/// matches the path: no other route's element is ever produced.
pub proof fn lemma_only_matched_element_rendered<E, L>(
    rs: Vec<Route<E, L>>,
    base: Seq<char>,
    path: Seq<char>,
)
    ensures
        routes_render(rs, base, path) matches Rendered::Element(e) ==> exists|i: int|
            0 <= i < rs.len() && (#[trigger] rs[i]).element == Some(e) && path_matches(
                route_patterns(rs[i], base),
                path,
            ),
{
    lemma_first_match_matches(rs@, base, path, 0);
    if let Rendered::Element(e) = routes_render(rs, base, path) {
        let i = first_match(rs@, base, path, 0)->Some_0;
        assert(rs[i].element == Some(e));
    }
}

/// A route's patterns depend on its base path only through that path with
/// trailing slashes removed.
pub proof fn lemma_patterns_follow_trim<E, L>(r: Route<E, L>, x: Seq<char>, y: Seq<char>)
    requires
        trimmed(x) == trimmed(y),
    ensures
        route_patterns(r, x) == route_patterns(r, y),
{
    assert(joined(x, opt_view(r.path)) == joined(y, opt_view(r.path)));
}

/// The path a layout passes to its children trims to the pattern the
/// layout registers them below.
pub proof fn lemma_joined_trims_like_pattern(base: Seq<char>, path: Option<Seq<char>>)
    ensures
        trimmed(joined(base, path)) == trimmed(full_pattern(base, path)),
{
    let j = joined(base, path);
    if j != seq!['/'] {
        lemma_trimmed_idempotent(j);
    }
}

/// Whether rendering the routes `rs` below `base` for `path` builds only
/// tables that are accepted: the table of all their patterns, and, when it
/// matches, the tables of the search for the first matching route and of
/// that route's own rendering.
pub open spec fn routes_ok<E, L>(rs: Vec<Route<E, L>>, base: Seq<char>, path: Seq<char>) -> bool {
    let all = list_patterns(rs, base, rs.len() as nat);
    table_ok(all) && (path_matches(all, path) ==> search_ok(rs@, base, path, 0) && match first_match(
        rs@,
        base,
        path,
        0,
    ) {
        Some(i) => if 0 <= i < rs.len() {
            render_ok(rs[i], base, path)
        } else {
            true
        },
        None => true,
    })
}

/// Every pattern of route `i` is among those of the first `n` routes.
pub proof fn lemma_list_patterns_contains<E, L>(
    rs: Vec<Route<E, L>>,
    base: Seq<char>,
    n: nat,
    i: int,
    j: int,
)
    requires
        0 <= i < n <= rs.len(),
        0 <= j < route_patterns(rs[i], base).len(),
    ensures
        list_patterns(rs, base, n).contains(route_patterns(rs[i], base)[j]),
    decreases n,
{
    let prev = list_patterns(rs, base, (n - 1) as nat);
    let last = route_patterns(rs[n - 1], base);
    assert(list_patterns(rs, base, n) == prev + last);
    if i == n - 1 {
        assert((prev + last)[prev.len() + j] == last[j]);
    } else {
        lemma_list_patterns_contains(rs, base, (n - 1) as nat, i, j);
        let k = choose|k: int| 0 <= k < prev.len() && prev[k] == route_patterns(rs[i], base)[j];
        assert((prev + last)[k] == prev[k]);
    }
}

/// A set of routes rendered below a common base path: the first route
/// whose patterns match the current location is rendered.
pub struct Routes<E, L> {
    pub basename: String,
    pub routes: Vec<Route<E, L>>,
}

impl<E, L> Routes<E, L> {
    /// No routes, below the root path `/`.
    pub fn new() -> (r: Self)
        ensures
            r.basename@ == seq!['/'],
            r.routes@.len() == 0,
    {
        let root = "/";
        proof {
            reveal_strlit("/");
        }
        let r = Routes { basename: String::from_str(root), routes: Vec::new() };
        proof {
            assert(r.basename@ =~= seq!['/']);
        }
        r
    }

    /// Sets the base path of all the routes.
    pub fn basename(self, basename: &str) -> (r: Self)
        ensures
            r.basename@ == basename@,
            r.routes == self.routes,
    {
        Routes { basename: String::from_str(basename), ..self }
    }

    /// Adds a route.
    pub fn child(self, child: Route<E, L>) -> (r: Self)
        ensures
            r.routes@ == self.routes@.push(child),
            r.basename == self.basename,
    {
        let mut s = self;
        s.routes.push(child);
        s
    }

    /// Adds routes, in order.
    pub fn children(self, children: Vec<Route<E, L>>) -> (r: Self)
        ensures
            r.routes@ == self.routes@ + children@,
            r.basename == self.basename,
    {
        let mut s = self;
        let mut rest = children;
        s.routes.append(&mut rest);
        s
    }

    /// The routes, in order.
    pub fn routes(&self) -> (r: &Vec<Route<E, L>>)
        ensures
            r == &self.routes,
    {
        &self.routes
    }

    /// Renders the routes for the current location of `state`. When a
    /// pattern matches, its parameters are recorded in `state.params`.
    /// Fails with `TooManyParameters` exactly when a pattern has more
    /// parameters than a table accepts.
    pub fn render(self, state: &mut RouterState) -> (r: Result<Rendered<E, L>, RouteError>)
        ensures
            final(state).location == old(state).location,
            final(state).path_match == old(state).path_match,
            r matches Err(RouteError::TooManyParameters) <==> !all_fit(
                list_patterns(self.routes, self.basename@, self.routes.len() as nat),
            ),
            r matches Ok(x) ==> x == routes_render(
                self.routes,
                self.basename@,
                old(state).location.pathname@,
            ),
            routes_ok(self.routes, self.basename@, old(state).location.pathname@) ==> r is Ok,
            r is Ok ==> param_entries(final(state).params) == match lookup(
                list_patterns(self.routes, self.basename@, self.routes.len() as nat),
                old(state).location.pathname@,
            ) {
                Some(ps) => insert_all(param_entries(old(state).params), ps),
                None => param_entries(old(state).params),
            },
    {
        let ghost all = list_patterns(self.routes, self.basename@, self.routes.len() as nat);
        let n = self.routes.len();
        let mut patterns: Vec<String> = Vec::new();
        let mut i: usize = 0;
        while i < n
            invariant
                i <= n,
                n == self.routes@.len(),
                strings_view(patterns@) == list_patterns(self.routes, self.basename@, i as nat),
            decreases n - i,
        {
            self.routes[i].collect_patterns(self.basename.as_str(), &mut patterns);
            i = i + 1;
        }
        proof {
            assert(strings_view(patterns@) =~= all);
            assert forall|k: int| 0 <= k < patterns@.len() implies #[trigger] patterns@[k]@
                == all[k] by {
                assert(strings_view(patterns@)[k] == patterns@[k]@);
            }
            assert(patterns@.map_values(|s: String| s@) == strings_view(patterns@));
        }
        let table = build_table(&patterns)?;
        proof {
            assert forall|k: int| 0 <= k < all.len() implies params_fit(#[trigger] all[k]) by {
                assert(patterns@[k]@ == all[k]);
            }
        }
        let pathname = state.location.pathname.clone();
        match match_table(&table, pathname.as_str()) {
            Ok(pairs) => {
                state.params.insert_pairs(&pairs);
                let found = Route::find_match(&self.routes, 0, self.basename.as_str(), pathname.as_str());
                proof {
                    if found matches Err(RouteError::TooManyParameters) {
                        let k = choose|k: int|
                            0 <= k < self.routes@.len() && !all_fit(
                                route_patterns(#[trigger] self.routes@[k], self.basename@),
                            );
                        let ps = route_patterns(self.routes[k], self.basename@);
                        let j = choose|j: int| 0 <= j < ps.len() && !params_fit(#[trigger] ps[j]);
                        lemma_list_patterns_contains(self.routes, self.basename@, n as nat, k, j);
                    }
                }
                let i = found?;
                if i < n {
                    let mut routes = self.routes;
                    let route = routes.remove(i).basename(self.basename.as_str());
                    let rendered = route.render(pathname.as_str());
                    proof {
                        if rendered matches Err(RouteError::TooManyParameters) {
                            let ps = route_patterns(route, self.basename@);
                            assert(ps == route_patterns(self.routes[i as int], self.basename@));
                            let j = choose|j: int| 0 <= j < ps.len() && !params_fit(#[trigger] ps[j]);
                            lemma_list_patterns_contains(self.routes, self.basename@, n as nat, i as int, j);
                        }
                    }
                    rendered
                } else {
                    Ok(Rendered::Empty)
                }
            },
            Err(_) => Ok(Rendered::Empty),
        }
    }
}

} // verus!
