//! The router's state: the current location and the parameters of the
//! route that matched it.

use vstd::prelude::*;
use vstd::string::*;

verus! {

/// Route parameter names and values, kept in a `hashbrown::HashMap`.
#[verifier::external_body]
pub struct RouteParams {
    map: hashbrown::HashMap<String, String>,
}

/// The names and values a parameter map holds.
pub uninterp spec fn param_entries(p: RouteParams) -> Map<Seq<char>, Seq<char>>;

/// The map with no parameter.
pub open spec fn no_params() -> Map<Seq<char>, Seq<char>> {
    Map::empty()
}

/// Relies on hashbrown::HashMap::new: a map with no entry.
#[verifier::external_body]
fn empty_params() -> (r: RouteParams)
    ensures
        param_entries(r) == no_params(),
{
    RouteParams { map: hashbrown::HashMap::new() }
}

/// Relies on hashbrown::HashMap::insert: the key is bound to the value,
/// replacing any earlier value; other keys keep theirs.
#[verifier::external_body]
fn insert_param(p: &mut RouteParams, key: String, value: String)
    ensures
        param_entries(*final(p)) == param_entries(*old(p)).insert(key@, value@),
{
    p.map.insert(key, value);
}

/// Relies on hashbrown::HashMap::get: the value bound to the key, if any.
#[verifier::external_body]
fn get_param<'a>(p: &'a RouteParams, key: &str) -> (r: Option<&'a String>)
    ensures
        r is Some == param_entries(*p).contains_key(key@),
        r matches Some(v) ==> v@ == param_entries(*p)[key@],
{
    p.map.get(key)
}

/// Relies on hashbrown::HashMap::len: the number of entries.
#[verifier::external_body]
fn count_params(p: &RouteParams) -> (r: usize)
    ensures
        r == param_entries(*p).dom().len(),
{
    p.map.len()
}

/// `m` with each pair of `ps` inserted in turn.
pub open spec fn insert_all(m: Map<Seq<char>, Seq<char>>, ps: Seq<(Seq<char>, Seq<char>)>) -> Map<
    Seq<char>,
    Seq<char>,
>
    decreases ps.len(),
{
    if ps.len() == 0 {
        m
    } else {
        insert_all(m, ps.drop_last()).insert(ps.last().0, ps.last().1)
    }
}

impl RouteParams {
    /// A map with no parameter.
    pub fn new() -> (r: Self)
        ensures
            param_entries(r) == no_params(),
    {
        empty_params()
    }

    /// Binds `key` to `value`.
    pub fn insert(&mut self, key: String, value: String)
        ensures
            param_entries(*final(self)) == param_entries(*old(self)).insert(key@, value@),
    {
        insert_param(self, key, value)
    }

    /// The value bound to `key`, if any.
    pub fn get(&self, key: &str) -> (r: Option<&String>)
        ensures
            r is Some == param_entries(*self).contains_key(key@),
            r matches Some(v) ==> v@ == param_entries(*self)[key@],
    {
        get_param(self, key)
    }

    /// The number of parameters.
    pub fn len(&self) -> (r: usize)
        ensures
            r == param_entries(*self).dom().len(),
    {
        count_params(self)
    }

    /// Binds each name of `pairs` to its value, in order.
    pub fn insert_pairs(&mut self, pairs: &Vec<(String, String)>)
        ensures
            param_entries(*final(self)) == insert_all(
                param_entries(*old(self)),
                crate::matcher::pairs_view(pairs@),
            ),
    {
        let n = pairs.len();
        let mut i: usize = 0;
        while i < n
            invariant
                i <= n,
                n == pairs@.len(),
                param_entries(*self) == insert_all(
                    param_entries(*old(self)),
                    crate::matcher::pairs_view(pairs@.subrange(0, i as int)),
                ),
            decreases n - i,
        {
            let k = pairs[i].0.clone();
            let v = pairs[i].1.clone();
            proof {
                let pv = crate::matcher::pairs_view(pairs@.subrange(0, i + 1));
                assert(pv.drop_last() =~= crate::matcher::pairs_view(pairs@.subrange(0, i as int)));
                assert(pv.last() == (k@, v@));
            }
            self.insert(k, v);
            i = i + 1;
        }
        proof {
            assert(pairs@.subrange(0, n as int) =~= pairs@);
        }
    }
}

/// A location: the current pathname, beginning with `/`.
pub struct Location {
    pub pathname: String,
    /// Data associated with the location, as names and values.
    pub state: Vec<(String, String)>,
}

impl Location {
    /// The root location `/`.
    pub fn new() -> (r: Self)
        ensures
            r.pathname@ == seq!['/'],
            r.state@.len() == 0,
    {
        let root = "/";
        proof {
            reveal_strlit("/");
        }
        let r = Location { pathname: String::from_str(root), state: Vec::new() };
        proof {
            assert(r.pathname@ =~= seq!['/']);
        }
        r
    }
}

impl Default for Location {
    fn default() -> (r: Self)
        ensures
            r.pathname@ == seq!['/'],
            r.state@.len() == 0,
    {
        Location::new()
    }
}

/// How a pattern matched a pathname.
pub struct PathMatch {
    /// The portion of the pathname that was matched.
    pub pathname: String,
    /// The portion of the pathname matched before child routes.
    pub pathname_base: String,
    /// The pattern that matched.
    pub pattern: String,
    /// The names and values of the pattern's parameters.
    pub params: Vec<(String, String)>,
}

/// The state of the router: the current location, how it matched, and the
/// route parameters gathered while rendering.
pub struct RouterState {
    pub location: Location,
    pub path_match: Option<PathMatch>,
    pub params: RouteParams,
}

impl RouterState {
    /// The initial state: location `/`, nothing matched, no parameter.
    pub fn init() -> (r: Self)
        ensures
            r.location.pathname@ == seq!['/'],
            r.location.state@.len() == 0,
            r.path_match is None,
            param_entries(r.params) == no_params(),
    {
        RouterState { location: Location::new(), path_match: None, params: RouteParams::new() }
    }

    /// Sets the current pathname.
    pub fn with_path(&mut self, pathname: String) -> (r: &mut Self)
        ensures
            r.location.pathname == pathname,
            r.path_match == old(self).path_match,
            r.params == old(self).params,
            *final(self) == *final(r),
    {
        self.location.pathname = pathname;
        self
    }
}

} // verus!
