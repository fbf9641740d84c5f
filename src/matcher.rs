//! The pattern table that paths are matched against, kept in a
//! `matchit::Router`.

use vstd::prelude::*;
use vstd::string::*;

verus! {

/// matchit's router, opaque: its contents are named by `table_patterns`.
#[verifier::external_type_specification]
#[verifier::external_body]
#[verifier::reject_recursive_types(T)]
pub struct ExMatchitRouter<T>(matchit::Router<T>);

/// Why matchit refused a route, opaque.
#[verifier::external_type_specification]
#[verifier::external_body]
pub struct ExInsertError(matchit::InsertError);

/// Why matchit matched no route, opaque.
#[verifier::external_type_specification]
#[verifier::external_body]
pub struct ExMatchError(matchit::MatchError);

/// The patterns a table was filled with, in the order of insertion.
pub uninterp spec fn table_patterns(t: matchit::Router<()>) -> Seq<Seq<char>>;

/// What matching `path` against a table filled with `patterns` gives: the
/// route parameters, names and values, when a pattern matches; nothing when
/// none does.
pub uninterp spec fn lookup(patterns: Seq<Seq<char>>, path: Seq<char>) -> Option<
    Seq<(Seq<char>, Seq<char>)>,
>;

/// Whether a table filled with `patterns` accepts `pattern` as well: it is
/// well formed and conflicts with none of them.
pub uninterp spec fn accepts(patterns: Seq<Seq<char>>, pattern: Seq<char>) -> bool;

/// Whether each pattern is accepted by the table of those before it.
pub open spec fn all_accepted(ps: Seq<Seq<char>>) -> bool {
    forall|i: int| 0 <= i < ps.len() ==> accepts(ps.subrange(0, i), #[trigger] ps[i])
}

/// Whether every pattern has few enough parameters for a table.
pub open spec fn all_fit(ps: Seq<Seq<char>>) -> bool {
    forall|i: int| 0 <= i < ps.len() ==> params_fit(#[trigger] ps[i])
}

/// Whether a table can be built of `ps`, in order.
pub open spec fn table_ok(ps: Seq<Seq<char>>) -> bool {
    all_fit(ps) && all_accepted(ps)
}

/// Whether some pattern of `patterns` matches `path`.
pub open spec fn path_matches(patterns: Seq<Seq<char>>, path: Seq<char>) -> bool {
    lookup(patterns, path).is_some()
}

/// The number of opening braces in `s`; each route parameter takes one.
pub open spec fn brace_count(s: Seq<char>) -> nat
    decreases s.len(),
{
    if s.len() == 0 {
        0
    } else {
        brace_count(s.drop_last()) + if s.last() == '{' {
            1nat
        } else {
            0nat
        }
    }
}

/// The table accepts at most this many parameters in one pattern.
pub const MAX_ROUTE_PARAMS: usize = 25;

/// Whether `s` has few enough braces that its parameters fit in a table.
pub open spec fn params_fit(s: Seq<char>) -> bool {
    brace_count(s) <= MAX_ROUTE_PARAMS
}

/// Names and values of route parameters as plain character sequences.
pub open spec fn pairs_view(v: Seq<(String, String)>) -> Seq<(Seq<char>, Seq<char>)> {
    v.map_values(|p: (String, String)| (p.0@, p.1@))
}

/// Relies on matchit::Router::new: a router with no route in it.
#[verifier::external_body]
pub(crate) fn empty_table() -> (t: matchit::Router<()>)
    ensures
        table_patterns(t) == Seq::<Seq<char>>::empty(),
{
    matchit::Router::new()
}

/// Relies on matchit::Router::insert: on success the route is added to the
/// router. It panics only on a pattern with more than 25 parameters.
#[verifier::external_body]
pub(crate) fn insert_pattern(t: &mut matchit::Router<()>, pattern: &str) -> (r: Result<
    (),
    matchit::InsertError,
>)
    requires
        params_fit(pattern@),
    ensures
        r.is_ok() == accepts(table_patterns(*old(t)), pattern@),
        r.is_ok() ==> table_patterns(*final(t)) == table_patterns(*old(t)).push(pattern@),
{
    t.insert(pattern, ())
}

/// Relies on matchit::Router::at and matchit::Params::iter: the parameters
/// of the route that matches `path`, in the order the router yields them.
#[verifier::external_body]
pub(crate) fn match_table(t: &matchit::Router<()>, path: &str) -> (r: Result<
    Vec<(String, String)>,
    matchit::MatchError,
>)
    ensures
        r.is_ok() == lookup(table_patterns(*t), path@).is_some(),
        r.is_ok() ==> pairs_view(r.unwrap()@) == lookup(table_patterns(*t), path@).unwrap(),
{
    t.at(path).map(|m| m.params.iter().map(|(k, v)| (k.to_string(), v.to_string())).collect())
}

/// Counts the opening braces of `s`.
pub fn count_braces(s: &str) -> (n: usize)
    ensures
        n == brace_count(s@),
{
    let len = s.unicode_len();
    let mut i: usize = 0;
    let mut n: usize = 0;
    while i < len
        invariant
            i <= len,
            len == s@.len(),
            n == brace_count(s@.subrange(0, i as int)),
            n <= i,
        decreases len - i,
    {
        proof {
            assert(s@.subrange(0, i + 1).drop_last() =~= s@.subrange(0, i as int));
        }
        if s.get_char(i) == '{' {
            n = n + 1;
        }
        i = i + 1;
    }
    proof {
        assert(s@.subrange(0, len as int) =~= s@);
    }
    n
}

/// Why a set of patterns could not be put into a table.
#[derive(Clone, Copy, Debug, PartialEq, Eq, Structural)]
pub enum RouteError {
    /// A pattern has more parameters than a table accepts.
    TooManyParameters,
    /// The table refused a pattern: it is malformed or conflicts with an
    /// earlier one.
    Rejected,
}

/// The characters of each string, in order.
pub open spec fn strings_view(v: Seq<String>) -> Seq<Seq<char>> {
    v.map_values(|s: String| s@)
}

/// A table holding `patterns`, in order. Fails with `TooManyParameters`
/// exactly when one of them has too many parameters, else with `Rejected`
/// exactly when the table refuses one of them.
pub fn build_table(patterns: &Vec<String>) -> (r: Result<matchit::Router<()>, RouteError>)
    ensures
        r matches Err(RouteError::TooManyParameters) <==> !all_fit(strings_view(patterns@)),
        r matches Err(RouteError::Rejected) <==> all_fit(strings_view(patterns@)) && !all_accepted(
            strings_view(patterns@),
        ),
        r matches Ok(t) ==> table_patterns(t) == strings_view(patterns@),
{
    let ghost ps = strings_view(patterns@);
    let n = patterns.len();
    let mut i: usize = 0;
    while i < n
        invariant
            i <= n,
            n == patterns@.len(),
            ps == strings_view(patterns@),
            forall|j: int| 0 <= j < i ==> params_fit(#[trigger] ps[j]),
        decreases n - i,
    {
        if count_braces(patterns[i].as_str()) > MAX_ROUTE_PARAMS {
            proof {
                assert(ps[i as int] == patterns@[i as int]@);
            }
            return Err(RouteError::TooManyParameters);
        }
        proof {
            assert(ps[i as int] == patterns@[i as int]@);
        }
        i = i + 1;
    }
    let mut table = empty_table();
    let mut k: usize = 0;
    proof {
        assert(ps.subrange(0, 0) =~= Seq::<Seq<char>>::empty());
    }
    while k < n
        invariant
            k <= n,
            n == patterns@.len(),
            ps == strings_view(patterns@),
            all_fit(ps),
            forall|j: int| 0 <= j < k ==> accepts(ps.subrange(0, j), #[trigger] ps[j]),
            table_patterns(table) == ps.subrange(0, k as int),
        decreases n - k,
    {
        proof {
            assert(ps[k as int] == patterns@[k as int]@);
            assert(params_fit(ps[k as int]));
        }
        match insert_pattern(&mut table, patterns[k].as_str()) {
            Ok(()) => {},
            Err(_) => {
                return Err(RouteError::Rejected);
            },
        }
        proof {
            assert(ps.subrange(0, k + 1) =~= ps.subrange(0, k as int).push(ps[k as int]));
        }
        k = k + 1;
    }
    proof {
        assert(ps.subrange(0, n as int) =~= ps);
    }
    Ok(table)
}

} // verus!
