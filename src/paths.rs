//! Joining a route's path onto its base path, as route patterns are built.

use vstd::prelude::*;
use vstd::string::*;

verus! {

/// `s` without its trailing slashes.
pub open spec fn trimmed(s: Seq<char>) -> Seq<char>
    decreases s.len(),
{
    if s.len() > 0 && s.last() == '/' {
        trimmed(s.drop_last())
    } else {
        s
    }
}

/// The base path without trailing slashes, followed by `/` and the route's
/// own path when it has one.
pub open spec fn joined(base: Seq<char>, path: Option<Seq<char>>) -> Seq<char> {
    match path {
        Some(p) => trimmed(base) + seq!['/'] + p,
        None => trimmed(base),
    }
}

/// The pattern a route is registered under: the joined path, with trailing
/// slashes removed unless it is the root path `/` itself.
pub open spec fn full_pattern(base: Seq<char>, path: Option<Seq<char>>) -> Seq<char> {
    let j = joined(base, path);
    if j == seq!['/'] {
        j
    } else {
        trimmed(j)
    }
}

/// Trimming trailing slashes a second time changes nothing.
pub proof fn lemma_trimmed_idempotent(s: Seq<char>)
    ensures
        trimmed(trimmed(s)) == trimmed(s),
    decreases s.len(),
{
    if s.len() > 0 && s.last() == '/' {
        lemma_trimmed_idempotent(s.drop_last());
    }
}

/// `s` without its trailing slashes.
pub fn trim_trailing_slashes(s: &str) -> (r: &str)
    ensures
        r@ == trimmed(s@),
{
    let n = s.unicode_len();
    let mut end: usize = n;
    proof {
        assert(s@.subrange(0, n as int) =~= s@);
    }
    while end > 0 && s.get_char(end - 1) == '/'
        invariant
            end <= n,
            n == s@.len(),
            trimmed(s@) == trimmed(s@.subrange(0, end as int)),
        decreases end,
    {
        proof {
            let t = s@.subrange(0, end as int);
            assert(t.drop_last() =~= s@.subrange(0, end - 1));
        }
        end = end - 1;
    }
    proof {
        let t = s@.subrange(0, end as int);
        if end == 0 {
            assert(t =~= Seq::<char>::empty());
        }
    }
    s.substring_char(0, end)
}

/// The base path without trailing slashes, followed by `/` and `path` when
/// there is one.
pub fn join_path(base: &str, path: Option<&str>) -> (r: String)
    ensures
        r@ == joined(base@, match path {
            Some(p) => Some(p@),
            None => None,
        }),
{
    let mut out = String::from_str(trim_trailing_slashes(base));
    match path {
        Some(p) => {
            let slash = "/";
            proof {
                reveal_strlit("/");
            }
            out.append(slash);
            out.append(p);
            proof {
                assert(out@ =~= trimmed(base@) + seq!['/'] + p@);
            }
        },
        None => {},
    }
    out
}

/// The pattern a route with `path` is registered under below `base`.
pub fn pattern_path(base: &str, path: Option<&str>) -> (r: String)
    ensures
        r@ == full_pattern(base@, match path {
            Some(p) => Some(p@),
            None => None,
        }),
{
    let j = join_path(base, path);
    let root = String::from_str("/");
    proof {
        reveal_strlit("/");
        assert(root@ =~= seq!['/']);
    }
    if j == root {
        j
    } else {
        String::from_str(trim_trailing_slashes(j.as_str()))
    }
}

} // verus!
