//! The block menu, filtered by a search text without regard to case.

use vstd::prelude::*;
use vstd::string::*;

verus! {

/// What `str::to_lowercase` makes of a text.
pub uninterp spec fn lower_of(s: Seq<char>) -> Seq<char>;

/// Whether `needle` occurs in `hay` as a run of consecutive characters.
pub open spec fn is_infix(needle: Seq<char>, hay: Seq<char>) -> bool {
    exists|i: int|
        0 <= i && i + needle.len() <= hay.len() && #[trigger] hay.subrange(i, i + needle.len())
            == needle
}

/// Relies on str::to_lowercase: the lowercase form depends on the text
/// alone, and the empty text stays empty.
#[verifier::external_body]
fn lowercase(s: &str) -> (r: String)
    ensures
        r@ == lower_of(s@),
        s@.len() == 0 ==> r@.len() == 0,
{
    s.to_lowercase()
}

/// Relies on str::contains: whether `needle` matches a sub-slice of `hay`.
#[verifier::external_body]
fn contains_text(hay: &str, needle: &str) -> (r: bool)
    ensures
        r == is_infix(needle@, hay@),
{
    hay.contains(needle)
}

/// Whether a search, already in lowercase, finds an element name, already
/// in lowercase.
pub fn matches_folded(search_lower: &str, element_lower: &str) -> (r: bool)
    ensures
        r == is_infix(search_lower@, element_lower@),
{
    contains_text(element_lower, search_lower)
}

/// Whether an element named `element` is shown for the search `search`.
pub open spec fn shown(search: Option<Seq<char>>, element: Seq<char>) -> bool {
    match search {
        Some(q) => is_infix(lower_of(q), lower_of(element)),
        None => true,
    }
}

/// Events of the menu.
pub enum MenuEvent {
    Focus,
}

/// A menu of block kinds with an optional search text.
pub struct Menu {
    pub search: Option<String>,
    pub elements: Vec<String>,
}

impl Menu {
    /// The menu of the text and code block kinds, with no search.
    pub fn new() -> (r: Self)
        ensures
            r.search is None,
            r.elements@.len() == 2,
            r.elements@[0]@ == "Text"@,
            r.elements@[1]@ == "Codeblock"@,
    {
        let mut elements: Vec<String> = Vec::new();
        elements.push(String::from_str("Text"));
        elements.push(String::from_str("Codeblock"));
        Menu { search: None, elements }
    }

    /// The elements shown for the current search, in order: all of them
    /// without a search, else those whose lowercase name contains the
    /// lowercase search.
    pub fn filter_elements(&self) -> (r: Vec<&String>)
        ensures
            r@.map_values(|e: &String| *e) == self.elements@.filter(
                |e: String| shown(opt_view(self.search), e@),
            ),
    {
        let folded = match &self.search {
            Some(q) => Some(lowercase(q.as_str())),
            None => None,
        };
        let mut out: Vec<&String> = Vec::new();
        let n = self.elements.len();
        let mut i: usize = 0;
        while i < n
            invariant
                i <= n,
                n == self.elements@.len(),
                folded matches Some(f) ==> self.search matches Some(q) && f@ == lower_of(q@),
                folded is None ==> self.search is None,
                out@.map_values(|e: &String| *e) == self.elements@.subrange(0, i as int).filter(
                    |e: String| shown(opt_view(self.search), e@),
                ),
            decreases n - i,
        {
            let e = &self.elements[i];
            let hit = match &folded {
                Some(f) => matches_folded(f.as_str(), lowercase(e.as_str()).as_str()),
                None => true,
            };
            proof {
                assert(hit == shown(opt_view(self.search), e@));
                assert(self.elements@.subrange(0, i + 1).drop_last() =~= self.elements@.subrange(
                    0,
                    i as int,
                ));
                reveal(Seq::filter);
            }
            let ghost prev = out@;
            if hit {
                out.push(e);
                proof {
                    assert(out@.map_values(|e: &String| *e) =~= prev.map_values(|e: &String| *e).push(
                        *e,
                    ));
                }
            }
            i = i + 1;
        }
        proof {
            assert(self.elements@.subrange(0, n as int) =~= self.elements@);
        }
        out
    }
}

/// The characters of an optional string.
pub open spec fn opt_view(o: Option<String>) -> Option<Seq<char>> {
    match o {
        Some(s) => Some(s@),
        None => None,
    }
}

} // verus!
