//! The search for the working root, one decision at a time.
//!
//! The caller owns the file system. The search names a directory, the caller
//! reports whether the marker directory is in it, and the search answers with
//! the next directory to look at or with the root it settled on.

use vstd::prelude::*;
use crate::paths::{ancestor, fallback, fallback_root, parent_dir, parent_of, SEARCH_LEVELS};

verus! {

/// A search in progress: it is looking at `dir`, which lies `level` steps
/// above `start`.
pub struct RootSearch {
    start: String,
    dir: String,
    level: usize,
}

/// The mathematical content of a [`RootSearch`].
pub struct SearchView {
    pub start: Seq<char>,
    pub dir: Seq<char>,
    pub level: nat,
}

/// What a search asks for or concludes.
pub enum SearchStep {
    /// The caller is to report whether the marker directory exists in the
    /// directory that the search is looking at.
    Probe(RootSearch),
    /// The search is over; this is the root.
    Resolved(String),
}

/// The mathematical content of a [`SearchStep`].
pub enum StepView {
    Probe(SearchView),
    Resolved(Seq<char>),
}

impl View for RootSearch {
    type V = SearchView;

    closed spec fn view(&self) -> SearchView {
        SearchView { start: self.start@, dir: self.dir@, level: self.level as nat }
    }
}

impl View for SearchStep {
    type V = StepView;

    open spec fn view(&self) -> StepView {
        match *self {
            SearchStep::Probe(search) => StepView::Probe(search@),
            SearchStep::Resolved(root) => StepView::Resolved(root@),
        }
    }
}

/// The text of an optional string.
pub open spec fn text_of(value: Option<String>) -> Option<Seq<char>> {
    match value {
        Some(text) => Some(text@),
        None => None,
    }
}

/// A search is consistent when it is within the bound and the directory it
/// looks at is the ancestor of the start directory at its level.
pub open spec fn consistent(search: SearchView) -> bool {
    &&& search.level < SEARCH_LEVELS
    &&& ancestor(search.start, search.level) == Some(search.dir)
}

/// How a search opens: an override is the root as it stands, and no
/// directory is ever probed; without one the start directory is looked at
/// first.
pub open spec fn begin_of(root_override: Option<Seq<char>>, start: Seq<char>) -> StepView {
    match root_override {
        Some(root) => StepView::Resolved(root),
        None => StepView::Probe(SearchView { start, dir: start, level: 0 }),
    }
}

/// How a search goes on once the caller has reported whether the marker is
/// present in the directory looked at: a directory with the marker is the
/// root; otherwise the parent is next, as long as there is one and the bound
/// is not used up; otherwise the fallback is the root.
pub open spec fn advance_of(search: SearchView, present: bool) -> StepView {
    if present {
        StepView::Resolved(search.dir)
    } else if search.level + 1 < SEARCH_LEVELS && parent_of(search.dir) is Some {
        StepView::Probe(
            SearchView {
                start: search.start,
                dir: parent_of(search.dir)->0,
                level: search.level + 1,
            },
        )
    } else {
        StepView::Resolved(fallback_root(search.start))
    }
}

/// Whether the directory `level` steps above `start` exists in the chain of
/// parents and is reported to hold the marker. `marks[k]` is the report for
/// the directory `k` steps up; a level without a report counts as unmarked.
pub open spec fn is_hit(start: Seq<char>, marks: Seq<bool>, level: nat) -> bool {
    &&& ancestor(start, level) is Some
    &&& level < marks.len()
    &&& marks[level as int]
}

/// Whether `root` is what a search from `start` must settle on under the
/// reports `marks`: the lowest marked directory among the start directory
/// and its ancestors within the bound, or the fallback if none of them is
/// marked.
pub open spec fn is_search_result(start: Seq<char>, marks: Seq<bool>, root: Seq<char>) -> bool {
    ||| exists|level: nat|
        {
            &&& level < SEARCH_LEVELS
            &&& #[trigger] is_hit(start, marks, level)
            &&& forall|lower: nat| lower < level ==> !#[trigger] is_hit(start, marks, lower)
            &&& ancestor(start, level) == Some(root)
        }
    ||| {
        &&& forall|level: nat| level < SEARCH_LEVELS ==> !#[trigger] is_hit(start, marks, level)
        &&& root == fallback_root(start)
    }
}

/// Once the chain of parents has ended it does not resume further up.
pub proof fn ancestor_chain_ends(path: Seq<char>, low: nat, high: nat)
    requires
        low <= high,
        ancestor(path, low) is None,
    ensures
        ancestor(path, high) is None,
    decreases high,
{
    if low < high {
        ancestor_chain_ends(path, low, (high - 1) as nat);
    }
}

/// Whether the caller, asked about the directory `level` steps up, reports
/// the marker as present under the reports `marks`.
pub open spec fn reported(marks: Seq<bool>, level: nat) -> bool {
    level < marks.len() && marks[level as int]
}

/// The root that a search settles on when every probe is answered from the
/// reports `marks`.
pub open spec fn settle(search: SearchView, marks: Seq<bool>) -> Seq<char>
    decreases SEARCH_LEVELS - search.level,
{
    match advance_of(search, reported(marks, search.level)) {
        StepView::Resolved(root) => root,
        StepView::Probe(higher) => settle(higher, marks),
    }
}

/// A search that is driven one probe at a time, each probe answered
/// truthfully, inspects at most the start directory and the four ancestors
/// above it, and settles on the lowest of them that holds the marker, or
/// on the fallback if none does.
pub proof fn settle_is_search_result(search: SearchView, marks: Seq<bool>)
    requires
        consistent(search),
        forall|lower: nat| lower < search.level ==> !#[trigger] is_hit(search.start, marks, lower),
    ensures
        is_search_result(search.start, marks, settle(search, marks)),
    decreases SEARCH_LEVELS - search.level,
{
    let present = reported(marks, search.level);
    match advance_of(search, present) {
        StepView::Resolved(root) => {
            if present {
                assert(is_hit(search.start, marks, search.level));
            } else {
                assert forall|other: nat| other < SEARCH_LEVELS implies !#[trigger] is_hit(
                    search.start,
                    marks,
                    other,
                ) by {
                    if other > search.level {
                        ancestor_chain_ends(search.start, search.level + 1, other);
                    }
                }
            }
        },
        StepView::Probe(higher) => {
            settle_is_search_result(higher, marks);
        },
    }
}

impl RootSearch {
    #[verifier::type_invariant]
    spec fn well_formed(self) -> bool {
        consistent(self@)
    }

    /// Opens a search. With an override the answer is immediate.
    pub fn begin(root_override: Option<String>, start: String) -> (step: SearchStep)
        ensures
            step@ == begin_of(text_of(root_override), start@),
            step matches SearchStep::Probe(search) ==> consistent(search@),
    {
        match root_override {
            Some(root) => SearchStep::Resolved(root),
            None => {
                let dir = start.clone();
                SearchStep::Probe(RootSearch { start, dir, level: 0 })
            },
        }
    }

    /// The directory in which the caller is to look for the marker.
    pub fn candidate(&self) -> (dir: &str)
        ensures
            dir@ == self@.dir,
    {
        self.dir.as_str()
    }

    /// How many steps above the start directory the candidate lies.
    pub fn level(&self) -> (level: usize)
        ensures
            level == self@.level,
    {
        self.level
    }

    /// Takes the caller's report on the candidate and decides what is next.
    pub fn advance(self, present: bool) -> (step: SearchStep)
        ensures
            step@ == advance_of(self@, present),
            step matches SearchStep::Probe(search) ==> consistent(search@),
    {
        proof {
            use_type_invariant(&self);
        }
        if present {
            return SearchStep::Resolved(self.dir);
        }
        if self.level + 1 < SEARCH_LEVELS {
            match parent_dir(self.dir.as_str()) {
                Some(parent) => {
                    return SearchStep::Probe(
                        RootSearch { start: self.start, dir: parent, level: self.level + 1 },
                    );
                },
                None => {},
            }
        }
        SearchStep::Resolved(fallback(self.start.as_str()))
    }
}

/// Resolves the working root from reports gathered beforehand: `marks[k]`
/// says whether the directory `k` steps above `start` holds the marker.
///
/// An override is returned as it stands. Without one the result is the
/// lowest marked directory within the bound, or the fallback.
pub fn resolve_root(root_override: Option<String>, start: String, marks: &Vec<bool>) -> (root:
    String)
    ensures
        match text_of(root_override) {
            Some(given) => root@ == given,
            None => is_search_result(start@, marks@, root@),
        },
{
    let ghost origin = start@;
    let mut search = match RootSearch::begin(root_override, start) {
        SearchStep::Resolved(root) => {
            return root;
        },
        SearchStep::Probe(search) => search,
    };
    loop
        invariant
            origin == start@,
            search@.start == origin,
            text_of(root_override) is None,
            forall|lower: nat| lower < search@.level ==> !#[trigger] is_hit(origin, marks@, lower),
        decreases SEARCH_LEVELS - search@.level,
    {
        let level = search.level();
        let present = level < marks.len() && marks[level];
        let ghost before = search@;
        proof {
            use_type_invariant(&search);
        }
        match search.advance(present) {
            SearchStep::Resolved(root) => {
                proof {
                    if present {
                        assert(is_hit(origin, marks@, before.level));
                    } else {
                        assert forall|other: nat| other < SEARCH_LEVELS implies !#[trigger] is_hit(
                            origin,
                            marks@,
                            other,
                        ) by {
                            if other > before.level {
                                ancestor_chain_ends(origin, before.level + 1, other);
                            }
                        }
                    }
                }
                return root;
            },
            SearchStep::Probe(next) => {
                search = next;
            },
        }
    }
}

} // verus!
