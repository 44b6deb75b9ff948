//! The asset bundle: the UI's files, each under its relative path, fixed once
//! the bundle is made.

use vstd::prelude::*;
use crate::text::same_text;

verus! {

/// Whether a `..` segment starts at position `i` of a path.
pub open spec fn parent_segment_at(p: Seq<char>, i: int) -> bool {
    &&& 0 <= i
    &&& i + 1 < p.len()
    &&& p[i] == '.'
    &&& p[i + 1] == '.'
    &&& (i == 0 || p[i - 1] == '/')
    &&& (i + 2 == p.len() || p[i + 2] == '/')
}

/// A relative path of the bundle: not empty, not starting at the root, and
/// without any `..` segment.
pub open spec fn is_bundle_path(p: Seq<char>) -> bool {
    &&& p.len() > 0
    &&& p[0] != '/'
    &&& forall|i: int| 0 <= i < p.len() ==> !parent_segment_at(p, i)
}

/// Whether the paths of a list of entries are valid and pairwise distinct.
pub open spec fn entries_valid(e: Seq<(Seq<char>, Seq<u8>)>) -> bool {
    &&& forall|i: int| 0 <= i < e.len() ==> is_bundle_path(#[trigger] e[i].0)
    &&& forall|i: int, j: int| 0 <= i < j < e.len() ==> e[i].0 != e[j].0
}

/// The view of a list of entries: each path and its bytes.
pub open spec fn entries_view(v: Seq<(String, Vec<u8>)>) -> Seq<(Seq<char>, Seq<u8>)> {
    v.map_values(|e: (String, Vec<u8>)| (e.0@, e.1@))
}

/// Whether `p` is a valid relative path of a bundle.
pub fn is_valid_path(p: &str) -> (r: bool)
    ensures
        r == is_bundle_path(p@),
{
    let n = p.unicode_len();
    if n == 0 || p.get_char(0) == '/' {
        return false;
    }
    let mut i: usize = 0;
    while i < n
        invariant
            n == p@.len(),
            i <= n,
            forall|k: int| 0 <= k < i ==> !parent_segment_at(p@, k),
        decreases n - i,
    {
        if i + 1 < n && p.get_char(i) == '.' && p.get_char(i + 1) == '.' && (i == 0 || p.get_char(
            i - 1,
        ) == '/') && (i + 2 == n || p.get_char(i + 2) == '/') {
            assert(parent_segment_at(p@, i as int));
            return false;
        }
        i = i + 1;
    }
    true
}

/// The first position below `upto` whose path is `path`.
fn position(entries: &Vec<(String, Vec<u8>)>, upto: usize, path: &str) -> (r: Option<usize>)
    requires
        upto <= entries@.len(),
    ensures
        match r {
            Some(k) => k < upto && entries@[k as int].0@ == path@,
            None => forall|k: int| 0 <= k < upto ==> entries@[k].0@ != path@,
        },
{
    let mut i: usize = 0;
    while i < upto
        invariant
            upto <= entries@.len(),
            i <= upto,
            forall|k: int| 0 <= k < i ==> entries@[k].0@ != path@,
        decreases upto - i,
    {
        if same_text(entries[i].0.as_str(), path) {
            return Some(i);
        }
        i = i + 1;
    }
    None
}

/// The UI's files, each under a distinct relative path.
#[derive(Debug)]
pub struct SwaggerUiAssets {
    entries: Vec<(String, Vec<u8>)>,
}

impl View for SwaggerUiAssets {
    type V = Seq<(Seq<char>, Seq<u8>)>;

    closed spec fn view(&self) -> Self::V {
        entries_view(self.entries@)
    }
}

impl SwaggerUiAssets {
    #[verifier::type_invariant]
    pub open spec fn paths_valid(self) -> bool {
        self.wf()
    }

    /// Paths valid and distinct.
    pub open spec fn wf(&self) -> bool {
        entries_valid(self@)
    }

    /// Whether the bundle holds a file at `path`.
    pub open spec fn contains(&self, path: Seq<char>) -> bool {
        exists|i: int| 0 <= i < self@.len() && #[trigger] self@[i].0 == path
    }

    /// A bundle without files.
    pub fn empty() -> (r: Self)
        ensures
            r.wf(),
            r@.len() == 0,
    {
        let r = SwaggerUiAssets { entries: Vec::new() };
        assert(r@ =~= Seq::empty());
        r
    }

    /// A bundle of the given files, in their order; `None` where a path is
    /// empty, absolute or holds a `..` segment, or where two paths are equal.
    pub fn from_entries(entries: Vec<(String, Vec<u8>)>) -> (r: Option<Self>)
        ensures
            r is Some <==> entries_valid(entries_view(entries@)),
            r matches Some(b) ==> b@ == entries_view(entries@),
    {
        let ghost ev = entries_view(entries@);
        let mut i: usize = 0;
        while i < entries.len()
            invariant
                ev == entries_view(entries@),
                i <= entries@.len(),
                forall|k: int| 0 <= k < i ==> is_bundle_path(#[trigger] ev[k].0),
                forall|a: int, b: int| 0 <= a < b < i ==> ev[a].0 != ev[b].0,
            decreases entries@.len() - i,
        {
            if !is_valid_path(entries[i].0.as_str()) {
                assert(!is_bundle_path(ev[i as int].0));
                return None;
            }
            if let Some(k) = position(&entries, i, entries[i].0.as_str()) {
                assert(ev[k as int].0 == ev[i as int].0);
                return None;
            }
            i = i + 1;
        }
        Some(SwaggerUiAssets { entries })
    }

    /// The number of files.
    pub fn len(&self) -> (r: usize)
        ensures
            r == self@.len(),
    {
        self.entries.len()
    }

    /// The bytes of the file at `path`, if the bundle holds one.
    pub fn get(&self, path: &str) -> (r: Option<&Vec<u8>>)
        ensures
            r is Some <==> self.contains(path@),
            forall|i: int|
                0 <= i < self@.len() && #[trigger] self@[i].0 == path@ ==> (r matches Some(b)
                    && b@ == self@[i].1),
    {
        proof {
            use_type_invariant(self);
        }
        match position(&self.entries, self.entries.len(), path) {
            Some(k) => {
                assert(self@[k as int].0 == path@);
                Some(&self.entries[k].1)
            },
            None => {
                assert(!self.contains(path@));
                None
            },
        }
    }

    /// The paths of all files, in the bundle's order.
    pub fn paths(&self) -> (r: Vec<String>)
        ensures
            r@.len() == self@.len(),
            forall|i: int| 0 <= i < r@.len() ==> #[trigger] r@[i]@ == self@[i].0,
    {
        let mut r: Vec<String> = Vec::new();
        let mut i: usize = 0;
        while i < self.entries.len()
            invariant
                i <= self@.len(),
                self@.len() == self.entries@.len(),
                r@.len() == i,
                forall|k: int| 0 <= k < i ==> #[trigger] r@[k]@ == self@[k].0,
            decreases self@.len() - i,
        {
            r.push(self.entries[i].0.clone());
            i = i + 1;
        }
        r
    }
}

} // verus!
