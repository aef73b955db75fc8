//! Configured repositories and the derivation of their display names.
//!
//! A repository entry carries an optional display name, a filesystem
//! location and an optional description.  When no name is configured,
//! the display name is the final path segment of the location
//! (trailing slashes ignored); an entry whose location has no final
//! segment has no derivable name.

use vstd::prelude::*;

verus! {

/// One managed repository: an optional display name, the path of its
/// working copy, and an optional free-text description.
pub struct Repository {
    pub name: Option<String>,
    pub location: String,
    pub description: Option<String>,
}

/// The configured list of repositories, in declaration order.
pub struct Config {
    pub repository: Vec<Repository>,
}

/// Length of `s` once trailing `'/'` characters are dropped.
pub open spec fn trimmed_len(s: Seq<char>) -> int
    decreases s.len(),
{
    if s.len() > 0 && s.last() == '/' {
        trimmed_len(s.drop_last())
    } else {
        s.len() as int
    }
}

/// Start of the path segment that ends at `end`: the least index from
/// which no `'/'` occurs before `end`.
pub open spec fn segment_start(s: Seq<char>, end: int) -> int
    decreases end,
{
    if end <= 0 {
        0
    } else if s[end - 1] == '/' {
        end
    } else {
        segment_start(s, end - 1)
    }
}

/// The final path segment of `loc`: what lies between the last `'/'`
/// and any trailing slashes.  Empty when `loc` has no final segment.
pub open spec fn derived_name(loc: Seq<char>) -> Seq<char> {
    loc.subrange(segment_start(loc, trimmed_len(loc)), trimmed_len(loc))
}

/// Whether `loc` yields a non-empty derived name.
pub open spec fn has_segment(loc: Seq<char>) -> bool {
    derived_name(loc).len() > 0
}

/// A repository whose display name is well defined: either an
/// explicit name, or a location with a final segment.
pub open spec fn valid_name(r: Repository) -> bool {
    r.name is Some || has_segment(r.location@)
}

/// The display name: the explicit name when present, else the final
/// path segment of the location.
pub open spec fn display_name(r: Repository) -> Seq<char> {
    if r.name is Some {
        (r.name->0)@
    } else {
        derived_name(r.location@)
    }
}

/// The bounds of the final path segment of `loc`: its start and its
/// end once trailing slashes are dropped.
fn segment_bounds(loc: &str) -> (r: (usize, usize))
    ensures
        r.0 as int == segment_start(loc@, trimmed_len(loc@)),
        r.1 as int == trimmed_len(loc@),
        r.0 <= r.1 <= loc@.len(),
{
    let n = loc.unicode_len();
    let mut end: usize = n;
    proof {
        assert(loc@.take(n as int) =~= loc@);
    }
    while end > 0 && loc.get_char(end - 1) == '/'
        invariant
            n == loc@.len(),
            end <= n,
            trimmed_len(loc@) == trimmed_len(loc@.take(end as int)),
        decreases end,
    {
        proof {
            let t = loc@.take(end as int);
            assert(t.last() == loc@[end - 1]);
            assert(t.drop_last() =~= loc@.take(end - 1));
        }
        end = end - 1;
    }
    proof {
        if end == 0 {
            assert(loc@.take(0).len() == 0);
        }
        assert(trimmed_len(loc@) == end as int);
    }
    let mut start: usize = end;
    while start > 0 && loc.get_char(start - 1) != '/'
        invariant
            n == loc@.len(),
            start <= end <= n,
            segment_start(loc@, end as int) == segment_start(loc@, start as int),
        decreases start,
    {
        start = start - 1;
    }
    proof {
        assert(segment_start(loc@, end as int) == start as int);
    }
    (start, end)
}

/// Whether `r` has a well-defined display name, so that showing it
/// cannot fail.
pub fn has_display_name(r: &Repository) -> (b: bool)
    ensures
        b == valid_name(*r),
{
    match &r.name {
        Some(_) => true,
        None => {
            let (start, end) = segment_bounds(r.location.as_str());
            start < end
        },
    }
}

impl Repository {
    /// The name this repository is shown under.
    pub fn name(&self) -> (r: &str)
        requires
            valid_name(*self),
        ensures
            r@ == display_name(*self),
    {
        match &self.name {
            Some(n) => n.as_str(),
            None => {
                let loc = self.location.as_str();
                let (start, end) = segment_bounds(loc);
                loc.substring_char(start, end)
            },
        }
    }
}

} // verus!
