//! Classification of one changed path's flags into the two-character
//! status code.
//!
//! The backend reports each path with a set of flags describing its
//! index-vs-HEAD and worktree-vs-index state.  The code has an index
//! column and a worktree column; within a column the first matching
//! category wins, in a fixed order, so composite flag sets classify
//! deterministically.  An ignored path shows `!!` whatever else is
//! set, and a path new only in the worktree shows `??`.

use vstd::prelude::*;

verus! {

/// The per-path change flags the classifier reads: the path's
/// index-vs-HEAD state (new, modified, deleted, renamed or
/// type-changed), its worktree-vs-index state (the same categories),
/// plus the ignored marker.
#[derive(Clone, Copy, PartialEq, Eq, Structural, Debug)]
pub struct StatusFlags {
    pub index_new: bool,
    pub index_modified: bool,
    pub index_deleted: bool,
    pub index_renamed: bool,
    pub index_typechange: bool,
    pub wt_new: bool,
    pub wt_modified: bool,
    pub wt_deleted: bool,
    pub wt_renamed: bool,
    pub wt_typechange: bool,
    pub ignored: bool,
}

/// The index column before the untracked override: the first matching
/// index-vs-HEAD category, in the order `A`, `M`, `D`, `R`, `T`, else
/// a space.
pub open spec fn index_code(f: StatusFlags) -> char {
    if f.index_new {
        'A'
    } else if f.index_modified {
        'M'
    } else if f.index_deleted {
        'D'
    } else if f.index_renamed {
        'R'
    } else if f.index_typechange {
        'T'
    } else {
        ' '
    }
}

/// The worktree column: `?` for a path new in the worktree, else the
/// first matching category, else a space.
pub open spec fn worktree_code(f: StatusFlags) -> char {
    if f.wt_new {
        '?'
    } else if f.wt_modified {
        'M'
    } else if f.wt_deleted {
        'D'
    } else if f.wt_renamed {
        'R'
    } else if f.wt_typechange {
        'T'
    } else {
        ' '
    }
}

/// The rendered code pair: `!!` for an ignored path; otherwise the
/// two columns, with a blank index column raised to `?` when the
/// worktree column is `?`.
pub open spec fn code_pair(f: StatusFlags) -> (char, char) {
    if f.ignored {
        ('!', '!')
    } else {
        let w = worktree_code(f);
        let i = index_code(f);
        if f.wt_new && i == ' ' {
            ('?', w)
        } else {
            (i, w)
        }
    }
}

/// Classify one path's flags into its two-character status code.
pub fn classify(f: &StatusFlags) -> (r: (char, char))
    ensures
        r == code_pair(*f),
{
    if f.ignored {
        return ('!', '!');
    }
    let mut i: char = if f.index_new {
        'A'
    } else if f.index_modified {
        'M'
    } else if f.index_deleted {
        'D'
    } else if f.index_renamed {
        'R'
    } else if f.index_typechange {
        'T'
    } else {
        ' '
    };
    let w: char = if f.wt_new {
        if i == ' ' {
            i = '?';
        }
        '?'
    } else if f.wt_modified {
        'M'
    } else if f.wt_deleted {
        'D'
    } else if f.wt_renamed {
        'R'
    } else if f.wt_typechange {
        'T'
    } else {
        ' '
    };
    (i, w)
}

/// The code is a function of the flags alone: equal flag sets always
/// classify to the same code, however often the classification runs.
pub proof fn lemma_classification_deterministic(f1: StatusFlags, f2: StatusFlags)
    requires
        f1 == f2,
    ensures
        code_pair(f1) == code_pair(f2),
{
}

/// An ignored path renders as `!!`, whatever other flags are set.
pub proof fn lemma_ignored_overrides_all(f: StatusFlags)
    requires
        f.ignored,
    ensures
        code_pair(f) == ('!', '!'),
{
}

/// A path whose only flag is "new in the worktree" renders as `??`.
pub proof fn lemma_untracked_only(f: StatusFlags)
    requires
        f.wt_new,
        !f.index_new,
        !f.index_modified,
        !f.index_deleted,
        !f.index_renamed,
        !f.index_typechange,
        !f.wt_modified,
        !f.wt_deleted,
        !f.wt_renamed,
        !f.wt_typechange,
        !f.ignored,
    ensures
        code_pair(f) == ('?', '?'),
{
}

} // verus!
