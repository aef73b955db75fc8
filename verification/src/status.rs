//! The `status` operation: one line per changed path, or a single
//! "nothing changed" message, after the usual header.

use vstd::prelude::*;
use crate::codes::{classify, code_pair, StatusFlags};
use crate::repo::{valid_name, Repository};
use crate::title::{
    bare_warning_text, render_bare_warning, render_title, title_text, HeadState,
};

verus! {

/// One changed path as the backend reports it: the path (absent when
/// it cannot be represented) and its change flags.
pub struct StatusEntry {
    pub path: Option<String>,
    pub flags: StatusFlags,
}

/// The mathematical value of a `StatusReport`.
pub enum StatusOutcome {
    BareRepository(Seq<char>),
    HeadFailed(Seq<char>),
    Listed(Seq<char>, Seq<Seq<char>>),
}

/// The result of the `status` operation on one repository: the bare
/// warning, a HEAD failure message, or the header together with the
/// per-path lines.
pub enum StatusReport {
    BareRepository(String),
    HeadFailed(String),
    Listed(String, Vec<String>),
}

/// The message shown when no path changed.
pub open spec fn nothing_changed_text() -> Seq<char> {
    "Nothing changed in this repository"@
}

/// The path shown for an entry: its path, or a placeholder when the
/// backend could not supply one.
pub open spec fn entry_path_of(e: StatusEntry) -> Seq<char> {
    if e.path is Some {
        (e.path->0)@
    } else {
        "None"@
    }
}

/// The line shown for one changed path: the two-character code, then
/// the path.
pub open spec fn status_line_text(e: StatusEntry) -> Seq<char> {
    "  - "@ + seq![code_pair(e.flags).0] + seq![code_pair(e.flags).1] + "  "@
        + entry_path_of(e)
}

/// The lines of one status listing: the "nothing changed" message
/// alone when no path changed, else exactly one line per entry, in
/// order.
pub open spec fn status_lines_text(entries: Seq<StatusEntry>) -> Seq<Seq<char>> {
    if entries.len() == 0 {
        seq![nothing_changed_text()]
    } else {
        entries.map_values(|e: StatusEntry| status_line_text(e))
    }
}

/// The value a `StatusReport` stands for.
pub open spec fn status_report_view(r: StatusReport) -> StatusOutcome {
    match r {
        StatusReport::BareRepository(s) => StatusOutcome::BareRepository(s@),
        StatusReport::HeadFailed(s) => StatusOutcome::HeadFailed(s@),
        StatusReport::Listed(h, lines) => StatusOutcome::Listed(
            h@,
            lines@.map_values(|s: String| s@),
        ),
    }
}

/// What the `status` operation must produce for one repository: it
/// aborts exactly as the header report does, and otherwise lists the
/// changed paths under the header.
pub open spec fn status_outcome(
    r: Repository,
    is_bare: bool,
    h: HeadState,
    entries: Seq<StatusEntry>,
) -> StatusOutcome {
    if is_bare {
        StatusOutcome::BareRepository(bare_warning_text(r))
    } else {
        match h {
            HeadState::Failed(m) => StatusOutcome::HeadFailed(m@),
            _ => StatusOutcome::Listed(title_text(r, h), status_lines_text(entries)),
        }
    }
}

/// Bare-repository guard: against a bare repository the `status`
/// operation is the warning and nothing else, whatever HEAD
/// resolution or the working-tree query gave — no listing is built
/// from the entries.
pub proof fn lemma_bare_guard_status(
    r: Repository,
    h: HeadState,
    entries: Seq<StatusEntry>,
)
    ensures
        status_outcome(r, true, h, entries) == StatusOutcome::BareRepository(
            bare_warning_text(r),
        ),
{
}

/// The characters a status column can hold.
pub open spec fn is_code_char(c: char) -> bool {
    c == 'A' || c == 'M' || c == 'D' || c == 'R' || c == 'T' || c == '?' || c == '!'
        || c == ' '
}

/// The one-character string for a status column character.
pub fn code_str(c: char) -> (r: &'static str)
    requires
        is_code_char(c),
    ensures
        r@ == seq![c],
{
    match c {
        'A' => {
            proof {
                reveal_strlit("A");
                assert("A"@ =~= seq![c]);
            }
            "A"
        },
        'M' => {
            proof {
                reveal_strlit("M");
                assert("M"@ =~= seq![c]);
            }
            "M"
        },
        'D' => {
            proof {
                reveal_strlit("D");
                assert("D"@ =~= seq![c]);
            }
            "D"
        },
        'R' => {
            proof {
                reveal_strlit("R");
                assert("R"@ =~= seq![c]);
            }
            "R"
        },
        'T' => {
            proof {
                reveal_strlit("T");
                assert("T"@ =~= seq![c]);
            }
            "T"
        },
        '?' => {
            proof {
                reveal_strlit("?");
                assert("?"@ =~= seq![c]);
            }
            "?"
        },
        '!' => {
            proof {
                reveal_strlit("!");
                assert("!"@ =~= seq![c]);
            }
            "!"
        },
        _ => {
            proof {
                reveal_strlit(" ");
                assert(" "@ =~= seq![c]);
            }
            " "
        },
    }
}

/// Render the line for one changed path.
pub fn render_status_line(e: &StatusEntry) -> (s: String)
    ensures
        s@ == status_line_text(*e),
{
    let (i, w) = classify(&e.flags);
    let mut s = String::new();
    s.append("  - ");
    s.append(code_str(i));
    s.append(code_str(w));
    s.append("  ");
    match &e.path {
        Some(p) => s.append(p.as_str()),
        None => s.append("None"),
    }
    proof {
        assert(s@ =~= status_line_text(*e));
    }
    s
}

/// The message shown when no path changed.
pub fn nothing_changed_line() -> (s: String)
    ensures
        s@ == nothing_changed_text(),
{
    "Nothing changed in this repository".to_owned()
}

/// Render the listing for the given entries: the "nothing changed"
/// message alone when there are none, else one line per entry.
pub fn status_lines(entries: &Vec<StatusEntry>) -> (r: Vec<String>)
    ensures
        r@.map_values(|s: String| s@) == status_lines_text(entries@),
{
    let mut v: Vec<String> = Vec::new();
    if entries.len() == 0 {
        v.push(nothing_changed_line());
        proof {
            assert(v@.map_values(|s: String| s@) =~= status_lines_text(entries@));
        }
        return v;
    }
    let mut idx: usize = 0;
    while idx < entries.len()
        invariant
            idx <= entries@.len(),
            v@.len() == idx,
            forall|j: int| 0 <= j < idx ==> (#[trigger] v@[j])@ == status_line_text(
                entries@[j],
            ),
        decreases entries@.len() - idx,
    {
        v.push(render_status_line(&entries[idx]));
        idx = idx + 1;
    }
    proof {
        assert(v@.map_values(|s: String| s@) =~= status_lines_text(entries@));
    }
    v
}

/// The `status` operation on one repository: it aborts exactly where
/// the header report aborts, and otherwise lists the changed paths
/// under the header.
pub fn status_report(
    r: &Repository,
    is_bare: bool,
    head: &HeadState,
    entries: &Vec<StatusEntry>,
) -> (rep: StatusReport)
    requires
        valid_name(*r),
    ensures
        status_report_view(rep) == status_outcome(*r, is_bare, *head, entries@),
{
    if is_bare {
        StatusReport::BareRepository(render_bare_warning(r))
    } else {
        match head {
            HeadState::Failed(m) => StatusReport::HeadFailed(m.clone()),
            _ => StatusReport::Listed(render_title(r, head), status_lines(entries)),
        }
    }
}

} // verus!
