//! The header reported for every operation on a repository: name,
//! current branch, location and description — or the bare-repository
//! warning, or a HEAD-resolution failure.

use vstd::prelude::*;
use crate::repo::{display_name, valid_name, Repository};

verus! {

/// What resolving HEAD gave: a branch (whose short name may be
/// unrepresentable), an unborn or missing HEAD, or a backend failure
/// with its message.
pub enum HeadState {
    Resolved(Option<String>),
    Unborn,
    Failed(String),
}

/// The result of reporting one repository's header: the header text,
/// or the warning shown for a bare repository, or the message of a
/// HEAD-resolution failure.  Only `Header` is a success.
pub enum TitleReport {
    Header(String),
    BareWarning(String),
    HeadFailure(String),
}

/// The error an operation ends with: a bare repository, a backend
/// failure with its message, or a missing `origin` remote.
pub enum OpError {
    BareRepository,
    Backend(String),
    RemoteNotFound,
}

/// The mathematical value of a `TitleReport`.
pub enum TitleOutcome {
    Header(Seq<char>),
    BareWarning(Seq<char>),
    HeadFailure(Seq<char>),
}

/// The description shown for `r`: its configured text, or a fixed
/// placeholder when none is configured.
pub open spec fn description_of(r: Repository) -> Seq<char> {
    if r.description is Some {
        (r.description->0)@
    } else {
        "No description"@
    }
}

/// The branch label: the short branch name when HEAD resolved to a
/// representable one, else "no branch".
pub open spec fn branch_label_of(h: HeadState) -> Seq<char> {
    match h {
        HeadState::Resolved(Some(s)) => s@,
        _ => "no branch"@,
    }
}

/// The two-line header: `name(branch): location` then the
/// description.
pub open spec fn title_text(r: Repository, h: HeadState) -> Seq<char> {
    display_name(r) + "("@ + branch_label_of(h) + "): "@ + r.location@ + "\n"@
        + description_of(r)
}

/// The warning shown for a bare repository before its operation is
/// abandoned.
pub open spec fn bare_warning_text(r: Repository) -> Seq<char> {
    display_name(r) + ": cannot use bare repository\n"@ + description_of(r) + " - "@
        + r.location@ + "\n"@
}

/// The line shown when HEAD resolution failed with message `m`.
pub open spec fn head_failure_text(m: Seq<char>) -> Seq<char> {
    "can't get HEAD: "@ + m
}

/// The value a `TitleReport` stands for.
pub open spec fn title_report_view(t: TitleReport) -> TitleOutcome {
    match t {
        TitleReport::Header(s) => TitleOutcome::Header(s@),
        TitleReport::BareWarning(s) => TitleOutcome::BareWarning(s@),
        TitleReport::HeadFailure(s) => TitleOutcome::HeadFailure(s@),
    }
}

/// What reporting the header of `r` must produce: the bare warning
/// when the backend calls the repository bare; else the failure
/// message when HEAD resolution failed; else the header itself.
pub open spec fn title_outcome(r: Repository, is_bare: bool, h: HeadState) -> TitleOutcome {
    if is_bare {
        TitleOutcome::BareWarning(bare_warning_text(r))
    } else {
        match h {
            HeadState::Failed(m) => TitleOutcome::HeadFailure(m@),
            _ => TitleOutcome::Header(title_text(r, h)),
        }
    }
}

/// Bare-repository guard: against a bare repository the title report
/// is the warning and nothing else, whatever HEAD resolution gave —
/// no further backend data enters the outcome.
pub proof fn lemma_bare_guard_title(r: Repository, h: HeadState)
    ensures
        title_outcome(r, true, h) == TitleOutcome::BareWarning(bare_warning_text(r)),
{
}

/// The description shown for `r`.
pub fn description_text(r: &Repository) -> (d: &str)
    ensures
        d@ == description_of(*r),
{
    match &r.description {
        Some(d) => d.as_str(),
        None => "No description",
    }
}

/// The branch label for `h`.
pub fn branch_label(h: &HeadState) -> (b: &str)
    ensures
        b@ == branch_label_of(*h),
{
    match h {
        HeadState::Resolved(Some(s)) => s.as_str(),
        _ => "no branch",
    }
}

/// Render the two-line header for `r` under head state `h`.
pub fn render_title(r: &Repository, h: &HeadState) -> (s: String)
    requires
        valid_name(*r),
    ensures
        s@ == title_text(*r, *h),
{
    let mut s = r.name().to_owned();
    s.append("(");
    s.append(branch_label(h));
    s.append("): ");
    s.append(r.location.as_str());
    s.append("\n");
    s.append(description_text(r));
    proof {
        assert(s@ =~= title_text(*r, *h));
    }
    s
}

/// Render the bare-repository warning for `r`.
pub fn render_bare_warning(r: &Repository) -> (s: String)
    requires
        valid_name(*r),
    ensures
        s@ == bare_warning_text(*r),
{
    let mut s = r.name().to_owned();
    s.append(": cannot use bare repository\n");
    s.append(description_text(r));
    s.append(" - ");
    s.append(r.location.as_str());
    s.append("\n");
    proof {
        assert(s@ =~= bare_warning_text(*r));
    }
    s
}

/// Render the line shown when HEAD resolution failed with message
/// `m`.
pub fn head_failure_message(m: &str) -> (s: String)
    ensures
        s@ == head_failure_text(m@),
{
    let mut s = String::new();
    s.append("can't get HEAD: ");
    s.append(m);
    proof {
        assert(s@ =~= head_failure_text(m@));
    }
    s
}

/// Report the header of `r`: the bare warning aborts the operation,
/// a HEAD failure aborts it too, and otherwise the header is shown.
pub fn title_report(r: &Repository, is_bare: bool, head: &HeadState) -> (t: TitleReport)
    requires
        valid_name(*r),
    ensures
        title_report_view(t) == title_outcome(*r, is_bare, *head),
{
    if is_bare {
        TitleReport::BareWarning(render_bare_warning(r))
    } else {
        match head {
            HeadState::Failed(m) => TitleReport::HeadFailure(m.clone()),
            _ => TitleReport::Header(render_title(r, head)),
        }
    }
}

/// The error a title report carries: none for a header, the bare
/// error for the warning, and a backend error with the HEAD message
/// otherwise.
pub fn title_error(t: &TitleReport) -> (e: Option<OpError>)
    ensures
        t is Header <==> e is None,
        t is BareWarning ==> (e matches Some(k) && k is BareRepository),
        t matches TitleReport::HeadFailure(m) ==> (e matches Some(k) && k matches
            OpError::Backend(b) && b@ == m@),
{
    match t {
        TitleReport::Header(_) => None,
        TitleReport::BareWarning(_) => Some(OpError::BareRepository),
        TitleReport::HeadFailure(m) => Some(OpError::Backend(m.clone())),
    }
}

/// The `pull` operation: deliberately no more than the header report
/// — no merge or rebase step follows it.
pub fn pull(repository: &Repository, is_bare: bool, head: &HeadState) -> (t: TitleReport)
    requires
        valid_name(*repository),
    ensures
        title_report_view(t) == title_outcome(*repository, is_bare, *head),
{
    title_report(repository, is_bare, head)
}

} // verus!
