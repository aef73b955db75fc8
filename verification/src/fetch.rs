//! The `fetch` operation: credential selection, the three streamed
//! progress channels (sideband text, ref tip updates, transfer
//! counters) and the final summary line.
//!
//! The backend performs the transfer; the library decides what each
//! callback shows and what the operation's outcome is, as a function
//! of the values the backend hands over.

use vstd::prelude::*;
use vstd::utf8::encode_utf8;
use crate::repo::{valid_name, Repository};
use crate::text::{decimal, pad_to, padded, u64_string};
use crate::title::{
    bare_warning_text, render_bare_warning, render_title, title_text, HeadState, OpError,
};

verus! {

/// The text that lossy UTF-8 decoding makes of `bytes`.
pub uninterp spec fn lossy_text_of(bytes: Seq<u8>) -> Seq<char>;

/// Relies on String::from_utf8_lossy: the decoding depends on the
/// bytes alone, and bytes that are valid UTF-8 come through verbatim.
#[verifier::external_body]
fn lossy_utf8(data: &[u8]) -> (r: String)
    ensures
        r@ == lossy_text_of(data@),
        forall|s: Seq<char>| encode_utf8(s) == data@ ==> r@ == s,
{
    String::from_utf8_lossy(data).into_owned()
}

/// The text shown for one chunk of sideband data: the server's bytes
/// decoded to text, verbatim wherever they are valid UTF-8.
pub fn sideband_text(data: &[u8]) -> (r: String)
    ensures
        r@ == lossy_text_of(data@),
        forall|s: Seq<char>| encode_utf8(s) == data@ ==> r@ == s,
{
    lossy_utf8(data)
}

/// The cumulative transfer counters the backend reports, both during
/// the download and for the final summary.
#[derive(Clone, Copy, PartialEq, Eq, Structural, Debug)]
pub struct TransferProgress {
    pub received_objects: u64,
    pub total_objects: u64,
    pub indexed_objects: u64,
    pub indexed_deltas: u64,
    pub total_deltas: u64,
    pub received_bytes: u64,
    pub local_objects: u64,
}

/// One event delivered during the download: a chunk of server-sent
/// sideband bytes, a ref tip update (old id, new id, ref name, ids in
/// hex), or a counter update.
pub enum FetchEvent {
    Sideband(Vec<u8>),
    TipUpdate(String, String, String),
    Transfer(TransferProgress),
}

/// Everything one repository's fetch depends on: its descriptor, what
/// the backend said of bareness and HEAD, whether the `origin` remote
/// exists, the events delivered during the download, how the download
/// ended, and the final counters.
pub struct FetchInputs {
    pub repository: Repository,
    pub is_bare: bool,
    pub head: HeadState,
    pub origin_found: bool,
    pub events: Vec<FetchEvent>,
    pub download_error: Option<String>,
    pub stats: TransferProgress,
}

/// The mathematical value of a `FetchReport`.
pub enum FetchOutcome {
    BareRepository(Seq<char>),
    HeadFailed(Seq<char>),
    NoOrigin(Seq<char>),
    DownloadFailed(Seq<char>, Seq<Seq<char>>, Seq<char>),
    Completed(Seq<char>, Seq<Seq<char>>, Seq<char>),
}

/// The result of fetching one repository: the bare warning, a HEAD
/// failure message, the header with the `origin` remote missing, the
/// header and the pieces streamed before the download failed with its
/// message, or the header, the streamed pieces in delivery order, and
/// the summary line.  Only `Completed` is a success.
pub enum FetchReport {
    BareRepository(String),
    HeadFailed(String),
    NoOrigin(String),
    DownloadFailed(String, Vec<String>, String),
    Completed(String, Vec<String>, String),
}

/// An all-zero object id in hex: what a ref had before it existed.
pub open spec fn zero_id(s: Seq<char>) -> bool {
    s.len() > 0 && forall|i: int| 0 <= i < s.len() ==> s[i] == '0'
}

/// The line shown for one ref tip update: a "new" line when the old
/// id is the null id, else an `old..new` line, ids padded to fixed
/// columns.
pub open spec fn tip_line_text(old_id: Seq<char>, new_id: Seq<char>, refname: Seq<char>) -> Seq<
    char,
> {
    if zero_id(old_id) {
        "[new]     "@ + padded(new_id, 20) + " "@ + refname
    } else {
        "[updated] "@ + padded(old_id, 10) + ".."@ + padded(new_id, 10) + " "@ + refname
    }
}

/// The progress line for counters `p`: the delta-resolution line once
/// the received count has reached the announced total, else the
/// receiving line while a total is announced, else nothing.  Both
/// lines end in a carriage return so they overwrite in place.
pub open spec fn progress_line_text(p: TransferProgress) -> Option<Seq<char>> {
    if p.received_objects == p.total_objects {
        Some(
            "Resolving deltas "@ + decimal(p.indexed_deltas as nat) + "/"@ + decimal(
                p.total_deltas as nat,
            ) + "\r"@,
        )
    } else if p.total_objects > 0 {
        Some(
            "Received "@ + decimal(p.received_objects as nat) + "/"@ + decimal(
                p.total_objects as nat,
            ) + " objects ("@ + decimal(p.indexed_objects as nat) + ") in "@ + decimal(
                p.received_bytes as nat,
            ) + " bytes\r"@,
        )
    } else {
        None
    }
}

/// The final summary line: objects and bytes received, with the
/// local-objects clause exactly when local objects were reused.
pub open spec fn summary_text(p: TransferProgress) -> Seq<char> {
    "\rReceived "@ + decimal(p.indexed_objects as nat) + "/"@ + decimal(
        p.total_objects as nat,
    ) + " objects in "@ + decimal(p.received_bytes as nat) + " bytes"@ + (if p.local_objects
        > 0 {
        " (used "@ + decimal(p.local_objects as nat) + " local objects)"@
    } else {
        Seq::<char>::empty()
    })
}

/// The private-key path used for SSH credentials, under the home
/// directory.
pub open spec fn key_path_text(home: Seq<char>) -> Seq<char> {
    home + "/.ssh/id_rsa"@
}

/// What one event contributes to the output stream: the sideband
/// bytes as text, one line per tip update, and the progress line when
/// the counters yield one.
pub open spec fn event_pieces(e: FetchEvent) -> Seq<Seq<char>> {
    match e {
        FetchEvent::Sideband(d) => seq![lossy_text_of(d@)],
        FetchEvent::TipUpdate(a, b, r) => seq![tip_line_text(a@, b@, r@)],
        FetchEvent::Transfer(p) => match progress_line_text(p) {
            Some(t) => seq![t],
            None => Seq::<Seq<char>>::empty(),
        },
    }
}

/// The whole output stream of one download, in delivery order.
pub open spec fn stream_pieces(events: Seq<FetchEvent>) -> Seq<Seq<char>>
    decreases events.len(),
{
    if events.len() == 0 {
        Seq::<Seq<char>>::empty()
    } else {
        stream_pieces(events.drop_last()) + event_pieces(events.last())
    }
}

/// The value a `FetchReport` stands for.
pub open spec fn fetch_report_view(r: FetchReport) -> FetchOutcome {
    match r {
        FetchReport::BareRepository(s) => FetchOutcome::BareRepository(s@),
        FetchReport::HeadFailed(s) => FetchOutcome::HeadFailed(s@),
        FetchReport::NoOrigin(s) => FetchOutcome::NoOrigin(s@),
        FetchReport::DownloadFailed(h, pieces, m) => FetchOutcome::DownloadFailed(
            h@,
            pieces@.map_values(|p: String| p@),
            m@,
        ),
        FetchReport::Completed(h, pieces, s) => FetchOutcome::Completed(
            h@,
            pieces@.map_values(|p: String| p@),
            s@,
        ),
    }
}

/// What fetching one repository must produce: it aborts exactly as
/// the header report does; with the header shown, a missing `origin`
/// remote aborts next; a download failure keeps the pieces streamed
/// before it and carries the backend's message; otherwise the
/// streamed pieces and the summary follow the header.
pub open spec fn fetch_outcome(inp: FetchInputs) -> FetchOutcome {
    if inp.is_bare {
        FetchOutcome::BareRepository(bare_warning_text(inp.repository))
    } else {
        match inp.head {
            HeadState::Failed(m) => FetchOutcome::HeadFailed(m@),
            _ => if !inp.origin_found {
                FetchOutcome::NoOrigin(title_text(inp.repository, inp.head))
            } else if inp.download_error is Some {
                FetchOutcome::DownloadFailed(
                    title_text(inp.repository, inp.head),
                    stream_pieces(inp.events@),
                    (inp.download_error->0)@,
                )
            } else {
                FetchOutcome::Completed(
                    title_text(inp.repository, inp.head),
                    stream_pieces(inp.events@),
                    summary_text(inp.stats),
                )
            },
        }
    }
}

/// The outcome of fetching each of the configured repositories, in
/// order.
pub open spec fn fetch_outcomes(all: Seq<FetchInputs>) -> Seq<FetchOutcome> {
    all.map_values(|inp: FetchInputs| fetch_outcome(inp))
}

/// Bare-repository guard: against a bare repository the `fetch`
/// operation is the warning and nothing else, whatever the remote,
/// the download or its events gave — nothing of the transfer enters
/// the outcome.
pub proof fn lemma_bare_guard_fetch(inp: FetchInputs)
    requires
        inp.is_bare,
    ensures
        fetch_outcome(inp) == FetchOutcome::BareRepository(
            bare_warning_text(inp.repository),
        ),
{
}

/// Repository isolation: one repository's fetch outcome is a function
/// of its own descriptor and backend data alone.  However another
/// repository's inputs change — including into any failure — the
/// outcome at an unchanged position is unchanged.
pub proof fn lemma_repository_isolation(a: Seq<FetchInputs>, b: Seq<FetchInputs>, i: int)
    requires
        a.len() == b.len(),
        0 <= i < a.len(),
        a[i] == b[i],
    ensures
        fetch_outcomes(a)[i] == fetch_outcomes(b)[i],
{
    assert(fetch_outcomes(a)[i] == fetch_outcome(a[i]));
    assert(fetch_outcomes(b)[i] == fetch_outcome(b[i]));
}

/// Whether `s` is the all-zero hex id.
pub fn is_zero_id(s: &str) -> (r: bool)
    ensures
        r == zero_id(s@),
{
    let n = s.unicode_len();
    if n == 0 {
        return false;
    }
    let mut i: usize = 0;
    while i < n
        invariant
            n == s@.len(),
            i <= n,
            forall|j: int| 0 <= j < i ==> s@[j] == '0',
        decreases n - i,
    {
        if s.get_char(i) != '0' {
            return false;
        }
        i = i + 1;
    }
    true
}

/// Render the line for one ref tip update.
pub fn tip_update_line(old_id: &str, new_id: &str, refname: &str) -> (s: String)
    ensures
        s@ == tip_line_text(old_id@, new_id@, refname@),
{
    let mut s = String::new();
    if is_zero_id(old_id) {
        s.append("[new]     ");
        let new_col = pad_to(new_id, 20);
        s.append(new_col.as_str());
        s.append(" ");
        s.append(refname);
    } else {
        s.append("[updated] ");
        let old_col = pad_to(old_id, 10);
        s.append(old_col.as_str());
        s.append("..");
        let new_col = pad_to(new_id, 10);
        s.append(new_col.as_str());
        s.append(" ");
        s.append(refname);
    }
    proof {
        assert(s@ =~= tip_line_text(old_id@, new_id@, refname@));
    }
    s
}

/// Render the progress line for counters `p`, when they yield one.
pub fn transfer_progress_line(p: &TransferProgress) -> (r: Option<String>)
    ensures
        r is Some <==> progress_line_text(*p) is Some,
        r matches Some(s) ==> s@ == progress_line_text(*p)->0,
{
    if p.received_objects == p.total_objects {
        let mut s = String::new();
        s.append("Resolving deltas ");
        let a = u64_string(p.indexed_deltas);
        s.append(a.as_str());
        s.append("/");
        let b = u64_string(p.total_deltas);
        s.append(b.as_str());
        s.append("\r");
        proof {
            assert(s@ =~= progress_line_text(*p)->0);
        }
        Some(s)
    } else if p.total_objects > 0 {
        let mut s = String::new();
        s.append("Received ");
        let a = u64_string(p.received_objects);
        s.append(a.as_str());
        s.append("/");
        let b = u64_string(p.total_objects);
        s.append(b.as_str());
        s.append(" objects (");
        let c = u64_string(p.indexed_objects);
        s.append(c.as_str());
        s.append(") in ");
        let d = u64_string(p.received_bytes);
        s.append(d.as_str());
        s.append(" bytes\r");
        proof {
            assert(s@ =~= progress_line_text(*p)->0);
        }
        Some(s)
    } else {
        None
    }
}

/// Render the final summary line for the cumulative counters `p`.
pub fn fetch_summary_line(p: &TransferProgress) -> (s: String)
    ensures
        s@ == summary_text(*p),
{
    let mut s = String::new();
    s.append("\rReceived ");
    let a = u64_string(p.indexed_objects);
    s.append(a.as_str());
    s.append("/");
    let b = u64_string(p.total_objects);
    s.append(b.as_str());
    s.append(" objects in ");
    let c = u64_string(p.received_bytes);
    s.append(c.as_str());
    s.append(" bytes");
    if p.local_objects > 0 {
        s.append(" (used ");
        let d = u64_string(p.local_objects);
        s.append(d.as_str());
        s.append(" local objects)");
    }
    proof {
        assert(s@ =~= summary_text(*p));
    }
    s
}

/// The SSH private-key path under the given home directory.
pub fn ssh_key_path(home: &str) -> (s: String)
    ensures
        s@ == key_path_text(home@),
{
    let mut s = home.to_owned();
    s.append("/.ssh/id_rsa");
    proof {
        assert(s@ =~= key_path_text(home@));
    }
    s
}

/// The SSH credential handed to the backend: the username the remote
/// URL supplied, and the fixed key path under the home directory.
pub struct SshCredential {
    pub username: String,
    pub key_path: String,
}

/// Decide the credential for an authentication request: one is
/// supplied exactly when the remote URL carried a username, and it
/// names the fixed key under the home directory, with no passphrase.
pub fn ssh_credential(home: &str, username_from_url: Option<&str>) -> (r: Option<
    SshCredential,
>)
    ensures
        r is Some <==> username_from_url is Some,
        r matches Some(c) ==> (username_from_url matches Some(u) && c.username@ == u@
            && c.key_path@ == key_path_text(home@)),
{
    match username_from_url {
        Some(u) => Some(
            SshCredential { username: u.to_owned(), key_path: ssh_key_path(home) },
        ),
        None => None,
    }
}

/// What one event contributes to the output stream.
pub fn render_event(e: &FetchEvent) -> (r: Option<String>)
    ensures
        r matches Some(s) ==> event_pieces(*e) == seq![s@],
        r is None ==> event_pieces(*e) == Seq::<Seq<char>>::empty(),
{
    match e {
        FetchEvent::Sideband(d) => Some(sideband_text(d.as_slice())),
        FetchEvent::TipUpdate(a, b, refname) => Some(
            tip_update_line(a.as_str(), b.as_str(), refname.as_str()),
        ),
        FetchEvent::Transfer(p) => transfer_progress_line(p),
    }
}

/// The `fetch` operation on one repository, as a function of what the
/// backend reported: it aborts exactly where the header report
/// aborts, then on a missing `origin` remote, keeps the streamed
/// pieces with the backend's message when the download failed, and
/// otherwise yields the streamed pieces in delivery order and the
/// summary line.
pub fn fetch_report(inp: &FetchInputs) -> (r: FetchReport)
    requires
        valid_name(inp.repository),
    ensures
        fetch_report_view(r) == fetch_outcome(*inp),
{
    if inp.is_bare {
        return FetchReport::BareRepository(render_bare_warning(&inp.repository));
    }
    match &inp.head {
        HeadState::Failed(m) => FetchReport::HeadFailed(m.clone()),
        _ => {
            let header = render_title(&inp.repository, &inp.head);
            if !inp.origin_found {
                return FetchReport::NoOrigin(header);
            }
            let mut pieces: Vec<String> = Vec::new();
            let mut idx: usize = 0;
            proof {
                assert(inp.events@.take(0) =~= Seq::<FetchEvent>::empty());
                assert(pieces@.map_values(|p: String| p@) =~= stream_pieces(
                    inp.events@.take(0),
                ));
            }
            while idx < inp.events.len()
                invariant
                    idx <= inp.events@.len(),
                    pieces@.map_values(|p: String| p@) == stream_pieces(
                        inp.events@.take(idx as int),
                    ),
                decreases inp.events@.len() - idx,
            {
                let piece = render_event(&inp.events[idx]);
                proof {
                    let post = inp.events@.take(idx as int + 1);
                    assert(post.drop_last() =~= inp.events@.take(idx as int));
                    assert(post.last() == inp.events@[idx as int]);
                }
                match piece {
                    Some(line) => {
                        pieces.push(line);
                    },
                    None => {},
                }
                proof {
                    assert(pieces@.map_values(|p: String| p@) =~= stream_pieces(
                        inp.events@.take(idx as int + 1),
                    ));
                }
                idx = idx + 1;
            }
            proof {
                assert(inp.events@.take(inp.events@.len() as int) =~= inp.events@);
            }
            match &inp.download_error {
                Some(m) => FetchReport::DownloadFailed(header, pieces, m.clone()),
                None => FetchReport::Completed(
                    header,
                    pieces,
                    fetch_summary_line(&inp.stats),
                ),
            }
        },
    }
}

/// The error a fetch report carries: none for a completed fetch, the
/// bare error for the warning, a missing-remote error when `origin`
/// is absent, and a backend error with its message for a HEAD or
/// download failure.
pub fn fetch_error(r: &FetchReport) -> (e: Option<OpError>)
    ensures
        r is Completed <==> e is None,
        r is BareRepository ==> (e matches Some(k) && k is BareRepository),
        r is NoOrigin ==> (e matches Some(k) && k is RemoteNotFound),
        r matches FetchReport::HeadFailed(m) ==> (e matches Some(k) && k matches
            OpError::Backend(b) && b@ == m@),
        r matches FetchReport::DownloadFailed(_, _, m) ==> (e matches Some(k) && k matches
            OpError::Backend(b) && b@ == m@),
{
    match r {
        FetchReport::BareRepository(_) => Some(OpError::BareRepository),
        FetchReport::HeadFailed(m) => Some(OpError::Backend(m.clone())),
        FetchReport::NoOrigin(_) => Some(OpError::RemoteNotFound),
        FetchReport::DownloadFailed(_, _, m) => Some(OpError::Backend(m.clone())),
        FetchReport::Completed(_, _, _) => None,
    }
}

/// Fetch each configured repository in declaration order.  Every
/// position's report is pinned by that repository's own inputs, so no
/// repository's failure disturbs another's report.
pub fn fetch_reports(all: &Vec<FetchInputs>) -> (r: Vec<FetchReport>)
    requires
        forall|i: int| 0 <= i < all@.len() ==> valid_name(#[trigger] all@[i].repository),
    ensures
        r@.len() == all@.len(),
        forall|i: int| 0 <= i < all@.len() ==> fetch_report_view(#[trigger] r@[i])
            == fetch_outcomes(all@)[i],
{
    let mut r: Vec<FetchReport> = Vec::new();
    let mut idx: usize = 0;
    while idx < all.len()
        invariant
            idx <= all@.len(),
            r@.len() == idx,
            forall|i: int| 0 <= i < all@.len() ==> valid_name(
                #[trigger] all@[i].repository,
            ),
            forall|i: int| 0 <= i < idx ==> fetch_report_view(#[trigger] r@[i])
                == fetch_outcome(all@[i]),
        decreases all@.len() - idx,
    {
        r.push(fetch_report(&all[idx]));
        idx = idx + 1;
    }
    r
}

} // verus!
