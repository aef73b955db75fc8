use gat::repo::Repository;
use gat::title::{
    branch_label, head_failure_message, pull, render_title, title_error, title_report,
    HeadState, OpError, TitleReport,
};

fn repo(name: Option<&str>, location: &str, description: Option<&str>) -> Repository {
    Repository {
        name: name.map(|s| s.to_string()),
        location: location.to_string(),
        description: description.map(|s| s.to_string()),
    }
}

#[test]
fn derived_name_is_final_path_segment() {
    let r = repo(None, "/home/u/projects/foo", None);
    assert_eq!(r.name(), "foo");
}

#[test]
fn explicit_name_wins_over_location() {
    let r = repo(Some("bar"), "/home/u/projects/foo", None);
    assert_eq!(r.name(), "bar");
}

#[test]
fn derived_name_ignores_trailing_slashes() {
    let r = repo(None, "/home/u/projects/foo//", None);
    assert_eq!(r.name(), "foo");
}

#[test]
fn derived_name_of_bare_segment() {
    let r = repo(None, "foo", None);
    assert_eq!(r.name(), "foo");
}

#[test]
fn title_line_layout() {
    let r = repo(Some("demo"), "/tmp/demo", Some("a demo"));
    let s = render_title(&r, &HeadState::Resolved(Some("main".to_string())));
    assert_eq!(s, "demo(main): /tmp/demo\na demo");
}

#[test]
fn unborn_head_shows_no_branch() {
    let r = repo(Some("demo"), "/tmp/demo", None);
    assert_eq!(branch_label(&HeadState::Unborn), "no branch");
    let s = render_title(&r, &HeadState::Unborn);
    assert_eq!(s, "demo(no branch): /tmp/demo\nNo description");
}

#[test]
fn unreadable_branch_name_shows_no_branch() {
    assert_eq!(branch_label(&HeadState::Resolved(None)), "no branch");
}

#[test]
fn bare_repository_is_rejected_for_title() {
    let r = repo(Some("demo"), "/tmp/demo", Some("a demo"));
    let t = title_report(&r, true, &HeadState::Resolved(Some("main".to_string())));
    match &t {
        TitleReport::BareWarning(w) => {
            assert_eq!(w, "demo: cannot use bare repository\na demo - /tmp/demo\n");
        }
        _ => panic!("a bare repository must produce the warning"),
    }
    assert!(matches!(title_error(&t), Some(OpError::BareRepository)));
}

#[test]
fn head_failure_aborts_title() {
    let r = repo(Some("demo"), "/tmp/demo", None);
    let t = title_report(&r, false, &HeadState::Failed("object store corrupt".to_string()));
    match &t {
        TitleReport::HeadFailure(m) => assert_eq!(m, "object store corrupt"),
        _ => panic!("a HEAD failure must abort the title report"),
    }
    match title_error(&t) {
        Some(OpError::Backend(m)) => assert_eq!(m, "object store corrupt"),
        _ => panic!("a HEAD failure must surface as a backend error"),
    }
    assert_eq!(
        head_failure_message("object store corrupt"),
        "can't get HEAD: object store corrupt"
    );
}

#[test]
fn successful_title_carries_no_error() {
    let r = repo(Some("demo"), "/tmp/demo", None);
    let t = title_report(&r, false, &HeadState::Unborn);
    match &t {
        TitleReport::Header(h) => assert_eq!(h, "demo(no branch): /tmp/demo\nNo description"),
        _ => panic!("a plain repository must produce the header"),
    }
    assert!(title_error(&t).is_none());
}

#[test]
fn pull_reports_title_only() {
    let r = repo(None, "/srv/git/tools", Some("shared tools"));
    let t = pull(&r, false, &HeadState::Resolved(Some("work".to_string())));
    match t {
        TitleReport::Header(h) => assert_eq!(h, "tools(work): /srv/git/tools\nshared tools"),
        _ => panic!("pull must succeed with the header alone"),
    }
}

#[test]
fn pull_rejects_bare_repository() {
    let r = repo(Some("demo"), "/tmp/demo", None);
    assert!(matches!(
        pull(&r, true, &HeadState::Unborn),
        TitleReport::BareWarning(_)
    ));
}
