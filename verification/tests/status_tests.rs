use gat::codes::{classify, StatusFlags};
use gat::repo::Repository;
use gat::status::{render_status_line, status_lines, status_report, StatusEntry, StatusReport};
use gat::title::HeadState;

fn clean() -> StatusFlags {
    StatusFlags {
        index_new: false,
        index_modified: false,
        index_deleted: false,
        index_renamed: false,
        index_typechange: false,
        wt_new: false,
        wt_modified: false,
        wt_deleted: false,
        wt_renamed: false,
        wt_typechange: false,
        ignored: false,
    }
}

#[test]
fn nothing_changed_when_no_entries() {
    let lines = status_lines(&Vec::new());
    assert_eq!(lines.len(), 1);
    assert_eq!(lines[0], "Nothing changed in this repository");
}

#[test]
fn classification_is_deterministic() {
    let f = StatusFlags { index_new: true, wt_modified: true, ..clean() };
    assert_eq!(classify(&f), classify(&f));
    assert_eq!(classify(&f), ('A', 'M'));
}

#[test]
fn ignored_wins_over_everything() {
    let f = StatusFlags {
        index_new: true,
        index_modified: true,
        index_deleted: true,
        index_renamed: true,
        index_typechange: true,
        wt_new: true,
        wt_modified: true,
        wt_deleted: true,
        wt_renamed: true,
        wt_typechange: true,
        ignored: true,
    };
    assert_eq!(classify(&f), ('!', '!'));
    let g = StatusFlags { wt_modified: true, wt_deleted: true, ignored: true, ..clean() };
    assert_eq!(classify(&g), ('!', '!'));
}

#[test]
fn untracked_only_shows_double_question() {
    let f = StatusFlags { wt_new: true, ..clean() };
    assert_eq!(classify(&f), ('?', '?'));
}

#[test]
fn index_new_keeps_its_column_beside_untracked() {
    let f = StatusFlags { index_new: true, wt_new: true, ..clean() };
    assert_eq!(classify(&f), ('A', '?'));
}

#[test]
fn worktree_deleted_leaves_index_blank() {
    let f = StatusFlags { wt_deleted: true, ..clean() };
    assert_eq!(classify(&f), (' ', 'D'));
}

#[test]
fn staged_changes_leave_worktree_blank() {
    let f = StatusFlags { index_modified: true, ..clean() };
    assert_eq!(classify(&f), ('M', ' '));
    let g = StatusFlags { index_deleted: true, ..clean() };
    assert_eq!(classify(&g), ('D', ' '));
}

#[test]
fn first_matching_category_wins() {
    let f = StatusFlags {
        index_modified: true,
        index_deleted: true,
        index_typechange: true,
        wt_modified: true,
        wt_deleted: true,
        wt_renamed: true,
        ..clean()
    };
    assert_eq!(classify(&f), ('M', 'M'));
    let g = StatusFlags { wt_deleted: true, wt_renamed: true, wt_typechange: true, ..clean() };
    assert_eq!(classify(&g), (' ', 'D'));
}

#[test]
fn unmodified_renders_blank_columns() {
    assert_eq!(classify(&clean()), (' ', ' '));
}

#[test]
fn status_line_format() {
    let e = StatusEntry {
        path: Some("src/main.rs".to_string()),
        flags: StatusFlags { index_modified: true, wt_modified: true, ..clean() },
    };
    assert_eq!(render_status_line(&e), "  - MM  src/main.rs");
}

#[test]
fn missing_path_renders_placeholder() {
    let e = StatusEntry { path: None, flags: StatusFlags { wt_new: true, ..clean() } };
    assert_eq!(render_status_line(&e), "  - ??  None");
}

#[test]
fn status_lists_one_line_per_entry() {
    let entries = vec![
        StatusEntry {
            path: Some("a.txt".to_string()),
            flags: StatusFlags { index_new: true, ..clean() },
        },
        StatusEntry {
            path: Some("b.txt".to_string()),
            flags: StatusFlags { wt_typechange: true, ..clean() },
        },
    ];
    let lines = status_lines(&entries);
    assert_eq!(lines, vec!["  - A   a.txt".to_string(), "  -  T  b.txt".to_string()]);
}

#[test]
fn status_report_aborts_on_bare_repository() {
    let r = Repository {
        name: Some("demo".to_string()),
        location: "/tmp/demo".to_string(),
        description: None,
    };
    let entries = vec![StatusEntry {
        path: Some("a.txt".to_string()),
        flags: StatusFlags { index_new: true, ..clean() },
    }];
    match status_report(&r, true, &HeadState::Unborn, &entries) {
        StatusReport::BareRepository(w) => {
            assert_eq!(w, "demo: cannot use bare repository\nNo description - /tmp/demo\n");
        }
        _ => panic!("a bare repository must abort the status operation"),
    }
}

#[test]
fn status_report_propagates_head_failure() {
    let r = Repository {
        name: Some("demo".to_string()),
        location: "/tmp/demo".to_string(),
        description: None,
    };
    match status_report(&r, false, &HeadState::Failed("broken ref".to_string()), &Vec::new()) {
        StatusReport::HeadFailed(m) => assert_eq!(m, "broken ref"),
        _ => panic!("a HEAD failure must abort the status operation"),
    }
}

#[test]
fn status_report_lists_under_header() {
    let r = Repository {
        name: Some("demo".to_string()),
        location: "/tmp/demo".to_string(),
        description: Some("sample".to_string()),
    };
    let entries = vec![StatusEntry {
        path: Some("a.txt".to_string()),
        flags: StatusFlags { wt_new: true, ..clean() },
    }];
    match status_report(&r, false, &HeadState::Resolved(Some("main".to_string())), &entries) {
        StatusReport::Listed(header, lines) => {
            assert_eq!(header, "demo(main): /tmp/demo\nsample");
            assert_eq!(lines, vec!["  - ??  a.txt".to_string()]);
        }
        _ => panic!("a plain repository must list its changes"),
    }
}
