use viewer_app::decimal::to_decimal;
use viewer_app::recents::MAX_RECENTS;
use viewer_app::state::{push_recent, recents_count, recents_model, AppState};
use viewer_app::text::{
    display_basename, display_name, folder_status, image_error_status, image_status,
    number_lines, numbered_lines, text_status,
};
use viewer_app::viewer::{
    neighbor_query, open_path, ready_status, toggle_recents, toggle_theme, FileKind, Loaded,
    Pane,
};

fn s(x: &str) -> String {
    x.to_string()
}

fn strings(v: &[&str]) -> Vec<String> {
    v.iter().map(|x| x.to_string()).collect()
}

#[test]
fn decimal_notation() {
    assert_eq!(to_decimal(0), "0");
    assert_eq!(to_decimal(7), "7");
    assert_eq!(to_decimal(305), "305");
    assert_eq!(to_decimal(u64::MAX), "18446744073709551615");
}

#[test]
fn push_recent_appends_new_paths() {
    let mut st = AppState::new();
    push_recent(&mut st, &s("/a"));
    push_recent(&mut st, &s("/b"));
    assert_eq!(st.recents(), &strings(&["/a", "/b"]));
    assert_eq!(st.current_path(), None);
}

#[test]
fn push_recent_moves_existing_path_to_end() {
    let mut st = AppState::new();
    for p in ["/a", "/b", "/c"] {
        push_recent(&mut st, &s(p));
    }
    push_recent(&mut st, &s("/a"));
    assert_eq!(st.recents(), &strings(&["/b", "/c", "/a"]));
}

#[test]
fn push_recent_same_path_twice_keeps_one() {
    let mut st = AppState::new();
    push_recent(&mut st, &s("/a"));
    push_recent(&mut st, &s("/a"));
    assert_eq!(st.recents(), &strings(&["/a"]));
}

#[test]
fn push_recent_drops_oldest_beyond_capacity() {
    let mut st = AppState::new();
    for i in 0..12 {
        push_recent(&mut st, &format!("/f{}", i));
    }
    assert_eq!(st.recents().len(), MAX_RECENTS);
    let expected: Vec<String> = (2..12).map(|i| format!("/f{}", i)).collect();
    assert_eq!(st.recents(), &expected);
}

#[test]
fn restore_keeps_well_formed_list() {
    let mut st = AppState::new();
    let saved = strings(&["/x", "/y", "/z"]);
    st.restore_recents(&saved);
    assert_eq!(st.recents(), &saved);
}

#[test]
fn restore_normalises_duplicates_and_overflow() {
    let mut st = AppState::new();
    st.restore_recents(&strings(&["/x", "/y", "/x"]));
    assert_eq!(st.recents(), &strings(&["/y", "/x"]));
    let long: Vec<String> = (0..15).map(|i| format!("/g{}", i)).collect();
    st.restore_recents(&long);
    assert_eq!(st.recents(), &long[5..].to_vec());
}

#[test]
fn recents_model_is_most_recent_first() {
    let mut st = AppState::new();
    assert_eq!(recents_count(&st), 0);
    assert!(recents_model(&st).is_empty());
    for p in ["/a", "/b", "/c"] {
        push_recent(&mut st, &s(p));
    }
    assert_eq!(recents_model(&st), strings(&["/c", "/b", "/a"]));
    assert_eq!(recents_count(&st), 3);
}

#[test]
fn basename_of_paths() {
    assert_eq!(display_basename(&s("/home/u/notes.txt")), "notes.txt");
    assert_eq!(display_basename(&s("pic.png")), "pic.png");
    assert_eq!(display_basename(&s("/")), "/");
    assert_eq!(display_basename(&s("dir/..")), "dir/..");
    assert_eq!(display_name(Some(s("n")), &s("/p/n")), "n");
    assert_eq!(display_name(None, &s("/")), "/");
}

#[test]
fn status_lines() {
    assert_eq!(image_status(&s("a.png"), 640, 480), "Image: a.png (640x480)");
    assert_eq!(text_status(&s("m.rs"), 12, false), "Text: m.rs (12 lines)");
    assert_eq!(text_status(&s("m.rs"), 1, true), "Text: m.rs (1 lines, UTF-8 (lossy))");
    assert_eq!(image_error_status(&s("bad header")), "Error loading image: bad header");
    assert_eq!(folder_status(&s("/home/u")), "Folder: /home/u");
    assert_eq!(ready_status(), "Ready");
}

#[test]
fn lines_are_numbered_from_one() {
    let r = numbered_lines(&s("alpha\nbeta\r\ngamma\n"));
    assert_eq!(r.len(), 3);
    assert_eq!(r[0].line_no, "1");
    assert_eq!(r[0].text, "alpha");
    assert_eq!(r[1].text, "beta");
    assert_eq!(r[2].line_no, "3");
    assert_eq!(r[2].text, "gamma");
    assert!(numbered_lines(&s("")).is_empty());
    let n = number_lines(strings(&["x"; 11]));
    assert_eq!(n[10].line_no, "11");
}

#[test]
fn open_image_updates_state() {
    let mut st = AppState::new();
    let r = open_path(&mut st, &s("/pics/cat.png"), &Loaded::Image { width: 3, height: 2 });
    assert_eq!(r.status, "Image: cat.png (3x2)");
    assert_eq!(r.pane, Pane::Image);
    assert!(r.recents_changed);
    assert_eq!(st.current_path(), Some(s("/pics/cat.png")));
    assert_eq!(st.recents(), &strings(&["/pics/cat.png"]));
}

#[test]
fn open_text_updates_state() {
    let mut st = AppState::new();
    let r = open_path(&mut st, &s("/src/lib.rs"), &Loaded::Text { line_count: 40, lossy: true });
    assert_eq!(r.status, "Text: lib.rs (40 lines, UTF-8 (lossy))");
    assert_eq!(r.pane, Pane::Text);
    assert!(r.recents_changed);
    assert_eq!(st.current_path(), Some(s("/src/lib.rs")));
}

#[test]
fn failed_open_leaves_state() {
    let mut st = AppState::new();
    open_path(&mut st, &s("/a.txt"), &Loaded::Text { line_count: 1, lossy: false });
    let r = open_path(&mut st, &s("/b.png"), &Loaded::ImageFailed { message: s("truncated") });
    assert_eq!(r.status, "Error loading image: truncated");
    assert_eq!(r.pane, Pane::Unchanged);
    assert!(!r.recents_changed);
    let r = open_path(&mut st, &s("/c.bin"), &Loaded::Unsupported);
    assert_eq!(r.status, "Unsupported file type");
    assert_eq!(r.pane, Pane::Unchanged);
    assert_eq!(st.current_path(), Some(s("/a.txt")));
    assert_eq!(st.recents(), &strings(&["/a.txt"]));
}

#[test]
fn neighbor_needs_current_file() {
    let mut st = AppState::new();
    assert!(neighbor_query(&st, true, true).is_none());
    open_path(&mut st, &s("/d/a.png"), &Loaded::Image { width: 1, height: 1 });
    let q = neighbor_query(&st, true, false).unwrap();
    assert_eq!(q.path, "/d/a.png");
    assert_eq!(q.kind, FileKind::Image);
    assert!(!q.forward);
    let q = neighbor_query(&st, false, true).unwrap();
    assert_eq!(q.kind, FileKind::Text);
    assert!(q.forward);
}

#[test]
fn theme_toggle() {
    let t = toggle_theme(false);
    assert!(t.dark);
    assert_eq!(t.status, "Theme: Dark");
    let t = toggle_theme(true);
    assert!(!t.dark);
    assert_eq!(t.status, "Theme: Light");
}

#[test]
fn recents_toggle_hint() {
    let t = toggle_recents(false, 0);
    assert!(t.show);
    assert_eq!(t.status, Some(s("No recent files")));
    let t = toggle_recents(false, 2);
    assert!(t.show);
    assert_eq!(t.status, None);
    let t = toggle_recents(true, 0);
    assert!(!t.show);
    assert_eq!(t.status, None);
}
