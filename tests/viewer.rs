use mdview::paths::{is_markdown_extension, is_markdown_path, shown_name, title_for};
use mdview::scale::{scale_down, scale_up, DEFAULT_SCALE, MAX_SCALE, MIN_SCALE};
use mdview::tabs::{AppState, DocTab};

fn open(state: &mut AppState, path: &str, read: Result<&str, &str>, now: u64) {
    if state.admit_path(path) {
        let read = read.map(|c| c.to_string()).map_err(|e| e.to_string());
        state.add_document(path.to_string(), read, now);
    }
}

fn state_with(paths: &[&str]) -> AppState {
    let mut s = AppState::new();
    for (i, p) in paths.iter().enumerate() {
        open(&mut s, p, Ok(&format!("content of {p}")), i as u64);
    }
    s
}

#[test]
fn new_state_is_empty_and_ready() {
    let s = AppState::new();
    assert_eq!(s.tab_count(), 0);
    assert_eq!(s.active_index(), 0);
    assert_eq!(s.status(), "Ready");
    assert_eq!(s.text_scale(), DEFAULT_SCALE);
    assert!(s.active_tab().is_none());
    assert!(s.active_path().is_none());
}

#[test]
fn open_markdown_and_skip_text_file() {
    let mut s = AppState::new();
    open(&mut s, "readme.md", Ok("# Hi"), 5);
    open(&mut s, "notes.txt", Ok("plain"), 6);
    assert_eq!(s.tab_count(), 1);
    assert_eq!(s.active_index(), 0);
    let t = s.active_tab().unwrap();
    assert_eq!(t.title, "readme.md");
    assert_eq!(t.content, "# Hi");
    assert_eq!(t.last_read, 5);
    assert!(s.status().contains("notes.txt"));
    assert_eq!(s.status(), "Skipped non-markdown file: notes.txt");
}

#[test]
fn close_before_active_shifts_index() {
    let mut s = state_with(&["a.md", "b.md"]);
    assert_eq!(s.active_index(), 1);
    s.close_tab(0);
    assert_eq!(s.tab_count(), 1);
    assert_eq!(s.active_index(), 0);
    assert_eq!(s.active_tab().unwrap().content, "content of b.md");
}

#[test]
fn close_sequences_keep_active_in_range() {
    let mut s = state_with(&["a.md", "b.md", "c.md", "d.md"]);
    s.select_tab(3);
    for idx in [3usize, 7, 0, 1, 0, 0, 0] {
        s.close_tab(idx);
        if s.tab_count() > 0 {
            assert!(s.active_index() < s.tab_count());
        } else {
            assert_eq!(s.active_index(), 0);
        }
    }
    assert_eq!(s.tab_count(), 0);
    assert!(s.active_tab().is_none());
}

#[test]
fn close_last_active_moves_to_new_last() {
    let mut s = state_with(&["a.md", "b.md", "c.md"]);
    s.close_tab(2);
    assert_eq!(s.active_index(), 1);
    assert_eq!(s.active_tab().unwrap().title, "b.md");
}

#[test]
fn close_out_of_range_is_noop() {
    let mut s = state_with(&["a.md"]);
    s.close_tab(1);
    assert_eq!(s.tab_count(), 1);
}

#[test]
fn select_valid_and_invalid() {
    let mut s = state_with(&["a.md", "b.md", "c.md"]);
    s.select_tab(0);
    assert_eq!(s.active_index(), 0);
    s.select_tab(3);
    assert_eq!(s.active_index(), 0);
    s.select_tab(2);
    assert_eq!(s.active_tab().unwrap().title, "c.md");
}

#[test]
fn batch_of_valid_files_appends_in_order() {
    let mut s = state_with(&["first.md"]);
    let batch = ["x.md", "docs/y.markdown", "z.MD"];
    for (i, p) in batch.iter().enumerate() {
        open(&mut s, p, Ok(p), 10 + i as u64);
    }
    assert_eq!(s.tab_count(), 4);
    assert_eq!(s.active_index(), 3);
    assert_eq!(s.tab(1).unwrap().title, "x.md");
    assert_eq!(s.tab(2).unwrap().title, "y.markdown");
    assert_eq!(s.tab(2).unwrap().path, "docs/y.markdown");
    assert_eq!(s.tab(3).unwrap().title, "z.MD");
    assert_eq!(s.status(), "Opened file");
    assert!(s.tab(4).is_none());
}

#[test]
fn mixed_batch_adds_only_markdown() {
    let mut s = AppState::new();
    open(&mut s, "a.md", Ok("A"), 1);
    open(&mut s, "b.txt", Ok("B"), 2);
    open(&mut s, "c.markdown", Ok("C"), 3);
    open(&mut s, "dir/d.rs", Ok("D"), 4);
    assert_eq!(s.tab_count(), 2);
    assert_eq!(s.tab(0).unwrap().content, "A");
    assert_eq!(s.tab(1).unwrap().content, "C");
    assert_eq!(s.active_index(), 1);
    assert_eq!(s.status(), "Skipped non-markdown file: d.rs");
}

#[test]
fn failed_read_adds_no_tab() {
    let mut s = state_with(&["a.md"]);
    open(&mut s, "missing.md", Err("No such file or directory (os error 2)"), 9);
    assert_eq!(s.tab_count(), 1);
    assert_eq!(s.active_index(), 0);
    assert_eq!(s.status(), "Failed to open: No such file or directory (os error 2)");
}

#[test]
fn same_file_twice_gives_two_tabs() {
    let s = state_with(&["a.md", "a.md"]);
    assert_eq!(s.tab_count(), 2);
    assert_eq!(s.tab(0).unwrap().path, s.tab(1).unwrap().path);
}

#[test]
fn reload_after_delete_keeps_content() {
    let mut s = state_with(&["a.md"]);
    s.reload_active(Err("not found".to_string()), 50);
    let t = s.active_tab().unwrap();
    assert_eq!(t.content, "content of a.md");
    assert_eq!(t.last_read, 0);
    assert_eq!(s.status(), "Reload failed: not found");
}

#[test]
fn reload_after_change_takes_new_content() {
    let mut s = state_with(&["a.md", "b.md"]);
    s.select_tab(0);
    assert_eq!(s.active_path().unwrap(), "a.md");
    s.reload_active(Ok("new text".to_string()), 77);
    let t = s.active_tab().unwrap();
    assert_eq!(t.content, "new text");
    assert_eq!(t.last_read, 77);
    assert!(t.last_read > 0);
    assert_eq!(t.title, "a.md");
    assert_eq!(s.tab(1).unwrap().content, "content of b.md");
    assert_eq!(s.status(), "Reloaded from disk");
}

#[test]
fn reload_without_tabs_is_noop() {
    let mut s = AppState::new();
    s.reload_active(Ok("x".to_string()), 1);
    assert_eq!(s.tab_count(), 0);
    assert_eq!(s.status(), "Ready");
}

#[test]
fn scale_steps_stay_in_bounds() {
    let mut s = AppState::new();
    for _ in 0..30 {
        s.increase_text_scale();
        assert!(s.text_scale() >= MIN_SCALE && s.text_scale() <= MAX_SCALE);
    }
    assert_eq!(s.text_scale(), MAX_SCALE);
    s.increase_text_scale();
    assert_eq!(s.text_scale(), MAX_SCALE);
    for _ in 0..40 {
        s.decrease_text_scale();
        assert!(s.text_scale() >= MIN_SCALE && s.text_scale() <= MAX_SCALE);
    }
    assert_eq!(s.text_scale(), MIN_SCALE);
    s.decrease_text_scale();
    assert_eq!(s.text_scale(), MIN_SCALE);
}

#[test]
fn scale_step_values() {
    assert_eq!(scale_up(1000), 1100);
    assert_eq!(scale_up(2900), 3000);
    assert_eq!(scale_up(2727), 2999);
    assert_eq!(scale_down(1000), 900);
    assert_eq!(scale_down(550), 500);
    assert_eq!(scale_down(560), 504);
}

#[test]
fn markdown_extension_check() {
    assert!(is_markdown_extension("md"));
    assert!(is_markdown_extension("markdown"));
    assert!(!is_markdown_extension("MD"));
    assert!(!is_markdown_extension("txt"));
    assert!(!is_markdown_extension(""));
}

#[test]
fn markdown_path_check_ignores_case() {
    assert!(is_markdown_path("notes/README.MD"));
    assert!(is_markdown_path("a.Markdown"));
    assert!(is_markdown_path("a.md"));
    assert!(!is_markdown_path("a.txt"));
    assert!(!is_markdown_path("md"));
    assert!(!is_markdown_path(".md"));
    assert!(!is_markdown_path("a.md.bak"));
}

#[test]
fn titles_and_shown_names() {
    assert_eq!(title_for("docs/guide.md"), "guide.md");
    assert_eq!(title_for("/"), "untitled.md");
    assert_eq!(shown_name("dir/notes.txt"), "notes.txt");
    assert_eq!(shown_name("/"), "");
}

#[test]
fn doc_tab_from_path_takes_file_name() {
    let t = DocTab::from_path("notes/today.markdown".to_string(), "body".to_string(), 42);
    assert_eq!(t.title, "today.markdown");
    assert_eq!(t.path, "notes/today.markdown");
    assert_eq!(t.content, "body");
    assert_eq!(t.last_read, 42);
}
