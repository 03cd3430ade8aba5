//! Tests for the text handling and the scroll-window computation.

use pager::scroll::clamp_scroll;
use pager::session::{App, UiState};
use pager::text::{count_newlines, split_lines};

#[test]
fn count_newlines_empty() {
    assert_eq!(count_newlines(""), 0);
}

#[test]
fn count_newlines_no_trailing_newline() {
    assert_eq!(count_newlines("hello"), 0);
    assert_eq!(count_newlines("a\nb"), 1);
}

#[test]
fn count_newlines_trailing_newline() {
    assert_eq!(count_newlines("a\nb\nc\n"), 3);
    assert_eq!(count_newlines("\n\n"), 2);
}

#[test]
fn split_lines_empty() {
    let lines = split_lines("");
    assert_eq!(lines.len(), 0);
}

#[test]
fn split_lines_basic() {
    let lines = split_lines("a\nb");
    assert_eq!(lines, vec!["a".to_string(), "b".to_string()]);
}

#[test]
fn split_lines_trailing_newline_dropped() {
    let lines = split_lines("a\nb\n");
    assert_eq!(lines, vec!["a".to_string(), "b".to_string()]);
}

#[test]
fn split_lines_lone_newline() {
    let lines = split_lines("\n");
    assert_eq!(lines, vec!["".to_string()]);
}

#[test]
fn clamp_small_file_is_zero() {
    assert_eq!(clamp_scroll(5, 10, 3), 0);
    assert_eq!(clamp_scroll(10, 10, 999), 0);
}

#[test]
fn clamp_large_file_bound() {
    assert_eq!(clamp_scroll(100, 20, 200), 82);
    assert_eq!(clamp_scroll(100, 20, 50), 50);
}

#[test]
fn clamp_edge_heights() {
    // An empty file never scrolls, even in a zero-height viewport.
    assert_eq!(clamp_scroll(0, 0, 7), 0);
    // A zero-height viewport must not underflow or divide by zero.
    assert_eq!(clamp_scroll(3, 0, 1), 1);
    assert_eq!(clamp_scroll(3, 0, 99), 5);
}

#[test]
fn prompt_labels() {
    assert_eq!(pager::session::prompt_string(&UiState::Main), "");
    assert_eq!(
        pager::session::prompt_string(&UiState::FilePrompt),
        "ENTER FILENAME: "
    );
    assert_eq!(
        pager::session::prompt_string(&UiState::SearchPrompt),
        "SEARCH STRING: "
    );
}

#[test]
fn new_session_initial_state() {
    let app = App::new("notes.txt".to_string(), "one\ntwo\nthree".to_string());
    assert_eq!(app.filename, "notes.txt");
    assert_eq!(app.content, "one\ntwo\nthree");
    assert_eq!(app.lines, 2);
    assert_eq!(app.cur, 0);
    assert_eq!(app.state, UiState::Main);
    assert_eq!(app.tmpbuf, "");
    assert_eq!(app.search, "");
}

#[test]
fn compose_view_slices_from_offset() {
    let mut app = App::new("f".to_string(), "a\nb\nc".to_string());
    app.cur = 1;
    let vm = app.compose_view(1);
    // lines = 2, height = 1: max offset is 2 - 1 + 2 = 3, so the request 1
    // stands, and the visible slice starts at the second line.
    assert_eq!(app.cur, 1);
    assert_eq!(vm.visible, vec!["b".to_string(), "c".to_string()]);
    assert_eq!(vm.help, "Quit=q/Esq , Scroll=Up/Down , OpenFile:o , Search:s");
    assert_eq!(vm.log, "<log text goes here>");
}

#[test]
fn compose_view_writes_back_clamped_offset() {
    let mut app = App::new("f".to_string(), "a\nb\nc\nd\ne\n".to_string());
    app.cur = 42;
    let vm = app.compose_view(10);
    // 5 lines in a 10-row viewport: the whole file fits, offset snaps to 0.
    assert_eq!(app.cur, 0);
    assert_eq!(
        vm.visible,
        vec![
            "a".to_string(),
            "b".to_string(),
            "c".to_string(),
            "d".to_string(),
            "e".to_string()
        ]
    );
}

#[test]
fn compose_view_offset_past_last_line() {
    let mut app = App::new("f".to_string(), "a\nb\nc".to_string());
    app.cur = 9;
    let vm = app.compose_view(1);
    // lines = 2, height = 1: the offset clamps to 2 - 1 + 2 = 3, which lies
    // past the last of the three lines, so nothing is visible.
    assert_eq!(app.cur, 3);
    assert_eq!(vm.visible, Vec::<String>::new());
}

#[test]
fn compose_view_empty_file() {
    let mut app = App::new("f".to_string(), "".to_string());
    app.cur = 5;
    let vm = app.compose_view(0);
    assert_eq!(app.cur, 0);
    assert_eq!(vm.visible, Vec::<String>::new());
}
