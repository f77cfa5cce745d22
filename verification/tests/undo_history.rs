use egui_material::cursor::CursorSpan;
use egui_material::state::TextEditState;
use egui_material::undo::{Snapshot, Undoer};

fn snap(s: &str, caret: usize) -> Snapshot {
    Snapshot { cursor: CursorSpan { primary: caret, secondary: caret }, text: s.chars().collect() }
}

#[test]
fn first_feed_creates_an_undo_point() {
    let mut u = Undoer::new();
    let s0 = snap("ab", 2);
    assert!(!u.has_undo(&s0));
    u.feed_state(0, &s0);
    assert!(!u.has_undo(&s0));
    let s1 = snap("abc", 3);
    assert!(u.has_undo(&s1));
}

#[test]
fn stable_change_creates_an_undo_point_and_undo_returns_it() {
    let mut u = Undoer::new();
    let s0 = snap("ab", 2);
    let s1 = snap("abc", 3);
    u.feed_state(0, &s0);
    u.feed_state(100, &s1);
    // The state settles past the stable window.
    u.feed_state(2000, &s1);
    let restored = u.undo(&s1).expect("an undo point exists");
    assert_eq!(restored.text, s0.text);
    assert_eq!(restored.cursor, s0.cursor);
    assert!(u.has_redo(&restored));
    let redone = u.redo(&restored).expect("redo right after undo");
    assert_eq!(redone.text, s1.text);
}

#[test]
fn auto_save_interval_creates_a_point_while_changing() {
    let mut u = Undoer::with_settings(100, 1000, 5000);
    u.feed_state(0, &snap("a", 1));
    // The state keeps changing; no point forms until the interval elapses.
    u.feed_state(100, &snap("ab", 2));
    u.feed_state(200, &snap("abc", 3));
    assert!(u.is_in_flux());
    u.feed_state(6000, &snap("abcd", 4));
    let restored = u.undo(&snap("abcde", 5)).expect("the auto-saved point");
    assert_eq!(restored.text, snap("abcd", 4).text);
}

#[test]
fn capacity_drops_the_oldest_points() {
    let mut u = Undoer::with_settings(2, 1000, 30000);
    u.add_undo(&snap("a", 1));
    u.add_undo(&snap("ab", 2));
    u.add_undo(&snap("abc", 3));
    // Two points remain; undoing twice from the latest reaches "ab" only.
    let r1 = u.undo(&snap("abc", 3)).expect("first undo");
    assert_eq!(r1.text, snap("ab", 2).text);
    assert!(u.undo(&r1).is_none());
}

#[test]
fn redo_is_cleared_by_a_new_change() {
    let mut u = Undoer::new();
    u.feed_state(0, &snap("ab", 2));
    u.feed_state(100, &snap("abc", 3));
    u.feed_state(2000, &snap("abc", 3));
    let restored = u.undo(&snap("abc", 3)).expect("undo point");
    assert!(u.has_redo(&restored));
    // A different state invalidates the redo stack.
    u.feed_state(3000, &snap("abX", 3));
    assert!(u.redo(&snap("abX", 3)).is_none());
}

#[test]
fn state_exposes_and_replaces_its_undoer() {
    let mut state = TextEditState::new();
    let s0 = snap("ab", 2);
    assert!(!state.undoer().has_undo(&s0));

    let mut separate = Undoer::new();
    separate.add_undo(&s0);
    state.set_undoer(separate);
    assert!(state.undoer().has_undo(&snap("abc", 3)));

    state.clear_undoer();
    assert!(!state.undoer().has_undo(&snap("abc", 3)));
}
