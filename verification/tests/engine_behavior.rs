use egui_material::cursor::CursorSpan;
use egui_material::engine::{
    mask_if_password, process_events, EngineOptions, PASSWORD_REPLACEMENT_CHAR,
};
use egui_material::events::{HostOs, ImeEvent, Key, KeyCombo, Modifiers, TextEvent};
use egui_material::state::TextEditState;

fn chars(s: &str) -> Vec<char> {
    s.chars().collect()
}

fn string(v: &Vec<char>) -> String {
    v.iter().collect()
}

fn options() -> EngineOptions {
    EngineOptions {
        multiline: false,
        password: false,
        char_limit: usize::MAX,
        os: HostOs::Other,
        return_key: Some(KeyCombo { key: Key::Enter, modifiers: Modifiers::default() }),
    }
}

fn key(k: Key) -> TextEvent {
    TextEvent::Key { key: k, modifiers: Modifiers::default(), repeat: false }
}

fn key_with(k: Key, modifiers: Modifiers) -> TextEvent {
    TextEvent::Key { key: k, modifiers, repeat: false }
}

fn command() -> Modifiers {
    Modifiers { command: true, ..Modifiers::default() }
}

fn state_with_cursor(primary: usize, secondary: usize) -> TextEditState {
    let mut state = TextEditState::new();
    state.cursor = Some(CursorSpan { primary, secondary });
    state
}

#[test]
fn typing_inserts_at_caret() {
    let mut state = state_with_cursor(2, 2);
    let mut text = chars("abef");
    let out = process_events(
        &mut state,
        &mut text,
        vec![TextEvent::Text(chars("cd"))],
        0,
        &options(),
    );
    assert_eq!(string(&text), "abcdef");
    assert!(out.changed);
    assert_eq!(out.cursor, CursorSpan { primary: 4, secondary: 4 });
}

#[test]
fn typing_replaces_selection() {
    let mut state = state_with_cursor(4, 1);
    let mut text = chars("abcdef");
    let out = process_events(
        &mut state,
        &mut text,
        vec![TextEvent::Text(chars("X"))],
        0,
        &options(),
    );
    assert_eq!(string(&text), "aXef");
    assert_eq!(out.cursor, CursorSpan { primary: 2, secondary: 2 });
}

#[test]
fn navigation_only_leaves_buffer_unchanged() {
    let mut state = state_with_cursor(3, 3);
    let mut text = chars("ab cd ef");
    let events = vec![
        key(Key::ArrowLeft),
        key(Key::ArrowRight),
        key(Key::Home),
        key(Key::End),
        key(Key::ArrowLeft),
        key_with(Key::A, command()),
    ];
    let out = process_events(&mut state, &mut text, events, 0, &options());
    assert_eq!(string(&text), "ab cd ef");
    assert!(!out.changed);
    assert!(!out.surrender_focus);
}

#[test]
fn select_all_spans_whole_buffer() {
    let mut state = state_with_cursor(2, 2);
    let mut text = chars("abcd");
    let out = process_events(
        &mut state,
        &mut text,
        vec![key_with(Key::A, command())],
        0,
        &options(),
    );
    assert_eq!(out.cursor, CursorSpan { primary: 4, secondary: 0 });
}

#[test]
fn arrow_collapses_selection_to_edge() {
    let mut state = state_with_cursor(4, 1);
    let mut text = chars("abcdef");
    let out = process_events(&mut state, &mut text, vec![key(Key::ArrowLeft)], 0, &options());
    assert_eq!(out.cursor, CursorSpan { primary: 1, secondary: 1 });
}

#[test]
fn word_jump_with_ctrl() {
    let mut state = state_with_cursor(7, 7);
    let mut text = chars("foo bar");
    let ctrl = Modifiers { ctrl: true, command: true, ..Modifiers::default() };
    let out = process_events(
        &mut state,
        &mut text,
        vec![key_with(Key::ArrowLeft, ctrl)],
        0,
        &options(),
    );
    assert_eq!(out.cursor, CursorSpan { primary: 4, secondary: 4 });
    assert_eq!(string(&text), "foo bar");
}

#[test]
fn cut_then_paste_restores_buffer() {
    let mut state = state_with_cursor(5, 2);
    let mut text = chars("hello world");
    let out = process_events(&mut state, &mut text, vec![TextEvent::Cut], 0, &options());
    assert_eq!(string(&text), "he world");
    assert_eq!(out.cursor, CursorSpan { primary: 2, secondary: 2 });
    let clip = out.clipboard.expect("cut places the selection on the clipboard");
    assert_eq!(string(&clip), "llo");

    let out2 = process_events(&mut state, &mut text, vec![TextEvent::Paste(clip)], 1, &options());
    assert_eq!(string(&text), "hello world");
    assert_eq!(out2.cursor, CursorSpan { primary: 5, secondary: 5 });
}

#[test]
fn copy_without_selection_writes_nothing() {
    let mut state = state_with_cursor(3, 3);
    let mut text = chars("abc");
    let out = process_events(&mut state, &mut text, vec![TextEvent::Copy], 0, &options());
    assert!(out.clipboard.is_none());
    assert!(!out.changed);
}

#[test]
fn paste_past_limit_fills_to_exactly_the_limit() {
    let mut opts = options();
    opts.char_limit = 10;
    let mut state = state_with_cursor(8, 8);
    let mut text = chars("12345678");
    let out = process_events(
        &mut state,
        &mut text,
        vec![TextEvent::Paste(chars("abcdef"))],
        0,
        &opts,
    );
    assert_eq!(text.len(), 10);
    assert_eq!(string(&text), "12345678ab");
    assert!(out.changed);
}

#[test]
fn undo_restores_pre_edit_state_and_redo_returns() {
    let opts = options();
    let mut state = state_with_cursor(2, 2);
    let mut text = chars("ab");

    let out1 = process_events(
        &mut state,
        &mut text,
        vec![TextEvent::Text(chars("x"))],
        0,
        &opts,
    );
    assert_eq!(string(&text), "abx");
    assert!(out1.changed);

    // The edit has been stable past the coalescing window by the next frame.
    let out2 = process_events(
        &mut state,
        &mut text,
        vec![key_with(Key::Z, command())],
        2000,
        &opts,
    );
    assert_eq!(string(&text), "ab");
    assert!(out2.changed);
    assert_eq!(out2.cursor, CursorSpan { primary: 2, secondary: 2 });

    let out3 = process_events(
        &mut state,
        &mut text,
        vec![key_with(Key::Y, command())],
        2100,
        &opts,
    );
    assert_eq!(string(&text), "abx");
    assert!(out3.changed);
    assert_eq!(out3.cursor, CursorSpan { primary: 3, secondary: 3 });
}

#[test]
fn quick_undo_before_stability_still_restores() {
    let opts = options();
    let mut state = state_with_cursor(2, 2);
    let mut text = chars("ab");
    process_events(&mut state, &mut text, vec![TextEvent::Text(chars("x"))], 0, &opts);
    // Undo arrives before the stable window has elapsed.
    let out = process_events(
        &mut state,
        &mut text,
        vec![key_with(Key::Z, command())],
        100,
        &opts,
    );
    assert_eq!(string(&text), "ab");
    assert!(out.changed);
}

#[test]
fn new_edit_after_undo_makes_redo_a_noop() {
    let opts = options();
    let mut state = state_with_cursor(2, 2);
    let mut text = chars("ab");
    process_events(&mut state, &mut text, vec![TextEvent::Text(chars("x"))], 0, &opts);
    process_events(&mut state, &mut text, vec![key_with(Key::Z, command())], 2000, &opts);
    assert_eq!(string(&text), "ab");
    // A different edit invalidates the redo stack.
    process_events(&mut state, &mut text, vec![TextEvent::Text(chars("q"))], 4000, &opts);
    assert_eq!(string(&text), "abq");
    let out = process_events(
        &mut state,
        &mut text,
        vec![key_with(Key::Y, command())],
        6000,
        &opts,
    );
    assert_eq!(string(&text), "abq");
    assert!(!out.changed);
}

#[test]
fn undo_with_empty_history_is_noop() {
    let opts = options();
    let mut state = state_with_cursor(2, 2);
    let mut text = chars("ab");
    let out = process_events(
        &mut state,
        &mut text,
        vec![key_with(Key::Z, command())],
        0,
        &opts,
    );
    assert_eq!(string(&text), "ab");
    assert!(!out.changed);
}

#[test]
fn password_masking_replaces_every_character() {
    let text = chars("secret");
    let shown = mask_if_password(true, &text);
    assert_eq!(shown.len(), 6);
    assert!(shown.iter().all(|c| *c == PASSWORD_REPLACEMENT_CHAR));
    assert_eq!(string(&text), "secret");
    let plain = mask_if_password(false, &text);
    assert_eq!(string(&plain), "secret");
}

#[test]
fn password_mode_never_writes_the_clipboard() {
    let mut opts = options();
    opts.password = true;
    let mut state = state_with_cursor(6, 0);
    let mut text = chars("secret");
    let out = process_events(&mut state, &mut text, vec![TextEvent::Copy], 0, &opts);
    assert!(out.clipboard.is_none());
    assert_eq!(string(&text), "secret");

    let mut state2 = state_with_cursor(6, 0);
    let out2 = process_events(&mut state2, &mut text, vec![TextEvent::Cut], 0, &opts);
    assert!(out2.clipboard.is_none());
    assert_eq!(string(&text), "");
    assert!(out2.changed);
}

#[test]
fn ime_composition_replaces_preedit_and_commits() {
    let opts = options();
    let mut state = state_with_cursor(3, 3);
    let mut text = chars("abcdef");

    process_events(&mut state, &mut text, vec![TextEvent::Ime(ImeEvent::Enabled)], 0, &opts);
    assert!(state.ime_enabled);

    let out1 = process_events(
        &mut state,
        &mut text,
        vec![TextEvent::Ime(ImeEvent::Preedit(chars("X")))],
        10,
        &opts,
    );
    assert_eq!(string(&text), "abcXdef");
    assert_eq!(out1.cursor, CursorSpan { primary: 4, secondary: 3 });

    let out2 = process_events(
        &mut state,
        &mut text,
        vec![TextEvent::Ime(ImeEvent::Preedit(chars("XY")))],
        20,
        &opts,
    );
    assert_eq!(string(&text), "abcXYdef");
    assert_eq!(out2.cursor, CursorSpan { primary: 5, secondary: 3 });

    let out3 = process_events(
        &mut state,
        &mut text,
        vec![TextEvent::Ime(ImeEvent::Commit(chars("Z")))],
        30,
        &opts,
    );
    assert_eq!(string(&text), "abcZdef");
    assert_eq!(out3.cursor, CursorSpan { primary: 4, secondary: 4 });
    assert!(!state.ime_enabled);
}

#[test]
fn ime_commit_with_diverged_selection_discards_text() {
    let opts = options();
    let mut state = state_with_cursor(3, 3);
    let mut text = chars("abcdef");
    process_events(&mut state, &mut text, vec![TextEvent::Ime(ImeEvent::Enabled)], 0, &opts);
    // The selection anchor moves through another channel mid-composition.
    state.cursor = Some(CursorSpan { primary: 1, secondary: 1 });
    let out = process_events(
        &mut state,
        &mut text,
        vec![TextEvent::Ime(ImeEvent::Commit(chars("Z")))],
        10,
        &opts,
    );
    assert_eq!(string(&text), "abcdef");
    assert_eq!(out.cursor, CursorSpan { primary: 1, secondary: 1 });
}

#[test]
fn open_composition_drops_incompatible_keys_and_goes_first() {
    let opts = options();
    let mut state = state_with_cursor(3, 3);
    let mut text = chars("abcdef");
    process_events(&mut state, &mut text, vec![TextEvent::Ime(ImeEvent::Enabled)], 0, &opts);
    // Backspace would corrupt the composition: it is dropped, and the
    // composition event is handled first.
    let out = process_events(
        &mut state,
        &mut text,
        vec![key(Key::Backspace), TextEvent::Ime(ImeEvent::Preedit(chars("X")))],
        10,
        &opts,
    );
    assert_eq!(string(&text), "abcXdef");
    assert_eq!(out.cursor, CursorSpan { primary: 4, secondary: 3 });
}

#[test]
fn single_line_submit_stops_the_batch_and_surrenders_focus() {
    let opts = options();
    let mut state = state_with_cursor(3, 3);
    let mut text = chars("abc");
    let out = process_events(
        &mut state,
        &mut text,
        vec![key(Key::Enter), TextEvent::Text(chars("x"))],
        0,
        &opts,
    );
    assert_eq!(string(&text), "abc");
    assert!(!out.changed);
    assert!(out.surrender_focus);
}

#[test]
fn multiline_enter_inserts_newline() {
    let mut opts = options();
    opts.multiline = true;
    let mut state = state_with_cursor(2, 2);
    let mut text = chars("abcd");
    let out = process_events(&mut state, &mut text, vec![key(Key::Enter)], 0, &opts);
    assert_eq!(string(&text), "ab\ncd");
    assert!(out.changed);
    assert!(!out.surrender_focus);
}

#[test]
fn multiline_tab_inserts_tab_and_shift_tab_dedents() {
    let mut opts = options();
    opts.multiline = true;
    let mut state = state_with_cursor(0, 0);
    let mut text = chars("ab");
    process_events(&mut state, &mut text, vec![key(Key::Tab)], 0, &opts);
    assert_eq!(string(&text), "\tab");

    let shift = Modifiers { shift: true, ..Modifiers::default() };
    let mut state2 = state_with_cursor(2, 2);
    let out = process_events(&mut state2, &mut text, vec![key_with(Key::Tab, shift)], 10, &opts);
    assert_eq!(string(&text), "ab");
    assert!(out.changed);
}

#[test]
fn backspace_removes_selection_or_previous_char() {
    let opts = options();
    let mut state = state_with_cursor(4, 1);
    let mut text = chars("abcdef");
    process_events(&mut state, &mut text, vec![key(Key::Backspace)], 0, &opts);
    assert_eq!(string(&text), "aef");

    let mut state2 = state_with_cursor(2, 2);
    process_events(&mut state2, &mut text, vec![key(Key::Backspace)], 10, &opts);
    assert_eq!(string(&text), "af");
}

#[test]
fn ctrl_backspace_deletes_previous_word() {
    let opts = options();
    let mut state = state_with_cursor(7, 7);
    let mut text = chars("foo bar");
    let ctrl = Modifiers { ctrl: true, command: true, ..Modifiers::default() };
    process_events(&mut state, &mut text, vec![key_with(Key::Backspace, ctrl)], 0, &opts);
    assert_eq!(string(&text), "foo ");
}

#[test]
fn shift_delete_on_windows_does_nothing() {
    let mut opts = options();
    opts.os = HostOs::Windows;
    let shift = Modifiers { shift: true, ..Modifiers::default() };
    let mut state = state_with_cursor(1, 1);
    let mut text = chars("abc");
    let out = process_events(&mut state, &mut text, vec![key_with(Key::Delete, shift)], 0, &opts);
    assert_eq!(string(&text), "abc");
    assert!(!out.changed);

    let mut opts2 = options();
    opts2.os = HostOs::Other;
    let mut state2 = state_with_cursor(1, 1);
    let out2 = process_events(
        &mut state2,
        &mut text,
        vec![key_with(Key::Delete, shift)],
        10,
        &opts2,
    );
    assert_eq!(string(&text), "ac");
    assert!(out2.changed);
}

#[test]
fn stored_cursor_is_clamped_to_the_buffer() {
    let opts = options();
    let mut state = state_with_cursor(10, 10);
    let mut text = chars("abc");
    let out = process_events(&mut state, &mut text, vec![key(Key::ArrowLeft)], 0, &opts);
    assert_eq!(out.cursor, CursorSpan { primary: 2, secondary: 2 });
}

#[test]
fn missing_cursor_defaults_to_end_of_buffer() {
    let opts = options();
    let mut state = TextEditState::new();
    let mut text = chars("abc");
    let out = process_events(
        &mut state,
        &mut text,
        vec![TextEvent::Text(chars("d"))],
        0,
        &opts,
    );
    assert_eq!(string(&text), "abcd");
    assert_eq!(out.cursor, CursorSpan { primary: 4, secondary: 4 });
}

#[test]
fn focus_change_closes_composition_and_collapses_selection() {
    let mut state = state_with_cursor(4, 1);
    state.ime_enabled = true;
    state.reset_ime_on_focus_change(false, true);
    assert!(!state.ime_enabled);
    assert_eq!(state.cursor, Some(CursorSpan { primary: 4, secondary: 4 }));
}
