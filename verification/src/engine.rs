//! The text-field editing engine: an ordered batch of input events is folded
//! over the buffer and the per-widget state, one mutation at most per event.
//!
//! Every step is specified by `spec_step`, a transition function over the
//! engine's mathematical state, and the whole frame by `spec_run`; the
//! executable engine is proved to follow them exactly.

use vstd::prelude::*;

use crate::buffer::{
    char_delete_back, char_delete_forward, delete_next_char, delete_next_word,
    delete_paragraph_after_cursor, delete_paragraph_before_cursor, delete_previous_char,
    delete_previous_word, delete_selected, decrease_indentation, indent_decrease, insert_text_at,
    insertion_result, inserted, kept_insertion, paragraph_delete_back, paragraph_delete_forward,
    removed, slice_chars,
    word_delete_back, word_delete_forward,
};
use crate::cursor::{cursor_on_key_press, nav_effect, nav_handles, CursorSpan};
use crate::events::{
    is_redo_shortcut, is_undo_shortcut, matches_logically, HostOs, ImeEvent, Key, KeyCombo,
    Modifiers, TextEvent,
};
use crate::state::TextEditState;
use crate::undo::{spec_feed, spec_redo, spec_undo, SnapView, Snapshot, UndoerModel};

verus! {

/// The glyph every character of a password field is shown as.
pub const PASSWORD_REPLACEMENT_CHAR: char = '\u{2022}';

/// A buffer of the same length with every character replaced by the password
/// glyph.
pub open spec fn masked(t: Seq<char>) -> Seq<char> {
    Seq::new(t.len(), |i: int| PASSWORD_REPLACEMENT_CHAR)
}

/// The text as it may be shown, reported or copied: masked character for
/// character in password mode, untouched otherwise. The buffer itself is
/// never masked.
pub fn mask_if_password(is_password: bool, text: &Vec<char>) -> (r: Vec<char>)
    ensures
        is_password ==> r@ == masked(text@),
        !is_password ==> r@ == text@,
        r@.len() == text@.len(),
{
    if is_password {
        let mut out: Vec<char> = Vec::new();
        let mut i: usize = 0;
        while i < text.len()
            invariant
                i <= text@.len(),
                out@.len() == i,
                forall|k: int| 0 <= k < i ==> out@[k] == PASSWORD_REPLACEMENT_CHAR,
            decreases text@.len() - i,
        {
            out.push(PASSWORD_REPLACEMENT_CHAR);
            i = i + 1;
        }
        proof {
            assert(out@ =~= masked(text@));
        }
        out
    } else {
        slice_chars(text, 0, text.len())
    }
}

/// How the engine is configured for one field.
#[derive(Clone, Copy, PartialEq, Eq, Structural, Debug)]
pub struct EngineOptions {
    /// Whether the field holds multiple lines; a single-line field submits
    /// on the return key instead of inserting a newline.
    pub multiline: bool,
    /// Password mode: the clipboard never receives the buffer's text.
    pub password: bool,
    /// Maximum number of characters the buffer may hold; `usize::MAX` for
    /// unbounded.
    pub char_limit: usize,
    /// The host platform family.
    pub os: HostOs,
    /// The submit key combination, if any.
    pub return_key: Option<KeyCombo>,
}

/// The engine's mathematical state: the buffer, the selection, the
/// composition session and the undo history.
pub struct EngineState {
    pub text: Seq<char>,
    pub cursor: CursorSpan,
    pub ime_enabled: bool,
    pub ime_cursor: CursorSpan,
    pub undoer: UndoerModel,
}

/// What one event does: the state after it, whether it mutated the text,
/// what it put on the clipboard, and whether it submitted a single-line
/// field.
pub struct StepResult {
    pub state: EngineState,
    pub mutated: bool,
    pub clipboard: Option<Seq<char>>,
    pub submit: bool,
}

/// The `(selection, text)` snapshot the undo history sees.
pub open spec fn snap_of(st: EngineState) -> SnapView {
    SnapView { cursor: st.cursor, text: st.text }
}

/// An event that left everything as it was.
pub open spec fn no_mutation(st: EngineState) -> StepResult {
    StepResult { state: st, mutated: false, clipboard: None, submit: false }
}

/// A buffer mutation: new text, caret collapsed or set by the event.
pub open spec fn mutation(st: EngineState, text: Seq<char>, cursor: CursorSpan) -> StepResult {
    StepResult {
        state: EngineState { text, cursor, ..st },
        mutated: true,
        clipboard: None,
        submit: false,
    }
}

/// A single newline or carriage return, which text and composition events
/// ignore; the return key handles newlines.
pub open spec fn is_newline_text(t: Seq<char>) -> bool {
    t == seq!['\n'] || t == seq!['\r']
}

/// Buffer and caret after deleting the selection and inserting `t` at the
/// resulting caret under the length limit.
pub open spec fn replaced(s: Seq<char>, cur: CursorSpan, t: Seq<char>, limit: usize) -> (Seq<char>,
    int,
) {
    let s1 = removed(s, cur.low(), cur.high());
    insertion_result(s1, cur.low(), t, limit)
}

/// Delete the selection, then insert `t` at the resulting caret under the
/// length limit; the caret collapses past the insertion.
pub open spec fn replace_selection(st: EngineState, t: Seq<char>, limit: usize) -> StepResult {
    let (s2, c2) = replaced(st.text, st.cursor, t, limit);
    mutation(st, s2, CursorSpan { primary: c2 as usize, secondary: c2 as usize })
}

/// What a mutating key press does to the buffer, if anything: backspace and
/// delete act on the selection, by word with alt or control, by paragraph
/// with the Mac command key; control-H, -K, -U and -W are the usual kill
/// shortcuts. On Windows, shift-delete is reserved for cut and does nothing
/// here.
pub open spec fn mutating_key_result(
    os: HostOs,
    s: Seq<char>,
    cur: CursorSpan,
    m: Modifiers,
    key: Key,
) -> Option<(Seq<char>, int)> {
    if key == Key::Backspace {
        Some(
            if m.mac_cmd {
                paragraph_delete_back(s, cur.low(), cur.high())
            } else if cur.spec_is_empty() {
                if m.alt || m.ctrl {
                    word_delete_back(s, cur.primary as int)
                } else {
                    char_delete_back(s, cur.primary as int)
                }
            } else {
                (removed(s, cur.low(), cur.high()), cur.low())
            },
        )
    } else if key == Key::Delete && !(m.shift && os == HostOs::Windows) {
        Some(
            if m.mac_cmd {
                paragraph_delete_forward(s, cur.low(), cur.high())
            } else if cur.spec_is_empty() {
                if m.alt || m.ctrl {
                    word_delete_forward(s, cur.primary as int)
                } else {
                    char_delete_forward(s, cur.primary as int)
                }
            } else {
                (removed(s, cur.low(), cur.high()), cur.low())
            },
        )
    } else if key == Key::H && m.ctrl {
        Some(char_delete_back(s, cur.primary as int))
    } else if key == Key::K && m.ctrl {
        Some(paragraph_delete_forward(s, cur.low(), cur.high()))
    } else if key == Key::U && m.ctrl {
        Some(paragraph_delete_back(s, cur.low(), cur.high()))
    } else if key == Key::W && m.ctrl {
        Some(
            if cur.spec_is_empty() {
                word_delete_back(s, cur.primary as int)
            } else {
                (removed(s, cur.low(), cur.high()), cur.low())
            },
        )
    } else {
        None
    }
}

/// Whether this key press is the configured submit combination.
pub open spec fn submit_key_matches(opts: EngineOptions, key: Key, m: Modifiers) -> bool {
    match opts.return_key {
        Some(rk) => key == rk.key && matches_logically(m, rk.modifiers),
        None => false,
    }
}

/// What one key press does, checked in the engine's fixed order: cursor
/// movement, tab handling, the submit key, redo, undo, then the mutating
/// keys.
pub open spec fn spec_step_key(opts: EngineOptions, st: EngineState, key: Key, m: Modifiers) -> StepResult {
    if nav_handles(st.cursor, opts.os, m, key) {
        no_mutation(
            EngineState { cursor: nav_effect(st.text, st.cursor, opts.os, m, key), ..st },
        )
    } else if key == Key::Tab && opts.multiline {
        let s1 = removed(st.text, st.cursor.low(), st.cursor.high());
        if m.shift {
            let (s2, c2) = indent_decrease(s1, st.cursor.low());
            mutation(st, s2, CursorSpan { primary: c2 as usize, secondary: c2 as usize })
        } else {
            let (s2, c2) = insertion_result(s1, st.cursor.low(), seq!['\t'], opts.char_limit);
            mutation(st, s2, CursorSpan { primary: c2 as usize, secondary: c2 as usize })
        }
    } else if submit_key_matches(opts, key, m) {
        if opts.multiline {
            replace_selection(st, seq!['\n'], opts.char_limit)
        } else {
            StepResult { state: st, mutated: false, clipboard: None, submit: true }
        }
    } else if is_redo_shortcut(key, m) {
        let (u2, r) = spec_redo(st.undoer, snap_of(st));
        match r {
            Some(snap) => StepResult {
                state: EngineState {
                    text: snap.text,
                    cursor: snap.cursor.spec_clamped(snap.text.len()),
                    undoer: u2,
                    ..st
                },
                mutated: true,
                clipboard: None,
                submit: false,
            },
            None => no_mutation(EngineState { undoer: u2, ..st }),
        }
    } else if is_undo_shortcut(key, m) {
        let (u2, r) = spec_undo(st.undoer, snap_of(st));
        match r {
            Some(snap) => StepResult {
                state: EngineState {
                    text: snap.text,
                    cursor: snap.cursor.spec_clamped(snap.text.len()),
                    undoer: u2,
                    ..st
                },
                mutated: true,
                clipboard: None,
                submit: false,
            },
            None => no_mutation(EngineState { undoer: u2, ..st }),
        }
    } else {
        match mutating_key_result(opts.os, st.text, st.cursor, m, key) {
            Some((s2, c2)) => mutation(
                st,
                s2,
                CursorSpan { primary: c2 as usize, secondary: c2 as usize },
            ),
            None => no_mutation(st),
        }
    }
}

/// What one composition sub-event does. `Enabled` anchors the session at the
/// current selection. `Preedit` replaces the selection with the candidate
/// and keeps the inserted span selected, so the next candidate replaces it
/// cleanly; an empty candidate only deletes. `Commit` inserts the final text
/// where the anchor still matches, and otherwise just collapses the caret,
/// discarding the text. `Disabled` closes the session.
pub open spec fn spec_step_ime(opts: EngineOptions, st: EngineState, ime: ImeEvent) -> StepResult {
    match ime {
        ImeEvent::Enabled => no_mutation(
            EngineState { ime_enabled: true, ime_cursor: st.cursor, ..st },
        ),
        ImeEvent::Preedit(t) => {
            if is_newline_text(t@) {
                no_mutation(st)
            } else {
                let start = st.cursor.low();
                let s1 = removed(st.text, st.cursor.low(), st.cursor.high());
                let (s2, c2) = if t@.len() > 0 {
                    insertion_result(s1, start, t@, opts.char_limit)
                } else {
                    (s1, start)
                };
                StepResult {
                    state: EngineState {
                        text: s2,
                        cursor: CursorSpan { primary: c2 as usize, secondary: start as usize },
                        ime_cursor: st.cursor,
                        ..st
                    },
                    mutated: true,
                    clipboard: None,
                    submit: false,
                }
            }
        },
        ImeEvent::Commit(t) => {
            if is_newline_text(t@) {
                no_mutation(st)
            } else {
                let st1 = EngineState { ime_enabled: false, ..st };
                if t@.len() > 0 && st.cursor.secondary == st.ime_cursor.secondary {
                    replace_selection(st1, t@, opts.char_limit)
                } else {
                    mutation(st1, st1.text, CursorSpan {
                        primary: st.cursor.primary,
                        secondary: st.cursor.primary,
                    })
                }
            }
        },
        ImeEvent::Disabled => no_mutation(EngineState { ime_enabled: false, ..st }),
    }
}

/// What one event does to the engine state.
pub open spec fn spec_step(opts: EngineOptions, st: EngineState, ev: TextEvent) -> StepResult {
    match ev {
        TextEvent::Copy => {
            if !st.cursor.spec_is_empty() && !opts.password {
                StepResult {
                    state: st,
                    mutated: false,
                    clipboard: Some(st.text.subrange(st.cursor.low(), st.cursor.high())),
                    submit: false,
                }
            } else {
                no_mutation(st)
            }
        },
        TextEvent::Cut => {
            if st.cursor.spec_is_empty() {
                no_mutation(st)
            } else {
                StepResult {
                    state: EngineState {
                        text: removed(st.text, st.cursor.low(), st.cursor.high()),
                        cursor: CursorSpan {
                            primary: st.cursor.low() as usize,
                            secondary: st.cursor.low() as usize,
                        },
                        ..st
                    },
                    mutated: true,
                    clipboard: if opts.password {
                        None
                    } else {
                        Some(st.text.subrange(st.cursor.low(), st.cursor.high()))
                    },
                    submit: false,
                }
            }
        },
        TextEvent::Paste(t) => {
            if t@.len() > 0 {
                replace_selection(st, t@, opts.char_limit)
            } else {
                no_mutation(st)
            }
        },
        TextEvent::Text(t) => {
            if t@.len() > 0 && !is_newline_text(t@) {
                replace_selection(st, t@, opts.char_limit)
            } else {
                no_mutation(st)
            }
        },
        TextEvent::Key { key, modifiers, .. } => spec_step_key(opts, st, key, modifiers),
        TextEvent::Ime(ime) => spec_step_ime(opts, st, ime),
    }
}

/// A batch folded left to right; a submit stops the remainder. `changed`
/// accumulates mutations, and the last clipboard write wins.
pub open spec fn spec_run(opts: EngineOptions, st: EngineState, evs: Seq<TextEvent>) -> RunResult
    decreases evs.len(),
{
    if evs.len() == 0 {
        RunResult { state: st, changed: false, clipboard: None, surrendered: false }
    } else {
        let r = spec_step(opts, st, evs[0]);
        if r.submit {
            RunResult { state: r.state, changed: r.mutated, clipboard: r.clipboard, surrendered: true }
        } else {
            let rest = spec_run(opts, r.state, evs.skip(1));
            RunResult {
                state: rest.state,
                changed: r.mutated || rest.changed,
                clipboard: if rest.clipboard is Some {
                    rest.clipboard
                } else {
                    r.clipboard
                },
                surrendered: rest.surrendered,
            }
        }
    }
}

/// The outcome of a whole batch.
pub struct RunResult {
    pub state: EngineState,
    pub changed: bool,
    pub clipboard: Option<Seq<char>>,
    pub surrendered: bool,
}

/// The engine state assembled from the executable pieces.
pub open spec fn engine_state_of(
    text: Seq<char>,
    cursor: CursorSpan,
    state: TextEditState,
) -> EngineState {
    EngineState {
        text,
        cursor,
        ime_enabled: state.ime_enabled,
        ime_cursor: state.ime_cursor,
        undoer: state.undoer@,
    }
}

/// The fields of the state the engine never touches.
pub open spec fn rest_unchanged(pre: TextEditState, post: TextEditState) -> bool {
    &&& post.cursor == pre.cursor
    &&& post.text_offset == pre.text_offset
    &&& post.last_interaction_time == pre.last_interaction_time
}

/// Whether `t` is exactly one newline or carriage return.
fn is_newline_vec(t: &Vec<char>) -> (r: bool)
    ensures
        r == is_newline_text(t@),
{
    let r = t.len() == 1 && (t[0] == '\n' || t[0] == '\r');
    proof {
        if r {
            if t@[0] == '\n' {
                assert(t@ =~= seq!['\n']);
            } else {
                assert(t@ =~= seq!['\r']);
            }
        } else {
            assert(t@ != seq!['\n'] && t@ != seq!['\r']) by {
                if t@ == seq!['\n'] || t@ == seq!['\r'] {
                    assert(t@.len() == 1);
                }
            }
        }
    }
    r
}

/// Delete the selection and insert `t` at the resulting caret; the caret
/// collapses past the insertion.
fn replace_selection_exec(
    text: &mut Vec<char>,
    cursor: &mut CursorSpan,
    t: &Vec<char>,
    char_limit: usize,
)
    requires
        old(cursor).valid(old(text)@.len()),
    ensures
        ({
            let (s2, c2) = replaced(old(text)@, *old(cursor), t@, char_limit);
            &&& final(text)@ == s2
            &&& *final(cursor) == (CursorSpan { primary: c2 as usize, secondary: c2 as usize })
            &&& final(cursor).valid(final(text)@.len())
        }),
{
    let (low, high) = cursor.sorted();
    let c = delete_selected(text, low, high);
    let c2 = insert_text_at(text, c, t, char_limit);
    *cursor = CursorSpan::one(c2);
}

/// Apply one key press; returns whether it mutated the text and whether it
/// submitted a single-line field.
fn process_key_event(
    text: &mut Vec<char>,
    cursor: &mut CursorSpan,
    state: &mut TextEditState,
    key: Key,
    m: &Modifiers,
    opts: &EngineOptions,
) -> (r: (bool, bool))
    requires
        old(cursor).valid(old(text)@.len()),
    ensures
        ({
            let step = spec_step_key(
                *opts,
                engine_state_of(old(text)@, *old(cursor), *old(state)),
                key,
                *m,
            );
            &&& final(text)@ == step.state.text
            &&& *final(cursor) == step.state.cursor
            &&& final(state).ime_enabled == step.state.ime_enabled
            &&& final(state).ime_cursor == step.state.ime_cursor
            &&& final(state).undoer@ == step.state.undoer
            &&& r.0 == step.mutated
            &&& r.1 == step.submit
            &&& step.clipboard is None
            &&& rest_unchanged(*old(state), *final(state))
            &&& final(cursor).valid(final(text)@.len())
        }),
{
    if cursor_on_key_press(cursor, text, opts.os, m, key) {
        return (false, false);
    }
    if key == Key::Tab && opts.multiline {
        let (low, high) = cursor.sorted();
        let c = delete_selected(text, low, high);
        if m.shift {
            let c2 = decrease_indentation(text, c);
            *cursor = CursorSpan::one(c2);
        } else {
            let tab: Vec<char> = vec!['\t'];
            proof {
                assert(tab@ =~= seq!['\t']);
            }
            let c2 = insert_text_at(text, c, &tab, opts.char_limit);
            *cursor = CursorSpan::one(c2);
        }
        return (true, false);
    }
    let submit_match = match &opts.return_key {
        Some(rk) => key == rk.key && m.check_matches_logically(&rk.modifiers),
        None => false,
    };
    if submit_match {
        if opts.multiline {
            let nl: Vec<char> = vec!['\n'];
            proof {
                assert(nl@ =~= seq!['\n']);
            }
            replace_selection_exec(text, cursor, &nl, opts.char_limit);
            return (true, false);
        } else {
            return (false, true);
        }
    }
    let redo_combo = (key == Key::Y && m.command) || (key == Key::Z && m.command && m.shift);
    let undo_combo = key == Key::Z && m.command;
    if redo_combo || undo_combo {
        let here = slice_chars(text, 0, text.len());
        proof {
            assert(here@ =~= text@);
        }
        let snap = Snapshot { cursor: *cursor, text: here };
        let restored = if redo_combo {
            state.undoer.redo(&snap)
        } else {
            state.undoer.undo(&snap)
        };
        match restored {
            Some(s) => {
                let Snapshot { cursor: sc, text: stext } = s;
                let len = stext.len();
                *text = stext;
                *cursor = sc.clamped(len);
                return (true, false);
            },
            None => {
                return (false, false);
            },
        }
    }
    let mutated = check_mutating_key(text, cursor, opts.os, m, key);
    (mutated, false)
}

/// Apply a mutating key press, if this key mutates; see
/// `mutating_key_result`.
fn check_mutating_key(
    text: &mut Vec<char>,
    cursor: &mut CursorSpan,
    os: HostOs,
    m: &Modifiers,
    key: Key,
) -> (r: bool)
    requires
        old(cursor).valid(old(text)@.len()),
    ensures
        ({
            match mutating_key_result(os, old(text)@, *old(cursor), *m, key) {
                Some((s2, c2)) => final(text)@ == s2 && *final(cursor) == (CursorSpan {
                    primary: c2 as usize,
                    secondary: c2 as usize,
                }) && r,
                None => final(text)@ == old(text)@ && *final(cursor) == *old(cursor) && !r,
            }
        }),
        final(cursor).valid(final(text)@.len()),
{
    let (low, high) = cursor.sorted();
    if key == Key::Backspace {
        let c = if m.mac_cmd {
            delete_paragraph_before_cursor(text, low, high)
        } else if cursor.is_empty() {
            if m.alt || m.ctrl {
                delete_previous_word(text, cursor.primary)
            } else {
                delete_previous_char(text, cursor.primary)
            }
        } else {
            delete_selected(text, low, high)
        };
        *cursor = CursorSpan::one(c);
        true
    } else if key == Key::Delete && !(m.shift && os == HostOs::Windows) {
        let c = if m.mac_cmd {
            delete_paragraph_after_cursor(text, low, high)
        } else if cursor.is_empty() {
            if m.alt || m.ctrl {
                delete_next_word(text, cursor.primary)
            } else {
                delete_next_char(text, cursor.primary)
            }
        } else {
            delete_selected(text, low, high)
        };
        *cursor = CursorSpan::one(c);
        true
    } else if key == Key::H && m.ctrl {
        let c = delete_previous_char(text, cursor.primary);
        *cursor = CursorSpan::one(c);
        true
    } else if key == Key::K && m.ctrl {
        let c = delete_paragraph_after_cursor(text, low, high);
        *cursor = CursorSpan::one(c);
        true
    } else if key == Key::U && m.ctrl {
        let c = delete_paragraph_before_cursor(text, low, high);
        *cursor = CursorSpan::one(c);
        true
    } else if key == Key::W && m.ctrl {
        let c = if cursor.is_empty() {
            delete_previous_word(text, cursor.primary)
        } else {
            delete_selected(text, low, high)
        };
        *cursor = CursorSpan::one(c);
        true
    } else {
        false
    }
}

/// Whether an event is safe to deliver while a composition session is open:
/// repeated keys and the raw backspace and arrow keys corrupt composition
/// and are dropped.
pub open spec fn ime_compatible(e: TextEvent) -> bool {
    match e {
        TextEvent::Key { key, repeat, .. } => !repeat && key != Key::Backspace && key
            != Key::ArrowUp && key != Key::ArrowDown && key != Key::ArrowLeft && key
            != Key::ArrowRight,
        _ => true,
    }
}

/// Whether an event is a composition sub-event.
pub open spec fn is_ime_event(e: TextEvent) -> bool {
    e is Ime
}

/// The composition events of the batch that survive the compatibility
/// filter, in order.
pub open spec fn kept_ime(s: Seq<TextEvent>) -> Seq<TextEvent>
    decreases s.len(),
{
    if s.len() == 0 {
        Seq::empty()
    } else {
        (if ime_compatible(s[0]) && is_ime_event(s[0]) {
            seq![s[0]]
        } else {
            Seq::empty()
        }) + kept_ime(s.skip(1))
    }
}

/// The other events of the batch that survive the compatibility filter, in
/// order.
pub open spec fn kept_other(s: Seq<TextEvent>) -> Seq<TextEvent>
    decreases s.len(),
{
    if s.len() == 0 {
        Seq::empty()
    } else {
        (if ime_compatible(s[0]) && !is_ime_event(s[0]) {
            seq![s[0]]
        } else {
            Seq::empty()
        }) + kept_other(s.skip(1))
    }
}

/// The batch the engine actually processes: while a composition session is
/// open, incompatible events are dropped and composition events are moved to
/// the front, keeping relative order; otherwise the batch as delivered.
pub open spec fn effective_events(ime_enabled: bool, s: Seq<TextEvent>) -> Seq<TextEvent> {
    if ime_enabled {
        kept_ime(s) + kept_other(s)
    } else {
        s
    }
}

fn is_ime_compatible_exec(e: &TextEvent) -> (r: bool)
    ensures
        r == ime_compatible(*e),
{
    match e {
        TextEvent::Key { key, repeat, .. } => !*repeat && !(*key == Key::Backspace) && !(*key
            == Key::ArrowUp) && !(*key == Key::ArrowDown) && !(*key == Key::ArrowLeft) && !(*key
            == Key::ArrowRight),
        _ => true,
    }
}

fn is_ime_exec(e: &TextEvent) -> (r: bool)
    ensures
        r == is_ime_event(*e),
{
    match e {
        TextEvent::Ime(_) => true,
        _ => false,
    }
}

/// Drop the events a composition session cannot tolerate and move the
/// composition events to the front, keeping relative order.
fn prepare_ime_events(events: Vec<TextEvent>) -> (r: Vec<TextEvent>)
    ensures
        r@ == effective_events(true, events@),
{
    let ghost orig = events@;
    let mut rest = events;
    let mut ime_evs: Vec<TextEvent> = Vec::new();
    let mut other: Vec<TextEvent> = Vec::new();
    proof {
        assert(ime_evs@ + kept_ime(rest@) =~= kept_ime(orig));
        assert(other@ + kept_other(rest@) =~= kept_other(orig));
    }
    while rest.len() > 0
        invariant
            kept_ime(orig) == ime_evs@ + kept_ime(rest@),
            kept_other(orig) == other@ + kept_other(rest@),
        decreases rest.len(),
    {
        let ghost r0 = rest@;
        let e = rest.remove(0);
        proof {
            assert(rest@ =~= r0.skip(1));
        }
        let keep = is_ime_compatible_exec(&e);
        if keep {
            if is_ime_exec(&e) {
                ime_evs.push(e);
            } else {
                other.push(e);
            }
        }
        proof {
            assert(kept_ime(orig) =~= ime_evs@ + kept_ime(rest@));
            assert(kept_other(orig) =~= other@ + kept_other(rest@));
        }
    }
    proof {
        assert(kept_ime(rest@) =~= Seq::<TextEvent>::empty());
        assert(kept_other(rest@) =~= Seq::<TextEvent>::empty());
        assert(ime_evs@ =~= kept_ime(orig));
        assert(other@ =~= kept_other(orig));
    }
    let mut out = ime_evs;
    let mut tail = other;
    out.append(&mut tail);
    out
}

/// Apply one composition sub-event; returns whether it mutated the text.
fn process_ime_event(
    text: &mut Vec<char>,
    cursor: &mut CursorSpan,
    state: &mut TextEditState,
    ime: &ImeEvent,
    opts: &EngineOptions,
) -> (r: bool)
    requires
        old(cursor).valid(old(text)@.len()),
    ensures
        ({
            let step = spec_step_ime(
                *opts,
                engine_state_of(old(text)@, *old(cursor), *old(state)),
                *ime,
            );
            &&& final(text)@ == step.state.text
            &&& *final(cursor) == step.state.cursor
            &&& final(state).ime_enabled == step.state.ime_enabled
            &&& final(state).ime_cursor == step.state.ime_cursor
            &&& final(state).undoer@ == step.state.undoer
            &&& r == step.mutated
            &&& step.clipboard is None
            &&& !step.submit
            &&& rest_unchanged(*old(state), *final(state))
            &&& final(cursor).valid(final(text)@.len())
        }),
{
    match ime {
        ImeEvent::Enabled => {
            state.ime_enabled = true;
            state.ime_cursor = *cursor;
            false
        },
        ImeEvent::Preedit(t) => {
            if is_newline_vec(t) {
                false
            } else {
                let (low, high) = cursor.sorted();
                let start = delete_selected(text, low, high);
                let c2 = if t.len() > 0 {
                    insert_text_at(text, start, t, opts.char_limit)
                } else {
                    start
                };
                state.ime_cursor = *cursor;
                *cursor = CursorSpan::two(start, c2);
                true
            }
        },
        ImeEvent::Commit(t) => {
            if is_newline_vec(t) {
                false
            } else {
                state.ime_enabled = false;
                if t.len() > 0 && cursor.secondary == state.ime_cursor.secondary {
                    replace_selection_exec(text, cursor, t, opts.char_limit);
                } else {
                    *cursor = CursorSpan::one(cursor.primary);
                }
                true
            }
        },
        ImeEvent::Disabled => {
            state.ime_enabled = false;
            false
        },
    }
}

/// Apply one event; returns whether it mutated the text, whether it
/// submitted a single-line field, and what it put on the clipboard.
fn process_one_event(
    text: &mut Vec<char>,
    cursor: &mut CursorSpan,
    state: &mut TextEditState,
    ev: &TextEvent,
    opts: &EngineOptions,
) -> (r: (bool, bool, Option<Vec<char>>))
    requires
        old(cursor).valid(old(text)@.len()),
    ensures
        ({
            let step = spec_step(
                *opts,
                engine_state_of(old(text)@, *old(cursor), *old(state)),
                *ev,
            );
            &&& final(text)@ == step.state.text
            &&& *final(cursor) == step.state.cursor
            &&& final(state).ime_enabled == step.state.ime_enabled
            &&& final(state).ime_cursor == step.state.ime_cursor
            &&& final(state).undoer@ == step.state.undoer
            &&& r.0 == step.mutated
            &&& r.1 == step.submit
            &&& (match r.2 {
                Some(v) => step.clipboard == Some(v@),
                None => step.clipboard is None,
            })
            &&& rest_unchanged(*old(state), *final(state))
            &&& final(cursor).valid(final(text)@.len())
        }),
{
    match ev {
        TextEvent::Copy => {
            let clip = if !cursor.is_empty() && !opts.password {
                let (low, high) = cursor.sorted();
                Some(slice_chars(text, low, high))
            } else {
                None
            };
            (false, false, clip)
        },
        TextEvent::Cut => {
            if cursor.is_empty() {
                (false, false, None)
            } else {
                let (low, high) = cursor.sorted();
                let clip = if opts.password {
                    None
                } else {
                    Some(slice_chars(text, low, high))
                };
                let c = delete_selected(text, low, high);
                *cursor = CursorSpan::one(c);
                (true, false, clip)
            }
        },
        TextEvent::Paste(t) => {
            if t.len() > 0 {
                replace_selection_exec(text, cursor, t, opts.char_limit);
                (true, false, None)
            } else {
                (false, false, None)
            }
        },
        TextEvent::Text(t) => {
            if t.len() > 0 && !is_newline_vec(t) {
                replace_selection_exec(text, cursor, t, opts.char_limit);
                (true, false, None)
            } else {
                (false, false, None)
            }
        },
        TextEvent::Key { key, modifiers, .. } => {
            let (mutated, submit) = process_key_event(text, cursor, state, *key, modifiers, opts);
            (mutated, submit, None)
        },
        TextEvent::Ime(ime) => {
            let mutated = process_ime_event(text, cursor, state, ime, opts);
            (mutated, false, None)
        },
    }
}

/// A key press that only ever moves the cursor, whatever the selection.
pub open spec fn nav_key_always(os: HostOs, m: Modifiers, key: Key) -> bool {
    ||| key == Key::A && m.command
    ||| key == Key::ArrowLeft || key == Key::ArrowRight || key == Key::ArrowUp || key
        == Key::ArrowDown || key == Key::Home || key == Key::End
    ||| (key == Key::P || key == Key::N || key == Key::B || key == Key::F || key == Key::A || key
        == Key::E) && os == HostOs::Mac && m.ctrl && !m.shift
}

/// An event that only repositions the cursor or selection: a navigation key
/// press.
pub open spec fn pure_navigation_event(os: HostOs, ev: TextEvent) -> bool {
    match ev {
        TextEvent::Key { key, modifiers, .. } => nav_key_always(os, modifiers, key),
        _ => false,
    }
}

/// A key press that submits a single-line field: it matches the configured
/// submit combination and nothing earlier in the dispatch takes it.
pub open spec fn is_submit_event(opts: EngineOptions, ev: TextEvent) -> bool {
    match ev {
        TextEvent::Key { key, modifiers, .. } => submit_key_matches(opts, key, modifiers)
            && !nav_key_always(opts.os, modifiers, key) && !(key == Key::Tab && opts.multiline),
        _ => false,
    }
}

/// Law: a batch of pure-navigation events leaves the buffer untouched,
/// reports no change, writes no clipboard and surrenders no focus.
pub proof fn lemma_run_all_navigation(opts: EngineOptions, st: EngineState, evs: Seq<TextEvent>)
    requires
        forall|i: int| 0 <= i < evs.len() ==> pure_navigation_event(opts.os, #[trigger] evs[i]),
    ensures
        spec_run(opts, st, evs).state.text == st.text,
        !spec_run(opts, st, evs).changed,
        !spec_run(opts, st, evs).surrendered,
        spec_run(opts, st, evs).clipboard is None,
    decreases evs.len(),
{
    if evs.len() > 0 {
        let r = spec_step(opts, st, evs[0]);
        assert(pure_navigation_event(opts.os, evs[0]));
        assert(!r.submit && !r.mutated && r.state.text == st.text && r.clipboard is None);
        assert(forall|i: int|
            0 <= i < evs.skip(1).len() ==> pure_navigation_event(
                opts.os,
                #[trigger] evs.skip(1)[i],
            )) by {
            assert(forall|i: int| 0 <= i < evs.skip(1).len() ==> evs.skip(1)[i] == evs[i + 1]);
        }
        lemma_run_all_navigation(opts, r.state, evs.skip(1));
    }
}

/// Law: in password mode no event ever writes the clipboard.
pub proof fn lemma_run_password_no_clipboard(
    opts: EngineOptions,
    st: EngineState,
    evs: Seq<TextEvent>,
)
    requires
        opts.password,
    ensures
        spec_run(opts, st, evs).clipboard is None,
    decreases evs.len(),
{
    if evs.len() > 0 {
        let r = spec_step(opts, st, evs[0]);
        assert(r.clipboard is None);
        if !r.submit {
            lemma_run_password_no_clipboard(opts, r.state, evs.skip(1));
        }
    }
}

/// Law: when the first event of a batch is the submit key of a single-line
/// field, the batch ends there: nothing changes and focus is surrendered.
pub proof fn lemma_submit_first_event(opts: EngineOptions, st: EngineState, evs: Seq<TextEvent>)
    requires
        !opts.multiline,
        evs.len() > 0,
        is_submit_event(opts, evs[0]),
    ensures
        spec_run(opts, st, evs) == (RunResult {
            state: st,
            changed: false,
            clipboard: None,
            surrendered: true,
        }),
{
    let r = spec_step(opts, st, evs[0]);
    assert(r.submit && r.state == st && !r.mutated && r.clipboard is None);
}

/// All composition events are filtered out of an all-navigation batch.
proof fn lemma_kept_ime_of_navigation(os: HostOs, s: Seq<TextEvent>)
    requires
        forall|i: int| 0 <= i < s.len() ==> pure_navigation_event(os, #[trigger] s[i]),
    ensures
        kept_ime(s) == Seq::<TextEvent>::empty(),
    decreases s.len(),
{
    if s.len() > 0 {
        assert(pure_navigation_event(os, s[0]));
        assert(forall|i: int|
            0 <= i < s.skip(1).len() ==> pure_navigation_event(os, #[trigger] s.skip(1)[i])) by {
            assert(forall|i: int| 0 <= i < s.skip(1).len() ==> s.skip(1)[i] == s[i + 1]);
        }
        lemma_kept_ime_of_navigation(os, s.skip(1));
        assert(kept_ime(s) =~= Seq::<TextEvent>::empty());
    }
}

/// Filtering keeps an all-navigation batch all-navigation.
proof fn lemma_kept_other_of_navigation(os: HostOs, s: Seq<TextEvent>)
    requires
        forall|i: int| 0 <= i < s.len() ==> pure_navigation_event(os, #[trigger] s[i]),
    ensures
        forall|j: int|
            0 <= j < kept_other(s).len() ==> pure_navigation_event(os, #[trigger] kept_other(s)[j]),
    decreases s.len(),
{
    if s.len() > 0 {
        assert(pure_navigation_event(os, s[0]));
        assert(forall|i: int|
            0 <= i < s.skip(1).len() ==> pure_navigation_event(os, #[trigger] s.skip(1)[i])) by {
            assert(forall|i: int| 0 <= i < s.skip(1).len() ==> s.skip(1)[i] == s[i + 1]);
        }
        lemma_kept_other_of_navigation(os, s.skip(1));
        let head = if ime_compatible(s[0]) && !is_ime_event(s[0]) {
            seq![s[0]]
        } else {
            Seq::<TextEvent>::empty()
        };
        let k = kept_other(s);
        assert(k == head + kept_other(s.skip(1)));
        assert forall|j: int| 0 <= j < k.len() implies pure_navigation_event(
            os,
            #[trigger] k[j],
        ) by {
            if j < head.len() {
                assert(k[j] == s[0]);
            } else {
                assert(k[j] == kept_other(s.skip(1))[j - head.len()]);
            }
        }
    }
}

/// The effective batch of an all-navigation batch is all-navigation.
proof fn lemma_effective_of_navigation(os: HostOs, ime_enabled: bool, s: Seq<TextEvent>)
    requires
        forall|i: int| 0 <= i < s.len() ==> pure_navigation_event(os, #[trigger] s[i]),
    ensures
        forall|j: int|
            0 <= j < effective_events(ime_enabled, s).len() ==> pure_navigation_event(
                os,
                #[trigger] effective_events(ime_enabled, s)[j],
            ),
{
    if ime_enabled {
        lemma_kept_ime_of_navigation(os, s);
        lemma_kept_other_of_navigation(os, s);
        assert(effective_events(true, s) =~= kept_other(s));
    }
}

/// Law: on a non-empty selection, a cut followed by a paste of what the cut
/// took restores the original buffer. The cut collapses the caret to the
/// selection's start, the paste inserts there, and the caret ends collapsed
/// past the re-inserted span, at the selection's old end.
pub proof fn lemma_cut_paste_round_trip(opts: EngineOptions, st: EngineState, clip_vec: Vec<char>)
    requires
        !st.cursor.spec_is_empty(),
        st.cursor.valid(st.text.len()),
        st.text.len() <= opts.char_limit,
        clip_vec@ == st.text.subrange(st.cursor.low(), st.cursor.high()),
    ensures
        ({
            let r1 = spec_step(opts, st, TextEvent::Cut);
            let r2 = spec_step(opts, r1.state, TextEvent::Paste(clip_vec));
            &&& r1.state.cursor.primary == st.cursor.low()
            &&& r1.state.cursor.spec_is_empty()
            &&& r2.state.text == st.text
            &&& r2.state.cursor.primary == st.cursor.high()
            &&& r2.state.cursor.spec_is_empty()
        }),
{
    let low = st.cursor.low();
    let high = st.cursor.high();
    let r1 = spec_step(opts, st, TextEvent::Cut);
    assert(r1.state.text == removed(st.text, low, high));
    assert(clip_vec@.len() == high - low);
    let r2 = spec_step(opts, r1.state, TextEvent::Paste(clip_vec));
    let cur1 = r1.state.cursor;
    assert(cur1.low() == low && cur1.high() == low);
    let s1 = removed(r1.state.text, low, low);
    assert(s1 =~= r1.state.text);
    assert(kept_insertion(s1, clip_vec@, opts.char_limit) == clip_vec@) by {
        assert(s1.len() + clip_vec@.len() == st.text.len());
    }
    assert(inserted(s1, low, clip_vec@, opts.char_limit) =~= st.text);
}

/// The primary shortcut modifier alone.
pub open spec fn command_only() -> Modifiers {
    Modifiers { alt: false, ctrl: false, shift: false, mac_cmd: false, command: true }
}

/// Law: undo right after one mutating event restores the exact pre-event
/// buffer and selection, and redo right after that undo restores the exact
/// post-event pair.
///
/// The engine feeds the history at both ends of every frame, so the chain
/// here is what two frames perform: the history is fed the pre-event state,
/// the event mutates, the history is fed the post-event state, the next
/// frame feeds it again, and the undo key is pressed. The law asks that the
/// pre-event state is the latest undo point (a fresh history, or one that
/// had settled on it), that the history holds at least two undo points, and
/// that the undo and redo shortcuts are not taken by the submit binding.
pub proof fn lemma_engine_undo_redo(
    opts: EngineOptions,
    st0: EngineState,
    e: TextEvent,
    t0: u64,
    t1: u64,
)
    requires
        ({
            let snap0 = SnapView { cursor: st0.cursor, text: st0.text };
            let u1 = spec_feed(st0.undoer, t0, snap0);
            let st1 = EngineState { undoer: u1, ..st0 };
            let step = spec_step(opts, st1, e);
            let post = SnapView { cursor: step.state.cursor, text: step.state.text };
            &&& st0.undoer.undos.len() == 0 || st0.undoer.undos.last() == snap0
            &&& st0.undoer.max_undos >= 2
            &&& t0 <= t1
            &&& step.mutated
            &&& !step.submit
            &&& step.state.undoer == u1
            &&& post != snap0
            &&& st0.cursor.valid(st0.text.len())
            &&& step.state.cursor.valid(step.state.text.len())
            &&& !submit_key_matches(opts, Key::Z, command_only())
            &&& !submit_key_matches(opts, Key::Y, command_only())
        }),
    ensures
        ({
            let snap0 = SnapView { cursor: st0.cursor, text: st0.text };
            let u1 = spec_feed(st0.undoer, t0, snap0);
            let st1 = EngineState { undoer: u1, ..st0 };
            let step = spec_step(opts, st1, e);
            let post = SnapView { cursor: step.state.cursor, text: step.state.text };
            let u2 = spec_feed(step.state.undoer, t0, post);
            let u3 = spec_feed(u2, t1, post);
            let st2 = EngineState { undoer: u3, ..step.state };
            let undone = spec_step_key(opts, st2, Key::Z, command_only());
            let redone = spec_step_key(opts, undone.state, Key::Y, command_only());
            &&& undone.mutated
            &&& undone.state.text == st0.text
            &&& undone.state.cursor == st0.cursor
            &&& redone.mutated
            &&& redone.state.text == step.state.text
            &&& redone.state.cursor == step.state.cursor
        }),
{
    let snap0 = SnapView { cursor: st0.cursor, text: st0.text };
    let u1 = spec_feed(st0.undoer, t0, snap0);
    let st1 = EngineState { undoer: u1, ..st0 };
    let step = spec_step(opts, st1, e);
    let post = SnapView { cursor: step.state.cursor, text: step.state.text };
    let u2 = spec_feed(step.state.undoer, t0, post);
    let u3 = spec_feed(u2, t1, post);

    // Feeding the pre-event state once more changes nothing: it is already
    // the latest undo point and nothing is in motion.
    assert(u1.undos.len() > 0 && u1.undos.last() == snap0 && u1.flux is None);
    assert(spec_feed(u1, t0, snap0) == u1);
    assert(u1.max_undos == st0.undoer.max_undos);

    crate::undo::lemma_undo_redo_round_trip(u1, t0, t1, snap0, post);

    let st2 = EngineState { undoer: u3, ..step.state };
    let undone = spec_step_key(opts, st2, Key::Z, command_only());
    assert(!nav_handles(st2.cursor, opts.os, command_only(), Key::Z));
    let (u4, restored) = spec_undo(u3, post);
    assert(restored == Some(snap0));
    assert(undone.state.cursor == snap0.cursor.spec_clamped(snap0.text.len()));
    assert(undone.state.cursor == st0.cursor);

    let redone = spec_step_key(opts, undone.state, Key::Y, command_only());
    assert(!nav_handles(undone.state.cursor, opts.os, command_only(), Key::Y));
    assert(snap_of(undone.state) == snap0);
    let (u5, r2) = spec_redo(u4, snap0);
    assert(r2 == Some(post));
    assert(redone.state.cursor == post.cursor.spec_clamped(post.text.len()));
    assert(redone.state.cursor == step.state.cursor);
}

/// The report of one frame's event processing.
pub struct EngineOutput {
    /// Whether any event mutated the buffer this frame.
    pub changed: bool,
    /// The selection after the batch.
    pub cursor: CursorSpan,
    /// Whether a single-line submit asks the host to drop focus.
    pub surrender_focus: bool,
    /// What the frame put on the clipboard, if anything.
    pub clipboard: Option<Vec<char>>,
}

/// An accumulated prefix combined with the run of the remaining events.
pub open spec fn combine(changed: bool, clip: Option<Seq<char>>, rest: RunResult) -> RunResult {
    RunResult {
        state: rest.state,
        changed: changed || rest.changed,
        clipboard: if rest.clipboard is Some {
            rest.clipboard
        } else {
            clip
        },
        surrendered: rest.surrendered,
    }
}

/// The clipboard value a frame reports.
pub open spec fn clip_view(c: Option<Vec<char>>) -> Option<Seq<char>> {
    match c {
        Some(v) => Some(v@),
        None => None,
    }
}

/// The selection the frame starts from: the stored one clamped to the
/// buffer, or a caret at the end.
pub open spec fn initial_cursor(stored: Option<CursorSpan>, len: nat) -> CursorSpan {
    match stored {
        Some(c) => c.spec_clamped(len),
        None => CursorSpan { primary: len as usize, secondary: len as usize },
    }
}

/// Run one frame's event batch over the buffer and the stored state.
///
/// The history is fed the state both before and after the batch, so undo
/// points form even on frames without events. While a composition session is
/// open the batch is first filtered and reordered; the fold then processes
/// events in order, stopping at a single-line submit. The final selection is
/// stored back.
pub fn process_events(
    state: &mut TextEditState,
    text: &mut Vec<char>,
    events: Vec<TextEvent>,
    now: u64,
    opts: &EngineOptions,
) -> (out: EngineOutput)
    ensures
        ({
            let c0 = initial_cursor(old(state).cursor, old(text)@.len());
            let u1 = spec_feed(
                old(state).undoer@,
                now,
                SnapView { cursor: c0, text: old(text)@ },
            );
            let st0 = EngineState {
                text: old(text)@,
                cursor: c0,
                ime_enabled: old(state).ime_enabled,
                ime_cursor: old(state).ime_cursor,
                undoer: u1,
            };
            let run = spec_run(*opts, st0, effective_events(old(state).ime_enabled, events@));
            let u2 = spec_feed(
                run.state.undoer,
                now,
                SnapView { cursor: run.state.cursor, text: run.state.text },
            );
            &&& final(text)@ == run.state.text
            &&& out.cursor == run.state.cursor
            &&& out.changed == run.changed
            &&& out.surrender_focus == run.surrendered
            &&& clip_view(out.clipboard) == run.clipboard
            &&& final(state).cursor == Some(run.state.cursor)
            &&& final(state).ime_enabled == run.state.ime_enabled
            &&& final(state).ime_cursor == run.state.ime_cursor
            &&& final(state).undoer@ == u2
            &&& final(state).text_offset == old(state).text_offset
            &&& final(state).last_interaction_time == old(state).last_interaction_time
        }),
        (forall|i: int|
            0 <= i < events@.len() ==> pure_navigation_event(opts.os, #[trigger] events@[i]))
            ==> final(text)@ == old(text)@ && !out.changed && !out.surrender_focus,
        opts.password ==> out.clipboard is None,
        (!opts.multiline && events@.len() > 0 && is_submit_event(*opts, events@[0]) && !old(
            state,
        ).ime_enabled) ==> final(text)@ == old(text)@ && !out.changed && out.surrender_focus,
        out.cursor.valid(final(text)@.len()),
{
    let len0 = text.len();
    let mut cursor = match &state.cursor {
        Some(c) => c.clamped(len0),
        None => CursorSpan::one(len0),
    };
    let pre = slice_chars(text, 0, text.len());
    proof {
        assert(pre@ =~= text@);
    }
    let snap = Snapshot { cursor, text: pre };
    state.undoer.feed_state(now, &snap);

    let evs: Vec<TextEvent> = if state.ime_enabled {
        prepare_ime_events(events)
    } else {
        events
    };
    let ghost st0 = engine_state_of(text@, cursor, *state);
    let ghost whole = spec_run(*opts, st0, evs@);

    let mut changed = false;
    let mut surrendered = false;
    let mut clip: Option<Vec<char>> = None;
    let mut i: usize = 0;
    proof {
        assert(evs@.skip(0) =~= evs@);
    }
    while i < evs.len()
        invariant_except_break
            i <= evs@.len(),
            cursor.valid(text@.len()),
            whole == combine(
                changed,
                clip_view(clip),
                spec_run(*opts, engine_state_of(text@, cursor, *state), evs@.skip(i as int)),
            ),
            !surrendered,
            rest_unchanged(*old(state), *state),
            opts.password ==> clip is None,
        ensures
            cursor.valid(text@.len()),
            whole == (RunResult {
                state: engine_state_of(text@, cursor, *state),
                changed,
                clipboard: clip_view(clip),
                surrendered,
            }),
            rest_unchanged(*old(state), *state),
            opts.password ==> clip is None,
        decreases evs@.len() - i,
    {
        let ghost st_i = engine_state_of(text@, cursor, *state);
        let ghost rest_i = evs@.skip(i as int);
        let ev = &evs[i];
        let (mutated, submit, clip_i) = process_one_event(text, &mut cursor, state, ev, opts);
        proof {
            assert(rest_i[0] == evs@[i as int]);
            assert(rest_i.skip(1) =~= evs@.skip(i as int + 1));
        }
        if submit {
            surrendered = true;
            proof {
                let r = spec_step(*opts, st_i, evs@[i as int]);
                assert(spec_run(*opts, st_i, rest_i) == (RunResult {
                    state: r.state,
                    changed: r.mutated,
                    clipboard: r.clipboard,
                    surrendered: true,
                }));
            }
            break ;
        }
        if mutated {
            changed = true;
        }
        match clip_i {
            Some(v) => {
                clip = Some(v);
            },
            None => {},
        }
        proof {
            let r = spec_step(*opts, st_i, evs@[i as int]);
            let rest = spec_run(*opts, r.state, rest_i.skip(1));
            assert(spec_run(*opts, st_i, rest_i) == combine(r.mutated, r.clipboard, rest));
        }
        i = i + 1;
    }

    state.cursor = Some(cursor);
    let post = slice_chars(text, 0, text.len());
    proof {
        assert(post@ =~= text@);
    }
    let snap2 = Snapshot { cursor, text: post };
    state.undoer.feed_state(now, &snap2);

    proof {
        let c0 = initial_cursor(old(state).cursor, old(text)@.len());
        assert(st0.cursor == c0);
        if forall|i: int|
            0 <= i < events@.len() ==> pure_navigation_event(opts.os, #[trigger] events@[i]) {
            lemma_effective_of_navigation(opts.os, old(state).ime_enabled, events@);
            lemma_run_all_navigation(*opts, st0, evs@);
        }
        if opts.password {
            lemma_run_password_no_clipboard(*opts, st0, evs@);
        }
        if !opts.multiline && events@.len() > 0 && is_submit_event(*opts, events@[0]) && !old(
            state,
        ).ime_enabled {
            lemma_submit_first_event(*opts, st0, evs@);
        }
    }
    EngineOutput { changed, cursor, surrender_focus: surrendered, clipboard: clip }
}

} // verus!
