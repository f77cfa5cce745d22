//! Cursor spans and the keyboard navigation that only moves the caret or
//! selection, never the text.
//!
//! Rows are newline-delimited lines, and vertical movement keeps the caret's
//! column, clamped to the target line; that is this engine's convention for
//! the host's word/line-boundary policy.

use vstd::prelude::*;

use crate::buffer::{
    find_line_end, find_line_start, find_next_word_boundary, find_prev_word_boundary, line_end,
    line_start, next_word_boundary, prev_word_boundary,
};
use crate::events::{HostOs, Key, Modifiers};

verus! {

/// A selection between two character offsets. `primary` is the moving end,
/// `secondary` the anchor; the two may come in any order, and are equal for
/// a plain caret.
#[derive(Clone, Copy, PartialEq, Eq, Structural, Debug, Default)]
pub struct CursorSpan {
    pub primary: usize,
    pub secondary: usize,
}

impl CursorSpan {
    /// The lower end of the selection.
    pub open spec fn low(self) -> int {
        if self.primary <= self.secondary {
            self.primary as int
        } else {
            self.secondary as int
        }
    }

    /// The upper end of the selection.
    pub open spec fn high(self) -> int {
        if self.primary <= self.secondary {
            self.secondary as int
        } else {
            self.primary as int
        }
    }

    /// No characters are selected.
    pub open spec fn spec_is_empty(self) -> bool {
        self.primary == self.secondary
    }

    /// Both ends lie inside a buffer of length `len`.
    pub open spec fn valid(self, len: nat) -> bool {
        self.primary <= len && self.secondary <= len
    }

    /// A caret: an empty span at one offset.
    pub fn one(ccursor: usize) -> (r: Self)
        ensures
            r.primary == ccursor,
            r.secondary == ccursor,
    {
        CursorSpan { primary: ccursor, secondary: ccursor }
    }

    /// A span from `min` to `max` with the moving end at `max`.
    pub fn two(min: usize, max: usize) -> (r: Self)
        ensures
            r.primary == max,
            r.secondary == min,
    {
        CursorSpan { primary: max, secondary: min }
    }

    pub fn is_empty(&self) -> (r: bool)
        ensures
            r == self.spec_is_empty(),
    {
        self.primary == self.secondary
    }

    /// The two ends in order.
    pub fn sorted(&self) -> (r: (usize, usize))
        ensures
            r.0 == self.low(),
            r.1 == self.high(),
    {
        if self.primary <= self.secondary {
            (self.primary, self.secondary)
        } else {
            (self.secondary, self.primary)
        }
    }

    /// The caret, provided nothing is selected.
    pub fn single(&self) -> (r: Option<usize>)
        ensures
            self.spec_is_empty() ==> r == Some(self.primary),
            !self.spec_is_empty() ==> r is None,
    {
        if self.primary == self.secondary {
            Some(self.primary)
        } else {
            None
        }
    }

    /// Both ends clamped to a buffer length.
    pub open spec fn spec_clamped(self, len: nat) -> CursorSpan {
        CursorSpan {
            primary: if self.primary <= len {
                self.primary
            } else {
                len as usize
            },
            secondary: if self.secondary <= len {
                self.secondary
            } else {
                len as usize
            },
        }
    }

    /// Clamp both ends to the buffer length.
    pub fn clamped(&self, len: usize) -> (r: Self)
        ensures
            r == self.spec_clamped(len as nat),
            r.valid(len as nat),
    {
        CursorSpan {
            primary: if self.primary <= len {
                self.primary
            } else {
                len
            },
            secondary: if self.secondary <= len {
                self.secondary
            } else {
                len
            },
        }
    }
}

/// Where the caret lands one line up: same column in the previous line,
/// clamped to that line's end; the buffer start from the first line.
pub open spec fn line_up_target(s: Seq<char>, i: int) -> int {
    let ls = line_start(s, i);
    if ls == 0 {
        0
    } else {
        let pls = line_start(s, ls - 1);
        let col = i - ls;
        if pls + col <= ls - 1 {
            pls + col
        } else {
            ls - 1
        }
    }
}

/// Where the caret lands one line down: same column in the next line,
/// clamped to that line's end; the buffer end from the last line.
pub open spec fn line_down_target(s: Seq<char>, i: int) -> int {
    let le = line_end(s, i);
    if le >= s.len() {
        s.len() as int
    } else {
        let nls = le + 1;
        let col = i - line_start(s, i);
        let nle = line_end(s, nls);
        if nls + col <= nle {
            nls + col
        } else {
            nle
        }
    }
}

/// One caret step left: by word with alt or control, to the line start with
/// the Mac command key, else one character.
pub open spec fn left_target(s: Seq<char>, i: int, m: Modifiers) -> int {
    if m.alt || m.ctrl {
        prev_word_boundary(s, i)
    } else if m.mac_cmd {
        line_start(s, i)
    } else if i > 0 {
        i - 1
    } else {
        0
    }
}

/// One caret step right: by word with alt or control, to the line end with
/// the Mac command key, else one character.
pub open spec fn right_target(s: Seq<char>, i: int, m: Modifiers) -> int {
    if m.alt || m.ctrl {
        next_word_boundary(s, i)
    } else if m.mac_cmd {
        line_end(s, i)
    } else if i < s.len() {
        i + 1
    } else {
        s.len() as int
    }
}

/// Where a single-cursor movement key sends the caret from offset `i`.
pub open spec fn moved_cursor(s: Seq<char>, i: int, os: HostOs, m: Modifiers, key: Key) -> int {
    if os == HostOs::Mac && m.ctrl && !m.shift {
        match key {
            Key::A => line_start(s, i),
            Key::E => line_end(s, i),
            Key::P => line_up_target(s, i),
            Key::N => line_down_target(s, i),
            Key::B => left_target(s, i, m),
            Key::F => right_target(s, i, m),
            _ => i,
        }
    } else {
        match key {
            Key::ArrowLeft => left_target(s, i, m),
            Key::ArrowRight => right_target(s, i, m),
            Key::ArrowUp => if m.command {
                0
            } else {
                line_up_target(s, i)
            },
            Key::ArrowDown => if m.command {
                s.len() as int
            } else {
                line_down_target(s, i)
            },
            Key::Home => if m.ctrl {
                0
            } else {
                line_start(s, i)
            },
            Key::End => if m.ctrl {
                s.len() as int
            } else {
                line_end(s, i)
            },
            _ => i,
        }
    }
}

/// Whether a key press moves the cursor rather than the text.
pub open spec fn nav_handles(span: CursorSpan, os: HostOs, m: Modifiers, key: Key) -> bool {
    ||| key == Key::A && m.command
    ||| (key == Key::ArrowLeft || key == Key::ArrowRight) && m.spec_is_none()
        && !span.spec_is_empty()
    ||| key == Key::ArrowLeft || key == Key::ArrowRight || key == Key::ArrowUp || key
        == Key::ArrowDown || key == Key::Home || key == Key::End
    ||| (key == Key::P || key == Key::N || key == Key::B || key == Key::F || key == Key::A || key
        == Key::E) && os == HostOs::Mac && m.ctrl && !m.shift
}

/// The span after a navigation key press.
pub open spec fn nav_effect(s: Seq<char>, span: CursorSpan, os: HostOs, m: Modifiers, key: Key) -> CursorSpan {
    if key == Key::A && m.command {
        CursorSpan { primary: s.len() as usize, secondary: 0 }
    } else if (key == Key::ArrowLeft || key == Key::ArrowRight) && m.spec_is_none()
        && !span.spec_is_empty() {
        if key == Key::ArrowLeft {
            CursorSpan { primary: span.low() as usize, secondary: span.low() as usize }
        } else {
            CursorSpan { primary: span.high() as usize, secondary: span.high() as usize }
        }
    } else {
        let p = moved_cursor(s, span.primary as int, os, m, key) as usize;
        if (key == Key::ArrowLeft || key == Key::ArrowRight || key == Key::ArrowUp || key
            == Key::ArrowDown || key == Key::Home || key == Key::End) && m.shift {
            CursorSpan { primary: p, secondary: span.secondary }
        } else {
            CursorSpan { primary: p, secondary: p }
        }
    }
}

/// Find where a line-up movement lands.
fn move_line_up(text: &Vec<char>, i: usize) -> (r: usize)
    requires
        i <= text@.len(),
    ensures
        r == line_up_target(text@, i as int),
        r <= text@.len(),
{
    let ls = find_line_start(text, i);
    if ls == 0 {
        0
    } else {
        let pls = find_line_start(text, ls - 1);
        let col = i - ls;
        if ls - 1 - pls >= col {
            pls + col
        } else {
            ls - 1
        }
    }
}

/// Find where a line-down movement lands.
fn move_line_down(text: &Vec<char>, i: usize) -> (r: usize)
    requires
        i <= text@.len(),
    ensures
        r == line_down_target(text@, i as int),
        r <= text@.len(),
{
    let le = find_line_end(text, i);
    if le >= text.len() {
        text.len()
    } else {
        let nls = le + 1;
        let ls = find_line_start(text, i);
        let col = i - ls;
        let nle = find_line_end(text, nls);
        if nle - nls >= col {
            nls + col
        } else {
            nle
        }
    }
}

/// Find where a left step lands.
fn move_left(text: &Vec<char>, i: usize, m: &Modifiers) -> (r: usize)
    requires
        i <= text@.len(),
    ensures
        r == left_target(text@, i as int, *m),
        r <= text@.len(),
{
    if m.alt || m.ctrl {
        find_prev_word_boundary(text, i)
    } else if m.mac_cmd {
        find_line_start(text, i)
    } else if i > 0 {
        i - 1
    } else {
        0
    }
}

/// Find where a right step lands.
fn move_right(text: &Vec<char>, i: usize, m: &Modifiers) -> (r: usize)
    requires
        i <= text@.len(),
    ensures
        r == right_target(text@, i as int, *m),
        r <= text@.len(),
{
    if m.alt || m.ctrl {
        find_next_word_boundary(text, i)
    } else if m.mac_cmd {
        find_line_end(text, i)
    } else if i < text.len() {
        i + 1
    } else {
        text.len()
    }
}

/// Find where a single-cursor movement key sends the caret.
fn move_single_cursor(text: &Vec<char>, i: usize, os: HostOs, m: &Modifiers, key: Key) -> (r:
    usize)
    requires
        i <= text@.len(),
    ensures
        r == moved_cursor(text@, i as int, os, *m, key),
        r <= text@.len(),
{
    if os == HostOs::Mac && m.ctrl && !m.shift {
        match key {
            Key::A => find_line_start(text, i),
            Key::E => find_line_end(text, i),
            Key::P => move_line_up(text, i),
            Key::N => move_line_down(text, i),
            Key::B => move_left(text, i, m),
            Key::F => move_right(text, i, m),
            _ => i,
        }
    } else {
        match key {
            Key::ArrowLeft => move_left(text, i, m),
            Key::ArrowRight => move_right(text, i, m),
            Key::ArrowUp => if m.command {
                0
            } else {
                move_line_up(text, i)
            },
            Key::ArrowDown => if m.command {
                text.len()
            } else {
                move_line_down(text, i)
            },
            Key::Home => if m.ctrl {
                0
            } else {
                find_line_start(text, i)
            },
            Key::End => if m.ctrl {
                text.len()
            } else {
                find_line_end(text, i)
            },
            _ => i,
        }
    }
}

/// Apply a navigation key press to the span. Returns whether the key was a
/// navigation key; only then does the span change.
pub fn cursor_on_key_press(
    span: &mut CursorSpan,
    text: &Vec<char>,
    os: HostOs,
    m: &Modifiers,
    key: Key,
) -> (r: bool)
    requires
        old(span).valid(text@.len()),
    ensures
        r == nav_handles(*old(span), os, *m, key),
        r ==> *final(span) == nav_effect(text@, *old(span), os, *m, key),
        !r ==> *final(span) == *old(span),
        final(span).valid(text@.len()),
{
    if key == Key::A && m.command {
        *span = CursorSpan::two(0, text.len());
        return true;
    }
    if (key == Key::ArrowLeft || key == Key::ArrowRight) && m.is_none() && !span.is_empty() {
        let (low, high) = span.sorted();
        if key == Key::ArrowLeft {
            *span = CursorSpan::one(low);
        } else {
            *span = CursorSpan::one(high);
        }
        return true;
    }
    let arrow_or_home_end = key == Key::ArrowLeft || key == Key::ArrowRight || key == Key::ArrowUp
        || key == Key::ArrowDown || key == Key::Home || key == Key::End;
    let mac_ctrl_nav = (key == Key::P || key == Key::N || key == Key::B || key == Key::F || key
        == Key::A || key == Key::E) && os == HostOs::Mac && m.ctrl && !m.shift;
    if arrow_or_home_end || mac_ctrl_nav {
        let p = move_single_cursor(text, span.primary, os, m, key);
        if arrow_or_home_end && m.shift {
            span.primary = p;
        } else {
            *span = CursorSpan::one(p);
        }
        return true;
    }
    false
}

} // verus!
