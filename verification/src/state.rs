//! The per-widget text-edit state persisted across frames.

use vstd::prelude::*;

use crate::cursor::CursorSpan;
use crate::undo::{UndoerModel, Undoer};

verus! {

/// Text-edit state stored between frames, keyed by the widget's identity.
/// The host's keyed storage owns it; the engine borrows it for one frame.
pub struct TextEditState {
    /// The selection, once one exists.
    pub cursor: Option<CursorSpan>,
    /// The undo history.
    pub undoer: Undoer,
    /// Whether an IME composition session is open on this field.
    pub ime_enabled: bool,
    /// The selection captured when the composition session opened.
    pub ime_cursor: CursorSpan,
    /// Horizontal scroll offset for single-line clipping, in layout units.
    pub text_offset: u64,
    /// When the user last pressed a key or clicked, in milliseconds; phases
    /// the caret blink and the undo coalescing.
    pub last_interaction_time: u64,
}

impl TextEditState {
    /// The state a widget starts from on its first frame.
    pub fn new() -> (r: Self)
        ensures
            r.cursor is None,
            r.undoer@.undos == Seq::<crate::undo::SnapView>::empty(),
            r.undoer@.redos == Seq::<crate::undo::SnapView>::empty(),
            r.undoer@.flux is None,
            r.undoer@.max_undos == crate::undo::DEFAULT_MAX_UNDOS,
            r.undoer@.stable_time == crate::undo::DEFAULT_STABLE_TIME,
            r.undoer@.auto_save_interval == crate::undo::DEFAULT_AUTO_SAVE_INTERVAL,
            !r.ime_enabled,
            r.ime_cursor == (CursorSpan { primary: 0, secondary: 0 }),
            r.text_offset == 0,
            r.last_interaction_time == 0,
    {
        TextEditState {
            cursor: None,
            undoer: Undoer::new(),
            ime_enabled: false,
            ime_cursor: CursorSpan { primary: 0, secondary: 0 },
            text_offset: 0,
            last_interaction_time: 0,
        }
    }

    /// The undo history.
    pub fn undoer(&self) -> (r: &Undoer)
        ensures
            r@ == self.undoer@,
    {
        &self.undoer
    }

    /// Replace the undo history.
    pub fn set_undoer(&mut self, undoer: Undoer)
        ensures
            final(self).undoer@ == undoer@,
            final(self).cursor == old(self).cursor,
            final(self).ime_enabled == old(self).ime_enabled,
            final(self).ime_cursor == old(self).ime_cursor,
            final(self).text_offset == old(self).text_offset,
            final(self).last_interaction_time == old(self).last_interaction_time,
    {
        self.undoer = undoer;
    }

    /// Forget the undo history.
    pub fn clear_undoer(&mut self)
        ensures
            final(self).undoer@ == (UndoerModel {
                max_undos: crate::undo::DEFAULT_MAX_UNDOS,
                stable_time: crate::undo::DEFAULT_STABLE_TIME,
                auto_save_interval: crate::undo::DEFAULT_AUTO_SAVE_INTERVAL,
                undos: Seq::empty(),
                redos: Seq::empty(),
                flux: None,
            }),
            final(self).cursor == old(self).cursor,
            final(self).ime_enabled == old(self).ime_enabled,
            final(self).ime_cursor == old(self).ime_cursor,
            final(self).text_offset == old(self).text_offset,
            final(self).last_interaction_time == old(self).last_interaction_time,
    {
        self.set_undoer(Undoer::new());
    }

    /// Close any composition session and collapse the selection to a caret
    /// when the field gains or loses focus; run before the frame's events.
    pub fn reset_ime_on_focus_change(&mut self, gained_focus: bool, lost_focus: bool)
        ensures
            final(self).ime_enabled == (old(self).ime_enabled && !gained_focus && !lost_focus),
            (old(self).ime_enabled && (gained_focus || lost_focus)) ==> final(self).cursor == (
            match old(self).cursor {
                Some(c) => Some(CursorSpan { primary: c.primary, secondary: c.primary }),
                None => None,
            }),
            !(old(self).ime_enabled && (gained_focus || lost_focus)) ==> final(self).cursor == old(
                self,
            ).cursor && *final(self) == *old(self),
            final(self).undoer@ == old(self).undoer@,
            final(self).ime_cursor == old(self).ime_cursor,
            final(self).text_offset == old(self).text_offset,
            final(self).last_interaction_time == old(self).last_interaction_time,
    {
        if self.ime_enabled && (gained_focus || lost_focus) {
            self.ime_enabled = false;
            match self.cursor {
                Some(c) => {
                    self.cursor = Some(CursorSpan { primary: c.primary, secondary: c.primary });
                },
                None => {},
            }
        }
    }
}

} // verus!
