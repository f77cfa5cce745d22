//! Automatic undo history.
//!
//! The caller feeds the current `(selection, text)` pair every frame; a new
//! undo point is created once the state has stayed stable for a while, or at
//! a fixed interval while it keeps changing. Undo and redo walk that history.
//! Every operation is specified by a transition function over the history's
//! mathematical model, and the undo/redo round-trip laws are proved from
//! those transitions.

use vstd::prelude::*;

use crate::cursor::CursorSpan;

verus! {

/// One undo point: the selection and the buffer at that moment.
pub struct Snapshot {
    pub cursor: CursorSpan,
    pub text: Vec<char>,
}

/// The mathematical value of a snapshot.
pub struct SnapView {
    pub cursor: CursorSpan,
    pub text: Seq<char>,
}

impl View for Snapshot {
    type V = SnapView;

    open spec fn view(&self) -> SnapView {
        SnapView { cursor: self.cursor, text: self.text@ }
    }
}

impl Snapshot {
    /// An owned copy with the same value.
    pub fn duplicate(&self) -> (r: Snapshot)
        ensures
            r@ == self@,
    {
        let mut text: Vec<char> = Vec::new();
        let mut i: usize = 0;
        while i < self.text.len()
            invariant
                i <= self.text@.len(),
                text@ == self.text@.subrange(0, i as int),
            decreases self.text@.len() - i,
        {
            text.push(self.text[i]);
            i = i + 1;
        }
        proof {
            assert(text@ =~= self.text@);
        }
        Snapshot { cursor: self.cursor, text }
    }
}

/// Whether two snapshots hold the same value.
fn snapshot_eq(a: &Snapshot, b: &Snapshot) -> (r: bool)
    ensures
        r == (a@ == b@),
{
    if !(a.cursor.primary == b.cursor.primary && a.cursor.secondary == b.cursor.secondary) {
        return false;
    }
    if a.text.len() != b.text.len() {
        return false;
    }
    let mut i: usize = 0;
    while i < a.text.len()
        invariant
            i <= a.text@.len(),
            a.text@.len() == b.text@.len(),
            a.cursor == b.cursor,
            forall|k: int| 0 <= k < i ==> a.text@[k] == b.text@[k],
        decreases a.text@.len() - i,
    {
        if !(a.text[i] == b.text[i]) {
            return false;
        }
        i = i + 1;
    }
    proof {
        assert(a.text@ =~= b.text@);
    }
    true
}

/// A state still in motion: when it started changing, when it last changed,
/// and its latest value.
pub struct FluxModel {
    pub start_time: u64,
    pub latest_change_time: u64,
    pub latest_state: SnapView,
}

/// The mathematical model of the undo history.
pub struct UndoerModel {
    pub max_undos: usize,
    pub stable_time: u64,
    pub auto_save_interval: u64,
    pub undos: Seq<SnapView>,
    pub redos: Seq<SnapView>,
    pub flux: Option<FluxModel>,
}

/// Do we have an undo point different from the given state?
pub open spec fn spec_has_undo(u: UndoerModel, s: SnapView) -> bool {
    if u.undos.len() == 0 {
        false
    } else if u.undos.len() == 1 {
        u.undos.last() != s
    } else {
        true
    }
}

/// Is a redo available for the given state?
pub open spec fn spec_has_redo(u: UndoerModel, s: SnapView) -> bool {
    u.redos.len() > 0 && u.undos.len() > 0 && u.undos.last() == s
}

/// Record an undo point, unless the state equals the latest one; the oldest
/// points fall off past the capacity, and any motion is forgotten.
pub open spec fn spec_add_undo(u: UndoerModel, s: SnapView) -> UndoerModel {
    let pushed = if u.undos.len() > 0 && u.undos.last() == s {
        u.undos
    } else {
        u.undos.push(s)
    };
    let kept = if pushed.len() > u.max_undos {
        pushed.skip(pushed.len() - u.max_undos)
    } else {
        pushed
    };
    UndoerModel { undos: kept, flux: None, ..u }
}

/// Feed the current state: create an undo point on the first feed, when the
/// state has been stable long enough, or when it has kept changing past the
/// auto-save interval; otherwise only track the motion. Any change of state
/// discards the redo stack.
pub open spec fn spec_feed(u: UndoerModel, now: u64, s: SnapView) -> UndoerModel {
    if u.undos.len() == 0 {
        spec_add_undo(u, s)
    } else if u.undos.last() == s {
        UndoerModel { flux: None, ..u }
    } else {
        let cleared = UndoerModel { redos: Seq::empty(), ..u };
        match u.flux {
            None => UndoerModel {
                flux: Some(FluxModel { start_time: now, latest_change_time: now, latest_state: s }),
                ..cleared
            },
            Some(f) => {
                if f.latest_state == s {
                    if now >= f.latest_change_time && now - f.latest_change_time >= u.stable_time {
                        spec_add_undo(cleared, s)
                    } else {
                        cleared
                    }
                } else {
                    if now >= f.start_time && now - f.start_time >= u.auto_save_interval {
                        spec_add_undo(cleared, s)
                    } else {
                        UndoerModel {
                            flux: Some(
                                FluxModel {
                                    start_time: f.start_time,
                                    latest_change_time: now,
                                    latest_state: s,
                                },
                            ),
                            ..cleared
                        }
                    }
                }
            },
        }
    }
}

/// Undo: push the current state onto the redo stack (popping it off the
/// history if it sits there) and return the latest remaining undo point.
pub open spec fn spec_undo(u: UndoerModel, s: SnapView) -> (UndoerModel, Option<SnapView>) {
    if spec_has_undo(u, s) {
        if u.undos.last() == s {
            let undos = u.undos.drop_last();
            (
                UndoerModel { undos, redos: u.redos.push(s), flux: None, ..u },
                Some(undos.last()),
            )
        } else {
            (
                UndoerModel { redos: u.redos.push(s), flux: None, ..u },
                Some(u.undos.last()),
            )
        }
    } else {
        (u, None)
    }
}

/// Redo: available only right after an undo; any state change since then
/// clears the redo stack instead.
pub open spec fn spec_redo(u: UndoerModel, s: SnapView) -> (UndoerModel, Option<SnapView>) {
    if u.undos.len() > 0 && u.undos.last() != s {
        (UndoerModel { redos: Seq::empty(), ..u }, None)
    } else if u.redos.len() > 0 {
        let r = u.redos.last();
        (UndoerModel { undos: u.undos.push(r), redos: u.redos.drop_last(), ..u }, Some(r))
    } else {
        (u, None)
    }
}

/// A state still in motion, executable form.
struct Flux {
    start_time: u64,
    latest_change_time: u64,
    latest_state: Snapshot,
}

/// Automatic undo history over `(selection, text)` snapshots. Times are in
/// milliseconds.
pub struct Undoer {
    max_undos: usize,
    stable_time: u64,
    auto_save_interval: u64,
    undos: Vec<Snapshot>,
    redos: Vec<Snapshot>,
    flux: Option<Flux>,
}

/// Default capacity of the undo history.
pub const DEFAULT_MAX_UNDOS: usize = 100;

/// Default time, in milliseconds, the state must stay unchanged before a new
/// undo point is created.
pub const DEFAULT_STABLE_TIME: u64 = 1000;

/// Default interval, in milliseconds, at which an undo point is created even
/// while the state keeps changing.
pub const DEFAULT_AUTO_SAVE_INTERVAL: u64 = 30000;

impl View for Undoer {
    type V = UndoerModel;

    closed spec fn view(&self) -> UndoerModel {
        UndoerModel {
            max_undos: self.max_undos,
            stable_time: self.stable_time,
            auto_save_interval: self.auto_save_interval,
            undos: self.undos@.map_values(|s: Snapshot| s@),
            redos: self.redos@.map_values(|s: Snapshot| s@),
            flux: match self.flux {
                None => None,
                Some(f) => Some(
                    FluxModel {
                        start_time: f.start_time,
                        latest_change_time: f.latest_change_time,
                        latest_state: f.latest_state@,
                    },
                ),
            },
        }
    }
}

impl Undoer {
    /// A fresh history with the given capacity and timing.
    pub fn with_settings(max_undos: usize, stable_time: u64, auto_save_interval: u64) -> (r: Self)
        ensures
            r@ == (UndoerModel {
                max_undos,
                stable_time,
                auto_save_interval,
                undos: Seq::empty(),
                redos: Seq::empty(),
                flux: None,
            }),
    {
        let r = Undoer {
            max_undos,
            stable_time,
            auto_save_interval,
            undos: Vec::new(),
            redos: Vec::new(),
            flux: None,
        };
        proof {
            assert(r@.undos =~= Seq::<SnapView>::empty());
            assert(r@.redos =~= Seq::<SnapView>::empty());
        }
        r
    }

    /// A fresh history with the default settings.
    pub fn new() -> (r: Self)
        ensures
            r@ == (UndoerModel {
                max_undos: DEFAULT_MAX_UNDOS,
                stable_time: DEFAULT_STABLE_TIME,
                auto_save_interval: DEFAULT_AUTO_SAVE_INTERVAL,
                undos: Seq::empty(),
                redos: Seq::empty(),
                flux: None,
            }),
    {
        Undoer::with_settings(DEFAULT_MAX_UNDOS, DEFAULT_STABLE_TIME, DEFAULT_AUTO_SAVE_INTERVAL)
    }

    /// Do we have an undo point different from the given state?
    pub fn has_undo(&self, current: &Snapshot) -> (r: bool)
        ensures
            r == spec_has_undo(self@, current@),
    {
        if self.undos.len() == 0 {
            false
        } else if self.undos.len() == 1 {
            !snapshot_eq(&self.undos[0], current)
        } else {
            true
        }
    }

    /// Is a redo available for the given state?
    pub fn has_redo(&self, current: &Snapshot) -> (r: bool)
        ensures
            r == spec_has_redo(self@, current@),
    {
        if self.redos.len() > 0 && self.undos.len() > 0 {
            snapshot_eq(&self.undos[self.undos.len() - 1], current)
        } else {
            false
        }
    }

    /// Is the state currently changing?
    pub fn is_in_flux(&self) -> (r: bool)
        ensures
            r == (self@.flux is Some),
    {
        self.flux.is_some()
    }

    /// Record an undo point for the given state.
    pub fn add_undo(&mut self, current: &Snapshot)
        ensures
            final(self)@ == spec_add_undo(old(self)@, current@),
    {
        let ghost pushed = spec_add_undo(old(self)@, current@);
        let push_needed = if self.undos.len() == 0 {
            true
        } else {
            !snapshot_eq(&self.undos[self.undos.len() - 1], current)
        };
        if push_needed {
            self.undos.push(current.duplicate());
            proof {
                assert(self.undos@.map_values(|s: Snapshot| s@) =~= old(
                    self,
                )@.undos.push(current@));
            }
        }
        let ghost full = self.undos@.map_values(|s: Snapshot| s@);
        proof {
            assert(full == if old(self)@.undos.len() > 0 && old(self)@.undos.last() == current@ {
                old(self)@.undos
            } else {
                old(self)@.undos.push(current@)
            });
        }
        while self.undos.len() > self.max_undos
            invariant
                self.max_undos == old(self)@.max_undos,
                self.stable_time == old(self)@.stable_time,
                self.auto_save_interval == old(self)@.auto_save_interval,
                self.redos@.map_values(|s: Snapshot| s@) == old(self)@.redos,
                self.undos@.map_values(|s: Snapshot| s@) == full.skip(
                    full.len() - self.undos@.len(),
                ),
                self.undos@.len() <= full.len(),
                self.undos@.len() >= self.max_undos || self.undos@.len() == full.len(),
            decreases self.undos.len(),
        {
            let ghost before = self.undos@.map_values(|s: Snapshot| s@);
            self.undos.remove(0);
            proof {
                assert(self.undos@.map_values(|s: Snapshot| s@) =~= before.skip(1));
                assert(before.skip(1) =~= full.skip(full.len() - self.undos@.len()));
            }
        }
        self.flux = None;
        proof {
            assert(self@.undos =~= pushed.undos);
            assert(self@ == pushed);
        }
    }

    /// Feed the current state; see `spec_feed` for when an undo point is
    /// created.
    pub fn feed_state(&mut self, now: u64, current: &Snapshot)
        ensures
            final(self)@ == spec_feed(old(self)@, now, current@),
    {
        if self.undos.len() == 0 {
            self.add_undo(current);
            return ;
        }
        if snapshot_eq(&self.undos[self.undos.len() - 1], current) {
            self.flux = None;
            return ;
        }
        self.redos.clear();
        proof {
            assert(self.redos@.map_values(|s: Snapshot| s@) =~= Seq::<SnapView>::empty());
        }
        let stable_time = self.stable_time;
        let auto_save_interval = self.auto_save_interval;
        match &self.flux {
            None => {
                self.flux = Some(
                    Flux {
                        start_time: now,
                        latest_change_time: now,
                        latest_state: current.duplicate(),
                    },
                );
            },
            Some(f) => {
                if snapshot_eq(&f.latest_state, current) {
                    if now >= f.latest_change_time && now - f.latest_change_time >= stable_time {
                        self.add_undo(current);
                    }
                } else {
                    if now >= f.start_time && now - f.start_time >= auto_save_interval {
                        self.add_undo(current);
                    } else {
                        let start_time = f.start_time;
                        self.flux = Some(
                            Flux {
                                start_time,
                                latest_change_time: now,
                                latest_state: current.duplicate(),
                            },
                        );
                    }
                }
            },
        }
    }

    /// Undo: returns the state to restore, if any.
    pub fn undo(&mut self, current: &Snapshot) -> (r: Option<Snapshot>)
        ensures
            final(self)@ == spec_undo(old(self)@, current@).0,
            match r {
                Some(s) => spec_undo(old(self)@, current@).1 == Some(s@),
                None => spec_undo(old(self)@, current@).1 is None,
            },
    {
        if self.has_undo(current) {
            self.flux = None;
            if snapshot_eq(&self.undos[self.undos.len() - 1], current) {
                let popped = self.undos.pop().unwrap();
                self.redos.push(popped);
                proof {
                    assert(self.undos@.map_values(|s: Snapshot| s@) =~= old(
                        self,
                    )@.undos.drop_last());
                    assert(self.redos@.map_values(|s: Snapshot| s@) =~= old(self)@.redos.push(
                        current@,
                    ));
                }
            } else {
                self.redos.push(current.duplicate());
                proof {
                    assert(self.redos@.map_values(|s: Snapshot| s@) =~= old(self)@.redos.push(
                        current@,
                    ));
                }
            }
            let last = self.undos.len() - 1;
            Some(self.undos[last].duplicate())
        } else {
            None
        }
    }

    /// Redo: returns the state to restore, if any; a state change since the
    /// last undo clears the redo stack instead.
    pub fn redo(&mut self, current: &Snapshot) -> (r: Option<Snapshot>)
        ensures
            final(self)@ == spec_redo(old(self)@, current@).0,
            match r {
                Some(s) => spec_redo(old(self)@, current@).1 == Some(s@),
                None => spec_redo(old(self)@, current@).1 is None,
            },
    {
        if self.undos.len() > 0 && !snapshot_eq(&self.undos[self.undos.len() - 1], current) {
            self.redos.clear();
            proof {
                assert(self.redos@.map_values(|s: Snapshot| s@) =~= Seq::<SnapView>::empty());
            }
            None
        } else if self.redos.len() > 0 {
            let popped = self.redos.pop().unwrap();
            let r = popped.duplicate();
            self.undos.push(popped);
            proof {
                assert(self.redos@.map_values(|s: Snapshot| s@) =~= old(self)@.redos.drop_last());
                assert(self.undos@.map_values(|s: Snapshot| s@) =~= old(self)@.undos.push(
                    old(self)@.redos.last(),
                ));
            }
            Some(r)
        } else {
            None
        }
    }
}

/// Law: after one mutating edit from a recorded state, undo restores the
/// exact pre-edit snapshot, and redo right after that undo restores the
/// exact post-edit snapshot. The engine feeds the history before and after
/// the edit's frame and before the undoing frame; the law holds whether or
/// not the state stabilized in between.
pub proof fn lemma_undo_redo_round_trip(
    u0: UndoerModel,
    t0: u64,
    t1: u64,
    pre: SnapView,
    post: SnapView,
)
    requires
        u0.undos.len() > 0,
        u0.undos.last() == pre,
        u0.max_undos >= 2,
        pre != post,
        t0 <= t1,
    ensures
        ({
            let u1 = spec_feed(u0, t0, pre);
            let u2 = spec_feed(u1, t0, post);
            let u3 = spec_feed(u2, t1, post);
            let (u4, restored) = spec_undo(u3, post);
            let (u5, redone) = spec_redo(u4, pre);
            restored == Some(pre) && redone == Some(post)
        }),
{
    let u1 = spec_feed(u0, t0, pre);
    let u2 = spec_feed(u1, t0, post);
    let u3 = spec_feed(u2, t1, post);
    assert(u2.flux == Some(
        FluxModel { start_time: t0, latest_change_time: t0, latest_state: post },
    ));
    if t1 - t0 >= u0.stable_time {
        let pushed = u2.undos.push(post);
        assert(u3 == spec_add_undo(UndoerModel { redos: Seq::empty(), ..u2 }, post));
        if pushed.len() > u0.max_undos {
            assert(u3.undos == pushed.skip(pushed.len() - u0.max_undos));
        }
        assert(u3.undos.len() >= 2);
        assert(u3.undos.last() == post);
        assert(u3.undos.drop_last().last() == pre);
        let (u4, restored) = spec_undo(u3, post);
        assert(restored == Some(pre));
        assert(u4.undos.last() == pre);
        assert(u4.redos.last() == post);
    } else {
        let (u4, restored) = spec_undo(u3, post);
        assert(u3.undos == u0.undos);
        assert(restored == Some(pre));
        assert(u4.redos.last() == post);
    }
}

/// Law: a new edit between an undo and a would-be redo makes the redo a
/// no-op. After the undo the history is fed the restored state and then the
/// newly edited one; from then on redo returns nothing, immediately and
/// after the state settles.
pub proof fn lemma_edit_after_undo_disables_redo(
    u: UndoerModel,
    t2: u64,
    t3: u64,
    pre: SnapView,
    q: SnapView,
)
    requires
        u.undos.len() > 0,
        u.undos.last() == pre,
        q != pre,
    ensures
        ({
            let v1 = spec_feed(u, t2, pre);
            let v2 = spec_feed(v1, t2, q);
            spec_redo(v2, q).1 is None && spec_redo(spec_feed(v2, t3, q), q).1 is None
        }),
{
    let v1 = spec_feed(u, t2, pre);
    let v2 = spec_feed(v1, t2, q);
    assert(v2.redos =~= Seq::<SnapView>::empty());
    let v3 = spec_feed(v2, t3, q);
    assert(v3.redos =~= Seq::<SnapView>::empty());
}

} // verus!
