//! The window-manager state machine.
//!
//! A [`WindowManager`] owns the collection of live windows (ids are unique
//! and never reused), an optional active window, and a monotonic id counter.
//! Commands set animation targets or change the collection; a frame tick
//! steps the physics of every window. Operations on missing ids are benign
//! no-ops by design, not errors.

use vstd::prelude::*;

use crate::animator::AnimationState;
use crate::fixed::Vec3;
use crate::window::{
    spec_move_to, spec_new_window, spec_set_elevation, spec_update_window, Window, WindowType,
    ACTIVE_ELEVATION, REST_ELEVATION,
};

verus! {

/// Some window in the sequence carries this id.
pub open spec fn has_id(s: Seq<Window>, id: u64) -> bool {
    exists|i: int| 0 <= i < s.len() && (#[trigger] s[i]).id == id
}

/// No two windows in the sequence share an id.
pub open spec fn ids_unique(s: Seq<Window>) -> bool {
    forall|i: int, j: int|
        0 <= i < j < s.len() ==> (#[trigger] s[i]).id != (#[trigger] s[j]).id
}

/// The demotion half of a focus command: the previously active window is
/// retargeted to the resting elevation — but only when a *different* window
/// is being focused, so re-focusing the active window leaves it alone.
pub open spec fn spec_lower_one(w: Window, prev: Option<u64>, id: u64) -> Window {
    if prev == Some(w.id) && w.id != id {
        spec_set_elevation(w, REST_ELEVATION)
    } else {
        w
    }
}

/// The promotion half of a focus command: the newly focused window is
/// retargeted to the active elevation.
pub open spec fn spec_raise_one(w: Window, id: u64) -> Window {
    if w.id == id {
        spec_set_elevation(w, ACTIVE_ELEVATION)
    } else {
        w
    }
}

/// What one focus command does to one window: demotion of the previously
/// active window when it is not itself the one being focused, then promotion
/// of the newly focused one; every other window is untouched. Re-focusing
/// the active window at its active elevation target therefore changes
/// nothing, since retargeting to the value already targeted is a no-op.
pub open spec fn spec_focus_one(w: Window, id: u64, prev: Option<u64>) -> Window {
    spec_raise_one(spec_lower_one(w, prev, id), id)
}

/// The whole collection after one focus command.
pub open spec fn spec_focus_windows(s: Seq<Window>, prev: Option<u64>, id: u64) -> Seq<Window> {
    s.map_values(|w: Window| spec_focus_one(w, id, prev))
}

/// The active id after one focus command: the named window when it exists,
/// else unchanged (the known gap: focusing a missing id still demotes the
/// previously active window, but does not steal the active reference).
pub open spec fn spec_focus_active(s: Seq<Window>, prev: Option<u64>, id: u64) -> Option<u64> {
    if has_id(s, id) {
        Some(id)
    } else {
        prev
    }
}

/// The collection after closing `id`: every window but the named one, in
/// their old order.
pub open spec fn spec_close_windows(s: Seq<Window>, id: u64) -> Seq<Window> {
    s.filter(|w: Window| w.id != id)
}

/// The active id after closing `id`: cleared when it pointed at the closed
/// window, else unchanged.
pub open spec fn spec_close_active(active: Option<u64>, id: u64) -> Option<u64> {
    if active == Some(id) {
        None
    } else {
        active
    }
}

/// The window `spawn_window` inserts: a fresh window of the requested type
/// whose position animation is restarted at the origin for the entry motion.
pub open spec fn spec_spawned_window(id: u64, title: String, w_type: WindowType, now: u64)
    -> Window {
    Window {
        position_anim: crate::animator::spec_new_anim(Vec3 { x: 0, y: 0, z: 0 }, now),
        ..spec_new_window(id, title, w_type, now)
    }
}

/// Coordinates the window collection, the focus, and per-frame updates.
pub struct WindowManager {
    /// The live windows; ids are unique, insertion order carries no meaning.
    pub windows: Vec<Window>,
    /// The next id to hand out; monotonic, never reused.
    pub next_id: u64,
    /// The window holding focus, if any; always an id of a live window.
    pub active_window_id: Option<u64>,
}

impl WindowManager {
    /// Every window is well-formed, ids are unique and below the counter,
    /// and the active reference names a live window.
    pub open spec fn wf(self) -> bool {
        &&& forall|i: int|
            0 <= i < self.windows@.len() ==> (#[trigger] self.windows@[i]).wf()
        &&& ids_unique(self.windows@)
        &&& forall|i: int|
            0 <= i < self.windows@.len() ==> (#[trigger] self.windows@[i]).id < self.next_id
        &&& match self.active_window_id {
            Some(id) => has_id(self.windows@, id),
            None => true,
        }
    }

    /// An empty manager: no windows, no focus, ids starting at one.
    pub fn new() -> (r: WindowManager)
        ensures
            r.wf(),
            r.windows@.len() == 0,
            r.next_id == 1,
            r.active_window_id is None,
    {
        WindowManager { windows: Vec::new(), next_id: 1, active_window_id: None }
    }

    /// Allocate the next id, insert a fresh window of the given type with
    /// its position animation restarted at the origin, and focus it. Every
    /// window already present sees exactly the focus command; the new window
    /// ends up active, its elevation targeting the active height.
    pub fn spawn_window(&mut self, title: String, w_type: WindowType, now: u64) -> (id: u64)
        requires
            old(self).wf(),
            old(self).next_id < u64::MAX,
        ensures
            id == old(self).next_id,
            final(self).wf(),
            final(self).next_id == old(self).next_id + 1,
            final(self).active_window_id == Some(id),
            final(self).windows@.len() == old(self).windows@.len() + 1,
            forall|i: int|
                0 <= i < old(self).windows@.len() ==> final(self).windows@[i] == spec_focus_one(
                    #[trigger] old(self).windows@[i],
                    id,
                    old(self).active_window_id,
                ),
            final(self).windows@[old(self).windows@.len() as int] == spec_focus_one(
                spec_spawned_window(id, title, w_type, now),
                id,
                old(self).active_window_id,
            ),
    {
        let id = self.next_id;
        self.next_id = self.next_id + 1;

        let mut win = Window::new(id, title, w_type, now);
        // Spawn at the center; the elevation still animates in from the
        // type-derived starting height.
        win.position_anim = AnimationState::new(Vec3::zero(), now);
        self.windows.push(win);

        proof {
            let s0 = old(self).windows@;
            let s = self.windows@;
            let n = s.len() - 1;
            assert forall|i: int, j: int| 0 <= i < j < s.len() implies (#[trigger] s[i]).id != (
            #[trigger] s[j]).id by {
                if j == n {
                    assert(s0[i].id < id);
                }
            }
            assert forall|i: int| 0 <= i < s.len() implies (#[trigger] s[i]).wf() && s[i].id
                < self.next_id by {
                if i < n {
                    assert(s[i] == s0[i]);
                    assert(s0[i].wf() && s0[i].id < old(self).next_id);
                }
            }
            match old(self).active_window_id {
                Some(a) => {
                    let w = choose|i: int| 0 <= i < s0.len() && (#[trigger] s0[i]).id == a;
                    assert(s[w].id == a);
                    assert(has_id(s, a));
                },
                None => {},
            }
        }
        self.focus_window(id);
        proof {
            assert(old(self).windows@.push(
                spec_spawned_window(id, title, w_type, now),
            )[old(self).windows@.len() as int] == spec_spawned_window(id, title, w_type, now));
        }
        id
    }

    /// Remove the window carrying `id`, when present; clear the active
    /// reference when it pointed at the removed window. Closing a missing id
    /// changes nothing, so the command is idempotent.
    pub fn close_window(&mut self, id: u64)
        requires
            old(self).wf(),
        ensures
            final(self).windows@ == spec_close_windows(old(self).windows@, id),
            !has_id(final(self).windows@, id),
            final(self).active_window_id == spec_close_active(old(self).active_window_id, id),
            final(self).next_id == old(self).next_id,
            final(self).wf(),
    {
        let ghost s0 = self.windows@;
        let idx = find_index(&self.windows, id);
        match idx {
            Some(i) => {
                self.windows.remove(i);
                proof {
                    lemma_remove_is_close(s0, i as int, id);
                    s0.remove_ensures(i as int);
                    let s = self.windows@;
                    assert forall|k: int| 0 <= k < s.len() implies (#[trigger] s[k]).wf() && s[
                    k].id < self.next_id by {
                        if k < i as int {
                            assert(s[k] == s0[k]);
                        } else {
                            assert(s[k] == s0[k + 1]);
                        }
                    }
                    assert forall|p: int, q: int| 0 <= p < q < s.len() implies (#[trigger] s[
                    p]).id != (#[trigger] s[q]).id by {
                        let p2 = if p < i as int { p } else { p + 1 };
                        let q2 = if q < i as int { q } else { q + 1 };
                        assert(s[p] == s0[p2]);
                        assert(s[q] == s0[q2]);
                        assert(s0[p2].id != s0[q2].id);
                    }
                }
            },
            None => {
                proof {
                    lemma_close_absent(s0, id);
                }
            },
        }
        proof {
            lemma_close_has_no_id(s0, id);
        }
        match self.active_window_id {
            Some(a) => {
                if a == id {
                    self.active_window_id = None;
                } else {
                    proof {
                        lemma_close_keeps_other(s0, id, a);
                    }
                }
            },
            None => {},
        }
    }

    /// Give `id` the focus: when a different window is currently active (and
    /// still live) it is retargeted to the resting elevation; the named
    /// window is retargeted to the active elevation and becomes the active
    /// window. Re-focusing the window that is already active therefore only
    /// re-sets the target it already has, a no-op. Focusing a missing id
    /// leaves the active reference alone, though it still demotes the
    /// previously active window.
    pub fn focus_window(&mut self, id: u64)
        requires
            old(self).wf(),
        ensures
            final(self).windows@.len() == old(self).windows@.len(),
            forall|i: int|
                0 <= i < old(self).windows@.len() ==> final(self).windows@[i] == spec_focus_one(
                    #[trigger] old(self).windows@[i],
                    id,
                    old(self).active_window_id,
                ),
            final(self).windows@ == spec_focus_windows(
                old(self).windows@,
                old(self).active_window_id,
                id,
            ),
            final(self).active_window_id == spec_focus_active(
                old(self).windows@,
                old(self).active_window_id,
                id,
            ),
            final(self).next_id == old(self).next_id,
            final(self).wf(),
    {
        let ghost prev = self.active_window_id;
        let ghost s0 = self.windows@;

        // Lower the previously active window, when it is still around and is
        // not itself the window being focused.
        match self.active_window_id {
            Some(old_id) => {
                if old_id != id {
                    let idx = find_index(&self.windows, old_id);
                    match idx {
                        Some(i) => {
                            let w = win_at(&mut self.windows, i);
                            w.set_elevation(REST_ELEVATION);
                            proof {
                                assert forall|k: int| 0 <= k < s0.len() implies self.windows@[k]
                                    == spec_lower_one(#[trigger] s0[k], prev, id)
                                    && self.windows@[k].wf() by {
                                    if k < i as int {
                                        assert(s0[k].id != s0[i as int].id);
                                    } else if k > i as int {
                                        assert(s0[i as int].id != s0[k].id);
                                    }
                                }
                            }
                        },
                        None => {
                            proof {
                                assert forall|k: int| 0 <= k < s0.len() implies self.windows@[k]
                                    == spec_lower_one(#[trigger] s0[k], prev, id)
                                    && self.windows@[k].wf() by {
                                    assert(s0[k].id != old_id);
                                }
                            }
                        },
                    }
                } else {
                    proof {
                        assert forall|k: int| 0 <= k < s0.len() implies self.windows@[k]
                            == spec_lower_one(#[trigger] s0[k], prev, id)
                            && self.windows@[k].wf() by {}
                    }
                }
            },
            None => {
                proof {
                    assert forall|k: int| 0 <= k < s0.len() implies self.windows@[k]
                        == spec_lower_one(#[trigger] s0[k], prev, id) && self.windows@[k].wf()
                        by {}
                }
            },
        }

        let ghost s1 = self.windows@;
        proof {
            assert(s1.len() == s0.len());
            assert forall|k: int| 0 <= k < s0.len() implies (#[trigger] s1[k]).id == s0[k].id
                by {}
        }

        // Raise the newly focused window and record it as active.
        let idx2 = find_index(&self.windows, id);
        match idx2 {
            Some(j) => {
                let w = win_at(&mut self.windows, j);
                w.set_elevation(ACTIVE_ELEVATION);
                self.active_window_id = Some(id);
                proof {
                    assert(s0[j as int].id == id);
                    assert(has_id(s0, id));
                    assert forall|k: int| 0 <= k < s0.len() implies self.windows@[k]
                        == spec_raise_one(#[trigger] s1[k], id) && self.windows@[k].wf() by {
                        if k < j as int {
                            assert(s1[k].id != s1[j as int].id);
                        } else if k > j as int {
                            assert(s1[j as int].id != s1[k].id);
                        }
                    }
                }
            },
            None => {
                proof {
                    assert forall|k: int| 0 <= k < s0.len() implies self.windows@[k]
                        == spec_raise_one(#[trigger] s1[k], id) && self.windows@[k].wf() by {
                        assert(s1[k].id != id);
                    }
                    assert forall|k: int| 0 <= k < s0.len() implies (#[trigger] s0[k]).id != id
                        by {
                        assert(s1[k].id != id);
                    }
                    assert(!has_id(s0, id));
                }
            },
        }

        proof {
            assert forall|k: int| 0 <= k < s0.len() implies self.windows@[k] == spec_focus_one(
                #[trigger] s0[k],
                id,
                prev,
            ) by {
                assert(self.windows@[k] == spec_raise_one(s1[k], id));
                assert(s1[k] == spec_lower_one(s0[k], prev, id));
            }
            assert(self.windows@ =~= spec_focus_windows(s0, prev, id));
            // The surviving well-formedness of the whole manager.
            assert forall|p: int, q: int| 0 <= p < q < s0.len() implies (
            #[trigger] self.windows@[p]).id != (#[trigger] self.windows@[q]).id by {
                assert(self.windows@[p].id == s0[p].id);
                assert(self.windows@[q].id == s0[q].id);
            }
            assert forall|k: int| 0 <= k < s0.len() implies (#[trigger] self.windows@[k]).id
                < self.next_id by {
                assert(self.windows@[k].id == s0[k].id);
            }
            match self.active_window_id {
                Some(a) => {
                    let w = choose|k: int| 0 <= k < s0.len() && (#[trigger] s0[k]).id == a;
                    assert(self.windows@[w].id == a);
                },
                None => {},
            }
        }
    }

    /// Retarget the position animation of the window carrying `id`; silently
    /// ignored when no window does.
    pub fn move_window(&mut self, id: u64, target: Vec3)
        requires
            old(self).wf(),
            target.in_range(),
        ensures
            final(self).windows@.len() == old(self).windows@.len(),
            forall|i: int|
                0 <= i < old(self).windows@.len() ==> final(self).windows@[i] == (
                if old(self).windows@[i].id == id {
                    spec_move_to(#[trigger] old(self).windows@[i], target)
                } else {
                    old(self).windows@[i]
                }),
            final(self).active_window_id == old(self).active_window_id,
            final(self).next_id == old(self).next_id,
            final(self).wf(),
    {
        let ghost s0 = self.windows@;
        let idx = find_index(&self.windows, id);
        match idx {
            Some(i) => {
                let w = win_at(&mut self.windows, i);
                w.move_to(target);
                proof {
                    assert forall|k: int| 0 <= k < s0.len() implies (
                    #[trigger] self.windows@[k]).wf() && self.windows@[k].id == s0[k].id by {
                        if k < i as int {
                            assert(s0[k].id != s0[i as int].id);
                        } else if k > i as int {
                            assert(s0[i as int].id != s0[k].id);
                        }
                    }
                    assert forall|p: int, q: int| 0 <= p < q < s0.len() implies (
                    #[trigger] self.windows@[p]).id != (#[trigger] self.windows@[q]).id by {
                        assert(self.windows@[p].id == s0[p].id);
                        assert(self.windows@[q].id == s0[q].id);
                    }
                    match self.active_window_id {
                        Some(a) => {
                            let w2 = choose|k: int|
                                0 <= k < s0.len() && (#[trigger] s0[k]).id == a;
                            assert(self.windows@[w2].id == a);
                        },
                        None => {},
                    }
                }
            },
            None => {},
        }
    }

    /// One frame tick: step the physics of every window to the timestamp
    /// `now`. Windows do not interact, so the iteration order carries no
    /// meaning; each window's outcome depends on its own state alone.
    pub fn update(&mut self, now: u64)
        requires
            old(self).wf(),
        ensures
            final(self).windows@.len() == old(self).windows@.len(),
            forall|i: int|
                0 <= i < old(self).windows@.len() ==> final(self).windows@[i]
                    == spec_update_window(#[trigger] old(self).windows@[i], now),
            final(self).active_window_id == old(self).active_window_id,
            final(self).next_id == old(self).next_id,
            final(self).wf(),
    {
        let mut k: usize = 0;
        while k < self.windows.len()
            invariant
                old(self).wf(),
                k <= self.windows@.len(),
                self.windows@.len() == old(self).windows@.len(),
                self.next_id == old(self).next_id,
                self.active_window_id == old(self).active_window_id,
                forall|i: int|
                    0 <= i < k ==> self.windows@[i] == spec_update_window(
                        #[trigger] old(self).windows@[i],
                        now,
                    ),
                forall|i: int| 0 <= i < k ==> (#[trigger] self.windows@[i]).wf(),
                forall|i: int|
                    k <= i < self.windows@.len() ==> self.windows@[i] == #[trigger] old(
                        self,
                    ).windows@[i],
            decreases self.windows@.len() - k,
        {
            proof {
                assert(self.windows@[k as int] == old(self).windows@[k as int]);
                assert(old(self).windows@[k as int].wf());
            }
            let w = win_at(&mut self.windows, k);
            w.update_physics(now);
            k = k + 1;
        }
        proof {
            assert forall|p: int, q: int| 0 <= p < q < self.windows@.len() implies (
            #[trigger] self.windows@[p]).id != (#[trigger] self.windows@[q]).id by {
                assert(self.windows@[p] == spec_update_window(old(self).windows@[p], now));
                assert(self.windows@[q] == spec_update_window(old(self).windows@[q], now));
                assert(old(self).windows@[p].id != old(self).windows@[q].id);
            }
            assert forall|i: int| 0 <= i < self.windows@.len() implies (
            #[trigger] self.windows@[i]).id < self.next_id by {
                assert(self.windows@[i] == spec_update_window(old(self).windows@[i], now));
                assert(old(self).windows@[i].id < old(self).next_id);
            }
            match self.active_window_id {
                Some(a) => {
                    let w = choose|i: int|
                        0 <= i < old(self).windows@.len() && (#[trigger] old(
                            self,
                        ).windows@[i]).id == a;
                    assert(self.windows@[w] == spec_update_window(old(self).windows@[w], now));
                    assert(self.windows@[w].id == a);
                },
                None => {},
            }
        }
    }
}

/// Borrow one window of the collection mutably.
fn win_at(windows: &mut Vec<Window>, i: usize) -> (w: &mut Window)
    requires
        i < old(windows).len(),
    ensures
        *w == old(windows)@[i as int],
        final(windows)@ == old(windows)@.update(i as int, *final(w)),
{
    &mut windows[i]
}

/// Find the index of the window carrying `id`, when one does.
fn find_index(windows: &Vec<Window>, id: u64) -> (r: Option<usize>)
    ensures
        match r {
            Some(i) => i < windows@.len() && windows@[i as int].id == id,
            None => !has_id(windows@, id),
        },
{
    let mut k: usize = 0;
    while k < windows.len()
        invariant
            k <= windows@.len(),
            forall|i: int| 0 <= i < k ==> (#[trigger] windows@[i]).id != id,
        decreases windows@.len() - k,
    {
        if windows[k].id == id {
            return Some(k);
        }
        k = k + 1;
    }
    None
}

/// Filtering out an id that no window carries leaves the collection as it is.
proof fn lemma_close_absent(s: Seq<Window>, id: u64)
    requires
        !has_id(s, id),
    ensures
        spec_close_windows(s, id) == s,
    decreases s.len(),
{
    reveal_with_fuel(Seq::filter, 2);
    if s.len() > 0 {
        assert forall|k: int| 0 <= k < s.drop_last().len() implies (
        #[trigger] s.drop_last()[k]).id != id by {
            assert(s.drop_last()[k] == s[k]);
        }
        lemma_close_absent(s.drop_last(), id);
        assert(s.last().id != id);
        assert(spec_close_windows(s, id) =~= s);
    } else {
        assert(spec_close_windows(s, id) =~= s);
    }
}

/// When ids are unique, removing the one window that carries `id` is the
/// same as filtering `id` out.
proof fn lemma_remove_is_close(s: Seq<Window>, i: int, id: u64)
    requires
        ids_unique(s),
        0 <= i < s.len(),
        s[i].id == id,
    ensures
        s.remove(i) == spec_close_windows(s, id),
{
    reveal_with_fuel(Seq::filter, 2);
    let pred = |w: Window| w.id != id;
    let front = s.subrange(0, i);
    let mid = s.subrange(i, i + 1);
    let back = s.subrange(i + 1, s.len() as int);
    assert(s =~= front + mid + back);
    Seq::filter_distributes_over_add(front + mid, back, pred);
    Seq::filter_distributes_over_add(front, mid, pred);
    assert forall|k: int| 0 <= k < front.len() implies (#[trigger] front[k]).id != id by {
        assert(front[k] == s[k]);
        assert(s[k].id != s[i].id);
    }
    assert forall|k: int| 0 <= k < back.len() implies (#[trigger] back[k]).id != id by {
        assert(back[k] == s[i + 1 + k]);
        assert(s[i].id != s[i + 1 + k].id);
    }
    lemma_close_absent(front, id);
    lemma_close_absent(back, id);
    assert(mid.drop_last() =~= Seq::<Window>::empty());
    assert(mid.last() == s[i]);
    assert(mid.filter(pred) =~= Seq::<Window>::empty());
    assert(s.filter(pred) =~= front + back);
    assert(s.remove(i) =~= front + back);
}

/// After a close, no window carries the closed id.
proof fn lemma_close_has_no_id(s: Seq<Window>, id: u64)
    ensures
        !has_id(spec_close_windows(s, id), id),
{
    let pred = |w: Window| w.id != id;
    let out = s.filter(pred);
    assert forall|k: int| 0 <= k < out.len() implies (#[trigger] out[k]).id != id by {
        s.lemma_filter_pred(pred, k);
    }
}

/// A close keeps every window with a different id.
proof fn lemma_close_keeps_other(s: Seq<Window>, id: u64, other: u64)
    requires
        other != id,
        has_id(s, other),
    ensures
        has_id(spec_close_windows(s, id), other),
    decreases s.len(),
{
    reveal_with_fuel(Seq::filter, 2);
    let pred = |w: Window| w.id != id;
    if s.len() > 0 {
        if s.last().id == other {
            assert(pred(s.last()));
            let out = s.filter(pred);
            assert(out.last() == s.last());
            assert(out[out.len() - 1].id == other);
        } else {
            let k = choose|k: int| 0 <= k < s.len() && (#[trigger] s[k]).id == other;
            assert(s.drop_last()[k] == s[k]);
            assert(has_id(s.drop_last(), other));
            lemma_close_keeps_other(s.drop_last(), id, other);
            let sub = s.drop_last().filter(pred);
            let j = choose|j: int| 0 <= j < sub.len() && (#[trigger] sub[j]).id == other;
            assert(s.filter(pred)[j] == sub[j]);
        }
    }
}

/// Law: closing a window twice is safe and has the same observable effect
/// as closing it once, both on the collection and on the active reference.
pub proof fn lemma_close_idempotent(s: Seq<Window>, active: Option<u64>, id: u64)
    ensures
        spec_close_windows(spec_close_windows(s, id), id) == spec_close_windows(s, id),
        spec_close_active(spec_close_active(active, id), id) == spec_close_active(active, id),
{
    lemma_close_has_no_id(s, id);
    lemma_close_absent(spec_close_windows(s, id), id);
}

/// Law: re-focusing the window that is already active changes nothing, as
/// long as its elevation animation already targets the active height (as
/// every focus leaves it): no other window is demoted, and retargeting the
/// active window to the value it already targets is a no-op.
pub proof fn lemma_refocus_active_is_noop(s: Seq<Window>, id: u64)
    requires
        has_id(s, id),
        forall|i: int|
            0 <= i < s.len() && (#[trigger] s[i]).id == id ==> s[i].elevation_anim.target
                == (Vec3 { x: ACTIVE_ELEVATION, y: 0, z: 0 }),
    ensures
        spec_focus_windows(s, Some(id), id) == s,
        spec_focus_active(s, Some(id), id) == Some(id),
{
    assert forall|k: int| 0 <= k < s.len() implies spec_focus_one(#[trigger] s[k], id, Some(id))
        == s[k] by {
        if s[k].id == id {
            assert(spec_set_elevation(s[k], ACTIVE_ELEVATION) == s[k]);
        }
    }
    assert(spec_focus_windows(s, Some(id), id) =~= s);
}

/// Law: focusing `a` and then `b` (both live, distinct) leaves `b` active,
/// with `b`'s elevation animation targeting the active height and `a`'s the
/// resting height — so exactly one of the two targets the active height.
pub proof fn lemma_focus_then_focus(s: Seq<Window>, prev: Option<u64>, a: u64, b: u64)
    requires
        ids_unique(s),
        has_id(s, a),
        has_id(s, b),
        a != b,
    ensures
        ({
            let s1 = spec_focus_windows(s, prev, a);
            let act1 = spec_focus_active(s, prev, a);
            let s2 = spec_focus_windows(s1, act1, b);
            let act2 = spec_focus_active(s1, act1, b);
            &&& act2 == Some(b)
            &&& forall|i: int|
                0 <= i < s.len() && (#[trigger] s[i]).id == b ==> s2[i].elevation_anim.target
                    == (Vec3 { x: ACTIVE_ELEVATION, y: 0, z: 0 })
            &&& forall|i: int|
                0 <= i < s.len() && (#[trigger] s[i]).id == a ==> s2[i].elevation_anim.target
                    == (Vec3 { x: REST_ELEVATION, y: 0, z: 0 })
        }),
{
    let s1 = spec_focus_windows(s, prev, a);
    let act1 = spec_focus_active(s, prev, a);
    let s2 = spec_focus_windows(s1, act1, b);
    assert(act1 == Some(a));
    assert forall|i: int| 0 <= i < s.len() implies (#[trigger] s1[i]).id == s[i].id by {}
    let j = choose|j: int| 0 <= j < s.len() && (#[trigger] s[j]).id == b;
    assert(s1[j].id == b);
    assert(has_id(s1, b));
    assert forall|i: int| 0 <= i < s.len() && (#[trigger] s[i]).id == b implies s2[
    i].elevation_anim.target == (Vec3 { x: ACTIVE_ELEVATION, y: 0, z: 0 }) by {
        assert(s2[i] == spec_focus_one(s1[i], b, act1));
    }
    assert forall|i: int| 0 <= i < s.len() && (#[trigger] s[i]).id == a implies s2[
    i].elevation_anim.target == (Vec3 { x: REST_ELEVATION, y: 0, z: 0 }) by {
        assert(s2[i] == spec_focus_one(s1[i], b, act1));
        assert(s1[i].id == a);
    }
}

} // verus!
