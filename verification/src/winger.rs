//! The context registry: which window owns which graphics context, and
//! which context is current on the thread.
//!
//! The native graphics API allows at most one current context per thread.
//! The registry is the sole arbiter of that slot. It tracks each context as
//! a two-state machine (`PossiblyCurrent` or `NotCurrent`, each carrying the
//! context's handle) and guarantees, on every return path, that at most one
//! tracked context is current and that no handle is ever lost.
//!
//! The native transitions themselves (binding and unbinding a context) are
//! performed by the caller that owns the native objects; the registry
//! decides when a transition is needed and is told whether it succeeded.

use std::collections::HashMap;
use vstd::prelude::*;
use vstd::pervasive::unreached;

verus! {

broadcast use vstd::std_specs::hash::group_hash_axioms;

/// The errors the registry and its surfaces report.
#[derive(Clone, Copy, Debug, PartialEq, Eq, Structural)]
pub enum WinError {
    /// Native context or window construction failed.
    CreationError,
    /// A native make-current call failed; the registry state is unchanged.
    ContextError,
    /// Shared graphics state could not be initialized after a bind.
    GraphicsStateError,
    /// An internal consistency rule was broken by the caller's input.
    WinInternError,
}

/// One window's graphics context: its handle, tagged with whether the
/// context is bound to the thread. A handle is never dropped by a
/// transition; failure hands it back unchanged.
#[derive(Clone, Copy, Debug, PartialEq, Eq, Structural)]
pub enum CtxCurrWrapper {
    /// The context is bound to the calling thread; drawing through it is valid.
    PossiblyCurrent(u64),
    /// The context exists but is unbound; it must not be drawn through.
    NotCurrent(u64),
}

impl CtxCurrWrapper {
    /// The handle carried by either state.
    pub open spec fn spec_handle(self) -> u64 {
        match self {
            CtxCurrWrapper::PossiblyCurrent(h) => h,
            CtxCurrWrapper::NotCurrent(h) => h,
        }
    }

    /// Whether the context is in the bound state.
    pub open spec fn spec_is_current(self) -> bool {
        self is PossiblyCurrent
    }

    /// The same handle, relabeled as not current. This models the
    /// infallible re-tagging of a context that the driver has already
    /// unbound as a side effect of binding another.
    pub open spec fn spec_demoted(self) -> CtxCurrWrapper {
        CtxCurrWrapper::NotCurrent(self.spec_handle())
    }

    /// The handle carried by either state.
    pub fn handle(&self) -> (h: u64)
        ensures
            h == self.spec_handle(),
    {
        match self {
            CtxCurrWrapper::PossiblyCurrent(h) => *h,
            CtxCurrWrapper::NotCurrent(h) => *h,
        }
    }

    /// Whether the context is in the bound state.
    pub fn is_current(&self) -> (b: bool)
        ensures
            b == self.spec_is_current(),
    {
        match self {
            CtxCurrWrapper::PossiblyCurrent(_) => true,
            CtxCurrWrapper::NotCurrent(_) => false,
        }
    }
}

/// One window's entry: the window identifier and the context bound to it.
pub struct WinSurface {
    win_id: u64,
    win_ctx: CtxCurrWrapper,
}

impl WinSurface {
    /// The identifier of the window this surface belongs to.
    pub closed spec fn spec_id(self) -> u64 {
        self.win_id
    }

    /// The context state of this surface.
    pub closed spec fn spec_ctx(self) -> CtxCurrWrapper {
        self.win_ctx
    }

    /// A freshly constructed surface: building a native context binds it to
    /// the thread, so a new surface starts in the bound state.
    pub fn new(win_id: u64, handle: u64) -> (s: WinSurface)
        ensures
            s.spec_id() == win_id,
            s.spec_ctx() == CtxCurrWrapper::PossiblyCurrent(handle),
    {
        WinSurface { win_id, win_ctx: CtxCurrWrapper::PossiblyCurrent(handle) }
    }

    /// The identifier of the window this surface belongs to.
    pub fn id(&self) -> (i: u64)
        ensures
            i == self.spec_id(),
    {
        self.win_id
    }

    /// The surface's context, for transitions performed on a surface the
    /// caller still owns.
    pub fn ctx(&mut self) -> (c: &mut CtxCurrWrapper)
        ensures
            *c == old(self).spec_ctx(),
            final(self).spec_ctx() == *final(c),
            final(self).spec_id() == old(self).spec_id(),
    {
        &mut self.win_ctx
    }

    /// The handle to draw the back buffer through: available exactly when
    /// the context is current. Drawing through an unbound context is
    /// refused.
    pub fn back_buffer(&self) -> (r: Result<u64, WinError>)
        ensures
            self.spec_ctx().spec_is_current() ==> r == Ok::<u64, WinError>(
                self.spec_ctx().spec_handle(),
            ),
            !self.spec_ctx().spec_is_current() ==> r == Err::<u64, WinError>(
                WinError::WinInternError,
            ),
    {
        match &self.win_ctx {
            CtxCurrWrapper::PossiblyCurrent(h) => Ok(*h),
            CtxCurrWrapper::NotCurrent(_) => Err(WinError::WinInternError),
        }
    }
}

/// The registry's abstract state: which window is current, and each
/// window's context state.
#[verifier::ext_equal]
pub struct RegView {
    pub current: Option<u64>,
    pub wins: Map<u64, CtxCurrWrapper>,
}

/// The registry's invariant: the current pointer names a tracked window,
/// and a tracked context is in the bound state exactly when the current
/// pointer names its window. In particular at most one context is ever
/// bound.
pub open spec fn reg_inv(v: RegView) -> bool {
    &&& match v.current {
        Some(c) => v.wins.contains_key(c),
        None => true,
    }
    &&& forall|i: u64|
        #[trigger] v.wins.contains_key(i) ==> (v.wins[i].spec_is_current() <==> v.current == Some(
            i,
        ))
}

/// The tracked contexts after re-tagging the current one (if any) as not
/// current. Handles are preserved; only the tag of the current entry
/// changes.
pub open spec fn spec_demote_current(v: RegView) -> Map<u64, CtxCurrWrapper> {
    match v.current {
        Some(c) => if v.wins.contains_key(c) {
            v.wins.insert(c, v.wins[c].spec_demoted())
        } else {
            v.wins
        },
        None => v.wins,
    }
}

/// Inserting a window whose context is `ctx` under identifier `id`: a
/// context in the bound state joins the registry and becomes the current
/// window, demoting the previously current one; an unbound context is
/// refused and nothing changes.
pub open spec fn spec_insert(v: RegView, id: u64, ctx: CtxCurrWrapper) -> (RegView, Result<
    u64,
    WinError,
>) {
    if ctx.spec_is_current() {
        (
            RegView { current: Some(id), wins: spec_demote_current(v).insert(id, ctx) },
            Ok(id),
        )
    } else {
        (v, Err(WinError::WinInternError))
    }
}

/// Removing window `id`: its entry is dropped, and the current pointer is
/// cleared if it named `id`. No native transition is involved; the window
/// and its context are gone together.
pub open spec fn spec_remove(v: RegView, id: u64) -> RegView {
    RegView {
        current: if v.current == Some(id) {
            None
        } else {
            v.current
        },
        wins: v.wins.remove(id),
    }
}

/// Acquiring window `id`, where `native_ok` reports whether the native
/// make-current call succeeded when one was attempted:
/// - if `id` is already the current window, nothing changes and no native
///   transition is needed;
/// - otherwise, on success (or when the entry is unexpectedly already
///   bound, which a redundant acquire tolerates), `id`'s context becomes
///   bound, the previously current one is re-tagged as unbound, and `id`
///   becomes current;
/// - otherwise the failure is reported and the registry is unchanged: the
///   target keeps its handle, and the previously current window keeps its
///   place, since the failed attempt never displaced it.
///
/// Every path returns the target's handle or an error, and no path drops
/// or duplicates a handle.
pub open spec fn spec_acquire(v: RegView, id: u64, native_ok: bool) -> (RegView, Result<
    u64,
    WinError,
>) {
    let h = v.wins[id].spec_handle();
    if v.current == Some(id) {
        (v, Ok(h))
    } else if v.wins[id].spec_is_current() || native_ok {
        (
            RegView {
                current: Some(id),
                wins: spec_demote_current(v).insert(id, CtxCurrWrapper::PossiblyCurrent(h)),
            },
            Ok(h),
        )
    } else {
        (v, Err(WinError::ContextError))
    }
}

/// The registry of windows: at most one of the tracked contexts is bound
/// to the thread, and every transition between the two context states goes
/// through these operations.
pub struct WinManager {
    current: Option<u64>,
    others: HashMap<u64, WinSurface>,
}

impl View for WinManager {
    type V = RegView;

    closed spec fn view(&self) -> RegView {
        RegView {
            current: self.current,
            wins: Map::new(
                |i: u64| self.others@.contains_key(i),
                |i: u64| self.others@[i].win_ctx,
            ),
        }
    }
}

impl WinManager {
    /// Each tracked surface is keyed by its own window identifier.
    pub closed spec fn ids_ok(self) -> bool {
        forall|i: u64|
            self.others@.contains_key(i) ==> (#[trigger] self.others@[i]).win_id == i
    }

    /// A well-formed registry: the currency invariant holds, and entries
    /// are keyed consistently.
    pub open spec fn wf(self) -> bool {
        &&& reg_inv(self@)
        &&& self.ids_ok()
    }

    /// An empty registry: no windows, none current.
    pub fn new() -> (r: Result<WinManager, WinError>)
        ensures
            (r matches Ok(m) && {
                &&& m.wf()
                &&& m@.current is None
                &&& m@.wins == Map::<u64, CtxCurrWrapper>::empty()
            }),
    {
        let m = WinManager { current: None, others: HashMap::new() };
        proof {
            assert(m@.wins =~= Map::<u64, CtxCurrWrapper>::empty());
        }
        Ok(m)
    }

    /// How many windows the registry tracks.
    pub fn len(&self) -> (n: usize)
        ensures
            n == self@.wins.dom().len(),
    {
        proof {
            assert(self@.wins.dom() =~= self.others@.dom());
        }
        self.others.len()
    }

    /// Whether window `id` is tracked.
    pub fn contains_window(&self, id: u64) -> (b: bool)
        ensures
            b == self@.wins.contains_key(id),
    {
        self.others.contains_key(&id)
    }

    /// The window that is current, if any.
    pub fn current_window(&self) -> (r: Option<u64>)
        ensures
            r == self@.current,
    {
        self.current
    }

    /// The tracked surface of window `id`, if any.
    pub fn window(&self, id: u64) -> (r: Option<&WinSurface>)
        requires
            self.wf(),
        ensures
            match r {
                Some(s) => {
                    &&& self@.wins.contains_key(id)
                    &&& s.spec_id() == id
                    &&& s.spec_ctx() == self@.wins[id]
                },
                None => !self@.wins.contains_key(id),
            },
    {
        self.others.get(&id)
    }

    /// Re-tag the context of window `id` as not current, by briefly taking
    /// its entry out and reinserting it re-tagged, so that no other slot
    /// ever holds a half-moved value.
    fn demote_entry(&mut self, id: u64)
        requires
            old(self).others@.contains_key(id),
        ensures
            final(self).current == old(self).current,
            final(self).others@ == old(self).others@.insert(
                id,
                (WinSurface {
                    win_id: old(self).others@[id].win_id,
                    win_ctx: old(self).others@[id].win_ctx.spec_demoted(),
                }),
            ),
    {
        let s = match self.others.remove(&id) {
            Some(s) => s,
            None => unreached(),
        };
        let h = s.win_ctx.handle();
        let demoted = WinSurface { win_id: s.win_id, win_ctx: CtxCurrWrapper::NotCurrent(h) };
        self.others.insert(id, demoted);
        proof {
            assert(self.others@ =~= old(self).others@.insert(
                id,
                (WinSurface {
                    win_id: old(self).others@[id].win_id,
                    win_ctx: old(self).others@[id].win_ctx.spec_demoted(),
                }),
            ));
        }
    }

    /// Track a new window. Its context must be in the bound state (its
    /// construction bound it); the previously current window, if any, is
    /// re-tagged as not current, and the new window becomes current. An
    /// unbound context is refused and the registry is unchanged.
    pub fn insert_window(&mut self, surface: WinSurface) -> (r: Result<u64, WinError>)
        requires
            old(self).wf(),
        ensures
            final(self).wf(),
            ({
                let (v2, r2) = spec_insert(old(self)@, surface.spec_id(), surface.spec_ctx());
                &&& final(self)@ == v2
                &&& r == r2
            }),
    {
        match &surface.win_ctx {
            CtxCurrWrapper::PossiblyCurrent(_) => {
                let id = surface.win_id;
                if let Some(old_id) = self.current {
                    if old_id != id {
                        self.demote_entry(old_id);
                    }
                }
                self.current = Some(id);
                self.others.insert(id, surface);
                proof {
                    assert(self@.wins =~= spec_insert(
                        old(self)@,
                        surface.spec_id(),
                        surface.spec_ctx(),
                    ).0.wins);
                }
                Ok(id)
            },
            CtxCurrWrapper::NotCurrent(_) => Err(WinError::WinInternError),
        }
    }

    /// Stop tracking window `id`, dropping its entry. If it was the
    /// current window, the current pointer is cleared; no native call is
    /// needed, since the window and its context are gone together.
    pub fn remove_window(&mut self, id: u64)
        requires
            old(self).wf(),
        ensures
            final(self).wf(),
            final(self)@ == spec_remove(old(self)@, id),
    {
        let was_current = match self.current {
            Some(c) => c == id,
            None => false,
        };
        if was_current {
            self.current = None;
        }
        self.others.remove(&id);
        proof {
            assert(self@.wins =~= spec_remove(old(self)@, id).wins);
        }
    }

    /// Whether acquiring window `id` would need a native make-current
    /// call. The caller performs that call before `get_current` exactly
    /// when this returns true; acquiring the already-current window needs
    /// no native transition at all.
    pub fn needs_transition(&self, id: u64) -> (b: bool)
        requires
            self.wf(),
            self@.wins.contains_key(id),
        ensures
            b == !self@.wins[id].spec_is_current(),
            b == (self@.current != Some(id)),
    {
        match self.current {
            Some(c) => c != id,
            None => true,
        }
    }

    /// Make window `id` the current window and return its context handle.
    ///
    /// `native_ok` reports the outcome of the native make-current call the
    /// caller performed because `needs_transition(id)` held; it is ignored
    /// when no transition was needed. On success the previously current
    /// window is re-tagged as not current: binding the new context already
    /// unbound the old one at the driver level, so only the bookkeeping
    /// must follow, without a second fallible native call. On failure the
    /// error is reported and the registry is left exactly as it was.
    pub fn get_current(&mut self, id: u64, native_ok: bool) -> (r: Result<u64, WinError>)
        requires
            old(self).wf(),
            old(self)@.wins.contains_key(id),
        ensures
            final(self).wf(),
            ({
                let (v2, r2) = spec_acquire(old(self)@, id, native_ok);
                &&& final(self)@ == v2
                &&& r == r2
            }),
    {
        let already = match self.current {
            Some(c) => c == id,
            None => false,
        };
        if already {
            // The invariant makes a mismatch here impossible: the entry the
            // current pointer names is always in the bound state.
            let s = match self.others.get(&id) {
                Some(s) => s,
                None => unreached(),
            };
            let h = match &s.win_ctx {
                CtxCurrWrapper::PossiblyCurrent(h) => *h,
                CtxCurrWrapper::NotCurrent(_) => unreached(),
            };
            return Ok(h);
        }
        let mut s = match self.others.remove(&id) {
            Some(s) => s,
            None => unreached(),
        };
        match s.win_ctx {
            CtxCurrWrapper::PossiblyCurrent(h) => {
                // The entry was unexpectedly already bound: a redundant
                // acquire is tolerated, and only the bookkeeping catches up.
                self.others.insert(id, s);
                let prev = self.current;
                if let Some(c) = prev {
                    self.demote_entry(c);
                }
                self.current = Some(id);
                proof {
                    assert(self@.wins =~= spec_acquire(old(self)@, id, native_ok).0.wins);
                }
                Ok(h)
            },
            CtxCurrWrapper::NotCurrent(h) => {
                if native_ok {
                    s.win_ctx = CtxCurrWrapper::PossiblyCurrent(h);
                    self.others.insert(id, s);
                    let prev = self.current;
                    if let Some(c) = prev {
                        self.demote_entry(c);
                    }
                    self.current = Some(id);
                    proof {
                        assert(self@.wins =~= spec_acquire(old(self)@, id, native_ok).0.wins);
                    }
                    Ok(h)
                } else {
                    // The native call failed and handed the handle back
                    // unchanged: reinsert it and leave everything else
                    // untouched.
                    self.others.insert(id, s);
                    proof {
                        assert(self@.wins =~= old(self)@.wins);
                        assert(self@ =~= old(self)@);
                    }
                    Err(WinError::ContextError)
                }
            },
        }
    }
}

/// In an invariant-respecting registry state, at most one tracked context
/// is in the bound state. Since every operation returns a well-formed
/// registry, this holds after every call.
pub proof fn lemma_at_most_one_current(v: RegView, i: u64, j: u64)
    requires
        reg_inv(v),
        v.wins.contains_key(i),
        v.wins.contains_key(j),
        v.wins[i].spec_is_current(),
        v.wins[j].spec_is_current(),
    ensures
        i == j,
{
}

/// Acquiring conserves handles: whatever the outcome, the set of tracked
/// windows is unchanged and each keeps the handle it had — none is
/// dropped, none is duplicated.
pub proof fn lemma_acquire_preserves_handles(v: RegView, id: u64, native_ok: bool)
    requires
        reg_inv(v),
        v.wins.contains_key(id),
    ensures
        ({
            let v2 = spec_acquire(v, id, native_ok).0;
            &&& forall|j: u64| #[trigger]
                v2.wins.contains_key(j) <==> v.wins.contains_key(j)
            &&& forall|j: u64| #[trigger]
                v.wins.contains_key(j) ==> v2.wins[j].spec_handle() == v.wins[j].spec_handle()
        }),
{
}

/// Acquiring is idempotent: after a successful acquire of `id`, acquiring
/// `id` again changes nothing and returns the same handle, whatever a
/// native call would have reported — none is attempted, as
/// `needs_transition` is false in the state the first acquire produced.
pub proof fn lemma_acquire_idempotent(v: RegView, id: u64, ok1: bool, ok2: bool)
    requires
        reg_inv(v),
        v.wins.contains_key(id),
        spec_acquire(v, id, ok1).1 is Ok,
    ensures
        ({
            let (v1, r1) = spec_acquire(v, id, ok1);
            &&& v1.current == Some(id)
            &&& spec_acquire(v1, id, ok2) == (v1, r1)
        }),
{
}

/// Demotion correctness: when acquiring `b` succeeds while `a` was
/// current, `a`'s context ends not current, `b`'s ends current, and `b` is
/// the current window.
pub proof fn lemma_acquire_demotes(v: RegView, a: u64, b: u64, native_ok: bool)
    requires
        reg_inv(v),
        v.current == Some(a),
        v.wins.contains_key(b),
        a != b,
        spec_acquire(v, b, native_ok).1 is Ok,
    ensures
        ({
            let v2 = spec_acquire(v, b, native_ok).0;
            &&& v2.current == Some(b)
            &&& !v2.wins[a].spec_is_current()
            &&& v2.wins[b].spec_is_current()
        }),
{
}

/// Failure preserves the prior state: when acquiring `b` fails while `a`
/// was current, the registry is exactly as before — `a` is still the
/// current window and its context is still bound.
pub proof fn lemma_acquire_failure_preserves(v: RegView, a: u64, b: u64)
    requires
        reg_inv(v),
        v.current == Some(a),
        v.wins.contains_key(b),
        spec_acquire(v, b, false).1 is Err,
    ensures
        ({
            let v2 = spec_acquire(v, b, false).0;
            &&& v2 == v
            &&& v2.current == Some(a)
            &&& v2.wins[a].spec_is_current()
        }),
{
}

/// Removal clears currency: removing the current window leaves no window
/// current.
pub proof fn lemma_remove_clears_current(v: RegView, a: u64)
    requires
        v.current == Some(a),
    ensures
        spec_remove(v, a).current is None,
{
}

} // verus!
