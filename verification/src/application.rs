//! The window lifecycle manager: a slot table with generation counters that
//! tracks windows through creation, active rendering, close-request and
//! destruction, and routes platform window events to the correct slot or
//! rejects stale ones.
//!
//! The host event loop owns the platform and GPU backends; it hands the
//! manager plain values (platform identifiers, surface-creation results, the
//! closed set of event kinds below) and performs the one action the manager
//! requests back: terminating the event loop when a method returns `true`.

use vstd::prelude::*;

use crate::abstraction::RenderSurface;
use crate::window::AppWindow;

verus! {

/// Errors surfaced by the window manager and its host.
#[derive(Clone, Debug, PartialEq, Eq)]
pub enum AppErrors {
    /// A wrapped host error.
    Error(String),
    /// The platform event loop itself failed.
    WinitEventLoopError(String),
    /// The slot table reached its addressable bound.
    MaxWindowCountReached(usize),
    /// An event referenced a platform window the manager does not know:
    /// the manager's model and the platform have desynchronized.
    WindowEventIssuedButNoAssociatedWindowCouldBeFound,
    /// The render-surface factory failed; the slot table is untouched.
    RenderSurfaceCreationFailed(String),
}

/// The closed set of platform window events the manager gives lifecycle
/// meaning. Everything else in the platform's open event taxonomy is passed
/// as `Other` and discarded at the manager level.
#[derive(Clone, Copy, Debug, PartialEq, Eq, Structural)]
pub enum WindowEvent {
    /// The user or platform asked the window to close.
    CloseRequested,
    /// The platform confirmed the window was destroyed.
    Destroyed,
    /// The platform asked for a repaint.
    RedrawRequested,
    /// Any input or lifecycle event without manager-level meaning.
    Other,
}

/// User-defined events injected into the event loop. The host defines no
/// meaningful ones; the single variant below is discarded on receipt.
#[derive(Clone, Copy, Debug)]
pub enum AppEvents {
    Ignored,
}

/// Builder for an application host.
pub struct AppBuilder {}

impl AppBuilder {
    pub fn new() -> (b: AppBuilder) {
        AppBuilder {}
    }
}

/// A logical window handle: a slot index plus the generation the slot had
/// when the handle was issued, so a stale handle to a reused slot can be
/// told apart by comparing generations.
#[derive(Clone, Copy, Debug, PartialEq, Eq, Structural)]
pub struct AppWindowId {
    pub index: usize,
    pub generation: usize,
}

/// The result of resolving a raw platform identifier to a slot.
#[derive(Clone, Copy, Debug, PartialEq, Eq, Structural)]
pub enum AppFindWindowResult {
    /// The slot holds both the identifier and a live render surface.
    Found(AppWindowId),
    /// The slot holds the identifier but its surface was already released:
    /// a close was requested and destruction is not yet confirmed.
    FoundButClosing(AppWindowId),
    /// No slot holds the identifier.
    NotFound,
}

/// The lifecycle-relevant state of one slot: its platform identifier (if
/// any), whether it still owns a render surface, and its generation.
pub struct SlotView {
    pub id: Option<u64>,
    pub has_surface: bool,
    pub generation: usize,
}

impl<S> View for AppWindow<S> {
    type V = SlotView;

    open spec fn view(&self) -> SlotView {
        SlotView {
            id: self.id,
            has_surface: self.render_surface.is_some(),
            generation: self.generation,
        }
    }
}

/// Slot `i` exists and holds platform identifier `pid`.
pub open spec fn slot_matches(slots: Seq<SlotView>, pid: u64, i: int) -> bool {
    0 <= i < slots.len() && slots[i].id == Some(pid)
}

/// No slot holds platform identifier `pid`.
pub open spec fn no_slot_matches(slots: Seq<SlotView>, pid: u64) -> bool {
    forall|i: int| 0 <= i < slots.len() ==> (#[trigger] slots[i]).id != Some(pid)
}

/// Slot `i` is the lowest-index slot holding platform identifier `pid`.
pub open spec fn first_match(slots: Seq<SlotView>, pid: u64, i: int) -> bool {
    slot_matches(slots, pid, i) && forall|j: int| 0 <= j < i ==> (#[trigger] slots[j]).id != Some(
        pid,
    )
}

/// A slot the manager may hand out again: free, and with room left in its
/// generation counter. A free slot whose counter is exhausted is retired so
/// generations stay strictly increasing.
pub open spec fn slot_reusable(s: SlotView) -> bool {
    s.id is None && s.generation < usize::MAX
}

/// Slot `i` is the lowest-index reusable slot.
pub open spec fn first_reusable(slots: Seq<SlotView>, i: int) -> bool {
    0 <= i < slots.len() && slot_reusable(slots[i]) && forall|j: int|
        0 <= j < i ==> !slot_reusable(#[trigger] slots[j])
}

/// No slot can be reused; creation must append.
pub open spec fn no_reusable(slots: Seq<SlotView>) -> bool {
    forall|i: int| 0 <= i < slots.len() ==> !slot_reusable(#[trigger] slots[i])
}

/// The number of slots holding a live platform identifier.
pub open spec fn count_live(slots: Seq<SlotView>) -> int
    decreases slots.len(),
{
    if slots.len() == 0 {
        0
    } else {
        count_live(slots.drop_last()) + if slots.last().id is Some {
            1int
        } else {
            0int
        }
    }
}

/// A free slot owns no surface, and every slot ever allocated has a
/// generation of at least one.
pub open spec fn slot_wf(s: SlotView) -> bool {
    (s.id is None ==> !s.has_surface) && s.generation >= 1
}

/// A successful creation stored a surface for platform window `sid` either
/// by reusing the lowest-index reusable slot with its generation bumped by
/// one, or — when no slot could be reused — by appending a fresh slot at
/// generation one. The handle names the slot either way. Appending can only
/// have happened below the table's addressable bound: at the bound creation
/// fails with a capacity error instead.
pub open spec fn created_in_slot(
    old_slots: Seq<SlotView>,
    new_slots: Seq<SlotView>,
    h: AppWindowId,
    sid: u64,
) -> bool {
    if (h.index as int) < old_slots.len() {
        &&& first_reusable(old_slots, h.index as int)
        &&& h.generation == old_slots[h.index as int].generation + 1
        &&& new_slots == old_slots.update(
            h.index as int,
            SlotView { id: Some(sid), has_surface: true, generation: h.generation },
        )
    } else {
        &&& h.index == old_slots.len()
        &&& no_reusable(old_slots)
        &&& old_slots.len() + 1 != isize::MAX as usize
        &&& h.generation == 1
        &&& new_slots == old_slots.push(
            SlotView { id: Some(sid), has_surface: true, generation: 1 },
        )
    }
}

/// The window manager: the slot table, the last fatal error observed, and
/// the event-routing state machine over both.
pub struct App<S> {
    pub windows: Vec<AppWindow<S>>,
    pub last_error: Option<AppErrors>,
}

impl<S> App<S> {
    /// The lifecycle-relevant view of the slot table.
    pub open spec fn slots(self) -> Seq<SlotView> {
        Seq::new(self.windows@.len(), |i: int| self.windows@[i]@)
    }

    /// Every slot is well formed.
    pub open spec fn wf(self) -> bool {
        forall|i: int| 0 <= i < self.slots().len() ==> slot_wf(#[trigger] self.slots()[i])
    }
}

impl<S: RenderSurface> App<S> {
    /// An empty manager: no slots, no recorded error.
    pub fn new() -> (app: App<S>)
        ensures
            app.slots().len() == 0,
            app.last_error is None,
            app.wf(),
    {
        App { windows: Vec::new(), last_error: None }
    }

    /// The number of slots with a live platform identifier; the event loop
    /// terminates exactly when this reaches zero.
    pub fn count_active_windows(&self) -> (count: usize)
        ensures
            count == count_live(self.slots()),
    {
        let mut count: usize = 0;
        let n = self.windows.len();
        let mut i: usize = 0;
        while i < n
            invariant
                i <= n,
                n == self.windows.len(),
                count <= i,
                count == count_live(self.slots().take(i as int)),
            decreases n - i,
        {
            proof {
                assert(self.slots().take(i + 1).drop_last() =~= self.slots().take(i as int));
                assert(self.slots().take(i + 1).last() == self.slots()[i as int]);
            }
            if self.windows[i].id.is_some() {
                count = count + 1;
            }
            i = i + 1;
        }
        proof {
            assert(self.slots().take(n as int) =~= self.slots());
        }
        count
    }

    /// Resolves a raw platform identifier to the lowest-index slot holding
    /// it: `Found` while the slot still owns its surface, `FoundButClosing`
    /// once the surface was released, `NotFound` when no slot holds the
    /// identifier.
    pub fn find_window(&self, window_id: u64) -> (r: AppFindWindowResult)
        ensures
            ({
                let slots = self.slots();
                match r {
                    AppFindWindowResult::NotFound => no_slot_matches(slots, window_id),
                    AppFindWindowResult::Found(h) => first_match(slots, window_id, h.index as int)
                        && slots[h.index as int].has_surface && h.generation == slots[h.index
                        as int].generation,
                    AppFindWindowResult::FoundButClosing(h) => first_match(
                        slots,
                        window_id,
                        h.index as int,
                    ) && !slots[h.index as int].has_surface && h.generation == slots[h.index
                        as int].generation,
                }
            }),
    {
        let n = self.windows.len();
        let mut i: usize = 0;
        while i < n
            invariant
                i <= n,
                n == self.windows.len(),
                forall|j: int| 0 <= j < i ==> (#[trigger] self.slots()[j]).id != Some(window_id),
            decreases n - i,
        {
            match self.windows[i].id {
                None => {},
                Some(slot_window_id) => {
                    if slot_window_id == window_id {
                        let handle = AppWindowId { index: i, generation: self.windows[i].generation };
                        return if self.windows[i].render_surface.is_some() {
                            AppFindWindowResult::Found(handle)
                        } else {
                            AppFindWindowResult::FoundButClosing(handle)
                        };
                    }
                },
            }
            i = i + 1;
        }
        AppFindWindowResult::NotFound
    }

    /// The lowest-index slot that can be handed out again, if any.
    fn first_reusable_slot(&self) -> (r: Option<usize>)
        ensures
            match r {
                Some(k) => first_reusable(self.slots(), k as int),
                None => no_reusable(self.slots()),
            },
    {
        let n = self.windows.len();
        let mut i: usize = 0;
        while i < n
            invariant
                i <= n,
                n == self.windows.len(),
                forall|j: int| 0 <= j < i ==> !slot_reusable(#[trigger] self.slots()[j]),
            decreases n - i,
        {
            if self.windows[i].id.is_none() && self.windows[i].generation < usize::MAX {
                return Some(i);
            }
            i = i + 1;
        }
        None
    }

    /// Installs an externally created render surface in a slot: the host's
    /// factory ran once and its result is passed in. On success the lowest
    /// reusable slot is reused with its generation bumped (else a fresh slot
    /// is appended at generation one), one render pass is triggered on the
    /// new window, and the logical handle is returned. A factory failure or
    /// an exhausted slot table is reported without mutating the manager.
    pub fn create_window(&mut self, render_surface: Result<S, String>) -> (r: Result<
        AppWindowId,
        AppErrors,
    >)
        requires
            old(self).wf(),
        ensures
            final(self).wf(),
            ({
                let slots = old(self).slots();
                match r {
                    Ok(h) => {
                        &&& render_surface is Ok
                        &&& created_in_slot(
                            slots,
                            final(self).slots(),
                            h,
                            render_surface->Ok_0.id(),
                        )
                        &&& final(self).last_error == old(self).last_error
                    },
                    Err(e) => {
                        &&& final(self).slots() == slots
                        &&& final(self).last_error == old(self).last_error
                        &&& match e {
                            AppErrors::RenderSurfaceCreationFailed(msg) => render_surface is Err
                                && msg == render_surface->Err_0,
                            AppErrors::MaxWindowCountReached(bound) => render_surface is Ok
                                && no_reusable(slots) && slots.len() + 1 == isize::MAX as usize
                                && bound == isize::MAX as usize,
                            _ => false,
                        }
                    },
                }
            }),
    {
        let render_surface = match render_surface {
            Ok(d) => d,
            Err(e) => {
                proof {
                    assert(self.slots() =~= old(self).slots());
                }
                return Err(AppErrors::RenderSurfaceCreationFailed(e));
            },
        };
        let sid = render_surface.window_id();

        // Try to reuse an old slot
        match self.first_reusable_slot() {
            Some(index) => {
                let generation = self.windows[index].generation + 1;
                let slot = &mut self.windows[index];
                *slot = AppWindow::new(Some(sid), Some(render_surface), generation);
                self.windows[index].render();
                proof {
                    assert(self.slots() =~= old(self).slots().update(
                        index as int,
                        SlotView { id: Some(sid), has_surface: true, generation: generation },
                    ));
                }
                Ok(AppWindowId { index, generation })
            },
            None => {
                // Create a new slot; appending past the maximum addressable
                // index is refused instead of attempted.
                let limit: usize = (isize::MAX as usize) - 1;
                if self.windows.len() == limit {
                    proof {
                        assert(self.slots() =~= old(self).slots());
                    }
                    return Err(AppErrors::MaxWindowCountReached(isize::MAX as usize));
                }
                let index = self.windows.len();
                self.windows.push(AppWindow::new(Some(sid), Some(render_surface), 1));
                self.windows[index].render();
                proof {
                    assert(self.slots() =~= old(self).slots().push(
                        SlotView { id: Some(sid), has_surface: true, generation: 1 },
                    ));
                }
                Ok(AppWindowId { index, generation: 1 })
            },
        }
    }

    /// Creates the initial window when the platform signals initialization:
    /// on any creation failure the error is recorded and the event loop is
    /// asked to terminate. Success is owed whenever the surface was
    /// provisioned and the table can still hold it: only a factory failure
    /// or an exhausted slot table exits, each with that exact error
    /// recorded.
    pub fn handle_init(&mut self, render_surface: Result<S, String>) -> (exit: bool)
        requires
            old(self).wf(),
        ensures
            final(self).wf(),
            render_surface is Ok && !(no_reusable(old(self).slots()) && old(self).slots().len()
                + 1 == isize::MAX as usize) ==> !exit,
            !exit ==> render_surface is Ok && (exists|h: AppWindowId|
                created_in_slot(
                    old(self).slots(),
                    final(self).slots(),
                    h,
                    render_surface->Ok_0.id(),
                )) && final(self).last_error == old(self).last_error,
            exit ==> final(self).slots() == old(self).slots(),
            exit && render_surface is Err ==> final(self).last_error == Some(
                AppErrors::RenderSurfaceCreationFailed(render_surface->Err_0),
            ),
            exit && render_surface is Ok ==> no_reusable(old(self).slots()) && old(
                self,
            ).slots().len() + 1 == isize::MAX as usize && final(self).last_error == Some(
                AppErrors::MaxWindowCountReached(isize::MAX as usize),
            ),
    {
        match self.create_window(render_surface) {
            Ok(_) => false,
            Err(e) => {
                self.last_error = Some(e);
                true
            },
        }
    }

    /// Routes one platform window event:
    ///
    /// * an unknown identifier is a protocol desynchronization — the error
    ///   is recorded and the event loop is asked to terminate;
    /// * a closing window only listens for the destruction confirmation,
    ///   which frees its slot and terminates the loop exactly when no live
    ///   identifier remains; every other event is discarded;
    /// * a live window releases its surface on a close request (entering the
    ///   closing state); all other events carry no lifecycle weight here.
    ///
    /// The returned flag asks the host to terminate its event loop.
    pub fn window_event(&mut self, window_id: u64, event: WindowEvent) -> (exit: bool)
        requires
            old(self).wf(),
        ensures
            final(self).wf(),
            no_slot_matches(old(self).slots(), window_id) ==> {
                &&& exit
                &&& final(self).slots() == old(self).slots()
                &&& final(self).last_error == Some(
                    AppErrors::WindowEventIssuedButNoAssociatedWindowCouldBeFound,
                )
            },
            forall|i: int|
                first_match(old(self).slots(), window_id, i) ==> {
                    let slots = old(self).slots();
                    let s = slots[i];
                    &&& final(self).last_error == old(self).last_error
                    &&& if s.has_surface {
                        if event == WindowEvent::CloseRequested {
                            &&& !exit
                            &&& final(self).slots() == slots.update(
                                i,
                                SlotView { id: s.id, has_surface: false, generation: s.generation },
                            )
                        } else {
                            &&& !exit
                            &&& final(self).slots() == slots
                        }
                    } else {
                        if event == WindowEvent::Destroyed {
                            &&& final(self).slots() == slots.update(
                                i,
                                SlotView { id: None, has_surface: false, generation: s.generation },
                            )
                            &&& exit <==> count_live(final(self).slots()) == 0
                        } else {
                            &&& !exit
                            &&& final(self).slots() == slots
                        }
                    }
                },
    {
        let found = self.find_window(window_id);
        match found {
            AppFindWindowResult::Found(d) => {
                match event {
                    WindowEvent::CloseRequested => {
                        let slot = &mut self.windows[d.index];
                        slot.render_surface = None;
                        proof {
                            assert(self.slots() =~= old(self).slots().update(
                                d.index as int,
                                SlotView {
                                    id: old(self).slots()[d.index as int].id,
                                    has_surface: false,
                                    generation: old(self).slots()[d.index as int].generation,
                                },
                            ));
                            lemma_unique_first_match(old(self).slots(), window_id, d.index as int);
                        }
                        false
                    },
                    _ => {
                        proof {
                            assert(self.slots() =~= old(self).slots());
                            lemma_unique_first_match(old(self).slots(), window_id, d.index as int);
                        }
                        false
                    },
                }
            },
            AppFindWindowResult::FoundButClosing(d) => {
                match event {
                    WindowEvent::Destroyed => {
                        let slot = &mut self.windows[d.index];
                        slot.id = None;
                        proof {
                            assert(self.slots() =~= old(self).slots().update(
                                d.index as int,
                                SlotView {
                                    id: None,
                                    has_surface: false,
                                    generation: old(self).slots()[d.index as int].generation,
                                },
                            ));
                            lemma_unique_first_match(old(self).slots(), window_id, d.index as int);
                        }
                        let active_windows = self.count_active_windows();
                        active_windows == 0
                    },
                    _ => {
                        proof {
                            assert(self.slots() =~= old(self).slots());
                            lemma_unique_first_match(old(self).slots(), window_id, d.index as int);
                        }
                        false
                    },
                }
            },
            AppFindWindowResult::NotFound => {
                self.last_error = Some(AppErrors::WindowEventIssuedButNoAssociatedWindowCouldBeFound);
                proof {
                    assert(self.slots() =~= old(self).slots());
                }
                true
            },
        }
    }

    /// The idle tick: one render pass for every window still owning a live
    /// render surface, unconditionally — a continuous-repaint policy. The
    /// slot table's lifecycle state is untouched.
    pub fn about_to_wait(&mut self)
        requires
            old(self).wf(),
        ensures
            final(self).wf(),
            final(self).slots() == old(self).slots(),
            final(self).last_error == old(self).last_error,
    {
        let n = self.windows.len();
        let mut i: usize = 0;
        while i < n
            invariant
                i <= n,
                n == self.windows.len(),
                self.slots() =~= old(self).slots(),
                self.last_error == old(self).last_error,
            decreases n - i,
        {
            if self.windows[i].render_surface.is_some() {
                self.windows[i].render();
                proof {
                    assert(self.slots() =~= old(self).slots());
                }
            }
            i = i + 1;
        }
        proof {
            assert(self.slots() == old(self).slots());
        }
    }
}

/// At most one slot is the lowest-index match for a platform identifier.
proof fn lemma_unique_first_match(slots: Seq<SlotView>, pid: u64, i: int)
    requires
        first_match(slots, pid, i),
    ensures
        forall|j: int| first_match(slots, pid, j) ==> j == i,
{
    assert forall|j: int| first_match(slots, pid, j) implies j == i by {
        if j < i {
            assert(slots[j].id != Some(pid));
        }
        if i < j {
            assert(slots[i].id != Some(pid));
        }
    }
}

/// Creating a window while a free slot exists reuses the lowest free slot
/// index, assigns it a generation exactly one above the one it had, and
/// leaves every other slot untouched.
pub proof fn lemma_create_reuses_lowest_free_slot(
    old_slots: Seq<SlotView>,
    new_slots: Seq<SlotView>,
    h: AppWindowId,
    sid: u64,
    k: int,
)
    requires
        created_in_slot(old_slots, new_slots, h, sid),
        first_reusable(old_slots, k),
    ensures
        h.index == k,
        h.generation == old_slots[k].generation + 1,
        new_slots[k] == (SlotView { id: Some(sid), has_surface: true, generation: h.generation }),
        forall|j: int| 0 <= j < old_slots.len() && j != k ==> new_slots[j] == old_slots[j],
{
    if (h.index as int) < old_slots.len() {
        if (h.index as int) < k {
            assert(!slot_reusable(old_slots[h.index as int]));
        }
        if k < h.index as int {
            assert(!slot_reusable(old_slots[k]));
        }
    } else {
        assert(!slot_reusable(old_slots[k]));
    }
}

/// A platform identifier no slot holds is still held by no old slot after a
/// creation that stored a different identifier: resolving it keeps reporting
/// `NotFound`.
pub proof fn lemma_create_preserves_unknown_ids(
    old_slots: Seq<SlotView>,
    new_slots: Seq<SlotView>,
    h: AppWindowId,
    sid: u64,
    pid: u64,
)
    requires
        created_in_slot(old_slots, new_slots, h, sid),
        no_slot_matches(old_slots, pid),
        pid != sid,
    ensures
        no_slot_matches(new_slots, pid),
{
    assert forall|i: int| 0 <= i < new_slots.len() implies (#[trigger] new_slots[i]).id != Some(
        pid,
    ) by {
        if i != h.index as int {
            assert(new_slots[i] == old_slots[i]);
        }
    }
}

} // verus!
