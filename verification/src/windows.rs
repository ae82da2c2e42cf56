//! The window multiplexer: a registry of views, the mapping between
//! logical view identifiers and live window handles, and the
//! choreography of window open/close against view lifecycle.

use vstd::prelude::*;
use std::collections::HashMap;
use crate::id::{Id, Window};
use crate::main_view::{MainView, MainViewMessage, PanelView, PanelViewMessage};
use crate::registry::{Keyed, Registry};

verus! {

/// An opaque handle to a live operating-system window.
#[derive(Clone, Copy, PartialEq, Eq, Structural, Hash, Debug)]
pub struct WindowHandle(pub u64);

/// The side channel on which a view, during one update, requests that
/// further views be opened or closed; the multiplexer drains it after
/// the call, issuing the operations in request order.
pub struct WindowManagerShell {
    pub to_open: Vec<Id<Window>>,
    pub to_close: Vec<Id<Window>>,
}

impl WindowManagerShell {
    /// An empty side channel.
    pub fn new() -> (r: WindowManagerShell)
        ensures
            r.to_open@ == Seq::<Id<Window>>::empty(),
            r.to_close@ == Seq::<Id<Window>>::empty(),
    {
        WindowManagerShell { to_open: Vec::new(), to_close: Vec::new() }
    }

    /// Requests that the view with the given identifier be opened.
    pub fn open_window(&mut self, id: Id<Window>)
        ensures
            final(self).to_open@ == old(self).to_open@.push(id),
            final(self).to_close@ == old(self).to_close@,
    {
        self.to_open.push(id);
    }

    /// Requests that the view with the given identifier be closed.
    pub fn close_window(&mut self, id: Id<Window>)
        ensures
            final(self).to_open@ == old(self).to_open@,
            final(self).to_close@ == old(self).to_close@.push(id),
    {
        self.to_close.push(id);
    }
}

/// The interface a view implements, generic over its own message type.
/// An update receives the message and the side channel for window
/// requests; what it does is pinned by the implementation's update
/// relation.
pub trait WindowView: Sized {
    /// The view's own message type.
    type Message;

    /// The stable key of this view's identifier.
    spec fn key_spec(&self) -> u64;

    /// The view's internal invariant, established at construction and
    /// preserved by every update.
    spec fn inv(&self) -> bool;

    /// What an update does: how the view evolves and which window
    /// opens and closes it requests, in order.
    spec fn update_rel(
        &self,
        message: Self::Message,
        post: Self,
        opens: Seq<Id<Window>>,
        closes: Seq<Id<Window>>,
    ) -> bool;

    /// This view's identifier.
    fn id(&self) -> (r: Id<Window>)
        ensures
            r.key() == self.key_spec(),
    ;

    /// Applies one message to the view; window requests go onto the
    /// side channel in order.
    fn update(&mut self, message: Self::Message, windows: &mut WindowManagerShell)
        requires
            old(self).inv(),
        ensures
            final(self).inv(),
            final(self).key_spec() == old(self).key_spec(),
            old(windows).to_open@.is_prefix_of(final(windows).to_open@),
            old(windows).to_close@.is_prefix_of(final(windows).to_close@),
            old(self).update_rel(
                message,
                *final(self),
                final(windows).to_open@.skip(old(windows).to_open@.len() as int),
                final(windows).to_close@.skip(old(windows).to_close@.len() as int),
            ),
    ;
}


/// Any concrete view, behind one non-generic type: the closed set of
/// views this build can register.
pub enum ErasedWindowView {
    Main(MainView),
    Panel(PanelView),
}

/// A view message in erased form, one variant per concrete view kind.
pub enum ViewMessage {
    Main(MainViewMessage),
    Panel(PanelViewMessage),
}

impl Keyed for ErasedWindowView {
    open spec fn key_spec(&self) -> u64 {
        match self {
            ErasedWindowView::Main(v) => v.key_spec(),
            ErasedWindowView::Panel(v) => v.key_spec(),
        }
    }

    fn key(&self) -> u64 {
        match self {
            ErasedWindowView::Main(v) => v.id().value(),
            ErasedWindowView::Panel(v) => v.id().value(),
        }
    }
}

impl ErasedWindowView {
    /// The wrapped view's internal invariant.
    pub open spec fn inv(&self) -> bool {
        match self {
            ErasedWindowView::Main(v) => v.inv(),
            ErasedWindowView::Panel(v) => v.inv(),
        }
    }

    /// Whether an erased message is of the wrapped view's own message
    /// type. A mismatch is an invariant violation of the sender and is
    /// reported, never silently coerced.
    pub open spec fn accepts(&self, message: ViewMessage) -> bool {
        match (self, message) {
            (ErasedWindowView::Main(_), ViewMessage::Main(_)) => true,
            (ErasedWindowView::Panel(_), ViewMessage::Panel(_)) => true,
            _ => false,
        }
    }

    /// What delegating an erased message does: the wrapped view's own
    /// update relation on a match; on a mismatch nothing at all.
    pub open spec fn update_rel(
        &self,
        message: ViewMessage,
        post: ErasedWindowView,
        opens: Seq<Id<Window>>,
        closes: Seq<Id<Window>>,
    ) -> bool {
        match (self, message) {
            (ErasedWindowView::Main(v), ViewMessage::Main(m)) => match post {
                ErasedWindowView::Main(v2) => v.update_rel(m, v2, opens, closes),
                _ => false,
            },
            (ErasedWindowView::Panel(v), ViewMessage::Panel(m)) => match post {
                ErasedWindowView::Panel(v2) => v.update_rel(m, v2, opens, closes),
                _ => false,
            },
            _ => post == *self && opens == Seq::<Id<Window>>::empty() && closes == Seq::<
                Id<Window>,
            >::empty(),
        }
    }

    /// The wrapped view's identifier.
    pub fn id(&self) -> (r: Id<Window>)
        ensures
            r.key() == self.key_spec(),
    {
        match self {
            ErasedWindowView::Main(v) => v.id(),
            ErasedWindowView::Panel(v) => v.id(),
        }
    }

    /// Delegates an erased message to the wrapped view. Returns whether
    /// the message was of the view's own type; a mismatched message
    /// changes nothing and reports `false`.
    pub fn update(&mut self, message: ViewMessage, windows: &mut WindowManagerShell) -> (ok: bool)
        requires
            old(self).inv(),
        ensures
            final(self).inv(),
            final(self).key_spec() == old(self).key_spec(),
            ok == old(self).accepts(message),
            old(windows).to_open@.is_prefix_of(final(windows).to_open@),
            old(windows).to_close@.is_prefix_of(final(windows).to_close@),
            old(self).update_rel(
                message,
                *final(self),
                final(windows).to_open@.skip(old(windows).to_open@.len() as int),
                final(windows).to_close@.skip(old(windows).to_close@.len() as int),
            ),
    {
        match self {
            ErasedWindowView::Main(v) => match message {
                ViewMessage::Main(m) => {
                    v.update(m, windows);
                    true
                },
                _ => {
                    proof {
                        assert(windows.to_open@.skip(old(windows).to_open@.len() as int) =~= Seq::<
                            Id<Window>,
                        >::empty());
                        assert(windows.to_close@.skip(old(windows).to_close@.len() as int)
                            =~= Seq::<Id<Window>>::empty());
                    }
                    false
                },
            },
            ErasedWindowView::Panel(v) => match message {
                ViewMessage::Panel(m) => {
                    v.update(m, windows);
                    true
                },
                _ => {
                    proof {
                        assert(windows.to_open@.skip(old(windows).to_open@.len() as int) =~= Seq::<
                            Id<Window>,
                        >::empty());
                        assert(windows.to_close@.skip(old(windows).to_close@.len() as int)
                            =~= Seq::<Id<Window>>::empty());
                    }
                    false
                },
            },
        }
    }
}


/// An erased message addressed to a view by its identifier.
pub struct ErasedWindowMessage {
    pub window: Id<Window>,
    pub message: ViewMessage,
}

/// What the multiplexer is told from outside: an operating-system
/// window was closed, or a message is to be routed to a view.
pub enum WindowManagerMessage {
    WindowClosed(WindowHandle),
    Window(ErasedWindowMessage),
}

/// An operating-system request the multiplexer asks its caller to
/// perform: open or close the window with the given handle.
#[derive(Clone, Copy, PartialEq, Eq, Structural, Debug)]
pub enum WindowRequest {
    Open(WindowHandle),
    Close(WindowHandle),
}

/// An invariant violation met while routing: the message was not of
/// the addressed view's own type. This is a wiring defect and is
/// surfaced, never silently coerced.
#[derive(Clone, Copy, PartialEq, Eq, Structural, Debug)]
pub enum RoutingFault {
    MessageTypeMismatch,
}

/// What one multiplexer update produced: whether the process must shut
/// down, and the window requests to perform, in order.
#[derive(Debug)]
pub struct WindowUpdateOutcome {
    pub exit: bool,
    pub requests: Vec<WindowRequest>,
}

/// The multiplexer's window bookkeeping: handle to view, view to
/// handle, and the next handle to allocate.
pub struct WindowMaps {
    pub windows: Map<u64, Id<Window>>,
    pub opened: Map<u64, WindowHandle>,
    pub next: u64,
}

/// What opening one view does to the bookkeeping: a no-op if the view
/// is already open or the handle space is exhausted; otherwise a fresh
/// handle is allocated and recorded in both directions.
pub open spec fn open_one(wm: WindowMaps, v: Id<Window>) -> (WindowMaps, Seq<WindowRequest>) {
    if wm.opened.contains_key(v.key()) || wm.next == u64::MAX {
        (wm, Seq::empty())
    } else {
        (
            WindowMaps {
                windows: wm.windows.insert(wm.next, v),
                opened: wm.opened.insert(v.key(), WindowHandle(wm.next)),
                next: (wm.next + 1) as u64,
            },
            seq![WindowRequest::Open(WindowHandle(wm.next))],
        )
    }
}

/// What opening a list of views does, in order.
pub open spec fn apply_opens(wm: WindowMaps, opens: Seq<Id<Window>>) -> (
    WindowMaps,
    Seq<WindowRequest>,
)
    decreases opens.len(),
{
    if opens.len() == 0 {
        (wm, Seq::empty())
    } else {
        let (wm1, r1) = apply_opens(wm, opens.drop_last());
        let (wm2, r2) = open_one(wm1, opens.last());
        (wm2, r1 + r2)
    }
}

/// What closing one view does to the bookkeeping: a no-op if the view
/// is not open; otherwise both directions of the mapping are released.
pub open spec fn close_one(wm: WindowMaps, v: Id<Window>) -> (WindowMaps, Seq<WindowRequest>) {
    if wm.opened.contains_key(v.key()) {
        let h = wm.opened[v.key()];
        (
            WindowMaps {
                windows: wm.windows.remove(h.0),
                opened: wm.opened.remove(v.key()),
                next: wm.next,
            },
            seq![WindowRequest::Close(h)],
        )
    } else {
        (wm, Seq::empty())
    }
}

/// What closing a list of views does, in order.
pub open spec fn apply_closes(wm: WindowMaps, closes: Seq<Id<Window>>) -> (
    WindowMaps,
    Seq<WindowRequest>,
)
    decreases closes.len(),
{
    if closes.len() == 0 {
        (wm, Seq::empty())
    } else {
        let (wm1, r1) = apply_closes(wm, closes.drop_last());
        let (wm2, r2) = close_one(wm1, closes.last());
        (wm2, r1 + r2)
    }
}

/// The window multiplexer: the registry of views, the bidirectional
/// mapping between view identifiers and live window handles, and the
/// designated primary view whose window closing shuts the process
/// down.
pub struct WindowManager {
    pub views: Registry<ErasedWindowView>,
    pub windows: HashMap<u64, Id<Window>>,
    pub opened_views: HashMap<u64, WindowHandle>,
    pub next_handle: u64,
    pub primary: Id<Window>,
}

impl WindowManager {
    /// The window bookkeeping as one value.
    pub open spec fn maps(&self) -> WindowMaps {
        WindowMaps { windows: self.windows@, opened: self.opened_views@, next: self.next_handle }
    }

    /// The multiplexer's invariant: the view registry is sound and its
    /// entries hold their own invariants; the two window maps are
    /// inverse to each other, so a view owns at most one live handle;
    /// and every live handle was allocated before the next one to be.
    pub open spec fn wf(&self) -> bool {
        &&& self.views.wf()
        &&& forall|i: int|
            0 <= i < self.views.entries@.len() ==> (#[trigger] self.views.entries@[i]).inv()
        &&& forall|h: u64|
            #[trigger] self.windows@.contains_key(h) ==> {
                &&& self.opened_views@.contains_key(self.windows@[h].key())
                &&& self.opened_views@[self.windows@[h].key()].0 == h
                &&& h < self.next_handle
            }
        &&& forall|v: u64|
            #[trigger] self.opened_views@.contains_key(v) ==> {
                &&& self.windows@.contains_key(self.opened_views@[v].0)
                &&& self.windows@[self.opened_views@[v].0].key() == v
            }
    }

    /// A multiplexer with no view registered and no window open, whose
    /// primary view is the given one.
    pub fn new(primary: Id<Window>) -> (r: WindowManager)
        ensures
            r.wf(),
            r.views.contents() == Map::<u64, ErasedWindowView>::empty(),
            r.windows@ == Map::<u64, Id<Window>>::empty(),
            r.opened_views@ == Map::<u64, WindowHandle>::empty(),
            r.next_handle == 0,
            r.primary == primary,
    {
        WindowManager {
            views: Registry::new(),
            windows: HashMap::new(),
            opened_views: HashMap::new(),
            next_handle: 0,
            primary,
        }
    }

    /// Registers a view under its identifier. Returns whether the
    /// identifier was fresh; a duplicate replaces the earlier view
    /// (last write wins) and reports `false`, so the caller can flag
    /// the configuration error.
    pub fn register(&mut self, view: ErasedWindowView) -> (fresh: bool)
        requires
            old(self).wf(),
            view.inv(),
        ensures
            final(self).wf(),
            final(self).views.contents() == old(self).views.contents().insert(
                view.key_spec(),
                view,
            ),
            final(self).maps() == old(self).maps(),
            final(self).primary == old(self).primary,
            fresh == !old(self).views.contents().contains_key(view.key_spec()),
    {
        let fresh = self.views.register(view);
        proof {
            assert forall|i: int| 0 <= i < self.views.entries@.len()
                implies (#[trigger] self.views.entries@[i]).inv() by {
                assert(self.views.entries@[i] == view || (i < old(self).views.entries@.len()
                    && self.views.entries@[i] == old(self).views.entries@[i]));
            }
        }
        fresh
    }

    /// Builds a multiplexer whose primary view is the given one,
    /// registers it, and opens its window. Returns the multiplexer and
    /// the open request for the primary window.
    pub fn boot(primary_view: ErasedWindowView) -> (r: (WindowManager, Option<WindowHandle>))
        requires
            primary_view.inv(),
        ensures
            r.0.wf(),
            r.0.primary.key() == primary_view.key_spec(),
            r.0.views.contents() == Map::<u64, ErasedWindowView>::empty().insert(
                primary_view.key_spec(),
                primary_view,
            ),
            r.0.opened_views@.contains_key(r.0.primary.key()),
            r.1 == Some(WindowHandle(0)),
    {
        let id = primary_view.id();
        let mut manager = WindowManager::new(id);
        manager.register(primary_view);
        let request = manager.open_view(id);
        proof {
            let empty_maps = WindowMaps {
                windows: Map::<u64, Id<Window>>::empty(),
                opened: Map::<u64, WindowHandle>::empty(),
                next: 0,
            };
            let (wm2, reqs) = open_one(empty_maps, id);
            assert(reqs == seq![WindowRequest::Open(WindowHandle(0))]);
            match request {
                Some(h) => {
                    assert(seq![WindowRequest::Open(h)] == reqs);
                    assert(seq![WindowRequest::Open(h)][0] == reqs[0]);
                    assert(h == WindowHandle(0));
                },
                None => {
                    assert(reqs == Seq::<WindowRequest>::empty());
                    assert(reqs.len() == 1);
                    assert(false);
                },
            }
        }
        (manager, request)
    }

    /// Opens the view's window: a no-op if it is already open (or the
    /// handle space is exhausted); otherwise a fresh handle is
    /// allocated, both directions of the mapping are recorded, and the
    /// pending open request is returned.
    pub fn open_view(&mut self, view_id: Id<Window>) -> (r: Option<WindowHandle>)
        requires
            old(self).wf(),
        ensures
            final(self).wf(),
            final(self).views == old(self).views,
            final(self).primary == old(self).primary,
            ({
                let (wm2, reqs) = open_one(old(self).maps(), view_id);
                &&& final(self).maps() == wm2
                &&& reqs == (match r {
                    Some(h) => seq![WindowRequest::Open(h)],
                    None => Seq::<WindowRequest>::empty(),
                })
            }),
    {
        if self.opened_views.contains_key(&view_id.value()) {
            return None;
        }
        if self.next_handle == u64::MAX {
            return None;
        }
        let h = WindowHandle(self.next_handle);
        self.windows.insert(self.next_handle, view_id);
        self.opened_views.insert(view_id.value(), h);
        self.next_handle = self.next_handle + 1;
        proof {
            assert(final(self).maps() =~~= open_one(old(self).maps(), view_id).0);
        }
        Some(h)
    }

    /// Closes the view's window: a no-op if it is not open; otherwise
    /// both directions of the mapping are released and the pending
    /// close request is returned.
    pub fn close_view(&mut self, view_id: Id<Window>) -> (r: Option<WindowHandle>)
        requires
            old(self).wf(),
        ensures
            final(self).wf(),
            final(self).views == old(self).views,
            final(self).primary == old(self).primary,
            ({
                let (wm2, reqs) = close_one(old(self).maps(), view_id);
                &&& final(self).maps() == wm2
                &&& reqs == (match r {
                    Some(h) => seq![WindowRequest::Close(h)],
                    None => Seq::<WindowRequest>::empty(),
                })
            }),
    {
        match self.opened_views.remove(&view_id.value()) {
            Some(h) => {
                self.windows.remove(&h.0);
                proof {
                    assert(final(self).maps() =~~= close_one(old(self).maps(), view_id).0);
                }
                Some(h)
            },
            None => {
                proof {
                    assert(self.opened_views@ =~= old(self).opened_views@);
                    assert(final(self).maps() =~~= close_one(old(self).maps(), view_id).0);
                }
                None
            },
        }
    }

    /// The view whose window carries the handle, if any: how an
    /// inbound handle-addressed event finds its view.
    pub fn view_for_window(&self, handle: WindowHandle) -> (r: Option<Id<Window>>)
        requires
            self.wf(),
        ensures
            r == (if self.windows@.contains_key(handle.0) {
                Some(self.windows@[handle.0])
            } else {
                None::<Id<Window>>
            }),
    {
        match self.windows.get(&handle.0) {
            Some(v) => Some(*v),
            None => None,
        }
    }
}

/// The view-to-handle map after a window-closed notification for
/// handle `h` is absorbed.
pub open spec fn opened_after_close(m: WindowManager, h: WindowHandle) -> Map<u64, WindowHandle> {
    if m.windows@.contains_key(h.0) {
        m.opened_views@.remove(m.windows@[h.0].key())
    } else {
        m.opened_views@
    }
}

/// Whether absorbing a window-closed notification for handle `h`
/// leaves the primary view without a window, which is the sole
/// termination condition.
pub open spec fn shutdown_after_close(m: WindowManager, h: WindowHandle) -> bool {
    !opened_after_close(m, h).contains_key(m.primary.key())
}

impl WindowManager {
    /// Absorbs an operating-system notification that the window with
    /// the given handle was closed: the owning view's mapping is
    /// released, and shutdown is reported exactly when the primary
    /// view is no longer open.
    pub fn window_closed(&mut self, handle: WindowHandle) -> (shutdown: bool)
        requires
            old(self).wf(),
        ensures
            final(self).wf(),
            final(self).views == old(self).views,
            final(self).primary == old(self).primary,
            final(self).next_handle == old(self).next_handle,
            final(self).windows@ == old(self).windows@.remove(handle.0),
            final(self).opened_views@ == opened_after_close(*old(self), handle),
            shutdown == shutdown_after_close(*old(self), handle),
    {
        match self.windows.remove(&handle.0) {
            Some(v) => {
                self.opened_views.remove(&v.value());
            },
            None => {
                proof {
                    assert(self.windows@ =~= old(self).windows@.remove(handle.0));
                }
            },
        }
        !self.opened_views.contains_key(&self.primary.value())
    }
}

/// Closing the primary view's window, and only that one, triggers
/// process shutdown: while the primary view is open, a window-closed
/// notification reports shutdown exactly when it carries the primary
/// view's own handle.
pub proof fn lemma_primary_close_shuts_down(m: WindowManager, h: WindowHandle)
    requires
        m.wf(),
        m.opened_views@.contains_key(m.primary.key()),
    ensures
        shutdown_after_close(m, h) <==> h == m.opened_views@[m.primary.key()],
{
    let hp = m.opened_views@[m.primary.key()];
    assert(m.windows@.contains_key(hp.0));
    assert(m.windows@[hp.0].key() == m.primary.key());
    if m.windows@.contains_key(h.0) {
        let v = m.windows@[h.0];
        if v.key() == m.primary.key() {
            assert(m.opened_views@[v.key()].0 == h.0);
            assert(h == hp);
        } else {
            assert(opened_after_close(m, h).contains_key(m.primary.key()));
            assert(h.0 != hp.0);
        }
    } else {
        assert(h.0 != hp.0);
    }
}


/// How routing one erased message evolves the multiplexer: an unknown
/// view identifier is a benign no-op; otherwise the view absorbs the
/// message as its own update relation says, and the opens and closes
/// it requested are applied in request order, opens first, yielding
/// the operating-system requests.
pub open spec fn route_rel(
    pre: WindowManager,
    em: ErasedWindowMessage,
    post: WindowManager,
    requests: Seq<WindowRequest>,
) -> bool {
    let k = em.window.key();
    if !pre.views.contents().contains_key(k) {
        &&& post.views.contents() == pre.views.contents()
        &&& post.maps() == pre.maps()
        &&& post.primary == pre.primary
        &&& requests == Seq::<WindowRequest>::empty()
    } else {
        exists|v2: ErasedWindowView, opens: Seq<Id<Window>>, closes: Seq<Id<Window>>|
            {
                &&& #[trigger] pre.views.contents()[k].update_rel(em.message, v2, opens, closes)
                &&& post.views.contents() == pre.views.contents().insert(k, v2)
                &&& ({
                    let (wm1, r1) = apply_opens(pre.maps(), opens);
                    let (wm2, r2) = apply_closes(wm1, closes);
                    &&& post.maps() == wm2
                    &&& requests == r1 + r2
                })
                &&& post.primary == pre.primary
            }
    }
}

impl WindowManager {
    /// Routes one inbound message: a window-closed notification
    /// releases the owning view's mapping and reports shutdown exactly
    /// when the primary view is no longer open; an erased view message
    /// is delegated to its view, whose requested opens and closes are
    /// then issued in request order. A message not of the addressed
    /// view's own type is an invariant violation and is reported as a
    /// fault with nothing changed.
    pub fn update(&mut self, message: WindowManagerMessage) -> (r: Result<
        WindowUpdateOutcome,
        RoutingFault,
    >)
        requires
            old(self).wf(),
        ensures
            final(self).wf(),
            match message {
                WindowManagerMessage::WindowClosed(h) => match r {
                    Ok(o) => {
                        &&& final(self).views == old(self).views
                        &&& final(self).primary == old(self).primary
                        &&& final(self).windows@ == old(self).windows@.remove(h.0)
                        &&& final(self).opened_views@ == opened_after_close(*old(self), h)
                        &&& o.exit == shutdown_after_close(*old(self), h)
                        &&& o.requests@ == Seq::<WindowRequest>::empty()
                    },
                    Err(_) => false,
                },
                WindowManagerMessage::Window(em) => match r {
                    Ok(o) => {
                        &&& !o.exit
                        &&& route_rel(*old(self), em, *final(self), o.requests@)
                    },
                    Err(_) => {
                        &&& old(self).views.contents().contains_key(em.window.key())
                        &&& !old(self).views.contents()[em.window.key()].accepts(em.message)
                        &&& final(self).views.contents() == old(self).views.contents()
                        &&& final(self).maps() == old(self).maps()
                        &&& final(self).primary == old(self).primary
                    },
                },
            },
    {
        match message {
            WindowManagerMessage::WindowClosed(h) => {
                let exit = self.window_closed(h);
                Ok(WindowUpdateOutcome { exit, requests: Vec::new() })
            },
            WindowManagerMessage::Window(em) => {
                let key = em.window.value();
                let idx = match self.views.find(key) {
                    Some(i) => i,
                    None => {
                        return Ok(WindowUpdateOutcome { exit: false, requests: Vec::new() });
                    },
                };
                let mut wshell = WindowManagerShell::new();
                let ghost v0 = self.views.contents()[key];
                let ok = self.views.entries[idx].update(em.message, &mut wshell);
                let ghost v2 = self.views.entries@[idx as int];
                proof {
                    assert(self.views.wf());
                    assert forall|i: int| 0 <= i < self.views.entries@.len()
                        implies (#[trigger] self.views.entries@[i]).inv() by {}
                    assert(self.views.contents() =~= old(self).views.contents().insert(key, v2));
                }
                if !ok {
                    proof {
                        assert(v2 == v0);
                        assert(self.views.contents() =~= old(self).views.contents());
                        assert(self.maps() =~~= old(self).maps());
                    }
                    return Err(RoutingFault::MessageTypeMismatch);
                }
                let ghost opens = wshell.to_open@;
                let ghost closes = wshell.to_close@;
                let ghost maps0 = self.maps();
                let ghost views_snap = self.views;
                let ghost primary_snap = self.primary;
                let mut requests: Vec<WindowRequest> = Vec::new();
                let mut i: usize = 0;
                proof {
                    assert(opens.take(0) =~= Seq::<Id<Window>>::empty());
                    assert(requests@ =~= Seq::<WindowRequest>::empty());
                }
                while i < wshell.to_open.len()
                    invariant
                        self.wf(),
                        i <= wshell.to_open@.len(),
                        wshell.to_open@ == opens,
                        wshell.to_close@ == closes,
                        self.views == views_snap,
                        self.primary == primary_snap,
                        (self.maps(), requests@) == apply_opens(maps0, opens.take(i as int)),
                    decreases wshell.to_open@.len() - i,
                {
                    let v = wshell.to_open[i];
                    let ghost maps_i = self.maps();
                    let ghost reqs_i = requests@;
                    let opened = self.open_view(v);
                    match opened {
                        Some(h) => {
                            requests.push(WindowRequest::Open(h));
                        },
                        None => {},
                    }
                    proof {
                        assert(opens.take(i + 1).drop_last() =~= opens.take(i as int));
                        assert(opens.take(i + 1).last() == opens[i as int]);
                        let (wm2, r2) = open_one(maps_i, v);
                        assert(self.maps() == wm2);
                        assert(requests@ =~= reqs_i + r2);
                    }
                    i = i + 1;
                }
                proof {
                    assert(opens.take(opens.len() as int) =~= opens);
                }
                let ghost maps1 = self.maps();
                let ghost reqs1 = requests@;
                let mut j: usize = 0;
                proof {
                    assert(closes.take(0) =~= Seq::<Id<Window>>::empty());
                    assert(reqs1 + Seq::<WindowRequest>::empty() =~= reqs1);
                }
                while j < wshell.to_close.len()
                    invariant
                        self.wf(),
                        j <= wshell.to_close@.len(),
                        wshell.to_close@ == closes,
                        self.views == views_snap,
                        self.primary == primary_snap,
                        ({
                            let (wm2, r2) = apply_closes(maps1, closes.take(j as int));
                            self.maps() == wm2 && requests@ == reqs1 + r2
                        }),
                    decreases wshell.to_close@.len() - j,
                {
                    let v = wshell.to_close[j];
                    let ghost maps_j = self.maps();
                    let ghost reqs_j = requests@;
                    let closed = self.close_view(v);
                    match closed {
                        Some(h) => {
                            requests.push(WindowRequest::Close(h));
                        },
                        None => {},
                    }
                    proof {
                        assert(closes.take(j + 1).drop_last() =~= closes.take(j as int));
                        assert(closes.take(j + 1).last() == closes[j as int]);
                        let (wm2, r2) = close_one(maps_j, v);
                        assert(self.maps() == wm2);
                        let (wma, ra) = apply_closes(maps1, closes.take(j as int));
                        let (wmb, rb) = apply_closes(maps1, closes.take(j + 1));
                        assert(requests@ =~= reqs_j + r2);
                        assert(reqs1 + (ra + r2) =~= (reqs1 + ra) + r2);
                    }
                    j = j + 1;
                }
                proof {
                    assert(closes.take(closes.len() as int) =~= closes);
                    let k = em.window.key();
                    assert(old(self).views.contents()[k].update_rel(em.message, v2, opens, closes));
                    let (wm1, r1) = apply_opens(maps0, opens);
                    let (wm2, r2) = apply_closes(wm1, closes);
                    assert(maps1 == wm1 && reqs1 == r1);
                    assert(self.maps() == wm2 && requests@ == r1 + r2);
                    assert(route_rel(*old(self), em, *self, requests@));
                }
                Ok(WindowUpdateOutcome { exit: false, requests })
            },
        }
    }
}

} // verus!
