//! The typed action capability and its erased, registrable form.
//!
//! A concrete action implements [`CanvasAction`] with its own private
//! state type. The erased form pairs each concrete action with its
//! state behind one non-generic interface; the pairing invariant (the
//! state is of the action's own kind) replaces a runtime downcast and
//! is enforced by proof, so a mismatch is structurally impossible.

use vstd::prelude::*;
use std::sync::Arc;
use crate::canvas::CCanvas;
use crate::control::{
    CanvasPanAction, CanvasPanActionState, CanvasRotateAction, CanvasRotateActionState,
    CanvasZoomAction, CanvasZoomActionState,
};
use crate::id::{Action, Id};
use crate::keys::KeyChord;
use crate::mouse::Point;
use crate::registry::{Keyed, Registry};
use crate::shell::CShell;
use crate::tools::{BrushTool, CanvasPanTool, OpenBrushGraph};

verus! {

/// The interface a concrete action implements, generic over its own
/// private state type. Each lifecycle call receives the shortcut that
/// selected the action, the scoped shell, and the action's state; what
/// a call does is pinned by the implementation's transition functions,
/// which may depend on the cursor, the current document and the state.
pub trait CanvasAction: Sized {
    /// The action's private mutable state.
    type State;

    /// The stable key of this action's identifier.
    spec fn key_spec(&self) -> u64;

    /// The state a fresh registration starts from.
    spec fn default_state_spec(&self) -> Self::State;

    /// What activation does: the new state and the documents whose
    /// creation is requested.
    spec fn activate_spec(&self, canvas: CCanvas, state: Self::State) -> (
        Self::State,
        Seq<Arc<CCanvas>>,
    );

    /// What beginning a gesture at the cursor does.
    spec fn begin_spec(&self, cursor: Point, canvas: CCanvas, state: Self::State) -> (
        Self::State,
        Seq<Arc<CCanvas>>,
    );

    /// What a gesture update at the cursor does.
    spec fn update_spec(&self, cursor: Point, canvas: CCanvas, state: Self::State) -> (
        Self::State,
        Seq<Arc<CCanvas>>,
    );

    /// What ending a gesture at the cursor does.
    spec fn end_spec(&self, cursor: Point, canvas: CCanvas, state: Self::State) -> (
        Self::State,
        Seq<Arc<CCanvas>>,
    );

    /// What deactivation does.
    spec fn deactivate_spec(&self, canvas: CCanvas, state: Self::State) -> (
        Self::State,
        Seq<Arc<CCanvas>>,
    );

    /// This action's identifier.
    fn id(&self) -> (r: Id<Action>)
        ensures
            r.key() == self.key_spec(),
    ;

    /// A fresh state for this action.
    fn default_state(&self) -> (s: Self::State)
        ensures
            s == self.default_state_spec(),
    ;

    /// Called when the action becomes current.
    fn activate(&self, shortcut: &KeyChord, shell: &mut CShell, state: &mut Self::State)
        ensures
            ({
                let (s2, reqs) = self.activate_spec(old(shell).canvas_spec(), *old(state));
                &&& *final(state) == s2
                &&& final(shell).canvas_spec() == old(shell).canvas_spec()
                &&& final(shell).creations() == old(shell).creations() + reqs
            }),
    ;

    /// Called when a mouse gesture starts while the action is current.
    fn begin(
        &self,
        shortcut: &KeyChord,
        cursor: Point,
        shell: &mut CShell,
        state: &mut Self::State,
    )
        ensures
            ({
                let (s2, reqs) = self.begin_spec(cursor, old(shell).canvas_spec(), *old(state));
                &&& *final(state) == s2
                &&& final(shell).canvas_spec() == old(shell).canvas_spec()
                &&& final(shell).creations() == old(shell).creations() + reqs
            }),
    ;

    /// Called on cursor moves while the gesture is in progress.
    fn update(
        &self,
        shortcut: &KeyChord,
        cursor: Point,
        shell: &mut CShell,
        state: &mut Self::State,
    )
        ensures
            ({
                let (s2, reqs) = self.update_spec(cursor, old(shell).canvas_spec(), *old(state));
                &&& *final(state) == s2
                &&& final(shell).canvas_spec() == old(shell).canvas_spec()
                &&& final(shell).creations() == old(shell).creations() + reqs
            }),
    ;

    /// Called when the gesture ends.
    fn end(
        &self,
        shortcut: &KeyChord,
        cursor: Point,
        shell: &mut CShell,
        state: &mut Self::State,
    )
        ensures
            ({
                let (s2, reqs) = self.end_spec(cursor, old(shell).canvas_spec(), *old(state));
                &&& *final(state) == s2
                &&& final(shell).canvas_spec() == old(shell).canvas_spec()
                &&& final(shell).creations() == old(shell).creations() + reqs
            }),
    ;

    /// Called when the action stops being current.
    fn deactivate(&self, shortcut: &KeyChord, shell: &mut CShell, state: &mut Self::State)
        ensures
            ({
                let (s2, reqs) = self.deactivate_spec(old(shell).canvas_spec(), *old(state));
                &&& *final(state) == s2
                &&& final(shell).canvas_spec() == old(shell).canvas_spec()
                &&& final(shell).creations() == old(shell).creations() + reqs
            }),
    ;
}

/// Any concrete action, behind one non-generic type: the closed set of
/// units this build can register.
pub enum ErasedCanvasAction {
    Pan(CanvasPanAction),
    Rotate(CanvasRotateAction),
    Zoom(CanvasZoomAction),
    PanTool(CanvasPanTool),
    Brush(BrushTool),
    BrushGraph(OpenBrushGraph),
}

/// The erased state of a registered action, one variant per concrete
/// state type.
pub enum ErasedActionState {
    Pan(CanvasPanActionState),
    Rotate(CanvasRotateActionState),
    Zoom(CanvasZoomActionState),
    PanTool(CanvasPanActionState),
    Brush(()),
    BrushGraph(()),
}

impl ErasedCanvasAction {
    /// The stable key of the wrapped action's identifier.
    pub open spec fn key_spec(&self) -> u64 {
        match self {
            ErasedCanvasAction::Pan(a) => a.key_spec(),
            ErasedCanvasAction::Rotate(a) => a.key_spec(),
            ErasedCanvasAction::Zoom(a) => a.key_spec(),
            ErasedCanvasAction::PanTool(a) => a.key_spec(),
            ErasedCanvasAction::Brush(a) => a.key_spec(),
            ErasedCanvasAction::BrushGraph(a) => a.key_spec(),
        }
    }

    /// Whether an erased state is of the wrapped action's own state
    /// type. The registry keeps this true for every entry, which makes
    /// a mismatch on dispatch structurally impossible.
    pub open spec fn state_matches(&self, state: ErasedActionState) -> bool {
        match (self, state) {
            (ErasedCanvasAction::Pan(_), ErasedActionState::Pan(_)) => true,
            (ErasedCanvasAction::Rotate(_), ErasedActionState::Rotate(_)) => true,
            (ErasedCanvasAction::Zoom(_), ErasedActionState::Zoom(_)) => true,
            (ErasedCanvasAction::PanTool(_), ErasedActionState::PanTool(_)) => true,
            (ErasedCanvasAction::Brush(_), ErasedActionState::Brush(_)) => true,
            (ErasedCanvasAction::BrushGraph(_), ErasedActionState::BrushGraph(_)) => true,
            _ => false,
        }
    }

    /// The erased form of the wrapped action's fresh state.
    pub open spec fn default_state_spec(&self) -> ErasedActionState {
        match self {
            ErasedCanvasAction::Pan(a) => ErasedActionState::Pan(a.default_state_spec()),
            ErasedCanvasAction::Rotate(a) => ErasedActionState::Rotate(a.default_state_spec()),
            ErasedCanvasAction::Zoom(a) => ErasedActionState::Zoom(a.default_state_spec()),
            ErasedCanvasAction::PanTool(a) => ErasedActionState::PanTool(a.default_state_spec()),
            ErasedCanvasAction::Brush(a) => ErasedActionState::Brush(a.default_state_spec()),
            ErasedCanvasAction::BrushGraph(a) => ErasedActionState::BrushGraph(a.default_state_spec()),
        }
    }

    /// What prepare does to an erased state of the matching kind; a
    /// mismatched state is left as it is.
    pub open spec fn prepare_spec(&self, canvas: CCanvas, state: ErasedActionState) -> (
        ErasedActionState,
        Seq<Arc<CCanvas>>,
    ) {
        match (self, state) {
            (ErasedCanvasAction::Pan(a), ErasedActionState::Pan(s)) => {
                let (s2, reqs) = a.activate_spec(canvas, s);
                (ErasedActionState::Pan(s2), reqs)
            },
            (ErasedCanvasAction::Rotate(a), ErasedActionState::Rotate(s)) => {
                let (s2, reqs) = a.activate_spec(canvas, s);
                (ErasedActionState::Rotate(s2), reqs)
            },
            (ErasedCanvasAction::Zoom(a), ErasedActionState::Zoom(s)) => {
                let (s2, reqs) = a.activate_spec(canvas, s);
                (ErasedActionState::Zoom(s2), reqs)
            },
            (ErasedCanvasAction::PanTool(a), ErasedActionState::PanTool(s)) => {
                let (s2, reqs) = a.activate_spec(canvas, s);
                (ErasedActionState::PanTool(s2), reqs)
            },
            (ErasedCanvasAction::Brush(a), ErasedActionState::Brush(s)) => {
                let (s2, reqs) = a.activate_spec(canvas, s);
                (ErasedActionState::Brush(s2), reqs)
            },
            (ErasedCanvasAction::BrushGraph(a), ErasedActionState::BrushGraph(s)) => {
                let (s2, reqs) = a.activate_spec(canvas, s);
                (ErasedActionState::BrushGraph(s2), reqs)
            },
            _ => (state, Seq::empty()),
        }
    }

    /// What begin does to an erased state of the matching kind; a
    /// mismatched state is left as it is.
    pub open spec fn begin_spec(&self, cursor: Point, canvas: CCanvas, state: ErasedActionState) -> (
        ErasedActionState,
        Seq<Arc<CCanvas>>,
    ) {
        match (self, state) {
            (ErasedCanvasAction::Pan(a), ErasedActionState::Pan(s)) => {
                let (s2, reqs) = a.begin_spec(cursor, canvas, s);
                (ErasedActionState::Pan(s2), reqs)
            },
            (ErasedCanvasAction::Rotate(a), ErasedActionState::Rotate(s)) => {
                let (s2, reqs) = a.begin_spec(cursor, canvas, s);
                (ErasedActionState::Rotate(s2), reqs)
            },
            (ErasedCanvasAction::Zoom(a), ErasedActionState::Zoom(s)) => {
                let (s2, reqs) = a.begin_spec(cursor, canvas, s);
                (ErasedActionState::Zoom(s2), reqs)
            },
            (ErasedCanvasAction::PanTool(a), ErasedActionState::PanTool(s)) => {
                let (s2, reqs) = a.begin_spec(cursor, canvas, s);
                (ErasedActionState::PanTool(s2), reqs)
            },
            (ErasedCanvasAction::Brush(a), ErasedActionState::Brush(s)) => {
                let (s2, reqs) = a.begin_spec(cursor, canvas, s);
                (ErasedActionState::Brush(s2), reqs)
            },
            (ErasedCanvasAction::BrushGraph(a), ErasedActionState::BrushGraph(s)) => {
                let (s2, reqs) = a.begin_spec(cursor, canvas, s);
                (ErasedActionState::BrushGraph(s2), reqs)
            },
            _ => (state, Seq::empty()),
        }
    }

    /// What update does to an erased state of the matching kind; a
    /// mismatched state is left as it is.
    pub open spec fn update_spec(&self, cursor: Point, canvas: CCanvas, state: ErasedActionState) -> (
        ErasedActionState,
        Seq<Arc<CCanvas>>,
    ) {
        match (self, state) {
            (ErasedCanvasAction::Pan(a), ErasedActionState::Pan(s)) => {
                let (s2, reqs) = a.update_spec(cursor, canvas, s);
                (ErasedActionState::Pan(s2), reqs)
            },
            (ErasedCanvasAction::Rotate(a), ErasedActionState::Rotate(s)) => {
                let (s2, reqs) = a.update_spec(cursor, canvas, s);
                (ErasedActionState::Rotate(s2), reqs)
            },
            (ErasedCanvasAction::Zoom(a), ErasedActionState::Zoom(s)) => {
                let (s2, reqs) = a.update_spec(cursor, canvas, s);
                (ErasedActionState::Zoom(s2), reqs)
            },
            (ErasedCanvasAction::PanTool(a), ErasedActionState::PanTool(s)) => {
                let (s2, reqs) = a.update_spec(cursor, canvas, s);
                (ErasedActionState::PanTool(s2), reqs)
            },
            (ErasedCanvasAction::Brush(a), ErasedActionState::Brush(s)) => {
                let (s2, reqs) = a.update_spec(cursor, canvas, s);
                (ErasedActionState::Brush(s2), reqs)
            },
            (ErasedCanvasAction::BrushGraph(a), ErasedActionState::BrushGraph(s)) => {
                let (s2, reqs) = a.update_spec(cursor, canvas, s);
                (ErasedActionState::BrushGraph(s2), reqs)
            },
            _ => (state, Seq::empty()),
        }
    }

    /// What end does to an erased state of the matching kind; a
    /// mismatched state is left as it is.
    pub open spec fn end_spec(&self, cursor: Point, canvas: CCanvas, state: ErasedActionState) -> (
        ErasedActionState,
        Seq<Arc<CCanvas>>,
    ) {
        match (self, state) {
            (ErasedCanvasAction::Pan(a), ErasedActionState::Pan(s)) => {
                let (s2, reqs) = a.end_spec(cursor, canvas, s);
                (ErasedActionState::Pan(s2), reqs)
            },
            (ErasedCanvasAction::Rotate(a), ErasedActionState::Rotate(s)) => {
                let (s2, reqs) = a.end_spec(cursor, canvas, s);
                (ErasedActionState::Rotate(s2), reqs)
            },
            (ErasedCanvasAction::Zoom(a), ErasedActionState::Zoom(s)) => {
                let (s2, reqs) = a.end_spec(cursor, canvas, s);
                (ErasedActionState::Zoom(s2), reqs)
            },
            (ErasedCanvasAction::PanTool(a), ErasedActionState::PanTool(s)) => {
                let (s2, reqs) = a.end_spec(cursor, canvas, s);
                (ErasedActionState::PanTool(s2), reqs)
            },
            (ErasedCanvasAction::Brush(a), ErasedActionState::Brush(s)) => {
                let (s2, reqs) = a.end_spec(cursor, canvas, s);
                (ErasedActionState::Brush(s2), reqs)
            },
            (ErasedCanvasAction::BrushGraph(a), ErasedActionState::BrushGraph(s)) => {
                let (s2, reqs) = a.end_spec(cursor, canvas, s);
                (ErasedActionState::BrushGraph(s2), reqs)
            },
            _ => (state, Seq::empty()),
        }
    }

    /// What deactivate does to an erased state of the matching kind; a
    /// mismatched state is left as it is.
    pub open spec fn deactivate_spec(&self, canvas: CCanvas, state: ErasedActionState) -> (
        ErasedActionState,
        Seq<Arc<CCanvas>>,
    ) {
        match (self, state) {
            (ErasedCanvasAction::Pan(a), ErasedActionState::Pan(s)) => {
                let (s2, reqs) = a.deactivate_spec(canvas, s);
                (ErasedActionState::Pan(s2), reqs)
            },
            (ErasedCanvasAction::Rotate(a), ErasedActionState::Rotate(s)) => {
                let (s2, reqs) = a.deactivate_spec(canvas, s);
                (ErasedActionState::Rotate(s2), reqs)
            },
            (ErasedCanvasAction::Zoom(a), ErasedActionState::Zoom(s)) => {
                let (s2, reqs) = a.deactivate_spec(canvas, s);
                (ErasedActionState::Zoom(s2), reqs)
            },
            (ErasedCanvasAction::PanTool(a), ErasedActionState::PanTool(s)) => {
                let (s2, reqs) = a.deactivate_spec(canvas, s);
                (ErasedActionState::PanTool(s2), reqs)
            },
            (ErasedCanvasAction::Brush(a), ErasedActionState::Brush(s)) => {
                let (s2, reqs) = a.deactivate_spec(canvas, s);
                (ErasedActionState::Brush(s2), reqs)
            },
            (ErasedCanvasAction::BrushGraph(a), ErasedActionState::BrushGraph(s)) => {
                let (s2, reqs) = a.deactivate_spec(canvas, s);
                (ErasedActionState::BrushGraph(s2), reqs)
            },
            _ => (state, Seq::empty()),
        }
    }

    /// The wrapped action's identifier.
    pub fn id(&self) -> (r: Id<Action>)
        ensures
            r.key() == self.key_spec(),
    {
        match self {
            ErasedCanvasAction::Pan(a) => a.id(),
            ErasedCanvasAction::Rotate(a) => a.id(),
            ErasedCanvasAction::Zoom(a) => a.id(),
            ErasedCanvasAction::PanTool(a) => a.id(),
            ErasedCanvasAction::Brush(a) => a.id(),
            ErasedCanvasAction::BrushGraph(a) => a.id(),
        }
    }

    /// A fresh erased state for the wrapped action.
    pub fn default_state(&self) -> (s: ErasedActionState)
        ensures
            s == self.default_state_spec(),
            self.state_matches(s),
    {
        match self {
            ErasedCanvasAction::Pan(a) => ErasedActionState::Pan(a.default_state()),
            ErasedCanvasAction::Rotate(a) => ErasedActionState::Rotate(a.default_state()),
            ErasedCanvasAction::Zoom(a) => ErasedActionState::Zoom(a.default_state()),
            ErasedCanvasAction::PanTool(a) => ErasedActionState::PanTool(a.default_state()),
            ErasedCanvasAction::Brush(a) => ErasedActionState::Brush(a.default_state()),
            ErasedCanvasAction::BrushGraph(a) => ErasedActionState::BrushGraph(a.default_state()),
        }
    }

    /// Delegates prepare to the wrapped action, handing it its own
    /// state.
    pub fn prepare(
        &self,
        shortcut: &KeyChord,
        shell: &mut CShell,
        state: &mut ErasedActionState,
    )
        requires
            self.state_matches(*old(state)),
        ensures
            ({
                let (s2, reqs) = self.prepare_spec(old(shell).canvas_spec(), *old(state));
                &&& *final(state) == s2
                &&& self.state_matches(*final(state))
                &&& final(shell).canvas_spec() == old(shell).canvas_spec()
                &&& final(shell).creations() == old(shell).creations() + reqs
            }),
    {
        match self {
            ErasedCanvasAction::Pan(a) => match state {
                ErasedActionState::Pan(s) => a.activate(shortcut, shell, s),
                _ => {
                    proof {
                        assert(false);
                    }
                },
            },
            ErasedCanvasAction::Rotate(a) => match state {
                ErasedActionState::Rotate(s) => a.activate(shortcut, shell, s),
                _ => {
                    proof {
                        assert(false);
                    }
                },
            },
            ErasedCanvasAction::Zoom(a) => match state {
                ErasedActionState::Zoom(s) => a.activate(shortcut, shell, s),
                _ => {
                    proof {
                        assert(false);
                    }
                },
            },
            ErasedCanvasAction::PanTool(a) => match state {
                ErasedActionState::PanTool(s) => a.activate(shortcut, shell, s),
                _ => {
                    proof {
                        assert(false);
                    }
                },
            },
            ErasedCanvasAction::Brush(a) => match state {
                ErasedActionState::Brush(s) => a.activate(shortcut, shell, s),
                _ => {
                    proof {
                        assert(false);
                    }
                },
            },
            ErasedCanvasAction::BrushGraph(a) => match state {
                ErasedActionState::BrushGraph(s) => a.activate(shortcut, shell, s),
                _ => {
                    proof {
                        assert(false);
                    }
                },
            },
        }
    }

    /// Delegates begin to the wrapped action, handing it its own
    /// state.
    pub fn begin(
        &self,
        shortcut: &KeyChord,
        cursor: Point, shell: &mut CShell,
        state: &mut ErasedActionState,
    )
        requires
            self.state_matches(*old(state)),
        ensures
            ({
                let (s2, reqs) = self.begin_spec(cursor, old(shell).canvas_spec(), *old(state));
                &&& *final(state) == s2
                &&& self.state_matches(*final(state))
                &&& final(shell).canvas_spec() == old(shell).canvas_spec()
                &&& final(shell).creations() == old(shell).creations() + reqs
            }),
    {
        match self {
            ErasedCanvasAction::Pan(a) => match state {
                ErasedActionState::Pan(s) => a.begin(shortcut, cursor, shell, s),
                _ => {
                    proof {
                        assert(false);
                    }
                },
            },
            ErasedCanvasAction::Rotate(a) => match state {
                ErasedActionState::Rotate(s) => a.begin(shortcut, cursor, shell, s),
                _ => {
                    proof {
                        assert(false);
                    }
                },
            },
            ErasedCanvasAction::Zoom(a) => match state {
                ErasedActionState::Zoom(s) => a.begin(shortcut, cursor, shell, s),
                _ => {
                    proof {
                        assert(false);
                    }
                },
            },
            ErasedCanvasAction::PanTool(a) => match state {
                ErasedActionState::PanTool(s) => a.begin(shortcut, cursor, shell, s),
                _ => {
                    proof {
                        assert(false);
                    }
                },
            },
            ErasedCanvasAction::Brush(a) => match state {
                ErasedActionState::Brush(s) => a.begin(shortcut, cursor, shell, s),
                _ => {
                    proof {
                        assert(false);
                    }
                },
            },
            ErasedCanvasAction::BrushGraph(a) => match state {
                ErasedActionState::BrushGraph(s) => a.begin(shortcut, cursor, shell, s),
                _ => {
                    proof {
                        assert(false);
                    }
                },
            },
        }
    }

    /// Delegates update to the wrapped action, handing it its own
    /// state.
    pub fn update(
        &self,
        shortcut: &KeyChord,
        cursor: Point, shell: &mut CShell,
        state: &mut ErasedActionState,
    )
        requires
            self.state_matches(*old(state)),
        ensures
            ({
                let (s2, reqs) = self.update_spec(cursor, old(shell).canvas_spec(), *old(state));
                &&& *final(state) == s2
                &&& self.state_matches(*final(state))
                &&& final(shell).canvas_spec() == old(shell).canvas_spec()
                &&& final(shell).creations() == old(shell).creations() + reqs
            }),
    {
        match self {
            ErasedCanvasAction::Pan(a) => match state {
                ErasedActionState::Pan(s) => a.update(shortcut, cursor, shell, s),
                _ => {
                    proof {
                        assert(false);
                    }
                },
            },
            ErasedCanvasAction::Rotate(a) => match state {
                ErasedActionState::Rotate(s) => a.update(shortcut, cursor, shell, s),
                _ => {
                    proof {
                        assert(false);
                    }
                },
            },
            ErasedCanvasAction::Zoom(a) => match state {
                ErasedActionState::Zoom(s) => a.update(shortcut, cursor, shell, s),
                _ => {
                    proof {
                        assert(false);
                    }
                },
            },
            ErasedCanvasAction::PanTool(a) => match state {
                ErasedActionState::PanTool(s) => a.update(shortcut, cursor, shell, s),
                _ => {
                    proof {
                        assert(false);
                    }
                },
            },
            ErasedCanvasAction::Brush(a) => match state {
                ErasedActionState::Brush(s) => a.update(shortcut, cursor, shell, s),
                _ => {
                    proof {
                        assert(false);
                    }
                },
            },
            ErasedCanvasAction::BrushGraph(a) => match state {
                ErasedActionState::BrushGraph(s) => a.update(shortcut, cursor, shell, s),
                _ => {
                    proof {
                        assert(false);
                    }
                },
            },
        }
    }

    /// Delegates end to the wrapped action, handing it its own
    /// state.
    pub fn end(
        &self,
        shortcut: &KeyChord,
        cursor: Point, shell: &mut CShell,
        state: &mut ErasedActionState,
    )
        requires
            self.state_matches(*old(state)),
        ensures
            ({
                let (s2, reqs) = self.end_spec(cursor, old(shell).canvas_spec(), *old(state));
                &&& *final(state) == s2
                &&& self.state_matches(*final(state))
                &&& final(shell).canvas_spec() == old(shell).canvas_spec()
                &&& final(shell).creations() == old(shell).creations() + reqs
            }),
    {
        match self {
            ErasedCanvasAction::Pan(a) => match state {
                ErasedActionState::Pan(s) => a.end(shortcut, cursor, shell, s),
                _ => {
                    proof {
                        assert(false);
                    }
                },
            },
            ErasedCanvasAction::Rotate(a) => match state {
                ErasedActionState::Rotate(s) => a.end(shortcut, cursor, shell, s),
                _ => {
                    proof {
                        assert(false);
                    }
                },
            },
            ErasedCanvasAction::Zoom(a) => match state {
                ErasedActionState::Zoom(s) => a.end(shortcut, cursor, shell, s),
                _ => {
                    proof {
                        assert(false);
                    }
                },
            },
            ErasedCanvasAction::PanTool(a) => match state {
                ErasedActionState::PanTool(s) => a.end(shortcut, cursor, shell, s),
                _ => {
                    proof {
                        assert(false);
                    }
                },
            },
            ErasedCanvasAction::Brush(a) => match state {
                ErasedActionState::Brush(s) => a.end(shortcut, cursor, shell, s),
                _ => {
                    proof {
                        assert(false);
                    }
                },
            },
            ErasedCanvasAction::BrushGraph(a) => match state {
                ErasedActionState::BrushGraph(s) => a.end(shortcut, cursor, shell, s),
                _ => {
                    proof {
                        assert(false);
                    }
                },
            },
        }
    }

    /// Delegates deactivate to the wrapped action, handing it its own
    /// state.
    pub fn deactivate(
        &self,
        shortcut: &KeyChord,
        shell: &mut CShell,
        state: &mut ErasedActionState,
    )
        requires
            self.state_matches(*old(state)),
        ensures
            ({
                let (s2, reqs) = self.deactivate_spec(old(shell).canvas_spec(), *old(state));
                &&& *final(state) == s2
                &&& self.state_matches(*final(state))
                &&& final(shell).canvas_spec() == old(shell).canvas_spec()
                &&& final(shell).creations() == old(shell).creations() + reqs
            }),
    {
        match self {
            ErasedCanvasAction::Pan(a) => match state {
                ErasedActionState::Pan(s) => a.deactivate(shortcut, shell, s),
                _ => {
                    proof {
                        assert(false);
                    }
                },
            },
            ErasedCanvasAction::Rotate(a) => match state {
                ErasedActionState::Rotate(s) => a.deactivate(shortcut, shell, s),
                _ => {
                    proof {
                        assert(false);
                    }
                },
            },
            ErasedCanvasAction::Zoom(a) => match state {
                ErasedActionState::Zoom(s) => a.deactivate(shortcut, shell, s),
                _ => {
                    proof {
                        assert(false);
                    }
                },
            },
            ErasedCanvasAction::PanTool(a) => match state {
                ErasedActionState::PanTool(s) => a.deactivate(shortcut, shell, s),
                _ => {
                    proof {
                        assert(false);
                    }
                },
            },
            ErasedCanvasAction::Brush(a) => match state {
                ErasedActionState::Brush(s) => a.deactivate(shortcut, shell, s),
                _ => {
                    proof {
                        assert(false);
                    }
                },
            },
            ErasedCanvasAction::BrushGraph(a) => match state {
                ErasedActionState::BrushGraph(s) => a.deactivate(shortcut, shell, s),
                _ => {
                    proof {
                        assert(false);
                    }
                },
            },
        }
    }
}

/// One registered action paired with its erased state. The pairing is
/// made at insertion and never taken apart, so the state is always of
/// the action's own kind; the action itself is read-only after
/// construction.
pub struct StatefulCanvasAction {
    pub action: ErasedCanvasAction,
    pub state: ErasedActionState,
}

impl Keyed for StatefulCanvasAction {
    open spec fn key_spec(&self) -> u64 {
        self.action.key_spec()
    }

    fn key(&self) -> u64 {
        self.action.id().value()
    }
}

impl StatefulCanvasAction {
    /// The state is of the action's own kind.
    pub open spec fn wf(&self) -> bool {
        self.action.state_matches(self.state)
    }

    /// A fresh entry for the action, with its default state.
    pub fn new(action: ErasedCanvasAction) -> (r: StatefulCanvasAction)
        ensures
            r.wf(),
            r.action == action,
            r.state == action.default_state_spec(),
    {
        let state = action.default_state();
        StatefulCanvasAction { action, state }
    }

    /// The registered action's identifier.
    pub fn id(&self) -> (r: Id<Action>)
        ensures
            r.key() == self.key_spec(),
    {
        self.action.id()
    }

    /// The entry after prepare: the same action with the state its
    /// transition produces, plus the creation requests made on the way.
    pub open spec fn after_prepare(&self, canvas: CCanvas) -> (
        StatefulCanvasAction,
        Seq<Arc<CCanvas>>,
    ) {
        let (s2, reqs) = self.action.prepare_spec(canvas, self.state);
        (StatefulCanvasAction { action: self.action, state: s2 }, reqs)
    }

    /// Drives the registered action through prepare with exclusive
    /// access to its state.
    pub fn prepare(&mut self, shortcut: &KeyChord, shell: &mut CShell)
        requires
            old(self).wf(),
        ensures
            final(self).wf(),
            ({
                let (e2, reqs) = old(self).after_prepare(old(shell).canvas_spec());
                &&& *final(self) == e2
                &&& final(shell).canvas_spec() == old(shell).canvas_spec()
                &&& final(shell).creations() == old(shell).creations() + reqs
            }),
    {
        let action = &self.action;
        action.prepare(shortcut, shell, &mut self.state);
    }

    /// The entry after begin: the same action with the state its
    /// transition produces, plus the creation requests made on the way.
    pub open spec fn after_begin(&self, cursor: Point, canvas: CCanvas) -> (
        StatefulCanvasAction,
        Seq<Arc<CCanvas>>,
    ) {
        let (s2, reqs) = self.action.begin_spec(cursor, canvas, self.state);
        (StatefulCanvasAction { action: self.action, state: s2 }, reqs)
    }

    /// Drives the registered action through begin with exclusive
    /// access to its state.
    pub fn begin(&mut self, shortcut: &KeyChord, cursor: Point, shell: &mut CShell)
        requires
            old(self).wf(),
        ensures
            final(self).wf(),
            ({
                let (e2, reqs) = old(self).after_begin(cursor, old(shell).canvas_spec());
                &&& *final(self) == e2
                &&& final(shell).canvas_spec() == old(shell).canvas_spec()
                &&& final(shell).creations() == old(shell).creations() + reqs
            }),
    {
        let action = &self.action;
        action.begin(shortcut, cursor, shell, &mut self.state);
    }

    /// The entry after update: the same action with the state its
    /// transition produces, plus the creation requests made on the way.
    pub open spec fn after_update(&self, cursor: Point, canvas: CCanvas) -> (
        StatefulCanvasAction,
        Seq<Arc<CCanvas>>,
    ) {
        let (s2, reqs) = self.action.update_spec(cursor, canvas, self.state);
        (StatefulCanvasAction { action: self.action, state: s2 }, reqs)
    }

    /// Drives the registered action through update with exclusive
    /// access to its state.
    pub fn update(&mut self, shortcut: &KeyChord, cursor: Point, shell: &mut CShell)
        requires
            old(self).wf(),
        ensures
            final(self).wf(),
            ({
                let (e2, reqs) = old(self).after_update(cursor, old(shell).canvas_spec());
                &&& *final(self) == e2
                &&& final(shell).canvas_spec() == old(shell).canvas_spec()
                &&& final(shell).creations() == old(shell).creations() + reqs
            }),
    {
        let action = &self.action;
        action.update(shortcut, cursor, shell, &mut self.state);
    }

    /// The entry after end: the same action with the state its
    /// transition produces, plus the creation requests made on the way.
    pub open spec fn after_end(&self, cursor: Point, canvas: CCanvas) -> (
        StatefulCanvasAction,
        Seq<Arc<CCanvas>>,
    ) {
        let (s2, reqs) = self.action.end_spec(cursor, canvas, self.state);
        (StatefulCanvasAction { action: self.action, state: s2 }, reqs)
    }

    /// Drives the registered action through end with exclusive
    /// access to its state.
    pub fn end(&mut self, shortcut: &KeyChord, cursor: Point, shell: &mut CShell)
        requires
            old(self).wf(),
        ensures
            final(self).wf(),
            ({
                let (e2, reqs) = old(self).after_end(cursor, old(shell).canvas_spec());
                &&& *final(self) == e2
                &&& final(shell).canvas_spec() == old(shell).canvas_spec()
                &&& final(shell).creations() == old(shell).creations() + reqs
            }),
    {
        let action = &self.action;
        action.end(shortcut, cursor, shell, &mut self.state);
    }

    /// The entry after deactivate: the same action with the state its
    /// transition produces, plus the creation requests made on the way.
    pub open spec fn after_deactivate(&self, canvas: CCanvas) -> (
        StatefulCanvasAction,
        Seq<Arc<CCanvas>>,
    ) {
        let (s2, reqs) = self.action.deactivate_spec(canvas, self.state);
        (StatefulCanvasAction { action: self.action, state: s2 }, reqs)
    }

    /// Drives the registered action through deactivate with exclusive
    /// access to its state.
    pub fn deactivate(&mut self, shortcut: &KeyChord, shell: &mut CShell)
        requires
            old(self).wf(),
        ensures
            final(self).wf(),
            ({
                let (e2, reqs) = old(self).after_deactivate(old(shell).canvas_spec());
                &&& *final(self) == e2
                &&& final(shell).canvas_spec() == old(shell).canvas_spec()
                &&& final(shell).creations() == old(shell).creations() + reqs
            }),
    {
        let action = &self.action;
        action.deactivate(shortcut, shell, &mut self.state);
    }
}

/// The registry of actions: built once at startup, looked up on every
/// input event, with exclusive access to one entry per dispatch.
pub struct CanvasActionCollection {
    pub actions: Registry<StatefulCanvasAction>,
}

impl CanvasActionCollection {
    /// The registry index is sound and every entry pairs an action
    /// with a state of its own kind.
    pub open spec fn wf(&self) -> bool {
        &&& self.actions.wf()
        &&& forall|i: int|
            0 <= i < self.actions.entries@.len() ==> (#[trigger] self.actions.entries@[i]).wf()
    }

    /// The collection as a mapping from identifier key to entry.
    pub open spec fn contents(&self) -> Map<u64, StatefulCanvasAction> {
        self.actions.contents()
    }

    /// An empty collection.
    pub fn new() -> (r: CanvasActionCollection)
        ensures
            r.wf(),
            r.contents() == Map::<u64, StatefulCanvasAction>::empty(),
    {
        CanvasActionCollection { actions: Registry::new() }
    }

    /// Registers an action under its identifier, pairing it with its
    /// default state at insertion. Returns whether the identifier was
    /// fresh; a duplicate replaces the earlier entry (last write wins)
    /// and reports `false`, so the caller can flag the configuration
    /// error.
    pub fn register(&mut self, action: ErasedCanvasAction) -> (fresh: bool)
        requires
            old(self).wf(),
        ensures
            final(self).wf(),
            ({
                let entry = StatefulCanvasAction { action, state: action.default_state_spec() };
                final(self).contents() == old(self).contents().insert(action.key_spec(), entry)
            }),
            fresh == !old(self).contents().contains_key(action.key_spec()),
    {
        let entry = StatefulCanvasAction::new(action);
        let fresh = self.actions.register(entry);
        proof {
            assert forall|i: int| 0 <= i < self.actions.entries@.len()
                implies (#[trigger] self.actions.entries@[i]).wf() by {
                assert(self.actions.entries@[i] == entry || (i < old(
                    self,
                ).actions.entries@.len() && self.actions.entries@[i] == old(
                    self,
                ).actions.entries@[i]));
            }
        }
        fresh
    }

    /// Looks up the entry bound to an identifier; `None` means no such
    /// action is currently registered, which callers treat as a no-op.
    pub fn get(&self, id: &Id<Action>) -> (r: Option<&StatefulCanvasAction>)
        requires
            self.wf(),
        ensures
            match r {
                Some(e) => self.contents().contains_key(id.key()) && *e == self.contents()[
                    id.key()
                ],
                None => !self.contents().contains_key(id.key()),
            },
    {
        self.actions.get(id.value())
    }

    /// Whether an action is registered under the identifier.
    pub fn contains(&self, id: &Id<Action>) -> (r: bool)
        requires
            self.wf(),
        ensures
            r == self.contents().contains_key(id.key()),
    {
        self.actions.contains(id.value())
    }

    /// Dispatches prepare to the entry bound to the identifier.
    pub fn prepare(&mut self, id: &Id<Action>, shortcut: &KeyChord, shell: &mut CShell)
        requires
            old(self).wf(),
            old(self).contents().contains_key(id.key()),
        ensures
            final(self).wf(),
            ({
                let (e2, reqs) = old(self).contents()[id.key()].after_prepare(
                    old(shell).canvas_spec(),
                );
                &&& final(self).contents() == old(self).contents().insert(id.key(), e2)
                &&& final(shell).canvas_spec() == old(shell).canvas_spec()
                &&& final(shell).creations() == old(shell).creations() + reqs
            }),
    {
        let idx = match self.actions.find(id.value()) {
            Some(i) => i,
            None => {
                proof {
                    assert(false);
                }
                0
            },
        };
        self.actions.entries[idx].prepare(shortcut, shell);
        proof {
            assert(self.actions.wf());
            assert forall|i: int| 0 <= i < self.actions.entries@.len()
                implies (#[trigger] self.actions.entries@[i]).wf() by {}
            assert(self.contents() =~= old(self).contents().insert(
                id.key(),
                old(self).contents()[id.key()].after_prepare(old(shell).canvas_spec()).0,
            ));
        }
    }

    /// Dispatches begin to the entry bound to the identifier.
    pub fn begin(&mut self, id: &Id<Action>, shortcut: &KeyChord, cursor: Point, shell: &mut CShell)
        requires
            old(self).wf(),
            old(self).contents().contains_key(id.key()),
        ensures
            final(self).wf(),
            ({
                let (e2, reqs) = old(self).contents()[id.key()].after_begin(
                    cursor, old(shell).canvas_spec(),
                );
                &&& final(self).contents() == old(self).contents().insert(id.key(), e2)
                &&& final(shell).canvas_spec() == old(shell).canvas_spec()
                &&& final(shell).creations() == old(shell).creations() + reqs
            }),
    {
        let idx = match self.actions.find(id.value()) {
            Some(i) => i,
            None => {
                proof {
                    assert(false);
                }
                0
            },
        };
        self.actions.entries[idx].begin(shortcut, cursor, shell);
        proof {
            assert(self.actions.wf());
            assert forall|i: int| 0 <= i < self.actions.entries@.len()
                implies (#[trigger] self.actions.entries@[i]).wf() by {}
            assert(self.contents() =~= old(self).contents().insert(
                id.key(),
                old(self).contents()[id.key()].after_begin(cursor, old(shell).canvas_spec()).0,
            ));
        }
    }

    /// Dispatches update to the entry bound to the identifier.
    pub fn update(&mut self, id: &Id<Action>, shortcut: &KeyChord, cursor: Point, shell: &mut CShell)
        requires
            old(self).wf(),
            old(self).contents().contains_key(id.key()),
        ensures
            final(self).wf(),
            ({
                let (e2, reqs) = old(self).contents()[id.key()].after_update(
                    cursor, old(shell).canvas_spec(),
                );
                &&& final(self).contents() == old(self).contents().insert(id.key(), e2)
                &&& final(shell).canvas_spec() == old(shell).canvas_spec()
                &&& final(shell).creations() == old(shell).creations() + reqs
            }),
    {
        let idx = match self.actions.find(id.value()) {
            Some(i) => i,
            None => {
                proof {
                    assert(false);
                }
                0
            },
        };
        self.actions.entries[idx].update(shortcut, cursor, shell);
        proof {
            assert(self.actions.wf());
            assert forall|i: int| 0 <= i < self.actions.entries@.len()
                implies (#[trigger] self.actions.entries@[i]).wf() by {}
            assert(self.contents() =~= old(self).contents().insert(
                id.key(),
                old(self).contents()[id.key()].after_update(cursor, old(shell).canvas_spec()).0,
            ));
        }
    }

    /// Dispatches end to the entry bound to the identifier.
    pub fn end(&mut self, id: &Id<Action>, shortcut: &KeyChord, cursor: Point, shell: &mut CShell)
        requires
            old(self).wf(),
            old(self).contents().contains_key(id.key()),
        ensures
            final(self).wf(),
            ({
                let (e2, reqs) = old(self).contents()[id.key()].after_end(
                    cursor, old(shell).canvas_spec(),
                );
                &&& final(self).contents() == old(self).contents().insert(id.key(), e2)
                &&& final(shell).canvas_spec() == old(shell).canvas_spec()
                &&& final(shell).creations() == old(shell).creations() + reqs
            }),
    {
        let idx = match self.actions.find(id.value()) {
            Some(i) => i,
            None => {
                proof {
                    assert(false);
                }
                0
            },
        };
        self.actions.entries[idx].end(shortcut, cursor, shell);
        proof {
            assert(self.actions.wf());
            assert forall|i: int| 0 <= i < self.actions.entries@.len()
                implies (#[trigger] self.actions.entries@[i]).wf() by {}
            assert(self.contents() =~= old(self).contents().insert(
                id.key(),
                old(self).contents()[id.key()].after_end(cursor, old(shell).canvas_spec()).0,
            ));
        }
    }

    /// Dispatches deactivate to the entry bound to the identifier.
    pub fn deactivate(&mut self, id: &Id<Action>, shortcut: &KeyChord, shell: &mut CShell)
        requires
            old(self).wf(),
            old(self).contents().contains_key(id.key()),
        ensures
            final(self).wf(),
            ({
                let (e2, reqs) = old(self).contents()[id.key()].after_deactivate(
                    old(shell).canvas_spec(),
                );
                &&& final(self).contents() == old(self).contents().insert(id.key(), e2)
                &&& final(shell).canvas_spec() == old(shell).canvas_spec()
                &&& final(shell).creations() == old(shell).creations() + reqs
            }),
    {
        let idx = match self.actions.find(id.value()) {
            Some(i) => i,
            None => {
                proof {
                    assert(false);
                }
                0
            },
        };
        self.actions.entries[idx].deactivate(shortcut, shell);
        proof {
            assert(self.actions.wf());
            assert forall|i: int| 0 <= i < self.actions.entries@.len()
                implies (#[trigger] self.actions.entries@[i]).wf() by {}
            assert(self.contents() =~= old(self).contents().insert(
                id.key(),
                old(self).contents()[id.key()].after_deactivate(old(shell).canvas_spec()).0,
            ));
        }
    }
}

} // verus!
