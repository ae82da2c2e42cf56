//! Editing tools that participate in the action lifecycle.
//!
//! The concrete editing work (brush rasterization, pan math) is an
//! external collaborator; the tools here are the lifecycle
//! participants that stand for it.

use vstd::prelude::*;
use vstd::string::StringSliceAdditionalSpecFns;
use std::sync::Arc;
use crate::action::CanvasAction;
use crate::canvas::CCanvas;
use crate::control::{CanvasPanAction, CanvasPanActionState};
use crate::id::{stable_key, Action, Id};
use crate::keys::KeyChord;
use crate::mouse::Point;
use crate::shell::CShell;

verus! {

/// A tool is an action that edits the canvas.
pub trait CanvasTool: CanvasAction {

}

/// Paints onto the current document.
pub struct BrushTool;

impl CanvasTool for BrushTool {

}

impl CanvasAction for BrushTool {
    type State = ();

    open spec fn key_spec(&self) -> u64 {
        stable_key("brush".spec_bytes())
    }

    open spec fn default_state_spec(&self) -> () {
        ()
    }

    open spec fn activate_spec(&self, canvas: CCanvas, state: ()) -> ((), Seq<Arc<CCanvas>>) {
        (state, Seq::empty())
    }

    open spec fn begin_spec(&self, cursor: Point, canvas: CCanvas, state: ()) -> (
        (),
        Seq<Arc<CCanvas>>,
    ) {
        (state, Seq::empty())
    }

    open spec fn update_spec(&self, cursor: Point, canvas: CCanvas, state: ()) -> (
        (),
        Seq<Arc<CCanvas>>,
    ) {
        (state, Seq::empty())
    }

    open spec fn end_spec(&self, cursor: Point, canvas: CCanvas, state: ()) -> (
        (),
        Seq<Arc<CCanvas>>,
    ) {
        (state, Seq::empty())
    }

    open spec fn deactivate_spec(&self, canvas: CCanvas, state: ()) -> ((), Seq<Arc<CCanvas>>) {
        (state, Seq::empty())
    }

    fn id(&self) -> Id<Action> {
        Id::from_str("brush")
    }

    fn default_state(&self) -> () {
        ()
    }

    fn activate(&self, shortcut: &KeyChord, shell: &mut CShell, state: &mut ()) {
    }

    fn begin(&self, shortcut: &KeyChord, cursor: Point, shell: &mut CShell, state: &mut ()) {
    }

    fn update(&self, shortcut: &KeyChord, cursor: Point, shell: &mut CShell, state: &mut ()) {
    }

    fn end(&self, shortcut: &KeyChord, cursor: Point, shell: &mut CShell, state: &mut ()) {
    }

    fn deactivate(&self, shortcut: &KeyChord, shell: &mut CShell, state: &mut ()) {
    }
}

/// Pans the canvas as a selectable tool, by delegating to the pan
/// control action under its own identifier.
pub struct CanvasPanTool {
    pub action: CanvasPanAction,
}

impl CanvasTool for CanvasPanTool {

}

impl CanvasAction for CanvasPanTool {
    type State = CanvasPanActionState;

    open spec fn key_spec(&self) -> u64 {
        stable_key("canvas_pan_tool".spec_bytes())
    }

    open spec fn default_state_spec(&self) -> CanvasPanActionState {
        self.action.default_state_spec()
    }

    open spec fn activate_spec(&self, canvas: CCanvas, state: CanvasPanActionState) -> (
        CanvasPanActionState,
        Seq<Arc<CCanvas>>,
    ) {
        self.action.activate_spec(canvas, state)
    }

    open spec fn begin_spec(&self, cursor: Point, canvas: CCanvas, state: CanvasPanActionState) -> (
        CanvasPanActionState,
        Seq<Arc<CCanvas>>,
    ) {
        self.action.begin_spec(cursor, canvas, state)
    }

    open spec fn update_spec(&self, cursor: Point, canvas: CCanvas, state: CanvasPanActionState) -> (
        CanvasPanActionState,
        Seq<Arc<CCanvas>>,
    ) {
        self.action.update_spec(cursor, canvas, state)
    }

    open spec fn end_spec(&self, cursor: Point, canvas: CCanvas, state: CanvasPanActionState) -> (
        CanvasPanActionState,
        Seq<Arc<CCanvas>>,
    ) {
        self.action.end_spec(cursor, canvas, state)
    }

    open spec fn deactivate_spec(&self, canvas: CCanvas, state: CanvasPanActionState) -> (
        CanvasPanActionState,
        Seq<Arc<CCanvas>>,
    ) {
        self.action.deactivate_spec(canvas, state)
    }

    fn id(&self) -> Id<Action> {
        Id::from_str("canvas_pan_tool")
    }

    fn default_state(&self) -> CanvasPanActionState {
        self.action.default_state()
    }

    fn activate(&self, shortcut: &KeyChord, shell: &mut CShell, state: &mut CanvasPanActionState) {
        self.action.activate(shortcut, shell, state)
    }

    fn begin(
        &self,
        shortcut: &KeyChord,
        cursor: Point,
        shell: &mut CShell,
        state: &mut CanvasPanActionState,
    ) {
        self.action.begin(shortcut, cursor, shell, state)
    }

    fn update(
        &self,
        shortcut: &KeyChord,
        cursor: Point,
        shell: &mut CShell,
        state: &mut CanvasPanActionState,
    ) {
        self.action.update(shortcut, cursor, shell, state)
    }

    fn end(
        &self,
        shortcut: &KeyChord,
        cursor: Point,
        shell: &mut CShell,
        state: &mut CanvasPanActionState,
    ) {
        self.action.end(shortcut, cursor, shell, state)
    }

    fn deactivate(
        &self,
        shortcut: &KeyChord,
        shell: &mut CShell,
        state: &mut CanvasPanActionState,
    ) {
        self.action.deactivate(shortcut, shell, state)
    }
}

/// Opens the brush configuration graph for editing.
pub struct OpenBrushGraph;

impl CanvasAction for OpenBrushGraph {
    type State = ();

    open spec fn key_spec(&self) -> u64 {
        stable_key("open_brush_graph".spec_bytes())
    }

    open spec fn default_state_spec(&self) -> () {
        ()
    }

    open spec fn activate_spec(&self, canvas: CCanvas, state: ()) -> ((), Seq<Arc<CCanvas>>) {
        (state, Seq::empty())
    }

    open spec fn begin_spec(&self, cursor: Point, canvas: CCanvas, state: ()) -> (
        (),
        Seq<Arc<CCanvas>>,
    ) {
        (state, Seq::empty())
    }

    open spec fn update_spec(&self, cursor: Point, canvas: CCanvas, state: ()) -> (
        (),
        Seq<Arc<CCanvas>>,
    ) {
        (state, Seq::empty())
    }

    open spec fn end_spec(&self, cursor: Point, canvas: CCanvas, state: ()) -> (
        (),
        Seq<Arc<CCanvas>>,
    ) {
        (state, Seq::empty())
    }

    open spec fn deactivate_spec(&self, canvas: CCanvas, state: ()) -> ((), Seq<Arc<CCanvas>>) {
        (state, Seq::empty())
    }

    fn id(&self) -> Id<Action> {
        Id::from_str("open_brush_graph")
    }

    fn default_state(&self) -> () {
        ()
    }

    fn activate(&self, shortcut: &KeyChord, shell: &mut CShell, state: &mut ()) {
    }

    fn begin(&self, shortcut: &KeyChord, cursor: Point, shell: &mut CShell, state: &mut ()) {
    }

    fn update(&self, shortcut: &KeyChord, cursor: Point, shell: &mut CShell, state: &mut ()) {
    }

    fn end(&self, shortcut: &KeyChord, cursor: Point, shell: &mut CShell, state: &mut ()) {
    }

    fn deactivate(&self, shortcut: &KeyChord, shell: &mut CShell, state: &mut ()) {
    }
}

} // verus!
