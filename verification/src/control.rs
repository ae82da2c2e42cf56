//! Canvas navigation actions: pan, rotate and zoom.
//!
//! The geometry these actions perform on the document lives outside
//! this layer; here they are lifecycle participants whose transitions
//! leave state and document untouched.

use vstd::prelude::*;
use vstd::string::StringSliceAdditionalSpecFns;
use std::sync::Arc;
use crate::action::CanvasAction;
use crate::canvas::CCanvas;
use crate::id::{stable_key, Action, Id};
use crate::keys::KeyChord;
use crate::mouse::Point;
use crate::shell::CShell;

verus! {

/// Pans the canvas under the cursor.
pub struct CanvasPanAction;

/// Pan keeps no state between calls.
#[derive(Clone, Copy, PartialEq, Eq, Structural, Debug)]
pub struct CanvasPanActionState {}

impl CanvasAction for CanvasPanAction {
    type State = CanvasPanActionState;

    open spec fn key_spec(&self) -> u64 {
        stable_key("canvas_pan_action".spec_bytes())
    }

    open spec fn default_state_spec(&self) -> CanvasPanActionState {
        CanvasPanActionState {  }
    }

    open spec fn activate_spec(&self, canvas: CCanvas, state: CanvasPanActionState) -> (
        CanvasPanActionState,
        Seq<Arc<CCanvas>>,
    ) {
        (state, Seq::empty())
    }

    open spec fn begin_spec(&self, cursor: Point, canvas: CCanvas, state: CanvasPanActionState) -> (
        CanvasPanActionState,
        Seq<Arc<CCanvas>>,
    ) {
        (state, Seq::empty())
    }

    open spec fn update_spec(&self, cursor: Point, canvas: CCanvas, state: CanvasPanActionState) -> (
        CanvasPanActionState,
        Seq<Arc<CCanvas>>,
    ) {
        (state, Seq::empty())
    }

    open spec fn end_spec(&self, cursor: Point, canvas: CCanvas, state: CanvasPanActionState) -> (
        CanvasPanActionState,
        Seq<Arc<CCanvas>>,
    ) {
        (state, Seq::empty())
    }

    open spec fn deactivate_spec(&self, canvas: CCanvas, state: CanvasPanActionState) -> (
        CanvasPanActionState,
        Seq<Arc<CCanvas>>,
    ) {
        (state, Seq::empty())
    }

    fn id(&self) -> Id<Action> {
        Id::from_str("canvas_pan_action")
    }

    fn default_state(&self) -> CanvasPanActionState {
        CanvasPanActionState {  }
    }

    fn activate(&self, shortcut: &KeyChord, shell: &mut CShell, state: &mut CanvasPanActionState) {
    }

    fn begin(
        &self,
        shortcut: &KeyChord,
        cursor: Point,
        shell: &mut CShell,
        state: &mut CanvasPanActionState,
    ) {
    }

    fn update(
        &self,
        shortcut: &KeyChord,
        cursor: Point,
        shell: &mut CShell,
        state: &mut CanvasPanActionState,
    ) {
    }

    fn end(
        &self,
        shortcut: &KeyChord,
        cursor: Point,
        shell: &mut CShell,
        state: &mut CanvasPanActionState,
    ) {
    }

    fn deactivate(
        &self,
        shortcut: &KeyChord,
        shell: &mut CShell,
        state: &mut CanvasPanActionState,
    ) {
    }
}

/// Rotates the canvas around the cursor.
pub struct CanvasRotateAction;

/// Rotate keeps no state between calls.
#[derive(Clone, Copy, PartialEq, Eq, Structural, Debug)]
pub struct CanvasRotateActionState {}

impl CanvasAction for CanvasRotateAction {
    type State = CanvasRotateActionState;

    open spec fn key_spec(&self) -> u64 {
        stable_key("canvas_rotate_action".spec_bytes())
    }

    open spec fn default_state_spec(&self) -> CanvasRotateActionState {
        CanvasRotateActionState {  }
    }

    open spec fn activate_spec(&self, canvas: CCanvas, state: CanvasRotateActionState) -> (
        CanvasRotateActionState,
        Seq<Arc<CCanvas>>,
    ) {
        (state, Seq::empty())
    }

    open spec fn begin_spec(
        &self,
        cursor: Point,
        canvas: CCanvas,
        state: CanvasRotateActionState,
    ) -> (CanvasRotateActionState, Seq<Arc<CCanvas>>) {
        (state, Seq::empty())
    }

    open spec fn update_spec(
        &self,
        cursor: Point,
        canvas: CCanvas,
        state: CanvasRotateActionState,
    ) -> (CanvasRotateActionState, Seq<Arc<CCanvas>>) {
        (state, Seq::empty())
    }

    open spec fn end_spec(
        &self,
        cursor: Point,
        canvas: CCanvas,
        state: CanvasRotateActionState,
    ) -> (CanvasRotateActionState, Seq<Arc<CCanvas>>) {
        (state, Seq::empty())
    }

    open spec fn deactivate_spec(&self, canvas: CCanvas, state: CanvasRotateActionState) -> (
        CanvasRotateActionState,
        Seq<Arc<CCanvas>>,
    ) {
        (state, Seq::empty())
    }

    fn id(&self) -> Id<Action> {
        Id::from_str("canvas_rotate_action")
    }

    fn default_state(&self) -> CanvasRotateActionState {
        CanvasRotateActionState {  }
    }

    fn activate(
        &self,
        shortcut: &KeyChord,
        shell: &mut CShell,
        state: &mut CanvasRotateActionState,
    ) {
    }

    fn begin(
        &self,
        shortcut: &KeyChord,
        cursor: Point,
        shell: &mut CShell,
        state: &mut CanvasRotateActionState,
    ) {
    }

    fn update(
        &self,
        shortcut: &KeyChord,
        cursor: Point,
        shell: &mut CShell,
        state: &mut CanvasRotateActionState,
    ) {
    }

    fn end(
        &self,
        shortcut: &KeyChord,
        cursor: Point,
        shell: &mut CShell,
        state: &mut CanvasRotateActionState,
    ) {
    }

    fn deactivate(
        &self,
        shortcut: &KeyChord,
        shell: &mut CShell,
        state: &mut CanvasRotateActionState,
    ) {
    }
}

/// Zooms the canvas toward the cursor.
pub struct CanvasZoomAction;

/// Zoom keeps no state between calls.
#[derive(Clone, Copy, PartialEq, Eq, Structural, Debug)]
pub struct CanvasZoomActionState {}

impl CanvasAction for CanvasZoomAction {
    type State = CanvasZoomActionState;

    open spec fn key_spec(&self) -> u64 {
        stable_key("canvas_zoom_action".spec_bytes())
    }

    open spec fn default_state_spec(&self) -> CanvasZoomActionState {
        CanvasZoomActionState {  }
    }

    open spec fn activate_spec(&self, canvas: CCanvas, state: CanvasZoomActionState) -> (
        CanvasZoomActionState,
        Seq<Arc<CCanvas>>,
    ) {
        (state, Seq::empty())
    }

    open spec fn begin_spec(
        &self,
        cursor: Point,
        canvas: CCanvas,
        state: CanvasZoomActionState,
    ) -> (CanvasZoomActionState, Seq<Arc<CCanvas>>) {
        (state, Seq::empty())
    }

    open spec fn update_spec(
        &self,
        cursor: Point,
        canvas: CCanvas,
        state: CanvasZoomActionState,
    ) -> (CanvasZoomActionState, Seq<Arc<CCanvas>>) {
        (state, Seq::empty())
    }

    open spec fn end_spec(
        &self,
        cursor: Point,
        canvas: CCanvas,
        state: CanvasZoomActionState,
    ) -> (CanvasZoomActionState, Seq<Arc<CCanvas>>) {
        (state, Seq::empty())
    }

    open spec fn deactivate_spec(&self, canvas: CCanvas, state: CanvasZoomActionState) -> (
        CanvasZoomActionState,
        Seq<Arc<CCanvas>>,
    ) {
        (state, Seq::empty())
    }

    fn id(&self) -> Id<Action> {
        Id::from_str("canvas_zoom_action")
    }

    fn default_state(&self) -> CanvasZoomActionState {
        CanvasZoomActionState {  }
    }

    fn activate(&self, shortcut: &KeyChord, shell: &mut CShell, state: &mut CanvasZoomActionState) {
    }

    fn begin(
        &self,
        shortcut: &KeyChord,
        cursor: Point,
        shell: &mut CShell,
        state: &mut CanvasZoomActionState,
    ) {
    }

    fn update(
        &self,
        shortcut: &KeyChord,
        cursor: Point,
        shell: &mut CShell,
        state: &mut CanvasZoomActionState,
    ) {
    }

    fn end(
        &self,
        shortcut: &KeyChord,
        cursor: Point,
        shell: &mut CShell,
        state: &mut CanvasZoomActionState,
    ) {
    }

    fn deactivate(
        &self,
        shortcut: &KeyChord,
        shell: &mut CShell,
        state: &mut CanvasZoomActionState,
    ) {
    }
}

} // verus!
