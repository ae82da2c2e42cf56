//! The context handed to a tool for the duration of one phase call:
//! read access to the current document plus a side channel on which
//! the tool may request creation of further documents.

use vstd::prelude::*;
use std::sync::Arc;
use crate::canvas::CCanvas;

verus! {

/// A shell taken apart after the calls it served: the current document
/// and the creation requests collected on the way.
pub struct DestructedShell {
    pub current_canvas: Arc<CCanvas>,
    pub canvases: Vec<Arc<CCanvas>>,
}

/// The scoped context passed into lifecycle phase calls.
pub struct CShell {
    current_canvas: Arc<CCanvas>,
    canvas_creation: Vec<Arc<CCanvas>>,
}

impl CShell {
    /// The current document.
    pub closed spec fn canvas_spec(&self) -> CCanvas {
        *self.current_canvas
    }

    /// The documents whose creation has been requested, in request
    /// order.
    pub closed spec fn creations(&self) -> Seq<Arc<CCanvas>> {
        self.canvas_creation@
    }

    /// A shell around the given current document, with no creation
    /// requests yet.
    pub fn new(current_canvas: Arc<CCanvas>) -> (r: CShell)
        ensures
            r.canvas_spec() == *current_canvas,
            r.creations() == Seq::<Arc<CCanvas>>::empty(),
    {
        CShell { current_canvas, canvas_creation: Vec::new() }
    }

    /// Read access to the current document.
    pub fn canvas(&self) -> (r: &CCanvas)
        ensures
            *r == self.canvas_spec(),
    {
        &self.current_canvas
    }

    /// Requests that a further document be created once the current
    /// phase call has returned.
    pub fn request_canvas_creation(&mut self, canvas: Arc<CCanvas>)
        ensures
            final(self).canvas_spec() == old(self).canvas_spec(),
            final(self).creations() == old(self).creations().push(canvas),
    {
        self.canvas_creation.push(canvas);
    }

    /// Takes the shell apart, yielding the current document and the
    /// collected creation requests.
    pub fn destruct(self) -> (r: DestructedShell)
        ensures
            *r.current_canvas == self.canvas_spec(),
            r.canvases@ == self.creations(),
    {
        DestructedShell { current_canvas: self.current_canvas, canvases: self.canvas_creation }
    }
}

} // verus!
