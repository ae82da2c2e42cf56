//! The document a tool works on.
//!
//! The pixel storage itself is an external collaborator; this layer
//! only needs a value standing for the current document, so a canvas
//! carries its logical dimensions.

use vstd::prelude::*;
use std::sync::Arc;

verus! {

/// The current document, as the control layer sees it.
#[derive(Clone, Copy, PartialEq, Eq, Structural, Debug)]
pub struct CCanvas {
    pub width: u32,
    pub height: u32,
}

impl CCanvas {
    /// A canvas of the given dimensions.
    pub fn new(width: u32, height: u32) -> (r: CCanvas)
        ensures
            r == (CCanvas { width, height }),
    {
        CCanvas { width, height }
    }
}

/// The widget that presents a canvas on screen. How it is laid out and
/// drawn belongs to the rendering front end; this layer only carries
/// which document the widget shows.
pub struct CanvasWidget {
    pub canvas: Arc<CCanvas>,
}

impl CanvasWidget {
    /// A widget presenting the given document.
    pub fn new(canvas: Arc<CCanvas>) -> (r: CanvasWidget)
        ensures
            r.canvas == canvas,
    {
        CanvasWidget { canvas }
    }
}

} // verus!
