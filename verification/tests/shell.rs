//! The phase-call context and the transient mouse state.

use std::sync::Arc;
use cyancia_control::canvas::CCanvas;
use cyancia_control::mouse::{MouseButton, MouseState, Point};
use cyancia_control::shell::CShell;

#[test]
fn shell_exposes_the_current_canvas() {
    let sh = CShell::new(Arc::new(CCanvas::new(800, 600)));
    assert_eq!(sh.canvas().width, 800);
    assert_eq!(sh.canvas().height, 600);
}

#[test]
fn creation_requests_are_collected_in_order() {
    let mut sh = CShell::new(Arc::new(CCanvas::new(800, 600)));
    sh.request_canvas_creation(Arc::new(CCanvas::new(1, 1)));
    sh.request_canvas_creation(Arc::new(CCanvas::new(2, 2)));
    let parts = sh.destruct();
    assert_eq!(parts.current_canvas.width, 800);
    assert_eq!(parts.canvases.len(), 2);
    assert_eq!(parts.canvases[0].width, 1);
    assert_eq!(parts.canvases[1].width, 2);
}

#[test]
fn destruct_of_fresh_shell_requests_nothing() {
    let sh = CShell::new(Arc::new(CCanvas::new(3, 4)));
    let parts = sh.destruct();
    assert_eq!(parts.canvases.len(), 0);
}

#[test]
fn mouse_tracks_buttons_and_position() {
    let mut m = MouseState::new();
    assert!(!m.has_pressed());
    assert_eq!(m.position(), Point { x: 0, y: 0 });

    m.press(MouseButton::Left);
    m.press(MouseButton::Middle);
    assert!(m.is_pressed(MouseButton::Left));
    assert!(m.is_pressed(MouseButton::Middle));
    assert!(!m.is_pressed(MouseButton::Right));
    assert!(m.has_pressed());

    m.move_to(Point { x: -4, y: 17 });
    assert_eq!(m.position(), Point { x: -4, y: 17 });

    m.release(MouseButton::Left);
    assert!(!m.is_pressed(MouseButton::Left));
    assert!(m.has_pressed());
    m.release(MouseButton::Middle);
    assert!(!m.has_pressed());
}

#[test]
fn undistinguished_buttons_are_ignored() {
    let mut m = MouseState::new();
    m.press(MouseButton::Other);
    assert!(!m.has_pressed());
    assert!(!m.is_pressed(MouseButton::Other));
    m.release(MouseButton::Other);
    assert!(!m.has_pressed());
}
