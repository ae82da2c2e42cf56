//! The window multiplexer: open/close choreography, message routing,
//! and the shutdown condition.

use std::sync::Arc;
use cyancia_control::action::CanvasActionCollection;
use cyancia_control::canvas::CCanvas;
use cyancia_control::driver::LifecycleDriver;
use cyancia_control::id::{Id, Window};
use cyancia_control::main_view::{MainView, MainViewMessage, PanelView, PanelViewMessage};
use cyancia_control::matcher::ActionMatcher;
use cyancia_control::mouse::Point;
use cyancia_control::windows::{
    ErasedWindowMessage, ErasedWindowView, RoutingFault, ViewMessage, WindowHandle, WindowManager,
    WindowManagerMessage, WindowRequest,
};

fn main_id() -> Id<Window> {
    Id::from_str("main")
}

fn inspector_id() -> Id<Window> {
    Id::from_str("inspector")
}

fn panel(id: Id<Window>) -> ErasedWindowView {
    ErasedWindowView::Panel(PanelView::new(id))
}

/// Two views registered under "main" and "inspector": opening both
/// yields two distinct handles; closing the inspector's window leaves
/// the process running; closing the main view's window afterwards
/// shuts it down.
#[test]
fn primary_close_is_the_sole_termination_condition() {
    let mut m = WindowManager::new(main_id());
    assert!(m.register(panel(main_id())));
    assert!(m.register(panel(inspector_id())));

    let h_main = m.open_view(main_id()).expect("main view opens");
    let h_inspector = m.open_view(inspector_id()).expect("inspector view opens");
    assert_ne!(h_main, h_inspector);

    let exit = m.window_closed(h_inspector);
    assert!(!exit);

    let exit = m.window_closed(h_main);
    assert!(exit);
}

#[test]
fn open_view_is_a_no_op_when_already_open() {
    let mut m = WindowManager::new(main_id());
    assert!(m.register(panel(main_id())));
    let first = m.open_view(main_id());
    assert!(first.is_some());
    assert_eq!(m.open_view(main_id()), None);
    // The view is still reachable under its one handle.
    assert_eq!(m.view_for_window(first.unwrap()), Some(main_id()));
}

#[test]
fn close_view_releases_the_mapping() {
    let mut m = WindowManager::new(main_id());
    assert!(m.register(panel(main_id())));
    let h = m.open_view(main_id()).unwrap();
    assert_eq!(m.close_view(main_id()), Some(h));
    assert_eq!(m.view_for_window(h), None);
    // Closing an unopened view is a no-op.
    assert_eq!(m.close_view(main_id()), None);
}

#[test]
fn window_closed_for_unknown_handle_reports_on_primary_only() {
    let mut m = WindowManager::new(main_id());
    assert!(m.register(panel(main_id())));
    m.open_view(main_id());
    // An unknown handle releases nothing; the primary view is still
    // open, so no shutdown.
    let exit = m.window_closed(WindowHandle(700));
    assert!(!exit);
}

#[test]
fn boot_opens_the_primary_view() {
    let (m, request) = WindowManager::boot(panel(main_id()));
    assert_eq!(request, Some(WindowHandle(0)));
    assert_eq!(m.view_for_window(WindowHandle(0)), Some(main_id()));
}

/// A routed panel message requesting an open is drained after the
/// delegated call: the multiplexer issues the operating-system open
/// request for a fresh handle.
#[test]
fn routed_request_opens_a_window() {
    let (mut m, _) = WindowManager::boot(panel(main_id()));
    assert!(m.register(panel(inspector_id())));

    let outcome = m
        .update(WindowManagerMessage::Window(ErasedWindowMessage {
            window: main_id(),
            message: ViewMessage::Panel(PanelViewMessage::RequestOpen(inspector_id())),
        }))
        .expect("routing succeeds");
    assert!(!outcome.exit);
    assert_eq!(outcome.requests, vec![WindowRequest::Open(WindowHandle(1))]);
    assert_eq!(m.view_for_window(WindowHandle(1)), Some(inspector_id()));
}

/// Opening an already-open view through the side channel is a no-op;
/// closing through it releases the mapping and issues the close.
#[test]
fn routed_requests_drain_in_order() {
    let (mut m, _) = WindowManager::boot(panel(main_id()));

    // The main view is already open: a repeated open request is a no-op.
    let outcome = m
        .update(WindowManagerMessage::Window(ErasedWindowMessage {
            window: main_id(),
            message: ViewMessage::Panel(PanelViewMessage::RequestOpen(main_id())),
        }))
        .expect("routing succeeds");
    assert_eq!(outcome.requests, vec![]);

    let outcome = m
        .update(WindowManagerMessage::Window(ErasedWindowMessage {
            window: main_id(),
            message: ViewMessage::Panel(PanelViewMessage::RequestClose(main_id())),
        }))
        .expect("routing succeeds");
    assert_eq!(outcome.requests, vec![WindowRequest::Close(WindowHandle(0))]);
    assert_eq!(m.view_for_window(WindowHandle(0)), None);
}

/// A message addressed to an unknown view is a benign no-op.
#[test]
fn message_to_unknown_view_is_dropped() {
    let (mut m, _) = WindowManager::boot(panel(main_id()));
    let outcome = m
        .update(WindowManagerMessage::Window(ErasedWindowMessage {
            window: inspector_id(),
            message: ViewMessage::Panel(PanelViewMessage::RequestOpen(inspector_id())),
        }))
        .expect("a routing miss is not a fault");
    assert!(!outcome.exit);
    assert_eq!(outcome.requests, vec![]);
}

/// A message that is not of the addressed view's own type is an
/// invariant violation and surfaces as a fault.
#[test]
fn mismatched_message_is_a_fault() {
    let (mut m, _) = WindowManager::boot(panel(main_id()));
    let r = m.update(WindowManagerMessage::Window(ErasedWindowMessage {
        window: main_id(),
        message: ViewMessage::Main(MainViewMessage::MouseMoved(Point { x: 1, y: 2 })),
    }));
    assert_eq!(r.unwrap_err(), RoutingFault::MessageTypeMismatch);
}

/// A window-closed notification through the multiplexer's update
/// reports shutdown exactly as the direct notification does.
#[test]
fn update_routes_window_closed() {
    let (mut m, request) = WindowManager::boot(panel(main_id()));
    let h = request.unwrap();
    let outcome = m
        .update(WindowManagerMessage::WindowClosed(h))
        .expect("window-closed is never a fault");
    assert!(outcome.exit);
    assert_eq!(outcome.requests, vec![]);
}

/// The primary canvas view routes input events into its lifecycle
/// driver even when reached through the multiplexer.
#[test]
fn main_view_routes_input_through_multiplexer() {
    let driver = LifecycleDriver::new(
        ActionMatcher::new(Vec::new()),
        CanvasActionCollection::new(),
    );
    let view = MainView::new(main_id(), driver, Arc::new(CCanvas::new(64, 64)));
    let (mut m, _) = WindowManager::boot(ErasedWindowView::Main(view));
    let outcome = m
        .update(WindowManagerMessage::Window(ErasedWindowMessage {
            window: main_id(),
            message: ViewMessage::Main(MainViewMessage::MouseMoved(Point { x: 7, y: 8 })),
        }))
        .expect("routing succeeds");
    assert!(!outcome.exit);
    assert_eq!(outcome.requests, vec![]);
}
