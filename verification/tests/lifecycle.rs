//! The lifecycle driver: activation-kind semantics and the exact phase
//! call transcripts of the scenario walks.

use std::sync::Arc;
use cyancia_control::action::{CanvasActionCollection, ErasedCanvasAction};
use cyancia_control::canvas::CCanvas;
use cyancia_control::control::{CanvasPanAction, CanvasRotateAction, CanvasZoomAction};
use cyancia_control::driver::{LifecycleDriver, LifecyclePhase, PhaseCall};
use cyancia_control::id::{Action, Id};
use cyancia_control::keys::{KeyChord, KeyCode};
use cyancia_control::matcher::{ActionMatcher, ActivationKind, Binding};
use cyancia_control::mouse::{MouseButton, Point};
use cyancia_control::shell::CShell;
use cyancia_control::tools::{BrushTool, CanvasPanTool};

const SPACE: KeyCode = KeyCode(32);
const KEY_G: KeyCode = KeyCode(71);
const KEY_R: KeyCode = KeyCode(82);

fn pan_id() -> Id<Action> {
    Id::from_str("canvas_pan_tool")
}

fn toggle_id() -> Id<Action> {
    Id::from_str("canvas_zoom_action")
}

fn one_shot_id() -> Id<Action> {
    Id::from_str("canvas_rotate_action")
}

/// A driver whose manifest binds the pan tool to {Space} as Hold, the
/// zoom action to {G} as Toggle, and the rotate action to {R} as
/// OneShot.
fn driver() -> LifecycleDriver {
    let mut actions = CanvasActionCollection::new();
    assert!(actions.register(ErasedCanvasAction::Pan(CanvasPanAction)));
    assert!(actions.register(ErasedCanvasAction::Rotate(CanvasRotateAction)));
    assert!(actions.register(ErasedCanvasAction::Zoom(CanvasZoomAction)));
    assert!(actions.register(ErasedCanvasAction::PanTool(CanvasPanTool {
        action: CanvasPanAction,
    })));
    assert!(actions.register(ErasedCanvasAction::Brush(BrushTool)));
    let manifest = vec![
        Binding {
            id: pan_id(),
            chord: KeyChord::new(vec![SPACE]),
            kind: ActivationKind::Hold,
        },
        Binding {
            id: toggle_id(),
            chord: KeyChord::new(vec![KEY_G]),
            kind: ActivationKind::Toggle,
        },
        Binding {
            id: one_shot_id(),
            chord: KeyChord::new(vec![KEY_R]),
            kind: ActivationKind::OneShot,
        },
    ];
    LifecycleDriver::new(ActionMatcher::new(manifest), actions)
}

fn shell() -> CShell {
    CShell::new(Arc::new(CCanvas::new(1024, 768)))
}

fn call(id: Id<Action>, kind: ActivationKind, phase: LifecyclePhase) -> PhaseCall {
    PhaseCall { id, kind, phase, cursor: None }
}

fn call_at(id: Id<Action>, kind: ActivationKind, phase: LifecyclePhase, x: i32, y: i32) -> PhaseCall {
    PhaseCall { id, kind, phase, cursor: Some(Point { x, y }) }
}

/// Pan bound to {Space} as Hold: press Space makes it current; left
/// press begins the gesture once; a move updates it at that position;
/// releasing Space while the left button is still held ends the
/// gesture, then deactivates, and clears the slot; releasing the left
/// button afterwards does nothing more.
#[test]
fn hold_gesture_walkthrough() {
    let mut d = driver();
    let mut sh = shell();

    let calls = d.key_pressed(SPACE, &mut sh);
    assert_eq!(
        calls,
        vec![call(pan_id(), ActivationKind::Hold, LifecyclePhase::Prepare)]
    );
    assert_eq!(d.current, Some(0));

    let calls = d.mouse_pressed(MouseButton::Left, &mut sh);
    assert_eq!(
        calls,
        vec![call_at(pan_id(), ActivationKind::Hold, LifecyclePhase::Begin, 0, 0)]
    );
    assert!(d.engaged);

    let calls = d.mouse_moved(Point { x: 10, y: 10 }, &mut sh);
    assert_eq!(
        calls,
        vec![call_at(pan_id(), ActivationKind::Hold, LifecyclePhase::Update, 10, 10)]
    );

    let calls = d.key_released(SPACE, &mut sh);
    assert_eq!(
        calls,
        vec![
            call_at(pan_id(), ActivationKind::Hold, LifecyclePhase::End, 10, 10),
            call(pan_id(), ActivationKind::Hold, LifecyclePhase::Deactivate),
        ]
    );
    assert_eq!(d.current, None);
    assert!(!d.engaged);

    let calls = d.mouse_released(MouseButton::Left, &mut sh);
    assert_eq!(calls, vec![]);
}

/// The zoom action bound to {G} as Toggle: pressing G prepares it and
/// makes it current; releasing G leaves it current; pressing G again
/// deactivates it and clears the slot, with no second prepare.
#[test]
fn toggle_on_off_walkthrough() {
    let mut d = driver();
    let mut sh = shell();

    let calls = d.key_pressed(KEY_G, &mut sh);
    assert_eq!(
        calls,
        vec![call(toggle_id(), ActivationKind::Toggle, LifecyclePhase::Prepare)]
    );
    assert_eq!(d.current, Some(1));

    let calls = d.key_released(KEY_G, &mut sh);
    assert_eq!(calls, vec![]);
    assert_eq!(d.current, Some(1));

    let calls = d.key_pressed(KEY_G, &mut sh);
    assert_eq!(
        calls,
        vec![call(toggle_id(), ActivationKind::Toggle, LifecyclePhase::Deactivate)]
    );
    assert_eq!(d.current, None);
}

/// Toggle parity: matching the same shortcut twice in a row, with no
/// other action becoming current in between, ends with the action
/// deactivated.
#[test]
fn toggle_twice_ends_deactivated() {
    let mut d = driver();
    let mut sh = shell();
    d.key_pressed(KEY_G, &mut sh);
    d.key_released(KEY_G, &mut sh);
    let calls = d.key_pressed(KEY_G, &mut sh);
    assert_eq!(d.current, None);
    assert_eq!(
        calls.last().map(|c| c.phase),
        Some(LifecyclePhase::Deactivate)
    );
}

/// A one-shot action fires and is cleared within the same event:
/// prepare is immediately followed by deactivate, it never becomes
/// current, and no gesture phase is ever called for it.
#[test]
fn one_shot_fires_and_clears() {
    let mut d = driver();
    let mut sh = shell();

    let calls = d.key_pressed(KEY_R, &mut sh);
    assert_eq!(
        calls,
        vec![
            call(one_shot_id(), ActivationKind::OneShot, LifecyclePhase::Prepare),
            call(one_shot_id(), ActivationKind::OneShot, LifecyclePhase::Deactivate),
        ]
    );
    assert_eq!(d.current, None);

    // Mouse activity afterwards drives nothing: nothing is current.
    assert_eq!(d.mouse_pressed(MouseButton::Left, &mut sh), vec![]);
    assert_eq!(d.mouse_moved(Point { x: 3, y: 4 }, &mut sh), vec![]);
    assert_eq!(d.mouse_released(MouseButton::Left, &mut sh), vec![]);
}

/// Losing a hold binding's chord while its gesture is in progress ends
/// the gesture and deactivates, in that order, before anything else.
#[test]
fn hold_loss_mid_gesture_orders_end_before_deactivate() {
    let mut d = driver();
    let mut sh = shell();
    d.key_pressed(SPACE, &mut sh);
    d.mouse_pressed(MouseButton::Left, &mut sh);
    d.mouse_moved(Point { x: 5, y: 6 }, &mut sh);

    let calls = d.key_released(SPACE, &mut sh);
    assert_eq!(calls.len(), 2);
    assert_eq!(calls[0].phase, LifecyclePhase::End);
    assert_eq!(calls[0].id, pan_id());
    assert_eq!(calls[0].cursor, Some(Point { x: 5, y: 6 }));
    assert_eq!(calls[1].phase, LifecyclePhase::Deactivate);
    assert_eq!(calls[1].id, pan_id());
}

/// A hold binding displaced by another match is retired before the new
/// binding's prepare, in that order, within the same event.
#[test]
fn displacement_retires_old_before_new_prepare() {
    let mut d = driver();
    let mut sh = shell();
    d.key_pressed(KEY_G, &mut sh);
    assert_eq!(d.current, Some(1));

    // Space makes the hold binding the best match (the toggle's chord
    // is no longer the current match), displacing the toggle.
    d.key_released(KEY_G, &mut sh);
    assert_eq!(d.current, Some(1));
    let calls = d.key_pressed(SPACE, &mut sh);
    assert_eq!(
        calls,
        vec![
            call(toggle_id(), ActivationKind::Toggle, LifecyclePhase::Deactivate),
            call(pan_id(), ActivationKind::Hold, LifecyclePhase::Prepare),
        ]
    );
    assert_eq!(d.current, Some(0));
}

/// A manifest binding whose identifier has no registered action is a
/// routing miss: the event is dropped and nothing becomes current.
#[test]
fn unregistered_binding_is_benign_no_op() {
    let mut actions = CanvasActionCollection::new();
    assert!(actions.register(ErasedCanvasAction::Pan(CanvasPanAction)));
    let manifest = vec![Binding {
        id: Id::from_str("not_registered"),
        chord: KeyChord::new(vec![SPACE]),
        kind: ActivationKind::Hold,
    }];
    let mut d = LifecycleDriver::new(ActionMatcher::new(manifest), actions);
    let mut sh = shell();
    let calls = d.key_pressed(SPACE, &mut sh);
    assert_eq!(calls, vec![]);
    assert_eq!(d.current, None);
}

/// Gesture updates fire only while the left button is down and a
/// gesture has begun.
#[test]
fn no_update_without_begin() {
    let mut d = driver();
    let mut sh = shell();
    d.key_pressed(SPACE, &mut sh);
    // No left press yet: moves drive nothing.
    assert_eq!(d.mouse_moved(Point { x: 1, y: 1 }, &mut sh), vec![]);
    // The right button does not begin a gesture.
    assert_eq!(d.mouse_pressed(MouseButton::Right, &mut sh), vec![]);
    assert!(!d.engaged);
}

/// Releasing the left button ends the gesture but keeps the binding
/// current while its chord is still held.
#[test]
fn left_release_ends_but_keeps_current() {
    let mut d = driver();
    let mut sh = shell();
    d.key_pressed(SPACE, &mut sh);
    d.mouse_pressed(MouseButton::Left, &mut sh);
    let calls = d.mouse_released(MouseButton::Left, &mut sh);
    assert_eq!(calls.len(), 1);
    assert_eq!(calls[0].phase, LifecyclePhase::End);
    assert_eq!(d.current, Some(0));
    assert!(!d.engaged);

    // A second gesture can begin while the chord is still held.
    let calls = d.mouse_pressed(MouseButton::Left, &mut sh);
    assert_eq!(calls.len(), 1);
    assert_eq!(calls[0].phase, LifecyclePhase::Begin);
}

/// The document shell is untouched by the built-in tools: the current
/// canvas stays, and no creation is requested.
#[test]
fn shell_untouched_by_stub_tools() {
    let mut d = driver();
    let mut sh = shell();
    d.key_pressed(SPACE, &mut sh);
    d.mouse_pressed(MouseButton::Left, &mut sh);
    d.mouse_moved(Point { x: 2, y: 9 }, &mut sh);
    d.key_released(SPACE, &mut sh);
    let parts = sh.destruct();
    assert_eq!(parts.current_canvas.width, 1024);
    assert_eq!(parts.current_canvas.height, 768);
    assert_eq!(parts.canvases.len(), 0);
}
