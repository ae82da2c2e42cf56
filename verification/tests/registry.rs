//! Identifiers and the dispatch registry: stable keys, registration,
//! idempotent lookup, and duplicate flagging.

use std::sync::Arc;
use cyancia_control::action::{CanvasActionCollection, ErasedCanvasAction};
use cyancia_control::canvas::CCanvas;
use cyancia_control::control::{CanvasPanAction, CanvasRotateAction};
use cyancia_control::id::{Action, Id, Window};
use cyancia_control::keys::KeyChord;
use cyancia_control::shell::CShell;

#[test]
fn same_name_same_key() {
    let a: Id<Action> = Id::from_str("brush");
    let b: Id<Action> = Id::from_str("brush");
    assert!(a.same_as(&b));
    assert_eq!(a.value(), b.value());
    assert_eq!(a, b);
}

#[test]
fn different_names_different_keys() {
    let a: Id<Action> = Id::from_str("brush");
    let b: Id<Action> = Id::from_str("canvas_pan_tool");
    assert!(!a.same_as(&b));
    assert_ne!(a.value(), b.value());
}

#[test]
fn key_is_stable_across_kinds() {
    // The tag type separates identifier kinds at compile time; the key
    // derivation itself depends only on the name.
    let a: Id<Action> = Id::from_str("main");
    let w: Id<Window> = Id::from_str("main");
    assert_eq!(a.value(), w.value());
}

#[test]
fn from_raw_round_trips() {
    let a: Id<Action> = Id::from_raw(42);
    assert_eq!(a.value(), 42);
}

#[test]
fn empty_name_has_the_offset_basis_key() {
    let a: Id<Action> = Id::from_str("");
    assert_eq!(a.value(), 0xcbf29ce484222325);
}

#[test]
fn lookup_returns_registered_entry() {
    let mut c = CanvasActionCollection::new();
    assert!(c.register(ErasedCanvasAction::Pan(CanvasPanAction)));
    let id = Id::from_str("canvas_pan_action");
    let entry = c.get(&id).expect("registered action must be found");
    assert!(entry.id().same_as(&id));
}

#[test]
fn lookup_is_idempotent_across_calls_and_dispatch() {
    let mut c = CanvasActionCollection::new();
    assert!(c.register(ErasedCanvasAction::Pan(CanvasPanAction)));
    assert!(c.register(ErasedCanvasAction::Rotate(CanvasRotateAction)));
    let id = Id::from_str("canvas_pan_action");
    let first = c.get(&id).expect("found").id().value();
    // Dispatching phases to one entry does not disturb lookups: every
    // later get yields the same logical entry.
    let mut sh = CShell::new(Arc::new(CCanvas::new(8, 8)));
    let chord = KeyChord::new(vec![]);
    c.prepare(&id, &chord, &mut sh);
    c.deactivate(&id, &chord, &mut sh);
    let second = c.get(&id).expect("still found").id().value();
    assert_eq!(first, second);
    let third = c.get(&id).expect("still found").id().value();
    assert_eq!(second, third);
}

#[test]
fn unknown_identifier_yields_none() {
    let mut c = CanvasActionCollection::new();
    assert!(c.register(ErasedCanvasAction::Pan(CanvasPanAction)));
    let ghost_town: Id<Action> = Id::from_str("nothing_here");
    assert!(c.get(&ghost_town).is_none());
    assert!(!c.contains(&ghost_town));
}

#[test]
fn duplicate_registration_is_flagged() {
    let mut c = CanvasActionCollection::new();
    assert!(c.register(ErasedCanvasAction::Pan(CanvasPanAction)));
    // Registering the same identifier again is a configuration error:
    // the later entry wins, and the collision is reported.
    assert!(!c.register(ErasedCanvasAction::Pan(CanvasPanAction)));
    let id = Id::from_str("canvas_pan_action");
    assert!(c.contains(&id));
}
