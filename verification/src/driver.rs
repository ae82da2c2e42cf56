//! The lifecycle driver: orchestrates calls into the action registry
//! from input-matcher transitions and mouse state, enforcing the
//! five-phase contract and the per-activation-kind semantics.
//!
//! Every event handler returns the transcript of phase calls it made,
//! in order; the handler's contract pins that transcript, the control
//! state after the event, and how the registered entries and the shell
//! evolved, through the pure transition functions in this module.

use vstd::prelude::*;
use std::sync::Arc;
use crate::action::{CanvasActionCollection, StatefulCanvasAction};
use crate::canvas::CCanvas;
use crate::id::{Action, Id};
use crate::keys::KeyCode;
use crate::matcher::{best_match, lemma_best_match_range, ActionMatcher, ActivationKind, Binding};
use crate::mouse::{MouseButton, MouseButtons, MouseState, Point};
use crate::shell::CShell;

verus! {

/// One of the five lifecycle phases.
#[derive(Clone, Copy, PartialEq, Eq, Structural, Debug)]
pub enum LifecyclePhase {
    Prepare,
    Begin,
    Update,
    End,
    Deactivate,
}

/// One phase call the driver made: which action, under which
/// activation kind, which phase, and the cursor position handed to it
/// (for the gesture phases).
#[derive(Clone, Copy, PartialEq, Eq, Debug)]
pub struct PhaseCall {
    pub id: Id<Action>,
    pub kind: ActivationKind,
    pub phase: LifecyclePhase,
    pub cursor: Option<Point>,
}

/// The driver's control state: which binding is current (as an index
/// into the manifest) and whether a mouse gesture is in progress.
pub struct ControlState {
    pub current: Option<int>,
    pub engaged: bool,
}

/// The cursor position a phase call carries, defaulting to the origin
/// for the phases that carry none.
pub open spec fn call_cursor(c: PhaseCall) -> Point {
    match c.cursor {
        Some(p) => p,
        None => Point { x: 0, y: 0 },
    }
}

/// The phase call ending the gesture of binding `b` at `pos`.
pub open spec fn end_call(b: Binding, pos: Point) -> PhaseCall {
    PhaseCall { id: b.id, kind: b.kind, phase: LifecyclePhase::End, cursor: Some(pos) }
}

/// The phase call deactivating binding `b`.
pub open spec fn deactivate_call(b: Binding) -> PhaseCall {
    PhaseCall { id: b.id, kind: b.kind, phase: LifecyclePhase::Deactivate, cursor: None }
}

/// The phase call preparing binding `b`.
pub open spec fn prepare_call(b: Binding) -> PhaseCall {
    PhaseCall { id: b.id, kind: b.kind, phase: LifecyclePhase::Prepare, cursor: None }
}

/// The calls that retire the current binding `b`: its gesture is ended
/// first if one is in progress, and deactivation follows immediately.
pub open spec fn retire_calls(b: Binding, engaged: bool, pos: Point) -> Seq<PhaseCall> {
    if engaged {
        seq![end_call(b, pos), deactivate_call(b)]
    } else {
        seq![deactivate_call(b)]
    }
}

/// How the current binding reacts when the match changes: the control
/// state afterwards, the calls made, and whether a new match may be
/// acquired in the same event.
pub open spec fn release_step(
    manifest: Seq<Binding>,
    s: ControlState,
    new_best: Option<int>,
    pos: Point,
) -> (ControlState, Seq<PhaseCall>, bool) {
    match s.current {
        None => (s, Seq::empty(), true),
        Some(i) => {
            let b = manifest[i];
            if new_best == Some(i) {
                if b.kind is Toggle {
                    // Matching its own shortcut again toggles it off;
                    // no other binding is prepared in the same press.
                    (
                        ControlState { current: None, engaged: false },
                        retire_calls(b, s.engaged, pos),
                        false,
                    )
                } else {
                    (s, Seq::empty(), false)
                }
            } else if b.kind is Toggle && new_best is None {
                // A toggle survives losing its chord; only an explicit
                // re-match or a displacing match retires it.
                (s, Seq::empty(), false)
            } else {
                (ControlState { current: None, engaged: false }, retire_calls(b, s.engaged, pos), true)
            }
        },
    }
}

/// How a new match is acquired once no binding is current: a
/// registered one-shot binding fires and is cleared within the same
/// event; a registered toggle or hold binding becomes current; an
/// unregistered binding is a routing miss and a no-op.
pub open spec fn acquire_step(
    manifest: Seq<Binding>,
    registered: Set<u64>,
    new_best: Option<int>,
) -> (ControlState, Seq<PhaseCall>) {
    match new_best {
        None => (ControlState { current: None, engaged: false }, Seq::empty()),
        Some(j) => {
            let b = manifest[j];
            if !registered.contains(b.id.key()) {
                (ControlState { current: None, engaged: false }, Seq::empty())
            } else if b.kind is OneShot {
                (
                    ControlState { current: None, engaged: false },
                    seq![prepare_call(b), deactivate_call(b)],
                )
            } else {
                (ControlState { current: Some(j), engaged: false }, seq![prepare_call(b)])
            }
        },
    }
}

/// The driver's reaction to a key event: if the best match did not
/// change nothing happens; otherwise the current binding is released
/// as its kind demands and the new match is acquired.
pub open spec fn key_step(
    manifest: Seq<Binding>,
    registered: Set<u64>,
    s: ControlState,
    changed: bool,
    new_best: Option<int>,
    pos: Point,
) -> (ControlState, Seq<PhaseCall>) {
    if !changed {
        (s, Seq::empty())
    } else {
        let (s1, calls1, acquire) = release_step(manifest, s, new_best, pos);
        if acquire && s1.current is None {
            let (s2, calls2) = acquire_step(manifest, registered, new_best);
            (s2, calls1 + calls2)
        } else {
            (s1, calls1)
        }
    }
}

/// The driver's reaction to a mouse button press: the left button
/// begins a gesture for the current binding if none is in progress.
pub open spec fn mouse_press_step(
    manifest: Seq<Binding>,
    s: ControlState,
    button: MouseButton,
    pos: Point,
) -> (ControlState, Seq<PhaseCall>) {
    match s.current {
        Some(i) => {
            if button is Left && !s.engaged {
                let b = manifest[i];
                (
                    ControlState { current: s.current, engaged: true },
                    seq![
                        PhaseCall {
                            id: b.id,
                            kind: b.kind,
                            phase: LifecyclePhase::Begin,
                            cursor: Some(pos),
                        },
                    ],
                )
            } else {
                (s, Seq::empty())
            }
        },
        None => (s, Seq::empty()),
    }
}

/// The driver's reaction to a cursor move: the gesture in progress, if
/// any, is updated at the new position.
pub open spec fn mouse_move_step(manifest: Seq<Binding>, s: ControlState, pos: Point) -> (
    ControlState,
    Seq<PhaseCall>,
) {
    match s.current {
        Some(i) => {
            if s.engaged {
                let b = manifest[i];
                (
                    s,
                    seq![
                        PhaseCall {
                            id: b.id,
                            kind: b.kind,
                            phase: LifecyclePhase::Update,
                            cursor: Some(pos),
                        },
                    ],
                )
            } else {
                (s, Seq::empty())
            }
        },
        None => (s, Seq::empty()),
    }
}

/// The driver's reaction to a mouse button release: releasing the left
/// button ends the gesture in progress, if any; the binding stays
/// current.
pub open spec fn mouse_release_step(
    manifest: Seq<Binding>,
    s: ControlState,
    button: MouseButton,
    pos: Point,
) -> (ControlState, Seq<PhaseCall>) {
    match s.current {
        Some(i) => {
            if button is Left && s.engaged {
                let b = manifest[i];
                (ControlState { current: s.current, engaged: false }, seq![end_call(b, pos)])
            } else {
                (s, Seq::empty())
            }
        },
        None => (s, Seq::empty()),
    }
}

/// What one phase call does to its entry: the entry afterwards and the
/// creation requests made.
pub open spec fn apply_one(e: StatefulCanvasAction, c: PhaseCall, canvas: CCanvas) -> (
    StatefulCanvasAction,
    Seq<Arc<CCanvas>>,
) {
    match c.phase {
        LifecyclePhase::Prepare => e.after_prepare(canvas),
        LifecyclePhase::Begin => e.after_begin(call_cursor(c), canvas),
        LifecyclePhase::Update => e.after_update(call_cursor(c), canvas),
        LifecyclePhase::End => e.after_end(call_cursor(c), canvas),
        LifecyclePhase::Deactivate => e.after_deactivate(canvas),
    }
}

/// What a transcript of phase calls does to the registered entries:
/// each call, in order, evolves the entry it addresses; a call to an
/// unregistered identifier changes nothing. The creation requests of
/// all calls are concatenated in order.
pub open spec fn apply_calls(
    entries: Map<u64, StatefulCanvasAction>,
    canvas: CCanvas,
    calls: Seq<PhaseCall>,
) -> (Map<u64, StatefulCanvasAction>, Seq<Arc<CCanvas>>)
    decreases calls.len(),
{
    if calls.len() == 0 {
        (entries, Seq::empty())
    } else {
        let (m1, r1) = apply_calls(entries, canvas, calls.drop_last());
        let c = calls.last();
        let k = c.id.key();
        if m1.contains_key(k) {
            let (e2, r2) = apply_one(m1[k], c, canvas);
            (m1.insert(k, e2), r1 + r2)
        } else {
            (m1, r1)
        }
    }
}


/// The lifecycle driver: the input matcher, the action registry, the
/// transient mouse state, and the current-action slot.
pub struct LifecycleDriver {
    pub matcher: ActionMatcher,
    pub actions: CanvasActionCollection,
    pub mouse: MouseState,
    /// The current binding, as an index into the manifest; at most one
    /// binding is current, and never a one-shot one.
    pub current: Option<usize>,
    /// Whether a mouse gesture is in progress for the current binding.
    pub engaged: bool,
}

impl LifecycleDriver {
    /// The control state, with the current binding as a manifest index.
    pub open spec fn control(&self) -> ControlState {
        ControlState {
            current: match self.current {
                Some(i) => Some(i as int),
                None => None,
            },
            engaged: self.engaged,
        }
    }

    /// The keys of the registered actions.
    pub open spec fn registered(&self) -> Set<u64> {
        self.actions.contents().dom()
    }

    /// The driver's invariant: the matcher and registry are sound; a
    /// current binding is a real manifest entry, never one-shot, and
    /// registered; a hold binding is current only while it is the
    /// match; and a gesture is in progress only for a current binding
    /// while the left button is down.
    pub open spec fn wf(&self) -> bool {
        &&& self.matcher.wf()
        &&& self.actions.wf()
        &&& match self.current {
            Some(i) => {
                &&& (i as int) < self.matcher.manifest@.len()
                &&& !(self.matcher.manifest@[i as int].kind is OneShot)
                &&& self.registered().contains(self.matcher.manifest@[i as int].id.key())
                &&& (self.matcher.manifest@[i as int].kind is Hold
                    ==> self.matcher.current_spec() == Some(i as int))
            },
            None => true,
        }
        &&& (self.engaged ==> self.current is Some && self.mouse.pressed.left)
    }

    /// A driver over the given matcher and registry, with no key held,
    /// no button pressed and no current binding.
    pub fn new(matcher: ActionMatcher, actions: CanvasActionCollection) -> (r: LifecycleDriver)
        requires
            matcher.wf(),
            actions.wf(),
        ensures
            r.wf(),
            r.matcher == matcher,
            r.actions == actions,
            r.mouse == (MouseState {
                pressed: MouseButtons { left: false, right: false, middle: false },
                position: Point { x: 0, y: 0 },
            }),
            r.current is None,
            !r.engaged,
    {
        LifecycleDriver { matcher, actions, mouse: MouseState::new(), current: None, engaged: false }
    }

    /// Handles a mouse button press: records it, and the left button
    /// begins a gesture for the current binding. Returns the phase
    /// calls made.
    pub fn mouse_pressed(&mut self, button: MouseButton, shell: &mut CShell) -> (calls: Vec<
        PhaseCall,
    >)
        requires
            old(self).wf(),
        ensures
            final(self).wf(),
            final(self).matcher == old(self).matcher,
            final(self).mouse.pressed == old(self).mouse.pressed.spec_insert(button),
            final(self).mouse.position == old(self).mouse.position,
            ({
                let (c2, cs) = mouse_press_step(
                    old(self).matcher.manifest@,
                    old(self).control(),
                    button,
                    old(self).mouse.position,
                );
                &&& final(self).control() == c2
                &&& calls@ == cs
            }),
            ({
                let (m2, reqs) = apply_calls(
                    old(self).actions.contents(),
                    old(shell).canvas_spec(),
                    calls@,
                );
                &&& final(self).actions.contents() == m2
                &&& final(shell).canvas_spec() == old(shell).canvas_spec()
                &&& final(shell).creations() == old(shell).creations() + reqs
            }),
    {
        self.mouse.press(button);
        let mut calls: Vec<PhaseCall> = Vec::new();
        let begin_now = match (button, self.current, self.engaged) {
            (MouseButton::Left, Some(_), false) => true,
            _ => false,
        };
        if begin_now {
            let ci = self.current.unwrap();
            let b_id = self.matcher.manifest[ci].id;
            let b_kind = self.matcher.manifest[ci].kind;
            let pos = self.mouse.position();
            self.actions.begin(&b_id, &self.matcher.manifest[ci].chord, pos, shell);
            calls.push(
                PhaseCall { id: b_id, kind: b_kind, phase: LifecyclePhase::Begin, cursor: Some(pos) },
            );
            self.engaged = true;
            proof {
                let c = PhaseCall {
                    id: b_id,
                    kind: b_kind,
                    phase: LifecyclePhase::Begin,
                    cursor: Some(pos),
                };
                assert(calls@ =~= seq![c]);
                lemma_apply_one_call(old(self).actions.contents(), old(shell).canvas_spec(), c);
            }
        } else {
            proof {
                assert(calls@ =~= Seq::<PhaseCall>::empty());
                assert(old(shell).creations() + Seq::<Arc<CCanvas>>::empty() =~= old(
                    shell,
                ).creations());
            }
        }
        calls
    }

    /// Handles a cursor move: records the position, and updates the
    /// gesture in progress at it. Returns the phase calls made.
    pub fn mouse_moved(&mut self, position: Point, shell: &mut CShell) -> (calls: Vec<PhaseCall>)
        requires
            old(self).wf(),
        ensures
            final(self).wf(),
            final(self).matcher == old(self).matcher,
            final(self).mouse.pressed == old(self).mouse.pressed,
            final(self).mouse.position == position,
            ({
                let (c2, cs) = mouse_move_step(
                    old(self).matcher.manifest@,
                    old(self).control(),
                    position,
                );
                &&& final(self).control() == c2
                &&& calls@ == cs
            }),
            ({
                let (m2, reqs) = apply_calls(
                    old(self).actions.contents(),
                    old(shell).canvas_spec(),
                    calls@,
                );
                &&& final(self).actions.contents() == m2
                &&& final(shell).canvas_spec() == old(shell).canvas_spec()
                &&& final(shell).creations() == old(shell).creations() + reqs
            }),
    {
        self.mouse.move_to(position);
        let mut calls: Vec<PhaseCall> = Vec::new();
        if self.engaged {
            let ci = self.current.unwrap();
            let b_id = self.matcher.manifest[ci].id;
            let b_kind = self.matcher.manifest[ci].kind;
            self.actions.update(&b_id, &self.matcher.manifest[ci].chord, position, shell);
            calls.push(
                PhaseCall {
                    id: b_id,
                    kind: b_kind,
                    phase: LifecyclePhase::Update,
                    cursor: Some(position),
                },
            );
            proof {
                let c = PhaseCall {
                    id: b_id,
                    kind: b_kind,
                    phase: LifecyclePhase::Update,
                    cursor: Some(position),
                };
                assert(calls@ =~= seq![c]);
                lemma_apply_one_call(old(self).actions.contents(), old(shell).canvas_spec(), c);
            }
        } else {
            proof {
                assert(calls@ =~= Seq::<PhaseCall>::empty());
                assert(old(shell).creations() + Seq::<Arc<CCanvas>>::empty() =~= old(
                    shell,
                ).creations());
            }
        }
        calls
    }

    /// Handles a mouse button release: records it, and releasing the
    /// left button ends the gesture in progress; the binding stays
    /// current. Returns the phase calls made.
    pub fn mouse_released(&mut self, button: MouseButton, shell: &mut CShell) -> (calls: Vec<
        PhaseCall,
    >)
        requires
            old(self).wf(),
        ensures
            final(self).wf(),
            final(self).matcher == old(self).matcher,
            final(self).mouse.pressed == old(self).mouse.pressed.spec_remove(button),
            final(self).mouse.position == old(self).mouse.position,
            ({
                let (c2, cs) = mouse_release_step(
                    old(self).matcher.manifest@,
                    old(self).control(),
                    button,
                    old(self).mouse.position,
                );
                &&& final(self).control() == c2
                &&& calls@ == cs
            }),
            ({
                let (m2, reqs) = apply_calls(
                    old(self).actions.contents(),
                    old(shell).canvas_spec(),
                    calls@,
                );
                &&& final(self).actions.contents() == m2
                &&& final(shell).canvas_spec() == old(shell).canvas_spec()
                &&& final(shell).creations() == old(shell).creations() + reqs
            }),
    {
        self.mouse.release(button);
        let mut calls: Vec<PhaseCall> = Vec::new();
        let end_now = match button {
            MouseButton::Left => self.engaged,
            _ => false,
        };
        if end_now {
            let ci = self.current.unwrap();
            let b_id = self.matcher.manifest[ci].id;
            let b_kind = self.matcher.manifest[ci].kind;
            let pos = self.mouse.position();
            self.actions.end(&b_id, &self.matcher.manifest[ci].chord, pos, shell);
            calls.push(
                PhaseCall { id: b_id, kind: b_kind, phase: LifecyclePhase::End, cursor: Some(pos) },
            );
            self.engaged = false;
            proof {
                let c = PhaseCall {
                    id: b_id,
                    kind: b_kind,
                    phase: LifecyclePhase::End,
                    cursor: Some(pos),
                };
                assert(calls@ =~= seq![c]);
                lemma_apply_one_call(old(self).actions.contents(), old(shell).canvas_spec(), c);
            }
        } else {
            proof {
                assert(calls@ =~= Seq::<PhaseCall>::empty());
                assert(old(shell).creations() + Seq::<Arc<CCanvas>>::empty() =~= old(
                    shell,
                ).creations());
            }
        }
        calls
    }
}

/// Applying a one-call transcript evolves exactly the addressed entry.
pub proof fn lemma_apply_one_call(
    entries: Map<u64, StatefulCanvasAction>,
    canvas: CCanvas,
    c: PhaseCall,
)
    requires
        entries.contains_key(c.id.key()),
    ensures
        ({
            let (e2, r2) = apply_one(entries[c.id.key()], c, canvas);
            apply_calls(entries, canvas, seq![c]) == (entries.insert(c.id.key(), e2), r2)
        }),
{
    assert(seq![c].drop_last() =~= Seq::<PhaseCall>::empty());
    let (e2, r2) = apply_one(entries[c.id.key()], c, canvas);
    assert(apply_calls(entries, canvas, Seq::<PhaseCall>::empty()) == (
        entries,
        Seq::<Arc<CCanvas>>::empty(),
    ));
    assert(Seq::<Arc<CCanvas>>::empty() + r2 =~= r2);
}


/// Applying a transcript never adds or removes entries: only states
/// evolve.
pub proof fn lemma_apply_calls_dom(
    entries: Map<u64, StatefulCanvasAction>,
    canvas: CCanvas,
    calls: Seq<PhaseCall>,
)
    ensures
        apply_calls(entries, canvas, calls).0.dom() == entries.dom(),
    decreases calls.len(),
{
    if calls.len() > 0 {
        lemma_apply_calls_dom(entries, canvas, calls.drop_last());
        let (m1, r1) = apply_calls(entries, canvas, calls.drop_last());
        let c = calls.last();
        let k = c.id.key();
        if m1.contains_key(k) {
            assert(m1.insert(k, apply_one(m1[k], c, canvas).0).dom() =~= m1.dom());
        }
    }
}

/// Applying a concatenated transcript is applying its parts in turn,
/// with the creation requests concatenated.
pub proof fn lemma_apply_calls_concat(
    entries: Map<u64, StatefulCanvasAction>,
    canvas: CCanvas,
    a: Seq<PhaseCall>,
    b: Seq<PhaseCall>,
)
    ensures
        ({
            let (m1, r1) = apply_calls(entries, canvas, a);
            let (m2, r2) = apply_calls(m1, canvas, b);
            apply_calls(entries, canvas, a + b) == (m2, r1 + r2)
        }),
    decreases b.len(),
{
    let (m1, r1) = apply_calls(entries, canvas, a);
    if b.len() == 0 {
        assert(a + b =~= a);
        assert(r1 + Seq::<Arc<CCanvas>>::empty() =~= r1);
    } else {
        lemma_apply_calls_concat(entries, canvas, a, b.drop_last());
        assert((a + b).drop_last() =~= a + b.drop_last());
        assert((a + b).last() == b.last());
        let (m2, r2) = apply_calls(m1, canvas, b.drop_last());
        let c = b.last();
        let k = c.id.key();
        if m2.contains_key(k) {
            let (e2, r3) = apply_one(m2[k], c, canvas);
            assert(r1 + (r2 + r3) =~= (r1 + r2) + r3);
        }
    }
}

impl LifecycleDriver {
    /// Retires the current binding: ends its gesture first if one is
    /// in progress, then deactivates it, in that order, and clears the
    /// current-action slot.
    fn retire_current(&mut self, shell: &mut CShell) -> (calls: Vec<PhaseCall>)
        requires
            old(self).matcher.wf(),
            old(self).actions.wf(),
            match old(self).current {
                Some(i) => {
                    &&& (i as int) < old(self).matcher.manifest@.len()
                    &&& old(self).registered().contains(
                        old(self).matcher.manifest@[i as int].id.key(),
                    )
                },
                None => false,
            },
        ensures
            final(self).matcher == old(self).matcher,
            final(self).mouse == old(self).mouse,
            final(self).actions.wf(),
            final(self).current is None,
            !final(self).engaged,
            calls@ == (match old(self).current {
                Some(i) => retire_calls(
                    old(self).matcher.manifest@[i as int],
                    old(self).engaged,
                    old(self).mouse.position,
                ),
                None => Seq::<PhaseCall>::empty(),
            }),
            ({
                let (m2, reqs) = apply_calls(
                    old(self).actions.contents(),
                    old(shell).canvas_spec(),
                    calls@,
                );
                &&& final(self).actions.contents() == m2
                &&& final(shell).canvas_spec() == old(shell).canvas_spec()
                &&& final(shell).creations() == old(shell).creations() + reqs
            }),
    {
        let ci = self.current.unwrap();
        let b_id = self.matcher.manifest[ci].id;
        let b_kind = self.matcher.manifest[ci].kind;
        let ghost b = self.matcher.manifest@[ci as int];
        let mut calls: Vec<PhaseCall> = Vec::new();
        if self.engaged {
            let pos = self.mouse.position();
            self.actions.end(&b_id, &self.matcher.manifest[ci].chord, pos, shell);
            calls.push(
                PhaseCall { id: b_id, kind: b_kind, phase: LifecyclePhase::End, cursor: Some(pos) },
            );
            self.engaged = false;
            let ghost m1 = self.actions.contents();
            self.actions.deactivate(&b_id, &self.matcher.manifest[ci].chord, shell);
            calls.push(
                PhaseCall { id: b_id, kind: b_kind, phase: LifecyclePhase::Deactivate, cursor: None },
            );
            self.current = None;
            proof {
                let cv = old(shell).canvas_spec();
                let m0 = old(self).actions.contents();
                let e = end_call(b, old(self).mouse.position);
                let d = deactivate_call(b);
                assert(calls@ =~= seq![e, d]);
                assert(seq![e, d].drop_last() =~= seq![e]);
                lemma_apply_one_call(m0, cv, e);
                let (me, re) = apply_one(m0[e.id.key()], e, cv);
                assert(m1 == m0.insert(e.id.key(), me));
                assert(m1.contains_key(d.id.key()));
                let (md, rd) = apply_one(m1[d.id.key()], d, cv);
                assert(apply_calls(m0, cv, seq![e, d]) == (m1.insert(d.id.key(), md), re + rd));
                assert(self.actions.contents() == m1.insert(d.id.key(), md));
                assert(shell.creations() =~= old(shell).creations() + (re + rd));
            }
        } else {
            let ghost m1 = self.actions.contents();
            self.actions.deactivate(&b_id, &self.matcher.manifest[ci].chord, shell);
            calls.push(
                PhaseCall { id: b_id, kind: b_kind, phase: LifecyclePhase::Deactivate, cursor: None },
            );
            self.current = None;
            proof {
                let cv = old(shell).canvas_spec();
                let m0 = old(self).actions.contents();
                let d = deactivate_call(b);
                assert(calls@ =~= seq![d]);
                lemma_apply_one_call(m0, cv, d);
            }
        }
        calls
    }

    /// Acquires the new match, if any: a registered one-shot binding
    /// fires and is cleared within the same event; a registered toggle
    /// or hold binding becomes current; an unregistered one is a
    /// routing miss and a no-op.
    fn acquire_match(&mut self, new_best: Option<usize>, shell: &mut CShell) -> (calls: Vec<
        PhaseCall,
    >)
        requires
            old(self).matcher.wf(),
            old(self).actions.wf(),
            old(self).current is None,
            !old(self).engaged,
            match new_best {
                Some(j) => old(self).matcher.current_spec() == Some(j as int),
                None => old(self).matcher.current_spec() is None,
            },
        ensures
            final(self).wf(),
            final(self).matcher == old(self).matcher,
            final(self).mouse == old(self).mouse,
            ({
                let (c2, cs) = acquire_step(
                    old(self).matcher.manifest@,
                    old(self).registered(),
                    old(self).matcher.current_spec(),
                );
                &&& final(self).control() == c2
                &&& calls@ == cs
            }),
            ({
                let (m2, reqs) = apply_calls(
                    old(self).actions.contents(),
                    old(shell).canvas_spec(),
                    calls@,
                );
                &&& final(self).actions.contents() == m2
                &&& final(shell).canvas_spec() == old(shell).canvas_spec()
                &&& final(shell).creations() == old(shell).creations() + reqs
            }),
    {
        let mut calls: Vec<PhaseCall> = Vec::new();
        match new_best {
            None => {
                proof {
                    assert(calls@ =~= Seq::<PhaseCall>::empty());
                    assert(old(shell).creations() + Seq::<Arc<CCanvas>>::empty() =~= old(
                        shell,
                    ).creations());
                }
            },
            Some(j) => {
                proof {
                    lemma_best_match_range(old(self).matcher.manifest@, old(self).matcher.held.set());
                }
                let b_id = self.matcher.manifest[j].id;
                let b_kind = self.matcher.manifest[j].kind;
                let ghost b = self.matcher.manifest@[j as int];
                if self.actions.contains(&b_id) {
                    self.actions.prepare(&b_id, &self.matcher.manifest[j].chord, shell);
                    calls.push(
                        PhaseCall {
                            id: b_id,
                            kind: b_kind,
                            phase: LifecyclePhase::Prepare,
                            cursor: None,
                        },
                    );
                    let one_shot = match b_kind {
                        ActivationKind::OneShot => true,
                        _ => false,
                    };
                    if one_shot {
                        let ghost m1 = self.actions.contents();
                        self.actions.deactivate(&b_id, &self.matcher.manifest[j].chord, shell);
                        calls.push(
                            PhaseCall {
                                id: b_id,
                                kind: b_kind,
                                phase: LifecyclePhase::Deactivate,
                                cursor: None,
                            },
                        );
                        proof {
                            let cv = old(shell).canvas_spec();
                            let m0 = old(self).actions.contents();
                            let p = prepare_call(b);
                            let d = deactivate_call(b);
                            assert(calls@ =~= seq![p, d]);
                            assert(seq![p, d].drop_last() =~= seq![p]);
                            lemma_apply_one_call(m0, cv, p);
                            let (mp, rp) = apply_one(m0[p.id.key()], p, cv);
                            assert(m1 == m0.insert(p.id.key(), mp));
                            assert(m1.contains_key(d.id.key()));
                            let (md, rd) = apply_one(m1[d.id.key()], d, cv);
                            assert(apply_calls(m0, cv, seq![p, d]) == (
                                m1.insert(d.id.key(), md),
                                rp + rd,
                            ));
                            assert(shell.creations() =~= old(shell).creations() + (rp + rd));
                        }
                    } else {
                        self.current = Some(j);
                        proof {
                            let cv = old(shell).canvas_spec();
                            let m0 = old(self).actions.contents();
                            let p = prepare_call(b);
                            assert(calls@ =~= seq![p]);
                            lemma_apply_one_call(m0, cv, p);
                        }
                    }
                } else {
                    proof {
                        assert(calls@ =~= Seq::<PhaseCall>::empty());
                        assert(old(shell).creations() + Seq::<Arc<CCanvas>>::empty() =~= old(
                            shell,
                        ).creations());
                    }
                }
            },
        }
        calls
    }
}


impl LifecycleDriver {
    /// Resolves a possible match change after the matcher has absorbed
    /// a key event: releases the current binding as its kind demands
    /// and acquires the new match. `prev_best` is the match before the
    /// event.
    fn resolve(
        &mut self,
        Ghost(prev_best): Ghost<Option<int>>,
        changed: bool,
        shell: &mut CShell,
    ) -> (calls: Vec<PhaseCall>)
        requires
            old(self).matcher.wf(),
            old(self).actions.wf(),
            match old(self).current {
                Some(i) => {
                    &&& (i as int) < old(self).matcher.manifest@.len()
                    &&& !(old(self).matcher.manifest@[i as int].kind is OneShot)
                    &&& old(self).registered().contains(
                        old(self).matcher.manifest@[i as int].id.key(),
                    )
                    &&& (old(self).matcher.manifest@[i as int].kind is Hold ==> prev_best == Some(
                        i as int,
                    ))
                },
                None => true,
            },
            old(self).engaged ==> old(self).current is Some && old(self).mouse.pressed.left,
            changed == (old(self).matcher.current_spec() != prev_best),
        ensures
            final(self).wf(),
            final(self).matcher == old(self).matcher,
            final(self).mouse == old(self).mouse,
            ({
                let (c2, cs) = key_step(
                    old(self).matcher.manifest@,
                    old(self).registered(),
                    old(self).control(),
                    changed,
                    old(self).matcher.current_spec(),
                    old(self).mouse.position,
                );
                &&& final(self).control() == c2
                &&& calls@ == cs
            }),
            ({
                let (m2, reqs) = apply_calls(
                    old(self).actions.contents(),
                    old(shell).canvas_spec(),
                    calls@,
                );
                &&& final(self).actions.contents() == m2
                &&& final(shell).canvas_spec() == old(shell).canvas_spec()
                &&& final(shell).creations() == old(shell).creations() + reqs
            }),
    {
        let mut calls: Vec<PhaseCall> = Vec::new();
        if !changed {
            proof {
                assert(calls@ =~= Seq::<PhaseCall>::empty());
                assert(old(shell).creations() + Seq::<Arc<CCanvas>>::empty() =~= old(
                    shell,
                ).creations());
            }
            return calls;
        }
        let new_best = self.matcher.current_match();
        match self.current {
            Some(ci) => {
                let b_kind = self.matcher.manifest[ci].kind;
                let rematch = match new_best {
                    Some(j) => j == ci,
                    None => false,
                };
                if rematch {
                    let toggle = match b_kind {
                        ActivationKind::Toggle => true,
                        _ => false,
                    };
                    if toggle {
                        let retired = self.retire_current(shell);
                        return retired;
                    } else {
                        proof {
                            assert(calls@ =~= Seq::<PhaseCall>::empty());
                            assert(old(shell).creations() + Seq::<Arc<CCanvas>>::empty() =~= old(
                                shell,
                            ).creations());
                        }
                        return calls;
                    }
                }
                let persists = match (b_kind, new_best) {
                    (ActivationKind::Toggle, None) => true,
                    _ => false,
                };
                if persists {
                    proof {
                        assert(calls@ =~= Seq::<PhaseCall>::empty());
                        assert(old(shell).creations() + Seq::<Arc<CCanvas>>::empty() =~= old(
                            shell,
                        ).creations());
                    }
                    return calls;
                }
                let retired = self.retire_current(shell);
                calls = retired;
            },
            None => {},
        }
        let ghost m_mid = self.actions.contents();
        let ghost calls1 = calls@;
        proof {
            lemma_apply_calls_dom(
                old(self).actions.contents(),
                old(shell).canvas_spec(),
                calls1,
            );
        }
        let mut more = self.acquire_match(new_best, shell);
        let ghost more0 = more@;
        calls.append(&mut more);
        proof {
            let manifest = old(self).matcher.manifest@;
            let m0 = old(self).actions.contents();
            let cv = old(shell).canvas_spec();
            let nb = old(self).matcher.current_spec();
            let (s1, cs1, acq) = release_step(
                manifest,
                old(self).control(),
                nb,
                old(self).mouse.position,
            );
            assert(calls1 == cs1);
            let (s2, cs2) = acquire_step(manifest, old(self).registered(), nb);
            assert(more0 == cs2);
            assert(calls@ =~= cs1 + cs2);
            lemma_apply_calls_concat(m0, cv, calls1, calls@.skip(calls1.len() as int));
            assert(calls@.skip(calls1.len() as int) =~= cs2);
            let (ma, ra) = apply_calls(m0, cv, calls1);
            assert(ma == m_mid);
            let (mb, rb) = apply_calls(m_mid, cv, cs2);
            assert(shell.creations() =~= old(shell).creations() + (ra + rb));
        }
        calls
    }

    /// Handles a key press (repeats are filtered out by the caller):
    /// the held set grows by the key, the match is re-resolved, and the
    /// current binding is released and the new match acquired as the
    /// activation kinds demand. Returns the phase calls made.
    pub fn key_pressed(&mut self, key: KeyCode, shell: &mut CShell) -> (calls: Vec<PhaseCall>)
        requires
            old(self).wf(),
        ensures
            final(self).wf(),
            final(self).matcher.manifest@ == old(self).matcher.manifest@,
            final(self).matcher.held.set() == old(self).matcher.held.set().insert(key),
            final(self).mouse == old(self).mouse,
            ({
                let manifest = old(self).matcher.manifest@;
                let nb = best_match(manifest, old(self).matcher.held.set().insert(key));
                let ch = nb != best_match(manifest, old(self).matcher.held.set());
                let (c2, cs) = key_step(
                    manifest,
                    old(self).registered(),
                    old(self).control(),
                    ch,
                    nb,
                    old(self).mouse.position,
                );
                &&& final(self).control() == c2
                &&& calls@ == cs
            }),
            ({
                let (m2, reqs) = apply_calls(
                    old(self).actions.contents(),
                    old(shell).canvas_spec(),
                    calls@,
                );
                &&& final(self).actions.contents() == m2
                &&& final(shell).canvas_spec() == old(shell).canvas_spec()
                &&& final(shell).creations() == old(shell).creations() + reqs
            }),
    {
        let ghost prev = self.matcher.current_spec();
        let changed = self.matcher.key_pressed(key);
        self.resolve(Ghost(prev), changed, shell)
    }

    /// Handles a key release: the key leaves the held set, the match is
    /// re-resolved using the post-removal held set, and the current
    /// binding is released and the new match acquired as the activation
    /// kinds demand. Returns the phase calls made.
    pub fn key_released(&mut self, key: KeyCode, shell: &mut CShell) -> (calls: Vec<PhaseCall>)
        requires
            old(self).wf(),
        ensures
            final(self).wf(),
            final(self).matcher.manifest@ == old(self).matcher.manifest@,
            final(self).matcher.held.set() == old(self).matcher.held.set().remove(key),
            final(self).mouse == old(self).mouse,
            ({
                let manifest = old(self).matcher.manifest@;
                let nb = best_match(manifest, old(self).matcher.held.set().remove(key));
                let ch = nb != best_match(manifest, old(self).matcher.held.set());
                let (c2, cs) = key_step(
                    manifest,
                    old(self).registered(),
                    old(self).control(),
                    ch,
                    nb,
                    old(self).mouse.position,
                );
                &&& final(self).control() == c2
                &&& calls@ == cs
            }),
            ({
                let (m2, reqs) = apply_calls(
                    old(self).actions.contents(),
                    old(shell).canvas_spec(),
                    calls@,
                );
                &&& final(self).actions.contents() == m2
                &&& final(shell).canvas_spec() == old(shell).canvas_spec()
                &&& final(shell).creations() == old(shell).creations() + reqs
            }),
    {
        let ghost prev = self.matcher.current_spec();
        let changed = self.matcher.key_released(key);
        self.resolve(Ghost(prev), changed, shell)
    }
}



/// Entries a transcript never addresses are untouched: dispatching
/// phases to one action leaves every other registered entry exactly as
/// it was, so lookups of other identifiers keep returning the same
/// logical entry.
pub proof fn lemma_apply_calls_frame(
    entries: Map<u64, StatefulCanvasAction>,
    canvas: CCanvas,
    calls: Seq<PhaseCall>,
    k: u64,
)
    requires
        forall|i: int| 0 <= i < calls.len() ==> (#[trigger] calls[i]).id.key() != k,
        entries.contains_key(k),
    ensures
        apply_calls(entries, canvas, calls).0.contains_key(k),
        apply_calls(entries, canvas, calls).0[k] == entries[k],
    decreases calls.len(),
{
    if calls.len() > 0 {
        assert(calls.drop_last() =~= calls.take(calls.len() - 1));
        assert forall|i: int| 0 <= i < calls.drop_last().len()
            implies (#[trigger] calls.drop_last()[i]).id.key() != k by {
            assert(calls.drop_last()[i] == calls[i]);
        }
        lemma_apply_calls_frame(entries, canvas, calls.drop_last(), k);
        assert(calls.last() == calls[calls.len() - 1]);
    }
}

/// Whether a phase is one of the mouse-gesture phases.
pub open spec fn gesture_phase(p: LifecyclePhase) -> bool {
    p is Begin || p is Update || p is End
}

/// One-shot bindings never take part in gestures and are cleared
/// within the event that fired them: in the transcript of any key
/// event, no gesture phase is ever called under the one-shot kind; a
/// prepare of a one-shot binding is immediately followed by its
/// deactivation; and a one-shot binding never ends up current.
#[verifier::rlimit(60)]
pub proof fn lemma_one_shot_fires_once(
    manifest: Seq<Binding>,
    registered: Set<u64>,
    s: ControlState,
    changed: bool,
    new_best: Option<int>,
    pos: Point,
)
    requires
        match s.current {
            Some(i) => 0 <= i < manifest.len() && !(manifest[i].kind is OneShot),
            None => true,
        },
        match new_best {
            Some(j) => 0 <= j < manifest.len(),
            None => true,
        },
    ensures
        ({
            let (c2, cs) = key_step(manifest, registered, s, changed, new_best, pos);
            &&& forall|k: int|
                0 <= k < cs.len() && gesture_phase(#[trigger] cs[k].phase) ==> !(cs[k].kind
                    is OneShot)
            &&& forall|k: int|
                0 <= k < cs.len() && (#[trigger] cs[k].phase) is Prepare && cs[k].kind is OneShot
                    ==> k + 1 < cs.len() && cs[k + 1].phase is Deactivate && cs[k + 1].id == cs[
                    k
                ].id
            &&& match c2.current {
                Some(j) => 0 <= j < manifest.len() && !(manifest[j].kind is OneShot),
                None => true,
            }
        }),
{
    let (c2, cs) = key_step(manifest, registered, s, changed, new_best, pos);
    if changed {
        let (s1, cs1, acq) = release_step(manifest, s, new_best, pos);
        assert forall|k: int|
            0 <= k < cs1.len() && gesture_phase(#[trigger] cs1[k].phase) implies !(cs1[k].kind
            is OneShot) by {}
        assert(forall|k: int| 0 <= k < cs1.len() ==> !((#[trigger] cs1[k].phase) is Prepare));
        if acq && s1.current is None {
            let (s2, cs2) = acquire_step(manifest, registered, new_best);
            assert(cs == cs1 + cs2);
            assert forall|k: int|
                0 <= k < cs.len() && gesture_phase(#[trigger] cs[k].phase) implies !(cs[k].kind
                is OneShot) by {
                if k < cs1.len() {
                    assert(cs[k] == cs1[k]);
                } else {
                    assert(cs[k] == cs2[k - cs1.len()]);
                }
            }
            assert forall|k: int|
                0 <= k < cs.len() && (#[trigger] cs[k].phase) is Prepare && cs[k].kind is OneShot
                implies k + 1 < cs.len() && cs[k + 1].phase is Deactivate && cs[k + 1].id == cs[
                k
            ].id by {
                if k < cs1.len() {
                    assert(cs[k] == cs1[k]);
                    assert(!(cs[k].phase is Prepare));
                } else {
                    assert(cs[k] == cs2[k - cs1.len()]);
                    assert(k == cs1.len());
                    assert(cs[k + 1] == cs2[k + 1 - cs1.len()]);
                }
            }
        }
    }
}

/// The mouse steps only ever call gesture phases of the current
/// binding, so a one-shot binding, which is never current, never sees
/// `begin`, `update` or `end` from them either; and the transcript of
/// each mouse step addresses the current binding alone.
pub proof fn lemma_mouse_steps_follow_current(
    manifest: Seq<Binding>,
    s: ControlState,
    button: MouseButton,
    pos: Point,
)
    requires
        match s.current {
            Some(i) => 0 <= i < manifest.len() && !(manifest[i].kind is OneShot),
            None => true,
        },
    ensures
        ({
            let (c2, cs) = mouse_press_step(manifest, s, button, pos);
            forall|k: int|
                0 <= k < cs.len() ==> s.current is Some && (#[trigger] cs[k]).id == manifest[
                    s.current->0
                ].id && !(cs[k].kind is OneShot) && gesture_phase(cs[k].phase)
        }),
        ({
            let (c2, cs) = mouse_move_step(manifest, s, pos);
            forall|k: int|
                0 <= k < cs.len() ==> s.current is Some && (#[trigger] cs[k]).id == manifest[
                    s.current->0
                ].id && !(cs[k].kind is OneShot) && gesture_phase(cs[k].phase)
        }),
        ({
            let (c2, cs) = mouse_release_step(manifest, s, button, pos);
            forall|k: int|
                0 <= k < cs.len() ==> s.current is Some && (#[trigger] cs[k]).id == manifest[
                    s.current->0
                ].id && !(cs[k].kind is OneShot) && gesture_phase(cs[k].phase)
        }),
{
}

/// Toggle on/off parity: when the current binding is a toggle and the
/// match changes back onto it, the event retires it — its gesture is
/// ended if one was in progress, it is deactivated, the slot is
/// cleared, and nothing else is prepared in the same event.
pub proof fn lemma_toggle_parity(
    manifest: Seq<Binding>,
    registered: Set<u64>,
    s: ControlState,
    new_best: Option<int>,
    pos: Point,
)
    requires
        s.current is Some,
        0 <= s.current->0 < manifest.len(),
        manifest[s.current->0].kind is Toggle,
        new_best == s.current,
    ensures
        ({
            let (c2, cs) = key_step(manifest, registered, s, true, new_best, pos);
            &&& c2.current is None
            &&& !c2.engaged
            &&& cs == retire_calls(manifest[s.current->0], s.engaged, pos)
            &&& cs.last() == deactivate_call(manifest[s.current->0])
            &&& forall|k: int| 0 <= k < cs.len() ==> !((#[trigger] cs[k].phase) is Prepare)
        }),
{
    let i = s.current->0;
    let b = manifest[i];
    let cs = retire_calls(b, s.engaged, pos);
    assert forall|k: int| 0 <= k < cs.len() implies !((#[trigger] cs[k].phase) is Prepare) by {
        if s.engaged {
            assert(cs =~= seq![end_call(b, pos), deactivate_call(b)]);
        } else {
            assert(cs =~= seq![deactivate_call(b)]);
        }
    }
}

/// A hold binding that loses its chord while a gesture is in progress
/// has its gesture ended and is deactivated, in that order, before any
/// other binding's prepare in the same event.
pub proof fn lemma_hold_loss_ends_then_deactivates(
    manifest: Seq<Binding>,
    registered: Set<u64>,
    s: ControlState,
    new_best: Option<int>,
    pos: Point,
)
    requires
        s.current is Some,
        0 <= s.current->0 < manifest.len(),
        manifest[s.current->0].kind is Hold,
        s.engaged,
        new_best != s.current,
    ensures
        ({
            let (c2, cs) = key_step(manifest, registered, s, true, new_best, pos);
            let b = manifest[s.current->0];
            &&& cs.len() >= 2
            &&& cs[0] == end_call(b, pos)
            &&& cs[1] == deactivate_call(b)
            &&& forall|k: int|
                0 <= k < cs.len() && ((#[trigger] cs[k].phase) is Prepare) ==> k >= 2
        }),
{
    let i = s.current->0;
    let b = manifest[i];
    let (s1, cs1, acq) = release_step(manifest, s, new_best, pos);
    assert(cs1 == seq![end_call(b, pos), deactivate_call(b)]);
    let (c2, cs) = key_step(manifest, registered, s, true, new_best, pos);
    if acq && s1.current is None {
        let (s2, cs2) = acquire_step(manifest, registered, new_best);
        assert(cs == cs1 + cs2);
        assert(cs[0] == cs1[0]);
        assert(cs[1] == cs1[1]);
        assert forall|k: int|
            0 <= k < cs.len() && ((#[trigger] cs[k].phase) is Prepare) implies k >= 2 by {
            if k < cs1.len() {
                assert(cs[k] == cs1[k]);
            }
        }
    }
}


/// Deactivation is never repeated without an intervening activation:
/// when the transcript of a key event deactivates twice, the second
/// deactivation belongs to a one-shot acquisition and immediately
/// follows that binding's own prepare, which lies strictly between
/// the two deactivations.
pub proof fn lemma_no_repeated_deactivate(
    manifest: Seq<Binding>,
    registered: Set<u64>,
    s: ControlState,
    changed: bool,
    new_best: Option<int>,
    pos: Point,
)
    ensures
        ({
            let (c2, cs) = key_step(manifest, registered, s, changed, new_best, pos);
            forall|k1: int, k2: int|
                0 <= k1 < k2 < cs.len() && (#[trigger] cs[k1].phase) is Deactivate && (
                #[trigger] cs[k2].phase) is Deactivate ==> k1 < k2 - 1 && cs[k2 - 1].phase
                    is Prepare && cs[k2 - 1].id == cs[k2].id
        }),
{
    let (c2, cs) = key_step(manifest, registered, s, changed, new_best, pos);
    if changed {
        let (s1, cs1, acq) = release_step(manifest, s, new_best, pos);
        if acq && s1.current is None {
            let (s2, cs2) = acquire_step(manifest, registered, new_best);
            assert(cs == cs1 + cs2);
            assert forall|k1: int, k2: int|
                0 <= k1 < k2 < cs.len() && (#[trigger] cs[k1].phase) is Deactivate && (
                #[trigger] cs[k2].phase) is Deactivate implies k1 < k2 - 1 && cs[k2 - 1].phase
                is Prepare && cs[k2 - 1].id == cs[k2].id by {
                // The release part deactivates at most once, as its
                // last call; a second deactivation can only close a
                // one-shot acquisition, whose prepare comes right
                // before it.
                assert(k1 == cs1.len() - 1);
                assert(cs2.len() == 2);
                assert(k2 == cs1.len() + 1);
                assert(cs[k2 - 1] == cs2[0]);
                assert(cs[k2] == cs2[1]);
            }
        }
    }
}

} // verus!
