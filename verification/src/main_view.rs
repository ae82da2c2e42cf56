//! The concrete views this build knows: the primary canvas view, which
//! hosts the lifecycle driver, and an auxiliary panel view, which can
//! request that other views be opened or closed.

use vstd::prelude::*;
use std::sync::Arc;
use crate::canvas::CCanvas;
use crate::driver::{
    apply_calls, key_step, mouse_move_step, mouse_press_step, mouse_release_step, LifecycleDriver,
};
use crate::id::{Id, Window};
use crate::keys::KeyCode;
use crate::matcher::best_match;
use crate::mouse::{MouseButton, Point};
use crate::shell::CShell;
use crate::windows::{WindowManagerShell, WindowView};

verus! {

/// A raw input event addressed to the primary view.
#[derive(Clone, Copy, PartialEq, Eq, Debug)]
pub enum MainViewMessage {
    KeyPressed(KeyCode),
    KeyReleased(KeyCode),
    MousePressed(MouseButton),
    MouseMoved(Point),
    MouseReleased(MouseButton),
}

/// The primary view: it owns the lifecycle driver, the current
/// document and the document side channel, and feeds input events to
/// the driver.
pub struct MainView {
    pub id: Id<Window>,
    pub driver: LifecycleDriver,
    pub shell: CShell,
}

/// How the primary view evolves under one input event: the driver
/// absorbs the event exactly as its own step functions say, and the
/// document shell collects the creation requests the phase calls made.
pub open spec fn main_view_steps(pre: MainView, m: MainViewMessage, post: MainView) -> bool {
    let manifest = pre.driver.matcher.manifest@;
    let held = pre.driver.matcher.held.set();
    &&& post.id == pre.id
    &&& post.driver.matcher.manifest@ == manifest
    &&& post.shell.canvas_spec() == pre.shell.canvas_spec()
    &&& match m {
        MainViewMessage::KeyPressed(k) => {
            let nb = best_match(manifest, held.insert(k));
            let ch = nb != best_match(manifest, held);
            let (c2, cs) = key_step(
                manifest,
                pre.driver.registered(),
                pre.driver.control(),
                ch,
                nb,
                pre.driver.mouse.position,
            );
            let (m2, reqs) = apply_calls(
                pre.driver.actions.contents(),
                pre.shell.canvas_spec(),
                cs,
            );
            &&& post.driver.matcher.held.set() == held.insert(k)
            &&& post.driver.mouse == pre.driver.mouse
            &&& post.driver.control() == c2
            &&& post.driver.actions.contents() == m2
            &&& post.shell.creations() == pre.shell.creations() + reqs
        },
        MainViewMessage::KeyReleased(k) => {
            let nb = best_match(manifest, held.remove(k));
            let ch = nb != best_match(manifest, held);
            let (c2, cs) = key_step(
                manifest,
                pre.driver.registered(),
                pre.driver.control(),
                ch,
                nb,
                pre.driver.mouse.position,
            );
            let (m2, reqs) = apply_calls(
                pre.driver.actions.contents(),
                pre.shell.canvas_spec(),
                cs,
            );
            &&& post.driver.matcher.held.set() == held.remove(k)
            &&& post.driver.mouse == pre.driver.mouse
            &&& post.driver.control() == c2
            &&& post.driver.actions.contents() == m2
            &&& post.shell.creations() == pre.shell.creations() + reqs
        },
        MainViewMessage::MousePressed(b) => {
            let (c2, cs) = mouse_press_step(
                manifest,
                pre.driver.control(),
                b,
                pre.driver.mouse.position,
            );
            let (m2, reqs) = apply_calls(
                pre.driver.actions.contents(),
                pre.shell.canvas_spec(),
                cs,
            );
            &&& post.driver.matcher == pre.driver.matcher
            &&& post.driver.mouse.pressed == pre.driver.mouse.pressed.spec_insert(b)
            &&& post.driver.mouse.position == pre.driver.mouse.position
            &&& post.driver.control() == c2
            &&& post.driver.actions.contents() == m2
            &&& post.shell.creations() == pre.shell.creations() + reqs
        },
        MainViewMessage::MouseMoved(p) => {
            let (c2, cs) = mouse_move_step(manifest, pre.driver.control(), p);
            let (m2, reqs) = apply_calls(
                pre.driver.actions.contents(),
                pre.shell.canvas_spec(),
                cs,
            );
            &&& post.driver.matcher == pre.driver.matcher
            &&& post.driver.mouse.pressed == pre.driver.mouse.pressed
            &&& post.driver.mouse.position == p
            &&& post.driver.control() == c2
            &&& post.driver.actions.contents() == m2
            &&& post.shell.creations() == pre.shell.creations() + reqs
        },
        MainViewMessage::MouseReleased(b) => {
            let (c2, cs) = mouse_release_step(
                manifest,
                pre.driver.control(),
                b,
                pre.driver.mouse.position,
            );
            let (m2, reqs) = apply_calls(
                pre.driver.actions.contents(),
                pre.shell.canvas_spec(),
                cs,
            );
            &&& post.driver.matcher == pre.driver.matcher
            &&& post.driver.mouse.pressed == pre.driver.mouse.pressed.spec_remove(b)
            &&& post.driver.mouse.position == pre.driver.mouse.position
            &&& post.driver.control() == c2
            &&& post.driver.actions.contents() == m2
            &&& post.shell.creations() == pre.shell.creations() + reqs
        },
    }
}

impl MainView {
    /// The primary view over the given driver and current document,
    /// registered under the given identifier.
    pub fn new(id: Id<Window>, driver: LifecycleDriver, canvas: Arc<CCanvas>) -> (r: MainView)
        requires
            driver.wf(),
        ensures
            r.inv(),
            r.id == id,
            r.driver == driver,
            r.shell.canvas_spec() == *canvas,
            r.shell.creations() == Seq::<Arc<CCanvas>>::empty(),
    {
        MainView { id, driver, shell: CShell::new(canvas) }
    }
}

impl WindowView for MainView {
    type Message = MainViewMessage;

    open spec fn key_spec(&self) -> u64 {
        self.id.key()
    }

    open spec fn inv(&self) -> bool {
        self.driver.wf()
    }

    open spec fn update_rel(
        &self,
        message: MainViewMessage,
        post: MainView,
        opens: Seq<Id<Window>>,
        closes: Seq<Id<Window>>,
    ) -> bool {
        &&& opens == Seq::<Id<Window>>::empty()
        &&& closes == Seq::<Id<Window>>::empty()
        &&& main_view_steps(*self, message, post)
    }

    fn id(&self) -> Id<Window> {
        self.id
    }

    fn update(&mut self, message: MainViewMessage, windows: &mut WindowManagerShell) {
        match message {
            MainViewMessage::KeyPressed(k) => {
                self.driver.key_pressed(k, &mut self.shell);
            },
            MainViewMessage::KeyReleased(k) => {
                self.driver.key_released(k, &mut self.shell);
            },
            MainViewMessage::MousePressed(b) => {
                self.driver.mouse_pressed(b, &mut self.shell);
            },
            MainViewMessage::MouseMoved(p) => {
                self.driver.mouse_moved(p, &mut self.shell);
            },
            MainViewMessage::MouseReleased(b) => {
                self.driver.mouse_released(b, &mut self.shell);
            },
        }
        proof {
            assert(windows.to_open@.skip(old(windows).to_open@.len() as int) =~= Seq::<
                Id<Window>,
            >::empty());
            assert(windows.to_close@.skip(old(windows).to_close@.len() as int) =~= Seq::<
                Id<Window>,
            >::empty());
        }
    }
}

/// A message addressed to a panel view: a request to open or close
/// some view's window.
#[derive(Clone, Copy, PartialEq, Eq, Debug)]
pub enum PanelViewMessage {
    RequestOpen(Id<Window>),
    RequestClose(Id<Window>),
}

/// An auxiliary panel view: it keeps no state of its own and forwards
/// open and close requests onto the multiplexer's side channel.
pub struct PanelView {
    pub id: Id<Window>,
}

impl PanelView {
    /// A panel view registered under the given identifier.
    pub fn new(id: Id<Window>) -> (r: PanelView)
        ensures
            r.inv(),
            r.id == id,
    {
        PanelView { id }
    }
}

impl WindowView for PanelView {
    type Message = PanelViewMessage;

    open spec fn key_spec(&self) -> u64 {
        self.id.key()
    }

    open spec fn inv(&self) -> bool {
        true
    }

    open spec fn update_rel(
        &self,
        message: PanelViewMessage,
        post: PanelView,
        opens: Seq<Id<Window>>,
        closes: Seq<Id<Window>>,
    ) -> bool {
        &&& post == *self
        &&& match message {
            PanelViewMessage::RequestOpen(v) => opens == seq![v] && closes == Seq::<
                Id<Window>,
            >::empty(),
            PanelViewMessage::RequestClose(v) => opens == Seq::<Id<Window>>::empty() && closes
                == seq![v],
        }
    }

    fn id(&self) -> Id<Window> {
        self.id
    }

    fn update(&mut self, message: PanelViewMessage, windows: &mut WindowManagerShell) {
        match message {
            PanelViewMessage::RequestOpen(v) => {
                windows.open_window(v);
                proof {
                    assert(windows.to_open@.skip(old(windows).to_open@.len() as int) =~= seq![v]);
                    assert(windows.to_close@.skip(old(windows).to_close@.len() as int) =~= Seq::<
                        Id<Window>,
                    >::empty());
                }
            },
            PanelViewMessage::RequestClose(v) => {
                windows.close_window(v);
                proof {
                    assert(windows.to_open@.skip(old(windows).to_open@.len() as int) =~= Seq::<
                        Id<Window>,
                    >::empty());
                    assert(windows.to_close@.skip(old(windows).to_close@.len() as int) =~= seq![v]);
                }
            },
        }
    }
}

} // verus!
