//! Transient mouse state: pressed buttons and last known cursor
//! position, mutated only by input events.

use vstd::prelude::*;

verus! {

/// A 2D cursor position in window coordinates.
#[derive(Clone, Copy, PartialEq, Eq, Structural, Debug)]
pub struct Point {
    pub x: i32,
    pub y: i32,
}

impl Point {
    /// The window origin.
    pub fn origin() -> (r: Point)
        ensures
            r == (Point { x: 0, y: 0 }),
    {
        Point { x: 0, y: 0 }
    }
}

/// A mouse button.
#[derive(Clone, Copy, PartialEq, Eq, Structural, Debug)]
pub enum MouseButton {
    Left,
    Right,
    Middle,
    /// Any button this layer does not distinguish.
    Other,
}

/// The set of mouse buttons currently pressed; buttons this layer does
/// not distinguish are ignored.
#[derive(Clone, Copy, PartialEq, Eq, Structural, Debug)]
pub struct MouseButtons {
    pub left: bool,
    pub right: bool,
    pub middle: bool,
}

impl MouseButtons {
    /// The empty button set.
    pub fn none() -> (r: MouseButtons)
        ensures
            r == (MouseButtons { left: false, right: false, middle: false }),
    {
        MouseButtons { left: false, right: false, middle: false }
    }

    /// Whether the button is in the set; `Other` buttons never are.
    pub open spec fn spec_contains(self, button: MouseButton) -> bool {
        match button {
            MouseButton::Left => self.left,
            MouseButton::Right => self.right,
            MouseButton::Middle => self.middle,
            MouseButton::Other => false,
        }
    }

    /// The set with the button added; adding `Other` changes nothing.
    pub open spec fn spec_insert(self, button: MouseButton) -> MouseButtons {
        match button {
            MouseButton::Left => MouseButtons { left: true, ..self },
            MouseButton::Right => MouseButtons { right: true, ..self },
            MouseButton::Middle => MouseButtons { middle: true, ..self },
            MouseButton::Other => self,
        }
    }

    /// The set with the button removed; removing `Other` changes nothing.
    pub open spec fn spec_remove(self, button: MouseButton) -> MouseButtons {
        match button {
            MouseButton::Left => MouseButtons { left: false, ..self },
            MouseButton::Right => MouseButtons { right: false, ..self },
            MouseButton::Middle => MouseButtons { middle: false, ..self },
            MouseButton::Other => self,
        }
    }

    /// Whether the button is in the set.
    pub fn contains(&self, button: MouseButton) -> (r: bool)
        ensures
            r == self.spec_contains(button),
    {
        match button {
            MouseButton::Left => self.left,
            MouseButton::Right => self.right,
            MouseButton::Middle => self.middle,
            MouseButton::Other => false,
        }
    }
}

/// The mouse's transient state: which buttons are down and where the
/// cursor was last seen.
#[derive(Clone, Copy, PartialEq, Eq, Structural, Debug)]
pub struct MouseState {
    pub pressed: MouseButtons,
    pub position: Point,
}

impl MouseState {
    /// A mouse with no button pressed, at the origin.
    pub fn new() -> (r: MouseState)
        ensures
            r.pressed == (MouseButtons { left: false, right: false, middle: false }),
            r.position == (Point { x: 0, y: 0 }),
    {
        MouseState { pressed: MouseButtons::none(), position: Point::origin() }
    }

    /// Records a button press.
    pub fn press(&mut self, button: MouseButton)
        ensures
            final(self).pressed == old(self).pressed.spec_insert(button),
            final(self).position == old(self).position,
    {
        match button {
            MouseButton::Left => self.pressed.left = true,
            MouseButton::Right => self.pressed.right = true,
            MouseButton::Middle => self.pressed.middle = true,
            MouseButton::Other => {},
        }
    }

    /// Records a button release.
    pub fn release(&mut self, button: MouseButton)
        ensures
            final(self).pressed == old(self).pressed.spec_remove(button),
            final(self).position == old(self).position,
    {
        match button {
            MouseButton::Left => self.pressed.left = false,
            MouseButton::Right => self.pressed.right = false,
            MouseButton::Middle => self.pressed.middle = false,
            MouseButton::Other => {},
        }
    }

    /// Records a cursor move.
    pub fn move_to(&mut self, position: Point)
        ensures
            final(self).position == position,
            final(self).pressed == old(self).pressed,
    {
        self.position = position;
    }

    /// Whether the button is currently pressed.
    pub fn is_pressed(&self, button: MouseButton) -> (r: bool)
        ensures
            r == self.pressed.spec_contains(button),
    {
        self.pressed.contains(button)
    }

    /// Whether any distinguished button is pressed.
    pub fn has_pressed(&self) -> (r: bool)
        ensures
            r == (self.pressed.left || self.pressed.right || self.pressed.middle),
    {
        self.pressed.left || self.pressed.right || self.pressed.middle
    }

    /// The last known cursor position.
    pub fn position(&self) -> (r: Point)
        ensures
            r == self.position,
    {
        self.position
    }
}

} // verus!
