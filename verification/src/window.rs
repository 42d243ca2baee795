//! The application window as the controller sees it, and the operations the
//! controller asks of it.

use vstd::prelude::*;

verus! {

/// The attributes of the window that the controller reads or changes.
#[derive(Clone, Copy, Debug, PartialEq, Eq, Structural)]
pub struct WindowState {
    /// The window is on screen.
    pub visible: bool,
    /// The window is kept above all other windows.
    pub always_on_top: bool,
    /// The window has its title bar and borders.
    pub decorated: bool,
    /// The window covers the whole screen.
    pub fullscreen: bool,
    /// The window sits in the middle of the screen.
    pub centered: bool,
}

/// One operation on the window. The platform may refuse any of them.
#[derive(Clone, Copy, Debug, PartialEq, Eq, Structural)]
pub enum WindowOp {
    /// Turn the title bar and borders on or off.
    SetDecorations(bool),
    /// Pin the window above the others, or release it.
    SetAlwaysOnTop(bool),
    /// Enter or leave fullscreen.
    SetFullscreen(bool),
    /// Put the window on screen.
    Show,
    /// Take the window off screen.
    Hide,
    /// Move the window to the middle of the screen.
    Center,
}

impl WindowState {
    /// The window once the platform has carried out `op`: the one attribute
    /// that `op` names has its new value, the others are untouched.
    pub open spec fn after(self, op: WindowOp) -> WindowState {
        match op {
            WindowOp::SetDecorations(on) => WindowState { decorated: on, ..self },
            WindowOp::SetAlwaysOnTop(on) => WindowState { always_on_top: on, ..self },
            WindowOp::SetFullscreen(on) => WindowState { fullscreen: on, ..self },
            WindowOp::Show => WindowState { visible: true, ..self },
            WindowOp::Hide => WindowState { visible: false, ..self },
            WindowOp::Center => WindowState { centered: true, ..self },
        }
    }

    /// What the controller keeps true of its window from startup on: it has
    /// no decorations, is not fullscreen, and whenever it is on screen it is
    /// pinned on top.
    pub open spec fn kept(self) -> bool {
        &&& !self.decorated
        &&& !self.fullscreen
        &&& self.visible ==> self.always_on_top
    }

    /// Records that the platform has carried out `op`.
    pub fn apply(&mut self, op: WindowOp)
        ensures
            *final(self) == old(self).after(op),
    {
        match op {
            WindowOp::SetDecorations(on) => {
                self.decorated = on;
            },
            WindowOp::SetAlwaysOnTop(on) => {
                self.always_on_top = on;
            },
            WindowOp::SetFullscreen(on) => {
                self.fullscreen = on;
            },
            WindowOp::Show => {
                self.visible = true;
            },
            WindowOp::Hide => {
                self.visible = false;
            },
            WindowOp::Center => {
                self.centered = true;
            },
        }
    }
}

} // verus!
