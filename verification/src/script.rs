//! Scripts: what a handler tells its caller to do.

use vstd::prelude::*;
use crate::window::WindowOp;

verus! {

/// One step of a script. The caller carries the steps out in order.
///
/// A step that calls the platform is fatal if the platform refuses the call:
/// the caller aborts the process on the spot, and no later step is reached.
#[derive(Clone, Copy, Debug, PartialEq, Eq, Structural)]
pub enum Step {
    /// Carry out this operation on the window.
    Call(WindowOp),
    /// Ask the platform whether the window is visible. If it is, the script
    /// ends here; if it is hidden, go on with the next step.
    OnlyIfHidden,
    /// Prevent the close that the window has asked for.
    PreventClose,
    /// End the process at once with this exit code, without any cleanup.
    Exit(i32),
}

impl Step {
    /// This step calls the platform, so it can fail.
    pub open spec fn calls_platform(self) -> bool {
        self is Call || self is OnlyIfHidden
    }
}

/// Startup: strip the decorations, pin the window on top, leave fullscreen,
/// and only then show the window.
pub open spec fn setup_script() -> Seq<Step> {
    seq![
        Step::Call(WindowOp::SetDecorations(false)),
        Step::Call(WindowOp::SetAlwaysOnTop(true)),
        Step::Call(WindowOp::SetFullscreen(false)),
        Step::Call(WindowOp::Show),
    ]
}

/// Hiding: take the window off screen.
pub open spec fn hide_script() -> Seq<Step> {
    seq![Step::Call(WindowOp::Hide)]
}

/// Showing: put the window on screen, pin it on top again, and centre it.
pub open spec fn show_script() -> Seq<Step> {
    seq![
        Step::Call(WindowOp::Show),
        Step::Call(WindowOp::SetAlwaysOnTop(true)),
        Step::Call(WindowOp::Center),
    ]
}

/// Restoring: if the window is hidden, put it on screen and pin it on top
/// again; if it is visible, leave it alone.
pub open spec fn restore_script() -> Seq<Step> {
    seq![
        Step::OnlyIfHidden,
        Step::Call(WindowOp::Show),
        Step::Call(WindowOp::SetAlwaysOnTop(true)),
    ]
}

/// Quitting: leave with exit code 0.
pub open spec fn quit_script() -> Seq<Step> {
    seq![Step::Exit(0)]
}

/// A close request: hide the window, and prevent the close.
pub open spec fn close_script() -> Seq<Step> {
    seq![Step::Call(WindowOp::Hide), Step::PreventClose]
}

} // verus!
