//! The shell as a whole: its window, and whether the process still runs.
//!
//! [`Shell`] is the reference for what a caller of the handlers has to do
//! with a script. It stands in for the platform, so that a run of the
//! application can be replayed, with or without a failing platform call,
//! and reasoned about.

use vstd::prelude::*;
use crate::controller::{
    minimize_to_tray, on_tray_event, on_window_event, setup, tray_script, window_script,
};
use crate::event::{TrayEvent, WindowEvent};
use crate::script::{hide_script, setup_script, Step};
use crate::window::WindowState;

verus! {

/// The state of the application.
#[derive(Clone, Copy, Debug, PartialEq, Eq, Structural)]
pub enum Shell {
    /// The process runs and owns `window`. `close_pending` holds only while
    /// a close request is being handled, until a step prevents the close.
    Running { window: WindowState, close_pending: bool },
    /// The process has left with `code`.
    Exited { code: i32 },
    /// The process was aborted because the platform refused a call or had
    /// no main window.
    Aborted,
    /// The platform closed the window after a close request that nothing
    /// prevented, which ends the application.
    Closed,
}

/// The platform call of step number `at` of a script is the one that fails.
/// `fault` is `None` where the platform carries out every call.
pub open spec fn fails_at(fault: Option<usize>, at: int) -> bool {
    fault matches Some(k) && k == at
}

/// The platform refuses the call of one of the first `n` steps of a script.
pub open spec fn fails_before(fault: Option<usize>, n: int) -> bool {
    fault matches Some(k) && k < n
}

impl Shell {
    /// The shell runs, its window is as the controller keeps it, and no
    /// close is pending.
    pub open spec fn settled(self) -> bool {
        &&& self matches Shell::Running { window, close_pending }
        &&& window.kept()
        &&& !close_pending
    }

    /// The shell runs, and its window is on screen and pinned on top.
    pub open spec fn shown_on_top(self) -> bool {
        &&& self matches Shell::Running { window, .. }
        &&& window.visible
        &&& window.always_on_top
    }

    /// The shell after one step. `failed` says that the platform refused the
    /// call that the step makes, which aborts the process; it means nothing
    /// for a step that makes no call. A shell that no longer runs takes no
    /// step.
    pub open spec fn after_step(self, step: Step, failed: bool) -> Shell {
        match self {
            Shell::Running { window, close_pending } => if failed && step.calls_platform() {
                Shell::Aborted
            } else {
                match step {
                    Step::Call(op) => Shell::Running { window: window.after(op), close_pending },
                    Step::OnlyIfHidden => self,
                    Step::PreventClose => Shell::Running { window, close_pending: false },
                    Step::Exit(code) => Shell::Exited { code },
                }
            },
            _ => self,
        }
    }

    /// The script ends with `step`, whatever follows it: the step asks for
    /// a hidden window and the window is visible.
    pub open spec fn stops_at(self, step: Step) -> bool {
        &&& step is OnlyIfHidden
        &&& self matches Shell::Running { window, .. }
        &&& window.visible
    }

    /// The shell after the steps of `steps` from number `at` on.
    pub open spec fn run_from(self, steps: Seq<Step>, at: int, fault: Option<usize>) -> Shell
        decreases steps.len() - at,
    {
        if at < 0 || at >= steps.len() || !(self is Running) {
            self
        } else {
            let next = self.after_step(steps[at], fails_at(fault, at));
            if self.stops_at(steps[at]) {
                next
            } else {
                next.run_from(steps, at + 1, fault)
            }
        }
    }

    /// The shell after the script `steps`, carried out from its first step
    /// until it ends, the process leaves, or the platform refuses a call.
    pub open spec fn run(self, steps: Seq<Step>, fault: Option<usize>) -> Shell {
        self.run_from(steps, 0, fault)
    }

    /// What the platform does when a handler returns: it closes the window
    /// if a close is still pending.
    pub open spec fn handler_returned(self) -> Shell {
        match self {
            Shell::Running { close_pending: true, .. } => Shell::Closed,
            _ => self,
        }
    }

    /// The shell that startup leaves: the setup script, run on the main
    /// window as the platform made it. Without a main window startup aborts.
    pub open spec fn started(main_window: Option<WindowState>, fault: Option<usize>) -> Shell {
        match main_window {
            Some(window) => Shell::Running { window, close_pending: false }.run(
                setup_script(),
                fault,
            ),
            None => Shell::Aborted,
        }
    }

    /// The shell after the command that sends the window to the tray.
    pub open spec fn minimized(self, fault: Option<usize>) -> Shell {
        self.run(hide_script(), fault)
    }

    /// The shell after a tray event.
    pub open spec fn after_tray_event(self, event: TrayEvent, fault: Option<usize>) -> Shell {
        self.run(tray_script(event), fault)
    }

    /// The shell after a window event. A close request leaves a close
    /// pending, which the answering script has to prevent.
    pub open spec fn after_window_event(self, event: WindowEvent, fault: Option<usize>) -> Shell {
        match self {
            Shell::Running { window, close_pending } => Shell::Running {
                window,
                close_pending: close_pending || event is CloseRequested,
            }.run(window_script(event), fault).handler_returned(),
            _ => self,
        }
    }

    /// The shell after a series of tray events, each given with the fault
    /// that the platform has in store while it is handled.
    pub open spec fn after_tray_events(self, events: Seq<(TrayEvent, Option<usize>)>) -> Shell
        decreases events.len(),
    {
        if events.len() == 0 {
            self
        } else {
            self.after_tray_events(events.drop_last()).after_tray_event(
                events.last().0,
                events.last().1,
            )
        }
    }

    /// Whether the process still runs.
    pub fn is_running(&self) -> (running: bool)
        ensures
            running == (*self is Running),
    {
        match self {
            Shell::Running { .. } => true,
            _ => false,
        }
    }

    /// The window, as long as the process runs.
    pub fn window(&self) -> (window: Option<WindowState>)
        ensures
            window == (match *self {
                Shell::Running { window, .. } => Some(window),
                _ => None,
            }),
    {
        match self {
            Shell::Running { window, .. } => Some(*window),
            _ => None,
        }
    }

    /// The exit code, once the process has left of its own accord.
    pub fn exit_code(&self) -> (code: Option<i32>)
        ensures
            code == (match *self {
                Shell::Exited { code } => Some(code),
                _ => None,
            }),
    {
        match self {
            Shell::Exited { code } => Some(*code),
            _ => None,
        }
    }

    /// Carries out one step. `failed` says that the platform refuses the
    /// call of this step. Returns whether the script goes on after it.
    pub fn step(&mut self, step: Step, failed: bool) -> (goes_on: bool)
        ensures
            *final(self) == old(self).after_step(step, failed),
            goes_on == (*final(self) is Running && !old(self).stops_at(step)),
    {
        match *self {
            Shell::Running { window, close_pending } => match step {
                Step::Call(op) => {
                    if failed {
                        *self = Shell::Aborted;
                        false
                    } else {
                        let mut window = window;
                        window.apply(op);
                        *self = Shell::Running { window, close_pending };
                        true
                    }
                },
                Step::OnlyIfHidden => {
                    if failed {
                        *self = Shell::Aborted;
                        false
                    } else {
                        !window.visible
                    }
                },
                Step::PreventClose => {
                    *self = Shell::Running { window, close_pending: false };
                    true
                },
                Step::Exit(code) => {
                    *self = Shell::Exited { code };
                    false
                },
            },
            _ => false,
        }
    }

    /// Carries out a script. `fault` is the number of the step, counted from
    /// 0, whose platform call fails, or `None` if every call succeeds.
    pub fn run_script(&mut self, steps: &Vec<Step>, fault: Option<usize>)
        ensures
            *final(self) == old(self).run(steps@, fault),
    {
        let mut at: usize = 0;
        let mut goes_on: bool = self.is_running();
        while goes_on && at < steps.len()
            invariant
                at <= steps.len(),
                goes_on ==> *self is Running,
                goes_on ==> self.run_from(steps@, at as int, fault) == old(self).run(steps@, fault),
                !goes_on ==> *self == old(self).run(steps@, fault),
            decreases steps.len() - at,
        {
            let failed = match fault {
                Some(k) => k == at,
                None => false,
            };
            goes_on = self.step(steps[at], failed);
            at = at + 1;
        }
    }

    /// Starts the application on the main window that the platform has
    /// made, or on none.
    pub fn start(main_window: Option<WindowState>, fault: Option<usize>) -> (shell: Shell)
        ensures
            shell == Shell::started(main_window, fault),
    {
        match main_window {
            Some(window) => {
                let mut shell = Shell::Running { window, close_pending: false };
                let script = setup();
                shell.run_script(&script, fault);
                shell
            },
            None => Shell::Aborted,
        }
    }

    /// Invokes the command that sends the window to the tray.
    pub fn minimize(&mut self, fault: Option<usize>)
        ensures
            *final(self) == old(self).minimized(fault),
    {
        let script = minimize_to_tray();
        self.run_script(&script, fault);
    }

    /// Delivers a tray event.
    pub fn tray_event(&mut self, event: &TrayEvent, fault: Option<usize>)
        ensures
            *final(self) == old(self).after_tray_event(*event, fault),
    {
        let script = on_tray_event(event);
        self.run_script(&script, fault);
    }

    /// Delivers a window event.
    pub fn window_event(&mut self, event: &WindowEvent, fault: Option<usize>)
        ensures
            *final(self) == old(self).after_window_event(*event, fault),
    {
        match *self {
            Shell::Running { window, close_pending } => {
                let closing = match event {
                    WindowEvent::CloseRequested => true,
                    WindowEvent::Other => close_pending,
                };
                *self = Shell::Running { window, close_pending: closing };
                let script = on_window_event(event);
                self.run_script(&script, fault);
                match *self {
                    Shell::Running { close_pending: true, .. } => {
                        *self = Shell::Closed;
                    },
                    _ => {},
                }
            },
            _ => {},
        }
    }
}

} // verus!
