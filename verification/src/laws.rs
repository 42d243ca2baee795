//! What holds of the shell whatever it is sent.

use vstd::prelude::*;
use crate::controller::tray_script;
use crate::event::{TrayEvent, WindowEvent};
use crate::menu::MenuChoice;
use crate::script::Step;
use crate::shell::{fails_at, fails_before, Shell};
use crate::window::WindowState;

verus! {

/// A script without an exit step leaves the process running or aborted, and
/// running if no call is refused.
proof fn lemma_run_without_exit(shell: Shell, steps: Seq<Step>, at: int, fault: Option<usize>)
    requires
        shell is Running,
        0 <= at,
        forall|i: int| 0 <= i < steps.len() ==> !(#[trigger] steps[i] is Exit),
    ensures
        shell.run_from(steps, at, fault) is Running || shell.run_from(steps, at, fault) is Aborted,
        fault is None ==> shell.run_from(steps, at, fault) is Running,
    decreases steps.len() - at,
{
    if at < steps.len() && !shell.stops_at(steps[at]) {
        let next = shell.after_step(steps[at], fails_at(fault, at));
        if next is Running {
            lemma_run_without_exit(next, steps, at + 1, fault);
        }
    }
}

/// From any step on, a fault aborts the run or makes no difference to it.
proof fn lemma_fault_aborts_or_is_not_met(
    shell: Shell,
    steps: Seq<Step>,
    at: int,
    fault: Option<usize>,
)
    requires
        0 <= at,
    ensures
        shell.run_from(steps, at, fault) is Aborted || shell.run_from(steps, at, fault)
            == shell.run_from(steps, at, None),
    decreases steps.len() - at,
{
    if at < steps.len() && shell is Running {
        let next = shell.after_step(steps[at], fails_at(fault, at));
        if !(next is Aborted) && !shell.stops_at(steps[at]) {
            lemma_fault_aborts_or_is_not_met(next, steps, at + 1, fault);
        }
    }
}

/// From any step on, a run without a fault does not abort.
proof fn lemma_no_fault_no_abort(shell: Shell, steps: Seq<Step>, at: int)
    requires
        !(shell is Aborted),
        0 <= at,
    ensures
        !(shell.run_from(steps, at, None) is Aborted),
    decreases steps.len() - at,
{
    if at < steps.len() && shell is Running && !shell.stops_at(steps[at]) {
        lemma_no_fault_no_abort(shell.after_step(steps[at], false), steps, at + 1);
    }
}

/// Only a refused call aborts, and a refused call does nothing else: a
/// script run with a fault either aborts the process or ends exactly as it
/// does without the fault, and without a fault no script aborts.
pub proof fn only_a_refused_call_aborts(shell: Shell, steps: Seq<Step>, fault: Option<usize>)
    ensures
        shell.run(steps, fault) is Aborted || shell.run(steps, fault) == shell.run(steps, None),
        !(shell is Aborted) ==> !(shell.run(steps, None) is Aborted),
{
    lemma_fault_aborts_or_is_not_met(shell, steps, 0, fault);
    if !(shell is Aborted) {
        lemma_no_fault_no_abort(shell, steps, 0);
    }
}

/// Every call that a handler asks for is fatal when the platform refuses
/// it: each of the four calls of startup, the hiding call of the command, of
/// a click on Hide and of a close request, each of the three calls of a
/// click on Show, the visibility query of a left click, and each of the two
/// calls by which a left click restores a hidden window.
pub proof fn refused_call_is_fatal(
    shell: Shell,
    main_window: WindowState,
    click: TrayEvent,
    fault: Option<usize>,
)
    requires
        shell is Running,
    ensures
        fails_before(fault, 4) ==> Shell::started(Some(main_window), fault) is Aborted,
        fails_before(fault, 1) ==> shell.minimized(fault) is Aborted,
        fails_before(fault, 1) ==> shell.after_window_event(WindowEvent::CloseRequested, fault)
            is Aborted,
        fails_before(fault, 1) && click.chosen() == Some(MenuChoice::Hide)
            ==> shell.after_tray_event(click, fault) is Aborted,
        fails_before(fault, 3) && click.chosen() == Some(MenuChoice::Show)
            ==> shell.after_tray_event(click, fault) is Aborted,
        fails_before(fault, 1) ==> shell.after_tray_event(TrayEvent::LeftClick, fault) is Aborted,
        fails_before(fault, 3) && !shell->window.visible ==> shell.after_tray_event(
            TrayEvent::LeftClick,
            fault,
        ) is Aborted,
{
    reveal_with_fuel(Shell::run_from, 5);
}

/// Tray events never make the process exit unless one of them is a click
/// on Quit: after any series of other tray events the process runs, or was
/// aborted because the platform refused a call, and it runs if the platform
/// refused none.
pub proof fn only_quit_exits(shell: Shell, events: Seq<(TrayEvent, Option<usize>)>)
    requires
        shell is Running,
        forall|i: int| 0 <= i < events.len() ==> !(#[trigger] events[i]).0.is_quit(),
    ensures
        shell.after_tray_events(events) is Running || shell.after_tray_events(events) is Aborted,
        (forall|i: int| 0 <= i < events.len() ==> (#[trigger] events[i]).1 is None)
            ==> shell.after_tray_events(events) is Running,
    decreases events.len(),
{
    if events.len() > 0 {
        only_quit_exits(shell, events.drop_last());
        let before = shell.after_tray_events(events.drop_last());
        assert(!events[events.len() - 1].0.is_quit());
        if before is Running {
            lemma_run_without_exit(before, tray_script(events.last().0), 0, events.last().1);
        }
        if forall|i: int| 0 <= i < events.len() ==> (#[trigger] events[i]).1 is None {
            assert(events[events.len() - 1].1 is None);
            assert forall|i: int| 0 <= i < events.drop_last().len() implies (
            #[trigger] events.drop_last()[i]).1 is None by {
                assert(events.drop_last()[i] == events[i]);
            }
        }
    }
}

/// What a hidden window is, and how it comes back: the window of `hidden`
/// is off screen, and both a click on Show and a left click on the icon put
/// it on screen, pinned on top, unless the platform refuses one of their
/// three calls.
pub open spec fn hidden_until_shown(
    hidden: Shell,
    show_click: TrayEvent,
    show_fault: Option<usize>,
) -> bool {
    &&& hidden matches Shell::Running { window, .. }
    &&& !window.visible
    &&& !fails_before(show_fault, 3) ==> {
        &&& hidden.after_tray_event(show_click, show_fault).shown_on_top()
        &&& hidden.after_tray_event(TrayEvent::LeftClick, show_fault).shown_on_top()
    }
}

/// Every way of hiding the window hides it, and every way of showing it
/// afterwards shows it pinned on top. The ways of hiding are the command, a
/// click on Hide and a close request; the ways of showing are a click on
/// Show and a left click on the icon.
pub proof fn hide_then_show(
    shell: Shell,
    hide_click: TrayEvent,
    hide_fault: Option<usize>,
    show_click: TrayEvent,
    show_fault: Option<usize>,
)
    requires
        shell is Running,
        hide_click.chosen() == Some(MenuChoice::Hide),
        !fails_before(hide_fault, 1),
        show_click.chosen() == Some(MenuChoice::Show),
    ensures
        hidden_until_shown(shell.minimized(hide_fault), show_click, show_fault),
        hidden_until_shown(shell.after_tray_event(hide_click, hide_fault), show_click, show_fault),
        hidden_until_shown(
            shell.after_window_event(WindowEvent::CloseRequested, hide_fault),
            show_click,
            show_fault,
        ),
{
    reveal_with_fuel(Shell::run_from, 4);
}

/// A close request never closes the window and never ends the process of
/// its own accord. It does exactly what a click on Hide does and what the
/// command does, also where the platform refuses the hiding call.
pub proof fn close_request_only_hides(shell: Shell, hide_click: TrayEvent, fault: Option<usize>)
    requires
        shell matches Shell::Running { close_pending, .. } && !close_pending,
        hide_click.chosen() == Some(MenuChoice::Hide),
    ensures
        shell.after_window_event(WindowEvent::CloseRequested, fault) == shell.after_tray_event(
            hide_click,
            fault,
        ),
        shell.after_window_event(WindowEvent::CloseRequested, fault) == shell.minimized(fault),
        !(shell.after_window_event(WindowEvent::CloseRequested, fault) is Closed),
        !(shell.after_window_event(WindowEvent::CloseRequested, fault) is Exited),
        !fails_before(fault, 1) ==> shell.after_window_event(WindowEvent::CloseRequested, fault)
            == (Shell::Running {
            window: WindowState { visible: false, ..shell->window },
            close_pending: false,
        }),
{
    reveal_with_fuel(Shell::run_from, 3);
}

/// A click on Quit ends the process with exit code 0, whatever the window
/// looks like. It calls the platform for nothing, so no fault can get in
/// its way.
pub proof fn quit_exits_with_zero(shell: Shell, quit_click: TrayEvent, fault: Option<usize>)
    requires
        shell is Running,
        quit_click.is_quit(),
    ensures
        shell.after_tray_event(quit_click, fault) == (Shell::Exited { code: 0 }),
{
    reveal_with_fuel(Shell::run_from, 2);
}

/// A left click on the icon changes nothing while the window is visible,
/// provided the platform answers the visibility query.
pub proof fn left_click_leaves_visible_window(shell: Shell, fault: Option<usize>)
    requires
        shell matches Shell::Running { window, .. } && window.visible,
        !fails_before(fault, 1),
    ensures
        shell.after_tray_event(TrayEvent::LeftClick, fault) == shell,
{
    reveal_with_fuel(Shell::run_from, 2);
}

/// A click on Show leaves the window visible, pinned on top and centred,
/// wherever it was before and whether or not it was visible, and touches
/// nothing else. A second click changes nothing more.
pub proof fn show_centers(shell: Shell, show_click: TrayEvent, fault: Option<usize>)
    requires
        shell is Running,
        show_click.chosen() == Some(MenuChoice::Show),
        !fails_before(fault, 3),
    ensures
        shell.after_tray_event(show_click, fault) == (Shell::Running {
            window: WindowState {
                visible: true,
                always_on_top: true,
                centered: true,
                ..shell->window
            },
            close_pending: shell->close_pending,
        }),
        shell.after_tray_event(show_click, fault).after_tray_event(show_click, fault)
            == shell.after_tray_event(show_click, fault),
{
    reveal_with_fuel(Shell::run_from, 4);
}

/// Startup on any main window, without a refused call, leaves the window
/// visible, undecorated, pinned on top and not fullscreen, and moves it
/// nowhere.
pub proof fn startup_settles(main_window: WindowState, fault: Option<usize>)
    requires
        !fails_before(fault, 4),
    ensures
        Shell::started(Some(main_window), fault) == (Shell::Running {
            window: WindowState {
                visible: true,
                always_on_top: true,
                decorated: false,
                fullscreen: false,
                centered: main_window.centered,
            },
            close_pending: false,
        }),
        Shell::started(Some(main_window), fault).settled(),
{
    reveal_with_fuel(Shell::run_from, 5);
}

/// From startup on the window stays as the controller keeps it: no command
/// and no event leaves a running shell with a decorated or fullscreen
/// window, with a visible window that is not pinned on top, or with a close
/// pending. A shell that is no longer settled has left through Quit with
/// exit code 0 or was aborted by a refused call.
pub proof fn settled_is_kept(
    shell: Shell,
    tray: TrayEvent,
    window: WindowEvent,
    fault: Option<usize>,
)
    requires
        shell.settled(),
    ensures
        shell.minimized(fault).settled() || shell.minimized(fault) is Aborted,
        shell.after_window_event(window, fault).settled() || shell.after_window_event(
            window,
            fault,
        ) is Aborted,
        shell.after_tray_event(tray, fault).settled() || shell.after_tray_event(tray, fault)
            is Aborted || (tray.is_quit() && shell.after_tray_event(tray, fault)
            == (Shell::Exited { code: 0 })),
        fault is None ==> {
            &&& shell.minimized(fault).settled()
            &&& shell.after_window_event(window, fault).settled()
            &&& !tray.is_quit() ==> shell.after_tray_event(tray, fault).settled()
        },
{
    reveal_with_fuel(Shell::run_from, 4);
}

} // verus!
