use tray_shell::controller::{on_tray_event, on_window_event};
use tray_shell::event::{TrayEvent, WindowEvent};
use tray_shell::script::Step;
use tray_shell::shell::Shell;
use tray_shell::window::{WindowOp, WindowState};

fn click(id: &str) -> TrayEvent {
    TrayEvent::MenuItemClick { id: id.to_string() }
}

/// A window as a platform might make it: decorated, fullscreen, off centre.
fn fresh() -> WindowState {
    WindowState {
        visible: false,
        always_on_top: false,
        decorated: true,
        fullscreen: true,
        centered: false,
    }
}

/// The window that startup leaves of `fresh()`.
fn ready() -> WindowState {
    WindowState {
        visible: true,
        always_on_top: true,
        decorated: false,
        fullscreen: false,
        centered: false,
    }
}

fn started() -> Shell {
    Shell::start(Some(fresh()), None)
}

fn running(window: WindowState) -> Shell {
    Shell::Running { window, close_pending: false }
}

fn all_windows() -> Vec<WindowState> {
    let mut windows = Vec::new();
    for bits in 0..32u8 {
        windows.push(WindowState {
            visible: bits & 1 != 0,
            always_on_top: bits & 2 != 0,
            decorated: bits & 4 != 0,
            fullscreen: bits & 8 != 0,
            centered: bits & 16 != 0,
        });
    }
    windows
}

#[test]
fn startup_shows_an_undecorated_pinned_window() {
    let shell = started();
    assert!(shell.is_running());
    let window = shell.window().unwrap();
    assert!(window.visible);
    assert!(!window.decorated);
    assert!(window.always_on_top);
    assert!(!window.fullscreen);
    assert_eq!(shell, running(ready()));
}

#[test]
fn startup_does_not_move_the_window() {
    let shell = Shell::start(Some(WindowState { centered: true, ..fresh() }), None);
    assert_eq!(shell, running(WindowState { centered: true, ..ready() }));
}

#[test]
fn startup_settles_every_window() {
    for window in all_windows() {
        let shell = Shell::start(Some(window), None);
        let expected = WindowState {
            visible: true,
            always_on_top: true,
            decorated: false,
            fullscreen: false,
            centered: window.centered,
        };
        assert_eq!(shell, running(expected));
    }
}

#[test]
fn startup_then_hide_hides() {
    let mut shell = started();
    shell.tray_event(&click("hide"), None);
    assert!(shell.is_running());
    assert_eq!(shell.window().unwrap().visible, false);
    assert_eq!(shell, running(WindowState { visible: false, ..ready() }));
}

#[test]
fn hide_then_show_shows_pinned_and_centered() {
    let mut shell = started();
    shell.tray_event(&click("hide"), None);
    shell.tray_event(&click("show"), None);
    let window = shell.window().unwrap();
    assert!(window.visible);
    assert!(window.always_on_top);
    assert!(window.centered);
    assert_eq!(shell, running(WindowState { centered: true, ..ready() }));
}

#[test]
fn quit_exits_with_zero_at_any_point() {
    let mut at_start = started();
    at_start.tray_event(&click("quit"), None);
    assert_eq!(at_start, Shell::Exited { code: 0 });
    assert_eq!(at_start.exit_code(), Some(0));
    assert!(!at_start.is_running());
    assert_eq!(at_start.window(), None);

    let mut hidden = started();
    hidden.tray_event(&click("hide"), None);
    hidden.tray_event(&click("quit"), None);
    assert_eq!(hidden.exit_code(), Some(0));

    let mut shown_again = started();
    shown_again.tray_event(&click("hide"), None);
    shown_again.tray_event(&click("show"), None);
    shown_again.tray_event(&click("quit"), None);
    assert_eq!(shown_again.exit_code(), Some(0));
}

#[test]
fn quit_exits_with_zero_from_every_window() {
    for window in all_windows() {
        for fault in [None, Some(0), Some(1)] {
            let mut shell = running(window);
            shell.tray_event(&click("quit"), fault);
            assert_eq!(shell, Shell::Exited { code: 0 });
        }
    }
}

#[test]
fn tray_events_without_quit_keep_the_process_alive() {
    let events = vec![
        TrayEvent::LeftClick,
        click("hide"),
        TrayEvent::Other,
        click("hide"),
        TrayEvent::LeftClick,
        click("show"),
        click("nothing"),
        click("show"),
        TrayEvent::LeftClick,
        click("hide"),
        click("Quit"),
    ];
    let mut shell = started();
    for event in &events {
        shell.tray_event(event, None);
        assert!(shell.is_running());
        assert_eq!(shell.exit_code(), None);
    }
}

#[test]
fn every_hide_action_hides() {
    for window in all_windows() {
        let mut by_command = running(window);
        by_command.minimize(None);
        assert_eq!(by_command, running(WindowState { visible: false, ..window }));

        let mut by_menu = running(window);
        by_menu.tray_event(&click("hide"), None);
        assert_eq!(by_menu, running(WindowState { visible: false, ..window }));

        let mut by_close = running(window);
        by_close.window_event(&WindowEvent::CloseRequested, None);
        assert_eq!(by_close, running(WindowState { visible: false, ..window }));
    }
}

#[test]
fn every_show_action_after_a_hide_shows_on_top() {
    for window in all_windows() {
        let mut hidden = running(window);
        hidden.minimize(None);

        let mut by_menu = hidden;
        by_menu.tray_event(&click("show"), None);
        assert_eq!(
            by_menu,
            running(WindowState { visible: true, always_on_top: true, centered: true, ..window })
        );

        let mut by_left_click = hidden;
        by_left_click.tray_event(&TrayEvent::LeftClick, None);
        assert_eq!(
            by_left_click,
            running(WindowState { visible: true, always_on_top: true, ..window })
        );
    }
}

#[test]
fn close_request_does_what_hide_does() {
    for window in all_windows() {
        for fault in [None, Some(0), Some(1), Some(2)] {
            let mut closed = running(window);
            closed.window_event(&WindowEvent::CloseRequested, fault);
            let mut hidden = running(window);
            hidden.tray_event(&click("hide"), fault);
            let mut minimized = running(window);
            minimized.minimize(fault);
            assert_eq!(closed, hidden);
            assert_eq!(closed, minimized);
            assert_ne!(closed, Shell::Closed);
            assert_eq!(closed.exit_code(), None);
        }
    }
}

#[test]
fn close_request_keeps_the_process_alive() {
    let mut shell = started();
    for _ in 0..3 {
        shell.window_event(&WindowEvent::CloseRequested, None);
        assert!(shell.is_running());
        assert_eq!(shell, running(WindowState { visible: false, ..ready() }));
    }
}

#[test]
fn other_window_events_change_nothing() {
    for window in all_windows() {
        let mut shell = running(window);
        shell.window_event(&WindowEvent::Other, None);
        assert_eq!(shell, running(window));
    }
}

#[test]
fn left_click_on_a_visible_window_changes_nothing() {
    for window in all_windows() {
        if window.visible {
            let mut shell = running(window);
            shell.tray_event(&TrayEvent::LeftClick, None);
            assert_eq!(shell, running(window));
        }
    }
}

#[test]
fn left_click_does_not_pin_a_visible_window() {
    let window = WindowState { always_on_top: false, ..ready() };
    let mut shell = running(window);
    shell.tray_event(&TrayEvent::LeftClick, None);
    assert_eq!(shell.window().unwrap().always_on_top, false);
}

#[test]
fn left_click_restores_without_centering() {
    let mut shell = running(WindowState { visible: false, always_on_top: false, ..ready() });
    shell.tray_event(&TrayEvent::LeftClick, None);
    assert_eq!(shell, running(ready()));
    assert_eq!(shell.window().unwrap().centered, false);
}

#[test]
fn show_centers_from_every_window() {
    for window in all_windows() {
        let mut shell = running(window);
        shell.tray_event(&click("show"), None);
        let expected = WindowState { visible: true, always_on_top: true, centered: true, ..window };
        assert_eq!(shell, running(expected));
        shell.tray_event(&click("show"), None);
        assert_eq!(shell, running(expected));
    }
}

#[test]
fn show_recenters_a_visible_window() {
    let mut shell = started();
    assert_eq!(shell.window().unwrap().centered, false);
    shell.tray_event(&click("show"), None);
    assert_eq!(shell, running(WindowState { centered: true, ..ready() }));
}

#[test]
fn unknown_clicks_and_other_events_change_nothing() {
    for window in all_windows() {
        for event in [click("settings"), click(""), click("SHOW"), TrayEvent::Other] {
            for fault in [None, Some(0)] {
                let mut shell = running(window);
                shell.tray_event(&event, fault);
                assert_eq!(shell, running(window));
            }
        }
    }
}

#[test]
fn the_window_stays_as_the_controller_keeps_it() {
    let events = vec![
        click("hide"),
        TrayEvent::LeftClick,
        click("show"),
        TrayEvent::LeftClick,
        click("hide"),
        click("show"),
    ];
    let mut shell = started();
    for round in 0..3 {
        for event in &events {
            shell.tray_event(event, None);
            if round == 1 {
                shell.window_event(&WindowEvent::CloseRequested, None);
            }
            if round == 2 {
                shell.minimize(None);
            }
            let window = shell.window().unwrap();
            assert!(!window.decorated);
            assert!(!window.fullscreen);
            assert!(!window.visible || window.always_on_top);
            assert!(matches!(shell, Shell::Running { close_pending: false, .. }));
        }
    }
}

#[test]
fn startup_aborts_without_a_main_window() {
    assert_eq!(Shell::start(None, None), Shell::Aborted);
    assert_eq!(Shell::start(None, Some(0)), Shell::Aborted);
}

#[test]
fn startup_aborts_on_any_refused_call() {
    for step in 0..4 {
        let shell = Shell::start(Some(fresh()), Some(step));
        assert_eq!(shell, Shell::Aborted);
        assert!(!shell.is_running());
        assert_eq!(shell.exit_code(), None);
        assert_eq!(shell.window(), None);
    }
    assert_eq!(Shell::start(Some(fresh()), Some(4)), running(ready()));
}

#[test]
fn a_refused_hide_is_fatal() {
    let mut by_menu = started();
    by_menu.tray_event(&click("hide"), Some(0));
    assert_eq!(by_menu, Shell::Aborted);

    let mut by_command = started();
    by_command.minimize(Some(0));
    assert_eq!(by_command, Shell::Aborted);

    let mut by_close = started();
    by_close.window_event(&WindowEvent::CloseRequested, Some(0));
    assert_eq!(by_close, Shell::Aborted);
}

#[test]
fn each_refused_call_of_show_is_fatal() {
    for step in 0..3 {
        let mut shell = started();
        shell.tray_event(&click("show"), Some(step));
        assert_eq!(shell, Shell::Aborted);
    }
    let mut shell = started();
    shell.tray_event(&click("show"), Some(3));
    assert_eq!(shell, running(WindowState { centered: true, ..ready() }));
}

#[test]
fn each_refused_call_of_a_restoring_left_click_is_fatal() {
    for step in 0..3 {
        let mut shell = running(WindowState { visible: false, ..ready() });
        shell.tray_event(&TrayEvent::LeftClick, Some(step));
        assert_eq!(shell, Shell::Aborted);
    }
}

#[test]
fn a_refused_visibility_query_is_fatal() {
    let mut shell = started();
    shell.tray_event(&TrayEvent::LeftClick, Some(0));
    assert_eq!(shell, Shell::Aborted);
}

#[test]
fn calls_that_are_never_reached_cannot_fail() {
    let mut shell = started();
    shell.tray_event(&TrayEvent::LeftClick, Some(1));
    assert_eq!(shell, running(ready()));
    shell.tray_event(&TrayEvent::LeftClick, Some(2));
    assert_eq!(shell, running(ready()));
}

#[test]
fn a_shell_that_has_ended_takes_no_more_events() {
    for ended in [Shell::Exited { code: 0 }, Shell::Exited { code: 3 }, Shell::Aborted, Shell::Closed] {
        let mut shell = ended;
        shell.tray_event(&click("show"), None);
        assert_eq!(shell, ended);
        shell.tray_event(&click("quit"), None);
        assert_eq!(shell, ended);
        shell.tray_event(&TrayEvent::LeftClick, None);
        assert_eq!(shell, ended);
        shell.window_event(&WindowEvent::CloseRequested, None);
        assert_eq!(shell, ended);
        shell.minimize(None);
        assert_eq!(shell, ended);
        assert!(!shell.is_running());
        assert_eq!(shell.window(), None);
    }
}

#[test]
fn step_by_step() {
    let mut shell = running(fresh());
    assert!(shell.step(Step::Call(WindowOp::Show), false));
    assert_eq!(shell, running(WindowState { visible: true, ..fresh() }));
    assert!(!shell.step(Step::OnlyIfHidden, false));
    assert_eq!(shell, running(WindowState { visible: true, ..fresh() }));
    assert!(shell.step(Step::Call(WindowOp::Hide), false));
    assert!(shell.step(Step::OnlyIfHidden, false));
    assert_eq!(shell, running(fresh()));
    assert!(shell.step(Step::PreventClose, true));
    assert_eq!(shell, running(fresh()));
    assert!(!shell.step(Step::Exit(7), true));
    assert_eq!(shell, Shell::Exited { code: 7 });
    assert_eq!(shell.exit_code(), Some(7));
    assert!(!shell.step(Step::Call(WindowOp::Show), false));
    assert_eq!(shell, Shell::Exited { code: 7 });
}

#[test]
fn a_failed_step_aborts() {
    let mut on_call = running(fresh());
    assert!(!on_call.step(Step::Call(WindowOp::Center), true));
    assert_eq!(on_call, Shell::Aborted);

    let mut on_query = running(fresh());
    assert!(!on_query.step(Step::OnlyIfHidden, true));
    assert_eq!(on_query, Shell::Aborted);
}

#[test]
fn prevent_close_clears_a_pending_close() {
    let mut shell = Shell::Running { window: ready(), close_pending: true };
    assert!(shell.step(Step::PreventClose, false));
    assert_eq!(shell, running(ready()));
}

#[test]
fn a_close_that_nothing_prevents_closes_the_window() {
    let mut shell = Shell::Running { window: ready(), close_pending: true };
    shell.window_event(&WindowEvent::Other, None);
    assert_eq!(shell, Shell::Closed);
    assert!(!shell.is_running());
    assert_eq!(shell.exit_code(), None);
}

#[test]
fn run_script_stops_where_the_script_ends_early() {
    let script = vec![
        Step::Call(WindowOp::Center),
        Step::OnlyIfHidden,
        Step::Call(WindowOp::SetDecorations(true)),
    ];
    let mut visible = running(ready());
    visible.run_script(&script, None);
    assert_eq!(visible, running(WindowState { centered: true, ..ready() }));

    let mut hidden = running(WindowState { visible: false, ..ready() });
    hidden.run_script(&script, None);
    assert_eq!(
        hidden,
        running(WindowState { visible: false, centered: true, decorated: true, ..ready() })
    );
}

#[test]
fn run_script_runs_nothing_after_an_exit() {
    let script = vec![Step::Call(WindowOp::Hide), Step::Exit(2), Step::Call(WindowOp::Show)];
    let mut shell = running(ready());
    shell.run_script(&script, Some(2));
    assert_eq!(shell, Shell::Exited { code: 2 });
}

#[test]
fn run_script_of_nothing_changes_nothing() {
    let mut shell = running(ready());
    shell.run_script(&Vec::new(), Some(0));
    assert_eq!(shell, running(ready()));
}

#[test]
fn delivering_an_event_runs_its_script() {
    for window in all_windows() {
        for event in [click("show"), click("hide"), click("quit"), TrayEvent::LeftClick] {
            for fault in [None, Some(0), Some(1), Some(2)] {
                let mut delivered = running(window);
                delivered.tray_event(&event, fault);
                let mut run = running(window);
                run.run_script(&on_tray_event(&event), fault);
                assert_eq!(delivered, run);
            }
        }
        let mut closed = running(window);
        closed.window_event(&WindowEvent::CloseRequested, None);
        let mut run = Shell::Running { window, close_pending: true };
        run.run_script(&on_window_event(&WindowEvent::CloseRequested), None);
        assert_eq!(closed, run);
    }
}
