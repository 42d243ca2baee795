//! The handlers: for each event, the script that answers it.

use vstd::prelude::*;
use crate::event::{TrayEvent, WindowEvent};
use crate::menu::MenuChoice;
use crate::script::{
    close_script, hide_script, quit_script, restore_script, setup_script, show_script, Step,
};
use crate::window::WindowOp;

verus! {

/// The script for a click on a menu entry, or for a click that names no entry.
pub open spec fn menu_script(choice: Option<MenuChoice>) -> Seq<Step> {
    match choice {
        Some(MenuChoice::Show) => show_script(),
        Some(MenuChoice::Hide) => hide_script(),
        Some(MenuChoice::Quit) => quit_script(),
        None => Seq::empty(),
    }
}

/// The script that answers a tray event.
pub open spec fn tray_script(event: TrayEvent) -> Seq<Step> {
    match event {
        TrayEvent::MenuItemClick { id } => menu_script(MenuChoice::with_id(id@)),
        TrayEvent::LeftClick => restore_script(),
        TrayEvent::Other => Seq::empty(),
    }
}

/// The script that answers a window event.
pub open spec fn window_script(event: WindowEvent) -> Seq<Step> {
    match event {
        WindowEvent::CloseRequested => close_script(),
        WindowEvent::Other => Seq::empty(),
    }
}

/// The name under which the one window of the application is registered.
pub fn main_window() -> (label: &'static str)
    ensures
        label@ == "main"@,
{
    "main"
}

/// The script to run once at startup, on the window named by
/// [`main_window`]: no decorations, always on top, not fullscreen, and then
/// visible. A missing window is as fatal as a refused call.
pub fn setup() -> (script: Vec<Step>)
    ensures
        script@ == setup_script(),
{
    let mut script: Vec<Step> = Vec::new();
    script.push(Step::Call(WindowOp::SetDecorations(false)));
    script.push(Step::Call(WindowOp::SetAlwaysOnTop(true)));
    script.push(Step::Call(WindowOp::SetFullscreen(false)));
    script.push(Step::Call(WindowOp::Show));
    script
}

/// The command that the user interface invokes to send the window to the
/// tray: hide the window.
pub fn minimize_to_tray() -> (script: Vec<Step>)
    ensures
        script@ == hide_script(),
{
    let mut script: Vec<Step> = Vec::new();
    script.push(Step::Call(WindowOp::Hide));
    script
}

/// Answers a tray event.
///
/// A click on Quit ends the process with exit code 0. A click on Hide hides
/// the window. A click on Show shows the window, pins it on top again and
/// centres it, whether or not it was visible. A click with an unknown
/// identifier does nothing. A left click on the icon restores a hidden
/// window and leaves a visible one alone. Every other event does nothing.
pub fn on_tray_event(event: &TrayEvent) -> (script: Vec<Step>)
    ensures
        script@ == tray_script(*event),
{
    let mut script: Vec<Step> = Vec::new();
    match event {
        TrayEvent::MenuItemClick { id } => {
            match MenuChoice::from_id(id.as_str()) {
                Some(MenuChoice::Quit) => {
                    script.push(Step::Exit(0));
                },
                Some(MenuChoice::Hide) => {
                    script.push(Step::Call(WindowOp::Hide));
                },
                Some(MenuChoice::Show) => {
                    script.push(Step::Call(WindowOp::Show));
                    script.push(Step::Call(WindowOp::SetAlwaysOnTop(true)));
                    script.push(Step::Call(WindowOp::Center));
                },
                None => {},
            }
        },
        TrayEvent::LeftClick => {
            script.push(Step::OnlyIfHidden);
            script.push(Step::Call(WindowOp::Show));
            script.push(Step::Call(WindowOp::SetAlwaysOnTop(true)));
        },
        TrayEvent::Other => {},
    }
    script
}

/// Answers a window event.
///
/// A close request never closes the window: the window is hidden and the
/// close is prevented. Every other event does nothing.
pub fn on_window_event(event: &WindowEvent) -> (script: Vec<Step>)
    ensures
        script@ == window_script(*event),
{
    let mut script: Vec<Step> = Vec::new();
    match event {
        WindowEvent::CloseRequested => {
            script.push(Step::Call(WindowOp::Hide));
            script.push(Step::PreventClose);
        },
        WindowEvent::Other => {},
    }
    script
}

} // verus!
