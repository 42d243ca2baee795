//! What the tray and the window report to the controller.

use vstd::prelude::*;
use crate::menu::MenuChoice;

verus! {

/// An event of the tray icon.
#[derive(Debug, PartialEq, Eq)]
pub enum TrayEvent {
    /// An entry of the tray menu was clicked; `id` is the identifier that
    /// the entry was made with.
    MenuItemClick { id: String },
    /// The tray icon itself was clicked with the left button.
    LeftClick,
    /// Anything else the tray reports, such as a right or a double click.
    Other,
}

/// An event of the window.
#[derive(Clone, Copy, Debug, PartialEq, Eq, Structural)]
pub enum WindowEvent {
    /// The user asked to close the window. Unless the close is prevented,
    /// the platform closes the window when the handler returns.
    CloseRequested,
    /// Anything else the window reports.
    Other,
}

impl Clone for TrayEvent {
    fn clone(&self) -> (copy: TrayEvent)
        ensures
            copy == *self,
    {
        match self {
            TrayEvent::MenuItemClick { id } => TrayEvent::MenuItemClick { id: id.clone() },
            TrayEvent::LeftClick => TrayEvent::LeftClick,
            TrayEvent::Other => TrayEvent::Other,
        }
    }
}

impl TrayEvent {
    /// The menu entry that this event is a click on, if it is one.
    pub open spec fn chosen(self) -> Option<MenuChoice> {
        match self {
            TrayEvent::MenuItemClick { id } => MenuChoice::with_id(id@),
            _ => None,
        }
    }

    /// This event is a click on the entry Quit.
    pub open spec fn is_quit(self) -> bool {
        self.chosen() == Some(MenuChoice::Quit)
    }
}

} // verus!
