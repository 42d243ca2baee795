//! The tray menu: three fixed entries, each with an identifier and a label.

use vstd::prelude::*;

verus! {

/// An entry of the tray menu.
#[derive(Clone, Copy, Debug, PartialEq, Eq, Structural)]
pub enum MenuChoice {
    /// Bring the window back.
    Show,
    /// Take the window off screen.
    Hide,
    /// End the process.
    Quit,
}

impl MenuChoice {
    /// The identifier that a click on this entry reports.
    pub open spec fn id_chars(self) -> Seq<char> {
        match self {
            MenuChoice::Show => "show"@,
            MenuChoice::Hide => "hide"@,
            MenuChoice::Quit => "quit"@,
        }
    }

    /// The text that the menu displays for this entry.
    pub open spec fn label_chars(self) -> Seq<char> {
        match self {
            MenuChoice::Show => "Show"@,
            MenuChoice::Hide => "Hide"@,
            MenuChoice::Quit => "Quit"@,
        }
    }

    /// The entry that `id` identifies, if it identifies one.
    pub open spec fn with_id(id: Seq<char>) -> Option<MenuChoice> {
        if id == MenuChoice::Show.id_chars() {
            Some(MenuChoice::Show)
        } else if id == MenuChoice::Hide.id_chars() {
            Some(MenuChoice::Hide)
        } else if id == MenuChoice::Quit.id_chars() {
            Some(MenuChoice::Quit)
        } else {
            None
        }
    }

    /// The identifier of this entry: `"show"`, `"hide"` or `"quit"`.
    pub fn id(self) -> (id: &'static str)
        ensures
            id@ == self.id_chars(),
    {
        match self {
            MenuChoice::Show => "show",
            MenuChoice::Hide => "hide",
            MenuChoice::Quit => "quit",
        }
    }

    /// The label of this entry: `"Show"`, `"Hide"` or `"Quit"`.
    pub fn label(self) -> (label: &'static str)
        ensures
            label@ == self.label_chars(),
    {
        match self {
            MenuChoice::Show => "Show",
            MenuChoice::Hide => "Hide",
            MenuChoice::Quit => "Quit",
        }
    }

    /// Finds the entry with the identifier `id`. Identifiers are matched
    /// exactly; any other string identifies nothing.
    pub fn from_id(id: &str) -> (choice: Option<MenuChoice>)
        ensures
            choice == MenuChoice::with_id(id@),
    {
        let id = id.to_owned();
        if id == MenuChoice::Show.id().to_owned() {
            Some(MenuChoice::Show)
        } else if id == MenuChoice::Hide.id().to_owned() {
            Some(MenuChoice::Hide)
        } else if id == MenuChoice::Quit.id().to_owned() {
            Some(MenuChoice::Quit)
        } else {
            None
        }
    }
}

/// The identifiers of the three entries differ, so an identifier finds an
/// entry exactly if it is that entry's own, and each entry is found again by
/// its identifier.
pub proof fn id_identifies(id: Seq<char>, choice: MenuChoice)
    ensures
        MenuChoice::with_id(id) == Some(choice) <==> id == choice.id_chars(),
        MenuChoice::with_id(choice.id_chars()) == Some(choice),
{
    reveal_strlit("show");
    reveal_strlit("hide");
    reveal_strlit("quit");
    assert("show"@[0] != "hide"@[0]);
    assert("show"@[0] != "quit"@[0]);
    assert("hide"@[0] != "quit"@[0]);
}

/// The entries in the order in which the menu displays them: Show, Hide, Quit.
pub open spec fn tray_menu_entries() -> Seq<MenuChoice> {
    seq![MenuChoice::Show, MenuChoice::Hide, MenuChoice::Quit]
}

/// The entries in the order in which startup makes them: Quit, Hide, Show.
pub open spec fn menu_item_entries() -> Seq<MenuChoice> {
    seq![MenuChoice::Quit, MenuChoice::Hide, MenuChoice::Show]
}

/// The three menu items in the order in which startup makes them, which is
/// not the order of display.
pub fn menu_items() -> (items: Vec<MenuChoice>)
    ensures
        items@ == menu_item_entries(),
{
    let mut items: Vec<MenuChoice> = Vec::new();
    items.push(MenuChoice::Quit);
    items.push(MenuChoice::Hide);
    items.push(MenuChoice::Show);
    items
}

/// The tray menu: the three entries in the order of display.
pub fn tray_menu() -> (menu: Vec<MenuChoice>)
    ensures
        menu@ == tray_menu_entries(),
{
    let mut menu: Vec<MenuChoice> = Vec::new();
    menu.push(MenuChoice::Show);
    menu.push(MenuChoice::Hide);
    menu.push(MenuChoice::Quit);
    menu
}

} // verus!
