//! The rules of the tray icon: what its menu holds, and what a menu choice
//! or a click on the icon does to the main window.

use crate::readiness::matches_at;
use vstd::prelude::*;

verus! {

/// An entry of the tray menu.
#[derive(Clone, Copy, Debug, PartialEq, Eq, Structural)]
pub enum MenuChoice {
    Quit,
    ToggleVisibility,
    AccessoryMode,
    /// An identifier that the menu does not hold.
    Unknown,
}

/// One thing for the caller to do to the main window or the shell.
#[derive(Clone, Copy, Debug, PartialEq, Eq, Structural)]
pub enum TrayAction {
    /// End the shell with this exit code.
    Exit { code: i32 },
    ShowMain,
    FocusMain,
    HideMain,
    /// Show the shell in the dock.
    DockRegular,
    /// Remove the shell from the dock.
    DockAccessory,
}

/// The identifier `quit` in ASCII.
pub open spec fn quit_id() -> Seq<u8> {
    seq![113u8, 117u8, 105u8, 116u8]
}

/// The identifier `toggle_visibility` in ASCII.
pub open spec fn toggle_visibility_id() -> Seq<u8> {
    seq![116u8, 111u8, 103u8, 103u8, 108u8, 101u8, 95u8, 118u8, 105u8, 115u8, 105u8, 98u8, 105u8,
        108u8, 105u8, 116u8, 121u8]
}

/// The identifier `accessory_mode` in ASCII.
pub open spec fn accessory_mode_id() -> Seq<u8> {
    seq![97u8, 99u8, 99u8, 101u8, 115u8, 115u8, 111u8, 114u8, 121u8, 95u8, 109u8, 111u8, 100u8,
        101u8]
}

/// The menu entry that an identifier names.
pub open spec fn choice_of(id: Seq<u8>) -> MenuChoice {
    if id == quit_id() {
        MenuChoice::Quit
    } else if id == toggle_visibility_id() {
        MenuChoice::ToggleVisibility
    } else if id == accessory_mode_id() {
        MenuChoice::AccessoryMode
    } else {
        MenuChoice::Unknown
    }
}

/// The entries of the menu from top to bottom. Only macOS has a dock to
/// leave.
pub open spec fn layout_of(macos: bool) -> Seq<MenuChoice> {
    if macos {
        seq![MenuChoice::ToggleVisibility, MenuChoice::AccessoryMode, MenuChoice::Quit]
    } else {
        seq![MenuChoice::ToggleVisibility, MenuChoice::Quit]
    }
}

/// Bringing the main window to the front.
pub open spec fn raise_actions(macos: bool) -> Seq<TrayAction> {
    if macos {
        seq![TrayAction::ShowMain, TrayAction::FocusMain, TrayAction::DockRegular]
    } else {
        seq![TrayAction::ShowMain, TrayAction::FocusMain]
    }
}

/// Putting the main window away.
pub open spec fn lower_actions(macos: bool) -> Seq<TrayAction> {
    if macos {
        seq![TrayAction::HideMain, TrayAction::DockAccessory]
    } else {
        seq![TrayAction::HideMain]
    }
}

/// What a menu choice does. `main_visible` is `None` when there is no main
/// window.
pub open spec fn menu_actions_of(choice: MenuChoice, main_visible: Option<bool>, macos: bool) -> Seq<
    TrayAction,
> {
    match choice {
        MenuChoice::Quit => seq![TrayAction::Exit { code: 0 }],
        MenuChoice::ToggleVisibility => match main_visible {
            Some(visible) => if visible {
                lower_actions(macos)
            } else {
                raise_actions(macos)
            },
            None => seq![],
        },
        MenuChoice::AccessoryMode => if macos {
            seq![TrayAction::DockAccessory]
        } else {
            seq![]
        },
        MenuChoice::Unknown => seq![],
    }
}

/// What a click on the icon does: the release of the left button brings the
/// main window to the front, if there is one.
pub open spec fn click_actions_of(left: bool, released: bool, main_exists: bool, macos: bool) -> Seq<
    TrayAction,
> {
    if left && released && main_exists {
        raise_actions(macos)
    } else {
        seq![]
    }
}

fn same_bytes(a: &[u8], b: &[u8]) -> (same: bool)
    ensures
        same == (a@ == b@),
{
    if a.len() != b.len() {
        return false;
    }
    let same = matches_at(a, b, 0);
    assert(a@.subrange(0, b@.len() as int) =~= a@);
    same
}

/// Reads the identifier of a menu event.
pub fn menu_choice(id: &[u8]) -> (choice: MenuChoice)
    ensures
        choice == choice_of(id@),
{
    let quit: Vec<u8> = vec![113u8, 117u8, 105u8, 116u8];
    let toggle: Vec<u8> = vec![116u8, 111u8, 103u8, 103u8, 108u8, 101u8, 95u8, 118u8, 105u8,
        115u8, 105u8, 98u8, 105u8, 108u8, 105u8, 116u8, 121u8];
    let accessory: Vec<u8> = vec![97u8, 99u8, 99u8, 101u8, 115u8, 115u8, 111u8, 114u8, 121u8,
        95u8, 109u8, 111u8, 100u8, 101u8];
    assert(quit@ =~= quit_id());
    assert(toggle@ =~= toggle_visibility_id());
    assert(accessory@ =~= accessory_mode_id());
    if same_bytes(id, quit.as_slice()) {
        MenuChoice::Quit
    } else if same_bytes(id, toggle.as_slice()) {
        MenuChoice::ToggleVisibility
    } else if same_bytes(id, accessory.as_slice()) {
        MenuChoice::AccessoryMode
    } else {
        MenuChoice::Unknown
    }
}

/// The entries of the menu from top to bottom.
pub fn menu_layout(macos: bool) -> (entries: Vec<MenuChoice>)
    ensures
        entries@ == layout_of(macos),
{
    let mut entries: Vec<MenuChoice> = Vec::new();
    entries.push(MenuChoice::ToggleVisibility);
    if macos {
        entries.push(MenuChoice::AccessoryMode);
    }
    entries.push(MenuChoice::Quit);
    assert(entries@ =~= layout_of(macos));
    entries
}

fn raise(macos: bool) -> (actions: Vec<TrayAction>)
    ensures
        actions@ == raise_actions(macos),
{
    let mut actions: Vec<TrayAction> = Vec::new();
    actions.push(TrayAction::ShowMain);
    actions.push(TrayAction::FocusMain);
    if macos {
        actions.push(TrayAction::DockRegular);
    }
    assert(actions@ =~= raise_actions(macos));
    actions
}

/// What to do for a menu choice, in order.
pub fn menu_actions(choice: MenuChoice, main_visible: Option<bool>, macos: bool) -> (actions: Vec<
    TrayAction,
>)
    ensures
        actions@ == menu_actions_of(choice, main_visible, macos),
{
    let mut actions: Vec<TrayAction> = Vec::new();
    match choice {
        MenuChoice::Quit => {
            actions.push(TrayAction::Exit { code: 0 });
        },
        MenuChoice::ToggleVisibility => {
            match main_visible {
                Some(visible) => {
                    if visible {
                        actions.push(TrayAction::HideMain);
                        if macos {
                            actions.push(TrayAction::DockAccessory);
                        }
                    } else {
                        actions = raise(macos);
                    }
                },
                None => {},
            }
        },
        MenuChoice::AccessoryMode => {
            if macos {
                actions.push(TrayAction::DockAccessory);
            }
        },
        MenuChoice::Unknown => {},
    }
    assert(actions@ =~= menu_actions_of(choice, main_visible, macos));
    actions
}

/// What to do for a click on the icon, in order.
pub fn click_actions(left: bool, released: bool, main_exists: bool, macos: bool) -> (actions: Vec<
    TrayAction,
>)
    ensures
        actions@ == click_actions_of(left, released, main_exists, macos),
{
    if left && released && main_exists {
        raise(macos)
    } else {
        let actions: Vec<TrayAction> = Vec::new();
        assert(actions@ =~= click_actions_of(left, released, main_exists, macos));
        actions
    }
}

} // verus!
