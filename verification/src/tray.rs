//! Visibility of the background tray icon, and what the tray's menu and
//! click events ask of the host.
//!
//! The controller owns one flag. The host keeps the controller behind its
//! lock and hands out `&mut` access for the length of one `toggle`, so a
//! toggle reads the flag, changes the icon and writes the flag back as one
//! step that no other toggle can enter.

use vstd::prelude::*;

verus! {

/// Identifier under which the host registers the tray icon.
pub const TRAY_ID: &'static str = "main";

/// Label of the window that the tray brings to the foreground.
pub const MAIN_WINDOW: &'static str = "main";

/// Identifier of the menu entry that shows the main window.
pub const MENU_SHOW: &'static str = "show";

/// Identifier of the menu entry that ends the process.
pub const MENU_QUIT: &'static str = "quit";

/// Why a tray operation did not take place.
#[derive(Clone, Debug, PartialEq, Eq)]
pub enum TrayError {
    /// The lock that guards the controller could not be acquired.
    LockPoisoned(String),
    /// No tray icon is registered under `TRAY_ID`.
    IconUnavailable,
    /// The windowing backend refused the change.
    Backend(String),
}

impl TrayError {
    /// The text reported to the caller for this error.
    pub open spec fn message_spec(self) -> Seq<char> {
        match self {
            TrayError::LockPoisoned(reason) => reason@,
            TrayError::IconUnavailable => "Tray icon not available"@,
            TrayError::Backend(reason) => reason@,
        }
    }

    pub fn message(&self) -> (text: String)
        ensures
            text@ == self.message_spec(),
    {
        match self {
            TrayError::LockPoisoned(reason) => reason.clone(),
            TrayError::IconUnavailable => "Tray icon not available".to_owned(),
            TrayError::Backend(reason) => reason.clone(),
        }
    }
}

/// The flag after one successful toggle.
pub open spec fn toggled(visible: bool) -> bool {
    !visible
}

/// Owner of the tray icon's `visible` flag.
pub struct TrayController {
    visible: bool,
}

impl View for TrayController {
    type V = bool;

    closed spec fn view(&self) -> bool {
        self.visible
    }
}

impl TrayController {
    /// The controller at process start: the icon is hidden.
    pub fn new() -> (controller: Self)
        ensures
            controller@ == false,
    {
        TrayController { visible: false }
    }

    pub fn is_visible(&self) -> (visible: bool)
        ensures
            visible == self@,
    {
        self.visible
    }

    /// Marks the icon hidden again, whatever the flag held. The host calls
    /// this once its setup has hidden the icon.
    pub fn reset(&mut self)
        ensures
            final(self)@ == false,
    {
        self.visible = false;
    }

    /// One toggle: computes the opposite of the flag, asks
    /// `set_icon_visible` to show or hide the icon accordingly, and stores
    /// the new value only if that succeeded. On failure the flag keeps its
    /// value and the error is handed on unchanged.
    pub fn toggle<F>(&mut self, set_icon_visible: F) -> (result: Result<bool, TrayError>) where
        F: FnOnce(bool) -> Result<(), TrayError>,

        requires
            set_icon_visible.requires((toggled(old(self)@),)),
        ensures
            match result {
                Ok(shown) => {
                    &&& shown == toggled(old(self)@)
                    &&& final(self)@ == shown
                    &&& set_icon_visible.ensures((shown,), Ok(()))
                },
                Err(error) => {
                    &&& final(self)@ == old(self)@
                    &&& set_icon_visible.ensures((toggled(old(self)@),), Err(error))
                },
            },
    {
        let next = !self.visible;
        let outcome = set_icon_visible(next);
        match outcome {
            Ok(done) => {
                assert(outcome == Ok::<(), TrayError>(done));
                self.visible = next;
                Ok(next)
            },
            Err(error) => Err(error),
        }
    }
}

/// The flag of a controller that started at `start`, after `count`
/// successful toggles.
pub open spec fn after_toggles(start: bool, count: nat) -> bool
    decreases count,
{
    if count == 0 {
        start
    } else {
        toggled(after_toggles(start, (count - 1) as nat))
    }
}

/// Starting hidden, the icon is visible after `count` successful toggles
/// exactly when `count` is odd.
pub proof fn law_toggle_parity(count: nat)
    ensures
        after_toggles(false, count) == (count % 2 == 1),
    decreases count,
{
    if count > 0 {
        law_toggle_parity((count - 1) as nat);
    }
}

/// Successive successful toggles return alternating values: each returns
/// the opposite of the one before it, and the first returns the opposite of
/// the starting flag.
pub proof fn law_toggles_alternate(start: bool, count: nat)
    ensures
        after_toggles(start, 1) == !start,
        after_toggles(start, count + 1) == !after_toggles(start, count),
        after_toggles(false, 1) == true,
{
    reveal_with_fuel(after_toggles, 2);
}

/// Two successful toggles, in whichever order the lock admits them, return
/// one `true` and one `false`, and leave the flag as it was.
pub proof fn law_toggle_pair(start: bool)
    ensures
        after_toggles(start, 1) != after_toggles(start, 2),
        after_toggles(start, 2) == start,
{
    reveal_with_fuel(after_toggles, 3);
}

/// A mouse button as the tray reports it.
#[derive(Clone, Copy, Debug, PartialEq, Eq)]
pub enum MouseButton {
    Left,
    Right,
    Middle,
}

/// Whether the button was pressed or released.
#[derive(Clone, Copy, Debug, PartialEq, Eq)]
pub enum ButtonState {
    Up,
    Down,
}

/// What the host does in answer to a tray event. None of these touches the
/// `visible` flag.
#[derive(Clone, Copy, Debug, PartialEq, Eq)]
pub enum TrayAction {
    /// Show the main window and give it the focus.
    ShowMainWindow,
    /// End the process at once.
    Quit,
    /// Nothing to do.
    Ignore,
}

pub open spec fn menu_action_spec(id: Seq<char>) -> TrayAction {
    if id == MENU_SHOW@ {
        TrayAction::ShowMainWindow
    } else if id == MENU_QUIT@ {
        TrayAction::Quit
    } else {
        TrayAction::Ignore
    }
}

fn same_text(a: &str, b: &str) -> (same: bool)
    ensures
        same == (a@ == b@),
{
    let left = a.to_owned();
    let right = b.to_owned();
    left == right
}

/// The action for the menu entry with identifier `id`.
pub fn menu_action(id: &str) -> (action: TrayAction)
    ensures
        action == menu_action_spec(id@),
{
    if same_text(id, MENU_SHOW) {
        TrayAction::ShowMainWindow
    } else if same_text(id, MENU_QUIT) {
        TrayAction::Quit
    } else {
        TrayAction::Ignore
    }
}

pub open spec fn click_action_spec(button: MouseButton, state: ButtonState) -> TrayAction {
    if button == MouseButton::Left && state == ButtonState::Up {
        TrayAction::ShowMainWindow
    } else {
        TrayAction::Ignore
    }
}

/// The action for a click on the tray icon: releasing the left button
/// shows the main window, every other click is ignored.
pub fn click_action(button: MouseButton, state: ButtonState) -> (action: TrayAction)
    ensures
        action == click_action_spec(button, state),
{
    match (button, state) {
        (MouseButton::Left, ButtonState::Up) => TrayAction::ShowMainWindow,
        _ => TrayAction::Ignore,
    }
}

} // verus!
