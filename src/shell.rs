//! The tray menu, the global hotkey, and the controller that turns their
//! events into actions on the main window.

use crate::keys::same_text;
use vstd::prelude::*;

verus! {

/// An item of the tray menu.
#[derive(PartialEq, Eq, Structural, Clone, Copy, Debug)]
pub enum MenuItemId {
    Show,
    Quit,
}

impl MenuItemId {
    /// The identifier the toolkit reports when the item is chosen.
    pub fn id(self) -> (r: &'static str)
        ensures
            r@ == menu_id_text(self),
    {
        match self {
            MenuItemId::Show => "show",
            MenuItemId::Quit => "quit",
        }
    }

    /// The label shown in the menu.
    pub fn label(self) -> (r: &'static str)
        ensures
            self == MenuItemId::Show ==> r@ == "Mostrar"@,
            self == MenuItemId::Quit ==> r@ == "Salir"@,
    {
        match self {
            MenuItemId::Show => "Mostrar",
            MenuItemId::Quit => "Salir",
        }
    }

    /// The item that a menu identifier names, if any.
    pub fn from_id(id: &str) -> (r: Option<MenuItemId>)
        ensures
            r == menu_item_of(id@),
    {
        if same_text(id, MenuItemId::Show.id()) {
            Some(MenuItemId::Show)
        } else if same_text(id, MenuItemId::Quit.id()) {
            Some(MenuItemId::Quit)
        } else {
            None
        }
    }
}

/// The identifier of a menu item.
pub open spec fn menu_id_text(m: MenuItemId) -> Seq<char> {
    match m {
        MenuItemId::Show => "show"@,
        MenuItemId::Quit => "quit"@,
    }
}

/// The menu item that an identifier names.
pub open spec fn menu_item_of(id: Seq<char>) -> Option<MenuItemId> {
    if id == "show"@ {
        Some(MenuItemId::Show)
    } else if id == "quit"@ {
        Some(MenuItemId::Quit)
    } else {
        None
    }
}

/// The tray menu, top to bottom.
pub fn tray_menu() -> (r: Vec<MenuItemId>)
    ensures
        r@ == seq![MenuItemId::Show, MenuItemId::Quit],
{
    let mut r: Vec<MenuItemId> = Vec::new();
    r.push(MenuItemId::Show);
    r.push(MenuItemId::Quit);
    assert(r@ == seq![MenuItemId::Show, MenuItemId::Quit]);
    r
}

/// The tray icon's tooltip.
pub fn tray_tooltip() -> (r: &'static str)
    ensures
        r@ == "Antigravity Voice"@,
{
    "Antigravity Voice"
}

/// The name of the notification sent to the window when the hotkey fires.
pub fn start_dictation_event() -> (r: &'static str)
    ensures
        r@ == "start-dictation"@,
{
    "start-dictation"
}

/// The physical key of the global hotkey.
#[derive(PartialEq, Eq, Structural, Clone, Copy, Debug)]
pub enum HotkeyCode {
    Space,
}

/// A global hotkey: the modifiers held and the key pressed.
#[derive(PartialEq, Eq, Structural, Clone, Copy, Debug)]
pub struct Hotkey {
    pub control: bool,
    pub shift: bool,
    pub alt: bool,
    pub super_key: bool,
    pub code: HotkeyCode,
}

/// The hotkey that reveals the window and starts dictation: Control+Super+Space.
pub fn dictation_hotkey() -> (r: Hotkey)
    ensures
        r.control && r.super_key && !r.shift && !r.alt,
        r.code == HotkeyCode::Space,
{
    Hotkey { control: true, shift: false, alt: false, super_key: true, code: HotkeyCode::Space }
}

/// A mouse button on the tray icon.
#[derive(PartialEq, Eq, Structural, Clone, Copy, Debug)]
pub enum MouseButton {
    Left,
    Right,
    Middle,
}

/// Whether a mouse button went down or came up.
#[derive(PartialEq, Eq, Structural, Clone, Copy, Debug)]
pub enum ButtonState {
    Up,
    Down,
}

/// An event that reaches the controller.
#[derive(PartialEq, Eq, Debug)]
pub enum ShellEvent {
    /// A tray menu item was chosen; the toolkit's identifier of the item.
    Menu(String),
    /// The tray icon was clicked.
    TrayClick { button: MouseButton, state: ButtonState },
    /// The global hotkey fired.
    Hotkey,
}

/// An action on the main window or the process.
#[derive(PartialEq, Eq, Structural, Clone, Copy, Debug)]
pub enum Effect {
    ShowWindow,
    FocusWindow,
    /// Send the start-dictation notification to the window.
    StartDictation,
    /// End the process with this exit code.
    Exit(i32),
}

/// What the controller knows of the window and whether the process goes on.
#[derive(PartialEq, Eq, Structural, Clone, Copy, Debug)]
pub struct Shell {
    pub visible: bool,
    pub focused: bool,
    pub running: bool,
}

/// Shows and focuses the window.
pub open spec fn reveal_effects() -> Seq<Effect> {
    seq![Effect::ShowWindow, Effect::FocusWindow]
}

/// The state and the actions that follow event `e` in state `s`. Once the
/// process is ending nothing more happens.
pub open spec fn shell_step(s: Shell, e: ShellEvent) -> (Shell, Seq<Effect>) {
    let shown = Shell { visible: true, focused: true, ..s };
    if !s.running {
        (s, Seq::empty())
    } else {
        match e {
            ShellEvent::Menu(id) => match menu_item_of(id@) {
                Some(MenuItemId::Quit) => (Shell { running: false, ..s }, seq![Effect::Exit(0)]),
                Some(MenuItemId::Show) => (shown, reveal_effects()),
                None => (s, Seq::empty()),
            },
            ShellEvent::TrayClick { button, state } => {
                if button == MouseButton::Left && state == ButtonState::Up {
                    (shown, reveal_effects())
                } else {
                    (s, Seq::empty())
                }
            },
            ShellEvent::Hotkey => (shown, reveal_effects().push(Effect::StartDictation)),
        }
    }
}

impl Shell {
    /// A running controller whose window is shown and focused or not, as the
    /// toolkit started it.
    pub fn new(visible: bool) -> (r: Shell)
        ensures
            r == (Shell { visible, focused: visible, running: true }),
    {
        Shell { visible, focused: visible, running: true }
    }

    fn bring_forward(&mut self) -> (r: Vec<Effect>)
        ensures
            *final(self) == (Shell { visible: true, focused: true, ..*old(self) }),
            r@ == reveal_effects(),
    {
        self.visible = true;
        self.focused = true;
        let mut r: Vec<Effect> = Vec::new();
        r.push(Effect::ShowWindow);
        r.push(Effect::FocusWindow);
        assert(r@ == reveal_effects());
        r
    }

    /// Handles one event and returns the actions to perform, in order.
    pub fn react(&mut self, e: ShellEvent) -> (r: Vec<Effect>)
        ensures
            (*final(self), r@) == shell_step(*old(self), e),
    {
        if !self.running {
            return Vec::new();
        }
        match e {
            ShellEvent::Menu(id) => match MenuItemId::from_id(id.as_str()) {
                Some(MenuItemId::Quit) => {
                    self.running = false;
                    let mut r: Vec<Effect> = Vec::new();
                    r.push(Effect::Exit(0));
                    assert(r@ == seq![Effect::Exit(0)]);
                    r
                },
                Some(MenuItemId::Show) => self.bring_forward(),
                None => Vec::new(),
            },
            ShellEvent::TrayClick { button, state } => {
                if button == MouseButton::Left && state == ButtonState::Up {
                    self.bring_forward()
                } else {
                    Vec::new()
                }
            },
            ShellEvent::Hotkey => {
                let mut r = self.bring_forward();
                r.push(Effect::StartDictation);
                r
            },
        }
    }
}

} // verus!
