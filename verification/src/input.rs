use vstd::prelude::*;

use crate::labels::{last_error, spec_last_error};
use crate::model::{Action, ClickPosition, KeyModifiers};

verus! {

/// A platform's way of performing actions. Its answer depends on the desktop; a failure
/// is reported as a message.
pub trait InputBackend {
    /// Performs the action once, at the position for a mouse click if one is given.
    fn perform(&mut self, action: Action, position: Option<ClickPosition>) -> Result<(), String>;
}

/// X11 keysyms of the modifier keys that a recorded combination holds down.
pub const XK_SHIFT_L: u64 = 0xffe1;
pub const XK_CONTROL_L: u64 = 0xffe3;
pub const XK_ALT_L: u64 = 0xffe9;
pub const XK_SUPER_L: u64 = 0xffeb;

/// Windows virtual-key codes of the modifier keys that a recorded combination holds down.
pub const VK_CONTROL: u16 = 0x11;
pub const VK_SHIFT: u16 = 0x10;
pub const VK_MENU: u16 = 0x12;
pub const VK_LWIN: u16 = 0x5b;

/// One step of performing an action through X11 and its XTest extension. Each step that
/// the server rejects ends the action with an error; the later steps are not taken.
#[derive(Clone, Copy, Debug, PartialEq, Eq, Structural)]
pub enum X11Step {
    /// Move the pointer to the position and flush.
    MoveTo(ClickPosition),
    /// Press and release a mouse button (1 left, 2 middle, 3 right) and flush.
    Click(u32),
    /// Press or release the key of a keysym.
    Key { keysym: u64, pressed: bool },
    /// Flush the requests to the server.
    Flush,
}

/// `steps` when `present`, else nothing.
pub open spec fn steps_if<T>(present: bool, steps: Seq<T>) -> Seq<T> {
    if present {
        steps
    } else {
        Seq::empty()
    }
}

/// The X11 modifier presses of a combination: Shift, Control, Alt, Super.
pub open spec fn x11_modifier_presses(m: KeyModifiers) -> Seq<X11Step> {
    steps_if(m.shift, seq![X11Step::Key { keysym: XK_SHIFT_L, pressed: true }]) + steps_if(
        m.control,
        seq![X11Step::Key { keysym: XK_CONTROL_L, pressed: true }],
    ) + steps_if(m.alt, seq![X11Step::Key { keysym: XK_ALT_L, pressed: true }]) + steps_if(
        m.super_key,
        seq![X11Step::Key { keysym: XK_SUPER_L, pressed: true }],
    )
}

/// The X11 modifier releases of a combination, in the reverse order: Super, Alt,
/// Control, Shift.
pub open spec fn x11_modifier_releases(m: KeyModifiers) -> Seq<X11Step> {
    steps_if(m.super_key, seq![X11Step::Key { keysym: XK_SUPER_L, pressed: false }]) + steps_if(
        m.alt,
        seq![X11Step::Key { keysym: XK_ALT_L, pressed: false }],
    ) + steps_if(m.control, seq![X11Step::Key { keysym: XK_CONTROL_L, pressed: false }])
        + steps_if(m.shift, seq![X11Step::Key { keysym: XK_SHIFT_L, pressed: false }])
}

/// How an action is performed through X11: a mouse click moves to the fixed position
/// first, if there is one, then clicks its button; a key holds its modifiers, presses
/// and releases the key, releases the modifiers in reverse order and flushes.
pub open spec fn spec_x11_steps(action: Action, position: Option<ClickPosition>) -> Seq<X11Step> {
    let moves = match position {
        Some(p) => if !(action is Key) {
            seq![X11Step::MoveTo(p)]
        } else {
            Seq::empty()
        },
        None => Seq::empty(),
    };
    moves + match action {
        Action::LeftClick => seq![X11Step::Click(1)],
        Action::MiddleClick => seq![X11Step::Click(2)],
        Action::RightClick => seq![X11Step::Click(3)],
        Action::Key { keysym, modifiers } => x11_modifier_presses(modifiers) + seq![
            X11Step::Key { keysym, pressed: true },
            X11Step::Key { keysym, pressed: false },
        ] + x11_modifier_releases(modifiers) + seq![X11Step::Flush],
    }
}

/// The steps that perform an action through X11.
pub fn x11_steps(action: Action, position: Option<ClickPosition>) -> (r: Vec<X11Step>)
    ensures
        r@ == spec_x11_steps(action, position),
{
    let mut steps: Vec<X11Step> = Vec::new();
    if action.is_mouse_click() {
        if let Some(p) = position {
            steps.push(X11Step::MoveTo(p));
        }
    }
    match action {
        Action::LeftClick => steps.push(X11Step::Click(1)),
        Action::MiddleClick => steps.push(X11Step::Click(2)),
        Action::RightClick => steps.push(X11Step::Click(3)),
        Action::Key { keysym, modifiers } => {
            if modifiers.shift {
                steps.push(X11Step::Key { keysym: XK_SHIFT_L, pressed: true });
            }
            if modifiers.control {
                steps.push(X11Step::Key { keysym: XK_CONTROL_L, pressed: true });
            }
            if modifiers.alt {
                steps.push(X11Step::Key { keysym: XK_ALT_L, pressed: true });
            }
            if modifiers.super_key {
                steps.push(X11Step::Key { keysym: XK_SUPER_L, pressed: true });
            }
            steps.push(X11Step::Key { keysym, pressed: true });
            steps.push(X11Step::Key { keysym, pressed: false });
            if modifiers.super_key {
                steps.push(X11Step::Key { keysym: XK_SUPER_L, pressed: false });
            }
            if modifiers.alt {
                steps.push(X11Step::Key { keysym: XK_ALT_L, pressed: false });
            }
            if modifiers.control {
                steps.push(X11Step::Key { keysym: XK_CONTROL_L, pressed: false });
            }
            if modifiers.shift {
                steps.push(X11Step::Key { keysym: XK_SHIFT_L, pressed: false });
            }
            steps.push(X11Step::Flush);
        },
    }
    proof {
        assert(steps@ =~= spec_x11_steps(action, position));
    }
    steps
}

/// A mouse button as Windows input names it.
#[derive(Clone, Copy, Debug, PartialEq, Eq, Structural)]
pub enum MouseButton {
    Left,
    Middle,
    Right,
}

/// One synthetic input event for Windows' `SendInput`.
#[derive(Clone, Copy, Debug, PartialEq, Eq, Structural)]
pub enum WindowsInput {
    /// A mouse button going down or up.
    Mouse { button: MouseButton, released: bool },
    /// A key going down or up; `extended` marks the keys from Page Up to Delete, which
    /// Windows reads as extended keys.
    Keyboard { virtual_key: u16, released: bool, extended: bool },
}

/// How an action is performed on Windows: move the pointer first (mouse clicks at a
/// fixed position), then send all inputs in one call.
pub struct WindowsPlan {
    pub move_to: Option<ClickPosition>,
    pub inputs: Vec<WindowsInput>,
}

/// The message for a key that Windows cannot send.
pub open spec fn invalid_key_message() -> Seq<char> {
    "The recorded key is not valid on Windows"@
}

/// The keyboard input of a key going down or up.
pub open spec fn key_input(virtual_key: u16, released: bool) -> WindowsInput {
    WindowsInput::Keyboard {
        virtual_key,
        released,
        extended: 0x21 <= virtual_key <= 0x2e,
    }
}

/// The Windows modifier presses of a combination: Ctrl, Shift, Alt, Windows.
pub open spec fn windows_modifier_presses(m: KeyModifiers) -> Seq<WindowsInput> {
    steps_if(m.control, seq![key_input(VK_CONTROL, false)]) + steps_if(
        m.shift,
        seq![key_input(VK_SHIFT, false)],
    ) + steps_if(m.alt, seq![key_input(VK_MENU, false)]) + steps_if(
        m.super_key,
        seq![key_input(VK_LWIN, false)],
    )
}

/// The Windows modifier releases of a combination, in the reverse order.
pub open spec fn windows_modifier_releases(m: KeyModifiers) -> Seq<WindowsInput> {
    steps_if(m.super_key, seq![key_input(VK_LWIN, true)]) + steps_if(
        m.alt,
        seq![key_input(VK_MENU, true)],
    ) + steps_if(m.shift, seq![key_input(VK_SHIFT, true)]) + steps_if(
        m.control,
        seq![key_input(VK_CONTROL, true)],
    )
}

/// The plan for an action on Windows: a mouse click moves to the fixed position, if
/// there is one, and sends its button down and up; a key must be a virtual-key code from
/// 1 to 255, and holds its modifiers around its press and release.
pub open spec fn spec_windows_plan(action: Action, position: Option<ClickPosition>) -> Result<
    (Option<ClickPosition>, Seq<WindowsInput>),
    Seq<char>,
> {
    match action {
        Action::LeftClick => Ok(
            (
                position,
                seq![
                    WindowsInput::Mouse { button: MouseButton::Left, released: false },
                    WindowsInput::Mouse { button: MouseButton::Left, released: true },
                ],
            ),
        ),
        Action::MiddleClick => Ok(
            (
                position,
                seq![
                    WindowsInput::Mouse { button: MouseButton::Middle, released: false },
                    WindowsInput::Mouse { button: MouseButton::Middle, released: true },
                ],
            ),
        ),
        Action::RightClick => Ok(
            (
                position,
                seq![
                    WindowsInput::Mouse { button: MouseButton::Right, released: false },
                    WindowsInput::Mouse { button: MouseButton::Right, released: true },
                ],
            ),
        ),
        Action::Key { keysym, modifiers } => if 1 <= keysym <= 255 {
            Ok(
                (
                    None,
                    windows_modifier_presses(modifiers) + seq![
                        key_input(keysym as u16, false),
                        key_input(keysym as u16, true),
                    ] + windows_modifier_releases(modifiers),
                ),
            )
        } else {
            Err(invalid_key_message())
        },
    }
}

fn push_key(inputs: &mut Vec<WindowsInput>, virtual_key: u16, released: bool)
    ensures
        final(inputs)@ == old(inputs)@.push(key_input(virtual_key, released)),
{
    inputs.push(
        WindowsInput::Keyboard {
            virtual_key,
            released,
            extended: 0x21 <= virtual_key && virtual_key <= 0x2e,
        },
    );
}

/// Plans how to perform an action on Windows, or says why it cannot be.
pub fn windows_plan(action: Action, position: Option<ClickPosition>) -> (r: Result<
    WindowsPlan,
    String,
>)
    ensures
        match (r, spec_windows_plan(action, position)) {
            (Ok(plan), Ok((move_to, inputs))) => plan.move_to == move_to && plan.inputs@
                == inputs,
            (Err(message), Err(expected)) => message@ == expected,
            _ => false,
        },
{
    let button = match action {
        Action::LeftClick => MouseButton::Left,
        Action::MiddleClick => MouseButton::Middle,
        Action::RightClick => MouseButton::Right,
        Action::Key { keysym, modifiers } => {
            if keysym == 0 || keysym > 255 {
                return Err(String::from_str("The recorded key is not valid on Windows"));
            }
            let key = keysym as u16;
            let mut inputs: Vec<WindowsInput> = Vec::new();
            if modifiers.control {
                push_key(&mut inputs, VK_CONTROL, false);
            }
            if modifiers.shift {
                push_key(&mut inputs, VK_SHIFT, false);
            }
            if modifiers.alt {
                push_key(&mut inputs, VK_MENU, false);
            }
            if modifiers.super_key {
                push_key(&mut inputs, VK_LWIN, false);
            }
            push_key(&mut inputs, key, false);
            push_key(&mut inputs, key, true);
            if modifiers.super_key {
                push_key(&mut inputs, VK_LWIN, true);
            }
            if modifiers.alt {
                push_key(&mut inputs, VK_MENU, true);
            }
            if modifiers.shift {
                push_key(&mut inputs, VK_SHIFT, true);
            }
            if modifiers.control {
                push_key(&mut inputs, VK_CONTROL, true);
            }
            proof {
                let expected = windows_modifier_presses(modifiers) + seq![
                    key_input(keysym as u16, false),
                    key_input(keysym as u16, true),
                ] + windows_modifier_releases(modifiers);
                assert(inputs@ =~= expected);
            }
            return Ok(WindowsPlan { move_to: None, inputs });
        },
    };
    let mut inputs: Vec<WindowsInput> = Vec::new();
    inputs.push(WindowsInput::Mouse { button, released: false });
    inputs.push(WindowsInput::Mouse { button, released: true });
    proof {
        match spec_windows_plan(action, position) {
            Ok((_, expected)) => assert(inputs@ =~= expected),
            Err(_) => {},
        }
    }
    Ok(WindowsPlan { move_to: position, inputs })
}

/// The answer to a batch of inputs handed to Windows: success exactly when Windows
/// accepted every one of them, and otherwise the blocked-input message with the error
/// code that Windows reported.
pub fn send_outcome(accepted: u32, requested: usize, error_code: u32) -> (r: Result<(), String>)
    ensures
        r is Ok <==> accepted == requested,
        r matches Err(message) ==> message@ == spec_last_error(
            "Windows blocked the simulated input"@,
            error_code,
        ),
{
    if accepted as usize == requested {
        Ok(())
    } else {
        Err(last_error("Windows blocked the simulated input", error_code))
    }
}

/// The release of a key step: the same key, going up.
pub open spec fn x11_release_of(step: X11Step) -> X11Step {
    match step {
        X11Step::Key { keysym, .. } => X11Step::Key { keysym, pressed: false },
        _ => step,
    }
}

/// The release of a keyboard input: the same key, going up.
pub open spec fn windows_release_of(input: WindowsInput) -> WindowsInput {
    match input {
        WindowsInput::Keyboard { virtual_key, .. } => key_input(virtual_key, true),
        _ => input,
    }
}

/// A combination lets go of its modifiers in the reverse order of holding them, on X11
/// and on Windows alike, so that every held modifier is released.
pub proof fn lemma_modifiers_released_in_reverse(m: KeyModifiers)
    ensures
        x11_modifier_releases(m) == x11_modifier_presses(m).reverse().map_values(
            |s: X11Step| x11_release_of(s),
        ),
        windows_modifier_releases(m) == windows_modifier_presses(m).reverse().map_values(
            |i: WindowsInput| windows_release_of(i),
        ),
{
    assert(x11_modifier_releases(m) =~= x11_modifier_presses(m).reverse().map_values(
        |s: X11Step| x11_release_of(s),
    ));
    assert(windows_modifier_releases(m) =~= windows_modifier_presses(m).reverse().map_values(
        |i: WindowsInput| windows_release_of(i),
    ));
}

/// A mouse click on Windows presses and then releases the button that the action names,
/// the same button that X11 clicks (1 left, 2 middle, 3 right), at the fixed position if
/// there is one.
pub proof fn lemma_clicks_use_the_named_button(position: Option<ClickPosition>)
    ensures
        spec_windows_plan(Action::LeftClick, position) == Ok::<
            (Option<ClickPosition>, Seq<WindowsInput>),
            Seq<char>,
        >(
            (
                position,
                seq![
                    WindowsInput::Mouse { button: MouseButton::Left, released: false },
                    WindowsInput::Mouse { button: MouseButton::Left, released: true },
                ],
            ),
        ),
        spec_windows_plan(Action::MiddleClick, position) == Ok::<
            (Option<ClickPosition>, Seq<WindowsInput>),
            Seq<char>,
        >(
            (
                position,
                seq![
                    WindowsInput::Mouse { button: MouseButton::Middle, released: false },
                    WindowsInput::Mouse { button: MouseButton::Middle, released: true },
                ],
            ),
        ),
        spec_windows_plan(Action::RightClick, position) == Ok::<
            (Option<ClickPosition>, Seq<WindowsInput>),
            Seq<char>,
        >(
            (
                position,
                seq![
                    WindowsInput::Mouse { button: MouseButton::Right, released: false },
                    WindowsInput::Mouse { button: MouseButton::Right, released: true },
                ],
            ),
        ),
        spec_x11_steps(Action::LeftClick, None) == seq![X11Step::Click(1)],
        spec_x11_steps(Action::MiddleClick, None) == seq![X11Step::Click(2)],
        spec_x11_steps(Action::RightClick, None) == seq![X11Step::Click(3)],
{
    assert(spec_x11_steps(Action::LeftClick, None) =~= seq![X11Step::Click(1)]);
    assert(spec_x11_steps(Action::MiddleClick, None) =~= seq![X11Step::Click(2)]);
    assert(spec_x11_steps(Action::RightClick, None) =~= seq![X11Step::Click(3)]);
}

} // verus!
