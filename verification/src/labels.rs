use vstd::prelude::*;

use crate::model::{Action, KeyModifiers};
use crate::text::{
    decimal, hex_pad2, hexadecimal, part_if, push_char, push_decimal, push_hexadecimal,
};

verus! {

/// Whether an X11 keysym is a modifier: Shift, Control, Caps Lock, Shift Lock, Meta,
/// Alt, Super and Hyper (`0xffe1` to `0xffee`) or ISO Level 3 Shift (`0xfe03`, AltGr).
pub open spec fn spec_is_modifier_keysym(keysym: u64) -> bool {
    (0xffe1 <= keysym <= 0xffee) || keysym == 0xfe03
}

/// Whether an X11 keysym is a modifier key. A recorded modifier may be the key itself or
/// the start of a combination, so the GTK window waits for its release.
pub fn is_modifier_keysym(keysym: u64) -> (r: bool)
    ensures
        r == spec_is_modifier_keysym(keysym),
{
    (0xffe1 <= keysym && keysym <= 0xffee) || keysym == 0xfe03
}

/// The GTK label of a recorded key: the held modifiers in the order Ctrl, Alt, Shift,
/// Super, then the key's name, joined by `+`.
pub open spec fn spec_recorded_key_label(key_name: Seq<char>, modifiers: KeyModifiers) -> Seq<
    char,
> {
    part_if(modifiers.control, "Ctrl+"@) + part_if(modifiers.alt, "Alt+"@) + part_if(
        modifiers.shift,
        "Shift+"@,
    ) + part_if(modifiers.super_key, "Super+"@) + key_name
}

/// Labels a key recorded in the GTK window, such as `Ctrl+Shift+c`.
pub fn recorded_key_label(key_name: &str, modifiers: KeyModifiers) -> (r: String)
    ensures
        r@ == spec_recorded_key_label(key_name@, modifiers),
{
    let mut out = String::new();
    if modifiers.control {
        out.append("Ctrl+");
    }
    if modifiers.alt {
        out.append("Alt+");
    }
    if modifiers.shift {
        out.append("Shift+");
    }
    if modifiers.super_key {
        out.append("Super+");
    }
    out.append(key_name);
    proof {
        assert(out@ =~= spec_recorded_key_label(key_name@, modifiers));
    }
    out
}

/// The name the Windows window gives a virtual-key code.
pub open spec fn spec_key_name(key: u32) -> Seq<char> {
    if key == 0x08 {
        "Backspace"@
    } else if key == 0x09 {
        "Tab"@
    } else if key == 0x0d {
        "Enter"@
    } else if key == 0x1b {
        "Escape"@
    } else if key == 0x20 {
        "Space"@
    } else if key == 0x21 {
        "Page Up"@
    } else if key == 0x22 {
        "Page Down"@
    } else if key == 0x23 {
        "End"@
    } else if key == 0x24 {
        "Home"@
    } else if key == 0x25 {
        "Left"@
    } else if key == 0x26 {
        "Up"@
    } else if key == 0x27 {
        "Right"@
    } else if key == 0x28 {
        "Down"@
    } else if key == 0x2d {
        "Insert"@
    } else if key == 0x2e {
        "Delete"@
    } else if (0x30 <= key <= 0x39) || (0x41 <= key <= 0x5a) {
        seq![key as char]
    } else if 0x70 <= key <= 0x87 {
        seq!['F'] + decimal((key - 0x6f) as nat)
    } else if key == 0xba {
        ";"@
    } else if key == 0xbb {
        "="@
    } else if key == 0xbc {
        ","@
    } else if key == 0xbd {
        "-"@
    } else if key == 0xbe {
        "."@
    } else if key == 0xbf {
        "/"@
    } else if key == 0xc0 {
        "`"@
    } else if key == 0xdb {
        "["@
    } else if key == 0xdc {
        "\\"@
    } else if key == 0xdd {
        "]"@
    } else {
        "Key 0x"@ + hex_pad2(key as nat)
    }
}

fn push_key_name(out: &mut String, key: u32)
    ensures
        final(out)@ == old(out)@ + spec_key_name(key),
{
    let ghost before = out@;
    if key == 0x08 {
        out.append("Backspace");
    } else if key == 0x09 {
        out.append("Tab");
    } else if key == 0x0d {
        out.append("Enter");
    } else if key == 0x1b {
        out.append("Escape");
    } else if key == 0x20 {
        out.append("Space");
    } else if key == 0x21 {
        out.append("Page Up");
    } else if key == 0x22 {
        out.append("Page Down");
    } else if key == 0x23 {
        out.append("End");
    } else if key == 0x24 {
        out.append("Home");
    } else if key == 0x25 {
        out.append("Left");
    } else if key == 0x26 {
        out.append("Up");
    } else if key == 0x27 {
        out.append("Right");
    } else if key == 0x28 {
        out.append("Down");
    } else if key == 0x2d {
        out.append("Insert");
    } else if key == 0x2e {
        out.append("Delete");
    } else if (0x30 <= key && key <= 0x39) || (0x41 <= key && key <= 0x5a) {
        let c = (key as u8) as char;
        assert(c == key as char);
        push_char(out, c);
    } else if 0x70 <= key && key <= 0x87 {
        push_char(out, 'F');
        push_decimal(out, (key - 0x6f) as u64);
    } else if key == 0xba {
        out.append(";");
    } else if key == 0xbb {
        out.append("=");
    } else if key == 0xbc {
        out.append(",");
    } else if key == 0xbd {
        out.append("-");
    } else if key == 0xbe {
        out.append(".");
    } else if key == 0xbf {
        out.append("/");
    } else if key == 0xc0 {
        out.append("`");
    } else if key == 0xdb {
        out.append("[");
    } else if key == 0xdc {
        out.append("\\");
    } else if key == 0xdd {
        out.append("]");
    } else {
        out.append("Key 0x");
        if key < 16 {
            push_char(out, '0');
        }
        push_hexadecimal(out, key as u64);
    }
    proof {
        assert(final(out)@ =~= before + spec_key_name(key)) by {
            if (0x70 <= key <= 0x87) {
                assert(final(out)@ =~= before + seq!['F'] + decimal((key - 0x6f) as nat));
            }
            if key < 16 && !(key == 0x08 || key == 0x09 || key == 0x0d) {
                assert(hex_pad2(key as nat) =~= seq!['0'] + hexadecimal(key as nat));
            }
        }
    }
}

/// The Windows label of a key: the held modifiers in the order Ctrl, Shift, Alt,
/// Windows, then the key's name, joined by `+`.
pub open spec fn spec_key_label(key: u32, modifiers: KeyModifiers) -> Seq<char> {
    part_if(modifiers.control, "Ctrl+"@) + part_if(modifiers.shift, "Shift+"@) + part_if(
        modifiers.alt,
        "Alt+"@,
    ) + part_if(modifiers.super_key, "Windows+"@) + spec_key_name(key)
}

/// Labels a key recorded in the Windows window, such as `Ctrl+Shift+C` or `F5`.
pub fn key_label(key: u32, modifiers: KeyModifiers) -> (r: String)
    ensures
        r@ == spec_key_label(key, modifiers),
{
    let mut out = String::new();
    if modifiers.control {
        out.append("Ctrl+");
    }
    if modifiers.shift {
        out.append("Shift+");
    }
    if modifiers.alt {
        out.append("Alt+");
    }
    if modifiers.super_key {
        out.append("Windows+");
    }
    let ghost prefix = out@;
    push_key_name(&mut out, key);
    proof {
        assert(out@ =~= spec_key_label(key, modifiers));
    }
    out
}

/// How the Windows window names an action. A key's code is read as a 32-bit
/// virtual-key code.
pub open spec fn spec_action_label(action: Action) -> Seq<char> {
    match action {
        Action::LeftClick => "Left mouse click"@,
        Action::MiddleClick => "Middle mouse click"@,
        Action::RightClick => "Right mouse click"@,
        Action::Key { keysym, modifiers } => spec_key_label(keysym as u32, modifiers),
    }
}

/// Names an action for the Windows window and its presets.
pub fn action_label(action: Action) -> (r: String)
    ensures
        r@ == spec_action_label(action),
{
    match action {
        Action::LeftClick => String::from_str("Left mouse click"),
        Action::MiddleClick => String::from_str("Middle mouse click"),
        Action::RightClick => String::from_str("Right mouse click"),
        Action::Key { keysym, modifiers } => key_label(keysym as u32, modifiers),
    }
}

/// A Windows failure message: the context alone for error code 0, else the context
/// followed by ` (Windows error CODE)`.
pub open spec fn spec_last_error(context: Seq<char>, code: u32) -> Seq<char> {
    if code == 0 {
        context
    } else {
        context + " (Windows error "@ + decimal(code as nat) + ")"@
    }
}

/// Describes a failed Windows call with the thread's last error code.
pub fn last_error(context: &str, code: u32) -> (r: String)
    ensures
        r@ == spec_last_error(context@, code),
{
    let mut out = String::from_str(context);
    if code != 0 {
        out.append(" (Windows error ");
        push_decimal(&mut out, code as u64);
        out.append(")");
    }
    proof {
        assert(out@ =~= spec_last_error(context@, code));
    }
    out
}

} // verus!
