use a_simple_autoclicker::input::{
    send_outcome, windows_plan, x11_steps, MouseButton, WindowsInput, X11Step,
};
use a_simple_autoclicker::model::{Action, ClickPosition, KeyModifiers};

#[test]
fn x11_clicks_move_first_when_fixed() {
    let at = ClickPosition { x: 10, y: 20 };
    assert_eq!(x11_steps(Action::LeftClick, Some(at)), vec![X11Step::MoveTo(at), X11Step::Click(1)]);
    assert_eq!(x11_steps(Action::MiddleClick, None), vec![X11Step::Click(2)]);
    assert_eq!(x11_steps(Action::RightClick, None), vec![X11Step::Click(3)]);
}

#[test]
fn x11_keys_hold_modifiers_around_the_key() {
    let mods = KeyModifiers { shift: true, control: true, alt: false, super_key: false };
    let steps = x11_steps(Action::Key { keysym: 0x63, modifiers: mods }, Some(ClickPosition { x: 1, y: 1 }));
    assert_eq!(
        steps,
        vec![
            X11Step::Key { keysym: 0xffe1, pressed: true },
            X11Step::Key { keysym: 0xffe3, pressed: true },
            X11Step::Key { keysym: 0x63, pressed: true },
            X11Step::Key { keysym: 0x63, pressed: false },
            X11Step::Key { keysym: 0xffe3, pressed: false },
            X11Step::Key { keysym: 0xffe1, pressed: false },
            X11Step::Flush,
        ]
    );
}

#[test]
fn windows_mouse_plans() {
    let at = ClickPosition { x: -3, y: 7 };
    let plan = windows_plan(Action::RightClick, Some(at)).unwrap();
    assert_eq!(plan.move_to, Some(at));
    assert_eq!(
        plan.inputs,
        vec![
            WindowsInput::Mouse { button: MouseButton::Right, released: false },
            WindowsInput::Mouse { button: MouseButton::Right, released: true },
        ]
    );
}

#[test]
fn windows_key_plans() {
    let mods = KeyModifiers { shift: true, control: true, alt: false, super_key: true };
    let plan = windows_plan(Action::Key { keysym: 0x2e, modifiers: mods }, Some(ClickPosition { x: 0, y: 0 })).unwrap();
    assert_eq!(plan.move_to, None);
    let key = |virtual_key: u16, released: bool, extended: bool| WindowsInput::Keyboard { virtual_key, released, extended };
    assert_eq!(
        plan.inputs,
        vec![
            key(0x11, false, false),
            key(0x10, false, false),
            key(0x5b, false, false),
            key(0x2e, false, true),
            key(0x2e, true, true),
            key(0x5b, true, false),
            key(0x10, true, false),
            key(0x11, true, false),
        ]
    );
}

#[test]
fn windows_refuses_keys_outside_one_byte() {
    let none = KeyModifiers::default();
    for keysym in [0u64, 256, 0x1_0000, 0xffc5] {
        match windows_plan(Action::Key { keysym, modifiers: none }, None) {
            Err(message) => assert_eq!(message, "The recorded key is not valid on Windows"),
            Ok(_) => panic!("keysym {keysym:#x} was accepted"),
        }
    }
    assert!(windows_plan(Action::Key { keysym: 255, modifiers: none }, None).is_ok());
}

#[test]
fn windows_input_succeeds_only_when_every_input_is_accepted() {
    assert_eq!(send_outcome(4, 4, 5), Ok(()));
    assert_eq!(send_outcome(0, 0, 0), Ok(()));
    assert_eq!(send_outcome(1, 4, 0), Err("Windows blocked the simulated input".to_string()));
    assert_eq!(
        send_outcome(0, 2, 5),
        Err("Windows blocked the simulated input (Windows error 5)".to_string())
    );
}
