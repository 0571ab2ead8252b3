use a_simple_autoclicker::clicker::ClickEngine;
use a_simple_autoclicker::hotkey::{GrabEffect, HotkeyCommand, HotkeyListener};
use a_simple_autoclicker::model::{Action, Hotkey, KeyModifiers};

#[test]
fn a_new_listener_grabs_its_key() {
    let (listener, effects) = HotkeyListener::new(Hotkey::F8);
    assert_eq!(effects, vec![GrabEffect::Remap(0xffc5), GrabEffect::Grab]);
    assert_eq!(listener.hotkey(), Hotkey::F8);
    assert!(listener.is_enabled());
}

#[test]
fn changing_the_key_moves_the_grab() {
    let (mut listener, _) = HotkeyListener::new(Hotkey::F8);
    assert_eq!(
        listener.apply(HotkeyCommand::SetHotkey(Hotkey::F6)),
        vec![GrabEffect::Ungrab, GrabEffect::Remap(0xffc3), GrabEffect::Grab]
    );
    assert_eq!(listener.apply(HotkeyCommand::SetEnabled(false)), vec![GrabEffect::Ungrab]);
    assert_eq!(listener.apply(HotkeyCommand::SetEnabled(false)), vec![]);
    assert_eq!(listener.apply(HotkeyCommand::SetHotkey(Hotkey::F12)), vec![GrabEffect::Remap(0xffc9)]);
    assert_eq!(listener.apply(HotkeyCommand::SetEnabled(true)), vec![GrabEffect::Grab]);
    assert_eq!(listener.shutdown(), vec![GrabEffect::Ungrab]);
    listener.apply(HotkeyCommand::SetEnabled(false));
    assert_eq!(listener.shutdown(), vec![]);
}

#[test]
fn presses_toggle_at_most_every_two_hundred_milliseconds() {
    let (mut listener, _) = HotkeyListener::new(Hotkey::F8);
    let mut engine = ClickEngine::new();
    assert!(listener.key_event(&mut engine, true, 1_000));
    assert!(engine.is_active());
    assert!(!listener.key_event(&mut engine, true, 1_199));
    assert!(engine.is_active());
    assert!(!listener.key_event(&mut engine, false, 1_200));
    assert!(listener.key_event(&mut engine, true, 1_200));
    assert!(!engine.is_active());
}

#[test]
fn the_repeated_hotkey_never_toggles() {
    let (mut listener, _) = HotkeyListener::new(Hotkey::F7);
    let mut engine = ClickEngine::new();
    engine.set_action(Action::Key {
        keysym: Hotkey::F7.keysym(),
        modifiers: KeyModifiers { control: true, ..KeyModifiers::default() },
    });
    assert!(!listener.key_event(&mut engine, true, 5_000));
    assert!(!engine.is_active());
    engine.set_action(Action::Key { keysym: Hotkey::F9.keysym(), modifiers: KeyModifiers::default() });
    assert!(listener.key_event(&mut engine, true, 5_000));
    assert!(engine.is_active());
}
