use a_simple_autoclicker::model::{Action, Hotkey, KeyModifiers, HOTKEY_COUNT};

#[test]
fn every_hotkey_has_a_label_and_unique_keysym() {
    assert_eq!(Hotkey::ALL.len(), Hotkey::LABELS.len());
    let mut keysyms: Vec<_> = Hotkey::ALL.iter().map(|key| key.keysym()).collect();
    keysyms.sort_unstable();
    keysyms.dedup();
    assert_eq!(keysyms.len(), Hotkey::ALL.len());
}

#[test]
fn hotkey_positions_labels_and_codes_agree() {
    assert_eq!(Hotkey::ALL.len(), HOTKEY_COUNT);
    for (index, hotkey) in Hotkey::ALL.iter().enumerate() {
        assert_eq!(hotkey.index(), index);
        assert_eq!(Hotkey::from_index(index), Some(*hotkey));
        assert_eq!(hotkey.label(), Hotkey::LABELS[index]);
        assert_eq!(hotkey.keysym(), 0xffc3 + index as u64);
        assert_eq!(hotkey.virtual_key(), 0x75 + index as u32);
    }
    assert_eq!(Hotkey::from_index(HOTKEY_COUNT), None);
    assert_eq!(Hotkey::F8.keysym(), 0xffc5);
    assert_eq!(Hotkey::F12.virtual_key(), 0x7b);
}

#[test]
fn default_modifiers_are_empty() {
    let none = KeyModifiers::default();
    assert!(none.is_empty());
    let shift = KeyModifiers { shift: true, ..none };
    assert!(!shift.is_empty());
}

#[test]
fn only_keys_are_not_mouse_clicks() {
    assert!(Action::LeftClick.is_mouse_click());
    assert!(Action::MiddleClick.is_mouse_click());
    assert!(Action::RightClick.is_mouse_click());
    assert!(!Action::Key { keysym: 0x61, modifiers: KeyModifiers::default() }.is_mouse_click());
}
