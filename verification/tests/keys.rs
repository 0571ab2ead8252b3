use a_simple_autoclicker::keys::{key_to_virtual_key, RecordableKey};
use a_simple_autoclicker::labels::key_label;
use a_simple_autoclicker::model::KeyModifiers;

#[test]
fn digits_and_letters_send_their_character_codes() {
    assert_eq!(key_to_virtual_key(RecordableKey::Num0), Some(0x30));
    assert_eq!(key_to_virtual_key(RecordableKey::Num9), Some(0x39));
    assert_eq!(key_to_virtual_key(RecordableKey::A), Some(0x41));
    assert_eq!(key_to_virtual_key(RecordableKey::C), Some(0x43));
    assert_eq!(key_to_virtual_key(RecordableKey::Z), Some(0x5a));
}

#[test]
fn function_keys_up_to_f24_can_be_recorded() {
    assert_eq!(key_to_virtual_key(RecordableKey::F1), Some(0x70));
    assert_eq!(key_to_virtual_key(RecordableKey::F12), Some(0x7b));
    assert_eq!(key_to_virtual_key(RecordableKey::F24), Some(0x87));
    assert_eq!(key_to_virtual_key(RecordableKey::F25), None);
    assert_eq!(key_to_virtual_key(RecordableKey::F35), None);
}

#[test]
fn named_and_punctuation_keys_have_their_codes() {
    assert_eq!(key_to_virtual_key(RecordableKey::Backspace), Some(0x08));
    assert_eq!(key_to_virtual_key(RecordableKey::Enter), Some(0x0d));
    assert_eq!(key_to_virtual_key(RecordableKey::ArrowDown), Some(0x28));
    assert_eq!(key_to_virtual_key(RecordableKey::Delete), Some(0x2e));
    assert_eq!(key_to_virtual_key(RecordableKey::Semicolon), Some(0xba));
    assert_eq!(key_to_virtual_key(RecordableKey::Colon), Some(0xba));
    assert_eq!(key_to_virtual_key(RecordableKey::Pipe), Some(0xdc));
    assert_eq!(key_to_virtual_key(RecordableKey::CloseBracket), Some(0xdd));
}

#[test]
fn clipboard_keys_cannot_be_recorded() {
    assert_eq!(key_to_virtual_key(RecordableKey::Copy), None);
    assert_eq!(key_to_virtual_key(RecordableKey::Cut), None);
    assert_eq!(key_to_virtual_key(RecordableKey::Paste), None);
}

#[test]
fn a_recorded_combination_is_labelled_by_its_keys() {
    let control = KeyModifiers { shift: false, control: true, alt: false, super_key: false };
    let code = key_to_virtual_key(RecordableKey::C).unwrap();
    assert_eq!(key_label(code, control), "Ctrl+C");
    let code = key_to_virtual_key(RecordableKey::F5).unwrap();
    assert_eq!(key_label(code, KeyModifiers::default()), "F5");
    let code = key_to_virtual_key(RecordableKey::Num7).unwrap();
    assert_eq!(key_label(code, KeyModifiers::default()), "7");
}
