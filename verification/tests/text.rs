use a_simple_autoclicker::durations::{
    duration_controls, duration_from_controls, duration_ms, split_duration,
};
use a_simple_autoclicker::labels::{
    action_label, is_modifier_keysym, key_label, last_error, recorded_key_label,
};
use a_simple_autoclicker::model::{Action, KeyModifiers};
use a_simple_autoclicker::text::{
    decimal_string, format_duration, format_remaining_time, same_text, to_wide, trim,
};

#[test]
fn duration_units_round_trip() {
    assert_eq!(duration_ms(10, 1), 600_000);
    assert_eq!(split_duration(600_000), (10, 1));
}

#[test]
fn remaining_time_is_readable() {
    assert_eq!(format_duration(3_661_000), "1:01:01");
    assert_eq!(format_duration(9_001), "0:10");
}

#[test]
fn converts_minutes_to_milliseconds() {
    assert_eq!(duration_from_controls(true, 10, 1), 600_000);
    assert_eq!(duration_from_controls(false, 10, 1), 0);
}

#[test]
fn formats_remaining_time() {
    assert_eq!(format_remaining_time(600_000), "10m 00s");
    assert_eq!(format_remaining_time(3_661_000), "1h 01m 01s");
}

#[test]
fn short_and_extreme_times() {
    assert_eq!(format_remaining_time(0), "0s");
    assert_eq!(format_remaining_time(1), "1s");
    assert_eq!(format_remaining_time(59_001), "1m 00s");
    assert_eq!(format_remaining_time(u64::MAX), "5124095576030h 25m 51s");
    assert_eq!(format_duration(0), "0:00");
    assert_eq!(format_duration(u64::MAX), "5124095576030:25:52");
}

#[test]
fn durations_saturate_and_split() {
    assert_eq!(duration_ms(3, 0), 3_000);
    assert_eq!(duration_ms(2, 7), 7_200_000);
    assert_eq!(duration_ms(u64::MAX, 2), u64::MAX);
    assert_eq!(split_duration(7_200_000), (2, 2));
    assert_eq!(split_duration(90_000), (90, 0));
    assert_eq!(split_duration(999), (1, 0));
    assert_eq!(duration_from_controls(true, 2, 2), 7_200_000);
    assert_eq!(duration_from_controls(true, 5, 9), 5_000);
    assert_eq!(duration_from_controls(true, u64::MAX, 1), u64::MAX);
}

#[test]
fn gtk_controls_show_the_largest_whole_unit() {
    assert_eq!(duration_controls(0), None);
    assert_eq!(duration_controls(600_000), Some((10, 1)));
    assert_eq!(duration_controls(7_200_000), Some((2, 2)));
    assert_eq!(duration_controls(45_000), Some((45, 0)));
    assert_eq!(duration_controls(500), Some((0, 2)));
    for ms in [1_000u64, 60_000, 61_000, 3_600_000, 86_400_000] {
        let (value, unit) = duration_controls(ms).unwrap();
        assert_eq!(duration_from_controls(true, value, unit), ms);
        let (value, unit) = split_duration(ms);
        assert_eq!(duration_ms(value, unit as usize), ms);
    }
}

#[test]
fn windows_key_labels() {
    let ctrl_shift = KeyModifiers { control: true, shift: true, ..KeyModifiers::default() };
    assert_eq!(key_label(0x43, ctrl_shift), "Ctrl+Shift+C");
    assert_eq!(key_label(0x74, KeyModifiers::default()), "F5");
    assert_eq!(key_label(0x87, KeyModifiers::default()), "F24");
    assert_eq!(key_label(0x35, KeyModifiers::default()), "5");
    assert_eq!(key_label(0x21, KeyModifiers::default()), "Page Up");
    assert_eq!(key_label(0xdc, KeyModifiers::default()), "\\");
    assert_eq!(key_label(0x05, KeyModifiers::default()), "Key 0x05");
    assert_eq!(key_label(0xff, KeyModifiers::default()), "Key 0xFF");
    assert_eq!(key_label(0x123, KeyModifiers::default()), "Key 0x123");
    let all = KeyModifiers { shift: true, control: true, alt: true, super_key: true };
    assert_eq!(key_label(0x20, all), "Ctrl+Shift+Alt+Windows+Space");
}

#[test]
fn action_labels() {
    assert_eq!(action_label(Action::LeftClick), "Left mouse click");
    assert_eq!(action_label(Action::MiddleClick), "Middle mouse click");
    assert_eq!(action_label(Action::RightClick), "Right mouse click");
    let alt = KeyModifiers { alt: true, ..KeyModifiers::default() };
    assert_eq!(action_label(Action::Key { keysym: 0x0d, modifiers: alt }), "Alt+Enter");
}

#[test]
fn gtk_key_labels() {
    let all = KeyModifiers { shift: true, control: true, alt: true, super_key: true };
    assert_eq!(recorded_key_label("c", all), "Ctrl+Alt+Shift+Super+c");
    assert_eq!(recorded_key_label("F5", KeyModifiers::default()), "F5");
    assert!(is_modifier_keysym(0xffe1));
    assert!(is_modifier_keysym(0xffee));
    assert!(is_modifier_keysym(0xfe03));
    assert!(!is_modifier_keysym(0xffef));
    assert!(!is_modifier_keysym(0x61));
}

#[test]
fn windows_errors_name_their_code() {
    assert_eq!(last_error("Could not move the pointer", 0), "Could not move the pointer");
    assert_eq!(
        last_error("Could not move the pointer", 5),
        "Could not move the pointer (Windows error 5)"
    );
}

#[test]
fn texts_are_trimmed_and_compared() {
    assert_eq!(trim("  Ten minute target \t"), "Ten minute target");
    assert_eq!(trim("\u{3000}fullwidth\u{3000}"), "fullwidth");
    assert_eq!(trim("   "), "");
    assert_eq!(trim("a b"), "a b");
    assert!(same_text("abc", "abc"));
    assert!(!same_text("abc", "abd"));
    assert!(!same_text("abc", "ab"));
    assert_eq!(decimal_string(0), "0");
    assert_eq!(decimal_string(1_234_567_890), "1234567890");
}

#[test]
fn wide_strings_end_with_zero() {
    assert_eq!(to_wide("Hi"), vec![72, 105, 0]);
    assert_eq!(to_wide("é"), vec![0xe9, 0]);
    assert_eq!(to_wide("😀"), vec![0xd83d, 0xde00, 0]);
    assert_eq!(to_wide(""), vec![0]);
}

#[test]
fn trimming_removes_exactly_the_white_space_that_std_knows() {
    for code in 0u32..0x3100 {
        let Some(c) = char::from_u32(code) else { continue };
        let text = format!("{c}x{c}");
        assert_eq!(trim(&text), text.trim(), "character {code:#x}");
    }
}
