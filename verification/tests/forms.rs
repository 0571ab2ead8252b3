use a_simple_autoclicker::clicker::ClickEngine;
use a_simple_autoclicker::config::{linux_config_base, linux_preset_folder, windows_config_base, ConfigBase};
use a_simple_autoclicker::gtk_form::{running_subtitle, status_texts, GtkSession, KeyRecording};
use a_simple_autoclicker::hotkey::HotkeyCommand;
use a_simple_autoclicker::model::{Action, ClickPosition, Hotkey, KeyModifiers};
use a_simple_autoclicker::presets::{Preset, PresetStore};
use a_simple_autoclicker::windows_form::{CaptureTimer, ClickSettings};

fn accepting(_store: &PresetStore) -> Result<(), String> {
    Ok(())
}

fn refusing(_store: &PresetStore) -> Result<(), String> {
    Err("read-only".to_string())
}

#[test]
fn windows_settings_start_and_stop_the_engine() {
    let mut settings = ClickSettings::new();
    let mut engine = ClickEngine::new();
    settings.interval_ms = 250;
    settings.timed_run = true;
    settings.duration_value = 2;
    settings.duration_unit = 0;
    settings.count_limited = true;
    settings.max_actions = 0;
    settings.action_index = 2;
    settings.toggle_clicking(&mut engine);
    assert!(engine.is_active());
    assert_eq!(engine.action(), Action::RightClick);
    assert_eq!(engine.interval_ms(), 250);
    assert_eq!(engine.duration_ms(), 2_000);
    assert_eq!(engine.max_actions(), 1);
    assert_eq!(settings.status_message, None);
    settings.toggle_clicking(&mut engine);
    assert!(!engine.is_active());
}

#[test]
fn windows_settings_explain_refusals() {
    let mut settings = ClickSettings::new();
    let mut engine = ClickEngine::new();
    settings.interval_ms = 5;
    settings.toggle_clicking(&mut engine);
    assert!(!engine.is_active());
    assert_eq!(settings.status_message.as_deref(), Some("The interval must be at least 10 milliseconds."));
    settings.interval_ms = 100;
    settings.action_index = 3;
    assert_eq!(settings.selected_action(), Err("Record a keyboard key before starting.".to_string()));
    settings.action_index = 7;
    assert_eq!(settings.selected_action(), Err("Choose a valid repeated action.".to_string()));
    settings.action_index = 0;
    settings.fixed_position = true;
    assert_eq!(
        settings.apply_settings(&mut engine),
        Err("Capture a pointer position before enabling fixed position.".to_string())
    );
    settings.recorded_key = Some((0x77, KeyModifiers::default()));
    settings.action_index = 3;
    assert_eq!(
        settings.selected_action(),
        Err("The repeated key and global toggle hotkey must be different.".to_string())
    );
    settings.recorded_key = Some((0x77, KeyModifiers { shift: true, ..KeyModifiers::default() }));
    assert!(settings.selected_action().is_ok());
}

#[test]
fn windows_recording_refuses_the_hotkey() {
    let mut settings = ClickSettings::new();
    settings.start_recording();
    assert!(settings.recording);
    settings.record_key(0x77, KeyModifiers::default());
    assert!(!settings.recording);
    assert_eq!(
        settings.status_message.as_deref(),
        Some("F8 controls start/stop. Choose another global hotkey first.")
    );
    settings.record_key(0x41, KeyModifiers { control: true, ..KeyModifiers::default() });
    assert_eq!(settings.action_index, 3);
    assert_eq!(settings.status_message.as_deref(), Some("Recorded Ctrl+A."));
    assert_eq!(settings.action_subtitle(), "Ctrl+A key");
    settings.reject_unsupported_key();
    assert_eq!(settings.status_message.as_deref(), Some("That key is not supported by Windows input."));
}

#[test]
fn windows_presets_save_and_load() {
    let mut settings = ClickSettings::new();
    let mut engine = ClickEngine::new();
    let mut presets = PresetStore::default();
    settings.preset_name = "   ".to_string();
    settings.save_preset(&mut engine, &mut presets, accepting);
    assert_eq!(settings.status_message.as_deref(), Some("Enter a name before saving the preset."));
    settings.preset_name = "  Fast  ".to_string();
    settings.interval_ms = 40;
    settings.hotkey_index = 4;
    settings.save_preset(&mut engine, &mut presets, refusing);
    assert_eq!(settings.status_message.as_deref(), Some("Could not save preset: read-only"));
    assert_eq!(presets.names().len(), 0);
    settings.save_preset(&mut engine, &mut presets, accepting);
    assert_eq!(settings.status_message.as_deref(), Some("Preset saved."));
    assert_eq!(settings.preset_index, Some(0));
    let saved = presets.get(0).unwrap();
    assert_eq!(saved.name, "Fast");
    assert_eq!(saved.action_label, "Left mouse click");
    assert_eq!(saved.interval_ms, 40);
    assert_eq!(saved.hotkey, Hotkey::F10);

    let mut other = ClickSettings::new();
    assert_eq!(other.load_preset(&mut engine, &presets), None);
    assert_eq!(other.status_message.as_deref(), Some("Choose a saved preset first."));
    other.preset_index = Some(0);
    assert_eq!(other.load_preset(&mut engine, &presets), Some(Hotkey::F10));
    assert_eq!(other.interval_ms, 40);
    assert_eq!(other.hotkey_index, 4);
    assert_eq!(other.preset_name, "Fast");
    assert_eq!(other.status_message.as_deref(), Some("Loaded preset “Fast”."));
}

#[test]
fn windows_status_lines() {
    let mut settings = ClickSettings::new();
    let mut engine = ClickEngine::new();
    assert_eq!(settings.status_subtitle(&engine), "Press F8 or use the button below to start");
    assert_eq!(settings.hotkey_subtitle(true), "Works while this window is in the background");
    assert_eq!(settings.hotkey_subtitle(false), "F8 is already in use by another application");
    engine.set_active(true);
    assert_eq!(settings.progress_text(&engine), "Press F8 or Stop to finish");
    engine.set_max_actions(4);
    engine.set_duration_ms(90_000);
    engine.poll(0);
    engine.poll(0);
    assert_eq!(settings.progress_text(&engine), "1:30 remaining • 4 actions remaining");
    assert_eq!(settings.status_subtitle(&engine), "1:30 remaining • 4 actions remaining");
    settings.process_capture(&mut engine, Ok(ClickPosition { x: -12, y: 340 }));
    assert_eq!(settings.status_message.as_deref(), Some("Captured pointer position (-12, 340)."));
    assert!(settings.fixed_position);
    assert_eq!(engine.position(), Some(ClickPosition { x: -12, y: 340 }));
    settings.status_message = Some("Hidden in the system tray.".to_string());
    settings.clear_tray_notice();
    assert_eq!(settings.status_message, None);
    settings.status_message = Some("Preset saved.".to_string());
    settings.clear_tray_notice();
    assert_eq!(settings.status_message.as_deref(), Some("Preset saved."));
    engine.report_backend_unavailable("no display".to_string());
    assert_eq!(settings.status_subtitle(&engine), "Input backend error: no display");
}

#[test]
fn windows_engine_state_reports_a_finished_run() {
    let mut settings = ClickSettings::new();
    let mut engine = ClickEngine::new();
    engine.set_max_actions(1);
    engine.set_active(true);
    engine.poll(0);
    engine.poll(0);
    engine.record_outcome(Ok(()));
    assert!(!settings.process_engine_state(&mut engine, false, true));
    assert_eq!(settings.status_message.as_deref(), Some("The selected run limit was reached."));
    assert!(settings.process_engine_state(&mut engine, true, false));
}

#[test]
fn gtk_recording_and_positions() {
    let mut session = GtkSession::new();
    let mut engine = ClickEngine::new();
    assert!(matches!(session.key_pressed(&mut engine, 0x61, "a", KeyModifiers::default()).0, KeyRecording::Ignored));
    assert_eq!(session.start_recording(&mut engine), HotkeyCommand::SetEnabled(false));
    assert!(matches!(session.key_pressed(&mut engine, 0xffe3, "Control_L", KeyModifiers::default()).0, KeyRecording::AwaitRelease));
    let ctrl = KeyModifiers { control: true, ..KeyModifiers::default() };
    match session.key_pressed(&mut engine, 0x63, "c", ctrl) {
        (KeyRecording::Recorded { label }, Some(HotkeyCommand::SetEnabled(true))) => assert_eq!(label, "Ctrl+c"),
        _ => panic!("the key was not recorded"),
    }
    assert_eq!(engine.action(), Action::Key { keysym: 0x63, modifiers: ctrl });
    session.start_recording(&mut engine);
    assert!(matches!(session.key_pressed(&mut engine, 0xffc5, "F8", KeyModifiers::default()).0, KeyRecording::RefusedHotkey));
    session.start_recording(&mut engine);
    assert_eq!(
        session.key_released(&mut engine, 0xffe1, "Shift_L"),
        Some(("Shift_L".to_string(), HotkeyCommand::SetEnabled(true)))
    );
    assert_eq!(engine.action(), Action::Key { keysym: 0xffe1, modifiers: KeyModifiers::default() });
    assert_eq!(session.choose_mouse_action(&mut engine, Action::MiddleClick), HotkeyCommand::SetEnabled(true));

    let (text, refuse) = session.fixed_position_switched(&mut engine, true);
    assert!(refuse);
    assert_eq!(text.as_deref(), Some("Capture a position before enabling this mode"));
    let (text, _) = session.fixed_position_switched(&mut engine, false);
    assert_eq!(text.as_deref(), Some("Off — mouse clicks use the current pointer position"));
    assert_eq!(session.capture_finished(&mut engine, Ok(ClickPosition { x: 3, y: 4 })), "Clicks will be sent to (3, 4)");
    assert_eq!(engine.position(), Some(ClickPosition { x: 3, y: 4 }));
    assert_eq!(session.capture_finished(&mut engine, Err("no pointer".to_string())), "no pointer");
    assert_eq!(session.hotkey_selected(0), Some(HotkeyCommand::SetHotkey(Hotkey::F6)));
    assert_eq!(session.hotkey_selected(9), None);
    assert_eq!(session.selected_hotkey, Hotkey::F6);
}

#[test]
fn gtk_presets_and_status() {
    let session = GtkSession::new();
    let mut engine = ClickEngine::new();
    let mut presets = PresetStore::default();
    assert_eq!(session.save_preset(&engine, " ", "Left mouse click", &mut presets, accepting), ("Enter a name before saving".to_string(), None));
    assert_eq!(session.save_preset(&engine, "Slow", "Left mouse click", &mut presets, refusing).0, "Could not save: read-only");
    assert_eq!(session.save_preset(&engine, " Slow ", "Left mouse click", &mut presets, accepting), ("Saved preset: Slow".to_string(), Some(0)));
    let preset = Preset { max_actions: 7, ..presets.get(0).unwrap() };
    let mut session = session;
    engine.set_active(true);
    assert_eq!(session.load_preset(&mut engine, &preset), "Loaded preset: Slow");
    assert!(!engine.is_active());
    assert_eq!(engine.max_actions(), 7);

    assert_eq!(status_texts(&mut engine), ("Ready".to_string(), Some("Use the global hotkey or button to start".to_string())));
    engine.set_active(true);
    assert_eq!(status_texts(&mut engine), ("Clicking".to_string(), None));
    assert_eq!(running_subtitle(None, None), "Use the global hotkey or Stop to finish");
    assert_eq!(running_subtitle(Some(61_000), Some(3)), "1m 01s left • 3 actions left • use the global hotkey or Stop to finish");
    assert_eq!(running_subtitle(None, Some(1)), "1 actions left • use the global hotkey or Stop to finish");
}

#[test]
fn preset_files_live_in_the_configuration_folder() {
    assert_eq!(linux_config_base(true, true), ConfigBase::Variable);
    assert_eq!(linux_config_base(false, true), ConfigBase::HomeDotConfig);
    assert_eq!(linux_config_base(false, false), ConfigBase::CurrentDirectory);
    assert_eq!(windows_config_base(false), ConfigBase::CurrentDirectory);
    assert_eq!(linux_preset_folder(false), "a-simple-autoclicker");
    assert_eq!(linux_preset_folder(true), "mint-autoclicker");
}

#[test]
fn a_capture_reads_the_pointer_two_seconds_after_it_starts() {
    let mut timer = CaptureTimer::new();
    assert!(!timer.is_pending());
    assert_eq!(timer.seconds_left(0), None);
    assert!(!timer.take_due(5_000));
    timer.start(1_000);
    assert!(timer.is_pending());
    assert_eq!(timer.seconds_left(1_000), Some(3));
    assert_eq!(timer.seconds_left(2_500), Some(1));
    assert_eq!(timer.seconds_left(4_000), Some(1));
    assert!(!timer.take_due(2_999));
    assert!(timer.is_pending());
    assert!(timer.take_due(3_000));
    assert!(!timer.is_pending());
    assert!(!timer.take_due(3_001));
}
