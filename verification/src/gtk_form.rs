use vstd::prelude::*;

use crate::clicker::{ClickEngine, EngineState, spec_set_active};
use crate::hotkey::HotkeyCommand;
use crate::labels::{is_modifier_keysym, recorded_key_label, spec_is_modifier_keysym, spec_recorded_key_label};
use crate::model::{Action, ClickPosition, Hotkey, KeyModifiers};
use crate::presets::{
    accepts_any_store, find_name, spec_saved, writes_answer, Preset, PresetStore, PresetView,
};
use crate::text::{
    decimal, format_remaining_time, push_decimal, push_signed_decimal, signed_decimal,
    spec_format_remaining_time, trim, trimmed,
};

verus! {

/// The subtitle of the fixed-position row for a position.
pub open spec fn position_subtitle(p: ClickPosition) -> Seq<char> {
    "Clicks will be sent to ("@ + signed_decimal(p.x as int) + ", "@ + signed_decimal(p.y as int)
        + ")"@
}

/// Describes where fixed-position clicks go.
pub fn describe_position(position: ClickPosition) -> (r: String)
    ensures
        r@ == position_subtitle(position),
{
    let mut text = String::from_str("Clicks will be sent to (");
    push_signed_decimal(&mut text, position.x);
    text.append(", ");
    push_signed_decimal(&mut text, position.y);
    text.append(")");
    text
}

/// What a key event during recording did.
pub enum KeyRecording {
    /// Not recording: the event belongs to the window.
    Ignored,
    /// A modifier went down: it may be the key itself or start a combination, so the
    /// release decides.
    AwaitRelease,
    /// The key is the global hotkey and cannot be repeated; recording ended.
    RefusedHotkey,
    /// The key became the repeated action; the label names it.
    Recorded { label: String },
}

/// The state of the GTK window that its callbacks share.
pub struct GtkSession {
    pub recording: bool,
    pub selected_hotkey: Hotkey,
    pub captured_position: Option<ClickPosition>,
}

impl GtkSession {
    /// A fresh window: not recording, F8 as the hotkey, no captured position.
    pub fn new() -> (r: GtkSession)
        ensures
            !r.recording,
            r.selected_hotkey == Hotkey::F8,
            r.captured_position is None,
    {
        GtkSession { recording: false, selected_hotkey: Hotkey::F8, captured_position: None }
    }

    /// A mouse action was chosen: recording ends and the hotkey listens again.
    pub fn choose_mouse_action(&mut self, engine: &mut ClickEngine, action: Action) -> (r:
        HotkeyCommand)
        ensures
            !final(self).recording,
            final(self).selected_hotkey == old(self).selected_hotkey,
            final(self).captured_position == old(self).captured_position,
            final(engine)@ == (EngineState { action, ..old(engine)@ }),
            r == HotkeyCommand::SetEnabled(true),
    {
        self.recording = false;
        engine.set_action(action);
        HotkeyCommand::SetEnabled(true)
    }

    /// Recording starts: the engine stops and the hotkey stops listening, so that the
    /// key to record can be the one pressed.
    pub fn start_recording(&mut self, engine: &mut ClickEngine) -> (r: HotkeyCommand)
        ensures
            final(self).recording,
            final(self).selected_hotkey == old(self).selected_hotkey,
            final(self).captured_position == old(self).captured_position,
            final(engine)@ == spec_set_active(old(engine)@, false),
            r == HotkeyCommand::SetEnabled(false),
    {
        engine.set_active(false);
        self.recording = true;
        HotkeyCommand::SetEnabled(false)
    }

    /// A key went down while the window had focus. While recording, a non-modifier key
    /// ends recording: the global hotkey itself is refused, any other key with the held
    /// modifiers becomes the repeated action. The command, if any, goes to the hotkey
    /// listener.
    pub fn key_pressed(
        &mut self,
        engine: &mut ClickEngine,
        keysym: u64,
        key_name: &str,
        modifiers: KeyModifiers,
    ) -> (r: (KeyRecording, Option<HotkeyCommand>))
        ensures
            final(self).selected_hotkey == old(self).selected_hotkey,
            final(self).captured_position == old(self).captured_position,
            !old(self).recording ==> r.0 is Ignored && r.1 is None && final(self).recording == false
                && final(engine)@ == old(engine)@,
            old(self).recording && spec_is_modifier_keysym(keysym) ==> r.0 is AwaitRelease && r.1
                is None && final(self).recording && final(engine)@ == old(engine)@,
            old(self).recording && !spec_is_modifier_keysym(keysym) ==> {
                &&& !final(self).recording
                &&& r.1 == Some(HotkeyCommand::SetEnabled(true))
                &&& if keysym == old(self).selected_hotkey.spec_keysym() {
                    r.0 is RefusedHotkey && final(engine)@ == old(engine)@
                } else {
                    &&& r.0 matches KeyRecording::Recorded { label } && label@
                        == spec_recorded_key_label(key_name@, modifiers)
                    &&& final(engine)@ == (EngineState {
                        action: Action::Key { keysym, modifiers },
                        ..old(engine)@
                    })
                }
            },
    {
        if !self.recording {
            return (KeyRecording::Ignored, None);
        }
        if is_modifier_keysym(keysym) {
            return (KeyRecording::AwaitRelease, None);
        }
        self.recording = false;
        if keysym == self.selected_hotkey.keysym() {
            return (KeyRecording::RefusedHotkey, Some(HotkeyCommand::SetEnabled(true)));
        }
        let label = recorded_key_label(key_name, modifiers);
        engine.set_action(Action::Key { keysym, modifiers });
        (KeyRecording::Recorded { label }, Some(HotkeyCommand::SetEnabled(true)))
    }

    /// A key went up while the window had focus. While recording, a modifier released on
    /// its own becomes the repeated action, without modifiers; the result is its label
    /// and the command that lets the hotkey listen again.
    pub fn key_released(&mut self, engine: &mut ClickEngine, keysym: u64, key_name: &str) -> (r:
        Option<(String, HotkeyCommand)>)
        ensures
            final(self).selected_hotkey == old(self).selected_hotkey,
            final(self).captured_position == old(self).captured_position,
            old(self).recording && spec_is_modifier_keysym(keysym) ==> {
                &&& !final(self).recording
                &&& (r matches Some((label, command)) && label@ == key_name@ && command
                    == HotkeyCommand::SetEnabled(true))
                &&& final(engine)@ == (EngineState {
                    action: Action::Key { keysym, modifiers: KeyModifiers::none() },
                    ..old(engine)@
                })
            },
            !(old(self).recording && spec_is_modifier_keysym(keysym)) ==> r is None
                && final(self).recording == old(self).recording && final(engine)@ == old(engine)@,
    {
        if !self.recording || !is_modifier_keysym(keysym) {
            return None;
        }
        self.recording = false;
        engine.set_action(
            Action::Key {
                keysym,
                modifiers: KeyModifiers { shift: false, control: false, alt: false, super_key: false },
            },
        );
        Some((String::from_str(key_name), HotkeyCommand::SetEnabled(true)))
    }

    /// The fixed-position switch changed. Switching on uses the captured position, or
    /// is refused (the switch must go back off) when none was captured; switching off
    /// clicks where the pointer is. The result is the row's new subtitle, if it changes,
    /// and whether the switch must go back off.
    pub fn fixed_position_switched(&mut self, engine: &mut ClickEngine, on: bool) -> (r: (
        Option<String>,
        bool,
    ))
        ensures
            final(self).recording == old(self).recording,
            final(self).selected_hotkey == old(self).selected_hotkey,
            final(self).captured_position == old(self).captured_position,
            on && old(self).captured_position is Some ==> {
                &&& final(engine)@ == (EngineState {
                    position: old(self).captured_position,
                    ..old(engine)@
                })
                &&& !r.1
                &&& (r.0 matches Some(text) && text@ == position_subtitle(
                    old(self).captured_position->0,
                ))
            },
            on && old(self).captured_position is None ==> {
                &&& final(engine)@ == old(engine)@
                &&& r.1
                &&& (r.0 matches Some(text) && text@
                    == "Capture a position before enabling this mode"@)
            },
            !on ==> {
                &&& final(engine)@ == (EngineState { position: None, ..old(engine)@ })
                &&& !r.1
                &&& if old(self).captured_position is None {
                    (r.0 matches Some(text) && text@
                        == "Off \u{2014} mouse clicks use the current pointer position"@)
                } else {
                    r.0 is None
                }
            },
    {
        if on {
            match self.captured_position {
                Some(position) => {
                    engine.set_position(Some(position));
                    (Some(describe_position(position)), false)
                },
                None => (
                    Some(String::from_str("Capture a position before enabling this mode")),
                    true,
                ),
            }
        } else {
            engine.set_position(None);
            if self.captured_position.is_none() {
                (
                    Some(
                        String::from_str("Off \u{2014} mouse clicks use the current pointer position"),
                    ),
                    false,
                )
            } else {
                (None, false)
            }
        }
    }

    /// The pointer capture finished: a position becomes the captured and fixed one (the
    /// switch goes on); a failure's message becomes the row's subtitle. The result is
    /// the row's subtitle.
    pub fn capture_finished(
        &mut self,
        engine: &mut ClickEngine,
        captured: Result<ClickPosition, String>,
    ) -> (r: String)
        ensures
            final(self).recording == old(self).recording,
            final(self).selected_hotkey == old(self).selected_hotkey,
            match captured {
                Ok(p) => final(self).captured_position == Some(p) && final(engine)@ == (
                EngineState { position: Some(p), ..old(engine)@ }) && r@ == position_subtitle(p),
                Err(error) => final(self).captured_position == old(self).captured_position
                    && final(engine)@ == old(engine)@ && r@ == error@,
            },
    {
        match captured {
            Ok(position) => {
                self.captured_position = Some(position);
                engine.set_position(Some(position));
                describe_position(position)
            },
            Err(error) => error,
        }
    }

    /// Another hotkey was picked from the menu at `index`; the command goes to the hotkey
    /// listener.
    pub fn hotkey_selected(&mut self, index: usize) -> (r: Option<HotkeyCommand>)
        ensures
            final(self).recording == old(self).recording,
            final(self).captured_position == old(self).captured_position,
            match Hotkey::spec_at(index as int) {
                Some(h) => final(self).selected_hotkey == h && r == Some(
                    HotkeyCommand::SetHotkey(h),
                ),
                None => final(self).selected_hotkey == old(self).selected_hotkey && r is None,
            },
    {
        match Hotkey::from_index(index) {
            Some(hotkey) => {
                self.selected_hotkey = hotkey;
                Some(HotkeyCommand::SetHotkey(hotkey))
            },
            None => None,
        }
    }

    /// Saves the engine's settings as a preset named after the trimmed name field, with
    /// the action's label as shown and the selected hotkey; the updated list is handed to
    /// `write`. The result is the row's subtitle and, after saving, the position of the
    /// saved name in the list.
    pub fn save_preset<F: FnOnce(&PresetStore) -> Result<(), String>>(
        &self,
        engine: &ClickEngine,
        name_field: &str,
        action_label: &str,
        presets: &mut PresetStore,
        write: F,
    ) -> (r: (String, Option<usize>))
        requires
            accepts_any_store(write),
        ensures
            ({
                let name = trimmed(name_field@);
                let preset = PresetView {
                    name,
                    action: engine@.action,
                    action_label: action_label@,
                    interval_ms: engine@.interval_ms,
                    duration_ms: engine@.duration_ms,
                    max_actions: engine@.max_actions,
                    position: engine@.position,
                    hotkey: self.selected_hotkey,
                };
                if name.len() == 0 {
                    r.0@ == "Enter a name before saving"@ && r.1 is None && final(presets)@ == old(presets)@
                } else {
                    let contents = spec_saved(old(presets)@, preset);
                    ||| {
                        &&& writes_answer(write, contents, Ok(()))
                        &&& final(presets)@ == contents
                        &&& r.0@ == "Saved preset: "@ + name
                        &&& match find_name(final(presets)@, name, 0) {
                            Some(i) => r.1 == Some(i as usize) && final(presets)@[i] == preset,
                            None => false,
                        }
                    }
                    ||| exists|error: String|
                        {
                            &&& #[trigger] writes_answer(write, contents, Err(error))
                            &&& final(presets)@ == old(presets)@
                            &&& r.1 is None
                            &&& r.0@ == "Could not save: "@ + error@
                        }
                }
            }),
    {
        let name = trim(name_field);
        if name.as_str().is_empty() {
            return (String::from_str("Enter a name before saving"), None);
        }
        let preset = Preset {
            name: name.clone(),
            action: engine.action(),
            action_label: String::from_str(action_label),
            interval_ms: engine.interval_ms(),
            duration_ms: engine.duration_ms(),
            max_actions: engine.max_actions(),
            position: engine.position(),
            hotkey: self.selected_hotkey,
        };
        let ghost view = preset@;
        let saved = presets.save(preset, write);
        match saved {
            Ok(()) => {
                proof {
                    crate::presets::lemma_saved_preset_is_found(old(presets)@, view);
                }
                let index = presets.find(&name);
                let mut text = String::from_str("Saved preset: ");
                text.append(name.as_str());
                (text, index)
            },
            Err(error) => {
                let mut text = String::from_str("Could not save: ");
                text.append(error.as_str());
                assert(text@ == "Could not save: "@ + error@);
                assert(writes_answer(write, spec_saved(old(presets)@, view), Err(error)));
                (text, None)
            },
        }
    }

    /// Loads a preset into the engine: it stops, and takes the preset's action, limits
    /// and position, which also becomes the captured one. The interval reaches the engine
    /// through its control. The result is the row's subtitle.
    pub fn load_preset(&mut self, engine: &mut ClickEngine, preset: &Preset) -> (r: String)
        ensures
            final(self).recording == old(self).recording,
            final(self).selected_hotkey == old(self).selected_hotkey,
            final(self).captured_position == preset.position,
            final(engine)@ == (EngineState {
                action: preset.action,
                duration_ms: preset.duration_ms,
                max_actions: preset.max_actions,
                position: preset.position,
                ..spec_set_active(old(engine)@, false)
            }),
            r@ == "Loaded preset: "@ + preset.name@,
    {
        engine.set_active(false);
        engine.set_action(preset.action);
        engine.set_duration_ms(preset.duration_ms);
        engine.set_max_actions(preset.max_actions);
        self.captured_position = preset.position;
        engine.set_position(preset.position);
        let mut text = String::from_str("Loaded preset: ");
        text.append(preset.name.as_str());
        text
    }
}

/// The title and subtitle of the status row when the engine starts or stops: running,
/// finished by a limit (which the engine stops reporting once asked), or ready.
pub open spec fn spec_status_texts(e: EngineState) -> (Seq<char>, Option<Seq<char>>) {
    if e.active {
        ("Clicking"@, None)
    } else if e.completed_run {
        ("Finished"@, Some("The selected run limit has been reached"@))
    } else {
        ("Ready"@, Some("Use the global hotkey or button to start"@))
    }
}

/// The status row's title and, if it changes, subtitle, when the engine's running state
/// changed.
pub fn status_texts(engine: &mut ClickEngine) -> (r: (String, Option<String>))
    ensures
        r.0@ == spec_status_texts(old(engine)@).0,
        match (r.1, spec_status_texts(old(engine)@).1) {
            (Some(a), Some(b)) => a@ == b,
            (None, None) => true,
            _ => false,
        },
        old(engine)@.active ==> final(engine)@ == old(engine)@,
        !old(engine)@.active ==> final(engine)@ == (EngineState {
            completed_run: false,
            ..old(engine)@
        }),
{
    if engine.is_active() {
        (String::from_str("Clicking"), None)
    } else if engine.take_completed_run() {
        (
            String::from_str("Finished"),
            Some(String::from_str("The selected run limit has been reached")),
        )
    } else {
        (
            String::from_str("Ready"),
            Some(String::from_str("Use the global hotkey or button to start")),
        )
    }
}

/// The status subtitle of a running engine: the time and actions left, joined by ` • `,
/// then how to stop.
pub open spec fn spec_running_subtitle(remaining_ms: Option<u64>, remaining_actions: Option<u64>) -> Seq<char> {
    let time_part = match remaining_ms {
        Some(ms) => Some(spec_format_remaining_time(ms) + " left"@),
        None => None,
    };
    let count_part = match remaining_actions {
        Some(n) => Some(decimal(n as nat) + " actions left"@),
        None => None,
    };
    let tail = " \u{2022} use the global hotkey or Stop to finish"@;
    match (time_part, count_part) {
        (Some(t), Some(c)) => t + " \u{2022} "@ + c + tail,
        (Some(t), None) => t + tail,
        (None, Some(c)) => c + tail,
        (None, None) => "Use the global hotkey or Stop to finish"@,
    }
}

/// Describes the progress of a running engine for the GTK status row.
pub fn running_subtitle(remaining_ms: Option<u64>, remaining_actions: Option<u64>) -> (r: String)
    ensures
        r@ == spec_running_subtitle(remaining_ms, remaining_actions),
{
    if remaining_ms.is_none() && remaining_actions.is_none() {
        return String::from_str("Use the global hotkey or Stop to finish");
    }
    let mut text = String::new();
    if let Some(ms) = remaining_ms {
        text.append(format_remaining_time(ms).as_str());
        text.append(" left");
    }
    if let Some(count) = remaining_actions {
        if remaining_ms.is_some() {
            text.append(" \u{2022} ");
        }
        push_decimal(&mut text, count);
        text.append(" actions left");
    }
    text.append(" \u{2022} use the global hotkey or Stop to finish");
    proof {
        assert(text@ =~= spec_running_subtitle(remaining_ms, remaining_actions));
    }
    text
}

} // verus!
