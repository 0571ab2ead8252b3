use vstd::prelude::*;

use crate::clicker::{ClickEngine, EngineState, sat_sub, spec_max, spec_set_active};
use crate::durations::{duration_ms, sat_mul, unit_ms};
use crate::labels::{action_label, key_label, spec_action_label, spec_key_label};
use crate::model::{Action, ClickPosition, Hotkey, KeyModifiers, HOTKEY_COUNT};
use crate::presets::{
    accepts_any_store, find_name, spec_saved, writes_answer, Preset, PresetStore, PresetView,
};
use crate::text::{
    push_decimal, push_signed_decimal, same_text, signed_decimal, trim, trimmed, decimal,
};
use crate::text::{format_duration, spec_format_duration};

verus! {

/// The settings that the Windows window edits, with its notice line. The window binds
/// its controls to these fields; `hotkey_index` must stay below the number of hotkeys
/// and `duration_unit` below three (seconds, minutes, hours).
pub struct ClickSettings {
    /// 0 left, 1 middle, 2 right click, 3 the recorded key.
    pub action_index: usize,
    /// The recorded virtual-key code and its modifiers.
    pub recorded_key: Option<(u32, KeyModifiers)>,
    pub recording: bool,
    pub interval_ms: u64,
    pub timed_run: bool,
    pub duration_value: u64,
    pub duration_unit: usize,
    pub count_limited: bool,
    pub max_actions: u64,
    pub fixed_position: bool,
    pub hotkey_index: usize,
    pub preset_index: Option<usize>,
    pub preset_name: String,
    pub status_message: Option<String>,
}

/// The settings as contracts speak of them.
pub struct SettingsView {
    pub action_index: usize,
    pub recorded_key: Option<(u32, KeyModifiers)>,
    pub recording: bool,
    pub interval_ms: u64,
    pub timed_run: bool,
    pub duration_value: u64,
    pub duration_unit: usize,
    pub count_limited: bool,
    pub max_actions: u64,
    pub fixed_position: bool,
    pub hotkey_index: usize,
    pub preset_index: Option<usize>,
    pub preset_name: Seq<char>,
    pub status_message: Option<Seq<char>>,
}

impl View for ClickSettings {
    type V = SettingsView;

    open spec fn view(&self) -> SettingsView {
        SettingsView {
            action_index: self.action_index,
            recorded_key: self.recorded_key,
            recording: self.recording,
            interval_ms: self.interval_ms,
            timed_run: self.timed_run,
            duration_value: self.duration_value,
            duration_unit: self.duration_unit,
            count_limited: self.count_limited,
            max_actions: self.max_actions,
            fixed_position: self.fixed_position,
            hotkey_index: self.hotkey_index,
            preset_index: self.preset_index,
            preset_name: self.preset_name@,
            status_message: match self.status_message {
                Some(m) => Some(m@),
                None => None,
            },
        }
    }
}

impl SettingsView {
    /// The indices that pick from fixed lists are in range.
    pub open spec fn wf(self) -> bool {
        self.hotkey_index < HOTKEY_COUNT && self.duration_unit < 3
    }

    /// The selected global hotkey.
    pub open spec fn hotkey(self) -> Hotkey {
        Hotkey::spec_at(self.hotkey_index as int)->0
    }

    /// The same settings with another notice.
    pub open spec fn with_status(self, message: Option<Seq<char>>) -> SettingsView {
        SettingsView { status_message: message, ..self }
    }
}

/// The action the settings select, or why they select none: a key must have been
/// recorded, and a key without modifiers must not be the global hotkey.
pub open spec fn spec_selected_action(f: SettingsView) -> Result<Action, Seq<char>> {
    let chosen: Result<Action, Seq<char>> = if f.action_index == 0 {
        Ok(Action::LeftClick)
    } else if f.action_index == 1 {
        Ok(Action::MiddleClick)
    } else if f.action_index == 2 {
        Ok(Action::RightClick)
    } else if f.action_index == 3 {
        match f.recorded_key {
            Some((key, modifiers)) => Ok(Action::Key { keysym: key as u64, modifiers }),
            None => Err("Record a keyboard key before starting."@),
        }
    } else {
        Err("Choose a valid repeated action."@)
    };
    match chosen {
        Ok(Action::Key { keysym, modifiers }) => if keysym == f.hotkey().spec_virtual_key()
            && modifiers == KeyModifiers::none() {
            Err("The repeated key and global toggle hotkey must be different."@)
        } else {
            chosen
        },
        _ => chosen,
    }
}

/// The engine once the settings are applied, or why they cannot be: the interval must be
/// at least 10 ms, an action must be selected, and a fixed position must have been
/// captured. Disabled limits are stored as 0; an enabled count limit is at least 1.
pub open spec fn spec_apply_settings(f: SettingsView, e: EngineState) -> Result<
    EngineState,
    Seq<char>,
> {
    if f.interval_ms < 10 {
        Err("The interval must be at least 10 milliseconds."@)
    } else {
        match spec_selected_action(f) {
            Err(message) => Err(message),
            Ok(action) => if f.fixed_position && e.position is None {
                Err("Capture a pointer position before enabling fixed position."@)
            } else {
                Ok(
                    EngineState {
                        action,
                        interval_ms: f.interval_ms,
                        duration_ms: if f.timed_run {
                            sat_mul(f.duration_value, unit_ms(f.duration_unit))
                        } else {
                            0
                        },
                        max_actions: if f.count_limited {
                            spec_max(f.max_actions, 1)
                        } else {
                            0
                        },
                        position: if f.fixed_position {
                            e.position
                        } else {
                            None
                        },
                        ..e
                    },
                )
            },
        }
    }
}

/// The settings and engine after the start/stop control: a running engine stops; a
/// stopped one starts once the settings apply, and otherwise the notice says why not.
pub open spec fn spec_toggle_clicking(f: SettingsView, e: EngineState) -> (SettingsView, EngineState) {
    if e.active {
        (f, spec_set_active(e, false))
    } else {
        match spec_apply_settings(f, e) {
            Ok(applied) => (f.with_status(None), spec_set_active(applied, true)),
            Err(message) => (f.with_status(Some(message)), e),
        }
    }
}

/// The settings and engine after one look per frame: a pending hotkey press toggles
/// clicking; then, if the engine stopped since `shown_active`, a run that reached its
/// limit is reported (and the engine's record of it cleared).
pub open spec fn spec_engine_state(
    f: SettingsView,
    e: EngineState,
    hotkey_pressed: bool,
    shown_active: bool,
) -> (SettingsView, EngineState) {
    let (f1, e1) = if hotkey_pressed {
        spec_toggle_clicking(f, e)
    } else {
        (f, e)
    };
    if e1.active != shown_active && !e1.active {
        (
            if e1.completed_run {
                f1.with_status(Some("The selected run limit was reached."@))
            } else {
                f1
            },
            EngineState { completed_run: false, ..e1 },
        )
    } else {
        (f1, e1)
    }
}

/// The settings of a fresh window: left clicks every 100 ms, no recorded key, limits
/// off (10 minutes and 100 actions when switched on), no fixed position, F8 as the
/// hotkey, no preset, no notice.
pub open spec fn initial_settings() -> SettingsView {
    SettingsView {
        action_index: 0,
        recorded_key: None,
        recording: false,
        interval_ms: 100,
        timed_run: false,
        duration_value: 10,
        duration_unit: 1,
        count_limited: false,
        max_actions: 100,
        fixed_position: false,
        hotkey_index: 2,
        preset_index: None,
        preset_name: Seq::empty(),
        status_message: None,
    }
}

/// The notice after saving a preset failed.
pub open spec fn save_failed_message(error: Seq<char>) -> Seq<char> {
    "Could not save preset: "@ + error
}

/// The notice after a preset was loaded.
pub open spec fn loaded_message(name: Seq<char>) -> Seq<char> {
    "Loaded preset \u{201c}"@ + name + "\u{201d}."@
}

/// The notice after the pointer position was captured.
pub open spec fn captured_message(p: ClickPosition) -> Seq<char> {
    "Captured pointer position ("@ + signed_decimal(p.x as int) + ", "@ + signed_decimal(
        p.y as int,
    ) + ")."@
}

/// The notice after a key was recorded, or refused because it is the hotkey.
pub open spec fn spec_recording_outcome(f: SettingsView, key: u32, modifiers: KeyModifiers) -> SettingsView {
    if key == f.hotkey().spec_virtual_key() && modifiers == KeyModifiers::none() {
        SettingsView {
            recording: false,
            status_message: Some(
                Hotkey::spec_label(f.hotkey()) + " controls start/stop. Choose another global hotkey first."@,
            ),
            ..f
        }
    } else {
        SettingsView {
            recorded_key: Some((key, modifiers)),
            action_index: 3,
            recording: false,
            status_message: Some("Recorded "@ + spec_key_label(key, modifiers) + "."@),
            ..f
        }
    }
}

/// What the Windows window shows under "Repeated action".
pub open spec fn spec_action_subtitle(f: SettingsView) -> Seq<char> {
    if f.action_index == 0 {
        "Left mouse click"@
    } else if f.action_index == 1 {
        "Middle mouse click"@
    } else if f.action_index == 2 {
        "Right mouse click"@
    } else if f.action_index == 3 {
        match f.recorded_key {
            Some((key, modifiers)) => spec_key_label(key, modifiers) + " key"@,
            None => "Record a keyboard key below"@,
        }
    } else {
        "Choose an action"@
    }
}

/// What the Windows window shows under "Global toggle hotkey".
pub open spec fn spec_hotkey_subtitle(f: SettingsView, available: bool) -> Seq<char> {
    if available {
        "Works while this window is in the background"@
    } else {
        Hotkey::spec_label(f.hotkey()) + " is already in use by another application"@
    }
}

/// The progress line of a running engine: the time left and the actions left, joined by
/// ` • `, or how to stop when there is no limit.
pub open spec fn spec_progress_text(f: SettingsView, e: EngineState) -> Seq<char> {
    let time_part = spec_format_duration(e.remaining_ms) + " remaining"@;
    let count_part = decimal(e.remaining_actions as nat) + " actions remaining"@;
    if e.remaining_ms > 0 && e.remaining_actions > 0 {
        time_part + " \u{2022} "@ + count_part
    } else if e.remaining_ms > 0 {
        time_part
    } else if e.remaining_actions > 0 {
        count_part
    } else {
        "Press "@ + Hotkey::spec_label(f.hotkey()) + " or Stop to finish"@
    }
}

/// The status line of the Windows window: a backend failure, else the notice, else the
/// progress of a running engine, else how to start.
pub open spec fn spec_status_subtitle(f: SettingsView, e: EngineState) -> Seq<char> {
    match e.backend_error {
        Some(error) => "Input backend error: "@ + error,
        None => match f.status_message {
            Some(message) => message,
            None => if e.active {
                spec_progress_text(f, e)
            } else {
                "Press "@ + Hotkey::spec_label(f.hotkey()) + " or use the button below to start"@
            },
        },
    }
}

/// The preset that the settings save under `name`, from the applied engine.
pub open spec fn spec_preset_to_save(f: SettingsView, e: EngineState, name: Seq<char>) -> PresetView {
    PresetView {
        name,
        action: e.action,
        action_label: spec_action_label(e.action),
        interval_ms: e.interval_ms,
        duration_ms: e.duration_ms,
        max_actions: e.max_actions,
        position: if f.fixed_position {
            e.position
        } else {
            None
        },
        hotkey: f.hotkey(),
    }
}

/// The settings after loading a preset: its name, interval and hotkey, its limits as
/// switches with values (an unlimited count shows 1), its position as the fixed-position
/// switch, its action as the selected one (a key as the recorded key), and a notice.
pub open spec fn spec_loaded_settings(f: SettingsView, p: PresetView) -> SettingsView {
    let split = crate::durations::spec_split_duration(p.duration_ms);
    SettingsView {
        preset_name: p.name,
        interval_ms: p.interval_ms,
        timed_run: p.duration_ms > 0,
        duration_value: split.0,
        duration_unit: split.1,
        count_limited: p.max_actions > 0,
        max_actions: spec_max(p.max_actions, 1),
        fixed_position: p.position is Some,
        hotkey_index: p.hotkey.spec_index() as usize,
        action_index: match p.action {
            Action::LeftClick => 0,
            Action::MiddleClick => 1,
            Action::RightClick => 2,
            Action::Key { .. } => 3,
        },
        recorded_key: match p.action {
            Action::Key { keysym, modifiers } => Some((keysym as u32, modifiers)),
            _ => f.recorded_key,
        },
        status_message: Some(loaded_message(p.name)),
        ..f
    }
}

fn owned(text: &str) -> (r: String)
    ensures
        r@ == text@,
{
    String::from_str(text)
}

impl ClickSettings {
    /// The settings of a fresh window: left clicks every 100 ms, limits off (10 minutes
    /// and 100 actions when switched on), F8 as the hotkey.
    pub fn new() -> (r: ClickSettings)
        ensures
            r@ == initial_settings(),
            r@.wf(),
    {
        ClickSettings {
            action_index: 0,
            recorded_key: None,
            recording: false,
            interval_ms: 100,
            timed_run: false,
            duration_value: 10,
            duration_unit: 1,
            count_limited: false,
            max_actions: 100,
            fixed_position: false,
            hotkey_index: 2,
            preset_index: None,
            preset_name: String::new(),
            status_message: None,
        }
    }

    /// The selected global hotkey.
    pub fn hotkey(&self) -> (r: Hotkey)
        requires
            self@.wf(),
        ensures
            r == self@.hotkey(),
    {
        match Hotkey::from_index(self.hotkey_index) {
            Some(hotkey) => hotkey,
            None => Hotkey::F8,
        }
    }

    /// The action the settings select, or why they select none.
    pub fn selected_action(&self) -> (r: Result<Action, String>)
        requires
            self@.wf(),
        ensures
            match (r, spec_selected_action(self@)) {
                (Ok(a), Ok(b)) => a == b,
                (Err(m), Err(expected)) => m@ == expected,
                _ => false,
            },
    {
        let action = match self.action_index {
            0 => Action::LeftClick,
            1 => Action::MiddleClick,
            2 => Action::RightClick,
            3 => match self.recorded_key {
                Some((key, modifiers)) => Action::Key { keysym: key as u64, modifiers },
                None => return Err(owned("Record a keyboard key before starting.")),
            },
            _ => return Err(owned("Choose a valid repeated action.")),
        };
        if let Action::Key { keysym, modifiers } = action {
            if keysym == self.hotkey().virtual_key() as u64 && modifiers.is_empty() {
                return Err(owned("The repeated key and global toggle hotkey must be different."));
            }
        }
        Ok(action)
    }

    /// Hands the settings to the engine, or says why they cannot be; on failure the
    /// engine is unchanged.
    pub fn apply_settings(&self, engine: &mut ClickEngine) -> (r: Result<(), String>)
        requires
            self@.wf(),
        ensures
            match (r, spec_apply_settings(self@, old(engine)@)) {
                (Ok(()), Ok(applied)) => final(engine)@ == applied,
                (Err(m), Err(expected)) => m@ == expected && final(engine)@ == old(engine)@,
                _ => false,
            },
    {
        if self.interval_ms < 10 {
            return Err(owned("The interval must be at least 10 milliseconds."));
        }
        let action = match self.selected_action() {
            Ok(action) => action,
            Err(message) => return Err(message),
        };
        if self.fixed_position && engine.position().is_none() {
            return Err(owned("Capture a pointer position before enabling fixed position."));
        }
        engine.set_action(action);
        engine.set_interval_ms(self.interval_ms);
        engine.set_duration_ms(
            if self.timed_run {
                duration_ms(self.duration_value, self.duration_unit)
            } else {
                0
            },
        );
        engine.set_max_actions(
            if self.count_limited {
                if self.max_actions >= 1 {
                    self.max_actions
                } else {
                    1
                }
            } else {
                0
            },
        );
        if !self.fixed_position {
            engine.set_position(None);
        }
        Ok(())
    }

    /// Starts or stops clicking: a running engine stops; a stopped one starts once the
    /// settings are applied, and otherwise the notice says why it did not.
    pub fn toggle_clicking(&mut self, engine: &mut ClickEngine)
        requires
            old(self)@.wf(),
        ensures
            (final(self)@, final(engine)@) == spec_toggle_clicking(old(self)@, old(engine)@),
    {
        if engine.is_active() {
            engine.set_active(false);
            return ;
        }
        match self.apply_settings(engine) {
            Ok(()) => {
                self.status_message = None;
                engine.set_active(true);
            },
            Err(error) => self.status_message = Some(error),
        }
    }

    /// Saves the settings as a preset named after the trimmed name field: the name must
    /// not be empty and the settings must apply; the preset takes the applied engine's
    /// action (with its label), interval and limits, the position if fixed, and the
    /// hotkey, and the updated list is handed to `write`. The notice reports the result,
    /// and a saved preset becomes the selected one.
    pub fn save_preset<F: FnOnce(&PresetStore) -> Result<(), String>>(
        &mut self,
        engine: &mut ClickEngine,
        presets: &mut PresetStore,
        write: F,
    )
        requires
            old(self)@.wf(),
            accepts_any_store(write),
        ensures
            final(self)@.wf(),
            ({
                let name = trimmed(old(self)@.preset_name);
                if name.len() == 0 {
                    &&& final(self)@ == old(self)@.with_status(
                        Some("Enter a name before saving the preset."@),
                    )
                    &&& final(engine)@ == old(engine)@
                    &&& final(presets)@ == old(presets)@
                } else {
                    match spec_apply_settings(old(self)@, old(engine)@) {
                        Err(message) => {
                            &&& final(self)@ == old(self)@.with_status(Some(message))
                            &&& final(engine)@ == old(engine)@
                            &&& final(presets)@ == old(presets)@
                        },
                        Ok(applied) => {
                            let preset = spec_preset_to_save(old(self)@, applied, name);
                            let contents = spec_saved(old(presets)@, preset);
                            &&& final(engine)@ == applied
                            &&& {
                                ||| {
                                    &&& writes_answer(write, contents, Ok(()))
                                    &&& final(presets)@ == contents
                                    &&& final(self)@ == (SettingsView {
                                        preset_index: match find_name(final(presets)@, name, 0) {
                                            Some(i) => Some(i as usize),
                                            None => None,
                                        },
                                        ..old(self)@.with_status(Some("Preset saved."@))
                                    })
                                }
                                ||| {
                                    &&& final(presets)@ == old(presets)@
                                    &&& exists|error: String|
                                        {
                                            &&& #[trigger] writes_answer(write, contents, Err(error))
                                            &&& final(self)@ == old(self)@.with_status(
                                                Some(save_failed_message(error@)),
                                            )
                                        }
                                }
                            }
                        },
                    }
                }
            }),
    {
        let name = trim(self.preset_name.as_str());
        if name.as_str().is_empty() {
            self.status_message = Some(owned("Enter a name before saving the preset."));
            return ;
        }
        if let Err(error) = self.apply_settings(engine) {
            self.status_message = Some(error);
            return ;
        }
        let action = engine.action();
        let preset = Preset {
            name: name.clone(),
            action,
            action_label: action_label(action),
            interval_ms: engine.interval_ms(),
            duration_ms: engine.duration_ms(),
            max_actions: engine.max_actions(),
            position: if self.fixed_position {
                engine.position()
            } else {
                None
            },
            hotkey: self.hotkey(),
        };
        let ghost view = preset@;
        let saved = presets.save(preset, write);
        match saved {
            Ok(()) => {
                self.preset_index = presets.find(&name);
                self.status_message = Some(owned("Preset saved."));
            },
            Err(error) => {
                let mut message = owned("Could not save preset: ");
                message.append(error.as_str());
                assert(message@ == save_failed_message(error@));
                self.status_message = Some(message);
                assert(self@ == old(self)@.with_status(Some(save_failed_message(error@))));
                assert(writes_answer(write, spec_saved(old(presets)@, view), Err(error)));
            },
        }
    }

    /// Loads the selected preset into the settings and its position into the engine.
    /// Returns the preset's hotkey, which the hotkey listener must now use; without a
    /// selection the notice asks for one.
    pub fn load_preset(&mut self, engine: &mut ClickEngine, presets: &PresetStore) -> (r: Option<
        Hotkey,
    >)
        requires
            old(self)@.wf(),
        ensures
            final(self)@.wf(),
            match old(self)@.preset_index {
                None => r is None && final(self)@ == old(self)@.with_status(
                    Some("Choose a saved preset first."@),
                ) && final(engine)@ == old(engine)@,
                Some(index) => if index < presets@.len() {
                    let p = presets@[index as int];
                    &&& r == Some(p.hotkey)
                    &&& final(self)@ == spec_loaded_settings(old(self)@, p)
                    &&& final(engine)@ == (EngineState { position: p.position, ..old(engine)@ })
                } else {
                    r is None && final(self)@ == old(self)@ && final(engine)@ == old(engine)@
                },
            },
    {
        let index = match self.preset_index {
            Some(index) => index,
            None => {
                self.status_message = Some(owned("Choose a saved preset first."));
                return None;
            },
        };
        let preset = match presets.get(index) {
            Some(preset) => preset,
            None => return None,
        };
        let (duration_value, duration_unit) = crate::durations::split_duration(preset.duration_ms);
        self.interval_ms = preset.interval_ms;
        self.timed_run = preset.duration_ms > 0;
        self.duration_value = duration_value;
        self.duration_unit = duration_unit;
        self.count_limited = preset.max_actions > 0;
        self.max_actions = if preset.max_actions >= 1 {
            preset.max_actions
        } else {
            1
        };
        self.fixed_position = preset.position.is_some();
        engine.set_position(preset.position);
        self.hotkey_index = preset.hotkey.index();
        match preset.action {
            Action::LeftClick => self.action_index = 0,
            Action::MiddleClick => self.action_index = 1,
            Action::RightClick => self.action_index = 2,
            Action::Key { keysym, modifiers } => {
                self.action_index = 3;
                self.recorded_key = Some((keysym as u32, modifiers));
            },
        }
        let mut message = owned("Loaded preset \u{201c}");
        message.append(preset.name.as_str());
        message.append("\u{201d}.");
        self.status_message = Some(message);
        self.preset_name = preset.name;
        Some(preset.hotkey)
    }

    /// Takes a captured pointer position: it becomes the engine's fixed position and the
    /// fixed-position switch turns on; a failed capture shows its message.
    pub fn process_capture(
        &mut self,
        engine: &mut ClickEngine,
        captured: Result<ClickPosition, String>,
    )
        ensures
            match captured {
                Ok(p) => final(engine)@ == (EngineState { position: Some(p), ..old(engine)@ })
                    && final(self)@ == (SettingsView {
                    fixed_position: true,
                    ..old(self)@.with_status(Some(captured_message(p)))
                }),
                Err(error) => final(engine)@ == old(engine)@ && final(self)@ == old(self)@.with_status(Some(error@)),
            },
    {
        match captured {
            Ok(position) => {
                engine.set_position(Some(position));
                self.fixed_position = true;
                let mut message = owned("Captured pointer position (");
                push_signed_decimal(&mut message, position.x);
                message.append(", ");
                push_signed_decimal(&mut message, position.y);
                message.append(").");
                self.status_message = Some(message);
            },
            Err(error) => self.status_message = Some(error),
        }
    }

    /// Looks at the engine once per frame: a pending hotkey press toggles clicking; when
    /// the engine has stopped since `shown_active` and a run limit was reached, the notice
    /// says so. Returns whether the engine now runs.
    pub fn process_engine_state(
        &mut self,
        engine: &mut ClickEngine,
        hotkey_pressed: bool,
        shown_active: bool,
    ) -> (r: bool)
        requires
            old(self)@.wf(),
        ensures
            final(self)@.wf(),
            r == final(engine)@.active,
            (final(self)@, final(engine)@) == spec_engine_state(
                old(self)@,
                old(engine)@,
                hotkey_pressed,
                shown_active,
            ),
    {
        if hotkey_pressed {
            self.toggle_clicking(engine);
        }
        let active = engine.is_active();
        if active != shown_active && !active && engine.take_completed_run() {
            self.status_message = Some(owned("The selected run limit was reached."));
        }
        active
    }

    /// Starts listening for a key to record.
    pub fn start_recording(&mut self)
        ensures
            final(self)@ == (SettingsView {
                recording: true,
                ..old(self)@.with_status(Some("Press the key or key combination to repeat."@))
            }),
    {
        self.recording = true;
        self.status_message = Some(owned("Press the key or key combination to repeat."));
    }

    /// Takes a pressed key while recording: a key without modifiers that is the global
    /// hotkey is refused; any other becomes the repeated action. Recording ends.
    pub fn record_key(&mut self, key: u32, modifiers: KeyModifiers)
        requires
            old(self)@.wf(),
        ensures
            final(self)@ == spec_recording_outcome(old(self)@, key, modifiers),
    {
        let hotkey = self.hotkey();
        if key == hotkey.virtual_key() && modifiers.is_empty() {
            let mut message = owned(hotkey.label());
            message.append(" controls start/stop. Choose another global hotkey first.");
            self.status_message = Some(message);
            self.recording = false;
            return ;
        }
        self.recorded_key = Some((key, modifiers));
        self.action_index = 3;
        self.recording = false;
        let mut message = owned("Recorded ");
        message.append(key_label(key, modifiers).as_str());
        message.append(".");
        self.status_message = Some(message);
    }

    /// Notes a pressed key that Windows input cannot send; recording goes on.
    pub fn reject_unsupported_key(&mut self)
        ensures
            final(self)@ == old(self)@.with_status(
                Some("That key is not supported by Windows input."@),
            ),
    {
        self.status_message = Some(owned("That key is not supported by Windows input."));
    }

    /// Clears a notice that only said where the window went, when it is shown again.
    pub fn clear_tray_notice(&mut self)
        ensures
            ({
                let hidden = old(self)@.status_message == Some("Hidden in the system tray."@)
                    || old(self)@.status_message == Some("Minimized to the system tray."@);
                final(self)@ == if hidden {
                    old(self)@.with_status(None)
                } else {
                    old(self)@
                }
            }),
    {
        let hidden = match &self.status_message {
            Some(message) => same_text(message.as_str(), "Hidden in the system tray.")
                || same_text(message.as_str(), "Minimized to the system tray."),
            None => false,
        };
        if hidden {
            self.status_message = None;
        }
    }

    /// What the window shows under "Repeated action".
    pub fn action_subtitle(&self) -> (r: String)
        ensures
            r@ == spec_action_subtitle(self@),
    {
        match self.action_index {
            0 => owned("Left mouse click"),
            1 => owned("Middle mouse click"),
            2 => owned("Right mouse click"),
            3 => match self.recorded_key {
                Some((key, modifiers)) => {
                    let mut label = key_label(key, modifiers);
                    label.append(" key");
                    label
                },
                None => owned("Record a keyboard key below"),
            },
            _ => owned("Choose an action"),
        }
    }

    /// What the window shows under "Global toggle hotkey", given whether the hotkey
    /// could be registered.
    pub fn hotkey_subtitle(&self, available: bool) -> (r: String)
        requires
            self@.wf(),
        ensures
            r@ == spec_hotkey_subtitle(self@, available),
    {
        if available {
            owned("Works while this window is in the background")
        } else {
            let mut text = owned(self.hotkey().label());
            text.append(" is already in use by another application");
            text
        }
    }

    /// The progress line of a running engine.
    pub fn progress_text(&self, engine: &ClickEngine) -> (r: String)
        requires
            self@.wf(),
        ensures
            r@ == spec_progress_text(self@, engine@),
    {
        let remaining_ms = engine.remaining_ms();
        let remaining_actions = engine.remaining_actions();
        let mut text = String::new();
        let mut any = false;
        if let Some(ms) = remaining_ms {
            text.append(format_duration(ms).as_str());
            text.append(" remaining");
            any = true;
        }
        if let Some(count) = remaining_actions {
            if any {
                text.append(" \u{2022} ");
            }
            push_decimal(&mut text, count);
            text.append(" actions remaining");
            any = true;
        }
        if !any {
            text.append("Press ");
            text.append(self.hotkey().label());
            text.append(" or Stop to finish");
        }
        proof {
            assert(text@ =~= spec_progress_text(self@, engine@));
        }
        text
    }

    /// The status line of the window.
    pub fn status_subtitle(&self, engine: &ClickEngine) -> (r: String)
        requires
            self@.wf(),
        ensures
            r@ == spec_status_subtitle(self@, engine@),
    {
        if let Some(error) = engine.backend_error() {
            let mut text = owned("Input backend error: ");
            text.append(error.as_str());
            return text;
        }
        if let Some(message) = &self.status_message {
            return message.clone();
        }
        if engine.is_active() {
            self.progress_text(engine)
        } else {
            let mut text = owned("Press ");
            text.append(self.hotkey().label());
            text.append(" or use the button below to start");
            text
        }
    }
}

/// The repeated action is never the global hotkey pressed on its own: settings that
/// would repeat it select no action, so they never start the engine.
pub proof fn lemma_repeated_key_is_not_the_hotkey(f: SettingsView, e: EngineState)
    ensures
        spec_selected_action(f) matches Ok(Action::Key { keysym, modifiers }) ==> !(keysym
            == f.hotkey().spec_virtual_key() && modifiers == KeyModifiers::none()),
        spec_apply_settings(f, e) matches Ok(applied) ==> spec_selected_action(f) == Ok::<
            Action,
            Seq<char>,
        >(applied.action),
{
}

/// How long after the capture button is pressed the pointer position is read, in
/// milliseconds.
pub const CAPTURE_DELAY_MS: u64 = 2000;

/// The pending capture of the pointer position, timed in milliseconds on a clock of the
/// window's choosing.
pub struct CaptureTimer {
    /// When the position is to be read, if a capture is pending.
    pub deadline_ms: Option<u64>,
}

impl CaptureTimer {
    /// No capture pending.
    pub fn new() -> (r: CaptureTimer)
        ensures
            r.deadline_ms is None,
    {
        CaptureTimer { deadline_ms: None }
    }

    /// Starts a capture at `now_ms`: the position is read two seconds later.
    pub fn start(&mut self, now_ms: u64)
        requires
            now_ms + CAPTURE_DELAY_MS <= u64::MAX,
        ensures
            final(self).deadline_ms == Some((now_ms + CAPTURE_DELAY_MS) as u64),
    {
        self.deadline_ms = Some(now_ms + CAPTURE_DELAY_MS);
    }

    /// Whether a capture is pending.
    pub fn is_pending(&self) -> (r: bool)
        ensures
            r == self.deadline_ms is Some,
    {
        self.deadline_ms.is_some()
    }

    /// The whole seconds left before the capture at `now_ms`, counting the one under way.
    pub fn seconds_left(&self, now_ms: u64) -> (r: Option<u64>)
        ensures
            match self.deadline_ms {
                Some(deadline) => r == Some((sat_sub(deadline, now_ms) / 1000 + 1) as u64),
                None => r is None,
            },
    {
        match self.deadline_ms {
            Some(deadline) => {
                let left = if deadline >= now_ms {
                    deadline - now_ms
                } else {
                    0
                };
                Some(left / 1000 + 1)
            },
            None => None,
        }
    }

    /// Whether the pending capture is due at `now_ms`; a due capture is no longer pending,
    /// and the position is to be read now.
    pub fn take_due(&mut self, now_ms: u64) -> (due: bool)
        ensures
            due == (old(self).deadline_ms matches Some(deadline) && now_ms >= deadline),
            due ==> final(self).deadline_ms is None,
            !due ==> final(self).deadline_ms == old(self).deadline_ms,
    {
        match self.deadline_ms {
            Some(deadline) => {
                if now_ms >= deadline {
                    self.deadline_ms = None;
                    true
                } else {
                    false
                }
            },
            None => false,
        }
    }
}

} // verus!
