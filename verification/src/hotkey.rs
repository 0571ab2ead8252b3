use vstd::prelude::*;

use crate::clicker::{ClickEngine, spec_toggle};
use crate::model::{Action, Hotkey};

verus! {

/// The shortest time between two toggles by the global hotkey, in milliseconds; key
/// repeats and bounces within it are ignored.
pub const TOGGLE_DEBOUNCE_MS: u64 = 200;

/// A request from the window to the hotkey listener.
#[derive(Clone, Copy, Debug, PartialEq, Eq, Structural)]
pub enum HotkeyCommand {
    /// Listen to another key.
    SetHotkey(Hotkey),
    /// Stop or resume listening (the window stops it while it records a key).
    SetEnabled(bool),
}

/// A change to the key grab of the desktop, carried out in order by the listener's loop.
#[derive(Clone, Copy, Debug, PartialEq, Eq, Structural)]
pub enum GrabEffect {
    /// Release the grabbed key.
    Ungrab,
    /// Look up the key code of this keysym; later grabs and releases use it.
    Remap(u64),
    /// Grab the looked-up key, with any modifiers.
    Grab,
}

/// The listener as its contracts speak of it.
pub struct ListenerState {
    pub current: Hotkey,
    pub enabled: bool,
    pub last_toggle_ms: Option<u64>,
}

/// The decisions of the global hotkey listener: which key it grabs, whether it listens,
/// and when a press toggles the engine. Times are milliseconds on a clock of the loop's
/// choosing that never goes back.
pub struct HotkeyListener {
    current: Hotkey,
    enabled: bool,
    last_toggle_ms: Option<u64>,
}

impl View for HotkeyListener {
    type V = ListenerState;

    closed spec fn view(&self) -> ListenerState {
        ListenerState {
            current: self.current,
            enabled: self.enabled,
            last_toggle_ms: self.last_toggle_ms,
        }
    }
}

/// The effects of a command on a listener, and the listener after it: a new key is
/// released (if listening), looked up, and grabbed (if listening); enabling grabs and
/// disabling releases, and repeating the current setting does nothing.
pub open spec fn spec_apply(s: ListenerState, command: HotkeyCommand) -> (
    ListenerState,
    Seq<GrabEffect>,
) {
    match command {
        HotkeyCommand::SetHotkey(hotkey) => (
            ListenerState { current: hotkey, ..s },
            (if s.enabled {
                seq![GrabEffect::Ungrab]
            } else {
                Seq::empty()
            }) + seq![GrabEffect::Remap(hotkey.spec_keysym())] + (if s.enabled {
                seq![GrabEffect::Grab]
            } else {
                Seq::empty()
            }),
        ),
        HotkeyCommand::SetEnabled(enable) => if enable != s.enabled {
            (
                ListenerState { enabled: enable, ..s },
                if enable {
                    seq![GrabEffect::Grab]
                } else {
                    seq![GrabEffect::Ungrab]
                },
            )
        } else {
            (s, Seq::empty())
        },
    }
}

/// Whether the repeated action is the hotkey itself; its presses must not toggle.
pub open spec fn conflicts(action: Action, hotkey: Hotkey) -> bool {
    match action {
        Action::Key { keysym, .. } => keysym == hotkey.spec_keysym(),
        _ => false,
    }
}

/// Whether an event at `now_ms` toggles: it is a key press, the repeated action is not
/// the hotkey, and the last toggle lies at least 200 ms back.
pub open spec fn spec_toggles(s: ListenerState, is_key_press: bool, action: Action, now_ms: u64) -> bool {
    &&& is_key_press
    &&& !conflicts(action, s.current)
    &&& match s.last_toggle_ms {
        Some(last) => now_ms >= last && now_ms - last >= TOGGLE_DEBOUNCE_MS,
        None => true,
    }
}

impl HotkeyListener {
    /// A listener for `initial`, enabled and never toggled; the effects grab its key.
    pub fn new(initial: Hotkey) -> (r: (HotkeyListener, Vec<GrabEffect>))
        ensures
            r.0@ == (ListenerState { current: initial, enabled: true, last_toggle_ms: None }),
            r.1@ == seq![GrabEffect::Remap(initial.spec_keysym()), GrabEffect::Grab],
    {
        let mut effects = Vec::new();
        effects.push(GrabEffect::Remap(initial.keysym()));
        effects.push(GrabEffect::Grab);
        (HotkeyListener { current: initial, enabled: true, last_toggle_ms: None }, effects)
    }

    /// The key the listener listens to.
    pub fn hotkey(&self) -> (r: Hotkey)
        ensures
            r == self@.current,
    {
        self.current
    }

    /// Whether the listener listens.
    pub fn is_enabled(&self) -> (r: bool)
        ensures
            r == self@.enabled,
    {
        self.enabled
    }

    /// Carries out a command from the window; the result is what to do to the key grab.
    pub fn apply(&mut self, command: HotkeyCommand) -> (effects: Vec<GrabEffect>)
        ensures
            (final(self)@, effects@) == spec_apply(old(self)@, command),
    {
        let mut effects = Vec::new();
        match command {
            HotkeyCommand::SetHotkey(hotkey) => {
                if self.enabled {
                    effects.push(GrabEffect::Ungrab);
                }
                self.current = hotkey;
                effects.push(GrabEffect::Remap(hotkey.keysym()));
                if self.enabled {
                    effects.push(GrabEffect::Grab);
                }
            },
            HotkeyCommand::SetEnabled(enable) => {
                if enable != self.enabled {
                    self.enabled = enable;
                    if enable {
                        effects.push(GrabEffect::Grab);
                    } else {
                        effects.push(GrabEffect::Ungrab);
                    }
                }
            },
        }
        proof {
            assert(effects@ =~= spec_apply(old(self)@, command).1);
        }
        effects
    }

    /// What to do to the key grab when the window has gone: release the key if it is
    /// grabbed.
    pub fn shutdown(&self) -> (effects: Vec<GrabEffect>)
        ensures
            effects@ == if self@.enabled {
                seq![GrabEffect::Ungrab]
            } else {
                Seq::empty()
            },
    {
        let mut effects = Vec::new();
        if self.enabled {
            effects.push(GrabEffect::Ungrab);
        }
        proof {
            assert(effects@ =~= if self@.enabled {
                seq![GrabEffect::Ungrab]
            } else {
                Seq::empty()
            });
        }
        effects
    }

    /// Handles an event of the grabbed key at `now_ms`: a press toggles the engine unless
    /// the repeated action is the hotkey itself or the last toggle was less than 200 ms
    /// ago. Returns whether it toggled.
    pub fn key_event(&mut self, engine: &mut ClickEngine, is_key_press: bool, now_ms: u64) -> (r:
        bool)
        ensures
            r == spec_toggles(old(self)@, is_key_press, old(engine)@.action, now_ms),
            r ==> final(engine)@ == spec_toggle(old(engine)@) && final(self)@ == (ListenerState {
                last_toggle_ms: Some(now_ms),
                ..old(self)@
            }),
            !r ==> final(engine)@ == old(engine)@ && final(self)@ == old(self)@,
    {
        let conflict = match engine.action() {
            Action::Key { keysym, .. } => keysym == self.current.keysym(),
            _ => false,
        };
        let settled = match self.last_toggle_ms {
            Some(last) => now_ms >= last && now_ms - last >= TOGGLE_DEBOUNCE_MS,
            None => true,
        };
        if is_key_press && !conflict && settled {
            engine.toggle();
            self.last_toggle_ms = Some(now_ms);
            true
        } else {
            false
        }
    }
}

/// The key grab as the desktop holds it: the looked-up keysym and the grabbed one.
pub struct GrabState {
    pub mapped: Option<u64>,
    pub grabbed: Option<u64>,
}

/// The grab after carrying out effects in order; `None` where an effect is out of place:
/// a release of nothing, a second grab, a grab before any look-up, or a look-up while a
/// key is grabbed (which would lose track of the grabbed key).
pub open spec fn run_effects(g: GrabState, effects: Seq<GrabEffect>) -> Option<GrabState>
    decreases effects.len(),
{
    if effects.len() == 0 {
        Some(g)
    } else {
        let next = match effects[0] {
            GrabEffect::Ungrab => if g.grabbed is Some {
                Some(GrabState { grabbed: None, ..g })
            } else {
                None
            },
            GrabEffect::Remap(keysym) => if g.grabbed is None {
                Some(GrabState { mapped: Some(keysym), ..g })
            } else {
                None
            },
            GrabEffect::Grab => if g.grabbed is None && g.mapped is Some {
                Some(GrabState { grabbed: g.mapped, ..g })
            } else {
                None
            },
        };
        match next {
            Some(n) => run_effects(n, effects.drop_first()),
            None => None,
        }
    }
}

/// The grab that a listener's state calls for: its key looked up, and grabbed exactly
/// while it listens.
pub open spec fn grab_matches(g: GrabState, s: ListenerState) -> bool {
    &&& g.mapped == Some(s.current.spec_keysym())
    &&& g.grabbed == if s.enabled {
        Some(s.current.spec_keysym())
    } else {
        None
    }
}

/// The effects of a listener keep the desktop's grab in step with it: starting grabs the
/// initial key, every command moves a matching grab to one that matches the new state
/// without an out-of-place effect, and shutting down releases everything.
pub proof fn lemma_grab_follows_listener(
    initial: Hotkey,
    s: ListenerState,
    g: GrabState,
    command: HotkeyCommand,
)
    ensures
        ({
            let start = seq![GrabEffect::Remap(initial.spec_keysym()), GrabEffect::Grab];
            match run_effects(GrabState { mapped: None, grabbed: None }, start) {
                Some(after) => grab_matches(
                    after,
                    ListenerState { current: initial, enabled: true, last_toggle_ms: None },
                ),
                None => false,
            }
        }),
        grab_matches(g, s) ==> match run_effects(g, spec_apply(s, command).1) {
            Some(after) => grab_matches(after, spec_apply(s, command).0),
            None => false,
        },
        grab_matches(g, s) ==> match run_effects(
            g,
            if s.enabled {
                seq![GrabEffect::Ungrab]
            } else {
                Seq::empty()
            },
        ) {
            Some(after) => after.grabbed is None,
            None => false,
        },
{
    reveal_with_fuel(run_effects, 4);
    let start = seq![GrabEffect::Remap(initial.spec_keysym()), GrabEffect::Grab];
    assert(start.drop_first() =~= seq![GrabEffect::Grab]);
    assert(seq![GrabEffect::Grab].drop_first() =~= Seq::<GrabEffect>::empty());
    assert(seq![GrabEffect::Ungrab].drop_first() =~= Seq::<GrabEffect>::empty());
    let effects = spec_apply(s, command).1;
    match command {
        HotkeyCommand::SetHotkey(hotkey) => {
            let remap = seq![GrabEffect::Remap(hotkey.spec_keysym())];
            assert(remap.drop_first() =~= Seq::<GrabEffect>::empty());
            if s.enabled {
                assert(effects.drop_first() =~= seq![
                    GrabEffect::Remap(hotkey.spec_keysym()),
                    GrabEffect::Grab,
                ]);
                assert(effects.drop_first().drop_first() =~= seq![GrabEffect::Grab]);
            } else {
                assert(effects =~= remap);
            }
        },
        HotkeyCommand::SetEnabled(_) => {},
    }
}

/// The hotkey toggles no more than once in 200 ms, and never while the repeated action
/// is the hotkey itself.
pub proof fn lemma_toggles_are_debounced(
    s: ListenerState,
    is_key_press: bool,
    action: Action,
    now_ms: u64,
)
    ensures
        spec_toggles(s, is_key_press, action, now_ms) ==> match s.last_toggle_ms {
            Some(last) => now_ms >= last + TOGGLE_DEBOUNCE_MS,
            None => true,
        },
        conflicts(action, s.current) ==> !spec_toggles(s, is_key_press, action, now_ms),
        !is_key_press ==> !spec_toggles(s, is_key_press, action, now_ms),
{
}

/// The hotkey never stops answering: a press toggles whenever the repeated action is not
/// the hotkey itself and no toggle happened in the last 200 ms, however long ago the last
/// toggle was.
pub proof fn lemma_settled_presses_toggle(s: ListenerState, action: Action, now_ms: u64)
    requires
        !conflicts(action, s.current),
        match s.last_toggle_ms {
            Some(last) => now_ms >= last + TOGGLE_DEBOUNCE_MS,
            None => true,
        },
    ensures
        spec_toggles(s, true, action, now_ms),
{
}

} // verus!
