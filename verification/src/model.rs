use vstd::prelude::*;

verus! {

/// The modifier keys held down together with a recorded key.
#[derive(Clone, Copy, Debug, PartialEq, Eq, Structural)]
pub struct KeyModifiers {
    pub shift: bool,
    pub control: bool,
    pub alt: bool,
    pub super_key: bool,
}

impl KeyModifiers {
    /// No modifier held.
    pub open spec fn none() -> KeyModifiers {
        KeyModifiers { shift: false, control: false, alt: false, super_key: false }
    }

    /// Whether no modifier is held.
    pub fn is_empty(&self) -> (r: bool)
        ensures
            r == (*self == KeyModifiers::none()),
    {
        !self.shift && !self.control && !self.alt && !self.super_key
    }
}

impl Default for KeyModifiers {
    fn default() -> (r: KeyModifiers)
        ensures
            r == KeyModifiers::none(),
    {
        KeyModifiers { shift: false, control: false, alt: false, super_key: false }
    }
}

/// What the engine repeats: a mouse click or a key (a keysym on X11, a virtual-key
/// code on Windows) pressed together with modifiers.
#[derive(Clone, Copy, Debug, PartialEq, Eq, Structural)]
pub enum Action {
    LeftClick,
    MiddleClick,
    RightClick,
    Key { keysym: u64, modifiers: KeyModifiers },
}

impl Action {
    /// Whether the action is one of the three mouse clicks.
    pub fn is_mouse_click(&self) -> (r: bool)
        ensures
            r == !(*self is Key),
    {
        !matches!(self, Action::Key { .. })
    }
}

/// A point on the screen, in pixels from the top-left corner.
#[derive(Clone, Copy, Debug, PartialEq, Eq, Structural)]
pub struct ClickPosition {
    pub x: i32,
    pub y: i32,
}

/// The function keys that can serve as the global start/stop hotkey.
#[derive(Clone, Copy, Debug, PartialEq, Eq, Structural)]
pub enum Hotkey {
    F6,
    F7,
    F8,
    F9,
    F10,
    F11,
    F12,
}

/// The number of hotkeys on offer.
pub const HOTKEY_COUNT: usize = 7;

impl Hotkey {
    /// Every hotkey, in menu order.
    pub const ALL: [Hotkey; 7] = [
        Hotkey::F6,
        Hotkey::F7,
        Hotkey::F8,
        Hotkey::F9,
        Hotkey::F10,
        Hotkey::F11,
        Hotkey::F12,
    ];

    /// The menu label of each hotkey, in the order of `ALL`.
    pub const LABELS: [&'static str; 7] = ["F6", "F7", "F8", "F9", "F10", "F11", "F12"];

    /// The position of a hotkey in menu order.
    pub open spec fn spec_index(self) -> int {
        match self {
            Hotkey::F6 => 0,
            Hotkey::F7 => 1,
            Hotkey::F8 => 2,
            Hotkey::F9 => 3,
            Hotkey::F10 => 4,
            Hotkey::F11 => 5,
            Hotkey::F12 => 6,
        }
    }

    /// The hotkey at a menu position.
    pub open spec fn spec_at(index: int) -> Option<Hotkey> {
        if index == 0 {
            Some(Hotkey::F6)
        } else if index == 1 {
            Some(Hotkey::F7)
        } else if index == 2 {
            Some(Hotkey::F8)
        } else if index == 3 {
            Some(Hotkey::F9)
        } else if index == 4 {
            Some(Hotkey::F10)
        } else if index == 5 {
            Some(Hotkey::F11)
        } else if index == 6 {
            Some(Hotkey::F12)
        } else {
            None
        }
    }

    /// The X11 keysym of the key.
    pub open spec fn spec_keysym(self) -> u64 {
        (0xffc3 + self.spec_index()) as u64
    }

    /// The Windows virtual-key code of the key.
    pub open spec fn spec_virtual_key(self) -> u32 {
        (0x75 + self.spec_index()) as u32
    }

    /// The X11 keysym of the key (`XK_F6` .. `XK_F12`).
    pub fn keysym(self) -> (r: u64)
        ensures
            r == self.spec_keysym(),
    {
        match self {
            Hotkey::F6 => 0xffc3,
            Hotkey::F7 => 0xffc4,
            Hotkey::F8 => 0xffc5,
            Hotkey::F9 => 0xffc6,
            Hotkey::F10 => 0xffc7,
            Hotkey::F11 => 0xffc8,
            Hotkey::F12 => 0xffc9,
        }
    }

    /// The Windows virtual-key code of the key (`VK_F6` .. `VK_F12`).
    pub fn virtual_key(self) -> (r: u32)
        ensures
            r == self.spec_virtual_key(),
    {
        match self {
            Hotkey::F6 => 0x75,
            Hotkey::F7 => 0x76,
            Hotkey::F8 => 0x77,
            Hotkey::F9 => 0x78,
            Hotkey::F10 => 0x79,
            Hotkey::F11 => 0x7a,
            Hotkey::F12 => 0x7b,
        }
    }

    /// The position of the hotkey in `ALL`.
    pub fn index(self) -> (r: usize)
        ensures
            r == self.spec_index(),
            r < HOTKEY_COUNT,
    {
        match self {
            Hotkey::F6 => 0,
            Hotkey::F7 => 1,
            Hotkey::F8 => 2,
            Hotkey::F9 => 3,
            Hotkey::F10 => 4,
            Hotkey::F11 => 5,
            Hotkey::F12 => 6,
        }
    }

    /// The hotkey at a position of `ALL`, if the position is one.
    pub fn from_index(index: usize) -> (r: Option<Hotkey>)
        ensures
            r == Hotkey::spec_at(index as int),
            r is Some <==> index < HOTKEY_COUNT,
    {
        match index {
            0 => Some(Hotkey::F6),
            1 => Some(Hotkey::F7),
            2 => Some(Hotkey::F8),
            3 => Some(Hotkey::F9),
            4 => Some(Hotkey::F10),
            5 => Some(Hotkey::F11),
            6 => Some(Hotkey::F12),
            _ => None,
        }
    }

    /// The menu label: the key's name, `F6` .. `F12`.
    pub fn label(self) -> (r: &'static str)
        ensures
            r@ == Hotkey::spec_label(self),
    {
        match self {
            Hotkey::F6 => {
                proof {
                    reveal_strlit("F6");
                }
                "F6"
            },
            Hotkey::F7 => {
                proof {
                    reveal_strlit("F7");
                }
                "F7"
            },
            Hotkey::F8 => {
                proof {
                    reveal_strlit("F8");
                }
                "F8"
            },
            Hotkey::F9 => {
                proof {
                    reveal_strlit("F9");
                }
                "F9"
            },
            Hotkey::F10 => {
                proof {
                    reveal_strlit("F10");
                }
                "F10"
            },
            Hotkey::F11 => {
                proof {
                    reveal_strlit("F11");
                }
                "F11"
            },
            Hotkey::F12 => {
                proof {
                    reveal_strlit("F12");
                }
                "F12"
            },
        }
    }

    /// The label as characters: `F` followed by the key's number.
    pub open spec fn spec_label(self) -> Seq<char> {
        match self {
            Hotkey::F6 => seq!['F', '6'],
            Hotkey::F7 => seq!['F', '7'],
            Hotkey::F8 => seq!['F', '8'],
            Hotkey::F9 => seq!['F', '9'],
            Hotkey::F10 => seq!['F', '1', '0'],
            Hotkey::F11 => seq!['F', '1', '1'],
            Hotkey::F12 => seq!['F', '1', '2'],
        }
    }
}

/// Menu positions and hotkeys correspond one to one: the hotkey at a key's position is
/// that key, and every position below the count holds the key whose position it is.
pub proof fn lemma_hotkey_index_round_trip(hotkey: Hotkey, index: int)
    ensures
        Hotkey::spec_at(hotkey.spec_index()) == Some(hotkey),
        0 <= index < HOTKEY_COUNT ==> Hotkey::spec_at(index) is Some
            && Hotkey::spec_at(index)->0.spec_index() == index,
{
}

/// No two hotkeys share a keysym or a virtual-key code, so a key press names one hotkey.
pub proof fn lemma_hotkey_codes_unique(a: Hotkey, b: Hotkey)
    ensures
        a.spec_keysym() == b.spec_keysym() <==> a == b,
        a.spec_virtual_key() == b.spec_virtual_key() <==> a == b,
{
}

} // verus!
