use vstd::prelude::*;

use crate::icon::{argb_bytes, argb_from_rgba};

verus! {

/// A request from the tray menu to the window.
#[derive(Clone, Copy, Debug, PartialEq, Eq, Structural)]
pub enum TrayCommand {
    ShowWindow,
    Quit,
}

/// The tray tooltip or title: the application's name, marked while clicking.
pub open spec fn spec_tray_title(active: bool) -> Seq<char> {
    if active {
        "A Simple Autoclicker \u{2014} Clicking"@
    } else {
        "A Simple Autoclicker"@
    }
}

/// The tray title for the engine's running state.
pub fn tray_title(active: bool) -> (r: &'static str)
    ensures
        r@ == spec_tray_title(active),
{
    if active {
        "A Simple Autoclicker \u{2014} Clicking"
    } else {
        "A Simple Autoclicker"
    }
}

/// The label of the tray menu's start/stop item.
pub open spec fn spec_toggle_label(active: bool) -> Seq<char> {
    if active {
        "Stop clicking"@
    } else {
        "Start clicking"@
    }
}

/// The start/stop label for the engine's running state.
pub fn toggle_label(active: bool) -> (r: &'static str)
    ensures
        r@ == spec_toggle_label(active),
{
    if active {
        "Stop clicking"
    } else {
        "Start clicking"
    }
}

/// A square tray icon as a StatusNotifier item shows it: its size and its ARGB pixels.
pub struct TrayPixmap {
    pub width: i32,
    pub height: i32,
    pub data: Vec<u8>,
}

/// The tray icon of a square drawing `size` pixels wide, given as RGBA bytes.
pub fn tray_pixmap(size: i32, rgba: &Vec<u8>) -> (r: TrayPixmap)
    ensures
        r.width == size,
        r.height == size,
        r.data@ == argb_bytes(rgba@),
{
    TrayPixmap { width: size, height: size, data: argb_from_rgba(rgba) }
}

/// Reordering whole RGBA pixels keeps every byte: each pixel `r, g, b, a` becomes
/// `a, r, g, b`.
pub proof fn lemma_argb_keeps_whole_pixels(rgba: Seq<u8>)
    requires
        rgba.len() % 4 == 0,
    ensures
        argb_bytes(rgba).len() == rgba.len(),
        forall|k: int|
            0 <= k < rgba.len() / 4 ==> {
                &&& #[trigger] argb_bytes(rgba)[4 * k] == rgba[4 * k + 3]
                &&& argb_bytes(rgba)[4 * k + 1] == rgba[4 * k]
                &&& argb_bytes(rgba)[4 * k + 2] == rgba[4 * k + 1]
                &&& argb_bytes(rgba)[4 * k + 3] == rgba[4 * k + 2]
            },
{
    assert forall|k: int| 0 <= k < rgba.len() / 4 implies {
        &&& #[trigger] argb_bytes(rgba)[4 * k] == rgba[4 * k + 3]
        &&& argb_bytes(rgba)[4 * k + 1] == rgba[4 * k]
        &&& argb_bytes(rgba)[4 * k + 2] == rgba[4 * k + 1]
        &&& argb_bytes(rgba)[4 * k + 3] == rgba[4 * k + 2]
    } by {
        assert((4 * k) % 4 == 0);
        assert((4 * k + 1) % 4 == 1);
        assert((4 * k + 2) % 4 == 2);
        assert((4 * k + 3) % 4 == 3);
    }
}

} // verus!
