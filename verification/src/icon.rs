use vstd::prelude::*;

verus! {

/// The side of the Windows window and tray icon, in pixels.
pub const APP_ICON_SIZE: u32 = 32;

/// Whether pixel (x, y) of the Windows icon lies on its disc: centre (15.5, 15.5),
/// radius 14.5, compared in doubled coordinates, where every value is a whole number.
pub open spec fn on_disc(x: int, y: int) -> bool {
    (2 * x - 31) * (2 * x - 31) + (2 * y - 31) * (2 * y - 31) <= 29 * 29
}

/// Whether pixel (x, y) belongs to the white plus sign of the Windows icon.
pub open spec fn on_mark(x: int, y: int) -> bool {
    (14 <= x <= 17 && 7 <= y <= 23) || (10 <= x <= 21 && 14 <= y <= 17)
}

/// Byte `k` (red, green, blue, alpha) of pixel (x, y) of the Windows icon: a red disc
/// while clicking, a blue one otherwise, with a white plus sign; transparent outside.
pub open spec fn app_icon_byte(active: bool, x: int, y: int, k: int) -> u8 {
    if !on_disc(x, y) {
        0
    } else if k == 3 {
        255
    } else if on_mark(x, y) {
        255
    } else if active {
        if k == 0 {
            224
        } else if k == 1 {
            42
        } else {
            42
        }
    } else {
        if k == 0 {
            28
        } else if k == 1 {
            126
        } else {
            224
        }
    }
}

/// The RGBA bytes of the Windows icon, row by row.
pub open spec fn app_icon_bytes(active: bool) -> Seq<u8> {
    Seq::new(4096, |b: int| app_icon_byte(active, (b / 4) % 32, (b / 4) / 32, b % 4))
}

/// The Windows window and tray icon: RGBA bytes, width and height. The disc test is
/// done in whole numbers; the same test on 32-bit floats, with the centre at 15.5 and
/// the radius 14.5, is exact and gives the same pixels.
pub fn app_icon(active: bool) -> (r: (Vec<u8>, u32, u32))
    ensures
        r.0@ == app_icon_bytes(active),
        r.1 == APP_ICON_SIZE,
        r.2 == APP_ICON_SIZE,
{
    let (red, green, blue): (u8, u8, u8) = if active {
        (224, 42, 42)
    } else {
        (28, 126, 224)
    };
    let mut rgba: Vec<u8> = Vec::new();
    let mut i: u32 = 0;
    while i < 1024
        invariant
            i <= 1024,
            rgba@.len() == 4 * i,
            active ==> red == 224 && green == 42 && blue == 42,
            !active ==> red == 28 && green == 126 && blue == 224,
            forall|b: int| 0 <= b < rgba@.len() ==> #[trigger] rgba@[b] == app_icon_byte(
                active,
                (b / 4) % 32,
                (b / 4) / 32,
                b % 4,
            ),
        decreases 1024 - i,
    {
        let x: i32 = (i % 32) as i32;
        let y: i32 = (i / 32) as i32;
        let dx = 2 * x - 31;
        let dy = 2 * y - 31;
        assert(-31 <= dx <= 33 && -31 <= dy <= 33);
        assert(0 <= dx * dx <= 33 * 33 && 0 <= dy * dy <= 33 * 33) by (nonlinear_arith)
            requires
                -31 <= dx <= 33,
                -31 <= dy <= 33,
        ;
        let inside = dx * dx + dy * dy <= 29 * 29;
        let mark = (14 <= x && x <= 17 && 7 <= y && y <= 23) || (10 <= x && x <= 21 && 14 <= y
            && y <= 17);
        let ghost start = rgba@.len() as int;
        if inside {
            if mark {
                rgba.push(255);
                rgba.push(255);
                rgba.push(255);
            } else {
                rgba.push(red);
                rgba.push(green);
                rgba.push(blue);
            }
            rgba.push(255);
        } else {
            rgba.push(0);
            rgba.push(0);
            rgba.push(0);
            rgba.push(0);
        }
        proof {
            assert forall|b: int| 0 <= b < rgba@.len() implies #[trigger] rgba@[b] == app_icon_byte(
                active,
                (b / 4) % 32,
                (b / 4) / 32,
                b % 4,
            ) by {
                if b >= start {
                    assert(b / 4 == i as int);
                    assert(b % 4 == b - start);
                    assert((b / 4) % 32 == x as int);
                    assert((b / 4) / 32 == y as int);
                    assert(inside == on_disc(x as int, y as int));
                }
            }
        }
        i = i + 1;
    }
    proof {
        assert(rgba@ =~= app_icon_bytes(active));
    }
    (rgba, APP_ICON_SIZE, APP_ICON_SIZE)
}

/// RGBA pixels reordered as ARGB, the order of StatusNotifier tray pixmaps; bytes past
/// the last whole pixel are dropped.
pub open spec fn argb_bytes(rgba: Seq<u8>) -> Seq<u8> {
    Seq::new(
        (4 * (rgba.len() / 4)) as nat,
        |b: int|
            if b % 4 == 0 {
                rgba[b + 3]
            } else {
                rgba[b - 1]
            },
    )
}

/// Reorders RGBA pixels as ARGB for a StatusNotifier tray icon.
pub fn argb_from_rgba(rgba: &Vec<u8>) -> (r: Vec<u8>)
    ensures
        r@ == argb_bytes(rgba@),
{
    let pixels = rgba.len() / 4;
    let mut data: Vec<u8> = Vec::new();
    let mut i: usize = 0;
    while i < pixels
        invariant
            pixels == rgba@.len() / 4,
            i <= pixels,
            data@.len() == 4 * i,
            forall|b: int| 0 <= b < data@.len() ==> #[trigger] data@[b] == (if b % 4 == 0 {
                rgba@[b + 3]
            } else {
                rgba@[b - 1]
            }),
        decreases pixels - i,
    {
        assert(4 * i + 3 < rgba@.len()) by (nonlinear_arith)
            requires
                i < pixels,
                pixels == rgba@.len() / 4,
        ;
        assert(rgba@.len() == rgba.len());
        let base = 4 * i;
        data.push(rgba[base + 3]);
        data.push(rgba[base]);
        data.push(rgba[base + 1]);
        data.push(rgba[base + 2]);
        i = i + 1;
    }
    proof {
        assert(data@ =~= argb_bytes(rgba@));
    }
    data
}

} // verus!
