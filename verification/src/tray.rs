//! The tray icon bitmap.
use vstd::prelude::*;

verus! {

/// Side length of the square tray icon, in pixels.
pub const ICON_SIZE: usize = 32;

/// An RGBA bitmap, row by row, four bytes per pixel.
pub struct IconBitmap {
    pub rgba: Vec<u8>,
    pub width: u32,
    pub height: u32,
}

/// Whether pixel `(x, y)` lies in the three-pixel frame of the icon.
pub open spec fn in_border(x: int, y: int) -> bool {
    x < 3 || y < 3 || x >= 29 || y >= 29
}

/// Whether pixel `(x, y)` lies in the bright band in the middle.
pub open spec fn in_band(x: int, y: int) -> bool {
    10 <= x < 22 && 8 <= y < 24
}

/// Channel `c` (red, green, blue, alpha) of pixel `(x, y)`: a blue frame, a
/// light blue band, and a dark, slightly translucent background.
pub open spec fn icon_channel(x: int, y: int, c: int) -> u8 {
    if in_border(x, y) {
        if c == 0 { 53 } else if c == 1 { 132 } else if c == 2 { 228 } else { 255 }
    } else if in_band(x, y) {
        if c == 0 { 118 } else if c == 1 { 185 } else { 255 }
    } else {
        if c == 0 { 20 } else if c == 1 { 24 } else if c == 2 { 31 } else { 230 }
    }
}

/// Byte `i` of the bitmap.
pub open spec fn icon_byte(i: int) -> u8 {
    icon_channel((i / 4) % 32, (i / 4) / 32, i % 4)
}

fn pixel(x: usize, y: usize) -> (p: [u8; 4])
    requires
        x < 32,
        y < 32,
    ensures
        forall|c: int| 0 <= c < 4 ==> p@[c] == icon_channel(x as int, y as int, c),
{
    let border = x < 3 || y < 3 || x >= 29 || y >= 29;
    let band = 10 <= x && x < 22 && 8 <= y && y < 24;
    if border {
        [53, 132, 228, 255]
    } else if band {
        [118, 185, 255, 255]
    } else {
        [20, 24, 31, 230]
    }
}

/// The 32×32 tray icon.
pub fn build_icon_data() -> (icon: IconBitmap)
    ensures
        icon.width == 32,
        icon.height == 32,
        icon.rgba@.len() == 32 * 32 * 4,
        forall|i: int| 0 <= i < icon.rgba@.len() ==> icon.rgba@[i] == icon_byte(i),
{
    let mut rgba: Vec<u8> = Vec::new();
    let mut y: usize = 0;
    while y < ICON_SIZE
        invariant
            y <= 32,
            rgba@.len() == y * 32 * 4,
            forall|i: int| 0 <= i < rgba@.len() ==> rgba@[i] == icon_byte(i),
        decreases 32 - y,
    {
        let mut x: usize = 0;
        while x < ICON_SIZE
            invariant
                y < 32,
                x <= 32,
                rgba@.len() == (y * 32 + x) * 4,
                forall|i: int| 0 <= i < rgba@.len() ==> rgba@[i] == icon_byte(i),
            decreases 32 - x,
        {
            let p = pixel(x, y);
            let base = (y * 32 + x) * 4;
            let mut c: usize = 0;
            while c < 4
                invariant
                    y < 32,
                    x < 32,
                    c <= 4,
                    base == (y * 32 + x) * 4,
                    rgba@.len() == base + c,
                    forall|k: int| 0 <= k < 4 ==> p@[k] == icon_channel(x as int, y as int, k),
                    forall|i: int| 0 <= i < rgba@.len() ==> rgba@[i] == icon_byte(i),
                decreases 4 - c,
            {
                let ghost idx = (base + c) as int;
                assert(idx / 4 == y * 32 + x && idx % 4 == c as int) by (nonlinear_arith)
                    requires
                        idx == (y * 32 + x) * 4 + c,
                        c < 4,
                ;
                assert((idx / 4) % 32 == x as int && (idx / 4) / 32 == y as int) by (nonlinear_arith)
                    requires
                        idx / 4 == y * 32 + x,
                        x < 32,
                ;
                rgba.push(p[c]);
                c = c + 1;
            }
            x = x + 1;
        }
        y = y + 1;
    }
    IconBitmap { rgba, width: 32, height: 32 }
}

} // verus!
