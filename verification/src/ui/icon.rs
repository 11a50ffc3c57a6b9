//! The placeholder tray icon: a white disc on a transparent background.

use vstd::prelude::*;

use vstd::arithmetic::div_mod::lemma_fundamental_div_mod_converse;

verus! {

/// Width and height of the icon, in pixels.
pub const ICON_SIZE: u32 = 32;

/// Whether pixel (x, y) lies in the disc of radius 14 around (15.5, 15.5):
/// `(x - 15.5)² + (y - 15.5)² <= 14²`, scaled by four to stay in integers.
pub open spec fn in_icon_disc(x: int, y: int) -> bool {
    (2 * x - 31) * (2 * x - 31) + (2 * y - 31) * (2 * y - 31) <= 784
}

/// The byte at index `k` of the icon's RGBA buffer, rows top to bottom and
/// pixels left to right, four bytes per pixel: every channel is 255 inside the
/// disc and 0 outside it.
pub open spec fn icon_rgba_byte(k: int) -> u8 {
    let pixel = k / 4;
    if in_icon_disc(pixel % 32, pixel / 32) {
        255
    } else {
        0
    }
}

proof fn lemma_icon_index(y: int, x: int, c: int)
    requires
        0 <= y < 32,
        0 <= x < 32,
        0 <= c < 4,
    ensures
        (y * 128 + x * 4 + c) / 4 == y * 32 + x,
        (y * 32 + x) % 32 == x,
        (y * 32 + x) / 32 == y,
{
    lemma_fundamental_div_mod_converse(y * 128 + x * 4 + c, 4, y * 32 + x, c);
    lemma_fundamental_div_mod_converse(y * 32 + x, 32, y, x);
}

/// The RGBA pixels of a 32×32 white disc on a transparent background, the
/// placeholder until a real icon asset is added.
pub fn placeholder_icon_rgba() -> (rgba: Vec<u8>)
    ensures
        rgba@.len() == 32 * 32 * 4,
        forall|k: int| 0 <= k < 32 * 32 * 4 ==> rgba@[k] == icon_rgba_byte(k),
{
    let mut rgba: Vec<u8> = Vec::new();
    let mut y: u32 = 0;
    while y < ICON_SIZE
        invariant
            y <= 32,
            rgba@.len() == y * 128,
            forall|k: int| 0 <= k < rgba@.len() ==> rgba@[k] == icon_rgba_byte(k),
        decreases 32 - y,
    {
        let mut x: u32 = 0;
        while x < ICON_SIZE
            invariant
                y < 32,
                x <= 32,
                rgba@.len() == y * 128 + x * 4,
                forall|k: int| 0 <= k < rgba@.len() ==> rgba@[k] == icon_rgba_byte(k),
            decreases 32 - x,
        {
            let dx: i64 = 2 * (x as i64) - 31;
            let dy: i64 = 2 * (y as i64) - 31;
            assert(0 <= dx * dx <= 961 && 0 <= dy * dy <= 961) by (nonlinear_arith)
                requires
                    -31 <= dx <= 31,
                    -31 <= dy <= 31,
            ;
            let value: u8 = if dx * dx + dy * dy <= 784 {
                255
            } else {
                0
            };
            proof {
                assert(value == (if in_icon_disc(x as int, y as int) { 255u8 } else { 0u8 }));
                lemma_icon_index(y as int, x as int, 0);
                lemma_icon_index(y as int, x as int, 1);
                lemma_icon_index(y as int, x as int, 2);
                lemma_icon_index(y as int, x as int, 3);
            }
            rgba.push(value);
            rgba.push(value);
            rgba.push(value);
            rgba.push(value);
            x += 1;
        }
        y += 1;
    }
    rgba
}

} // verus!
